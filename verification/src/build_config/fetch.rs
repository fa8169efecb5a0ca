//! Fetching component records from the catalogue.
use vstd::prelude::*;

verus! {

/// Why a record could not be fetched.
#[derive(Clone, Debug)]
pub enum FetchFault {
    /// The request failed.
    Request(String),
    /// The catalogue refused it, with this status.
    Status(String),
    /// The answer could not be read.
    Parse(String),
    /// The answer holds no specifications.
    NoSpecs,
}

/// The text of a fault.
pub open spec fn fetch_fault_text(f: FetchFault) -> Seq<char> {
    match f {
        FetchFault::Request(e) => "HTTP request failed: "@ + e@,
        FetchFault::Status(s) => "API returned "@ + s@,
        FetchFault::Parse(e) => "Failed to parse response: "@ + e@,
        FetchFault::NoSpecs => "Response missing 'specs' field"@,
    }
}

impl FetchFault {
    /// The text of this fault.
    pub fn text(&self) -> (r: String)
        ensures
            r@ == fetch_fault_text(*self),
    {
        match self {
            FetchFault::Request(e) => {
                let mut out: String = "HTTP request failed: ".to_owned();
                out.append(e.as_str());
                out
            },
            FetchFault::Status(s) => {
                let mut out: String = "API returned ".to_owned();
                out.append(s.as_str());
                out
            },
            FetchFault::Parse(e) => {
                let mut out: String = "Failed to parse response: ".to_owned();
                out.append(e.as_str());
                out
            },
            FetchFault::NoSpecs => "Response missing 'specs' field".to_owned(),
        }
    }
}

/// Where the catalogue is unless another is configured.
pub fn default_api_url() -> (r: String)
    ensures
        r@ == "https://api.th3seus.net"@,
{
    "https://api.th3seus.net".to_owned()
}

/// Where the record of a component is.
pub open spec fn component_place(api_url: Seq<char>, slug: Seq<char>) -> Seq<char> {
    api_url + "/api/components/"@ + slug
}

/// Where the record of a component is.
pub fn component_url(api_url: &str, slug: &str) -> (r: String)
    ensures
        r@ == component_place(api_url@, slug@),
{
    let mut out: String = api_url.to_owned();
    out.append("/api/components/");
    out.append(slug);
    out
}

/// The record of a component is at the catalogue, among the components, under
/// the component's own name.
pub proof fn law_where_a_component_is(api_url: Seq<char>, slug: Seq<char>)
    ensures
        ({
            let at = component_place(api_url, slug);
            let n = api_url.len() as int;
            &&& at.len() == n + 16 + slug.len()
            &&& at.take(n) == api_url
            &&& at.skip(n + 16) == slug
            &&& at.subrange(n, n + 16) == "/api/components/"@
        }),
{
    reveal_strlit("/api/components/");
    let at = component_place(api_url, slug);
    let n = api_url.len() as int;
    assert(at.take(n) =~= api_url);
    assert(at.skip(n + 16) =~= slug);
    assert(at.subrange(n, n + 16) =~= "/api/components/"@);
}

/// A fault says what went wrong, in the words of whoever reported it.
pub proof fn law_what_a_fault_says(f: FetchFault)
    ensures
        f matches FetchFault::Request(e) ==> fetch_fault_text(f) == "HTTP request failed: "@ + e@,
        f matches FetchFault::Status(s) ==> fetch_fault_text(f) == "API returned "@ + s@,
        f matches FetchFault::Parse(e) ==> fetch_fault_text(f) == "Failed to parse response: "@
            + e@,
        f is NoSpecs ==> fetch_fault_text(f) == "Response missing 'specs' field"@,
{
}

} // verus!
