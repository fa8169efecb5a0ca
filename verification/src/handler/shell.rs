//! Shell commands from the browser.
//!
//! Commands that can lose data or leave the flight controller unresponsive are
//! blocked.
use crate::exchange::SendOutcome;
use crate::handler::rate_limit;
use crate::handler::rate_limit::RateLimiter;
use crate::nsh::{ValidatedNshCommand, NSH_TIMEOUT_MS};
use crate::protocol::frames::{NshCommand, NshResponse};
use crate::text;
use crate::text::{lowercase, same_text, starts_with, trim};
use vstd::prelude::*;

verus! {

/// Longest command, in bytes.
pub const MAX_COMMAND_BYTES: usize = 256;

/// Number of blocked commands.
pub const BLOCKED_COUNT: usize = 5;

/// A blocked command.
pub open spec fn blocked_text(i: int) -> Seq<char> {
    if i == 0 {
        "shutdown"@
    } else if i == 1 {
        "erase"@
    } else if i == 2 {
        "format"@
    } else if i == 3 {
        "hardfault_log"@
    } else {
        "bl_update"@
    }
}

/// A blocked command.
pub fn blocked_command(i: usize) -> (r: &'static str)
    ensures
        r@ == blocked_text(i as int),
{
    if i == 0 {
        "shutdown"
    } else if i == 1 {
        "erase"
    } else if i == 2 {
        "format"
    } else if i == 3 {
        "hardfault_log"
    } else {
        "bl_update"
    }
}

/// Whether a command is this one, with or without arguments. It has been
/// trimmed and put into lower case.
pub open spec fn invokes(normal: Seq<char>, name: Seq<char>) -> bool {
    normal == name || (name + " "@).is_prefix_of(normal)
}

/// The first blocked command at or after `from` that a command invokes, or the
/// number of blocked commands.
pub open spec fn first_blocked(normal: Seq<char>, from: int) -> int
    decreases BLOCKED_COUNT - from,
{
    if from >= BLOCKED_COUNT || invokes(normal, blocked_text(from)) {
        from
    } else {
        first_blocked(normal, from + 1)
    }
}

/// The first blocked command that a trimmed, lower-case command invokes, if
/// any.
pub fn blocked_by(normal: &str) -> (r: Option<usize>)
    ensures
        r is Some <==> first_blocked(normal@, 0) < BLOCKED_COUNT,
        r matches Some(i) ==> i == first_blocked(normal@, 0),
{
    let mut i: usize = 0;
    while i < BLOCKED_COUNT
        invariant
            i <= BLOCKED_COUNT,
            first_blocked(normal@, 0) == first_blocked(normal@, i as int),
        decreases BLOCKED_COUNT - i,
    {
        let name: &str = blocked_command(i);
        let mut with_space: String = name.to_owned();
        with_space.append(" ");
        if same_text(normal, name) || starts_with(normal, with_space.as_str()) {
            return Some(i);
        }
        i = i + 1;
    }
    None
}

/// Why a command is refused on account of its text, if it is; `normal` is the
/// command trimmed and in lower case.
pub open spec fn text_refusal(command: Seq<char>, normal: Seq<char>) -> Option<Seq<char>> {
    if command.len() == 0 {
        Some("Empty command"@)
    } else if vstd::utf8::encode_utf8(command).len() > MAX_COMMAND_BYTES {
        Some("Command too long (max 256 chars)"@)
    } else if first_blocked(normal, 0) < BLOCKED_COUNT {
        Some("Command '"@ + blocked_text(first_blocked(normal, 0)) + "' is blocked for safety"@)
    } else {
        None
    }
}

/// Why a command is refused on account of its text, if it is; `normal` is the
/// command trimmed and in lower case.
pub fn refuse_text(command: &str, normal: &str) -> (r: Option<String>)
    ensures
        (match r {
            Some(m) => Some(m@),
            None => None,
        }) == text_refusal(command@, normal@),
{
    if command.unicode_len() == 0 {
        return Some("Empty command".to_owned());
    }
    if command.as_bytes().len() > MAX_COMMAND_BYTES {
        return Some("Command too long (max 256 chars)".to_owned());
    }
    match blocked_by(normal) {
        None => None,
        Some(i) => {
            let mut out: String = "Command '".to_owned();
            out.append(blocked_command(i));
            out.append("' is blocked for safety");
            Some(out)
        },
    }
}

/// What becomes of a shell command.
#[derive(Debug)]
pub enum ShellVerdict {
    /// It is refused.
    Refused(NshResponse),
    /// It is passed on.
    Forward(ValidatedNshCommand),
}

/// The answer that ends a request without having run it.
pub open spec fn refuses(r: NshResponse, request_id: u32, output: Seq<char>) -> bool {
    &&& r.request_id == request_id
    &&& !r.success
    &&& r.complete
    &&& r.output@ == output
}

fn refusal(request_id: u32, output: String) -> (r: NshResponse)
    ensures
        refuses(r, request_id, output@),
{
    NshResponse { request_id, success: false, complete: true, output }
}

/// Why a shell command is refused, if it is.
pub open spec fn shell_refusal(
    available: bool,
    windows: Map<u64, rate_limit::RateWindow>,
    client: u64,
    nsh: NshCommand,
    now_ms: u64,
) -> Option<Seq<char>> {
    if !available {
        Some("NSH not available (no FC connected)"@)
    } else if !rate_limit::within_limit(windows, client, now_ms) {
        Some(rate_limit::rate_limit_text())
    } else {
        text_refusal(nsh.command@, text::lowered(text::stripped(nsh.command@)))
    }
}

/// Time the shell is given: the default where the request names none.
pub open spec fn shell_timeout(timeout_ms: u16) -> u16 {
    if timeout_ms == 0 {
        NSH_TIMEOUT_MS
    } else {
        timeout_ms
    }
}

/// Decide on a shell command. `available` says whether there is a shell.
pub fn vet_shell_command(
    available: bool,
    limiter: &mut RateLimiter,
    client: u64,
    nsh: &NshCommand,
    now_ms: u64,
) -> (r: ShellVerdict)
    ensures
        match shell_refusal(available, old(limiter)@, client, *nsh, now_ms) {
            Some(output) => r matches ShellVerdict::Refused(a) && refuses(
                a,
                nsh.request_id,
                output,
            ),
            None => r matches ShellVerdict::Forward(c) && c.request_id == nsh.request_id
                && c.command@ == nsh.command@ && c.timeout_ms == shell_timeout(nsh.timeout_ms)
                && c.client_id == client,
        },
        final(limiter)@ == if available && rate_limit::within_limit(
            old(limiter)@,
            client,
            now_ms,
        ) {
            rate_limit::counted(old(limiter)@, client, now_ms)
        } else {
            old(limiter)@
        },
{
    if !available {
        return ShellVerdict::Refused(
            refusal(nsh.request_id, "NSH not available (no FC connected)".to_owned()),
        );
    }
    if let Err(e) = limiter.check_rate_limit(client, now_ms) {
        return ShellVerdict::Refused(refusal(nsh.request_id, e));
    }
    let trimmed: String = trim(nsh.command.as_str());
    let normal: String = lowercase(trimmed.as_str());
    if let Some(output) = refuse_text(nsh.command.as_str(), normal.as_str()) {
        return ShellVerdict::Refused(refusal(nsh.request_id, output));
    }
    ShellVerdict::Forward(
        ValidatedNshCommand {
            request_id: nsh.request_id,
            command: nsh.command.clone(),
            timeout_ms: if nsh.timeout_ms == 0 {
                NSH_TIMEOUT_MS
            } else {
                nsh.timeout_ms
            },
            client_id: client,
        },
    )
}

/// The answer to a shell command that was passed on.
pub fn shell_forwarded(request_id: u32, outcome: SendOutcome) -> (r: NshResponse)
    ensures
        match outcome {
            SendOutcome::Queued => r.request_id == request_id && r.success && !r.complete
                && r.output@.len() == 0,
            SendOutcome::Full => refuses(
                r,
                request_id,
                "NSH busy — previous command still in progress"@,
            ),
            SendOutcome::Disconnected => refuses(
                r,
                request_id,
                "Internal error: NSH channel closed"@,
            ),
        },
{
    match outcome {
        SendOutcome::Queued => NshResponse {
            request_id,
            success: true,
            complete: false,
            output: String::new(),
        },
        SendOutcome::Full => refusal(
            request_id,
            "NSH busy — previous command still in progress".to_owned(),
        ),
        SendOutcome::Disconnected => refusal(
            request_id,
            "Internal error: NSH channel closed".to_owned(),
        ),
    }
}

/// A command that invokes a blocked one is never passed on, whatever its
/// arguments.
pub proof fn law_blocked_commands_are_never_forwarded(
    available: bool,
    windows: Map<u64, rate_limit::RateWindow>,
    client: u64,
    nsh: NshCommand,
    now_ms: u64,
    i: int,
)
    requires
        0 <= i < BLOCKED_COUNT,
        invokes(text::lowered(text::stripped(nsh.command@)), blocked_text(i)),
    ensures
        shell_refusal(available, windows, client, nsh, now_ms) is Some,
{
    lemma_first_blocked(text::lowered(text::stripped(nsh.command@)), 0, i);
}

/// Neither capitals nor blanks around it get a blocked command through.
pub proof fn law_capitals_and_blanks_do_not_unblock(
    available: bool,
    windows: Map<u64, rate_limit::RateWindow>,
    client: u64,
    nsh: NshCommand,
    now_ms: u64,
    i: int,
)
    requires
        0 <= i < BLOCKED_COUNT,
        vstd::utf8::is_ascii_chars(nsh.command@),
        text::without_tail(text::without_lead(nsh.command@)).map_values(
            |c: char| text::lower_letter(c),
        ) == blocked_text(i),
    ensures
        shell_refusal(available, windows, client, nsh, now_ms) is Some,
{
    text::lemma_stripped_stays_ascii(nsh.command@);
    law_blocked_commands_are_never_forwarded(available, windows, client, nsh, now_ms, i);
}

proof fn lemma_first_blocked(normal: Seq<char>, from: int, i: int)
    requires
        0 <= from <= i < BLOCKED_COUNT,
        invokes(normal, blocked_text(i)),
    ensures
        first_blocked(normal, from) <= i,
    decreases BLOCKED_COUNT - from,
{
    if from < i && !invokes(normal, blocked_text(from)) {
        lemma_first_blocked(normal, from + 1, i);
    }
}

/// The commands that are blocked, alone or with arguments after a blank.
pub proof fn law_which_commands_are_blocked(normal: Seq<char>, arguments: Seq<char>)
    ensures
        normal == "shutdown"@ ==> first_blocked(normal, 0) < BLOCKED_COUNT,
        normal == "shutdown"@ + seq![' '] + arguments ==> first_blocked(normal, 0) < BLOCKED_COUNT,
        normal == "erase"@ ==> first_blocked(normal, 0) < BLOCKED_COUNT,
        normal == "erase"@ + seq![' '] + arguments ==> first_blocked(normal, 0) < BLOCKED_COUNT,
        normal == "format"@ ==> first_blocked(normal, 0) < BLOCKED_COUNT,
        normal == "format"@ + seq![' '] + arguments ==> first_blocked(normal, 0) < BLOCKED_COUNT,
        normal == "hardfault_log"@ ==> first_blocked(normal, 0) < BLOCKED_COUNT,
        normal == "hardfault_log"@ + seq![' '] + arguments ==> first_blocked(normal, 0) < BLOCKED_COUNT,
        normal == "bl_update"@ ==> first_blocked(normal, 0) < BLOCKED_COUNT,
        normal == "bl_update"@ + seq![' '] + arguments ==> first_blocked(normal, 0) < BLOCKED_COUNT,
{
    reveal_strlit(" ");
    assert(" "@ =~= seq![' ']);
    if normal == "shutdown"@ + seq![' '] + arguments {
        assert((blocked_text(0) + " "@).is_prefix_of(normal)) by {
            assert(blocked_text(0) + " "@ =~= normal.take((blocked_text(0) + " "@).len() as int));
        }
    }
    if invokes(normal, blocked_text(0)) {
        lemma_first_blocked(normal, 0, 0);
    }
    if normal == "erase"@ + seq![' '] + arguments {
        assert((blocked_text(1) + " "@).is_prefix_of(normal)) by {
            assert(blocked_text(1) + " "@ =~= normal.take((blocked_text(1) + " "@).len() as int));
        }
    }
    if invokes(normal, blocked_text(1)) {
        lemma_first_blocked(normal, 0, 1);
    }
    if normal == "format"@ + seq![' '] + arguments {
        assert((blocked_text(2) + " "@).is_prefix_of(normal)) by {
            assert(blocked_text(2) + " "@ =~= normal.take((blocked_text(2) + " "@).len() as int));
        }
    }
    if invokes(normal, blocked_text(2)) {
        lemma_first_blocked(normal, 0, 2);
    }
    if normal == "hardfault_log"@ + seq![' '] + arguments {
        assert((blocked_text(3) + " "@).is_prefix_of(normal)) by {
            assert(blocked_text(3) + " "@ =~= normal.take((blocked_text(3) + " "@).len() as int));
        }
    }
    if invokes(normal, blocked_text(3)) {
        lemma_first_blocked(normal, 0, 3);
    }
    if normal == "bl_update"@ + seq![' '] + arguments {
        assert((blocked_text(4) + " "@).is_prefix_of(normal)) by {
            assert(blocked_text(4) + " "@ =~= normal.take((blocked_text(4) + " "@).len() as int));
        }
    }
    if invokes(normal, blocked_text(4)) {
        lemma_first_blocked(normal, 0, 4);
    }
}

/// A command is refused on account of its text only if it is empty, longer than
/// 256 bytes, or invokes a blocked one; every other is let through.
pub proof fn law_which_commands_are_let_through(command: Seq<char>, normal: Seq<char>)
    ensures
        text_refusal(command, normal) is None <==> {
            &&& command.len() > 0
            &&& vstd::utf8::encode_utf8(command).len() <= 256
            &&& !invokes(normal, "shutdown"@)
            &&& !invokes(normal, "erase"@)
            &&& !invokes(normal, "format"@)
            &&& !invokes(normal, "hardfault_log"@)
            &&& !invokes(normal, "bl_update"@)
        },
        command.len() == 0 ==> text_refusal(command, normal) == Some("Empty command"@),
        command.len() > 0 && vstd::utf8::encode_utf8(command).len() > 256 ==> text_refusal(
            command,
            normal,
        ) == Some("Command too long (max 256 chars)"@),
{
    lemma_not_blocked(normal, 0);
    if invokes(normal, blocked_text(0)) {
        lemma_first_blocked(normal, 0, 0);
    }
    if invokes(normal, blocked_text(1)) {
        lemma_first_blocked(normal, 0, 1);
    }
    if invokes(normal, blocked_text(2)) {
        lemma_first_blocked(normal, 0, 2);
    }
    if invokes(normal, blocked_text(3)) {
        lemma_first_blocked(normal, 0, 3);
    }
    if invokes(normal, blocked_text(4)) {
        lemma_first_blocked(normal, 0, 4);
    }
}

proof fn lemma_not_blocked(normal: Seq<char>, from: int)
    requires
        0 <= from <= BLOCKED_COUNT,
    ensures
        from <= first_blocked(normal, from) <= BLOCKED_COUNT,
        first_blocked(normal, from) < BLOCKED_COUNT ==> invokes(
            normal,
            blocked_text(first_blocked(normal, from)),
        ),
    decreases BLOCKED_COUNT - from,
{
    if from < BLOCKED_COUNT && !invokes(normal, blocked_text(from)) {
        lemma_not_blocked(normal, from + 1);
    }
}

/// A word that only begins like a blocked command is another command.
pub proof fn law_a_longer_word_is_another_command(name: Seq<char>, rest: Seq<char>)
    requires
        rest.len() > 0,
        rest[0] != ' ',
    ensures
        !invokes(name + rest, name),
        invokes(name, name),
        invokes(name + seq![' '] + rest, name),
{
    reveal_strlit(" ");
    assert(" "@ =~= seq![' ']);
    assert((name + rest).len() > name.len());
    if (name + " "@).is_prefix_of(name + rest) {
        assert((name + " "@)[name.len() as int] == ' ');
        assert((name + rest)[name.len() as int] == rest[0]);
        assert((name + " "@) == (name + rest).take((name + " "@).len() as int));
    }
    assert((name + " "@).is_prefix_of(name + seq![' '] + rest)) by {
        assert(name + " "@ =~= (name + seq![' '] + rest).take((name + " "@).len() as int));
    }
}

/// Without a shell every command is refused; over its limit a client's is; and
/// otherwise only its text decides, trimmed and in lower case.
pub proof fn law_when_a_shell_command_is_refused(
    available: bool,
    windows: Map<u64, rate_limit::RateWindow>,
    client: u64,
    nsh: NshCommand,
    now_ms: u64,
)
    ensures
        !available ==> shell_refusal(available, windows, client, nsh, now_ms) == Some(
            "NSH not available (no FC connected)"@,
        ),
        available && !rate_limit::within_limit(windows, client, now_ms) ==> shell_refusal(
            available,
            windows,
            client,
            nsh,
            now_ms,
        ) == Some(rate_limit::rate_limit_text()),
        available && rate_limit::within_limit(windows, client, now_ms) ==> shell_refusal(
            available,
            windows,
            client,
            nsh,
            now_ms,
        ) == text_refusal(nsh.command@, text::lowered(text::stripped(nsh.command@))),
{
}

/// A command has the time its request names, and two seconds if it names none.
pub proof fn law_how_long_a_shell_command_has(timeout_ms: u16)
    ensures
        timeout_ms != 0 ==> shell_timeout(timeout_ms) == timeout_ms,
        shell_timeout(0) == 2000,
{
}

/// A refusal answers its own request, ends it, and says why.
pub proof fn law_what_a_refusal_says(r: NshResponse, request_id: u32, output: Seq<char>)
    requires
        refuses(r, request_id, output),
    ensures
        r.request_id == request_id,
        !r.success,
        r.complete,
        r.output@ == output,
{
}

/// A blocked command is refused with the name of what is blocked.
pub proof fn law_what_a_blocked_command_is_told(command: Seq<char>, normal: Seq<char>)
    requires
        0 < command.len(),
        vstd::utf8::encode_utf8(command).len() <= 256,
        text_refusal(command, normal) is Some,
    ensures
        exists|i: int|
            0 <= i < 5 && invokes(normal, #[trigger] blocked_text(i)) && text_refusal(
                command,
                normal,
            ) == Some("Command '"@ + blocked_text(i) + "' is blocked for safety"@),
{
    lemma_not_blocked(normal, 0);
    let i = first_blocked(normal, 0);
    assert(invokes(normal, blocked_text(i)));
}

} // verus!
