//! The daemon's session-scoped copy of a parameter snapshot.
//!
//! In memory only. The browser is the system of record; the daemon keeps a
//! copy so that a restore issued during the same session does not need a round
//! trip, and nothing more.
use crate::protocol::provisioning::SnapshotParam;
use crate::text::same_text;
use vstd::prelude::*;

verus! {

/// A snapshot bound to the board it was taken from.
#[derive(Clone, Debug)]
pub struct StoredSnapshot {
    /// The board.
    pub board_identity: String,
    /// The parameters.
    pub params: Vec<SnapshotParam>,
}

/// Session-lifetime snapshot holder.
#[derive(Debug)]
pub struct SessionSnapshot {
    held: Option<StoredSnapshot>,
}

impl View for SessionSnapshot {
    type V = Option<StoredSnapshot>;

    closed spec fn view(&self) -> Option<StoredSnapshot> {
        self.held
    }
}

/// Whether a held snapshot belongs to a board.
pub open spec fn belongs_to(held: Option<StoredSnapshot>, board: Seq<char>) -> bool {
    held matches Some(s) && s.board_identity@ == board
}

impl SessionSnapshot {
    /// An empty holder: a restarted daemon knows nothing until a browser
    /// supplies a snapshot.
    pub fn new() -> (r: SessionSnapshot)
        ensures
            r@ is None,
    {
        SessionSnapshot { held: None }
    }

    /// Record a snapshot for this session, replacing any previous one.
    pub fn store(&mut self, snapshot: StoredSnapshot)
        ensures
            final(self)@ == Some(snapshot),
    {
        self.held = Some(snapshot);
    }

    /// The snapshot for a board, if one is held for that board. A snapshot of
    /// another board is never handed out: restoring one board's tuning onto
    /// another is what this mechanism exists to prevent.
    pub fn get(&self, board_identity: &str) -> (r: Option<&StoredSnapshot>)
        ensures
            r is Some <==> belongs_to(self@, board_identity@),
            r matches Some(s) ==> self@ == Some(*s) && s.board_identity@ == board_identity@,
    {
        match &self.held {
            None => None,
            Some(s) => {
                if same_text(s.board_identity.as_str(), board_identity) {
                    Some(s)
                } else {
                    None
                }
            },
        }
    }

    /// Whether no snapshot is held, whatever the board.
    pub fn is_empty(&self) -> (r: bool)
        ensures
            r == (self@ is None),
    {
        self.held.is_none()
    }

    /// Drop the held snapshot.
    pub fn clear(&mut self)
        ensures
            final(self)@ is None,
    {
        self.held = None;
    }
}

impl Default for SessionSnapshot {
    fn default() -> (r: SessionSnapshot)
        ensures
            r@ is None,
    {
        SessionSnapshot::new()
    }
}

/// A snapshot belongs to the board it was taken from and to no other; without a
/// snapshot nothing belongs to any board.
pub proof fn law_a_snapshot_belongs_to_its_own_board(s: StoredSnapshot, board: Seq<char>)
    ensures
        belongs_to(Some(s), s.board_identity@),
        s.board_identity@ != board ==> !belongs_to(Some(s), board),
        !belongs_to(None, board),
{
}

} // verus!
