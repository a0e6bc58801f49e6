//! Session state for the modal query client: the current mode, the query
//! buffer being composed, and the last status and result texts.

use vstd::prelude::*;

verus! {

/// Input mode. In `Normal` mode keys are application commands; in `Insert`
/// mode keys edit the pending query buffer.
#[derive(Clone, Copy, Debug, PartialEq, Eq, Structural)]
pub enum Mode {
    Normal,
    Insert,
}

/// Mathematical model of a [`State`]: the same fields, with text as
/// sequences of characters.
#[verifier::ext_equal]
pub struct StateV {
    pub is_running: bool,
    pub mode: Mode,
    pub status: Seq<char>,
    pub query: Seq<char>,
    pub result: Seq<char>,
}

/// The session state threaded through the event loop.
#[derive(Debug)]
pub struct State {
    /// While true the event loop keeps going; `false` is terminal.
    pub is_running: bool,
    /// Governs how the next key is interpreted.
    pub mode: Mode,
    /// Human-readable message about the last operation.
    pub status: String,
    /// The query text typed so far, edited only in `Insert` mode.
    pub query: String,
    /// Rendered rows of the most recent successful query, or empty.
    pub result: String,
}

impl View for State {
    type V = StateV;

    open spec fn view(&self) -> StateV {
        StateV {
            is_running: self.is_running,
            mode: self.mode,
            status: self.status@,
            query: self.query@,
            result: self.result@,
        }
    }
}

/// The greeting shown in the footer before any command has run.
pub open spec fn welcome_message() -> Seq<char> {
    "Welcome to dbvi! Press `q` to quit."@
}

/// The state a fresh session starts in: running, `Normal` mode, the welcome
/// status, and empty query and result texts.
pub open spec fn initial_state() -> StateV {
    StateV {
        is_running: true,
        mode: Mode::Normal,
        status: welcome_message(),
        query: Seq::<char>::empty(),
        result: Seq::<char>::empty(),
    }
}

impl State {
    pub fn new() -> (s: State)
        ensures
            s@ == initial_state(),
    {
        let s = State {
            is_running: true,
            mode: Mode::Normal,
            status: "Welcome to dbvi! Press `q` to quit.".to_owned(),
            query: String::new(),
            result: String::new(),
        };
        proof {
            assert(s@ =~= initial_state());
        }
        s
    }
}

} // verus!
