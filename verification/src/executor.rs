//! Command execution: interprets a [`Command`] against the session state.
//!
//! Pure commands (`Quit`, `Nop`, `Chain`) are executed here. A `RunQuery`
//! is handed back to the driver as a [`Step::Query`]; the driver runs it
//! against the query engine and applies the outcome with [`apply_outcome`]
//! before stepping on. A `Chain` is unfolded onto an explicit worklist, so
//! its elements run in order with no self-referential recursion.

use vstd::prelude::*;
use vstd::string::StringExecFns;
use crate::command::Command;
use crate::state::{State, StateV};

verus! {

/// Outcome of one query, as handed back by the query-execution capability:
/// the rendered rows text on success, or a description of the failure.
#[derive(Debug, PartialEq, Eq)]
pub enum QueryOutcome {
    Success(String),
    Failure(String),
}

/// What [`Executor::step`] asks of its driver next.
#[derive(Debug, PartialEq, Eq)]
pub enum Step {
    /// Run this query text, then apply its outcome with [`apply_outcome`].
    Query(String),
    /// A command was executed without outside help; keep stepping.
    Continue,
    /// No commands are left.
    Finished,
}

/// The status text set after a successful query.
pub open spec fn success_status() -> Seq<char> {
    "Query executed successfully"@
}

/// The status text set after a failed query with the given description.
pub open spec fn failure_status(err: Seq<char>) -> Seq<char> {
    "Failed to run query: "@ + err
}

/// The state after `Quit`: `is_running` is false and nothing else changes.
pub open spec fn quit_state(st: StateV) -> StateV {
    StateV { is_running: false, ..st }
}

/// The state after a query outcome is applied. Success stores the rendered
/// rows, reports success, and clears the query buffer. Failure clears the
/// result, reports the failure, and leaves the buffer untouched so the user
/// can correct and resubmit. Neither touches `is_running` or the mode.
pub open spec fn outcome_state(st: StateV, outcome: QueryOutcome) -> StateV {
    match outcome {
        QueryOutcome::Success(rows) => StateV {
            result: rows@,
            status: success_status(),
            query: Seq::<char>::empty(),
            ..st
        },
        QueryOutcome::Failure(err) => StateV {
            result: Seq::<char>::empty(),
            status: failure_status(err@),
            ..st
        },
    }
}

/// Record a query outcome in the session state, exactly as
/// [`outcome_state`] says.
pub fn apply_outcome(state: &mut State, outcome: QueryOutcome)
    ensures
        final(state)@ == outcome_state(old(state)@, outcome),
{
    match outcome {
        QueryOutcome::Success(rows) => {
            state.result = rows;
            state.status = "Query executed successfully".to_owned();
            state.query = String::new();
        },
        QueryOutcome::Failure(err) => {
            state.result = String::new();
            let mut message = "Failed to run query: ".to_owned();
            message.append(err.as_str());
            state.status = message;
        },
    }
}

/// Law: `Quit` sets `is_running` to false and is idempotent: executing it
/// a second time changes nothing further.
pub proof fn lemma_quit_idempotent(st: StateV)
    ensures
        quit_state(st).is_running == false,
        quit_state(quit_state(st)) == quit_state(st),
{
    assert(quit_state(quit_state(st)) =~= quit_state(st));
}

/// Law: applying a query outcome never changes `is_running` or the mode;
/// a success clears the query buffer, a failure leaves it untouched.
pub proof fn lemma_outcome_keeps_running(st: StateV, outcome: QueryOutcome)
    ensures
        outcome_state(st, outcome).is_running == st.is_running,
        outcome_state(st, outcome).mode == st.mode,
        outcome matches QueryOutcome::Success(rows) ==> outcome_state(st, outcome).query.len() == 0,
        outcome matches QueryOutcome::Failure(err) ==> outcome_state(st, outcome).query == st.query,
{
}

/// Runs commands against the session state, one per [`Executor::step`]
/// call, keeping the commands still owed on an explicit worklist.
pub struct Executor {
    /// Commands still to execute, as a stack: the last element runs next.
    pub todo: Vec<Command>,
}

impl Executor {
    /// An executor that owes exactly `cmd`.
    pub fn new(cmd: Command) -> (e: Executor)
        ensures
            e.todo@ == seq![cmd],
    {
        let mut todo: Vec<Command> = Vec::new();
        todo.push(cmd);
        proof {
            assert(todo@ =~= seq![cmd]);
        }
        Executor { todo }
    }

    /// Execute the next pending command, if any.
    ///
    /// `Quit` latches `is_running` to false; `Nop` does nothing; a `Chain`
    /// is unfolded so that its elements run next, in order; a `RunQuery` is
    /// handed back as [`Step::Query`] for the driver to run. No step ever
    /// flips `is_running` back to true.
    pub fn step(&mut self, state: &mut State) -> (r: Step)
        ensures
            old(self).todo@.len() == 0 ==> r == Step::Finished
                && final(self).todo@ == old(self).todo@
                && final(state)@ == old(state)@,
            old(self).todo@.len() > 0 ==> {
                let c = old(self).todo@.last();
                &&& (c matches Command::Nop ==> r == Step::Continue
                    && final(self).todo@ == old(self).todo@.drop_last()
                    && final(state)@ == old(state)@)
                &&& (c matches Command::Quit ==> r == Step::Continue
                    && final(self).todo@ == old(self).todo@.drop_last()
                    && final(state)@ == quit_state(old(state)@))
                &&& (c matches Command::RunQuery(q) ==> (r matches Step::Query(t) && t@ == q@)
                    && final(self).todo@ == old(self).todo@.drop_last()
                    && final(state)@ == old(state)@)
                &&& (c matches Command::Chain(v) ==> r == Step::Continue
                    && final(self).todo@ == old(self).todo@.drop_last() + v@.reverse()
                    && final(state)@ == old(state)@)
            },
            !old(state)@.is_running ==> !final(state)@.is_running,
    {
        match self.todo.pop() {
            None => Step::Finished,
            Some(c) => match c {
                Command::Nop => Step::Continue,
                Command::Quit => {
                    state.is_running = false;
                    Step::Continue
                },
                Command::RunQuery(q) => Step::Query(q),
                Command::Chain(mut rest) => {
                    let ghost base = self.todo@;
                    let ghost orig = rest@;
                    proof {
                        assert(orig.subrange(0, orig.len() as int) =~= orig);
                        assert(base + orig.subrange(orig.len() as int, orig.len() as int).reverse()
                            =~= base);
                    }
                    while rest.len() > 0
                        invariant
                            rest@.len() <= orig.len(),
                            rest@ == orig.subrange(0, rest@.len() as int),
                            self.todo@ == base
                                + orig.subrange(rest@.len() as int, orig.len() as int).reverse(),
                        decreases rest.len(),
                    {
                        let ghost n = rest@.len() as int;
                        let next = rest.pop().unwrap();
                        self.todo.push(next);
                        proof {
                            assert(rest@ =~= orig.subrange(0, n - 1));
                            assert(self.todo@ =~= base
                                + orig.subrange(n - 1, orig.len() as int).reverse());
                        }
                    }
                    proof {
                        assert(self.todo@ =~= base + orig.reverse());
                    }
                    Step::Continue
                },
            },
        }
    }
}

} // verus!
