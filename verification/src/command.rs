//! The command algebra: the discrete effects that one input event can
//! request, and the model the input dispatcher is specified against.

use vstd::prelude::*;

verus! {

/// A discrete effect requested by input translation: run a query, run a
/// sequence of commands in order, do nothing, or stop the event loop.
#[derive(Debug, PartialEq, Eq)]
pub enum Command {
    /// Run the carried query text against the query engine.
    RunQuery(String),
    /// Execute each element in order; a query failure inside one element
    /// does not abort the rest.
    Chain(Vec<Command>),
    /// Do nothing.
    Nop,
    /// Stop the event loop.
    Quit,
}

/// Model of the single command that one input dispatch emits. Dispatch
/// never builds a `Chain`, so the model has no such case.
pub enum CommandModel {
    RunQuery(Seq<char>),
    Quit,
    Nop,
}

/// Whether the executable command `c` is exactly the one the model `m`
/// describes.
pub open spec fn command_is(c: Command, m: CommandModel) -> bool {
    match m {
        CommandModel::RunQuery(q) => c matches Command::RunQuery(s) && s@ == q,
        CommandModel::Quit => c == Command::Quit,
        CommandModel::Nop => c == Command::Nop,
    }
}

} // verus!
