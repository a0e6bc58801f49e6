//! Modal input dispatch: translates one input event into at most one
//! [`Command`], mutating the mode and the query buffer as a side effect.

use vstd::prelude::*;
use crate::command::{Command, CommandModel, command_is};
use crate::state::{Mode, State, StateV};

verus! {

/// A key press, reduced to what the state machine distinguishes.
#[derive(Clone, Copy, Debug, PartialEq, Eq)]
pub enum Key {
    /// A printable character.
    Char(char),
    Enter,
    Esc,
    Backspace,
    /// Any other key; ignored in both modes.
    Other,
}

/// One input event. Only key presses drive the state machine; everything
/// else (resize, mouse, ...) is deliberately filtered out.
#[derive(Clone, Copy, Debug, PartialEq, Eq)]
pub enum Event {
    Key(Key),
    Other,
}

/// The state after one event is dispatched. In `Normal` mode `i` enters
/// `Insert` mode and every other key leaves the state alone. In `Insert`
/// mode a character is appended to the query buffer, `Esc` and `Enter`
/// return to `Normal` mode without touching the buffer, and `Backspace`
/// drops the last character, doing nothing on an empty buffer.
pub open spec fn dispatch_state(st: StateV, ev: Event) -> StateV {
    match ev {
        Event::Key(k) => match st.mode {
            Mode::Normal => match k {
                Key::Char(c) => if c == 'i' {
                    StateV { mode: Mode::Insert, ..st }
                } else {
                    st
                },
                _ => st,
            },
            Mode::Insert => match k {
                Key::Char(c) => StateV { query: st.query.push(c), ..st },
                Key::Enter => StateV { mode: Mode::Normal, ..st },
                Key::Esc => StateV { mode: Mode::Normal, ..st },
                Key::Backspace => if st.query.len() == 0 {
                    st
                } else {
                    StateV { query: st.query.drop_last(), ..st }
                },
                Key::Other => st,
            },
        },
        Event::Other => st,
    }
}

/// The command one event emits: `q` in `Normal` mode asks to quit, `Enter`
/// in `Insert` mode asks to run the buffer as it stands, everything else is
/// a no-op.
pub open spec fn dispatch_command(st: StateV, ev: Event) -> CommandModel {
    match ev {
        Event::Key(k) => match st.mode {
            Mode::Normal => match k {
                Key::Char(c) => if c == 'q' {
                    CommandModel::Quit
                } else {
                    CommandModel::Nop
                },
                _ => CommandModel::Nop,
            },
            Mode::Insert => match k {
                Key::Enter => CommandModel::RunQuery(st.query),
                _ => CommandModel::Nop,
            },
        },
        Event::Other => CommandModel::Nop,
    }
}

/// Relies on `String::push`: appends the given character to the end of the
/// string.
#[verifier::external_body]
fn push_char(s: &mut String, c: char)
    ensures
        final(s)@ == old(s)@.push(c),
{
    s.push(c);
}

/// Relies on `String::pop`: removes and returns the last character, or
/// returns `None` when the string is empty.
#[verifier::external_body]
fn pop_char(s: &mut String) -> (r: Option<char>)
    ensures
        old(s)@.len() == 0 ==> final(s)@ == old(s)@ && r is None,
        old(s)@.len() > 0 ==> final(s)@ == old(s)@.drop_last() && r == Some(old(s)@.last()),
{
    s.pop()
}

/// Consume one input event: mutate mode and query buffer exactly as
/// [`dispatch_state`] says, and return exactly the command
/// [`dispatch_command`] says.
pub fn handle_input(state: &mut State, event: Event) -> (cmd: Command)
    ensures
        final(state)@ == dispatch_state(old(state)@, event),
        command_is(cmd, dispatch_command(old(state)@, event)),
{
    match event {
        Event::Key(key) => {
            let mode = state.mode;
            match mode {
                Mode::Normal => match key {
                    Key::Char(c) => {
                        if c == 'q' {
                            Command::Quit
                        } else if c == 'i' {
                            state.mode = Mode::Insert;
                            Command::Nop
                        } else {
                            Command::Nop
                        }
                    },
                    _ => Command::Nop,
                },
                Mode::Insert => match key {
                    Key::Char(c) => {
                        push_char(&mut state.query, c);
                        Command::Nop
                    },
                    Key::Enter => {
                        state.mode = Mode::Normal;
                        Command::RunQuery(state.query.clone())
                    },
                    Key::Esc => {
                        state.mode = Mode::Normal;
                        Command::Nop
                    },
                    Key::Backspace => {
                        let _popped = pop_char(&mut state.query);
                        Command::Nop
                    },
                    Key::Other => Command::Nop,
                },
            }
        },
        Event::Other => Command::Nop,
    }
}

/// The state after typing each character of `keys`, in order, as character
/// key events.
pub open spec fn feed_chars(st: StateV, keys: Seq<char>) -> StateV
    decreases keys.len(),
{
    if keys.len() == 0 {
        st
    } else {
        feed_chars(dispatch_state(st, Event::Key(Key::Char(keys.first()))), keys.drop_first())
    }
}

/// Law: typing any sequence of character keys in `Insert` mode appends
/// exactly those characters, in order, to the query buffer; the mode stays
/// `Insert` and nothing else changes.
pub proof fn lemma_insert_typing_appends(st: StateV, keys: Seq<char>)
    requires
        st.mode is Insert,
    ensures
        feed_chars(st, keys).query == st.query + keys,
        feed_chars(st, keys).mode is Insert,
        feed_chars(st, keys).is_running == st.is_running,
        feed_chars(st, keys).status == st.status,
        feed_chars(st, keys).result == st.result,
    decreases keys.len(),
{
    if keys.len() == 0 {
        assert(st.query + keys =~= st.query);
    } else {
        let st1 = dispatch_state(st, Event::Key(Key::Char(keys.first())));
        lemma_insert_typing_appends(st1, keys.drop_first());
        assert(st1.query + keys.drop_first() =~= st.query + keys);
    }
}

/// Law: backspace on an empty buffer is a no-op: the buffer stays empty and
/// no error or underflow occurs.
pub proof fn lemma_backspace_on_empty(st: StateV)
    requires
        st.mode is Insert,
        st.query.len() == 0,
    ensures
        dispatch_state(st, Event::Key(Key::Backspace)) == st,
        dispatch_command(st, Event::Key(Key::Backspace)) is Nop,
{
}

/// Law: `i` in `Normal` mode always switches to `Insert` mode, emitting no
/// command; while already in `Insert` mode, `i` has no special meaning and
/// is appended to the buffer like any other character.
pub proof fn lemma_i_key(st: StateV)
    ensures
        st.mode is Normal ==> dispatch_state(st, Event::Key(Key::Char('i')))
            == (StateV { mode: Mode::Insert, ..st }),
        st.mode is Insert ==> dispatch_state(st, Event::Key(Key::Char('i')))
            == (StateV { query: st.query.push('i'), ..st }),
        dispatch_command(st, Event::Key(Key::Char('i'))) is Nop,
{
}

/// Law: `Enter` in `Insert` mode always returns to `Normal` mode and emits
/// exactly one `RunQuery` carrying the buffer as it stood at the keypress;
/// the buffer itself is left untouched.
pub proof fn lemma_enter_submits(st: StateV)
    requires
        st.mode is Insert,
    ensures
        dispatch_state(st, Event::Key(Key::Enter)) == (StateV { mode: Mode::Normal, ..st }),
        dispatch_command(st, Event::Key(Key::Enter)) == CommandModel::RunQuery(st.query),
{
}

} // verus!
