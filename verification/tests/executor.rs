use dbvi::command::Command;
use dbvi::executor::{apply_outcome, Executor, QueryOutcome, Step};
use dbvi::input::{handle_input, Event, Key};
use dbvi::state::{Mode, State};

/// Drives the executor to completion, answering each requested query with
/// `answer`, and returns the query texts in the order they were requested.
fn drive(cmd: Command, st: &mut State, answer: impl Fn(&str) -> QueryOutcome) -> Vec<String> {
    let mut asked: Vec<String> = Vec::new();
    let mut ex = Executor::new(cmd);
    loop {
        match ex.step(st) {
            Step::Query(text) => {
                let outcome = answer(&text);
                asked.push(text);
                apply_outcome(st, outcome);
            }
            Step::Continue => {}
            Step::Finished => break,
        }
    }
    asked
}

#[test]
fn quit_sets_running_false() {
    let mut st = State::new();
    let asked = drive(Command::Quit, &mut st, |_| unreachable!());
    assert!(asked.is_empty());
    assert!(!st.is_running);
}

#[test]
fn quit_is_idempotent() {
    let mut st = State::new();
    drive(Command::Quit, &mut st, |_| unreachable!());
    let status = st.status.clone();
    drive(Command::Quit, &mut st, |_| unreachable!());
    assert!(!st.is_running);
    assert_eq!(st.status, status);
    assert_eq!(st.query, "");
}

#[test]
fn nop_changes_nothing() {
    let mut st = State::new();
    let asked = drive(Command::Nop, &mut st, |_| unreachable!());
    assert!(asked.is_empty());
    assert!(st.is_running);
    assert_eq!(st.mode, Mode::Normal);
    assert_eq!(st.status, "Welcome to dbvi! Press `q` to quit.");
}

#[test]
fn run_query_hands_the_text_to_the_driver() {
    let mut st = State::new();
    let mut ex = Executor::new(Command::RunQuery("select 1".to_string()));
    match ex.step(&mut st) {
        Step::Query(text) => assert_eq!(text, "select 1"),
        other => panic!("expected a query request, got {:?}", other),
    }
    assert_eq!(ex.step(&mut st), Step::Finished);
}

#[test]
fn successful_query_clears_the_buffer() {
    let mut st = State::new();
    st.query = "select 1".to_string();
    let asked = drive(
        Command::RunQuery("select 1".to_string()),
        &mut st,
        |_| QueryOutcome::Success("[row]".to_string()),
    );
    assert_eq!(asked, vec!["select 1".to_string()]);
    assert_eq!(st.result, "[row]");
    assert_eq!(st.status, "Query executed successfully");
    assert_eq!(st.query, "");
    assert!(st.is_running);
}

#[test]
fn failed_query_preserves_the_buffer() {
    let mut st = State::new();
    st.query = "bad sql".to_string();
    st.result = "stale rows".to_string();
    drive(
        Command::RunQuery("bad sql".to_string()),
        &mut st,
        |_| QueryOutcome::Failure("syntax error".to_string()),
    );
    assert_eq!(st.result, "");
    assert_eq!(st.status, "Failed to run query: syntax error");
    assert_eq!(st.query, "bad sql");
    assert!(st.is_running);
}

#[test]
fn chain_does_not_abort_on_a_query_failure() {
    let mut st = State::new();
    let chain = Command::Chain(vec![
        Command::RunQuery("bad sql".to_string()),
        Command::Quit,
    ]);
    let asked = drive(chain, &mut st, |_| {
        QueryOutcome::Failure("bad sql is not valid".to_string())
    });
    assert_eq!(asked, vec!["bad sql".to_string()]);
    assert!(!st.is_running);
    assert_eq!(st.status, "Failed to run query: bad sql is not valid");
}

#[test]
fn chain_runs_elements_in_order() {
    let mut st = State::new();
    let chain = Command::Chain(vec![
        Command::RunQuery("a".to_string()),
        Command::Nop,
        Command::Chain(vec![
            Command::RunQuery("b".to_string()),
            Command::RunQuery("c".to_string()),
        ]),
        Command::RunQuery("d".to_string()),
    ]);
    let asked = drive(chain, &mut st, |q| QueryOutcome::Success(format!("rows of {}", q)));
    assert_eq!(
        asked,
        vec![
            "a".to_string(),
            "b".to_string(),
            "c".to_string(),
            "d".to_string(),
        ]
    );
    assert_eq!(st.result, "rows of d");
    assert!(st.is_running);
}

#[test]
fn empty_chain_finishes_without_effect() {
    let mut st = State::new();
    let asked = drive(Command::Chain(Vec::new()), &mut st, |_| unreachable!());
    assert!(asked.is_empty());
    assert!(st.is_running);
}

#[test]
fn end_to_end_select_one() {
    let mut st = State::new();
    let keys = ['i', 's', 'e', 'l', 'e', 'c', 't', ' ', '1'];
    let mut commands: Vec<Command> = Vec::new();
    for k in keys {
        commands.push(handle_input(&mut st, Event::Key(Key::Char(k))));
    }
    assert_eq!(st.query, "select 1");
    commands.push(handle_input(&mut st, Event::Key(Key::Enter)));
    assert_eq!(st.mode, Mode::Normal);

    let run_queries: Vec<&Command> = commands
        .iter()
        .filter(|c| matches!(c, Command::RunQuery(_)))
        .collect();
    assert_eq!(run_queries.len(), 1);
    assert_eq!(*run_queries[0], Command::RunQuery("select 1".to_string()));

    let mut asked: Vec<String> = Vec::new();
    for cmd in commands {
        for q in drive(cmd, &mut st, |_| QueryOutcome::Success("1".to_string())) {
            asked.push(q);
        }
    }
    assert_eq!(asked, vec!["select 1".to_string()]);
    assert_eq!(st.query, "");
    assert_eq!(st.result, "1");
    assert!(st.is_running);
}

#[test]
fn end_to_end_quit() {
    let mut st = State::new();
    let cmd = handle_input(&mut st, Event::Key(Key::Char('q')));
    assert_eq!(cmd, Command::Quit);
    let asked = drive(cmd, &mut st, |_| unreachable!());
    assert!(asked.is_empty());
    assert!(!st.is_running);
}
