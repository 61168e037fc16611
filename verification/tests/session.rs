use guess_game::ReadOutcome;
use guess_game::echo_line;
use guess_game::prompts;
use guess_game::respond;
use guess_game::run_session;

#[test]
fn prompts_are_fixed() {
    let p = prompts();
    assert_eq!(p.len(), 2);
    assert_eq!(p[0], "Guess a number!");
    assert_eq!(p[1], "Please input your guess!");
}

#[test]
fn echo_keeps_text_verbatim() {
    assert_eq!(echo_line("42\n"), "You guessed: 42\n");
    assert_eq!(echo_line(""), "You guessed: ");
    assert_eq!(echo_line("  spaced  \n"), "You guessed:   spaced  \n");
}

#[test]
fn respond_echoes_a_completed_read() {
    let outcome = ReadOutcome::Line(String::from("7\n"));
    assert_eq!(respond(&outcome), Some(String::from("You guessed: 7\n")));
}

#[test]
fn respond_yields_nothing_on_failure() {
    assert_eq!(respond(&ReadOutcome::Failure), None);
}

#[test]
fn session_echoes_line_with_newline() {
    let t = run_session(ReadOutcome::Line(String::from("42\n")));
    assert!(!t.aborted);
    assert_eq!(t.lines.len(), 3);
    assert_eq!(t.lines[0], "Guess a number!");
    assert_eq!(t.lines[1], "Please input your guess!");
    assert_eq!(t.lines[2], "You guessed: 42\n");
}

#[test]
fn session_echoes_empty_line_at_end_of_stream() {
    let t = run_session(ReadOutcome::Line(String::new()));
    assert!(!t.aborted);
    assert_eq!(t.lines.len(), 3);
    assert_eq!(t.lines[0], "Guess a number!");
    assert_eq!(t.lines[1], "Please input your guess!");
    assert_eq!(t.lines[2], "You guessed: ");
}

#[test]
fn session_aborts_without_echo_on_failed_read() {
    let t = run_session(ReadOutcome::Failure);
    assert!(t.aborted);
    assert_eq!(t.lines.len(), 2);
    assert_eq!(t.lines[0], "Guess a number!");
    assert_eq!(t.lines[1], "Please input your guess!");
}

#[test]
fn session_repeats_identically() {
    let first = run_session(ReadOutcome::Line(String::from("42\n")));
    let second = run_session(ReadOutcome::Line(String::from("42\n")));
    assert_eq!(first.lines, second.lines);
    assert_eq!(first.aborted, second.aborted);
    let third = run_session(ReadOutcome::Failure);
    let fourth = run_session(ReadOutcome::Failure);
    assert_eq!(third.lines, fourth.lines);
    assert_eq!(third.aborted, fourth.aborted);
}
