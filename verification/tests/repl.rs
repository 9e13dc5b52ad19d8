use waxe::repl::{prompt, Repl, ReplAction, ReplEvent};
use waxe::trio::Trio;

fn line(s: &str) -> ReplEvent {
    ReplEvent::Line(s.to_string())
}

#[test]
fn prompts() {
    assert_eq!(prompt(false), "js> ");
    assert_eq!(prompt(true), "> ");
}

#[test]
fn single_line_statement() {
    let mut r = Repl::new();
    assert!(matches!(r.pending(), ReplAction::Read { continuation: false }));
    let (out, a) = r.step(line("version()"));
    assert!(out.is_none());
    assert!(matches!(a, ReplAction::Check { ref buffer } if buffer == "version()"));
    let (out, a) = r.step(ReplEvent::Complete(true));
    assert!(out.is_none());
    assert!(matches!(a, ReplAction::Eval { ref source, line: 2 } if source == "version()"));
    let (out, a) = r.step(ReplEvent::Evaluated(Trio::Value("JavaScript-C67.0.3".to_string())));
    assert_eq!(out.as_deref(), Some("JavaScript-C67.0.3"));
    assert!(matches!(a, ReplAction::Read { continuation: false }));
}

#[test]
fn lines_join_until_complete() {
    let mut r = Repl::new();
    let (_, a) = r.step(line("function f() {"));
    assert!(matches!(a, ReplAction::Check { ref buffer } if buffer == "function f() {"));
    let (_, a) = r.step(ReplEvent::Complete(false));
    assert!(matches!(a, ReplAction::Read { continuation: true }));
    let (_, a) = r.step(line("return 1 }"));
    assert!(matches!(a, ReplAction::Check { ref buffer } if buffer == "function f() {return 1 }"));
    let (_, a) = r.step(ReplEvent::Complete(true));
    assert!(matches!(a, ReplAction::Eval { ref source, line: 3 } if source == "function f() {return 1 }"));
    let (out, a) = r.step(ReplEvent::Evaluated(Trio::Empty));
    assert!(out.is_none());
    assert!(matches!(a, ReplAction::Read { continuation: false }));
    let (_, a) = r.step(line("x"));
    assert!(matches!(a, ReplAction::Check { ref buffer } if buffer == "x"));
}

#[test]
fn errors_are_printed() {
    let mut r = Repl::new();
    r.step(line("x"));
    r.step(ReplEvent::Complete(true));
    let (out, a) = r.step(ReplEvent::Evaluated(Trio::Error("Uncaught exception at typein:1:1 - x".to_string())));
    assert_eq!(out.as_deref(), Some("Uncaught exception at typein:1:1 - x"));
    assert!(matches!(a, ReplAction::Read { continuation: false }));
}

#[test]
fn interrupt_and_eof_end_the_shell() {
    let mut r = Repl::new();
    let (out, a) = r.step(ReplEvent::Interrupted);
    assert_eq!(out.as_deref(), Some("CTRL-C"));
    assert!(matches!(a, ReplAction::Exit));
    let mut r = Repl::new();
    r.step(line("1 +"));
    r.step(ReplEvent::Complete(false));
    let (out, a) = r.step(ReplEvent::Eof);
    assert_eq!(out.as_deref(), Some("CTRL-D"));
    assert!(matches!(a, ReplAction::Exit));
}

#[test]
fn read_failure_evaluates_what_was_read() {
    let mut r = Repl::new();
    r.step(line("1 +"));
    r.step(ReplEvent::Complete(false));
    let (out, a) = r.step(ReplEvent::ReadFailed("Errno(EIO)".to_string()));
    assert_eq!(out.as_deref(), Some("Error: Errno(EIO)"));
    assert!(matches!(a, ReplAction::Eval { ref source, line: 2 } if source == "1 +"));
}

#[test]
fn line_numbers_count_lines() {
    let mut r = Repl::new();
    for _ in 0..3 {
        r.step(line("a"));
        r.step(ReplEvent::Complete(true));
        r.step(ReplEvent::Evaluated(Trio::Empty));
    }
    r.step(line("b"));
    let (_, a) = r.step(ReplEvent::Complete(true));
    assert!(matches!(a, ReplAction::Eval { line: 5, .. }));
}
