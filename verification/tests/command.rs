use lapce_shell::command::{LapceUICommand, Submission, Target, UiCommandSink};
use lapce_shell::window::WindowIdentityMint;

fn open(path: &str) -> LapceUICommand {
    LapceUICommand::OpenFile(path.to_string())
}

#[test]
fn new_sink_is_open_and_empty() {
    let mut sink = UiCommandSink::new();
    assert!(sink.is_open());
    assert_eq!(sink.pending(), 0);
    assert_eq!(sink.next_command(), None);
    assert!(sink.is_open());
}

#[test]
fn commands_are_taken_in_the_order_submitted() {
    let mut sink = UiCommandSink::new();
    let n = 200;
    for i in 0..n {
        sink.submit(open(&format!("/tmp/file{}", i)), Target::Global);
    }
    assert_eq!(sink.pending(), n);
    for i in 0..n {
        assert_eq!(
            sink.next_command(),
            Some(Submission { command: open(&format!("/tmp/file{}", i)), target: Target::Global })
        );
    }
    assert_eq!(sink.next_command(), None);
    assert_eq!(sink.pending(), 0);
}

#[test]
fn taking_between_submissions_keeps_the_order() {
    let mut sink = UiCommandSink::new();
    sink.submit(open("a"), Target::Global);
    sink.submit(open("b"), Target::Global);
    assert_eq!(sink.next_command().map(|s| s.command), Some(open("a")));
    sink.submit(open("c"), Target::Global);
    assert_eq!(sink.next_command().map(|s| s.command), Some(open("b")));
    assert_eq!(sink.next_command().map(|s| s.command), Some(open("c")));
    assert_eq!(sink.next_command(), None);
}

#[test]
fn the_target_travels_with_the_command() {
    let mut mint = WindowIdentityMint::new();
    let a = mint.mint().unwrap();
    let b = mint.mint().unwrap();
    let mut sink = UiCommandSink::new();
    sink.submit(open("x"), Target::Window(a));
    sink.submit(open("y"), Target::Global);
    sink.submit(open("z"), Target::Window(b));
    assert_eq!(sink.next_command(), Some(Submission { command: open("x"), target: Target::Window(a) }));
    assert_eq!(sink.next_command(), Some(Submission { command: open("y"), target: Target::Global }));
    assert_eq!(sink.next_command(), Some(Submission { command: open("z"), target: Target::Window(b) }));
}

#[test]
fn submitting_after_shut_down_is_dropped_silently() {
    let mut sink = UiCommandSink::new();
    sink.shut_down();
    assert!(!sink.is_open());
    for i in 0..10 {
        sink.submit(open(&format!("{}", i)), Target::Global);
    }
    assert_eq!(sink.pending(), 0);
    assert_eq!(sink.next_command(), None);
    assert!(!sink.is_open());
}

#[test]
fn shut_down_drops_what_was_pending() {
    let mut sink = UiCommandSink::new();
    sink.submit(open("a"), Target::Global);
    sink.submit(open("b"), Target::Global);
    sink.shut_down();
    assert_eq!(sink.pending(), 0);
    assert_eq!(sink.next_command(), None);
    sink.shut_down();
    assert!(!sink.is_open());
}
