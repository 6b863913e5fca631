use exponent_lint::markup::{Markup, MarkupElement, MarkupNode, PrintAction, PrintState, PrintStep};
use std::io::{self, Write};
use termcolor::{Ansi, Color, ColorSpec, WriteColor};

/// Carries the actions of a printing out on `fmt`.
fn print_to<W: WriteColor>(markup: &Markup, fmt: &mut W) -> io::Result<()> {
    let mut step = markup.print::<io::Error>();
    loop {
        match step {
            PrintStep::Finished(result) => return result,
            PrintStep::Perform(action, state) => {
                let outcome = match action {
                    PrintAction::SetColor(color) => fmt.set_color(&color),
                    PrintAction::Write(text) => fmt.write_all(text.as_bytes()),
                    PrintAction::Reset => fmt.reset(),
                };
                step = markup.resume(state, outcome);
            }
        }
    }
}

/// A stream that keeps a log of what it is asked for and fails at the
/// requests whose number, counted from zero, is listed.
struct Scripted {
    log: Vec<String>,
    failing: Vec<usize>,
}

impl Scripted {
    fn new(failing: &[usize]) -> Scripted {
        Scripted { log: Vec::new(), failing: failing.to_vec() }
    }

    fn answer(&mut self, request: String) -> io::Result<()> {
        let number = self.log.len();
        self.log.push(request);
        if self.failing.contains(&number) {
            Err(io::Error::new(io::ErrorKind::BrokenPipe, format!("request {}", number)))
        } else {
            Ok(())
        }
    }
}

impl Write for Scripted {
    fn write(&mut self, buf: &[u8]) -> io::Result<usize> {
        let text = String::from_utf8_lossy(buf).into_owned();
        self.answer(format!("write {}", text))?;
        Ok(buf.len())
    }

    fn flush(&mut self) -> io::Result<()> {
        Ok(())
    }
}

impl WriteColor for Scripted {
    fn supports_color(&self) -> bool {
        true
    }

    fn set_color(&mut self, spec: &ColorSpec) -> io::Result<()> {
        let request = format!("color bold={} fg={:?}", spec.bold(), spec.fg());
        self.answer(request)
    }

    fn reset(&mut self) -> io::Result<()> {
        self.answer("reset".to_string())
    }
}

fn two_nodes<'a>() -> [MarkupNode<'a>; 2] {
    [
        MarkupNode { elements: &[MarkupElement::Emphasis, MarkupElement::Error], content: "error" },
        MarkupNode { elements: &[], content: ": broken" },
    ]
}

#[test]
fn printing_writes_each_node_in_its_colour_and_resets() {
    let nodes = two_nodes();
    let markup = Markup(&nodes);
    let mut output = Ansi::new(Vec::new());
    print_to(&markup, &mut output).expect("writing to memory does not fail");

    let mut expected = Ansi::new(Vec::new());
    let mut first = ColorSpec::new();
    first.set_bold(true).set_fg(Some(Color::Red));
    expected.set_color(&first).unwrap();
    expected.write_all("error".as_bytes()).unwrap();
    expected.set_color(&ColorSpec::new()).unwrap();
    expected.write_all(": broken".as_bytes()).unwrap();
    expected.reset().unwrap();
    assert_eq!(output.into_inner(), expected.into_inner());
}

#[test]
fn printing_asks_for_colour_text_and_reset_in_order() {
    let nodes = two_nodes();
    let markup = Markup(&nodes);
    let mut stream = Scripted::new(&[]);
    assert!(print_to(&markup, &mut stream).is_ok());
    assert_eq!(
        stream.log,
        vec![
            "color bold=true fg=Some(Red)",
            "write error",
            "color bold=false fg=None",
            "write : broken",
            "reset",
        ]
    );
}

#[test]
fn printing_nothing_still_resets() {
    let markup = Markup(&[]);
    let mut stream = Scripted::new(&[]);
    assert!(print_to(&markup, &mut stream).is_ok());
    assert_eq!(stream.log, vec!["reset"]);
}

#[test]
fn failure_to_set_the_colour_resets_and_is_reported() {
    let nodes = two_nodes();
    let markup = Markup(&nodes);
    let mut stream = Scripted::new(&[2]);
    let error = print_to(&markup, &mut stream).expect_err("the third request fails");
    assert_eq!(error.to_string(), "request 2");
    assert_eq!(
        stream.log,
        vec!["color bold=true fg=Some(Red)", "write error", "color bold=false fg=None", "reset"]
    );
}

#[test]
fn failure_to_write_resets_and_is_reported() {
    let nodes = two_nodes();
    let markup = Markup(&nodes);
    let mut stream = Scripted::new(&[1]);
    let error = print_to(&markup, &mut stream).expect_err("the second request fails");
    assert_eq!(error.to_string(), "request 1");
    assert_eq!(stream.log, vec!["color bold=true fg=Some(Red)", "write error", "reset"]);
}

#[test]
fn failing_reset_after_a_failure_still_reports_the_first_failure() {
    let nodes = two_nodes();
    let markup = Markup(&nodes);
    let mut stream = Scripted::new(&[0, 1]);
    let error = print_to(&markup, &mut stream).expect_err("both requests fail");
    assert_eq!(error.to_string(), "request 0");
    assert_eq!(stream.log, vec!["color bold=true fg=Some(Red)", "reset"]);

    let mut stream = Scripted::new(&[3, 4]);
    let error = print_to(&markup, &mut stream).expect_err("the write and the reset fail");
    assert_eq!(error.to_string(), "request 3");
    assert_eq!(stream.log.len(), 5);
    assert_eq!(stream.log[4], "reset");
}

#[test]
fn failing_last_reset_is_reported() {
    let nodes = two_nodes();
    let markup = Markup(&nodes);
    let mut stream = Scripted::new(&[4]);
    let error = print_to(&markup, &mut stream).expect_err("the reset fails");
    assert_eq!(error.to_string(), "request 4");
    assert_eq!(stream.log.len(), 5);
    assert_eq!(stream.log[4], "reset");
}

#[test]
fn steps_follow_the_answers_of_the_stream() {
    let nodes = two_nodes();
    let markup = Markup(&nodes);
    let state = match markup.print::<u8>() {
        PrintStep::Perform(PrintAction::SetColor(color), state) => {
            assert!(color.bold());
            assert_eq!(color.fg(), Some(&Color::Red));
            state
        }
        _ => panic!("printing begins with the colour of the first node"),
    };
    assert!(matches!(state, PrintState::Coloring(0)));
    let state = match markup.resume(state, Ok(())) {
        PrintStep::Perform(PrintAction::Write(text), state) => {
            assert_eq!(text, "error");
            state
        }
        _ => panic!("the text follows the colour"),
    };
    assert!(matches!(state, PrintState::Writing(0)));
    let state = match markup.resume(state, Err(3)) {
        PrintStep::Perform(PrintAction::Reset, state) => state,
        _ => panic!("the reset follows a failure"),
    };
    assert!(matches!(state, PrintState::Resetting(Some(3))));
    assert!(matches!(markup.resume(state, Ok(())), PrintStep::Finished(Err(3))));
    assert!(matches!(
        markup.resume(PrintState::Resetting(Some(3)), Err(4)),
        PrintStep::Finished(Err(3))
    ));
    assert!(matches!(
        markup.resume(PrintState::<u8>::Resetting(None), Err(4)),
        PrintStep::Finished(Err(4))
    ));
    assert!(matches!(
        markup.resume(PrintState::<u8>::Resetting(None), Ok(())),
        PrintStep::Finished(Ok(()))
    ));
    // A state that names no node leads to the reset.
    assert!(matches!(
        markup.resume(PrintState::<u8>::Coloring(7), Ok(())),
        PrintStep::Perform(PrintAction::Reset, PrintState::Resetting(None))
    ));
    assert!(matches!(
        markup.resume(PrintState::<u8>::Writing(1), Ok(())),
        PrintStep::Perform(PrintAction::Reset, PrintState::Resetting(None))
    ));
    assert!(matches!(
        markup.resume(PrintState::<u8>::Writing(usize::MAX), Ok(())),
        PrintStep::Perform(PrintAction::Reset, PrintState::Resetting(None))
    ));
}
