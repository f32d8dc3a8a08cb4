use gstopentok::common::Error;
use gstopentok::plan::judge;
use gstopentok::plan::Fault;
use gstopentok::plan::Name;
use gstopentok::plan::Node;
use gstopentok::plan::OnFailure;
use gstopentok::plan::Pad;
use gstopentok::plan::Planned;
use gstopentok::plan::Step;
use gstopentok::plan::Verdict;

fn plan() -> Vec<Planned> {
    vec![
        Planned { step: Step::ReadCaps, on_failure: OnFailure::Ignore },
        Planned {
            step: Step::ReadCaps,
            on_failure: OnFailure::Report(Fault::MissingElement("queue")),
        },
        Planned { step: Step::ReadCaps, on_failure: OnFailure::Abort },
    ]
}

fn run(results: &[bool]) -> Verdict {
    let plan = plan();
    for at in 0..plan.len() {
        match judge(&plan, at, results[at]) {
            Verdict::Next => {}
            decided => return decided,
        }
    }
    unreachable!()
}

#[test]
fn first_failure_decides() {
    assert!(matches!(run(&[true, true, true]), Verdict::Done));
    assert!(matches!(run(&[false, true, true]), Verdict::Done));
    assert!(matches!(
        run(&[false, false, false]),
        Verdict::Failed(Fault::MissingElement("queue"))
    ));
    assert!(matches!(run(&[true, true, false]), Verdict::Abort));
}

#[test]
fn faults_become_errors() {
    let text = |fault: Fault| fault.error("template").map(|error| error.message());
    assert_eq!(
        text(Fault::MissingElement("queue")).unwrap(),
        Error::MissingElement("queue").message()
    );
    assert_eq!(text(Fault::AddElement("x")).unwrap(), "Cannot add element x");
    assert_eq!(text(Fault::LinkElements("x")).unwrap(), "Cannot link elements: x");
    assert_eq!(text(Fault::ElementPad("x")).unwrap(), "Cannot get element pad x");
    assert_eq!(text(Fault::PadActivation("x")).unwrap(), "Cannot activate pad x");
    assert_eq!(
        text(Fault::PadConstruction("audio", "ghost pad")).unwrap(),
        "Cannot create pad audio ghost pad"
    );
    assert_eq!(text(Fault::TemplatePad("shm_bin_sink")).unwrap(), "Cannot create pad shm_bin_sink template");
    assert_eq!(text(Fault::Raised), None);
    assert_eq!(text(Fault::StateChange), None);
}

#[test]
fn names_are_resolved() {
    assert_eq!(Name::Unnamed.resolve("pad", "socket"), None);
    assert_eq!(Name::Fixed("src").resolve("pad", "socket").as_deref(), Some("src"));
    assert_eq!(Name::OfPad.resolve("pad", "socket").as_deref(), Some("pad"));
    assert_eq!(Name::Prefixed("bin_").resolve("pad", "socket").as_deref(), Some("bin_pad"));
    assert_eq!(Name::OfSocket.resolve("pad", "socket").as_deref(), Some("socket"));
}

#[test]
fn elements_and_pads_are_known() {
    assert_eq!(Node::ShmSink.factory(), Some("shmsink"));
    assert_eq!(Node::AppSrc.factory(), Some("appsrc"));
    assert_eq!(Node::Element.factory(), None);
    assert_eq!(Pad::QueueSink.origin(), Some((Node::Queue, "sink")));
    assert_eq!(Pad::Audio.origin(), Some((Node::Element, "audio_stream")));
    assert_eq!(Pad::Given.origin(), None);
}
