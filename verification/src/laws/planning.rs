//! How plans are carried out.

use crate::common::error::Error;
use crate::plan::judge;
use crate::plan::Fault;
use crate::plan::Name;
use crate::plan::Node;
use crate::plan::OnFailure;
use crate::plan::Pad;
use crate::plan::Planned;
use crate::plan::Verdict;
use vstd::prelude::*;

verus! {

/// A plan goes on after a step that succeeds, and after one whose failure is ignored, and it is done
/// after the last one. A failure that is to be reported ends it with that reason, and any other
/// failure is fatal.
pub proof fn law_steps_decide_about_the_plan(
    plan: &Vec<Planned>,
    at: usize,
    succeeded: bool,
    decided: Verdict,
)
    requires
        at < plan@.len(),
        call_ensures(judge, (plan, at, succeeded), decided),
    ensures
        decided is Next || decided is Done <==> succeeded || plan@[at as int].on_failure is Ignore,
        decided is Next ==> at + 1 < plan@.len(),
        decided is Done ==> at + 1 == plan@.len(),
        decided is Failed <==> !succeeded && plan@[at as int].on_failure is Report,
        decided matches Verdict::Failed(fault) ==> plan@[at as int].on_failure
            == OnFailure::Report(fault),
        decided is Abort <==> !succeeded && plan@[at as int].on_failure is Abort,
{
}

/// The verdict after each step of a plan was found with [`judge`].
pub open spec fn judged(plan: &Vec<Planned>, results: Seq<bool>, verdicts: Seq<Verdict>) -> bool {
    &&& results.len() == plan@.len()
    &&& verdicts.len() == plan@.len()
    &&& forall|at: usize|
        at < plan@.len() ==> #[trigger] call_ensures(
            judge,
            (plan, at, results[at as int]),
            verdicts[at as int],
        )
}

/// A plan all of whose steps succeed is carried out to its end.
pub proof fn law_successful_plan_is_carried_out(
    plan: &Vec<Planned>,
    results: Seq<bool>,
    verdicts: Seq<Verdict>,
    at: usize,
)
    requires
        judged(plan, results, verdicts),
        forall|i: int| 0 <= i < results.len() ==> #[trigger] results[i],
        at < plan@.len(),
    ensures
        verdicts[at as int] is Done <==> at + 1 == plan@.len(),
        verdicts[at as int] is Next <==> at + 1 < plan@.len(),
{
    assert(call_ensures(judge, (plan, at, results[at as int]), verdicts[at as int]));
}

/// Objects are named as the plan says: by a word of its own, after the pad, after the pad with
/// something in front, after the socket, or not at all.
pub proof fn law_objects_are_named_as_planned(
    pad: &str,
    socket: &str,
    word: &'static str,
    unnamed: Option<String>,
    fixed: Option<String>,
    of_pad: Option<String>,
    prefixed: Option<String>,
    of_socket: Option<String>,
)
    requires
        call_ensures(Name::resolve, (Name::Unnamed, pad, socket), unnamed),
        call_ensures(Name::resolve, (Name::Fixed(word), pad, socket), fixed),
        call_ensures(Name::resolve, (Name::OfPad, pad, socket), of_pad),
        call_ensures(Name::resolve, (Name::Prefixed(word), pad, socket), prefixed),
        call_ensures(Name::resolve, (Name::OfSocket, pad, socket), of_socket),
    ensures
        unnamed is None,
        fixed matches Some(name) && name@ == word@,
        of_pad matches Some(name) && name@ == pad@,
        prefixed matches Some(name) && name@ == word@ + pad@,
        of_socket matches Some(name) && name@ == socket@,
{
}

/// A reason for giving a plan up becomes the error of the same kind about the same thing. What
/// GStreamer says itself becomes none of them.
pub proof fn law_faults_become_errors(fault: Fault, detail: &str, error: Option<Error>)
    requires
        call_ensures(Fault::error, (fault, detail), error),
    ensures
        error is None <==> fault is Raised || fault is StateChange,
        fault matches Fault::MissingElement(name) ==> error == Some(Error::MissingElement(name)),
        fault matches Fault::AddElement(name) ==> error == Some(Error::AddElement(name)),
        fault matches Fault::LinkElements(names) ==> error == Some(Error::LinkElements(names)),
        fault matches Fault::ElementPad(name) ==> error == Some(Error::ElementPad(name)),
        fault matches Fault::PadActivation(name) ==> error == Some(Error::PadActivation(name)),
        fault matches Fault::PadConstruction(name, what) ==> (error matches Some(
            Error::PadConstruction(found, text),
        ) && found == name && text@ == what@),
        fault matches Fault::TemplatePad(name) ==> (error matches Some(
            Error::PadConstruction(found, text),
        ) && found == name && text@ == detail@),
{
}

/// A pad that an element has from the start is found at that element: a queue is fed through its
/// sink and feeds others through its source, and an application source only feeds others.
pub proof fn law_static_pads_are_found(pad: Pad, origin: Option<(Node, &'static str)>)
    requires
        call_ensures(Pad::origin, (pad,), origin),
    ensures
        origin is Some <==> pad is QueueSink || pad is QueueSrc || pad is AppSrcSrc || pad is Audio,
        origin matches Some((node, name)) ==> {
            &&& node is Queue <==> pad is QueueSink || pad is QueueSrc
            &&& node is AppSrc <==> pad is AppSrcSrc
            &&& node is Element <==> pad is Audio
            &&& pad is QueueSink ==> name@ == "sink"@
            &&& pad is QueueSrc || pad is AppSrcSrc ==> name@ == "src"@
            &&& pad is Audio ==> name@ == "audio_stream"@
        },
{
}

/// An element that a plan makes is made under the name of its kind, and two kinds have two names.
pub proof fn law_elements_are_made_by_kind(
    node: Node,
    factory: Option<&'static str>,
    other: Node,
    other_factory: Option<&'static str>,
)
    requires
        call_ensures(Node::factory, (node,), factory),
        call_ensures(Node::factory, (other,), other_factory),
    ensures
        factory is None <==> node is Element || node is Pipeline || node is OpenTok || node
            is AudioAppSrc,
        node is Bin ==> factory->0@ == "bin"@,
        node is Queue ==> factory->0@ == "queue"@,
        node is CapsFilter ==> factory->0@ == "capsfilter"@,
        node is ShmSink ==> factory->0@ == "shmsink"@,
        node is ShmSrc ==> factory->0@ == "shmsrc"@,
        node is AppSrc ==> factory->0@ == "appsrc"@,
        factory is Some && other_factory is Some && factory->0@ == other_factory->0@ ==> node
            == other,
{
    reveal_strlit("bin");
    reveal_strlit("queue");
    reveal_strlit("capsfilter");
    reveal_strlit("shmsink");
    reveal_strlit("shmsrc");
    reveal_strlit("appsrc");
    assert("bin"@.len() == 3);
    assert("queue"@.len() == 5);
    assert("capsfilter"@.len() == 10);
    assert("shmsink"@.len() == 7);
    assert("shmsrc"@.len() == 6 && "shmsrc"@[0] == 's');
    assert("appsrc"@.len() == 6 && "appsrc"@[0] == 'a');
}

} // verus!
