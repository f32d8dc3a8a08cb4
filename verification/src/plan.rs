//! Plans: what an element or the helper does to its GStreamer objects, step by step, and what a
//! step that fails leads to.

use crate::common::error::Error;
use crate::text::join2;
use crate::text::opt_text;
use vstd::prelude::*;

verus! {

/// A GStreamer element that a plan speaks of.
#[derive(Clone, Copy, Debug, PartialEq, Eq, Structural)]
pub enum Node {
    /// The element on whose behalf the plan is carried out.
    Element,
    /// The pipeline of the helper.
    Pipeline,
    /// The OpenTok element in the pipeline of the helper.
    OpenTok,
    Bin,
    Queue,
    CapsFilter,
    ShmSink,
    ShmSrc,
    /// The source that a subscriber feeds.
    AppSrc,
    /// The source that the audio of a session feeds.
    AudioAppSrc,
}

/// A pad that a plan speaks of.
#[derive(Clone, Copy, Debug, PartialEq, Eq, Structural)]
pub enum Pad {
    /// The pad for which the plan is carried out.
    Given,
    QueueSink,
    QueueSrc,
    AppSrcSrc,
    /// The pad through which the bin is fed.
    BinSink,
    /// The pad through which the bin feeds others.
    BinSrc,
    /// The pad that the element shows to the outside.
    Exposed,
    /// The pad through which the element gives the audio of a session.
    Audio,
    /// The pad that the OpenTok element hands out on request.
    Requested,
}

/// How an object gets its name.
#[derive(Clone, Copy, Debug)]
pub enum Name {
    /// GStreamer picks one.
    Unnamed,
    /// This one.
    Fixed(&'static str),
    /// The name of the pad for which the plan is carried out.
    OfPad,
    /// This prefix, and the name of the pad.
    Prefixed(&'static str),
    /// The last part of the path of the socket.
    OfSocket,
}

/// The state that an element is put into.
#[derive(Clone, Copy, Debug, PartialEq, Eq, Structural)]
pub enum State {
    Null,
    Ready,
    Playing,
}

/// One thing to do to the GStreamer objects.
#[derive(Clone, Copy, Debug)]
pub enum Step {
    /// Makes an element.
    Make(Node, Name),
    /// Looks up the OpenTok element in the pipeline.
    FindOpenTok,
    /// Sets a property to yes or no.
    SetFlag(Node, &'static str, bool),
    /// Sets the property `socket-path` to the path of the socket.
    SetSocketPath(Node),
    /// Sets the property `format` to timestamps.
    SetTimeFormat(Node),
    /// Reads the announced capabilities.
    ReadCaps,
    /// Sets the property `caps` to the announced capabilities.
    SetCaps(Node),
    /// Puts the second element into the first.
    Add(Node, Node),
    /// Takes the second element out of the first.
    Remove(Node, Node),
    /// Links the first element to the second.
    Link(Node, Node),
    /// Brings an element into the state of what it is in.
    SyncState(Node),
    SetState(Node, State),
    /// Waits until an element has reached its state.
    AwaitState(Node),
    /// Keeps the state of an element apart from that of what it is in, or not.
    LockState(Node, bool),
    /// Tells an element that its stream is over.
    SendEos(Node),
    /// Gets the pad of an element that belongs to it from the start.
    StaticPad(Pad),
    /// Asks the OpenTok element for a pad.
    RequestPad(Pad, Name),
    /// Makes the first pad, which stands for the second.
    GhostPad(Pad, Name, Pad),
    /// Makes a pad of the template of the element, which stands for no other yet.
    TemplatePad(Pad, Name),
    /// Makes the first pad of a template of the element. It stands for the second, and what
    /// becomes of each buffer is combined over all pads of the element.
    ChainedPad(Pad, Name, Pad),
    /// Lets the first pad stand for the second.
    SetTarget(Pad, Pad),
    ActivatePad(Pad, bool),
    AddPad(Node, Pad),
    RemovePad(Node, Pad),
    /// Links the first pad to the second.
    LinkPads(Pad, Pad),
    /// Counts the pad in when the flows of the element are combined.
    CombineFlow(Pad),
    /// Repeats on the second pad the events that stick to the first.
    ForwardSticky(Pad, Pad),
    /// Looks up the source behind the audio pad.
    FindAudioSource,
    /// Tells the other process about the capabilities of the pad from now on.
    WatchCaps(Pad),
    /// Draws the pipeline into a file for debugging.
    Dump(Name),
}

/// The reason that a failed step gives.
#[derive(Clone, Copy, Debug)]
pub enum Fault {
    MissingElement(&'static str),
    AddElement(&'static str),
    LinkElements(&'static str),
    ElementPad(&'static str),
    PadActivation(&'static str),
    PadConstruction(&'static str, &'static str),
    /// A pad could not be made of the template of the element.
    TemplatePad(&'static str),
    /// The reason is the one that GStreamer gives.
    Raised,
    /// The element cannot change its state.
    StateChange,
}

/// What a failed step leads to.
#[derive(Clone, Copy, Debug)]
pub enum OnFailure {
    /// Nothing can be saved: the caller panics.
    Abort,
    /// The plan is given up for this reason.
    Report(Fault),
    /// The plan goes on.
    Ignore,
}

/// A step, and what it leads to if it fails.
#[derive(Clone, Copy, Debug)]
pub struct Planned {
    pub step: Step,
    pub on_failure: OnFailure,
}

/// How a plan stands after one of its steps.
#[derive(Clone, Copy, Debug)]
pub enum Verdict {
    /// The next step follows.
    Next,
    /// All steps were carried out.
    Done,
    /// The plan was given up.
    Failed(Fault),
    /// The caller panics.
    Abort,
}

/// How a plan stands after the step `at`.
pub open spec fn verdict(plan: Seq<Planned>, at: int, succeeded: bool) -> Verdict {
    let on_failure = plan[at].on_failure;
    if succeeded || on_failure is Ignore {
        if at + 1 == plan.len() {
            Verdict::Done
        } else {
            Verdict::Next
        }
    } else {
        match on_failure {
            OnFailure::Report(fault) => Verdict::Failed(fault),
            _ => Verdict::Abort,
        }
    }
}

/// Decides how a plan stands after its step `at`.
pub fn judge(plan: &Vec<Planned>, at: usize, succeeded: bool) -> (decided: Verdict)
    requires
        at < plan@.len(),
    ensures
        decided == verdict(plan@, at as int, succeeded),
{
    let last: bool = at == plan.len() - 1;
    let carry_on = if last {
        Verdict::Done
    } else {
        Verdict::Next
    };
    if succeeded {
        return carry_on;
    }
    match plan[at].on_failure {
        OnFailure::Ignore => carry_on,
        OnFailure::Report(fault) => Verdict::Failed(fault),
        OnFailure::Abort => Verdict::Abort,
    }
}

/// How a plan ends from the step `at` on, if step by step `results` says which of them succeed.
pub open spec fn outcome(plan: Seq<Planned>, results: Seq<bool>, at: int) -> Verdict
    decreases plan.len() - at,
{
    if at < 0 || at >= plan.len() {
        Verdict::Done
    } else {
        match verdict(plan, at, results[at]) {
            Verdict::Next => outcome(plan, results, at + 1),
            decided => decided,
        }
    }
}

/// The step `at` fails, and the plan does not go on after it.
pub open spec fn stops(plan: Seq<Planned>, results: Seq<bool>, at: int) -> bool {
    !results[at] && !(plan[at].on_failure is Ignore)
}

/// The first step that fails decides how a plan ends, except for steps whose failure is ignored:
/// the plan is done if and only if no other step fails, and if one does, the plan ends as that
/// step says, whatever the steps after it would have done.
pub proof fn lemma_first_failure_decides(plan: Seq<Planned>, results: Seq<bool>, at: int)
    requires
        0 <= at <= plan.len(),
        results.len() == plan.len(),
    ensures
        outcome(plan, results, at) is Done <==> (forall|i: int|
            at <= i < plan.len() ==> !#[trigger] stops(plan, results, i)),
        forall|i: int|
            at <= i < plan.len() && #[trigger] stops(plan, results, i) && (forall|j: int|
                at <= j < i ==> !#[trigger] stops(plan, results, j)) ==> outcome(plan, results, at)
                == verdict(plan, i, false),
        !(outcome(plan, results, at) is Next),
    decreases plan.len() - at,
{
    if at < plan.len() {
        lemma_first_failure_decides(plan, results, at + 1);
        if stops(plan, results, at) {
            assert(outcome(plan, results, at) == verdict(plan, at, false));
        } else {
            assert(outcome(plan, results, at) == outcome(plan, results, at + 1));
            assert forall|i: int|
                at <= i < plan.len() && #[trigger] stops(plan, results, i) && (forall|j: int|
                    at <= j < i ==> !#[trigger] stops(plan, results, j)) implies outcome(
                plan,
                results,
                at,
            ) == verdict(plan, i, false) by {
                assert(i != at);
            }
        }
    }
}

impl Fault {
    /// `error` is the error with this reason, or there is none because the reason is not one of
    /// this crate's. `detail` describes the template of the element.
    pub open spec fn describes(self, detail: Seq<char>, error: Option<Error>) -> bool {
        match self {
            Fault::MissingElement(name) => error == Some(Error::MissingElement(name)),
            Fault::AddElement(name) => error == Some(Error::AddElement(name)),
            Fault::LinkElements(names) => error == Some(Error::LinkElements(names)),
            Fault::ElementPad(name) => error == Some(Error::ElementPad(name)),
            Fault::PadActivation(name) => error == Some(Error::PadActivation(name)),
            Fault::PadConstruction(name, what) => error matches Some(
                Error::PadConstruction(found, text),
            ) && found == name && text@ == what@,
            Fault::TemplatePad(name) => error matches Some(
                Error::PadConstruction(found, text),
            ) && found == name && text@ == detail,
            Fault::Raised => error is None,
            Fault::StateChange => error is None,
        }
    }

    /// The error with this reason, if the reason is one of this crate's. `detail` describes the
    /// template of the element.
    pub fn error(self, detail: &str) -> (error: Option<Error>)
        ensures
            self.describes(detail@, error),
    {
        match self {
            Fault::MissingElement(name) => Some(Error::MissingElement(name)),
            Fault::AddElement(name) => Some(Error::AddElement(name)),
            Fault::LinkElements(names) => Some(Error::LinkElements(names)),
            Fault::ElementPad(name) => Some(Error::ElementPad(name)),
            Fault::PadActivation(name) => Some(Error::PadActivation(name)),
            Fault::PadConstruction(name, what) => Some(
                Error::PadConstruction(name, what.to_owned()),
            ),
            Fault::TemplatePad(name) => Some(Error::PadConstruction(name, detail.to_owned())),
            Fault::Raised => None,
            Fault::StateChange => None,
        }
    }
}

impl Name {
    /// The name, given the name of the pad and the file of the socket. Nothing, if GStreamer picks
    /// the name.
    pub open spec fn text(self, pad: Seq<char>, socket: Seq<char>) -> Option<Seq<char>> {
        match self {
            Name::Unnamed => None,
            Name::Fixed(name) => Some(name@),
            Name::OfPad => Some(pad),
            Name::Prefixed(prefix) => Some(prefix@ + pad),
            Name::OfSocket => Some(socket),
        }
    }

    /// The name, given the name of the pad and the file of the socket. Nothing, if GStreamer picks
    /// the name.
    pub fn resolve(self, pad: &str, socket: &str) -> (name: Option<String>)
        ensures
            opt_text(name) == self.text(pad@, socket@),
    {
        match self {
            Name::Unnamed => None,
            Name::Fixed(name) => Some(name.to_owned()),
            Name::OfPad => Some(pad.to_owned()),
            Name::Prefixed(prefix) => Some(join2(prefix, pad)),
            Name::OfSocket => Some(socket.to_owned()),
        }
    }
}

/// Appends a step to a plan.
pub(crate) fn schedule(plan: &mut Vec<Planned>, step: Step, on_failure: OnFailure)
    ensures
        final(plan)@ == old(plan)@.push(Planned { step, on_failure }),
{
    plan.push(Planned { step, on_failure });
}

/// A step that must not fail.
pub open spec fn must(step: Step) -> Planned {
    Planned { step, on_failure: OnFailure::Abort }
}

/// A step whose failure ends the plan with a reason.
pub open spec fn or_fail(step: Step, fault: Fault) -> Planned {
    Planned { step, on_failure: OnFailure::Report(fault) }
}

/// A step whose failure does not matter.
pub open spec fn may(step: Step) -> Planned {
    Planned { step, on_failure: OnFailure::Ignore }
}

/// The element to which a pad belongs from the start, and its name there.
pub open spec fn static_pad(pad: Pad) -> Option<(Node, Seq<char>)> {
    match pad {
        Pad::QueueSink => Some((Node::Queue, "sink"@)),
        Pad::QueueSrc => Some((Node::Queue, "src"@)),
        Pad::AppSrcSrc => Some((Node::AppSrc, "src"@)),
        Pad::Audio => Some((Node::Element, "audio_stream"@)),
        _ => None,
    }
}

impl Pad {
    /// The element to which the pad belongs from the start, and its name there.
    pub fn origin(self) -> (origin: Option<(Node, &'static str)>)
        ensures
            match origin {
                Some((node, name)) => static_pad(self) == Some((node, name@)),
                None => static_pad(self) is None,
            },
    {
        match self {
            Pad::QueueSink => Some((Node::Queue, "sink")),
            Pad::QueueSrc => Some((Node::Queue, "src")),
            Pad::AppSrcSrc => Some((Node::AppSrc, "src")),
            Pad::Audio => Some((Node::Element, "audio_stream")),
            _ => None,
        }
    }
}

/// The name under which GStreamer makes an element of this kind.
pub open spec fn factory_text(node: Node) -> Option<Seq<char>> {
    match node {
        Node::Bin => Some("bin"@),
        Node::Queue => Some("queue"@),
        Node::CapsFilter => Some("capsfilter"@),
        Node::ShmSink => Some("shmsink"@),
        Node::ShmSrc => Some("shmsrc"@),
        Node::AppSrc => Some("appsrc"@),
        _ => None,
    }
}

impl Node {
    /// The name under which GStreamer makes an element of this kind, if a plan makes such
    /// elements.
    pub fn factory(self) -> (factory: Option<&'static str>)
        ensures
            match factory {
                Some(name) => factory_text(self) == Some(name@),
                None => factory_text(self) is None,
            },
    {
        match self {
            Node::Bin => Some("bin"),
            Node::Queue => Some("queue"),
            Node::CapsFilter => Some("capsfilter"),
            Node::ShmSink => Some("shmsink"),
            Node::ShmSrc => Some("shmsrc"),
            Node::AppSrc => Some("appsrc"),
            _ => None,
        }
    }
}

/// The elements that a step needs.
pub open spec fn needed_nodes(step: Step) -> Set<Node> {
    match step {
        Step::FindOpenTok => set![Node::Pipeline],
        Step::SetFlag(node, _, _) => set![node],
        Step::SetSocketPath(node) => set![node],
        Step::SetTimeFormat(node) => set![node],
        Step::SetCaps(node) => set![node],
        Step::Add(parent, child) => set![parent, child],
        Step::Remove(parent, child) => set![parent, child],
        Step::Link(from, to) => set![from, to],
        Step::SyncState(node) => set![node],
        Step::SetState(node, _) => set![node],
        Step::AwaitState(node) => set![node],
        Step::LockState(node, _) => set![node],
        Step::SendEos(node) => set![node],
        Step::StaticPad(pad) => match static_pad(pad) {
            Some((node, _)) => set![node],
            None => Set::empty(),
        },
        Step::RequestPad(_, _) => set![Node::OpenTok],
        Step::AddPad(node, _) => set![node],
        Step::RemovePad(node, _) => set![node],
        _ => Set::empty(),
    }
}

/// The pads that a step needs.
pub open spec fn needed_pads(step: Step) -> Set<Pad> {
    match step {
        Step::GhostPad(_, _, target) => set![target],
        Step::ChainedPad(_, _, target) => set![target],
        Step::SetTarget(pad, target) => set![pad, target],
        Step::ActivatePad(pad, _) => set![pad],
        Step::AddPad(_, pad) => set![pad],
        Step::RemovePad(_, pad) => set![pad],
        Step::LinkPads(from, to) => set![from, to],
        Step::CombineFlow(pad) => set![pad],
        Step::ForwardSticky(from, to) => set![from, to],
        Step::FindAudioSource => set![Pad::Audio],
        Step::WatchCaps(pad) => set![pad],
        _ => Set::empty(),
    }
}

/// The elements that are at hand after a step.
pub open spec fn nodes_after(step: Step, nodes: Set<Node>) -> Set<Node> {
    match step {
        Step::Make(node, _) => nodes.insert(node),
        Step::FindOpenTok => nodes.insert(Node::OpenTok),
        Step::FindAudioSource => nodes.insert(Node::AudioAppSrc),
        _ => nodes,
    }
}

/// The pads that are at hand after a step.
pub open spec fn pads_after(step: Step, pads: Set<Pad>) -> Set<Pad> {
    match step {
        Step::StaticPad(pad) => pads.insert(pad),
        Step::RequestPad(pad, _) => pads.insert(pad),
        Step::GhostPad(pad, _, _) => pads.insert(pad),
        Step::TemplatePad(pad, _) => pads.insert(pad),
        Step::ChainedPad(pad, _, _) => pads.insert(pad),
        _ => pads,
    }
}

/// Each step of the plan from `at` on needs only what is at hand when it is its turn: what was at
/// hand before, and what the steps before it made or found.
pub open spec fn in_order(plan: Seq<Planned>, at: int, nodes: Set<Node>, pads: Set<Pad>) -> bool
    decreases plan.len() - at,
{
    if at < 0 || at >= plan.len() {
        true
    } else {
        let step = plan[at].step;
        &&& needed_nodes(step).subset_of(nodes)
        &&& needed_pads(step).subset_of(pads)
        &&& in_order(plan, at + 1, nodes_after(step, nodes), pads_after(step, pads))
    }
}

/// What an element holds: the elements in it, and its pads.
#[verifier::ext_equal]
pub struct Contents {
    pub nodes: Set<Node>,
    pub pads: Set<Pad>,
}

impl Contents {
    /// The contents, when a plan speaks of one of the elements in another way.
    pub open spec fn node_as(self, from: Node, to: Node) -> Contents {
        if self.nodes.contains(from) {
            Contents { nodes: self.nodes.remove(from).insert(to), ..self }
        } else {
            self
        }
    }

    /// The contents, when a plan speaks of one of the pads in another way.
    pub open spec fn pad_as(self, from: Pad, to: Pad) -> Contents {
        if self.pads.contains(from) {
            Contents { pads: self.pads.remove(from).insert(to), ..self }
        } else {
            self
        }
    }
}

/// What the element `holder` holds after a step.
pub open spec fn contents_after_step(step: Step, holder: Node, contents: Contents) -> Contents {
    match step {
        Step::Add(parent, child) if parent == holder => Contents {
            nodes: contents.nodes.insert(child),
            ..contents
        },
        Step::Remove(parent, child) if parent == holder => Contents {
            nodes: contents.nodes.remove(child),
            ..contents
        },
        Step::AddPad(node, pad) if node == holder => Contents {
            pads: contents.pads.insert(pad),
            ..contents
        },
        Step::RemovePad(node, pad) if node == holder => Contents {
            pads: contents.pads.remove(pad),
            ..contents
        },
        _ => contents,
    }
}

/// What the element `holder` holds when a plan has been carried out from the step `at` on.
pub open spec fn contents_after(
    plan: Seq<Planned>,
    at: int,
    holder: Node,
    contents: Contents,
) -> Contents
    decreases plan.len() - at,
{
    if at < 0 || at >= plan.len() {
        contents
    } else {
        contents_after(
            plan,
            at + 1,
            holder,
            contents_after_step(plan[at].step, holder, contents),
        )
    }
}

} // verus!
