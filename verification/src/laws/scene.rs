//! What plans bring about: the scene that a plan leaves behind when it has been carried out.

use crate::plan::Name;
use crate::plan::Node;
use crate::plan::Pad;
use crate::plan::Planned;
use crate::plan::State;
use crate::plan::Step;
use vstd::prelude::*;

verus! {

/// The state into which an element was brought.
pub enum Reached {
    /// This one.
    In(State),
    /// That of what it is in.
    Synced,
}

/// What is known of the elements and the pads that a plan speaks of.
#[verifier::ext_equal]
pub struct Scene {
    /// The elements that were made, and how they got their names.
    pub made: Set<(Node, Name)>,
    /// The properties that were set to yes or no.
    pub flags: Set<(Node, &'static str, bool)>,
    /// The elements that read or write the socket.
    pub on_socket: Set<Node>,
    /// The elements whose buffers carry timestamps.
    pub timed: Set<Node>,
    /// The elements that let only the announced capabilities through.
    pub filtered: Set<Node>,
    /// The elements that are in others: first what holds, then what is held.
    pub held: Set<(Node, Node)>,
    /// The pads that elements show.
    pub shown: Set<(Node, Pad)>,
    /// The pads that were made or asked for, and how they got their names.
    pub named: Set<(Pad, Name)>,
    /// The elements that feed others: first what feeds, then what is fed.
    pub links: Set<(Node, Node)>,
    /// The pads that feed others.
    pub pad_links: Set<(Pad, Pad)>,
    /// The pads that stand for others.
    pub targets: Set<(Pad, Pad)>,
    /// The pads through which media can flow.
    pub active: Set<Pad>,
    /// The states into which elements were brought.
    pub states: Map<Node, Reached>,
    /// The elements whose state is kept apart.
    pub locked: Set<Node>,
    /// The elements whose stream is over.
    pub ended: Set<Node>,
    /// The pads whose flows are combined.
    pub combined: Set<Pad>,
    /// The pads that repeat the sticky events of others: first the others.
    pub repeated: Set<(Pad, Pad)>,
    /// The pads of whose capabilities the other process is told.
    pub watched: Set<Pad>,
    /// The elements that had the time to reach their state.
    pub settled: Set<Node>,
    /// The files into which the pipeline was drawn, by how they got their names.
    pub drawn: Set<Name>,
}

impl Scene {
    /// Nothing is known yet.
    pub open spec fn empty() -> Scene {
        Scene {
            made: Set::empty(),
            flags: Set::empty(),
            on_socket: Set::empty(),
            timed: Set::empty(),
            filtered: Set::empty(),
            held: Set::empty(),
            shown: Set::empty(),
            named: Set::empty(),
            links: Set::empty(),
            pad_links: Set::empty(),
            targets: Set::empty(),
            active: Set::empty(),
            states: Map::empty(),
            locked: Set::empty(),
            ended: Set::empty(),
            combined: Set::empty(),
            repeated: Set::empty(),
            watched: Set::empty(),
            settled: Set::empty(),
            drawn: Set::empty(),
        }
    }

    /// The scene after one more step.
    pub open spec fn after(self, step: Step) -> Scene {
        match step {
            Step::Make(node, name) => Scene { made: self.made.insert((node, name)), ..self },
            Step::SetFlag(node, flag, value) => Scene {
                flags: self.flags.remove((node, flag, !value)).insert((node, flag, value)),
                ..self
            },
            Step::SetSocketPath(node) => Scene { on_socket: self.on_socket.insert(node), ..self },
            Step::SetTimeFormat(node) => Scene { timed: self.timed.insert(node), ..self },
            Step::SetCaps(node) => Scene { filtered: self.filtered.insert(node), ..self },
            Step::Add(parent, child) => Scene { held: self.held.insert((parent, child)), ..self },
            Step::Remove(parent, child) => Scene {
                held: self.held.remove((parent, child)),
                ..self
            },
            Step::Link(from, to) => Scene { links: self.links.insert((from, to)), ..self },
            Step::SyncState(node) => Scene {
                states: self.states.insert(node, Reached::Synced),
                settled: self.settled.remove(node),
                ..self
            },
            Step::SetState(node, state) => Scene {
                states: self.states.insert(node, Reached::In(state)),
                settled: self.settled.remove(node),
                ..self
            },
            Step::AwaitState(node) => Scene { settled: self.settled.insert(node), ..self },
            Step::LockState(node, locked) => Scene {
                locked: if locked {
                    self.locked.insert(node)
                } else {
                    self.locked.remove(node)
                },
                ..self
            },
            Step::SendEos(node) => Scene { ended: self.ended.insert(node), ..self },
            Step::RequestPad(pad, name) => Scene { named: self.named.insert((pad, name)), ..self },
            Step::TemplatePad(pad, name) => Scene { named: self.named.insert((pad, name)), ..self },
            Step::GhostPad(pad, name, target) => Scene {
                named: self.named.insert((pad, name)),
                targets: self.targets.insert((pad, target)),
                ..self
            },
            Step::ChainedPad(pad, name, target) => Scene {
                named: self.named.insert((pad, name)),
                targets: self.targets.insert((pad, target)),
                ..self
            },
            Step::SetTarget(pad, target) => Scene {
                targets: self.targets.insert((pad, target)),
                ..self
            },
            Step::ActivatePad(pad, active) => Scene {
                active: if active {
                    self.active.insert(pad)
                } else {
                    self.active.remove(pad)
                },
                ..self
            },
            Step::AddPad(node, pad) => Scene { shown: self.shown.insert((node, pad)), ..self },
            Step::RemovePad(node, pad) => Scene { shown: self.shown.remove((node, pad)), ..self },
            Step::LinkPads(from, to) => Scene {
                pad_links: self.pad_links.insert((from, to)),
                ..self
            },
            Step::CombineFlow(pad) => Scene { combined: self.combined.insert(pad), ..self },
            Step::ForwardSticky(from, to) => Scene {
                repeated: self.repeated.insert((from, to)),
                ..self
            },
            Step::WatchCaps(pad) => Scene { watched: self.watched.insert(pad), ..self },
            Step::Dump(name) => Scene { drawn: self.drawn.insert(name), ..self },
            _ => self,
        }
    }
}

/// The scene when a plan has been carried out from the step `at` on.
pub open spec fn scene_after(plan: Seq<Planned>, at: int, scene: Scene) -> Scene
    decreases plan.len() - at,
{
    if at < 0 || at >= plan.len() {
        scene
    } else {
        scene_after(plan, at + 1, scene.after(plan[at].step))
    }
}

/// The scene that a plan makes out of nothing.
pub open spec fn scene_of(plan: Seq<Planned>) -> Scene {
    scene_after(plan, 0, Scene::empty())
}

/// From the step `at` on, the plan takes the steps from `next` on, one after the other, with or
/// without others between them.
pub open spec fn takes_from(plan: Seq<Planned>, at: int, steps: Seq<Step>, next: int) -> bool
    decreases plan.len() - at,
{
    if next >= steps.len() {
        true
    } else if at < 0 || at >= plan.len() {
        false
    } else if plan[at].step == steps[next] {
        takes_from(plan, at + 1, steps, next + 1)
    } else {
        takes_from(plan, at + 1, steps, next)
    }
}

/// The plan takes these steps in turn.
pub open spec fn takes_in_turn(plan: Seq<Planned>, steps: Seq<Step>) -> bool {
    takes_from(plan, 0, steps, 0)
}

} // verus!
