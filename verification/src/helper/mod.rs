//! The helper process, in which an OpenTok element runs on behalf of another process.

pub mod cli;
pub mod sink;
pub mod source;

use crate::common::ipc::IpcMessage;
use crate::common::url::location;
use crate::common::url::location_text;
use crate::common::url::Protocol;
use crate::helper::cli::Direction;
use crate::helper::cli::Settings;
use crate::text::copy_opt;
use crate::text::join4;
use vstd::prelude::*;

verus! {

/// The OpenTok element that the helper makes.
#[derive(Debug)]
pub struct ElementRequest {
    /// Whether it is a source or a sink.
    pub direction: Direction,
    /// The location from which it is made.
    pub location: String,
    /// Its name in the pipeline.
    pub name: &'static str,
    /// Its property `stream-id`, if it is set.
    pub stream_id: Option<String>,
    /// Its property `display-name`, if it is set.
    pub display_name: Option<String>,
}

/// The OpenTok element that the helper makes.
pub fn create_pipeline(settings: &Settings) -> (request: ElementRequest)
    requires
        settings.credentials@.can_join(),
    ensures
        request.direction == settings.direction,
        request.location@ == location_text(
            Protocol::OpenTok,
            settings.credentials@.session_id->0,
            None,
            settings.credentials@.api_key->0,
            settings.credentials@.token->0,
        ),
        request.name == "opentok-element",
        request.stream_id == settings.stream_id,
        request.display_name == settings.display_name,
{
    let credentials = &settings.credentials;
    ElementRequest {
        direction: settings.direction,
        location: location(
            Protocol::OpenTok,
            credentials.session_id().unwrap().as_str(),
            None,
            credentials.api_key().unwrap().as_str(),
            credentials.token().unwrap().as_str(),
        ),
        name: "opentok-element",
        stream_id: copy_opt(&settings.stream_id),
        display_name: copy_opt(&settings.display_name),
    }
}

/// The state of a pipeline.
#[derive(Clone, Copy, Debug, PartialEq, Eq, Structural)]
pub enum PipelineState {
    VoidPending,
    Null,
    Ready,
    Paused,
    Playing,
}

impl PipelineState {
    /// The name of the state.
    pub open spec fn text(self) -> Seq<char> {
        match self {
            PipelineState::VoidPending => "VoidPending"@,
            PipelineState::Null => "Null"@,
            PipelineState::Ready => "Ready"@,
            PipelineState::Paused => "Paused"@,
            PipelineState::Playing => "Playing"@,
        }
    }

    /// The name of the state.
    pub fn name(self) -> (name: &'static str)
        ensures
            name@ == self.text(),
    {
        match self {
            PipelineState::VoidPending => "VoidPending",
            PipelineState::Null => "Null",
            PipelineState::Ready => "Ready",
            PipelineState::Paused => "Paused",
            PipelineState::Playing => "Playing",
        }
    }
}

/// A message on the bus of the pipeline.
#[derive(Debug)]
pub enum BusMessage {
    /// The stream is over.
    Eos,
    /// An element failed. Holds the words of the reason.
    Error(String),
    /// The state of an element changed.
    StateChanged {
        of_pipeline: bool,
        old_state: PipelineState,
        current: PipelineState,
    },
    Other,
}

/// What the helper does about a message on the bus.
#[derive(Debug)]
pub enum BusAction {
    Nothing,
    /// It ends.
    Quit,
    /// It sends this message to the other process, and ends.
    ReportAndQuit(IpcMessage),
    /// It draws the pipeline into a file of this name, for debugging.
    Dump(String),
}

/// The name of the file into which the pipeline is drawn when its state changes.
pub open spec fn state_dump_text(old_state: PipelineState, current: PipelineState) -> Seq<char> {
    "opentok_wrapper_state_changed_"@ + old_state.text() + "_"@ + current.text()
}

/// What the helper does about a message on the bus.
pub open spec fn bus_action(message: BusMessage, action: BusAction) -> bool {
    match message {
        BusMessage::Eos => action is Quit,
        BusMessage::Error(reason) => action == BusAction::ReportAndQuit(IpcMessage::Error(reason)),
        BusMessage::StateChanged { of_pipeline, old_state, current } => if of_pipeline {
            action matches BusAction::Dump(name) && name@ == state_dump_text(old_state, current)
        } else {
            action is Nothing
        },
        BusMessage::Other => action is Nothing,
    }
}

/// Decides what the helper does about a message on the bus.
pub fn on_bus_message(message: BusMessage) -> (action: BusAction)
    ensures
        bus_action(message, action),
{
    match message {
        BusMessage::Eos => BusAction::Quit,
        BusMessage::Error(reason) => BusAction::ReportAndQuit(IpcMessage::Error(reason)),
        BusMessage::StateChanged { of_pipeline, old_state, current } => {
            if of_pipeline {
                BusAction::Dump(
                    join4("opentok_wrapper_state_changed_", old_state.name(), "_", current.name()),
                )
            } else {
                BusAction::Nothing
            }
        },
        BusMessage::Other => BusAction::Nothing,
    }
}

} // verus!
