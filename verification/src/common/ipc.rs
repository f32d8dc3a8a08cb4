//! The messages between an element and its helper process.

use ipc_channel::ipc::IpcSender;
use vstd::prelude::*;

verus! {

/// The sending end of a channel of `ipc_channel`. A message can carry one; nothing here looks
/// inside it.
#[verifier::external_type_specification]
#[verifier::external_body]
#[verifier::reject_recursive_types(T)]
pub struct ExIpcSender<T>(IpcSender<T>);

/// A message between an element and its helper process.
#[derive(Debug)]
pub enum IpcMessage {
    /// The helper failed. Holds the words of the reason.
    Error(String),
    /// The element asks whether the helper is alive.
    Ping,
    /// The helper is alive.
    Pong,
    /// The helper published a stream. Holds its identifier.
    PublishedStream(String),
    /// Something happened to one of the media streams.
    Stream(StreamMessage),
    /// The helper has to end.
    Terminate(),
}

/// Something that happened to the audio or the video stream.
#[derive(Debug)]
pub enum StreamMessage {
    Audio(StreamMessageData),
    Video(StreamMessageData),
}

/// What happened to a media stream.
#[derive(Debug)]
pub enum StreamMessageData {
    /// A socket was opened: its path, the capabilities of the stream, the name of the pad.
    ShmSocketPathAdded(String, String, String),
    /// A socket is to be closed: its path, and where to tell that it is no longer read.
    ShmSocketPathRemoved(String, IpcSender<()>),
    /// The capabilities changed: the new ones, the name of the pad.
    CapsChanged(String, String),
}

} // verus!
