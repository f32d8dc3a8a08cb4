//! The media that an element carries: audio and video.

use crate::common::ipc::IpcMessage;
use crate::common::ipc::StreamMessage;
use crate::common::ipc::StreamMessageData;
use crate::text::contains;
use crate::text::occurs;
use crate::text::same;
use ipc_channel::ipc::IpcSender;
use vstd::prelude::*;

verus! {

/// Stream type enumeration.
#[derive(Clone, Copy, Debug, PartialEq, Eq, Structural)]
pub enum StreamType {
    Audio,
    Video,
    Unknown,
}

impl StreamType {
    /// The type of the stream that goes through the sink pad of this name.
    pub open spec fn of_pad(pad: Seq<char>) -> StreamType {
        if pad == "video_sink"@ {
            StreamType::Video
        } else if pad == "audio_sink"@ {
            StreamType::Audio
        } else {
            StreamType::Unknown
        }
    }

    /// The name of the sink pad of the stream, which is empty for an unknown one.
    pub open spec fn pad_text(self) -> Seq<char> {
        match self {
            StreamType::Video => "video_sink"@,
            StreamType::Audio => "audio_sink"@,
            StreamType::Unknown => ""@,
        }
    }

    /// The name of the sink pad of the stream, if the stream is known.
    pub fn name(&self) -> (name: Option<&'static str>)
        ensures
            match name {
                Some(name) => !(self is Unknown) && name@ == self.pad_text(),
                None => self is Unknown,
            },
    {
        match self {
            StreamType::Video => Some("video_sink"),
            StreamType::Audio => Some("audio_sink"),
            StreamType::Unknown => None,
        }
    }
}

/// Element sink pad name to StreamType conversion.
impl<'a> From<&'a str> for StreamType {
    fn from(pad: &'a str) -> (stream_type: StreamType) {
        if same(pad, "video_sink") {
            StreamType::Video
        } else if same(pad, "audio_sink") {
            StreamType::Audio
        } else {
            StreamType::Unknown
        }
    }
}

impl<'a> vstd::std_specs::convert::FromSpecImpl<&'a str> for StreamType {
    open spec fn obeys_from_spec() -> bool {
        true
    }

    open spec fn from_spec(pad: &'a str) -> StreamType {
        StreamType::of_pad(pad@)
    }
}

/// The name of the sink pad of a stream.
impl From<StreamType> for &'static str {
    fn from(stream_type: StreamType) -> (pad: &'static str)
        ensures
            pad@ == stream_type.pad_text(),
    {
        match stream_type {
            StreamType::Video => "video_sink",
            StreamType::Audio => "audio_sink",
            StreamType::Unknown => "",
        }
    }
}

impl vstd::std_specs::convert::FromSpecImpl<StreamType> for &'static str {
    open spec fn obeys_from_spec() -> bool {
        true
    }

    open spec fn from_spec(stream_type: StreamType) -> &'static str {
        match stream_type {
            StreamType::Video => "video_sink",
            StreamType::Audio => "audio_sink",
            StreamType::Unknown => "",
        }
    }
}

/// The name of the sink pad of a known stream leads back to its type.
pub proof fn lemma_pad_name_gives_stream_type(stream_type: StreamType)
    ensures
        StreamType::of_pad(stream_type.pad_text()) == stream_type,
{
    reveal_strlit("video_sink");
    reveal_strlit("audio_sink");
    reveal_strlit("");
    assert("video_sink"@[0] == 'v');
    assert("audio_sink"@[0] == 'a');
    assert(""@.len() == 0);
    assert("video_sink"@.len() == 10);
    assert("audio_sink"@.len() == 10);
}

/// Audio or video.
#[derive(Clone, Copy, Debug, PartialEq, Eq, Structural)]
pub enum Media {
    Audio,
    Video,
}

impl Media {
    /// A message about the stream of this medium.
    pub open spec fn message(self, data: StreamMessageData) -> IpcMessage {
        match self {
            Media::Audio => IpcMessage::Stream(StreamMessage::Audio(data)),
            Media::Video => IpcMessage::Stream(StreamMessage::Video(data)),
        }
    }

    /// A message about the stream of this medium.
    pub(crate) fn wrap(self, data: StreamMessageData) -> (message: IpcMessage)
        ensures
            message == self.message(data),
    {
        match self {
            Media::Audio => IpcMessage::Stream(StreamMessage::Audio(data)),
            Media::Video => IpcMessage::Stream(StreamMessage::Video(data)),
        }
    }
}

/// The medium that a source pad gives, going by its name.
pub open spec fn source_media(pad: Seq<char>) -> Media {
    if occurs(pad, "audio"@) {
        Media::Audio
    } else {
        Media::Video
    }
}

/// The medium that a source pad gives, going by its name.
pub fn media_of_source_pad(pad: &str) -> (media: Media)
    ensures
        media == source_media(pad@),
{
    if contains(pad, "audio") {
        Media::Audio
    } else {
        Media::Video
    }
}

/// Tells the other process about a socket and the capabilities of the stream behind it.
#[derive(Debug)]
pub struct SocketAnnouncer {
    /// The path of the socket.
    pub socket_path: String,
    /// The capabilities that were announced last, if any were.
    pub prev_caps: Option<String>,
}

/// The message about the capabilities of a stream: the first one announces the socket, every
/// later one the change.
pub open spec fn caps_data(
    socket_path: String,
    prev_caps: Option<String>,
    caps: String,
    pad: String,
) -> StreamMessageData {
    if prev_caps is Some {
        StreamMessageData::CapsChanged(caps, pad)
    } else {
        StreamMessageData::ShmSocketPathAdded(socket_path, caps, pad)
    }
}

impl SocketAnnouncer {
    /// An announcer of a socket of which nothing was announced yet.
    pub fn new(socket_path: String) -> (announcer: SocketAnnouncer)
        ensures
            announcer == (SocketAnnouncer { socket_path, prev_caps: None }),
    {
        SocketAnnouncer { socket_path, prev_caps: None }
    }

    /// The message to send when the stream behind the pad has new capabilities.
    pub fn announce(&mut self, media: Media, caps: String, pad: String) -> (message: IpcMessage)
        ensures
            message == media.message(
                caps_data(old(self).socket_path, old(self).prev_caps, caps, pad),
            ),
            *final(self) == (SocketAnnouncer {
                socket_path: old(self).socket_path,
                prev_caps: Some(caps),
            }),
    {
        let next = caps.clone();
        let data = if self.prev_caps.is_some() {
            StreamMessageData::CapsChanged(caps, pad)
        } else {
            StreamMessageData::ShmSocketPathAdded(self.socket_path.clone(), caps, pad)
        };
        self.prev_caps = Some(next);
        media.wrap(data)
    }

    /// The message to send when the stream behind a source pad has new capabilities.
    /// `path_added` tells whether the socket could be set up, or the words of the reason for
    /// which it could not.
    pub fn announce_source(
        &mut self,
        path_added: &Result<(), String>,
        caps: String,
        pad: String,
    ) -> (message: IpcMessage)
        ensures
            match path_added {
                Ok(_) => {
                    &&& message == source_media(pad@).message(
                        caps_data(old(self).socket_path, old(self).prev_caps, caps, pad),
                    )
                    &&& *final(self) == (SocketAnnouncer {
                        socket_path: old(self).socket_path,
                        prev_caps: Some(caps),
                    })
                },
                Err(reason) => message == IpcMessage::Error(*reason) && *final(self) == *old(self),
            },
    {
        match path_added {
            Ok(_) => {
                let media = media_of_source_pad(pad.as_str());
                self.announce(media, caps, pad)
            },
            Err(reason) => IpcMessage::Error(reason.clone()),
        }
    }
}

/// The messages that follow from a list of capabilities, one after the other.
pub open spec fn announcements(
    media: Media,
    announcer: SocketAnnouncer,
    changes: Seq<(String, String)>,
) -> Seq<IpcMessage>
    decreases changes.len(),
{
    if changes.len() == 0 {
        Seq::empty()
    } else {
        let (caps, pad) = changes[0];
        let message = media.message(
            caps_data(announcer.socket_path, announcer.prev_caps, caps, pad),
        );
        let after = SocketAnnouncer { socket_path: announcer.socket_path, prev_caps: Some(caps) };
        seq![message] + announcements(media, after, changes.skip(1))
    }
}

/// However often the capabilities of a stream change, the other process hears of the socket
/// exactly once, in the first message, and of a change of capabilities in every later one.
pub proof fn lemma_socket_announced_once(
    media: Media,
    announcer: SocketAnnouncer,
    changes: Seq<(String, String)>,
)
    ensures
        announcements(media, announcer, changes).len() == changes.len(),
        forall|i: int|
            0 <= i < changes.len() ==> #[trigger] announcements(media, announcer, changes)[i]
                == media.message(
                if i == 0 && announcer.prev_caps is None {
                    StreamMessageData::ShmSocketPathAdded(
                        announcer.socket_path,
                        changes[i].0,
                        changes[i].1,
                    )
                } else {
                    StreamMessageData::CapsChanged(changes[i].0, changes[i].1)
                },
            ),
    decreases changes.len(),
{
    if changes.len() > 0 {
        let after = SocketAnnouncer {
            socket_path: announcer.socket_path,
            prev_caps: Some(changes[0].0),
        };
        let rest = changes.skip(1);
        lemma_socket_announced_once(media, after, rest);
        let all = announcements(media, announcer, changes);
        assert forall|i: int| 0 < i < changes.len() implies #[trigger] all[i] == media.message(
            StreamMessageData::CapsChanged(changes[i].0, changes[i].1),
        ) by {
            assert(all[i] == announcements(media, after, rest)[i - 1]);
            assert(rest[i - 1] == changes[i]);
        }
    }
}

/// The message that the socket of a source pad is to be closed, and where to tell that it is no
/// longer read.
pub fn socket_removed(pad: &str, socket_path: String, done: IpcSender<()>) -> (message: IpcMessage)
    ensures
        message == source_media(pad@).message(
            StreamMessageData::ShmSocketPathRemoved(socket_path, done),
        ),
{
    media_of_source_pad(pad).wrap(StreamMessageData::ShmSocketPathRemoved(socket_path, done))
}

} // verus!
