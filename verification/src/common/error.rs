//! What can go wrong while an element is set up.

use crate::text::join2;
use crate::text::join3;
use crate::text::join4;
use vstd::prelude::*;

verus! {

/// A failure of one of the elements.
#[derive(Debug)]
pub enum Error {
    AddElement(&'static str),
    ElementPad(&'static str),
    Init(String),
    InvalidState(&'static str),
    LinkElements(&'static str),
    MissingElement(&'static str),
    MissingOpenTokRemoteBinary,
    OpenTokRemoteLaunchFailed,
    PadActivation(&'static str),
    PadConstruction(&'static str, String),
    SubscriberStreamSetupFailed(String),
    InvalidStream(String, String),
}

impl Error {
    /// The message that a user reads.
    pub open spec fn text(self) -> Seq<char> {
        match self {
            Error::AddElement(name) => "Cannot add element "@ + name@,
            Error::ElementPad(name) => "Cannot get element pad "@ + name@,
            Error::Init(reason) => "OpenTok initialization error "@ + reason@,
            Error::InvalidState(reason) => "Invalid state: "@ + reason@,
            Error::LinkElements(names) => "Cannot link elements: "@ + names@,
            Error::MissingElement(name) => "Missing element "@ + name@
                + ". Check your GStreamer installation"@,
            Error::MissingOpenTokRemoteBinary =>
                "Cannot find gst-opentok-helper binary in $PATH."@,
            Error::OpenTokRemoteLaunchFailed =>
                "Failed to launch OpenTokRemote container process"@,
            Error::PadActivation(name) => "Cannot activate pad "@ + name@,
            Error::PadConstruction(name, detail) => "Cannot create pad "@ + name@ + " "@ + detail@,
            Error::SubscriberStreamSetupFailed(reason) => "Failed to set stream "@ + reason@
                + " on OpenTok subscriber"@,
            Error::InvalidStream(found, wanted) => "Not subscribing to "@ + found@
                + ". We only care about "@ + wanted@,
        }
    }

    /// The message that a user reads.
    pub fn message(&self) -> (message: String)
        ensures
            message@ == self.text(),
    {
        match self {
            Error::AddElement(name) => join2("Cannot add element ", name),
            Error::ElementPad(name) => join2("Cannot get element pad ", name),
            Error::Init(reason) => join2("OpenTok initialization error ", reason.as_str()),
            Error::InvalidState(reason) => join2("Invalid state: ", reason),
            Error::LinkElements(names) => join2("Cannot link elements: ", names),
            Error::MissingElement(name) => join3(
                "Missing element ",
                name,
                ". Check your GStreamer installation",
            ),
            Error::MissingOpenTokRemoteBinary =>
                "Cannot find gst-opentok-helper binary in $PATH.".to_owned(),
            Error::OpenTokRemoteLaunchFailed =>
                "Failed to launch OpenTokRemote container process".to_owned(),
            Error::PadActivation(name) => join2("Cannot activate pad ", name),
            Error::PadConstruction(name, detail) => join4(
                "Cannot create pad ",
                name,
                " ",
                detail.as_str(),
            ),
            Error::SubscriberStreamSetupFailed(reason) => join3(
                "Failed to set stream ",
                reason.as_str(),
                " on OpenTok subscriber",
            ),
            Error::InvalidStream(found, wanted) => join4(
                "Not subscribing to ",
                found.as_str(),
                ". We only care about ",
                wanted.as_str(),
            ),
        }
    }
}

} // verus!
