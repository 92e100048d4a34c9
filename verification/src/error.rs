//! What can go wrong with one frame of the push stream.

use vstd::prelude::*;

verus! {

/// Why a frame of the push stream gave no check-in.
#[derive(Debug, Clone, PartialEq, Eq)]
pub enum HackNottsCheckinError {
    /// The frame's text is not a check-in; with the decoder's reason.
    SerializationError(String),
    /// The socket failed, or the frame holds no text; with the reason.
    WebSocketError(String),
}

impl HackNottsCheckinError {
    /// The error in words.
    pub open spec fn spec_message(&self) -> Seq<char> {
        match self {
            HackNottsCheckinError::SerializationError(why) => "Failed to decode response: "@
                + why@,
            HackNottsCheckinError::WebSocketError(why) => "Websocket error: "@ + why@,
        }
    }

    /// The error in words.
    pub fn message(&self) -> (out: String)
        ensures
            out@ == self.spec_message(),
    {
        match self {
            HackNottsCheckinError::SerializationError(why) => {
                let mut out = "Failed to decode response: ".to_owned();
                out.append(why.as_str());
                out
            },
            HackNottsCheckinError::WebSocketError(why) => {
                let mut out = "Websocket error: ".to_owned();
                out.append(why.as_str());
                out
            },
        }
    }
}

} // verus!
