use vstd::prelude::*;

verus! {

/// The four ways an operation of this library can fail. Each is a kind of its
/// own, so that a caller can branch on it.
#[derive(Copy, Clone, PartialEq, Eq, Structural, Debug)]
pub enum GibsError {
    /// The composed request text is not an absolute URL.
    UrlConstruction,
    /// The encoder could not be acquired.
    EncoderInit,
    /// A frame has the wrong size, or the encoder refused it.
    FrameWrite,
    /// The encoder could not be closed and flushed.
    EncoderClose,
}

impl GibsError {
    /// What a log line or a message to the user says of this failure.
    pub open spec fn text(self) -> Seq<char> {
        match self {
            GibsError::UrlConstruction => "Error composing the request URL."@,
            GibsError::EncoderInit => "Error creating Opencv videowriter."@,
            GibsError::FrameWrite => "Error writing to video writer."@,
            GibsError::EncoderClose => "Error closing video writer."@,
        }
    }

    pub fn message(&self) -> (s: &'static str)
        ensures
            s@ == self.text(),
    {
        match self {
            GibsError::UrlConstruction => "Error composing the request URL.",
            GibsError::EncoderInit => "Error creating Opencv videowriter.",
            GibsError::FrameWrite => "Error writing to video writer.",
            GibsError::EncoderClose => "Error closing video writer.",
        }
    }
}

} // verus!
