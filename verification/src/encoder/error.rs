use vstd::prelude::*;
use crate::text::str_equal;

verus! {

/// Why re-encoding a file to Opus failed.
#[derive(Debug)]
pub enum EncoderError {
    /// A pipeline element could not be made; its name once known.
    FailedToCreateElement(Option<String>),
    GstreamerError(String),
    PadLinkError(String),
    StateChangeError(String),
    InvalidState(String),
    GetError(String),
    NoStreamHeader,
    InvalidMediaFile,
}

/// The message GStreamer gives when a factory cannot make an element.
pub open spec fn element_creation_failure() -> Seq<char> {
    "Failed to create element from factory name"@
}

impl EncoderError {
    /// Names the element whose creation failed; other errors are kept.
    pub fn maybe_set_element(self, element: &str) -> (r: Self)
        ensures
            match self {
                EncoderError::FailedToCreateElement(_) => (r matches EncoderError::FailedToCreateElement(Some(e)) && e@ == element@),
                _ => r == self,
            },
    {
        match self {
            EncoderError::FailedToCreateElement(_) => EncoderError::FailedToCreateElement(Some(element.to_owned())),
            s => s,
        }
    }

    /// Classifies a GStreamer boolean error by its message.
    pub fn from_gstreamer_message(message: &str) -> (r: Self)
        ensures
            message@ == element_creation_failure() ==> r matches EncoderError::FailedToCreateElement(None),
            message@ != element_creation_failure() ==> (r matches EncoderError::GstreamerError(m) && m@ == message@),
    {
        let expected = "Failed to create element from factory name";
        if str_equal(message, expected) {
            EncoderError::FailedToCreateElement(None)
        } else {
            EncoderError::GstreamerError(message.to_owned())
        }
    }
}

} // verus!
