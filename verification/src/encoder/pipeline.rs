use vstd::prelude::*;
use crate::text::{chars_of, has_prefix, starts_with};
use crate::encoder::error::EncoderError;

verus! {

/// Media types of audio streams begin with `audio/`.
pub open spec fn is_audio_media(name: Seq<char>) -> bool {
    has_prefix(name, "audio/"@)
}

/// Whether a stream's media type is audio.
pub fn is_audio(name: &str) -> (r: bool)
    ensures
        r == is_audio_media(name@),
{
    let n = chars_of(name);
    let p: Vec<char> = vec!['a', 'u', 'd', 'i', 'o', '/'];
    proof {
        reveal_strlit("audio/");
    }
    assert(p@ =~= "audio/"@);
    starts_with(&n, &p)
}

/// The first pad whose media type is audio.
pub open spec fn first_audio(names: Seq<Option<String>>, n: int) -> Option<int>
    decreases n,
{
    if n <= 0 {
        None
    } else {
        match first_audio(names, n - 1) {
            Some(i) => Some(i),
            None => match names[n - 1] {
                Some(s) => if is_audio_media(s@) { Some(n - 1) } else { None },
                None => None,
            },
        }
    }
}

/// Picks the stream whose header is used among the sink's pads (given by
/// the media type of their current caps, if any): the first audio one; an
/// error when there is none.
pub fn first_audio_pad(names: &Vec<Option<String>>) -> (r: Result<usize, EncoderError>)
    ensures
        match first_audio(names@, names@.len() as int) {
            Some(i) => r == Ok::<usize, EncoderError>(i as usize),
            None => r matches Err(EncoderError::InvalidState(m)) && m@ == "No audio stream"@,
        },
{
    let mut i: usize = 0;
    while i < names.len()
        invariant
            0 <= i <= names@.len(),
            first_audio(names@, i as int) is None,
        decreases names.len() - i,
    {
        let audio = match &names[i] {
            Some(s) => is_audio(s.as_str()),
            None => false,
        };
        if audio {
            proof {
                lemma_first_audio_settles(names@, i + 1, names@.len() as int);
            }
            return Ok(i);
        }
        i = i + 1;
    }
    Err(EncoderError::InvalidState("No audio stream".to_owned()))
}

proof fn lemma_first_audio_settles(names: Seq<Option<String>>, k: int, n: int)
    requires
        0 <= k <= n,
        first_audio(names, k) is Some,
    ensures
        first_audio(names, n) == first_audio(names, k),
    decreases n - k,
{
    if k < n {
        lemma_first_audio_settles(names, k, n - 1);
    }
}

/// A message on the pipeline's bus while it starts.
pub enum BusMessage {
    /// An element changed state; whether it is now playing.
    StateChanged { source_name: String, now_playing: bool },
    EndOfStream,
    Error,
    Other,
}

/// What starting the pipeline does on a bus message.
#[derive(Debug, Clone, Copy, PartialEq, Eq, Structural)]
pub enum BusAction {
    /// Keep waiting.
    Continue,
    /// The pipeline plays: seek to the start at the highest rate, then stop waiting.
    SeekAndStop,
    /// The stream ended: stop waiting.
    Stop,
}

/// Waiting for the pipeline ends when the pipeline itself (an element
/// whose name starts with `pipeline`) plays, or at the end of the stream.
pub fn bus_action(msg: &BusMessage) -> (r: BusAction)
    ensures
        r == match msg {
            BusMessage::StateChanged { source_name, now_playing } =>
                if has_prefix(source_name@, "pipeline"@) && *now_playing { BusAction::SeekAndStop } else { BusAction::Continue },
            BusMessage::EndOfStream => BusAction::Stop,
            _ => BusAction::Continue,
        },
{
    match msg {
        BusMessage::StateChanged { source_name, now_playing } => {
            let n = chars_of(source_name.as_str());
            let p: Vec<char> = vec!['p', 'i', 'p', 'e', 'l', 'i', 'n', 'e'];
            proof {
                reveal_strlit("pipeline");
            }
            assert(p@ =~= "pipeline"@);
            if starts_with(&n, &p) && *now_playing {
                BusAction::SeekAndStop
            } else {
                BusAction::Continue
            }
        },
        BusMessage::EndOfStream => BusAction::Stop,
        _ => BusAction::Continue,
    }
}

} // verus!
