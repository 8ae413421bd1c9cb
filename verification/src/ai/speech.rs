//! Speech engines: the traits a speech-to-text or text-to-speech backend
//! implements, and the managers that hold the active one.
use vstd::prelude::*;
use crate::storage::vfs::Error;

verus! {

/// A speech-to-text backend.
pub trait SttEngine {
    /// Transcribes PCM samples.
    fn transcribe(&mut self, audio: &[i16]) -> Result<String, Error>;
}

/// A text-to-speech backend.
pub trait TtsEngine {
    /// Synthesises PCM samples for `text`.
    fn speak(&mut self, text: &str) -> Result<Vec<i16>, Error>;
}

/// Holds the active speech-to-text engine.
pub struct SttManager<E: SttEngine> {
    pub engine: Option<E>,
}

impl<E: SttEngine> SttManager<E> {
    /// No engine yet.
    pub fn new() -> (m: Self)
        ensures
            m.engine is None,
    {
        SttManager { engine: None }
    }

    /// Makes `engine` the active engine.
    pub fn set_engine(&mut self, engine: E)
        ensures
            final(self).engine == Some(engine),
    {
        self.engine = Some(engine);
    }
}

/// Holds the active text-to-speech engine.
pub struct TtsManager<E: TtsEngine> {
    pub engine: Option<E>,
}

impl<E: TtsEngine> TtsManager<E> {
    /// A manager whose engine is `fallback` (the built-in tone generator on
    /// the platform).
    pub fn new(fallback: E) -> (m: Self)
        ensures
            m.engine == Some(fallback),
    {
        TtsManager { engine: Some(fallback) }
    }

    /// Makes `engine` the active engine.
    pub fn set_engine(&mut self, engine: E)
        ensures
            final(self).engine == Some(engine),
    {
        self.engine = Some(engine);
    }

    /// Synthesises `text` with the active engine; no samples without one.
    pub fn speak(&mut self, text: &str) -> (r: Result<Vec<i16>, Error>)
        ensures
            old(self).engine is None ==> (r matches Ok(v) && v@.len() == 0),
            old(self).engine is None <==> final(self).engine is None,
    {
        match &mut self.engine {
            Some(e) => e.speak(text),
            None => Ok(Vec::new()),
        }
    }
}

} // verus!
