//! The audio sink as the playback loop sees it, and the byte container the
//! decoder is fed from. The output device itself is an external collaborator;
//! the loop only ever reads whether the sink is empty or paused and sets its
//! volume, so that is the whole model.

use vstd::prelude::*;

verus! {

/// The playback loop's view of the audio sink. `volume` is in thousandths of
/// full output.
pub struct SinkModel {
    pub empty: bool,
    pub paused: bool,
    pub volume: u32,
}

impl SinkModel {
    /// A fresh sink: nothing queued, playing (not paused), full output.
    pub fn new() -> (r: SinkModel)
        ensures
            r.empty == true,
            r.paused == false,
            r.volume == 1000,
    {
        SinkModel { empty: true, paused: false, volume: 1000 }
    }

    /// Decoded samples were handed to the sink: it is no longer empty.
    pub fn appended(&mut self)
        ensures
            final(self).empty == false,
            final(self).paused == old(self).paused,
            final(self).volume == old(self).volume,
    {
        self.empty = false;
    }

    /// The sink ran out of samples.
    pub fn drained(&mut self)
        ensures
            final(self).empty == true,
            final(self).paused == old(self).paused,
            final(self).volume == old(self).volume,
    {
        self.empty = true;
    }
}

/// One track's fetched bytes, ready to be decoded.
pub struct Mp3 {
    pub bytes: Vec<u8>,
}

impl Mp3 {
    /// Wraps a fetched buffer for the decoder. Loading cannot fail; the
    /// `Result` is kept so callers propagate uniformly.
    pub fn load(buf: Vec<u8>) -> (r: Result<Mp3, crate::models::bc_error::BcradioError>)
        ensures
            (match r {
                Ok(m) => m.bytes@ == buf@,
                Err(_) => false,
            }),
    {
        Ok(Mp3 { bytes: buf })
    }
}

} // verus!
