//! An animated image as a cycle of encoded frames, each shown for the same
//! time.

use vstd::prelude::*;

verus! {

/// An animation: its encoded frames, at least one.
#[derive(Debug, Clone)]
pub struct AnimatedGif {
    frames: Vec<String>,
}

impl AnimatedGif {
    /// The encoded frames, in order.
    pub closed spec fn frame_list(&self) -> Seq<String> {
        self.frames@
    }

    /// An animation of the given frames; none where there is no frame.
    pub fn from_frames(frames: Vec<String>) -> (r: Option<Self>)
        ensures
            frames@.len() == 0 ==> r is None,
            frames@.len() > 0 ==> (r matches Some(g) && g.frame_list() == frames@),
    {
        if frames.len() == 0 {
            None
        } else {
            Some(AnimatedGif { frames })
        }
    }

    /// The number of frames.
    pub fn frame_count(&self) -> (r: usize)
        ensures
            r == self.frame_list().len(),
    {
        self.frames.len()
    }

    /// The frame shown `time_ms` milliseconds in, each frame lasting
    /// `frame_duration_ms`: the count of whole frame times so far, taken as
    /// a machine word, modulo the number of frames; empty where there is no
    /// frame.
    pub fn get_frame(&self, time_ms: u128, frame_duration_ms: u128) -> (r: &str)
        requires
            self.frame_list().len() > 0 ==> frame_duration_ms > 0,
        ensures
            self.frame_list().len() == 0 ==> r@.len() == 0,
            self.frame_list().len() > 0 ==> r@ == self.frame_list()[
                (((time_ms / frame_duration_ms) as usize) as int) % (self.frame_list().len() as int)
            ]@,
    {
        if self.frames.len() == 0 {
            proof {
                reveal_strlit("");
            }
            return "";
        }
        let idx = (time_ms / frame_duration_ms) as usize % self.frames.len();
        self.frames[idx].as_str()
    }
}

} // verus!
