//! Frame animation over a list of textures: advance to the next frame,
//! wrapping around, once a frame's duration has elapsed. The host supplies
//! the current time of its monotonic clock in milliseconds; the advance
//! decision and the frame arithmetic are verified here.

use vstd::prelude::*;

verus! {

use crate::texture::Texture;

/// A looping animation: which of its frames is current, and when it last
/// advanced.
pub struct Animation {
    pub frames: Vec<Texture>,
    pub current_frame: usize,
    /// How long each frame stays current, in milliseconds.
    pub frame_duration_ms: u64,
    /// Reading of the host's monotonic clock when the frame last advanced.
    pub last_frame_time_ms: u64,
}

impl Animation {
    /// At least one frame, and the current one exists.
    pub open spec fn wf(self) -> bool {
        &&& self.frames@.len() > 0
        &&& (self.current_frame as int) < self.frames@.len()
    }

    /// An animation over `frames`, starting at the first frame at time
    /// `now_ms`.
    pub fn new(frames: Vec<Texture>, frame_duration_ms: u64, now_ms: u64) -> (a: Animation)
        requires
            frames@.len() > 0,
        ensures
            a.wf(),
            a.frames == frames,
            a.current_frame == 0,
            a.frame_duration_ms == frame_duration_ms,
            a.last_frame_time_ms == now_ms,
    {
        Animation { frames, current_frame: 0, frame_duration_ms, last_frame_time_ms: now_ms }
    }

    /// The texture to show at time `now_ms`: if a full frame duration has
    /// elapsed since the last advance, move to the next frame (wrapping
    /// past the last) and remember `now_ms`; otherwise stay. The clock is
    /// monotonic, so `now_ms` is never before the recorded time.
    pub fn get_frame(&mut self, now_ms: u64) -> (t: Texture)
        requires
            old(self).wf(),
            now_ms >= old(self).last_frame_time_ms,
        ensures
            final(self).wf(),
            final(self).frames == old(self).frames,
            final(self).frame_duration_ms == old(self).frame_duration_ms,
            (now_ms - old(self).last_frame_time_ms >= old(self).frame_duration_ms) ==> {
                &&& final(self).current_frame == (old(self).current_frame + 1) % (
                old(self).frames@.len() as int)
                &&& final(self).last_frame_time_ms == now_ms
            },
            (now_ms - old(self).last_frame_time_ms < old(self).frame_duration_ms) ==> *final(self)
                == *old(self),
            t == final(self).frames@[final(self).current_frame as int],
    {
        if now_ms - self.last_frame_time_ms >= self.frame_duration_ms {
            let frame_count: usize = self.frames.len();
            self.current_frame = (self.current_frame + 1) % frame_count;
            self.last_frame_time_ms = now_ms;
        }
        self.frames[self.current_frame]
    }
}

} // verus!
