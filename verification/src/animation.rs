//! The animation frame-stepper: an ordered sequence of sprite buffers
//! advanced at a fixed frame interval by accumulated elapsed time.

use vstd::prelude::*;
use crate::buffer::{Buffer, BufferAtlas};

verus! {

/// Steps through the sprite buffers of an atlas. The elapsed-time
/// accumulator is kept in the same (caller-chosen) integer time unit as the
/// frame duration.
pub struct Animation {
    buffer_atlas: BufferAtlas,
    current_frame: u32,
    total_frames: u32,
    frame_duration: u64,
    elapsed_time: u64,
}

impl Animation {
    pub closed spec fn spec_atlas(&self) -> BufferAtlas {
        self.buffer_atlas
    }

    pub closed spec fn spec_current(&self) -> u32 {
        self.current_frame
    }

    pub closed spec fn spec_total(&self) -> u32 {
        self.total_frames
    }

    pub closed spec fn spec_duration(&self) -> u64 {
        self.frame_duration
    }

    pub closed spec fn spec_elapsed(&self) -> u64 {
        self.elapsed_time
    }

    /// The current frame always exists, there is at least one frame, and the
    /// accumulator never sits at or past the frame duration (an update that
    /// reaches it advances the frame and resets the accumulator to zero).
    pub open spec fn wf(&self) -> bool {
        &&& self.spec_atlas().wf()
        &&& self.spec_total() == self.spec_atlas().spec_buffers().len()
        &&& 1 <= self.spec_total()
        &&& self.spec_current() < self.spec_total()
        &&& (self.spec_elapsed() < self.spec_duration() || self.spec_elapsed() == 0)
    }

    /// The animation state after accumulating `delta`: when the accumulator
    /// reaches or exceeds the frame duration, the current frame advances by
    /// one modulo the frame count and the accumulator resets to zero — one
    /// advance at most, with no catch-up for larger deltas; otherwise only
    /// the accumulator grows. [`lemma_step_properties`] states this
    /// behavior over the public accessors.
    pub closed spec fn spec_step(self, delta: u64) -> Animation {
        if self.spec_elapsed() + delta >= self.spec_duration() {
            Animation {
                current_frame: if self.spec_current() + 1 < self.spec_total() {
                    (self.spec_current() + 1) as u32
                } else {
                    0
                },
                elapsed_time: 0,
                ..self
            }
        } else {
            Animation { elapsed_time: (self.spec_elapsed() + delta) as u64, ..self }
        }
    }

    /// Takes the atlas whose buffers are the frames, in atlas order, and the
    /// fixed per-frame duration.
    pub fn new(buffer_atlas: BufferAtlas, frame_duration: u64) -> (a: Animation)
        requires
            buffer_atlas.wf(),
            1 <= buffer_atlas.spec_buffers().len() <= u32::MAX,
        ensures
            a.wf(),
            a.spec_atlas() == buffer_atlas,
            a.spec_current() == 0,
            a.spec_total() == buffer_atlas.spec_buffers().len(),
            a.spec_duration() == frame_duration,
            a.spec_elapsed() == 0,
    {
        let total_frames: u32 = buffer_atlas.len() as u32;
        Animation {
            buffer_atlas,
            current_frame: 0,
            total_frames,
            frame_duration,
            elapsed_time: 0,
        }
    }

    /// The sprite buffer of the frame the animation currently shows.
    pub fn get_frame(&self) -> (r: &Buffer)
        requires
            self.wf(),
        ensures
            *r == self.spec_atlas().spec_buffers()[self.spec_current() as int],
            r.wf(),
    {
        self.buffer_atlas.get_buffer(self.current_frame as usize)
    }

    /// The index of the frame the animation currently shows.
    pub fn get_current_frame(&self) -> (r: u32)
        ensures
            r == self.spec_current(),
    {
        self.current_frame
    }

    /// Accumulates `delta` elapsed time and advances at most one frame.
    pub fn update(&mut self, delta: u64)
        requires
            old(self).wf(),
        ensures
            final(self).wf(),
            *final(self) == old(self).spec_step(delta),
    {
        if delta >= self.frame_duration - self.elapsed_time {
            self.increment_frame();
            self.elapsed_time = 0;
        } else {
            self.elapsed_time = self.elapsed_time + delta;
        }
    }

    /// What one step does, stated over the public accessors: each crossing
    /// of the frame-duration threshold advances exactly one frame, wrapping
    /// to 0 past the last frame; a step short of the threshold only
    /// accumulates.
    pub proof fn lemma_step_properties(self, delta: u64)
        ensures
            self.spec_step(delta).spec_atlas() == self.spec_atlas(),
            self.spec_step(delta).spec_total() == self.spec_total(),
            self.spec_step(delta).spec_duration() == self.spec_duration(),
            self.spec_elapsed() + delta >= self.spec_duration() ==> {
                &&& self.spec_step(delta).spec_current() == (if self.spec_current() + 1
                    < self.spec_total() {
                    self.spec_current() + 1
                } else {
                    0
                })
                &&& self.spec_step(delta).spec_elapsed() == 0
            },
            self.spec_elapsed() + delta < self.spec_duration() ==> {
                &&& self.spec_step(delta).spec_current() == self.spec_current()
                &&& self.spec_step(delta).spec_elapsed() == self.spec_elapsed() + delta
            },
    {
    }

    /// Advances the current frame by one, wrapping past the last frame.
    fn increment_frame(&mut self)
        requires
            old(self).wf(),
        ensures
            final(self).current_frame == (if old(self).spec_current() + 1 < old(self).spec_total() {
                old(self).spec_current() + 1
            } else {
                0
            }),
            final(self).buffer_atlas == old(self).buffer_atlas,
            final(self).total_frames == old(self).total_frames,
            final(self).frame_duration == old(self).frame_duration,
            final(self).elapsed_time == old(self).elapsed_time,
    {
        self.current_frame = if self.current_frame + 1 < self.total_frames {
            self.current_frame + 1
        } else {
            0
        };
    }
}

} // verus!
