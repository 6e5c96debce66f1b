//! The threadless variant: hops are processed inside the audio callback.
//!
//! There is no worker and there are no queues. A callback appends its mono
//! input to a buffer, takes whole hops from the front of it as long as
//! there are any (and as its work limit allows), stores what the transform
//! gives for them, and fills its output from that store. The transform
//! itself is run by the caller, between `next_hop` and `accept`.

use crate::adapter::{render, spec_rendered};
use crate::sample::{Frame, SILENCE};
use vstd::prelude::*;
use vstd::slice::slice_subrange;

verus! {

/// The state of the threadless adapter as plain values.
pub struct InlineState {
    /// Samples per hop.
    pub hop_size: usize,
    /// Most hops to process in one callback; `None` for no limit.
    pub max_hops_per_call: Option<usize>,
    /// Most hops of input to keep from one callback to the next; `None`
    /// for no limit.
    pub max_buffered_hops: Option<usize>,
    /// Mono input that has not been processed yet, oldest first.
    pub input: Seq<u32>,
    /// Processed samples that have not been emitted yet, oldest first.
    pub output: Seq<u32>,
    /// No hop has been processed yet: the output of the first one is
    /// discarded, for the transform fades in on it.
    pub first_frame: bool,
    /// Hops taken in the current callback.
    pub hops_this_call: usize,
}

impl InlineState {
    /// A hop can be taken now: hops have a size, a whole one is buffered,
    /// and the work limit of this callback is not used up.
    pub open spec fn hop_ready(self) -> bool {
        &&& self.hop_size > 0
        &&& self.input.len() >= self.hop_size
        &&& match self.max_hops_per_call {
            Some(limit) => self.hops_this_call < limit,
            None => true,
        }
    }

    /// The state at the start of a callback that brings `samples`.
    pub open spec fn enqueued(self, samples: Seq<u32>) -> InlineState {
        InlineState { input: self.input + samples, hops_this_call: 0, ..self }
    }

    /// The state after the front hop was taken.
    pub open spec fn hop_taken(self) -> InlineState {
        InlineState {
            input: self.input.skip(self.hop_size as int),
            hops_this_call: if self.hops_this_call == usize::MAX {
                usize::MAX
            } else {
                (self.hops_this_call + 1) as usize
            },
            ..self
        }
    }

    /// The state after the transform gave `output` for a hop.
    pub open spec fn accepted(self, output: Seq<u32>) -> InlineState {
        InlineState {
            output: if self.first_frame {
                self.output
            } else {
                self.output + output
            },
            first_frame: false,
            ..self
        }
    }

    /// Number of input samples that may stay buffered between callbacks;
    /// nothing where there is no limit or the limit is beyond `usize`.
    pub open spec fn backlog_limit(self) -> Option<nat> {
        match self.max_buffered_hops {
            Some(hops) => if hops * self.hop_size <= usize::MAX {
                Some((hops * self.hop_size) as nat)
            } else {
                None
            },
            None => None,
        }
    }

    /// The input that stays buffered: all of it, or the newest part of it
    /// up to the backlog limit.
    pub open spec fn trimmed_input(self) -> Seq<u32> {
        match self.backlog_limit() {
            Some(limit) => if self.input.len() > limit {
                self.input.skip(self.input.len() - limit)
            } else {
                self.input
            },
            None => self.input,
        }
    }

    /// The processed samples that a callback of `count` frames emits.
    pub open spec fn ready(self, count: nat) -> Seq<u32> {
        if count <= self.output.len() {
            self.output.take(count as int)
        } else {
            self.output
        }
    }

    /// The state at the end of a callback of `count` frames: what was
    /// emitted has left the store, and the input backlog is trimmed.
    pub open spec fn finished(self, count: nat) -> InlineState {
        InlineState {
            input: self.trimmed_input(),
            output: self.output.skip(self.ready(count).len() as int),
            ..self
        }
    }
}

/// The callback side of an effect that runs its transform inline.
pub struct InlineAdapter {
    hop_size: usize,
    max_hops_per_call: Option<usize>,
    max_buffered_hops: Option<usize>,
    input_buffer: Vec<u32>,
    output_buffer: Vec<u32>,
    first_frame: bool,
    hops_this_call: usize,
}

impl View for InlineAdapter {
    type V = InlineState;

    closed spec fn view(&self) -> InlineState {
        InlineState {
            hop_size: self.hop_size,
            max_hops_per_call: self.max_hops_per_call,
            max_buffered_hops: self.max_buffered_hops,
            input: self.input_buffer@,
            output: self.output_buffer@,
            first_frame: self.first_frame,
            hops_this_call: self.hops_this_call,
        }
    }
}

impl InlineAdapter {
    /// An adapter with empty buffers for a transform that works on hops of
    /// `hop_size` samples.
    pub fn new(
        hop_size: usize,
        max_hops_per_call: Option<usize>,
        max_buffered_hops: Option<usize>,
    ) -> (adapter: InlineAdapter)
        ensures
            adapter@ == (InlineState {
                hop_size,
                max_hops_per_call,
                max_buffered_hops,
                input: Seq::empty(),
                output: Seq::empty(),
                first_frame: true,
                hops_this_call: 0,
            }),
    {
        InlineAdapter {
            hop_size,
            max_hops_per_call,
            max_buffered_hops,
            input_buffer: Vec::new(),
            output_buffer: Vec::new(),
            first_frame: true,
            hops_this_call: 0,
        }
    }

    /// Number of input samples waiting to be processed.
    pub fn buffered_input(&self) -> (count: usize)
        ensures
            count == self@.input.len(),
    {
        self.input_buffer.len()
    }

    /// Number of processed samples waiting to be emitted.
    pub fn buffered_output(&self) -> (count: usize)
        ensures
            count == self@.output.len(),
    {
        self.output_buffer.len()
    }

    /// Starts a callback: appends its mono input to the input buffer.
    pub fn enqueue(&mut self, samples: &[u32])
        ensures
            final(self)@ == old(self)@.enqueued(samples@),
    {
        self.input_buffer.extend_from_slice(samples);
        self.hops_this_call = 0;
        assert(self.input_buffer@ =~= old(self).input_buffer@ + samples@);
    }

    /// Takes the oldest hop from the input buffer, where a hop can be taken.
    pub fn next_hop(&mut self) -> (hop: Option<Vec<u32>>)
        ensures
            hop is Some <==> old(self)@.hop_ready(),
            hop matches Some(samples) ==> {
                &&& samples@ == old(self)@.input.take(old(self)@.hop_size as int)
                &&& final(self)@ == old(self)@.hop_taken()
            },
            hop is None ==> final(self)@ == old(self)@,
    {
        if self.hop_size == 0 || self.input_buffer.len() < self.hop_size {
            return None;
        }
        match self.max_hops_per_call {
            Some(limit) => {
                if self.hops_this_call >= limit {
                    return None;
                }
            },
            None => {},
        }
        let mut rest = self.input_buffer.split_off(self.hop_size);
        core::mem::swap(&mut self.input_buffer, &mut rest);
        self.hops_this_call = self.hops_this_call.saturating_add(1);
        Some(rest)
    }

    /// Stores what the transform gave for a hop. The output of the first
    /// hop ever is discarded.
    pub fn accept(&mut self, output: &[u32])
        ensures
            final(self)@ == old(self)@.accepted(output@),
    {
        if !self.first_frame {
            self.output_buffer.extend_from_slice(output);
            assert(self.output_buffer@ =~= old(self).output_buffer@ + output@);
        }
        self.first_frame = false;
    }

    /// Ends a callback: writes one frame to `out` for each sample of `dry`,
    /// the mono input of this callback. The frames come from the processed
    /// samples as far as there are any, and from `dry` at the same
    /// position after that. What was emitted leaves the store, and input
    /// beyond the backlog limit is dropped, oldest first.
    pub fn finish(&mut self, dry: &[u32], out: &mut Vec<Frame>)
        ensures
            final(out)@.len() == dry@.len(),
            final(out)@ == spec_rendered(
                old(self)@.ready(dry@.len()),
                dry@,
                SILENCE,
                dry@.len(),
            ),
            final(self)@ == old(self)@.finished(dry@.len()),
    {
        let count: usize = dry.len();
        let taken: usize = if count <= self.output_buffer.len() {
            count
        } else {
            self.output_buffer.len()
        };
        let ready = slice_subrange(self.output_buffer.as_slice(), 0, taken);
        let _ = render(ready, dry, SILENCE, count, out);
        let mut rest = self.output_buffer.split_off(taken);
        core::mem::swap(&mut self.output_buffer, &mut rest);
        match self.max_buffered_hops {
            Some(hops) => {
                match hops.checked_mul(self.hop_size) {
                    Some(limit) => {
                        if self.input_buffer.len() > limit {
                            let excess: usize = self.input_buffer.len() - limit;
                            let mut newest = self.input_buffer.split_off(excess);
                            core::mem::swap(&mut self.input_buffer, &mut newest);
                        }
                    },
                    None => {},
                }
            },
            None => {},
        }
    }
}

} // verus!
