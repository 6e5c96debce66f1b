//! The stream adapter: the part that runs on the host's audio callback.
//!
//! Once per callback it applies a changed configuration by replacing the
//! worker, mixes the input down to mono, offers it to the input queue,
//! takes what the worker has ready from the output queue, and fills what
//! is missing so that every callback gives back as many frames as it got.
//! It never waits for the worker.
//!
//! Where no worker can be started for a configuration (the host's rate is
//! not the transform's, or the transform cannot be constructed), the
//! adapter passes its input through unchanged and remembers the failure:
//! it does not try again until the configuration moves.

use crate::config::{ConfigStore, SuppressionParams, SuppressionSettings};
use crate::instrumentation::REPORT_INTERVAL_HOPS;
use crate::sample::{all_finite, duplicate, is_finite, spec_duplicate, Frame, SILENCE};
use crate::transport::{channel, spec_capacity_ok, spec_pushed, SampleConsumer, SampleProducer};
use crate::worker::{spec_silence, Worker, WorkerEnds, WorkerState, WORKER_IDLE_SLEEP_MICROS};
use vstd::prelude::*;
use vstd::slice::slice_subrange;

verus! {

/// Capacity of each of the two queues, in samples: one second at the
/// reference rate.
pub const RING_CAPACITY_SAMPLES: usize = 48_000;

/// The sample rate that the reference transform requires, in hertz.
pub const REQUIRED_SAMPLE_RATE: u32 = 48_000;

/// The tuning constants of one effect instance.
#[derive(Clone, Copy, Debug)]
pub struct AdapterConfig {
    /// The one sample rate that the transform accepts, in hertz.
    pub sample_rate: u32,
    /// Capacity of each queue, in samples.
    pub capacity: usize,
    /// Hops between two timing summaries of the worker; zero for none.
    pub report_interval: u64,
    /// Length of one idle sleep of the worker, in microseconds.
    pub idle_sleep_micros: u64,
}

impl AdapterConfig {
    /// The reference values.
    pub open spec fn spec_reference() -> AdapterConfig {
        AdapterConfig {
            sample_rate: REQUIRED_SAMPLE_RATE,
            capacity: RING_CAPACITY_SAMPLES,
            report_interval: REPORT_INTERVAL_HOPS,
            idle_sleep_micros: WORKER_IDLE_SLEEP_MICROS,
        }
    }

    /// The reference values.
    pub fn reference() -> (config: AdapterConfig)
        ensures
            config == Self::spec_reference(),
    {
        AdapterConfig {
            sample_rate: REQUIRED_SAMPLE_RATE,
            capacity: RING_CAPACITY_SAMPLES,
            report_interval: REPORT_INTERVAL_HOPS,
            idle_sleep_micros: WORKER_IDLE_SLEEP_MICROS,
        }
    }

    /// The host's mix rate is the one the transform requires.
    pub open spec fn spec_rate_matches(self, mix_rate: i32) -> bool {
        mix_rate == self.sample_rate
    }

    /// A worker can be started at this mix rate: the rate matches and
    /// queues of the configured capacity can be made.
    pub open spec fn spec_can_start(self, mix_rate: i32) -> bool {
        self.spec_rate_matches(mix_rate) && spec_capacity_ok(self.capacity)
    }

    /// Tells whether the host's mix rate is the one the transform requires.
    pub fn rate_matches(&self, mix_rate: i32) -> (matches: bool)
        ensures
            matches == self.spec_rate_matches(mix_rate),
    {
        mix_rate >= 0 && mix_rate as u32 == self.sample_rate
    }
}

/// The sample at position `i` of a callback's output: what the worker had
/// ready for that position, else the dry input at that position, else the
/// last sample emitted before it.
pub open spec fn spec_fill_sample(ready: Seq<u32>, dry: Seq<u32>, held: u32, i: int) -> u32 {
    if i < ready.len() {
        ready[i]
    } else if i < dry.len() {
        dry[i]
    } else {
        spec_held(ready, dry, held)
    }
}

/// The sample that is held beyond the end of both the ready and the dry
/// samples: the last of the longer of the two or, where both are empty,
/// the sample `held` that was emitted last before this callback.
pub open spec fn spec_held(ready: Seq<u32>, dry: Seq<u32>, held: u32) -> u32 {
    if ready.len() == 0 && dry.len() == 0 {
        held
    } else if dry.len() > ready.len() {
        dry[dry.len() - 1]
    } else {
        ready[ready.len() - 1]
    }
}

/// The mono samples of a callback's output of `count` frames.
pub open spec fn spec_filled(ready: Seq<u32>, dry: Seq<u32>, held: u32, count: nat) -> Seq<u32> {
    Seq::new(count, |i: int| spec_fill_sample(ready, dry, held, i))
}

/// A callback's output of `count` frames: each mono sample on both channels.
pub open spec fn spec_rendered(ready: Seq<u32>, dry: Seq<u32>, held: u32, count: nat) -> Seq<
    Frame,
> {
    Seq::new(count, |i: int| spec_duplicate(spec_fill_sample(ready, dry, held, i)))
}

/// The sample emitted last once a callback of `count` frames is through.
pub open spec fn spec_last_emitted(ready: Seq<u32>, dry: Seq<u32>, held: u32, count: nat) -> u32 {
    if count == 0 {
        held
    } else {
        spec_fill_sample(ready, dry, held, count - 1)
    }
}

/// A scratch buffer after a callback of `frame_count` frames: scratch
/// buffers grow to the largest callback seen and never shrink. What they
/// held stays, and what is added is silence.
pub open spec fn spec_grown(before: Seq<u32>, frame_count: nat) -> Seq<u32> {
    if before.len() < frame_count {
        before + spec_silence((frame_count - before.len()) as nat)
    } else {
        before
    }
}

/// A scratch buffer after `fresh` was written over its front: the rest
/// of it stays.
pub open spec fn spec_overwritten(scratch: Seq<u32>, fresh: Seq<u32>) -> Seq<u32> {
    fresh + scratch.skip(fresh.len() as int)
}

/// Number of samples of `offered` that a queue with `free` free slots
/// takes: all of them, or as many as there are slots.
pub open spec fn spec_fitting(offered: nat, free: nat) -> int {
    if offered <= free {
        offered as int
    } else {
        free as int
    }
}

/// The count of dropped samples after `offered` samples were offered to
/// the input queue and `accepted` of them fit: it grows by the rest and
/// stops at the greatest value of its type.
pub open spec fn spec_dropped(before: u64, offered: nat, accepted: nat) -> u64 {
    if accepted >= offered {
        before
    } else if before + (offered - accepted) > u64::MAX {
        u64::MAX
    } else {
        (before + (offered - accepted)) as u64
    }
}

/// Writes a callback's output of `count` frames to `out` and returns the
/// sample emitted last. `ready` holds what the worker had ready, `dry` the
/// mono input, and `held` the sample emitted last before this callback.
pub fn render(ready: &[u32], dry: &[u32], held: u32, count: usize, out: &mut Vec<Frame>) -> (last:
    u32)
    ensures
        final(out)@ == spec_rendered(ready@, dry@, held, count as nat),
        last == spec_last_emitted(ready@, dry@, held, count as nat),
{
    out.clear();
    let mut last: u32 = held;
    let mut i: usize = 0;
    while i < count
        invariant
            i <= count,
            out@.len() == i,
            forall|j: int|
                0 <= j < i ==> out@[j] == spec_duplicate(
                    spec_fill_sample(ready@, dry@, held, j),
                ),
            last == spec_last_emitted(ready@, dry@, held, i as nat),
        decreases count - i,
    {
        let sample: u32 = if i < ready.len() {
            ready[i]
        } else if i < dry.len() {
            dry[i]
        } else {
            last
        };
        last = sample;
        out.push(duplicate(sample));
        i = i + 1;
    }
    assert(out@ =~= spec_rendered(ready@, dry@, held, count as nat));
    last
}

/// Counts what the input queue did not take of `offered` samples.
pub fn count_dropped(before: u64, offered: usize, accepted: usize) -> (after: u64)
    ensures
        after == spec_dropped(before, offered as nat, accepted as nat),
{
    if accepted >= offered {
        before
    } else {
        before.saturating_add((offered - accepted) as u64)
    }
}

/// The adapter's state as plain values.
pub struct AdapterState {
    pub config: AdapterConfig,
    /// The configuration revision that was applied last.
    pub applied_revision: u64,
    /// A worker's queues are attached. Without them the adapter passes
    /// its input through.
    pub attached: bool,
    /// The start for the applied revision failed: the rate did not match,
    /// the queues could not be made, or the driver reported that the
    /// transform could not be constructed. No start is tried again until
    /// the revision moves.
    pub start_failed: bool,
    /// The sample emitted last.
    pub last_output_sample: u32,
    /// Samples that the input queue had no room for, over all callbacks.
    pub dropped_input_samples: u64,
    /// Every sample that the input queue of the current worker has taken,
    /// in order.
    pub queued: Seq<u32>,
    /// Every sample that the output queue of the current worker has given,
    /// in order.
    pub drawn: Seq<u32>,
    /// The samples that the writing end of the input queue has written and
    /// does not yet know to have been read, oldest first; nothing without
    /// queues.
    pub backlog: Seq<u32>,
    /// The samples that the reading end of the output queue knows to be
    /// stored, oldest first; nothing without queues.
    pub known: Seq<u32>,
}

impl AdapterState {
    /// What every adapter's state satisfies: a failed start leaves no
    /// queues behind, the input queue never holds more than its capacity,
    /// and without queues nothing is known of any.
    pub open spec fn wf(self) -> bool {
        &&& !(self.attached && self.start_failed)
        &&& self.backlog.len() <= self.config.capacity
        &&& !self.attached ==> self.backlog.len() == 0 && self.known.len() == 0
    }

    /// The worker has to be replaced for the store's revision `current`:
    /// the store has moved on from the revision applied, or there is no
    /// worker though no start has failed for that revision.
    pub open spec fn needs_restart(self, current: u64) -> bool {
        self.applied_revision != current || (!self.attached && !self.start_failed)
    }

    /// The state without queues: what `detached` does to it, with
    /// `start_failed` telling whether a start has failed.
    pub open spec fn detached(self, start_failed: bool) -> AdapterState {
        AdapterState {
            attached: false,
            start_failed,
            backlog: Seq::empty(),
            known: Seq::empty(),
            ..self
        }
    }

    /// What a callback with a worker attached does to all but the queue
    /// ends: `dry` was offered to the input queue, which took its first
    /// `accepted` samples, and the output queue gave `ready`. What the
    /// input queue did not take are the newest samples, and they are
    /// counted as dropped.
    pub open spec fn exchanged(self, dry: Seq<u32>, accepted: nat, ready: Seq<u32>) -> AdapterState {
        AdapterState {
            last_output_sample: spec_last_emitted(ready, dry, self.last_output_sample, dry.len()),
            dropped_input_samples: spec_dropped(self.dropped_input_samples, dry.len(), accepted),
            queued: self.queued + dry.take(accepted as int),
            drawn: self.drawn + ready,
            ..self
        }
    }

    /// The state after the worker was replaced for `revision`: with new,
    /// empty queues where the start succeeded, without queues where it
    /// failed.
    pub open spec fn restarted(self, revision: u64, started: bool) -> AdapterState {
        AdapterState {
            applied_revision: revision,
            attached: started,
            start_failed: !started,
            queued: Seq::empty(),
            drawn: Seq::empty(),
            backlog: Seq::empty(),
            known: Seq::empty(),
            ..self
        }
    }

    /// One callback with a worker attached, for one answer of the two
    /// queues. The mono input `dry` is offered to the input queue, which
    /// takes its first `accepted` samples behind its backlog, of which the
    /// worker has meanwhile read the first `read`; it takes all of `dry`
    /// unless that fills the queue. The output queue gives `ready`, which
    /// is a whole callback's worth unless that empties the queue as far as
    /// its reading end knows; what that end knew comes first in what it
    /// gave and knows now. `out` is `ready` followed by `dry` from where
    /// `ready` ends, each sample on both channels.
    pub open spec fn exchange_with(
        self,
        dry: Seq<u32>,
        accepted: nat,
        read: int,
        ready: Seq<u32>,
        post: AdapterState,
        out: Seq<Frame>,
    ) -> bool {
        &&& accepted <= dry.len()
        &&& 0 <= read <= self.backlog.len()
        &&& post.backlog == spec_pushed(self.backlog, read, dry, accepted as int)
        &&& post.backlog.len() <= self.config.capacity
        &&& accepted == dry.len() || post.backlog.len() == self.config.capacity
        &&& ready.len() <= dry.len()
        &&& ready.len() == dry.len() || post.known.len() == 0
        &&& self.known.is_prefix_of(ready + post.known)
        &&& out == spec_rendered(ready, dry, self.last_output_sample, dry.len())
        &&& post == (AdapterState {
            backlog: post.backlog,
            known: post.known,
            ..self.exchanged(dry, accepted, ready)
        })
    }

    /// What one callback with a worker attached may do with the mono input
    /// `dry`: for some answer of the two queues, `post` and `out` are the
    /// state and the output that follow.
    pub open spec fn exchange_allows(self, dry: Seq<u32>, post: AdapterState, out: Seq<Frame>) -> bool {
        exists|accepted: nat, read: int, ready: Seq<u32>| #[trigger]
            self.exchange_with(dry, accepted, read, ready, post, out)
    }
}

/// The adapter's ends of the two queues.
struct AdapterLink {
    input: SampleProducer,
    output: SampleConsumer,
}

/// What a callback has to do about the worker before it processes audio.
pub enum Refresh {
    /// Nothing: the worker in place stands for the current configuration,
    /// or the start for it has failed and is not tried again.
    Keep,
    /// No worker can be started: stop the one in place, if any. The
    /// adapter passes its input through.
    Passthrough,
    /// Stop the worker in place, if any, and run this one in its stead.
    Launch(Worker),
}

/// The callback side of one effect instance.
pub struct StreamAdapter {
    config: AdapterConfig,
    applied_revision: u64,
    link: Option<AdapterLink>,
    start_failed: bool,
    input_scratch: Vec<u32>,
    output_scratch: Vec<u32>,
    last_output_sample: u32,
    dropped_input_samples: u64,
    queued: Ghost<Seq<u32>>,
    drawn: Ghost<Seq<u32>>,
}

impl View for StreamAdapter {
    type V = AdapterState;

    closed spec fn view(&self) -> AdapterState {
        AdapterState {
            config: self.config,
            applied_revision: self.applied_revision,
            attached: self.link is Some,
            start_failed: self.start_failed,
            last_output_sample: self.last_output_sample,
            dropped_input_samples: self.dropped_input_samples,
            queued: self.queued@,
            drawn: self.drawn@,
            backlog: match self.link {
                Some(link) => link.input.backlog(),
                None => Seq::empty(),
            },
            known: match self.link {
                Some(link) => link.output.known(),
                None => Seq::empty(),
            },
        }
    }
}

impl StreamAdapter {
    /// The attached input queue has the configured capacity.
    pub closed spec fn link_wf(self) -> bool {
        self.link matches Some(link) ==> link.input.capacity() == self.config.capacity
    }

    /// What every adapter satisfies.
    pub open spec fn wf(self) -> bool {
        self@.wf() && self.link_wf()
    }

    /// What the scratch buffer for the mono input holds.
    pub closed spec fn input_scratch(self) -> Seq<u32> {
        self.input_scratch@
    }

    /// What the scratch buffer for the worker's output holds.
    pub closed spec fn output_scratch(self) -> Seq<u32> {
        self.output_scratch@
    }

    /// An adapter without a worker, at revision zero, that has emitted and
    /// dropped nothing.
    pub fn new(config: AdapterConfig) -> (adapter: StreamAdapter)
        ensures
            adapter.wf(),
            adapter@ == (AdapterState {
                config,
                applied_revision: 0,
                attached: false,
                start_failed: false,
                last_output_sample: SILENCE,
                dropped_input_samples: 0,
                queued: Seq::empty(),
                drawn: Seq::empty(),
                backlog: Seq::empty(),
                known: Seq::empty(),
            }),
            adapter.input_scratch() == Seq::<u32>::empty(),
            adapter.output_scratch() == Seq::<u32>::empty(),
    {
        StreamAdapter {
            config,
            applied_revision: 0,
            link: None,
            start_failed: false,
            input_scratch: Vec::new(),
            output_scratch: Vec::new(),
            last_output_sample: SILENCE,
            dropped_input_samples: 0,
            queued: Ghost(Seq::empty()),
            drawn: Ghost(Seq::empty()),
        }
    }

    /// The configuration revision that was applied last.
    pub fn applied_revision(&self) -> (revision: u64)
        ensures
            revision == self@.applied_revision,
    {
        self.applied_revision
    }

    /// Tells whether the adapter passes its input through for want of a worker.
    pub fn is_passthrough(&self) -> (passthrough: bool)
        ensures
            passthrough == !self@.attached,
    {
        self.link.is_none()
    }

    /// Tells whether the start for the applied revision has failed.
    pub fn start_failed(&self) -> (failed: bool)
        ensures
            failed == self@.start_failed,
    {
        self.start_failed
    }

    /// The sample emitted last.
    pub fn last_output_sample(&self) -> (sample: u32)
        ensures
            sample == self@.last_output_sample,
    {
        self.last_output_sample
    }

    /// Samples that the input queue had no room for, over all callbacks.
    pub fn dropped_input_samples(&self) -> (dropped: u64)
        ensures
            dropped == self@.dropped_input_samples,
    {
        self.dropped_input_samples
    }

    /// Tells whether the worker has to be replaced: the store has moved on
    /// from the revision applied, or there is no worker though no start
    /// has failed for that revision.
    pub fn needs_restart(&self, current_revision: u64) -> (needed: bool)
        ensures
            needed == self@.needs_restart(current_revision),
    {
        self.applied_revision != current_revision || (self.link.is_none() && !self.start_failed)
    }

    /// Lets go of the worker's queues. The worker itself is stopped by
    /// whoever runs it. The next refresh starts a new one, unless a start
    /// has failed for the revision applied.
    pub fn stop_worker(&mut self)
        requires
            old(self).wf(),
        ensures
            final(self).wf(),
            final(self)@ == old(self)@.detached(old(self)@.start_failed),
            final(self).input_scratch() == old(self).input_scratch(),
            final(self).output_scratch() == old(self).output_scratch(),
    {
        self.link = None;
    }

    /// Takes note that the worker could not be started for the revision
    /// applied: its transform could not be constructed, or nothing could
    /// be found to run it. The queues are let go of, the adapter passes
    /// its input through, and no start is tried again until the revision
    /// moves.
    pub fn worker_failed(&mut self)
        requires
            old(self).wf(),
        ensures
            final(self).wf(),
            final(self)@ == old(self)@.detached(true),
            final(self).input_scratch() == old(self).input_scratch(),
            final(self).output_scratch() == old(self).output_scratch(),
    {
        self.link = None;
        self.start_failed = true;
    }

    /// Replaces the worker for the parameters `params` of configuration
    /// revision `revision` at the host's mix rate `mix_rate`.
    ///
    /// The queues of the worker in place are let go of and the revision is
    /// taken as applied. Where the mix rate is the one the transform
    /// requires, two new, empty queues of the configured capacity are made
    /// and a worker in `Starting` is returned that holds their other ends;
    /// else the start has failed, nothing is returned and the adapter
    /// passes its input through.
    pub fn restart(&mut self, params: SuppressionParams, revision: u64, mix_rate: i32) -> (worker:
        Option<Worker>)
        ensures
            final(self).wf(),
            final(self)@ == old(self)@.restarted(
                revision,
                old(self)@.config.spec_can_start(mix_rate),
            ),
            final(self).input_scratch() == old(self).input_scratch(),
            final(self).output_scratch() == old(self).output_scratch(),
            worker is Some <==> old(self)@.config.spec_can_start(mix_rate),
            worker matches Some(w) ==> {
                &&& w@.wf()
                &&& w@.in_order()
                &&& w@ == WorkerState::initial(
                    params,
                    old(self)@.config.sample_rate,
                    old(self)@.config.report_interval,
                    old(self)@.config.idle_sleep_micros,
                )
                &&& w.ends() == (WorkerEnds {
                    input_known: Seq::empty(),
                    output_backlog: Seq::empty(),
                    output_capacity: old(self)@.config.capacity as nat,
                })
            },
    {
        self.link = None;
        self.applied_revision = revision;
        self.start_failed = true;
        self.queued = Ghost(Seq::empty());
        self.drawn = Ghost(Seq::empty());
        if !self.config.rate_matches(mix_rate) {
            return None;
        }
        let to_worker = channel(self.config.capacity);
        let from_worker = channel(self.config.capacity);
        match (to_worker, from_worker) {
            (Some((input_producer, input_consumer)), Some((output_producer, output_consumer))) => {
                self.link = Some(AdapterLink { input: input_producer, output: output_consumer });
                self.start_failed = false;
                Some(
                    Worker::new(
                        input_consumer,
                        output_producer,
                        params,
                        self.config.sample_rate,
                        self.config.report_interval,
                        self.config.idle_sleep_micros,
                    ),
                )
            },
            _ => None,
        }
    }

    /// Applies the store's current parameters and revision where they have
    /// to be applied: once the revision has moved, and as long as there is
    /// no worker though no start has failed. A start that has failed is
    /// not tried again until the revision moves.
    pub fn refresh(
        &mut self,
        params: SuppressionParams,
        current_revision: u64,
        mix_rate: i32,
    ) -> (decision: Refresh)
        requires
            old(self).wf(),
        ensures
            final(self).wf(),
            final(self).input_scratch() == old(self).input_scratch(),
            final(self).output_scratch() == old(self).output_scratch(),
            !old(self)@.needs_restart(current_revision) ==> {
                &&& decision is Keep
                &&& final(self)@ == old(self)@
            },
            old(self)@.needs_restart(current_revision) ==> {
                &&& final(self)@ == old(self)@.restarted(
                    current_revision,
                    old(self)@.config.spec_can_start(mix_rate),
                )
                &&& if old(self)@.config.spec_can_start(mix_rate) {
                    decision is Launch
                } else {
                    decision is Passthrough
                }
            },
            decision matches Refresh::Launch(w) ==> {
                &&& w@.wf()
                &&& w@.in_order()
                &&& w@ == WorkerState::initial(
                    params,
                    old(self)@.config.sample_rate,
                    old(self)@.config.report_interval,
                    old(self)@.config.idle_sleep_micros,
                )
                &&& w.ends() == (WorkerEnds {
                    input_known: Seq::empty(),
                    output_backlog: Seq::empty(),
                    output_capacity: old(self)@.config.capacity as nat,
                })
            },
    {
        if !self.needs_restart(current_revision) {
            return Refresh::Keep;
        }
        match self.restart(params, current_revision, mix_rate) {
            Some(worker) => Refresh::Launch(worker),
            None => Refresh::Passthrough,
        }
    }

    /// Grows the two scratch buffers to `frame_count` samples where they
    /// are shorter. They never shrink; what they hold stays, and what is
    /// added is silence.
    pub fn ensure_scratch_capacity(&mut self, frame_count: usize)
        requires
            old(self).wf(),
        ensures
            final(self).wf(),
            final(self)@ == old(self)@,
            final(self).input_scratch() == spec_grown(old(self).input_scratch(), frame_count as nat),
            final(self).output_scratch() == spec_grown(
                old(self).output_scratch(),
                frame_count as nat,
            ),
    {
        if self.input_scratch.len() < frame_count {
            self.input_scratch.resize(frame_count, SILENCE);
            assert(self.input_scratch@ =~= spec_grown(
                old(self).input_scratch@,
                frame_count as nat,
            ));
        }
        if self.output_scratch.len() < frame_count {
            self.output_scratch.resize(frame_count, SILENCE);
            assert(self.output_scratch@ =~= spec_grown(
                old(self).output_scratch@,
                frame_count as nat,
            ));
        }
    }

    /// One audio callback: reads the frames of `input` and writes as many
    /// frames to `output`. `downmix` mixes the two channels of a frame down
    /// to one mono sample.
    ///
    /// Without a worker the input is copied to the output unchanged.
    /// With one, the mono input is offered to the input queue, which takes
    /// all of it unless that fills the queue, and what did not fit is
    /// counted as dropped; then the output is taken from the output queue,
    /// a whole callback's worth unless the worker has less ready, and the
    /// rest is filled with the mono input. Every mono sample goes to both
    /// channels. The mono input and what the output queue gave stand at
    /// the front of the two scratch buffers afterwards.
    pub fn process<F: Fn(u32, u32) -> u32>(
        &mut self,
        input: &[Frame],
        output: &mut Vec<Frame>,
        downmix: F,
    )
        requires
            old(self).wf(),
            forall|left: u32, right: u32| downmix.requires((left, right)),
        ensures
            final(self).wf(),
            final(output)@.len() == input@.len(),
            !old(self)@.attached ==> {
                &&& final(output)@ == input@
                &&& final(self)@ == old(self)@
                &&& final(self).input_scratch() == spec_grown(
                    old(self).input_scratch(),
                    input@.len(),
                )
                &&& final(self).output_scratch() == spec_grown(
                    old(self).output_scratch(),
                    input@.len(),
                )
            },
            old(self)@.attached ==> exists|
                dry: Seq<u32>,
                accepted: nat,
                read: int,
                ready: Seq<u32>,
            |
                {
                    &&& dry.len() == input@.len()
                    &&& forall|i: int|
                        0 <= i < dry.len() ==> downmix.ensures(
                            (input@[i].left, input@[i].right),
                            #[trigger] dry[i],
                        )
                    &&& #[trigger] old(self)@.exchange_with(
                        dry,
                        accepted,
                        read,
                        ready,
                        final(self)@,
                        final(output)@,
                    )
                    &&& final(self).input_scratch() == spec_overwritten(
                        spec_grown(old(self).input_scratch(), input@.len()),
                        dry,
                    )
                    &&& final(self).output_scratch() == spec_overwritten(
                        spec_grown(old(self).output_scratch(), input@.len()),
                        ready,
                    )
                },
    {
        let frame_count: usize = input.len();
        self.ensure_scratch_capacity(frame_count);
        if self.link.is_none() {
            output.clear();
            let mut i: usize = 0;
            while i < frame_count
                invariant
                    i <= frame_count,
                    frame_count == input@.len(),
                    output@ == input@.take(i as int),
                decreases frame_count - i,
            {
                output.push(input[i]);
                i = i + 1;
            }
            return ;
        }
        let ghost grown_input = self.input_scratch@;
        let ghost grown_output = self.output_scratch@;
        let mut i: usize = 0;
        while i < frame_count
            invariant
                i <= frame_count,
                frame_count == input@.len(),
                frame_count <= self.input_scratch@.len(),
                self.wf(),
                self@ == old(self)@,
                self.link is Some,
                self.output_scratch@ == grown_output,
                self.input_scratch@.len() == grown_input.len(),
                forall|j: int|
                    i <= j < grown_input.len() ==> self.input_scratch@[j] == grown_input[j],
                forall|left: u32, right: u32| downmix.requires((left, right)),
                forall|j: int|
                    0 <= j < i ==> downmix.ensures(
                        (input@[j].left, input@[j].right),
                        #[trigger] self.input_scratch@[j],
                    ),
            decreases frame_count - i,
        {
            let sample: u32 = downmix(input[i].left, input[i].right);
            self.input_scratch[i] = sample;
            i = i + 1;
        }
        let mono = slice_subrange(self.input_scratch.as_slice(), 0, frame_count);
        let ghost before = self@;
        let mut accepted: usize = 0;
        let mut processed: usize = 0;
        match &mut self.link {
            Some(link) => {
                accepted = link.input.try_push(mono);
                processed = link.output.pop_into(&mut self.output_scratch, frame_count);
            },
            None => {},
        }
        self.dropped_input_samples = count_dropped(
            self.dropped_input_samples,
            frame_count,
            accepted,
        );
        let ready = slice_subrange(self.output_scratch.as_slice(), 0, processed);
        self.last_output_sample = render(ready, mono, self.last_output_sample, frame_count, output);
        self.queued = Ghost(self.queued@ + mono@.take(accepted as int));
        self.drawn = Ghost(self.drawn@ + ready@);
        proof {
            let read = choose|read: int|
                0 <= read <= before.backlog.len() && self@.backlog == #[trigger] spec_pushed(
                    before.backlog,
                    read,
                    mono@,
                    accepted as int,
                );
            assert(ready@ =~= self.output_scratch@.take(processed as int));
            assert(self.input_scratch@ =~= spec_overwritten(grown_input, mono@));
            assert(self.output_scratch@ =~= spec_overwritten(grown_output, ready@));
            assert(before.exchange_with(
                mono@,
                accepted as nat,
                read,
                ready@,
                self@,
                output@,
            ));
        }
    }
}

/// Every callback is filled: the output has exactly as many frames as were
/// asked for, each frame carries one sample on both channels, and where
/// all the samples that went in are finite (what the worker had ready, the
/// dry input and the sample held from before), so is every sample that
/// comes out.
pub proof fn lemma_rendered_is_whole(ready: Seq<u32>, dry: Seq<u32>, held: u32, count: nat)
    ensures
        spec_rendered(ready, dry, held, count).len() == count,
        forall|i: int|
            0 <= i < count ==> (#[trigger] spec_rendered(ready, dry, held, count)[i]).left
                == spec_rendered(ready, dry, held, count)[i].right,
        all_finite(ready) && all_finite(dry) && is_finite(held) ==> forall|i: int|
            0 <= i < count ==> is_finite(
                (#[trigger] spec_rendered(ready, dry, held, count)[i]).left,
            ),
{
    if all_finite(ready) && all_finite(dry) && is_finite(held) {
        assert(is_finite(spec_held(ready, dry, held)));
        assert forall|i: int| 0 <= i < count implies is_finite(
            (#[trigger] spec_rendered(ready, dry, held, count)[i]).left,
        ) by {
            assert(spec_rendered(ready, dry, held, count)[i].left == spec_fill_sample(
                ready,
                dry,
                held,
                i,
            ));
        }
    }
}

/// The worker's output comes out first and in order, and the shortfall is
/// the dry input of the same positions: with `ready` no longer than the
/// callback and `dry` as long as it, the mono output is `ready` followed
/// by `dry` from where `ready` ends.
pub proof fn lemma_filled_is_ready_then_dry(ready: Seq<u32>, dry: Seq<u32>, held: u32)
    requires
        ready.len() <= dry.len(),
    ensures
        spec_filled(ready, dry, held, dry.len()) == ready + dry.skip(ready.len() as int),
{
    assert(spec_filled(ready, dry, held, dry.len()) =~= ready + dry.skip(ready.len() as int));
}

/// Overflow is counted: a callback that offers more samples than the input
/// queue can hold at all drops at least the excess, so the count of
/// dropped samples grows, or stands at the greatest value of its type.
pub proof fn lemma_overflow_is_counted(
    pre: AdapterState,
    dry: Seq<u32>,
    post: AdapterState,
    out: Seq<Frame>,
)
    requires
        pre.exchange_allows(dry, post, out),
        dry.len() > pre.config.capacity,
    ensures
        post.dropped_input_samples == u64::MAX || post.dropped_input_samples
            >= pre.dropped_input_samples + (dry.len() - pre.config.capacity),
        pre.dropped_input_samples < u64::MAX ==> post.dropped_input_samples
            > pre.dropped_input_samples,
{
}

/// What fits is taken: where the writing end of the input queue knows of
/// room for the whole mono input, the input queue takes all of it and
/// nothing is dropped. After a start, that holds for as many callbacks as
/// fit the capacity together, whatever the speed of the worker.
pub proof fn lemma_room_means_no_drop(
    pre: AdapterState,
    dry: Seq<u32>,
    post: AdapterState,
    out: Seq<Frame>,
)
    requires
        pre.exchange_allows(dry, post, out),
        pre.backlog.len() + dry.len() <= pre.config.capacity,
    ensures
        post.dropped_input_samples == pre.dropped_input_samples,
        post.queued == pre.queued + dry,
        post.backlog.len() <= pre.backlog.len() + dry.len(),
{
    let (accepted, read, ready) = choose|accepted: nat, read: int, ready: Seq<u32>| #[trigger]
        pre.exchange_with(dry, accepted, read, ready, post, out);
    assert(post.backlog.len() == pre.backlog.len() - read + accepted);
    assert(dry.take(accepted as int) =~= dry);
}

/// The drop count is what did not fit: with `free` the number of free
/// slots of the input queue as its writing end finds them at the push
/// (the capacity less the backlog that the worker has not read by then),
/// the queue takes the first `free` samples of the mono input, or all of
/// it where that is less, and the count of dropped samples grows by the
/// rest.
pub proof fn lemma_drop_count_is_what_did_not_fit(
    pre: AdapterState,
    dry: Seq<u32>,
    post: AdapterState,
    out: Seq<Frame>,
)
    requires
        pre.wf(),
        pre.exchange_allows(dry, post, out),
    ensures
        exists|free: nat|
            {
                &&& pre.config.capacity - pre.backlog.len() <= free <= pre.config.capacity
                &&& post.queued == pre.queued + #[trigger] dry.take(spec_fitting(dry.len(), free))
                &&& post.dropped_input_samples == spec_dropped(
                    pre.dropped_input_samples,
                    dry.len(),
                    spec_fitting(dry.len(), free) as nat,
                )
            },
{
    let (accepted, read, ready) = choose|accepted: nat, read: int, ready: Seq<u32>| #[trigger]
        pre.exchange_with(dry, accepted, read, ready, post, out);
    assert(post.backlog.len() == pre.backlog.len() - read + accepted);
    let free = (pre.config.capacity - (pre.backlog.len() - read)) as nat;
    assert(spec_fitting(dry.len(), free) == accepted);
    assert(post.queued == pre.queued + dry.take(spec_fitting(dry.len(), free)));
}

/// A failed start is not tried again: after a start that failed, at the
/// same revision the worker does not have to be replaced, whatever the
/// mix rate has become; once the revision moves, it does.
pub proof fn lemma_failed_start_waits_for_a_new_revision(
    pre: AdapterState,
    revision: u64,
    current: u64,
)
    ensures
        !pre.restarted(revision, false).attached,
        pre.restarted(revision, false).needs_restart(current) <==> current != revision,
        pre.detached(true).needs_restart(current) <==> current != pre.applied_revision,
{
}

/// A callback changes nothing but the sample emitted last and the count of
/// dropped samples, and that count never falls.
pub proof fn lemma_exchange_keeps_the_rest(
    pre: AdapterState,
    dry: Seq<u32>,
    post: AdapterState,
    out: Seq<Frame>,
)
    requires
        pre.exchange_allows(dry, post, out),
    ensures
        out.len() == dry.len(),
        post.config == pre.config,
        post.applied_revision == pre.applied_revision,
        post.attached == pre.attached,
        post.dropped_input_samples >= pre.dropped_input_samples,
        pre.queued.is_prefix_of(post.queued),
        pre.drawn.is_prefix_of(post.drawn),
{
    assert(pre.queued =~= post.queued.subrange(0, pre.queued.len() as int));
    assert(pre.drawn =~= post.drawn.subrange(0, pre.drawn.len() as int));
}

/// Nothing is reordered or repeated on the way through a callback: what
/// the input queue took is the front of the mono input, what the callback
/// emits first is what the output queue gave, in the same order, and each
/// sample that was neither taken nor replaced by the worker's output is
/// emitted dry at its own position.
pub proof fn lemma_exchange_keeps_order(
    pre: AdapterState,
    dry: Seq<u32>,
    accepted: nat,
    ready: Seq<u32>,
)
    requires
        accepted <= dry.len(),
        ready.len() <= dry.len(),
    ensures
        pre.exchanged(dry, accepted, ready).queued.skip(pre.queued.len() as int) == dry.take(
            accepted as int,
        ),
        pre.exchanged(dry, accepted, ready).drawn.skip(pre.drawn.len() as int) == ready,
        spec_filled(ready, dry, pre.last_output_sample, dry.len()).take(ready.len() as int)
            == ready,
        spec_filled(ready, dry, pre.last_output_sample, dry.len()).skip(ready.len() as int)
            == dry.skip(ready.len() as int),
{
    let post = pre.exchanged(dry, accepted, ready);
    assert(post.queued.skip(pre.queued.len() as int) =~= dry.take(accepted as int));
    assert(post.drawn.skip(pre.drawn.len() as int) =~= ready);
    let filled = spec_filled(ready, dry, pre.last_output_sample, dry.len());
    assert(filled.take(ready.len() as int) =~= ready);
    assert(filled.skip(ready.len() as int) =~= dry.skip(ready.len() as int));
}

/// The output of a callback is a matter of its input and of what the
/// worker had ready, and of nothing that went before: two adapters that
/// get the same mono input and the same samples from their workers emit
/// the same frames, whatever they emitted last.
pub proof fn lemma_output_ignores_history(ready: Seq<u32>, dry: Seq<u32>, held: u32, other: u32)
    requires
        ready.len() <= dry.len(),
    ensures
        spec_rendered(ready, dry, held, dry.len()) == spec_rendered(ready, dry, other, dry.len()),
{
    assert(spec_rendered(ready, dry, held, dry.len()) =~= spec_rendered(
        ready,
        dry,
        other,
        dry.len(),
    ));
}


/// Every write invalidates the worker: an adapter that has applied the
/// store's revision has to replace its worker once the store is written
/// to, whatever was written.
pub proof fn lemma_write_invalidates_worker(
    adapter: AdapterState,
    before: ConfigStore,
    after: ConfigStore,
    settings: SuppressionSettings,
)
    requires
        after.is_write_of(before, settings),
        adapter.applied_revision == before.spec_revision(),
    ensures
        adapter.needs_restart(after.spec_revision()),
{
}


/// Ordering from end to end. Between the adapter and the worker stand the
/// two queues, whose order is the ring buffer's to keep. Where they keep
/// it (what the worker has handed to its transform is the front of what
/// the input queue took from the adapter, and what the adapter has drawn
/// is the front of what the worker delivered to the output queue), and
/// where the worker's output has followed its input in order, everything
/// the adapter has drawn from the worker is the front of what it queued:
/// the same samples in the same order.
pub proof fn lemma_pipeline_keeps_order(adapter: AdapterState, worker: WorkerState)
    requires
        worker.in_order(),
        worker.handed.is_prefix_of(adapter.queued),
        adapter.drawn.is_prefix_of(worker.delivered),
    ensures
        adapter.drawn.is_prefix_of(adapter.queued),
{
    crate::worker::lemma_in_order_delivers_prefix(worker);
    let drawn = adapter.drawn;
    let delivered = worker.delivered;
    let handed = worker.handed;
    let queued = adapter.queued;
    assert(drawn =~= queued.subrange(0, drawn.len() as int)) by {
        assert forall|i: int| 0 <= i < drawn.len() implies drawn[i] == queued[i] by {
            assert(drawn[i] == delivered.subrange(0, drawn.len() as int)[i]);
            assert(delivered[i] == handed.subrange(0, delivered.len() as int)[i]);
            assert(handed[i] == queued.subrange(0, handed.len() as int)[i]);
        }
    }
}

} // verus!
