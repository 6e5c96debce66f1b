//! The worker: the unit that owns the transform and feeds it hop by hop.
//!
//! The worker runs apart from the audio callback. What it waits for (the
//! construction of the transform, a sleep, one run of the transform, a
//! yield) is done by whoever drives it; what it decides is here. One
//! `step` takes what happened and the state of the cancel flag, talks to
//! the two queues where the phase calls for it, and answers with the next
//! thing to do.

use crate::config::SuppressionParams;
use crate::instrumentation::{
    budget_us, spec_budget_us, Instrumentation, InstrumentationView, TimingSummary,
};
use crate::sample::SILENCE;
use crate::transport::{ring_occupied, spec_pushed, SampleConsumer, SampleProducer};
use vstd::prelude::*;
use vstd::slice::slice_subrange;

verus! {

/// Time that an idle worker sleeps before it looks for input again, in
/// microseconds.
pub const WORKER_IDLE_SLEEP_MICROS: u64 = 250;

/// Where a worker stands. `Idle`, `Processing` and `Flushing` together are
/// the running worker.
#[derive(Clone, Copy, Debug)]
pub enum WorkerPhase {
    /// The transform is being constructed.
    Starting,
    /// Waiting for one hop of input.
    Idle,
    /// One hop is with the transform.
    Processing,
    /// The hop's output is on its way into the output queue.
    Flushing,
    /// Ended: by a stop request or because the transform could not be made.
    Stopped,
}

/// What happened since the last step.
pub enum WorkerEvent {
    /// Nothing to report: the first step, or time has passed.
    Tick,
    /// The transform was constructed and works on hops of `hop_size` samples.
    Constructed { hop_size: usize },
    /// The transform could not be constructed.
    ConstructionFailed,
    /// The transform ran on the current hop for `elapsed_us` microseconds
    /// and gave `output`, or failed and gave nothing.
    Processed { output: Option<Vec<u32>>, elapsed_us: u128 },
}

/// What the driver of a worker does next, before it steps again.
#[derive(Clone, Copy, Debug)]
pub enum WorkerAction {
    /// Construct the transform and report `Constructed` or `ConstructionFailed`.
    Construct,
    /// Too little input: sleep for `micros` microseconds.
    Sleep { micros: u64 },
    /// Run the transform once on the current hop and report `Processed`.
    Process,
    /// The output queue is full: give up the time slice.
    Yield,
    /// Nothing to wait for: step again at once.
    Continue,
    /// The worker has ended.
    Exit,
}

/// What a queue answered during a step.
pub enum QueueReport {
    /// No queue was touched, or the input queue held less than one hop.
    Quiet,
    /// The input queue gave these samples, oldest first.
    Popped(Vec<u32>),
    /// The output queue took this many of the samples on offer.
    Accepted(usize),
}

/// A queue's answer as plain values.
pub enum QueueOutcome {
    Quiet,
    Popped(Seq<u32>),
    Accepted(nat),
}

impl View for QueueReport {
    type V = QueueOutcome;

    open spec fn view(&self) -> QueueOutcome {
        match *self {
            QueueReport::Quiet => QueueOutcome::Quiet,
            QueueReport::Popped(samples) => QueueOutcome::Popped(samples@),
            QueueReport::Accepted(count) => QueueOutcome::Accepted(count as nat),
        }
    }
}

/// `count` samples of silence.
pub open spec fn spec_silence(count: nat) -> Seq<u32> {
    Seq::new(count, |i: int| SILENCE)
}

/// A hop made of `popped`, filled up with silence to `hop_size` samples;
/// `popped` itself where it is that long or longer.
pub open spec fn spec_padded(popped: Seq<u32>, hop_size: nat) -> Seq<u32> {
    if popped.len() >= hop_size {
        popped
    } else {
        popped + spec_silence((hop_size - popped.len()) as nat)
    }
}

/// The output of one hop: what the transform gave where it gave a whole
/// hop, else the dry hop.
pub open spec fn spec_hop_output(dry: Seq<u32>, output: Option<Vec<u32>>) -> Seq<u32> {
    match output {
        Some(wet) => if wet@.len() == dry.len() {
            wet@
        } else {
            dry
        },
        None => dry,
    }
}

/// What a worker's two queue ends know of their queues.
pub struct WorkerEnds {
    /// The samples that the reading end of the input queue knows to be
    /// stored, oldest first.
    pub input_known: Seq<u32>,
    /// The samples that the writing end of the output queue has written
    /// and does not yet know to have been read, oldest first.
    pub output_backlog: Seq<u32>,
    /// Number of samples that the output queue was made to hold.
    pub output_capacity: nat,
}

/// A worker's state as plain values.
pub struct WorkerState {
    pub phase: WorkerPhase,
    /// The suppression parameters that the worker was made with. They
    /// never change: new parameters take a new worker.
    pub params: SuppressionParams,
    /// Samples per hop; zero until the transform is constructed.
    pub hop_size: nat,
    pub sample_rate: u32,
    pub report_interval: u64,
    pub idle_sleep_micros: u64,
    /// The hop last taken from the input queue.
    pub dry: Seq<u32>,
    /// The output of the hop last processed.
    pub wet: Seq<u32>,
    /// How much of `wet` the output queue has taken.
    pub written: nat,
    pub stats: InstrumentationView,
    /// The timing summary that the last processed hop gave rise to.
    pub report: Option<TimingSummary>,
    /// Number of hops handed to the transform so far.
    pub hops: nat,
    /// Every hop handed to the transform so far, one after the other.
    pub handed: Seq<u32>,
    /// Every sample that the output queue has taken so far, in order.
    pub delivered: Seq<u32>,
}

impl WorkerState {
    /// The state a worker is made in.
    pub open spec fn initial(
        params: SuppressionParams,
        sample_rate: u32,
        report_interval: u64,
        idle_sleep_micros: u64,
    ) -> WorkerState {
        WorkerState {
            phase: WorkerPhase::Starting,
            params,
            hop_size: 0,
            sample_rate,
            report_interval,
            idle_sleep_micros,
            dry: Seq::empty(),
            wet: Seq::empty(),
            written: 0,
            stats: InstrumentationView {
                count: 0,
                total_us: 0,
                max_us: 0,
                interval: report_interval,
                budget_us: 0,
            },
            report: None,
            hops: 0,
            handed: Seq::empty(),
            delivered: Seq::empty(),
        }
    }

    /// The worker is between `Starting` and `Stopped`.
    pub open spec fn running(self) -> bool {
        self.phase is Idle || self.phase is Processing || self.phase is Flushing
    }

    /// What every reachable state satisfies.
    pub open spec fn wf(self) -> bool {
        &&& self.hop_size <= usize::MAX
        &&& self.handed.len() == self.hops * self.hop_size
        &&& self.phase is Starting ==> self.hops == 0
        &&& self.running() ==> self.hop_size > 0
        &&& self.phase is Processing ==> self.dry.len() == self.hop_size
        &&& self.phase is Flushing ==> {
            &&& self.dry.len() == self.hop_size
            &&& self.wet.len() == self.hop_size
            &&& self.written < self.hop_size
        }
    }

    /// The part of the current output that the output queue has yet to take.
    pub open spec fn pending(self) -> Seq<u32> {
        if self.phase is Flushing {
            self.wet.skip(self.written as int)
        } else {
            Seq::empty()
        }
    }

    /// What has been handed to the transform and has not reached the output
    /// queue: the hop in work, or the rest of its output.
    pub open spec fn outstanding(self) -> Seq<u32> {
        if self.phase is Processing {
            self.dry
        } else {
            self.pending()
        }
    }

    /// The same worker, ended.
    pub open spec fn halted(self) -> WorkerState {
        WorkerState { phase: WorkerPhase::Stopped, ..self }
    }

    /// The worker after its transform was constructed for hops of
    /// `hop_size` samples: idle, with fresh statistics against the budget
    /// of such a hop.
    pub open spec fn constructed(self, hop_size: usize) -> WorkerState {
        WorkerState {
            phase: WorkerPhase::Idle,
            hop_size: hop_size as nat,
            stats: InstrumentationView {
                count: 0,
                total_us: 0,
                max_us: 0,
                interval: self.report_interval,
                budget_us: spec_budget_us(hop_size, self.sample_rate),
            },
            ..self
        }
    }

    /// The worker after the input queue gave `popped`: the hop, padded with
    /// silence, is with the transform.
    pub open spec fn loaded(self, popped: Seq<u32>) -> WorkerState {
        let hop = spec_padded(popped, self.hop_size);
        WorkerState {
            phase: WorkerPhase::Processing,
            dry: hop,
            hops: self.hops + 1,
            handed: self.handed + hop,
            ..self
        }
    }

    /// The worker after the transform answered: the hop's output is chosen,
    /// none of it is written yet, and the time is counted.
    pub open spec fn processed(self, output: Option<Vec<u32>>, elapsed_us: u128) -> WorkerState {
        let stats = self.stats.recorded(elapsed_us);
        WorkerState {
            phase: WorkerPhase::Flushing,
            wet: spec_hop_output(self.dry, output),
            written: 0,
            stats,
            report: if stats.due() {
                Some(stats.summary())
            } else {
                None
            },
            ..self
        }
    }

    /// The worker after the output queue took the next `count` samples of
    /// the output: idle again once the whole hop is written.
    pub open spec fn accepted(self, count: nat) -> WorkerState {
        let written = self.written + count;
        WorkerState {
            phase: if written == self.hop_size {
                WorkerPhase::Idle
            } else {
                WorkerPhase::Flushing
            },
            written,
            delivered: self.delivered + self.wet.subrange(self.written as int, written as int),
            ..self
        }
    }

    /// The transition function: the state and the action that follow from
    /// a state, what happened, the cancel flag and a queue's answer.
    ///
    /// A stop request ends the worker from every phase. Otherwise the
    /// phase decides: `Starting` waits for the transform, `Idle` takes a
    /// hop or sleeps, `Processing` waits for the transform's answer, and
    /// `Flushing` counts what the output queue took and yields while some
    /// of the hop is left. An event or an answer that does not fit the
    /// phase changes nothing.
    pub open spec fn next(self, event: WorkerEvent, stop: bool, outcome: QueueOutcome) -> (
        WorkerState,
        WorkerAction,
    ) {
        if self.phase is Stopped {
            (self, WorkerAction::Exit)
        } else if stop {
            (self.halted(), WorkerAction::Exit)
        } else {
            match self.phase {
                WorkerPhase::Starting => match event {
                    WorkerEvent::Constructed { hop_size } => if hop_size > 0 {
                        (self.constructed(hop_size), WorkerAction::Continue)
                    } else {
                        (self.halted(), WorkerAction::Exit)
                    },
                    WorkerEvent::ConstructionFailed => (self.halted(), WorkerAction::Exit),
                    _ => (self, WorkerAction::Construct),
                },
                WorkerPhase::Idle => match outcome {
                    QueueOutcome::Popped(popped) => if popped.len() <= self.hop_size {
                        (self.loaded(popped), WorkerAction::Process)
                    } else {
                        (self, WorkerAction::Sleep { micros: self.idle_sleep_micros })
                    },
                    _ => (self, WorkerAction::Sleep { micros: self.idle_sleep_micros }),
                },
                WorkerPhase::Processing => match event {
                    WorkerEvent::Processed { output, elapsed_us } => (
                        self.processed(output, elapsed_us),
                        WorkerAction::Continue,
                    ),
                    _ => (self, WorkerAction::Process),
                },
                WorkerPhase::Flushing => match outcome {
                    QueueOutcome::Accepted(count) => if count <= self.pending().len() {
                        (
                            self.accepted(count),
                            if self.written + count == self.hop_size {
                                WorkerAction::Continue
                            } else {
                                WorkerAction::Yield
                            },
                        )
                    } else {
                        (self, WorkerAction::Yield)
                    },
                    _ => (self, WorkerAction::Yield),
                },
                WorkerPhase::Stopped => (self, WorkerAction::Exit),
            }
        }
    }

    /// What a queue may answer in one step, and what the worker's ends know
    /// afterwards. `ends` is what the ends knew before, `outcome` the
    /// answer, and `read` the number of samples that the reader of the
    /// output queue has taken since the worker last pushed.
    ///
    /// A step that sees the stop flag, and a step in any phase but `Idle`
    /// and `Flushing`, touches no queue. An idle step looks at the input
    /// queue: it takes one whole hop where the queue holds one, and else
    /// it knows of less than a hop afterwards; either way, what the end
    /// knew before comes first in what it took and knows now. A flushing
    /// step offers all that is pending to the output queue, which takes
    /// all of it unless that fills the queue.
    pub open spec fn queue_answer(
        self,
        ends: WorkerEnds,
        stop: bool,
        outcome: QueueOutcome,
        read: int,
        post_ends: WorkerEnds,
    ) -> bool {
        &&& post_ends.output_capacity == ends.output_capacity
        &&& if stop || !(self.phase is Idle || self.phase is Flushing) {
            &&& outcome is Quiet
            &&& post_ends == ends
        } else if self.phase is Idle {
            &&& post_ends.output_backlog == ends.output_backlog
            &&& match outcome {
                QueueOutcome::Quiet => {
                    &&& ends.input_known.is_prefix_of(post_ends.input_known)
                    &&& post_ends.input_known.len() < self.hop_size
                },
                QueueOutcome::Popped(popped) => {
                    &&& popped.len() == self.hop_size
                    &&& ends.input_known.is_prefix_of(popped + post_ends.input_known)
                },
                QueueOutcome::Accepted(_) => false,
            }
        } else {
            &&& post_ends.input_known == ends.input_known
            &&& outcome matches QueueOutcome::Accepted(count)
            &&& count <= self.pending().len()
            &&& 0 <= read <= ends.output_backlog.len()
            &&& post_ends.output_backlog == spec_pushed(
                ends.output_backlog,
                read,
                self.pending(),
                count as int,
            )
            &&& post_ends.output_backlog.len() <= ends.output_capacity
            &&& count == self.pending().len() || post_ends.output_backlog.len()
                == ends.output_capacity
        }
    }

    /// What one step of a worker does, seen with its ends: the queues give
    /// an answer that `queue_answer` admits, and the worker makes the
    /// transition that follows from it.
    pub open spec fn step_from(
        self,
        ends: WorkerEnds,
        event: WorkerEvent,
        stop: bool,
        post: WorkerState,
        post_ends: WorkerEnds,
        action: WorkerAction,
    ) -> bool {
        exists|outcome: QueueOutcome, read: int|
            {
                &&& #[trigger] self.queue_answer(ends, stop, outcome, read, post_ends)
                &&& (post, action) == self.next(event, stop, outcome)
            }
    }

    /// What one step of a worker may do: some answer of a queue leads from
    /// `self` to `post` and `action`.
    pub open spec fn step_allows(
        self,
        event: WorkerEvent,
        stop: bool,
        post: WorkerState,
        action: WorkerAction,
    ) -> bool {
        exists|outcome: QueueOutcome| (post, action) == #[trigger] self.next(event, stop, outcome)
    }

    /// Output has followed input in order: what the output queue has taken,
    /// followed by what is still outstanding, is what was handed to the
    /// transform. A stopped worker may have left the end of it behind.
    pub open spec fn in_order(self) -> bool {
        if self.phase is Stopped {
            self.delivered.is_prefix_of(self.handed)
        } else {
            self.delivered + self.outstanding() == self.handed
        }
    }
}

/// The event leaves the samples as they are: the transform gave back the
/// hop it was given, or failed.
pub open spec fn spec_faithful(state: WorkerState, event: WorkerEvent) -> bool {
    match event {
        WorkerEvent::Processed { output, .. } => spec_hop_output(state.dry, output) == state.dry,
        _ => true,
    }
}


/// One hop more is `hop_size` samples more, and no hops are no samples.
proof fn lemma_one_more_hop(hops: nat, hop_size: nat)
    ensures
        (hops + 1) * hop_size == hops * hop_size + hop_size,
        0 * hop_size == 0,
{
    assert((hops + 1) * hop_size == hops * hop_size + hop_size) by (nonlinear_arith);
    assert(0 * hop_size == 0) by (nonlinear_arith);
}

/// Fills `popped` up with silence to `hop_size` samples. Samples that are
/// a hop or more already are returned as they are.
pub fn pad_hop(popped: Vec<u32>, hop_size: usize) -> (hop: Vec<u32>)
    ensures
        hop@ == spec_padded(popped@, hop_size as nat),
        popped@.len() <= hop_size ==> hop@.len() == hop_size,
{
    let mut hop = popped;
    assert(hop@ =~= popped@ + spec_silence(0));
    while hop.len() < hop_size
        invariant
            popped@.len() <= hop@.len(),
            popped@.len() <= hop_size ==> hop@.len() <= hop_size,
            popped@.len() > hop_size ==> hop@.len() == popped@.len(),
            hop@ == popped@ + spec_silence((hop@.len() - popped@.len()) as nat),
        decreases hop_size - hop@.len(),
    {
        hop.push(SILENCE);
    }
    hop
}

/// Chooses the output of one hop: the transform's where it is a whole hop,
/// else a copy of the dry hop.
pub fn hop_output(dry: &Vec<u32>, output: Option<Vec<u32>>) -> (wet: Vec<u32>)
    ensures
        wet@ == spec_hop_output(dry@, output),
        wet@.len() == dry@.len(),
{
    match output {
        Some(wet) => {
            if wet.len() == dry.len() {
                wet
            } else {
                dry.clone()
            }
        },
        None => dry.clone(),
    }
}

/// The deciding part of a worker: everything but the two queue ends.
pub struct WorkerCore {
    phase: WorkerPhase,
    params: SuppressionParams,
    hop_size: usize,
    sample_rate: u32,
    report_interval: u64,
    idle_sleep_micros: u64,
    dry: Vec<u32>,
    wet: Vec<u32>,
    written: usize,
    stats: Instrumentation,
    report: Option<TimingSummary>,
    hops: Ghost<nat>,
    handed: Ghost<Seq<u32>>,
    delivered: Ghost<Seq<u32>>,
}

impl View for WorkerCore {
    type V = WorkerState;

    closed spec fn view(&self) -> WorkerState {
        WorkerState {
            phase: self.phase,
            params: self.params,
            hop_size: self.hop_size as nat,
            sample_rate: self.sample_rate,
            report_interval: self.report_interval,
            idle_sleep_micros: self.idle_sleep_micros,
            dry: self.dry@,
            wet: self.wet@,
            written: self.written as nat,
            stats: self.stats@,
            report: self.report,
            hops: self.hops@,
            handed: self.handed@,
            delivered: self.delivered@,
        }
    }
}

impl WorkerCore {
    /// A worker that waits for its transform. `params` are the suppression
    /// parameters to construct the transform with, `sample_rate` is the
    /// rate the transform runs at, `report_interval` the number of hops
    /// between two timing summaries (zero for none), and
    /// `idle_sleep_micros` the length of one idle sleep.
    pub fn new(
        params: SuppressionParams,
        sample_rate: u32,
        report_interval: u64,
        idle_sleep_micros: u64,
    ) -> (core: WorkerCore)
        ensures
            core@ == WorkerState::initial(params, sample_rate, report_interval, idle_sleep_micros),
            core@.wf(),
            core@.in_order(),
    {
        WorkerCore {
            phase: WorkerPhase::Starting,
            params,
            hop_size: 0,
            sample_rate,
            report_interval,
            idle_sleep_micros,
            dry: Vec::new(),
            wet: Vec::new(),
            written: 0,
            stats: Instrumentation::new(report_interval, 0),
            report: None,
            hops: Ghost(0),
            handed: Ghost(Seq::empty()),
            delivered: Ghost(Seq::empty()),
        }
    }

    /// The phase the worker is in.
    pub fn phase(&self) -> (phase: WorkerPhase)
        ensures
            phase == self@.phase,
    {
        self.phase
    }

    /// The suppression parameters to construct the transform with.
    pub fn params(&self) -> (params: SuppressionParams)
        ensures
            params == self@.params,
    {
        self.params
    }

    /// Samples per hop; zero until the transform is constructed.
    pub fn hop_size(&self) -> (hop_size: usize)
        ensures
            hop_size == self@.hop_size,
    {
        self.hop_size
    }

    /// The hop that is with the transform, or was last.
    pub fn dry_hop(&self) -> (hop: &Vec<u32>)
        ensures
            hop@ == self@.dry,
    {
        &self.dry
    }

    /// The timing summary that the last processed hop gave rise to.
    pub fn report(&self) -> (report: Option<TimingSummary>)
        ensures
            report == self@.report,
    {
        self.report
    }

    /// Tells whether the worker takes a hop now, given the number of
    /// samples that the input queue holds: it does when it is idle and one
    /// hop or more is there.
    pub fn wants_hop(&self, available: usize) -> (wanted: bool)
        ensures
            wanted == (self@.phase is Idle && available >= self@.hop_size),
    {
        match self.phase {
            WorkerPhase::Idle => available >= self.hop_size,
            _ => false,
        }
    }

    /// The part of the current output that the output queue has yet to take.
    pub fn pending(&self) -> (rest: &[u32])
        requires
            self@.wf(),
        ensures
            rest@ == self@.pending(),
    {
        match self.phase {
            WorkerPhase::Flushing => slice_subrange(
                self.wet.as_slice(),
                self.written,
                self.wet.len(),
            ),
            _ => slice_subrange(self.wet.as_slice(), 0, 0),
        }
    }

    /// One transition: takes what happened, the cancel flag and a queue's
    /// answer, and returns what to do next.
    pub fn advance(&mut self, event: WorkerEvent, stop: bool, answer: QueueReport) -> (action:
        WorkerAction)
        requires
            old(self)@.wf(),
        ensures
            final(self)@.wf(),
            (final(self)@, action) == old(self)@.next(event, stop, answer@),
    {
        match self.phase {
            WorkerPhase::Stopped => {
                return WorkerAction::Exit;
            },
            _ => {},
        }
        if stop {
            self.phase = WorkerPhase::Stopped;
            return WorkerAction::Exit;
        }
        match self.phase {
            WorkerPhase::Starting => match event {
                WorkerEvent::Constructed { hop_size } => {
                    if hop_size > 0 {
                        proof {
                            lemma_one_more_hop(0, hop_size as nat);
                        }
                        self.phase = WorkerPhase::Idle;
                        self.hop_size = hop_size;
                        self.stats = Instrumentation::new(
                            self.report_interval,
                            budget_us(hop_size, self.sample_rate),
                        );
                        WorkerAction::Continue
                    } else {
                        self.phase = WorkerPhase::Stopped;
                        WorkerAction::Exit
                    }
                },
                WorkerEvent::ConstructionFailed => {
                    self.phase = WorkerPhase::Stopped;
                    WorkerAction::Exit
                },
                _ => WorkerAction::Construct,
            },
            WorkerPhase::Idle => match answer {
                QueueReport::Popped(popped) => {
                    if popped.len() <= self.hop_size {
                        self.dry = pad_hop(popped, self.hop_size);
                        proof {
                            lemma_one_more_hop(self.hops@, self.hop_size as nat);
                        }
                        self.hops = Ghost(self.hops@ + 1);
                        self.handed = Ghost(self.handed@ + self.dry@);
                        self.phase = WorkerPhase::Processing;
                        WorkerAction::Process
                    } else {
                        WorkerAction::Sleep { micros: self.idle_sleep_micros }
                    }
                },
                _ => WorkerAction::Sleep { micros: self.idle_sleep_micros },
            },
            WorkerPhase::Processing => match event {
                WorkerEvent::Processed { output, elapsed_us } => {
                    self.wet = hop_output(&self.dry, output);
                    self.written = 0;
                    self.report = self.stats.record(elapsed_us);
                    self.phase = WorkerPhase::Flushing;
                    WorkerAction::Continue
                },
                _ => WorkerAction::Process,
            },
            WorkerPhase::Flushing => match answer {
                QueueReport::Accepted(count) => {
                    if count <= self.hop_size - self.written {
                        let ghost before = self.written as int;
                        self.written = self.written + count;
                        self.delivered = Ghost(
                            self.delivered@ + self.wet@.subrange(before, self.written as int),
                        );
                        if self.written == self.hop_size {
                            self.phase = WorkerPhase::Idle;
                            WorkerAction::Continue
                        } else {
                            WorkerAction::Yield
                        }
                    } else {
                        WorkerAction::Yield
                    }
                },
                _ => WorkerAction::Yield,
            },
            WorkerPhase::Stopped => WorkerAction::Exit,
        }
    }
}

/// A worker: its deciding part and its ends of the two queues.
pub struct Worker {
    core: WorkerCore,
    input: SampleConsumer,
    output: SampleProducer,
}

impl View for Worker {
    type V = WorkerState;

    closed spec fn view(&self) -> WorkerState {
        self.core@
    }
}

impl Worker {
    /// What the worker's two queue ends know of their queues.
    pub closed spec fn ends(self) -> WorkerEnds {
        WorkerEnds {
            input_known: self.input.known(),
            output_backlog: self.output.backlog(),
            output_capacity: self.output.capacity(),
        }
    }

    /// A worker in `Starting` that reads hops from `input` and writes their
    /// output to `output`.
    pub fn new(
        input: SampleConsumer,
        output: SampleProducer,
        params: SuppressionParams,
        sample_rate: u32,
        report_interval: u64,
        idle_sleep_micros: u64,
    ) -> (worker: Worker)
        ensures
            worker@ == WorkerState::initial(params, sample_rate, report_interval, idle_sleep_micros),
            worker@.wf(),
            worker@.in_order(),
            worker.ends() == (WorkerEnds {
                input_known: input.known(),
                output_backlog: output.backlog(),
                output_capacity: output.capacity(),
            }),
    {
        Worker {
            core: WorkerCore::new(params, sample_rate, report_interval, idle_sleep_micros),
            input,
            output,
        }
    }

    /// The phase the worker is in.
    pub fn phase(&self) -> (phase: WorkerPhase)
        ensures
            phase == self@.phase,
    {
        self.core.phase()
    }

    /// The suppression parameters to construct the transform with.
    pub fn params(&self) -> (params: SuppressionParams)
        ensures
            params == self@.params,
    {
        self.core.params()
    }

    /// Samples per hop; zero until the transform is constructed.
    pub fn hop_size(&self) -> (hop_size: usize)
        ensures
            hop_size == self@.hop_size,
    {
        self.core.hop_size()
    }

    /// The hop to run the transform on after `Process`.
    pub fn dry_hop(&self) -> (hop: &Vec<u32>)
        ensures
            hop@ == self@.dry,
    {
        self.core.dry_hop()
    }

    /// The timing summary that the last processed hop gave rise to.
    pub fn report(&self) -> (report: Option<TimingSummary>)
        ensures
            report == self@.report,
    {
        self.core.report()
    }

    /// One step of the worker. `event` says what happened since the last
    /// step and `stop_requested` what the cancel flag holds now.
    ///
    /// An idle worker asks the input queue how much it holds and takes one
    /// whole hop where that much is there; a flushing worker offers the
    /// rest of its output to the output queue. The step is the transition
    /// of `WorkerState::next` for what the queues answered, and
    /// `queue_answer` says what they can answer.
    pub fn step(&mut self, event: WorkerEvent, stop_requested: bool) -> (action: WorkerAction)
        requires
            old(self)@.wf(),
        ensures
            final(self)@.wf(),
            old(self)@.step_from(
                old(self).ends(),
                event,
                stop_requested,
                final(self)@,
                final(self).ends(),
                action,
            ),
            old(self)@.step_allows(event, stop_requested, final(self)@, action),
            stop_requested ==> action is Exit && final(self)@.phase is Stopped,
    {
        let ghost pre = self@;
        let ghost ends = self.ends();
        let ghost mut read: int = 0;
        let answer = if stop_requested {
            QueueReport::Quiet
        } else {
            match self.core.phase() {
                WorkerPhase::Idle => {
                    let available = ring_occupied(&mut self.input);
                    let ghost seen = self.input.known();
                    if self.core.wants_hop(available) {
                        let popped = self.input.try_pop(self.core.hop_size());
                        proof {
                            let rest = self.input.known();
                            let all = popped@ + rest;
                            assert(ends.input_known =~= all.subrange(
                                0,
                                ends.input_known.len() as int,
                            )) by {
                                assert(ends.input_known =~= seen.subrange(
                                    0,
                                    ends.input_known.len() as int,
                                ));
                                assert(seen =~= all.subrange(0, seen.len() as int));
                            }
                        }
                        QueueReport::Popped(popped)
                    } else {
                        QueueReport::Quiet
                    }
                },
                WorkerPhase::Flushing => {
                    let count = self.output.try_push(self.core.pending());
                    proof {
                        read = choose|read: int|
                            0 <= read <= ends.output_backlog.len() && self.output.backlog()
                                == #[trigger] spec_pushed(
                                ends.output_backlog,
                                read,
                                pre.pending(),
                                count as int,
                            );
                    }
                    QueueReport::Accepted(count)
                },
                _ => QueueReport::Quiet,
            }
        };
        assert(pre.queue_answer(ends, stop_requested, answer@, read, self.ends()));
        let action = self.core.advance(event, stop_requested, answer);
        action
    }
}


/// Every transition leads from a well-formed state to a well-formed state.
pub proof fn lemma_next_keeps_wf(
    pre: WorkerState,
    event: WorkerEvent,
    stop: bool,
    outcome: QueueOutcome,
)
    requires
        pre.wf(),
    ensures
        pre.next(event, stop, outcome).0.wf(),
{
    lemma_one_more_hop(pre.hops, pre.hop_size);
    if pre.phase is Starting {
        if let WorkerEvent::Constructed { hop_size } = event {
            lemma_one_more_hop(0, hop_size as nat);
        }
    }
}

/// A stop request is never starved: whatever phase the worker is in,
/// whatever happened and whatever the queues answer, a step that sees the
/// cancel flag set ends the worker, and hands nothing more to either queue.
pub proof fn lemma_stop_always_exits(
    pre: WorkerState,
    event: WorkerEvent,
    post: WorkerState,
    action: WorkerAction,
)
    requires
        pre.step_allows(event, true, post, action),
    ensures
        action is Exit,
        post.phase is Stopped,
        post.handed == pre.handed,
        post.delivered == pre.delivered,
{
}

/// Parameters are captured for a worker's lifetime: no step changes them,
/// nor the rate, the report interval or the length of the idle sleep.
pub proof fn lemma_step_keeps_parameters(
    pre: WorkerState,
    event: WorkerEvent,
    stop: bool,
    post: WorkerState,
    action: WorkerAction,
)
    requires
        pre.step_allows(event, stop, post, action),
    ensures
        post.params == pre.params,
        post.sample_rate == pre.sample_rate,
        post.report_interval == pre.report_interval,
        post.idle_sleep_micros == pre.idle_sleep_micros,
{
}

/// The worker neither reorders nor repeats: a step only ever appends to
/// what was handed to the transform and to what the output queue has taken.
pub proof fn lemma_step_only_appends(
    pre: WorkerState,
    event: WorkerEvent,
    stop: bool,
    post: WorkerState,
    action: WorkerAction,
)
    requires
        pre.wf(),
        pre.step_allows(event, stop, post, action),
    ensures
        pre.handed.is_prefix_of(post.handed),
        pre.delivered.is_prefix_of(post.delivered),
{
    let outcome = choose|outcome: QueueOutcome|
        (post, action) == #[trigger] pre.next(event, stop, outcome);
    assert(pre.handed =~= post.handed.subrange(0, pre.handed.len() as int));
    assert(pre.delivered =~= post.delivered.subrange(0, pre.delivered.len() as int));
}

/// Ordering through a transform that changes nothing: where output has
/// followed input in order so far, it still does after a step whose event
/// is faithful, that is, any event but the answer of a transform that
/// changed the hop. A transform that fails on a hop is faithful too: the
/// dry hop stands in for its output.
pub proof fn lemma_faithful_step_keeps_order(
    pre: WorkerState,
    event: WorkerEvent,
    stop: bool,
    post: WorkerState,
    action: WorkerAction,
)
    requires
        pre.wf(),
        pre.in_order(),
        spec_faithful(pre, event),
        pre.step_allows(event, stop, post, action),
    ensures
        post.in_order(),
{
    let outcome = choose|outcome: QueueOutcome|
        (post, action) == #[trigger] pre.next(event, stop, outcome);
    if pre.phase is Stopped {
    } else if stop {
        assert(pre.delivered =~= pre.handed.subrange(0, pre.delivered.len() as int));
    } else {
        match pre.phase {
            WorkerPhase::Flushing => {
                if let QueueOutcome::Accepted(count) = outcome {
                    if count <= pre.pending().len() {
                        let written = pre.written + count;
                        assert(pre.wet.subrange(pre.written as int, written as int)
                            + post.outstanding() =~= pre.wet.skip(pre.written as int));
                        assert(post.delivered + post.outstanding() =~= pre.delivered
                            + pre.outstanding());
                    }
                }
            },
            WorkerPhase::Idle => {
                if let QueueOutcome::Popped(popped) = outcome {
                    if popped.len() <= pre.hop_size {
                        assert(pre.outstanding() =~= Seq::<u32>::empty());
                        assert(pre.delivered =~= pre.handed);
                        assert(post.delivered + post.outstanding() =~= post.handed);
                    }
                }
            },
            WorkerPhase::Processing => {
                assert(pre.dry.skip(0) =~= pre.dry);
            },
            WorkerPhase::Starting => {
                assert(pre.outstanding() =~= Seq::<u32>::empty());
                assert(pre.delivered =~= pre.handed);
                assert(pre.delivered =~= pre.handed.subrange(0, pre.delivered.len() as int));
            },
            WorkerPhase::Stopped => {},
        }
    }
}

/// A hop that the input queue gave whole is handed to the transform as it
/// was taken: silence only ever fills up a hop that came short.
pub proof fn lemma_whole_hop_is_handed_as_taken(pre: WorkerState, popped: Seq<u32>)
    requires
        popped.len() == pre.hop_size,
    ensures
        pre.loaded(popped).dry == popped,
        pre.loaded(popped).handed == pre.handed + popped,
{
    assert(spec_padded(popped, pre.hop_size) =~= popped);
}

/// What order means for the samples: the output queue has taken a prefix
/// of what was handed to the transform, and an idle worker has delivered
/// all of it, which is a whole number of hops.
pub proof fn lemma_in_order_delivers_prefix(state: WorkerState)
    requires
        state.in_order(),
    ensures
        state.delivered.is_prefix_of(state.handed),
        state.phase is Idle || state.phase is Starting ==> state.delivered == state.handed,
        state.wf() && (state.phase is Idle || state.phase is Starting)
            ==> state.delivered.len() == state.hops * state.hop_size,
{
    if !(state.phase is Stopped) {
        assert(state.delivered =~= state.handed.subrange(0, state.delivered.len() as int));
        if state.phase is Idle || state.phase is Starting {
            assert(state.outstanding() =~= Seq::<u32>::empty());
            assert(state.delivered =~= state.handed);
        }
    }
}


/// Each hop goes to the transform whole and in order: a step that takes
/// a hop takes exactly one hop's worth of samples from the input queue,
/// hands them on as they are, without any silence, and behind all hops
/// handed on before; and the samples that the reading end knew of are the
/// first to be taken.
pub proof fn lemma_hop_is_taken_whole(
    pre: WorkerState,
    ends: WorkerEnds,
    event: WorkerEvent,
    stop: bool,
    post: WorkerState,
    post_ends: WorkerEnds,
    action: WorkerAction,
)
    requires
        pre.wf(),
        pre.phase is Idle,
        pre.step_from(ends, event, stop, post, post_ends, action),
        action is Process,
    ensures
        post.dry.len() == pre.hop_size,
        post.handed == pre.handed + post.dry,
        post.hops == pre.hops + 1,
        ends.input_known.is_prefix_of(post.dry + post_ends.input_known),
{
    let (outcome, read) = choose|outcome: QueueOutcome, read: int|
        {
            &&& #[trigger] pre.queue_answer(ends, stop, outcome, read, post_ends)
            &&& (post, action) == pre.next(event, stop, outcome)
        };
    if let QueueOutcome::Popped(popped) = outcome {
        assert(spec_padded(popped, pre.hop_size) =~= popped);
    }
}

/// A flushing step moves the output on in order: what the output queue
/// takes is the front of what is pending, it is all that is pending unless
/// that fills the queue, and it stands in the queue behind what the
/// worker wrote before.
pub proof fn lemma_flush_writes_the_front(
    pre: WorkerState,
    ends: WorkerEnds,
    event: WorkerEvent,
    post: WorkerState,
    post_ends: WorkerEnds,
    action: WorkerAction,
)
    requires
        pre.wf(),
        pre.phase is Flushing,
        pre.step_from(ends, event, false, post, post_ends, action),
    ensures
        post.written >= pre.written,
        post.delivered == pre.delivered + pre.pending().take(post.written - pre.written),
        post.phase is Idle || post_ends.output_backlog.len() == ends.output_capacity,
        exists|read: int|
            0 <= read <= ends.output_backlog.len() && post_ends.output_backlog
                == #[trigger] spec_pushed(
                ends.output_backlog,
                read,
                pre.pending(),
                post.written - pre.written,
            ),
{
    let (outcome, read) = choose|outcome: QueueOutcome, read: int|
        {
            &&& #[trigger] pre.queue_answer(ends, false, outcome, read, post_ends)
            &&& (post, action) == pre.next(event, false, outcome)
        };
    if let QueueOutcome::Accepted(count) = outcome {
        assert(pre.wet.subrange(pre.written as int, (pre.written + count) as int) =~= pre.pending().take(
            count as int,
        ));
        assert(post_ends.output_backlog == spec_pushed(
            ends.output_backlog,
            read,
            pre.pending(),
            post.written - pre.written,
        ));
    }
}

/// Two states tell the same audio story: they agree on everything but the
/// timing statistics and how often those are reported.
pub open spec fn spec_same_audio(a: WorkerState, b: WorkerState) -> bool {
    &&& a.phase == b.phase
    &&& a.hop_size == b.hop_size
    &&& a.idle_sleep_micros == b.idle_sleep_micros
    &&& a.dry == b.dry
    &&& a.wet == b.wet
    &&& a.written == b.written
    &&& a.handed == b.handed
    &&& a.delivered == b.delivered
}

/// The statistics are advisory: workers that differ only in their timing
/// statistics, or in whether they report them at all, take the same
/// transitions and move the same samples.
pub proof fn lemma_statistics_do_not_steer(
    a: WorkerState,
    b: WorkerState,
    event: WorkerEvent,
    stop: bool,
    outcome: QueueOutcome,
)
    requires
        spec_same_audio(a, b),
    ensures
        a.next(event, stop, outcome).1 == b.next(event, stop, outcome).1,
        spec_same_audio(a.next(event, stop, outcome).0, b.next(event, stop, outcome).0),
{
}

} // verus!
