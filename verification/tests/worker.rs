use denoise_stream::config::SuppressionParams;
use denoise_stream::transport::{channel, SampleConsumer, SampleProducer};
use denoise_stream::worker::{
    hop_output, pad_hop, QueueReport, Worker, WorkerAction, WorkerCore, WorkerEvent, WorkerPhase,
    WORKER_IDLE_SLEEP_MICROS,
};

fn rig(capacity: usize) -> (SampleProducer, Worker, SampleConsumer) {
    let (input_producer, input_consumer) = channel(capacity).expect("input queue");
    let (output_producer, output_consumer) = channel(capacity).expect("output queue");
    let worker = Worker::new(input_consumer, output_producer, SuppressionParams::default(), 48_000, 200, 250);
    (input_producer, worker, output_consumer)
}

fn keep(hop: &[u32]) -> Option<Vec<u32>> {
    Some(hop.to_vec())
}

fn fail(_hop: &[u32]) -> Option<Vec<u32>> {
    None
}

fn invert(hop: &[u32]) -> Option<Vec<u32>> {
    Some(hop.iter().map(|sample| !sample).collect())
}

/// Steps the worker, doing what it asks for, until it sleeps, yields or ends.
fn run(worker: &mut Worker, hop_size: usize, transform: fn(&[u32]) -> Option<Vec<u32>>) -> WorkerAction {
    let mut event = WorkerEvent::Tick;
    for _ in 0..100_000 {
        let action = worker.step(event, false);
        event = match action {
            WorkerAction::Construct => WorkerEvent::Constructed { hop_size },
            WorkerAction::Process => WorkerEvent::Processed {
                output: transform(worker.dry_hop()),
                elapsed_us: 3,
            },
            WorkerAction::Continue => WorkerEvent::Tick,
            WorkerAction::Sleep { .. } | WorkerAction::Yield | WorkerAction::Exit => return action,
        };
    }
    panic!("the worker never came to rest");
}

#[test]
fn a_new_worker_asks_for_its_transform() {
    let (_input, mut worker, _output) = rig(16);
    assert!(matches!(worker.phase(), WorkerPhase::Starting));
    assert_eq!(worker.hop_size(), 0);
    assert!(matches!(worker.step(WorkerEvent::Tick, false), WorkerAction::Construct));
    assert!(matches!(worker.step(WorkerEvent::Tick, false), WorkerAction::Construct));
    assert!(matches!(worker.phase(), WorkerPhase::Starting));
    assert!(matches!(
        worker.step(WorkerEvent::Constructed { hop_size: 4 }, false),
        WorkerAction::Continue
    ));
    assert!(matches!(worker.phase(), WorkerPhase::Idle));
    assert_eq!(worker.hop_size(), 4);
}

#[test]
fn a_failed_construction_ends_the_worker() {
    let (_input, mut worker, _output) = rig(16);
    assert!(matches!(worker.step(WorkerEvent::Tick, false), WorkerAction::Construct));
    assert!(matches!(worker.step(WorkerEvent::ConstructionFailed, false), WorkerAction::Exit));
    assert!(matches!(worker.phase(), WorkerPhase::Stopped));
    assert!(matches!(worker.step(WorkerEvent::Tick, false), WorkerAction::Exit));
    assert!(matches!(
        worker.step(WorkerEvent::Constructed { hop_size: 4 }, false),
        WorkerAction::Exit
    ));
    assert!(matches!(worker.phase(), WorkerPhase::Stopped));
}

#[test]
fn a_transform_without_a_hop_size_ends_the_worker() {
    let (_input, mut worker, _output) = rig(16);
    assert!(matches!(
        worker.step(WorkerEvent::Constructed { hop_size: 0 }, false),
        WorkerAction::Exit
    ));
    assert!(matches!(worker.phase(), WorkerPhase::Stopped));
}

#[test]
fn an_idle_worker_sleeps_until_a_whole_hop_is_there() {
    let (mut input, mut worker, mut output) = rig(16);
    assert!(matches!(
        worker.step(WorkerEvent::Constructed { hop_size: 4 }, false),
        WorkerAction::Continue
    ));
    match worker.step(WorkerEvent::Tick, false) {
        WorkerAction::Sleep { micros } => assert_eq!(micros, 250),
        _ => panic!("an idle worker without input sleeps"),
    }
    assert_eq!(WORKER_IDLE_SLEEP_MICROS, 250);
    assert_eq!(input.try_push(&[1, 2, 3]), 3);
    assert!(matches!(worker.step(WorkerEvent::Tick, false), WorkerAction::Sleep { .. }));
    assert!(matches!(worker.phase(), WorkerPhase::Idle));
    assert_eq!(input.try_push(&[4]), 1);
    assert!(matches!(worker.step(WorkerEvent::Tick, false), WorkerAction::Process));
    assert!(matches!(worker.phase(), WorkerPhase::Processing));
    assert_eq!(worker.dry_hop(), &vec![1, 2, 3, 4]);
    assert!(matches!(worker.step(WorkerEvent::Tick, false), WorkerAction::Process));
    assert!(matches!(
        worker.step(
            WorkerEvent::Processed { output: Some(vec![10, 20, 30, 40]), elapsed_us: 7 },
            false
        ),
        WorkerAction::Continue
    ));
    assert!(matches!(worker.phase(), WorkerPhase::Flushing));
    assert_eq!(output.try_pop(8), Vec::<u32>::new());
    assert!(matches!(worker.step(WorkerEvent::Tick, false), WorkerAction::Continue));
    assert!(matches!(worker.phase(), WorkerPhase::Idle));
    assert_eq!(output.try_pop(8), vec![10, 20, 30, 40]);
}

#[test]
fn increasing_samples_pass_a_transform_that_changes_nothing_in_order() {
    let (mut input, mut worker, mut output) = rig(64);
    let first: Vec<u32> = (0..20).collect();
    assert_eq!(input.try_push(&first), 20);
    assert!(matches!(run(&mut worker, 4, keep), WorkerAction::Sleep { .. }));
    assert_eq!(output.try_pop(64), first);
    assert_eq!(input.try_push(&[20, 21, 22]), 3);
    assert!(matches!(run(&mut worker, 4, keep), WorkerAction::Sleep { .. }));
    assert_eq!(output.try_pop(64), Vec::<u32>::new());
    assert_eq!(input.try_push(&[23, 24, 25, 26, 27, 28]), 6);
    assert!(matches!(run(&mut worker, 4, keep), WorkerAction::Sleep { .. }));
    assert_eq!(output.try_pop(64), vec![20, 21, 22, 23, 24, 25, 26, 27]);
    assert_eq!(input.try_push(&[29, 30]), 2);
    assert!(matches!(run(&mut worker, 4, keep), WorkerAction::Sleep { .. }));
    assert_eq!(output.try_pop(64), vec![28, 29, 30, 31].into_iter().take(0).collect::<Vec<u32>>());
    assert_eq!(input.try_push(&[31]), 1);
    assert!(matches!(run(&mut worker, 4, keep), WorkerAction::Sleep { .. }));
    assert_eq!(output.try_pop(64), vec![28, 29, 30, 31]);
}

#[test]
fn a_transform_that_always_fails_gives_the_dry_samples() {
    let (mut input, mut worker, mut output) = rig(256);
    let mut expected: Vec<u32> = Vec::new();
    let mut seen: Vec<u32> = Vec::new();
    let mut next: u32 = 1000;
    for _ in 0..50 {
        let burst: Vec<u32> = (next..next + 7).collect();
        next += 7;
        assert_eq!(input.try_push(&burst), 7);
        expected.extend_from_slice(&burst);
        assert!(matches!(run(&mut worker, 5, fail), WorkerAction::Sleep { .. }));
        seen.extend(output.try_pop(256));
    }
    assert_eq!(seen.len(), 350);
    assert_eq!(seen, expected);
}

#[test]
fn a_transform_of_its_own_is_what_comes_out() {
    let (mut input, mut worker, mut output) = rig(16);
    assert_eq!(input.try_push(&[1, 2, 3, 4, 5, 6, 7, 8]), 8);
    assert!(matches!(run(&mut worker, 4, invert), WorkerAction::Sleep { .. }));
    assert_eq!(output.try_pop(16), vec![!1, !2, !3, !4, !5, !6, !7, !8]);
}

#[test]
fn an_answer_of_the_wrong_length_counts_as_a_failure() {
    let (mut input, mut worker, mut output) = rig(16);
    assert!(matches!(
        worker.step(WorkerEvent::Constructed { hop_size: 3 }, false),
        WorkerAction::Continue
    ));
    assert_eq!(input.try_push(&[5, 6, 7]), 3);
    assert!(matches!(worker.step(WorkerEvent::Tick, false), WorkerAction::Process));
    assert!(matches!(
        worker.step(WorkerEvent::Processed { output: Some(vec![1, 2]), elapsed_us: 1 }, false),
        WorkerAction::Continue
    ));
    assert!(matches!(worker.step(WorkerEvent::Tick, false), WorkerAction::Continue));
    assert_eq!(output.try_pop(16), vec![5, 6, 7]);
}

#[test]
fn a_full_output_queue_makes_the_worker_yield_and_retry() {
    let (input_producer, input_consumer) = channel(16).expect("input queue");
    let (output_producer, mut output_consumer) = channel(6).expect("output queue");
    let mut input = input_producer;
    let mut worker = Worker::new(input_consumer, output_producer, SuppressionParams::default(), 48_000, 200, 250);
    assert_eq!(input.try_push(&[1, 2, 3, 4, 5, 6, 7, 8]), 8);
    assert!(matches!(run(&mut worker, 4, keep), WorkerAction::Yield));
    assert!(matches!(worker.phase(), WorkerPhase::Flushing));
    assert!(matches!(worker.step(WorkerEvent::Tick, false), WorkerAction::Yield));
    assert!(matches!(worker.step(WorkerEvent::Tick, false), WorkerAction::Yield));
    assert_eq!(output_consumer.try_pop(1), vec![1]);
    assert!(matches!(worker.step(WorkerEvent::Tick, false), WorkerAction::Yield));
    assert_eq!(output_consumer.try_pop(6), vec![2, 3, 4, 5, 6, 7]);
    assert!(matches!(worker.step(WorkerEvent::Tick, false), WorkerAction::Continue));
    assert!(matches!(worker.phase(), WorkerPhase::Idle));
    assert_eq!(output_consumer.try_pop(6), vec![8]);
}

#[test]
fn a_stop_request_ends_a_worker_that_faces_a_full_output_queue() {
    let (input_producer, input_consumer) = channel(16).expect("input queue");
    let (output_producer, mut output_consumer) = channel(4).expect("output queue");
    let mut input = input_producer;
    let mut worker = Worker::new(input_consumer, output_producer, SuppressionParams::default(), 48_000, 200, 250);
    assert_eq!(input.try_push(&[1, 2, 3, 4, 5, 6, 7, 8]), 8);
    assert!(matches!(run(&mut worker, 4, keep), WorkerAction::Yield));
    for _ in 0..1000 {
        assert!(matches!(worker.step(WorkerEvent::Tick, false), WorkerAction::Yield));
    }
    assert!(matches!(worker.step(WorkerEvent::Tick, true), WorkerAction::Exit));
    assert!(matches!(worker.phase(), WorkerPhase::Stopped));
    assert!(matches!(worker.step(WorkerEvent::Tick, false), WorkerAction::Exit));
    assert_eq!(output_consumer.try_pop(8), vec![1, 2, 3, 4]);
    assert!(matches!(worker.step(WorkerEvent::Tick, false), WorkerAction::Exit));
    assert_eq!(output_consumer.try_pop(8), Vec::<u32>::new());
}

#[test]
fn a_stop_request_ends_the_worker_from_every_phase() {
    let (_input, mut starting, _output) = rig(16);
    assert!(matches!(starting.step(WorkerEvent::Tick, true), WorkerAction::Exit));
    assert!(matches!(starting.phase(), WorkerPhase::Stopped));

    let (_input, mut constructed, _output) = rig(16);
    assert!(matches!(
        constructed.step(WorkerEvent::Constructed { hop_size: 4 }, true),
        WorkerAction::Exit
    ));
    assert!(matches!(constructed.phase(), WorkerPhase::Stopped));

    let (mut input, mut idle, mut output) = rig(16);
    assert!(matches!(run(&mut idle, 4, keep), WorkerAction::Sleep { .. }));
    assert_eq!(input.try_push(&[1, 2, 3, 4]), 4);
    assert!(matches!(idle.step(WorkerEvent::Tick, true), WorkerAction::Exit));
    assert_eq!(output.try_pop(16), Vec::<u32>::new());

    let (mut input, mut processing, mut output) = rig(16);
    assert!(matches!(run(&mut processing, 4, keep), WorkerAction::Sleep { .. }));
    assert_eq!(input.try_push(&[1, 2, 3, 4]), 4);
    assert!(matches!(processing.step(WorkerEvent::Tick, false), WorkerAction::Process));
    assert!(matches!(
        processing.step(
            WorkerEvent::Processed { output: Some(vec![9, 9, 9, 9]), elapsed_us: 1 },
            true
        ),
        WorkerAction::Exit
    ));
    assert!(matches!(processing.phase(), WorkerPhase::Stopped));
    assert_eq!(output.try_pop(16), Vec::<u32>::new());
}

#[test]
fn pad_hop_fills_up_with_silence() {
    assert_eq!(pad_hop(vec![1, 2, 3], 5), vec![1, 2, 3, 0, 0]);
    assert_eq!(pad_hop(vec![1, 2, 3], 3), vec![1, 2, 3]);
    assert_eq!(pad_hop(Vec::new(), 2), vec![0, 0]);
    assert_eq!(pad_hop(Vec::new(), 0), Vec::<u32>::new());
    assert_eq!(pad_hop(vec![1, 2, 3], 2), vec![1, 2, 3]);
}

#[test]
fn hop_output_prefers_a_whole_answer() {
    let dry = vec![1, 2, 3];
    assert_eq!(hop_output(&dry, Some(vec![7, 8, 9])), vec![7, 8, 9]);
    assert_eq!(hop_output(&dry, Some(vec![7, 8])), vec![1, 2, 3]);
    assert_eq!(hop_output(&dry, Some(vec![7, 8, 9, 10])), vec![1, 2, 3]);
    assert_eq!(hop_output(&dry, Some(Vec::new())), vec![1, 2, 3]);
    assert_eq!(hop_output(&dry, None), vec![1, 2, 3]);
}

#[test]
fn the_core_walks_through_one_hop() {
    let mut core = WorkerCore::new(SuppressionParams::default(), 48_000, 200, 250);
    assert!(matches!(core.phase(), WorkerPhase::Starting));
    assert!(!core.wants_hop(100));
    assert!(matches!(
        core.advance(WorkerEvent::Tick, false, QueueReport::Quiet),
        WorkerAction::Construct
    ));
    assert!(matches!(
        core.advance(WorkerEvent::Constructed { hop_size: 4 }, false, QueueReport::Quiet),
        WorkerAction::Continue
    ));
    assert!(!core.wants_hop(3));
    assert!(core.wants_hop(4));
    assert!(core.wants_hop(5));
    assert!(matches!(
        core.advance(WorkerEvent::Tick, false, QueueReport::Quiet),
        WorkerAction::Sleep { micros: 250 }
    ));
    assert!(matches!(
        core.advance(WorkerEvent::Tick, false, QueueReport::Accepted(2)),
        WorkerAction::Sleep { micros: 250 }
    ));
    assert!(matches!(
        core.advance(WorkerEvent::Tick, false, QueueReport::Popped(vec![1, 2, 3, 4, 5])),
        WorkerAction::Sleep { micros: 250 }
    ));
    assert!(matches!(
        core.advance(WorkerEvent::Tick, false, QueueReport::Popped(vec![1, 2, 3])),
        WorkerAction::Process
    ));
    assert_eq!(core.dry_hop(), &vec![1, 2, 3, 0]);
    assert!(!core.wants_hop(100));
    assert_eq!(core.pending(), &[] as &[u32]);
    assert!(matches!(
        core.advance(
            WorkerEvent::Processed { output: Some(vec![5, 6, 7, 8]), elapsed_us: 9 },
            false,
            QueueReport::Quiet
        ),
        WorkerAction::Continue
    ));
    assert!(matches!(core.phase(), WorkerPhase::Flushing));
    assert_eq!(core.pending(), &[5, 6, 7, 8]);
    assert!(matches!(
        core.advance(WorkerEvent::Tick, false, QueueReport::Accepted(1)),
        WorkerAction::Yield
    ));
    assert_eq!(core.pending(), &[6, 7, 8]);
    assert!(matches!(
        core.advance(WorkerEvent::Tick, false, QueueReport::Accepted(0)),
        WorkerAction::Yield
    ));
    assert!(matches!(
        core.advance(WorkerEvent::Tick, false, QueueReport::Accepted(4)),
        WorkerAction::Yield
    ));
    assert_eq!(core.pending(), &[6, 7, 8]);
    assert!(matches!(
        core.advance(WorkerEvent::Tick, false, QueueReport::Quiet),
        WorkerAction::Yield
    ));
    assert!(matches!(
        core.advance(WorkerEvent::Tick, false, QueueReport::Accepted(3)),
        WorkerAction::Continue
    ));
    assert!(matches!(core.phase(), WorkerPhase::Idle));
    assert_eq!(core.hop_size(), 4);
    assert!(matches!(
        core.advance(WorkerEvent::Tick, true, QueueReport::Popped(vec![1, 2, 3, 4])),
        WorkerAction::Exit
    ));
    assert!(matches!(core.phase(), WorkerPhase::Stopped));
}

#[test]
fn the_worker_reports_its_timing_every_interval() {
    let (input_producer, input_consumer) = channel(4096).expect("input queue");
    let (output_producer, mut output_consumer) = channel(4096).expect("output queue");
    let mut input = input_producer;
    let mut worker = Worker::new(input_consumer, output_producer, SuppressionParams::default(), 48_000, 3, 250);
    assert!(worker.report().is_none());
    assert!(matches!(
        worker.step(WorkerEvent::Constructed { hop_size: 480 }, false),
        WorkerAction::Continue
    ));
    let silence = vec![0u32; 480];
    for hop in 1..=7u64 {
        assert_eq!(input.try_push(&silence), 480);
        assert!(matches!(worker.step(WorkerEvent::Tick, false), WorkerAction::Process));
        assert!(matches!(
            worker.step(
                WorkerEvent::Processed { output: None, elapsed_us: 1_000 * hop as u128 },
                false
            ),
            WorkerAction::Continue
        ));
        match worker.report() {
            Some(report) => {
                assert_eq!(hop % 3, 0);
                assert_eq!(report.hops, hop);
                assert_eq!(report.budget_us, 10_000);
                assert_eq!(report.max_us, 1_000 * hop as u128);
                assert_eq!(report.avg_us, 500 * (hop as u128 + 1));
            }
            None => assert_ne!(hop % 3, 0),
        }
        assert!(matches!(worker.step(WorkerEvent::Tick, false), WorkerAction::Continue));
        assert_eq!(output_consumer.try_pop(480).len(), 480);
    }
}
