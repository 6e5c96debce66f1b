use denoise_stream::sample::Frame;
use denoise_stream::synchronous::InlineAdapter;

fn mono(out: &[Frame]) -> Vec<u32> {
    for frame in out {
        assert_eq!(frame.left, frame.right);
    }
    out.iter().map(|frame| frame.left).collect()
}

/// One callback through a transform that adds a thousand to every sample.
fn callback(adapter: &mut InlineAdapter, dry: &[u32]) -> Vec<u32> {
    adapter.enqueue(dry);
    while let Some(hop) = adapter.next_hop() {
        let wet: Vec<u32> = hop.iter().map(|sample| sample + 1000).collect();
        adapter.accept(&wet);
    }
    let mut out: Vec<Frame> = Vec::new();
    adapter.finish(dry, &mut out);
    mono(&out)
}

#[test]
fn a_new_inline_adapter_is_empty() {
    let mut adapter = InlineAdapter::new(4, None, None);
    assert_eq!(adapter.buffered_input(), 0);
    assert_eq!(adapter.buffered_output(), 0);
    assert!(adapter.next_hop().is_none());
    let mut out: Vec<Frame> = vec![Frame { left: 1, right: 1 }];
    adapter.finish(&[], &mut out);
    assert!(out.is_empty());
}

#[test]
fn hops_are_taken_whole_and_oldest_first() {
    let mut adapter = InlineAdapter::new(3, None, None);
    adapter.enqueue(&[1, 2]);
    assert!(adapter.next_hop().is_none());
    assert_eq!(adapter.buffered_input(), 2);
    adapter.enqueue(&[3, 4, 5, 6, 7]);
    assert_eq!(adapter.next_hop(), Some(vec![1, 2, 3]));
    assert_eq!(adapter.next_hop(), Some(vec![4, 5, 6]));
    assert_eq!(adapter.next_hop(), None);
    assert_eq!(adapter.buffered_input(), 1);
}

#[test]
fn the_output_of_the_first_hop_is_discarded() {
    let mut adapter = InlineAdapter::new(2, None, None);
    adapter.accept(&[9, 9]);
    assert_eq!(adapter.buffered_output(), 0);
    adapter.accept(&[5, 6]);
    assert_eq!(adapter.buffered_output(), 2);
    adapter.accept(&[7, 8]);
    assert_eq!(adapter.buffered_output(), 4);
    let mut out: Vec<Frame> = Vec::new();
    adapter.finish(&[100, 101, 102], &mut out);
    assert_eq!(mono(&out), vec![5, 6, 7]);
    assert_eq!(adapter.buffered_output(), 1);
    adapter.finish(&[200, 201, 202], &mut out);
    assert_eq!(mono(&out), vec![8, 201, 202]);
    assert_eq!(adapter.buffered_output(), 0);
}

#[test]
fn a_callback_is_filled_from_the_store_and_then_from_the_dry_input() {
    let mut adapter = InlineAdapter::new(4, None, None);
    assert_eq!(callback(&mut adapter, &[1, 2, 3, 4, 5, 6]), vec![1, 2, 3, 4, 5, 6]);
    assert_eq!(adapter.buffered_input(), 2);
    assert_eq!(
        callback(&mut adapter, &[7, 8, 9, 10, 11, 12]),
        vec![1005, 1006, 1007, 1008, 1009, 1010]
    );
    assert_eq!(adapter.buffered_output(), 2);
    assert_eq!(
        callback(&mut adapter, &[13, 14, 15, 16, 17, 18]),
        vec![1011, 1012, 1013, 1014, 1015, 1016]
    );
    assert_eq!(adapter.buffered_input(), 2);
    assert_eq!(adapter.buffered_output(), 0);
    assert_eq!(callback(&mut adapter, &[19]), vec![19]);
    assert_eq!(callback(&mut adapter, &[20, 21]), vec![1017, 1018]);
    assert_eq!(adapter.buffered_output(), 2);
    assert_eq!(callback(&mut adapter, &[]), Vec::<u32>::new());
    assert_eq!(adapter.buffered_output(), 2);
}

#[test]
fn a_hop_size_of_zero_never_gives_a_hop() {
    let mut adapter = InlineAdapter::new(0, None, None);
    adapter.enqueue(&[1, 2, 3]);
    assert!(adapter.next_hop().is_none());
    let mut out: Vec<Frame> = Vec::new();
    adapter.finish(&[1, 2, 3], &mut out);
    assert_eq!(mono(&out), vec![1, 2, 3]);
    assert_eq!(adapter.buffered_input(), 3);
}

#[test]
fn the_work_limit_bounds_the_hops_of_one_callback() {
    let mut adapter = InlineAdapter::new(2, Some(2), None);
    adapter.enqueue(&[1, 2, 3, 4, 5, 6, 7, 8]);
    assert_eq!(adapter.next_hop(), Some(vec![1, 2]));
    assert_eq!(adapter.next_hop(), Some(vec![3, 4]));
    assert_eq!(adapter.next_hop(), None);
    assert_eq!(adapter.buffered_input(), 4);
    adapter.enqueue(&[]);
    assert_eq!(adapter.next_hop(), Some(vec![5, 6]));
    assert_eq!(adapter.next_hop(), Some(vec![7, 8]));
    assert_eq!(adapter.next_hop(), None);
    let mut none = InlineAdapter::new(2, Some(0), None);
    none.enqueue(&[1, 2, 3, 4]);
    assert_eq!(none.next_hop(), None);
}

#[test]
fn the_backlog_limit_drops_the_oldest_input() {
    let mut adapter = InlineAdapter::new(2, Some(1), Some(2));
    adapter.enqueue(&[1, 2, 3, 4, 5, 6, 7, 8, 9]);
    assert_eq!(adapter.next_hop(), Some(vec![1, 2]));
    assert_eq!(adapter.next_hop(), None);
    assert_eq!(adapter.buffered_input(), 7);
    let mut out: Vec<Frame> = Vec::new();
    adapter.finish(&[1, 2, 3, 4, 5, 6, 7, 8, 9], &mut out);
    assert_eq!(out.len(), 9);
    assert_eq!(adapter.buffered_input(), 4);
    adapter.enqueue(&[]);
    assert_eq!(adapter.next_hop(), Some(vec![6, 7]));
    adapter.finish(&[], &mut out);
    assert_eq!(adapter.buffered_input(), 2);
    adapter.enqueue(&[]);
    assert_eq!(adapter.next_hop(), Some(vec![8, 9]));
}

#[test]
fn a_backlog_limit_beyond_the_machine_is_no_limit() {
    let mut adapter = InlineAdapter::new(3, Some(0), Some(usize::MAX));
    adapter.enqueue(&[1, 2, 3, 4, 5, 6, 7]);
    let mut out: Vec<Frame> = Vec::new();
    adapter.finish(&[], &mut out);
    assert_eq!(adapter.buffered_input(), 7);
    let mut none = InlineAdapter::new(3, Some(0), Some(0));
    none.enqueue(&[1, 2, 3, 4, 5, 6, 7]);
    none.finish(&[], &mut out);
    assert_eq!(none.buffered_input(), 0);
}
