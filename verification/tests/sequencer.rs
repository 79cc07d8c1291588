use etcd::sequencer::EndpointSequencer;

#[test]
fn endpoints_come_out_in_the_order_given() {
    let mut sequencer = EndpointSequencer::new(vec!["a", "b", "c"]);
    assert_eq!(sequencer.next(), Some("a"));
    assert_eq!(sequencer.next(), Some("b"));
    assert_eq!(sequencer.next(), Some("c"));
    assert_eq!(sequencer.next(), None);
}

#[test]
fn remaining_counts_down_to_zero() {
    let mut sequencer = EndpointSequencer::new(vec![10u32, 20, 30]);
    assert_eq!(sequencer.remaining(), 3);
    sequencer.next();
    assert_eq!(sequencer.remaining(), 2);
    sequencer.next();
    assert_eq!(sequencer.remaining(), 1);
    sequencer.next();
    assert_eq!(sequencer.remaining(), 0);
    sequencer.next();
    assert_eq!(sequencer.remaining(), 0);
}

#[test]
fn an_empty_sequencer_is_exhausted_from_the_start() {
    let mut sequencer: EndpointSequencer<String> = EndpointSequencer::new(Vec::new());
    assert_eq!(sequencer.remaining(), 0);
    assert_eq!(sequencer.next(), None);
}

#[test]
fn exhaustion_is_final() {
    let mut sequencer = EndpointSequencer::new(vec![1u8]);
    assert_eq!(sequencer.next(), Some(1));
    for _ in 0..5 {
        assert_eq!(sequencer.next(), None);
        assert_eq!(sequencer.remaining(), 0);
    }
}

#[test]
fn no_endpoint_is_handed_out_twice() {
    let endpoints: Vec<usize> = (0..100).collect();
    let mut sequencer = EndpointSequencer::new(endpoints.clone());
    let mut seen = Vec::new();
    while let Some(endpoint) = sequencer.next() {
        assert!(!seen.contains(&endpoint));
        seen.push(endpoint);
    }
    assert_eq!(seen, endpoints);
}

#[test]
fn equal_endpoints_are_each_handed_out() {
    let mut sequencer = EndpointSequencer::new(vec!["a", "a", "b", "a"]);
    assert_eq!(sequencer.next(), Some("a"));
    assert_eq!(sequencer.next(), Some("a"));
    assert_eq!(sequencer.next(), Some("b"));
    assert_eq!(sequencer.next(), Some("a"));
    assert_eq!(sequencer.next(), None);
}

#[test]
fn endpoints_that_cannot_be_copied_are_moved_out() {
    let mut sequencer =
        EndpointSequencer::new(vec![String::from("http://one"), String::from("http://two")]);
    let first: String = sequencer.next().unwrap();
    assert_eq!(first, "http://one");
    assert_eq!(sequencer.remaining(), 1);
    let second: String = sequencer.next().unwrap();
    assert_eq!(second, "http://two");
}
