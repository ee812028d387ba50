use color_overlay::timer::{Timer, MAX_QUERY};

#[test]
fn start_and_stop_make_a_span() {
    let mut t = Timer::new();
    assert_eq!(t.start("count"), Some(0));
    assert_eq!(t.start("draw"), Some(1));
    assert_eq!(t.stop("count"), Some(2));
    assert_eq!(t.num_queries(), 3);
    let data = vec![100u64, 150, 400];
    let spans = t.dump(&data);
    assert_eq!(spans.len(), 1);
    assert_eq!(spans[0].tag, "count");
    assert_eq!(spans[0].start_ticks, 100);
    assert_eq!(spans[0].stop_ticks, 400);
    assert_eq!(t.num_queries(), 0);
    assert!(t.dump(&data).is_empty());
}

#[test]
fn later_stop_moves_the_end() {
    let mut t = Timer::new();
    t.start("a");
    t.stop("a");
    t.stop("a");
    let spans = t.dump(&vec![1, 2, 3]);
    assert_eq!(spans.len(), 1);
    assert_eq!((spans[0].start_ticks, spans[0].stop_ticks), (1, 3));
}

#[test]
fn queries_run_out_after_the_maximum() {
    let mut t = Timer::new();
    for i in 0..MAX_QUERY {
        assert_eq!(t.start("x"), Some(i));
    }
    assert_eq!(t.start("x"), None);
    assert_eq!(t.stop("y"), None);
    assert_eq!(t.num_queries(), MAX_QUERY);
}
