use filter_graph::error::Error;
use filter_graph::filter::{c_compatible, Filter, FilterBuilder, Release};
use filter_graph::graph::{FilterGraph, FilterGraphBuilder, TimeBase};

/// A stand-in for the native engine that counts what it hands out and what
/// it is given back.
struct FakeEngine {
    next: u64,
    graphs_allocated: u64,
    filters_allocated: u64,
    graphs_freed: Vec<u64>,
    filters_freed: Vec<u64>,
}

impl FakeEngine {
    fn new() -> FakeEngine {
        FakeEngine {
            next: 100,
            graphs_allocated: 0,
            filters_allocated: 0,
            graphs_freed: Vec::new(),
            filters_freed: Vec::new(),
        }
    }

    fn alloc_graph(&mut self) -> u64 {
        self.next += 1;
        self.graphs_allocated += 1;
        self.next
    }

    fn alloc_filter(&mut self) -> u64 {
        self.next += 1;
        self.filters_allocated += 1;
        self.next
    }

    fn release(&mut self, releases: Vec<Release>) {
        for r in releases {
            match r {
                Release::Graph(h) => self.graphs_freed.push(h),
                Release::Filter(h) => self.filters_freed.push(h),
            }
        }
    }
}

fn audio_time_base() -> TimeBase {
    TimeBase::new(1, 48000)
}

fn built_filter(engine: &mut FakeEngine, b: &mut FilterGraphBuilder) -> Filter {
    let h = engine.alloc_filter();
    let mut fb = b.create_filter(h).unwrap();
    let f = fb.build(0).unwrap();
    engine.release(fb.into_releases());
    f
}

fn ready_builder(engine: &mut FakeEngine) -> FilterGraphBuilder {
    let g = engine.alloc_graph();
    let mut b = FilterGraph::builder(g, audio_time_base()).unwrap();
    let src = built_filter(engine, &mut b);
    let sink = built_filter(engine, &mut b);
    assert!(b.set_buffer_src(src).is_none());
    assert!(b.set_buffer_sink(sink).is_none());
    b
}

#[test]
fn check_status_translates_codes() {
    assert_eq!(Error::check_status(0), Ok(()));
    assert_eq!(Error::check_status(5), Ok(()));
    assert_eq!(Error::check_status(-22), Err(Error::NativeOperationError(-22)));
    assert_eq!(Error::NativeOperationError(-11).code(), Some(-11));
    assert_eq!(Error::AllocationFailure.code(), None);
}

#[test]
fn c_compatible_rejects_nul() {
    assert!(c_compatible("volume"));
    assert!(c_compatible(""));
    assert!(!c_compatible("vol\0ume"));
    assert!(!c_compatible("\0"));
}

#[test]
fn graph_allocation_failure() {
    assert!(matches!(
        FilterGraphBuilder::new(0, audio_time_base()),
        Err(Error::AllocationFailure)
    ));
    assert!(matches!(FilterGraph::builder(0, audio_time_base()), Err(Error::AllocationFailure)));
}

#[test]
fn new_builder_owes_its_graph() {
    let b = FilterGraphBuilder::new(42, audio_time_base()).unwrap();
    assert_eq!(b.handle(), 42);
    assert!(!b.is_ready());
    assert_eq!(b.into_releases(), vec![Release::Graph(42)]);
}

#[test]
fn filter_allocation_failure_retains_nothing() {
    let mut b = FilterGraphBuilder::new(7, audio_time_base()).unwrap();
    let r = b.create_filter(0);
    assert!(matches!(r, Err(Error::AllocationFailure)));
    assert_eq!(b.into_releases(), vec![Release::Graph(7)]);
}

#[test]
fn set_option_records_in_order() {
    let mut b = FilterGraphBuilder::new(7, audio_time_base()).unwrap();
    let fb = b.create_filter(9).unwrap();
    assert_eq!(fb.handle(), 9);
    let fb = fb.set_option("sample_rate", "44100").set_option("channels", "2");
    let opts = fb.options();
    assert_eq!(opts.len(), 2);
    assert_eq!(opts[0], ("sample_rate".to_string(), "44100".to_string()));
    assert_eq!(opts[1], ("channels".to_string(), "2".to_string()));
}

#[test]
fn filter_build_moves_ownership() {
    let mut b = FilterGraphBuilder::new(7, audio_time_base()).unwrap();
    let mut fb = b.create_filter(9).unwrap();
    let f = fb.build(0).unwrap();
    assert_eq!(f.handle(), 9);
    assert_eq!(f.graph(), 7);
    assert_eq!(fb.into_releases(), Vec::<Release>::new());
    assert_eq!(f.into_releases(), vec![Release::Filter(9)]);
}

#[test]
fn filter_build_failure_keeps_ownership() {
    let mut b = FilterGraphBuilder::new(7, audio_time_base()).unwrap();
    let mut fb = b.create_filter(9).unwrap();
    let r = fb.build(-12);
    assert!(matches!(r, Err(Error::NativeOperationError(-12))));
    assert_eq!(fb.into_releases(), vec![Release::Filter(9)]);
}

#[test]
fn built_filters_are_live_and_link() {
    let mut engine = FakeEngine::new();
    let g = engine.alloc_graph();
    let mut b = FilterGraphBuilder::new(g, audio_time_base()).unwrap();
    let a = built_filter(&mut engine, &mut b);
    let c = built_filter(&mut engine, &mut b);
    assert_ne!(a.handle(), 0);
    assert_ne!(c.handle(), 0);
    assert_eq!(Filter::link(&a, 0, &c, 0, 0), Ok(()));
    assert_eq!(Filter::link(&a, 1, &c, 2, -22), Err(Error::NativeOperationError(-22)));
}

#[test]
fn successful_build_releases_graph_once() {
    let mut engine = FakeEngine::new();
    let mut b = ready_builder(&mut engine);
    assert!(b.is_ready());
    let graph_handle = b.handle();
    let extra = built_filter(&mut engine, &mut b);
    let graph = b.build(0, vec![extra]).unwrap();
    assert_eq!(graph.handle(), graph_handle);
    engine.release(b.into_releases());
    engine.release(graph.into_releases());
    assert_eq!(engine.graphs_allocated, 1);
    assert_eq!(engine.graphs_freed, vec![graph_handle]);
}

#[test]
fn successful_build_releases_every_filter_once() {
    let mut engine = FakeEngine::new();
    let mut b = ready_builder(&mut engine);
    let e1 = built_filter(&mut engine, &mut b);
    let e2 = built_filter(&mut engine, &mut b);
    let graph = b.build(0, vec![e1, e2]).unwrap();
    engine.release(b.into_releases());
    let releases = graph.into_releases();
    assert_eq!(releases.len(), 5);
    engine.release(releases);
    assert_eq!(engine.filters_allocated, 4);
    let mut freed = engine.filters_freed.clone();
    freed.sort();
    freed.dedup();
    assert_eq!(freed.len(), engine.filters_freed.len());
    assert_eq!(engine.filters_allocated as usize, engine.filters_freed.len());
    assert_eq!(engine.graphs_allocated as usize, engine.graphs_freed.len());
}

#[test]
fn built_graph_keeps_exactly_the_given_filters() {
    let mut engine = FakeEngine::new();
    let g = engine.alloc_graph();
    let mut b = FilterGraphBuilder::new(g, audio_time_base()).unwrap();
    let old_src = built_filter(&mut engine, &mut b);
    let src = built_filter(&mut engine, &mut b);
    let sink = built_filter(&mut engine, &mut b);
    let extra = built_filter(&mut engine, &mut b);
    let (ho, hs, hk, he) = (old_src.handle(), src.handle(), sink.handle(), extra.handle());
    assert!(b.set_buffer_src(old_src).is_none());
    let replaced = b.set_buffer_src(src).unwrap();
    assert_eq!(replaced.handle(), ho);
    assert!(b.set_buffer_sink(sink).is_none());
    let graph = b.build(0, vec![extra]).unwrap();
    assert_eq!(
        graph.into_releases(),
        vec![Release::Graph(g), Release::Filter(hs), Release::Filter(hk), Release::Filter(he)]
    );
}

#[test]
fn failed_build_reports_code_and_keeps_graph() {
    let mut engine = FakeEngine::new();
    let mut b = ready_builder(&mut engine);
    let graph_handle = b.handle();
    let extra = built_filter(&mut engine, &mut b);
    let extra_handle = extra.handle();
    let r = b.build(-22, vec![extra]);
    let (e, back) = match r {
        Err(failure) => failure,
        Ok(_) => panic!("build should fail"),
    };
    assert_eq!(e, Error::NativeOperationError(-22));
    assert_eq!(back.len(), 1);
    assert_eq!(back[0].handle(), extra_handle);
    for f in back {
        engine.release(f.into_releases());
    }
    assert!(b.is_ready());
    let releases = b.into_releases();
    assert_eq!(releases.len(), 3);
    assert_eq!(releases[0], Release::Graph(graph_handle));
    engine.release(releases);
    assert_eq!(engine.graphs_allocated as usize, engine.graphs_freed.len());
    assert_eq!(engine.filters_allocated as usize, engine.filters_freed.len());
    assert_eq!(engine.graphs_freed, vec![graph_handle]);
}

#[test]
fn replaced_source_is_handed_back() {
    let mut engine = FakeEngine::new();
    let mut b = FilterGraphBuilder::new(engine.alloc_graph(), audio_time_base()).unwrap();
    let first = built_filter(&mut engine, &mut b);
    let second = built_filter(&mut engine, &mut b);
    let (h1, h2) = (first.handle(), second.handle());
    assert!(b.set_buffer_src(first).is_none());
    let previous = b.set_buffer_src(second).unwrap();
    assert_eq!(previous.handle(), h1);
    assert_eq!(previous.into_releases(), vec![Release::Filter(h1)]);
    let releases = b.into_releases();
    assert_eq!(releases.len(), 2);
    assert_eq!(releases[1], Release::Filter(h2));
}

#[test]
fn replaced_sink_is_handed_back() {
    let mut engine = FakeEngine::new();
    let mut b = FilterGraphBuilder::new(engine.alloc_graph(), audio_time_base()).unwrap();
    let first = built_filter(&mut engine, &mut b);
    let second = built_filter(&mut engine, &mut b);
    let h1 = first.handle();
    assert!(b.set_buffer_sink(first).is_none());
    let previous = b.set_buffer_sink(second).unwrap();
    assert_eq!(previous.handle(), h1);
}

#[test]
fn builder_without_endpoints_is_not_ready() {
    let mut engine = FakeEngine::new();
    let mut b = FilterGraphBuilder::new(engine.alloc_graph(), audio_time_base()).unwrap();
    assert!(!b.is_ready());
    let src = built_filter(&mut engine, &mut b);
    assert!(b.set_buffer_src(src).is_none());
    assert!(!b.is_ready());
    let sink = built_filter(&mut engine, &mut b);
    assert!(b.set_buffer_sink(sink).is_none());
    assert!(b.is_ready());
}

#[test]
fn push_translates_status() {
    let mut engine = FakeEngine::new();
    let mut b = ready_builder(&mut engine);
    let graph = b.build(0, Vec::new()).unwrap();
    assert_eq!(graph.push(0), Ok(()));
    assert_eq!(graph.push(-11), Err(Error::NativeOperationError(-11)));
}

#[test]
fn take_not_yet_available_is_empty() {
    let mut engine = FakeEngine::new();
    let mut b = ready_builder(&mut engine);
    let graph = b.build(0, Vec::new()).unwrap();
    assert!(matches!(graph.take(0, 0), Ok(None)));
}

#[test]
fn take_produced_frame_carries_time_base() {
    let mut engine = FakeEngine::new();
    let mut b = ready_builder(&mut engine);
    let graph = b.build(0, Vec::new()).unwrap();
    let frame = graph.take(1, 555).unwrap().unwrap();
    assert_eq!(frame.handle(), 555);
    assert_eq!(frame.time_base(), TimeBase::new(1, 48000));
    assert_eq!(graph.time_base(), frame.time_base());
}

#[test]
fn take_error_carries_code() {
    let mut engine = FakeEngine::new();
    let mut b = ready_builder(&mut engine);
    let graph = b.build(0, Vec::new()).unwrap();
    assert!(matches!(graph.take(-541478725, 0), Err(Error::NativeOperationError(-541478725))));
    assert!(matches!(graph.take(2, 0), Err(Error::NativeOperationError(2))));
}

#[test]
fn graph_exposes_endpoints() {
    let mut engine = FakeEngine::new();
    let g = engine.alloc_graph();
    let mut b = FilterGraphBuilder::new(g, audio_time_base()).unwrap();
    let src = built_filter(&mut engine, &mut b);
    let sink = built_filter(&mut engine, &mut b);
    let (hs, hk) = (src.handle(), sink.handle());
    assert!(b.set_buffer_src(src).is_none());
    assert!(b.set_buffer_sink(sink).is_none());
    let graph = b.build(1, Vec::new()).unwrap();
    assert_eq!(graph.source_handle(), hs);
    assert_eq!(graph.sink_handle(), hk);
    assert_eq!(
        graph.into_releases(),
        vec![Release::Graph(g), Release::Filter(hs), Release::Filter(hk)]
    );
}
