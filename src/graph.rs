use vstd::prelude::*;

use crate::error::{status_result, Error};
use crate::filter::{filter_releases, Filter, FilterBuilder, Release};

verus! {

/// A rational unit (`num / den` seconds) in which frame timestamps count.
#[derive(Debug, Clone, Copy, PartialEq, Eq, Structural)]
pub struct TimeBase {
    pub num: i32,
    pub den: i32,
}

impl TimeBase {
    pub fn new(num: i32, den: i32) -> (r: TimeBase)
        ensures
            r == (TimeBase { num, den }),
    {
        TimeBase { num, den }
    }
}

/// A frame taken from a graph's sink: a native frame handle, tagged with the
/// graph's time base.
pub struct Frame {
    handle: u64,
    time_base: TimeBase,
}

impl Frame {
    pub closed spec fn spec_handle(&self) -> u64 {
        self.handle
    }

    pub closed spec fn spec_time_base(&self) -> TimeBase {
        self.time_base
    }

    pub fn handle(&self) -> (r: u64)
        ensures
            r == self.spec_handle(),
    {
        self.handle
    }

    pub fn time_base(&self) -> (r: TimeBase)
        ensures
            r == self.spec_time_base(),
    {
        self.time_base
    }
}

/// The filters an optional slot holds: none or one.
pub open spec fn slot_filters(o: Option<Filter>) -> Seq<Filter> {
    match o {
        Some(f) => seq![f],
        None => seq![],
    }
}


/// Appends to `r` one filter release for each filter of `fs`, in order.
fn push_filter_releases(r: &mut Vec<Release>, fs: &Vec<Filter>)
    ensures
        final(r)@ == old(r)@ + filter_releases(fs@),
{
    let n = fs.len();
    let mut i: usize = 0;
    while i < n
        invariant
            n == fs@.len(),
            i <= n,
            r@ == old(r)@ + filter_releases(fs@.take(i as int)),
        decreases n - i,
    {
        r.push(Release::Filter(fs[i].handle()));
        assert(fs@.take(i + 1) =~= fs@.take(i as int).push(fs@[i as int]));
        assert(filter_releases(fs@.take(i + 1)) =~= filter_releases(fs@.take(i as int)).push(
            Release::Filter(fs@[i as int].spec_handle()),
        ));
        i = i + 1;
    }
    assert(fs@.take(n as int) =~= fs@);
}

/// Owns an unconfigured native graph and its designated source and sink.
pub struct FilterGraphBuilder {
    handle: u64,
    buffer_src: Option<Filter>,
    buffer_sink: Option<Filter>,
    time_base: TimeBase,
    owns: bool,
}

impl FilterGraphBuilder {
    pub closed spec fn spec_handle(&self) -> u64 {
        self.handle
    }

    pub closed spec fn spec_buffer_src(&self) -> Option<Filter> {
        self.buffer_src
    }

    pub closed spec fn spec_buffer_sink(&self) -> Option<Filter> {
        self.buffer_sink
    }

    pub closed spec fn spec_time_base(&self) -> TimeBase {
        self.time_base
    }

    /// Whether this builder still owns its native graph (it has not been built).
    pub closed spec fn owns_graph(&self) -> bool {
        self.owns
    }

    pub open spec fn wf(&self) -> bool {
        self.spec_handle() != 0
    }

    /// Every filter the builder holds: the source, then the sink.
    pub open spec fn held_filters(&self) -> Seq<Filter> {
        slot_filters(self.spec_buffer_src()) + slot_filters(self.spec_buffer_sink())
    }

    /// What destroying this builder gives back: its graph while it still owns
    /// it, then every filter it holds.
    pub open spec fn releases(&self) -> Seq<Release> {
        (if self.owns_graph() {
            seq![Release::Graph(self.spec_handle())]
        } else {
            seq![]
        }) + filter_releases(self.held_filters())
    }

    /// Whether both the source and the sink have been designated.
    pub open spec fn has_endpoints(&self) -> bool {
        self.spec_buffer_src() is Some && self.spec_buffer_sink() is Some
    }

    /// Takes ownership of a freshly allocated native graph; frames taken from
    /// the built graph will carry `time_base`. A null handle means the
    /// allocation failed.
    pub fn new(graph_handle: u64, time_base: TimeBase) -> (r: Result<FilterGraphBuilder, Error>)
        ensures
            graph_handle == 0 ==> r == Err::<FilterGraphBuilder, Error>(Error::AllocationFailure),
            graph_handle != 0 ==> (r matches Ok(b) && {
                &&& b.wf()
                &&& b.spec_handle() == graph_handle
                &&& b.spec_time_base() == time_base
                &&& b.owns_graph()
                &&& b.spec_buffer_src() is None
                &&& b.spec_buffer_sink() is None
                &&& b.releases() == seq![Release::Graph(graph_handle)]
            }),
    {
        if graph_handle == 0 {
            return Err(Error::AllocationFailure);
        }
        let b = FilterGraphBuilder {
            handle: graph_handle,
            buffer_src: None,
            buffer_sink: None,
            time_base,
            owns: true,
        };
        assert(b.held_filters() =~= Seq::<Filter>::empty());
        assert(b.releases() =~= seq![Release::Graph(graph_handle)]);
        Ok(b)
    }

    /// The native handle of the graph.
    pub fn handle(&self) -> (r: u64)
        ensures
            r == self.spec_handle(),
    {
        self.handle
    }

    /// Whether both the source and the sink have been designated.
    pub fn is_ready(&self) -> (r: bool)
        ensures
            r == self.has_endpoints(),
    {
        self.buffer_src.is_some() && self.buffer_sink.is_some()
    }

    /// Designates the filter that frames are pushed into, and hands back the
    /// source set before, if any, for its holder to release.
    pub fn set_buffer_src(&mut self, buffer_src: Filter) -> (r: Option<Filter>)
        requires
            buffer_src.spec_graph() == old(self).spec_handle(),
        ensures
            r == old(self).spec_buffer_src(),
            final(self).spec_buffer_src() == Some(buffer_src),
            final(self).spec_buffer_sink() == old(self).spec_buffer_sink(),
            final(self).spec_handle() == old(self).spec_handle(),
            final(self).spec_time_base() == old(self).spec_time_base(),
            final(self).owns_graph() == old(self).owns_graph(),
    {
        let previous = self.buffer_src.take();
        self.buffer_src = Some(buffer_src);
        previous
    }

    /// Designates the filter that frames are taken from, and hands back the
    /// sink set before, if any, for its holder to release.
    pub fn set_buffer_sink(&mut self, buffer_sink: Filter) -> (r: Option<Filter>)
        requires
            buffer_sink.spec_graph() == old(self).spec_handle(),
        ensures
            r == old(self).spec_buffer_sink(),
            final(self).spec_buffer_sink() == Some(buffer_sink),
            final(self).spec_buffer_src() == old(self).spec_buffer_src(),
            final(self).spec_handle() == old(self).spec_handle(),
            final(self).spec_time_base() == old(self).spec_time_base(),
            final(self).owns_graph() == old(self).owns_graph(),
    {
        let previous = self.buffer_sink.take();
        self.buffer_sink = Some(buffer_sink);
        previous
    }

    /// Takes ownership of a filter the engine allocated in this graph. A null
    /// handle means the type was unknown or memory ran out.
    pub fn create_filter(&mut self, filter_handle: u64) -> (r: Result<FilterBuilder, Error>)
        ensures
            *final(self) == *old(self),
            filter_handle == 0 ==> r == Err::<FilterBuilder, Error>(Error::AllocationFailure),
            filter_handle != 0 ==> (r matches Ok(b) && {
                &&& b.wf()
                &&& b.spec_handle() == filter_handle
                &&& b.spec_graph() == old(self).spec_handle()
                &&& b.owns_filter()
                &&& b.spec_options() == Seq::<(Seq<char>, Seq<char>)>::empty()
            }),
    {
        FilterBuilder::new(self.handle, filter_handle)
    }

    /// Finalizes the graph, given the status the engine returned when
    /// configuring it. On success the graph, the source, the sink and
    /// `filters` all move to the returned `FilterGraph`, and this builder
    /// gives nothing back any more. On failure the builder is unchanged and
    /// `filters` come back with the error, for their holder to release.
    pub fn build(&mut self, configure_status: i32, filters: Vec<Filter>) -> (r: Result<
        FilterGraph,
        (Error, Vec<Filter>),
    >)
        requires
            old(self).wf(),
            old(self).owns_graph(),
            old(self).has_endpoints(),
            forall|i: int|
                0 <= i < filters@.len() ==> #[trigger] filters@[i].spec_graph()
                    == old(self).spec_handle(),
        ensures
            configure_status < 0 ==> {
                &&& r matches Err((e, fs))
                &&& e == Error::NativeOperationError(configure_status)
                &&& fs@ == filters@
                &&& *final(self) == *old(self)
            },
            configure_status >= 0 ==> (r matches Ok(g) && Self::built(*old(self), filters@, g)),
            configure_status >= 0 ==> {
                &&& final(self).spec_handle() == old(self).spec_handle()
                &&& !final(self).owns_graph()
                &&& final(self).spec_buffer_src() is None
                &&& final(self).spec_buffer_sink() is None
                &&& final(self).spec_time_base() == old(self).spec_time_base()
            },
    {
        if configure_status < 0 {
            return Err((Error::NativeOperationError(configure_status), filters));
        }
        let src = self.buffer_src.take().unwrap();
        let sink = self.buffer_sink.take().unwrap();
        self.owns = false;
        Ok(FilterGraph { handle: self.handle, src, sink, time_base: self.time_base, filters })
    }

    /// The graph that a successful build of `before` with `filters` yields.
    pub open spec fn built(before: FilterGraphBuilder, filters: Seq<Filter>, g: FilterGraph) -> bool {
        &&& g.spec_handle() == before.spec_handle()
        &&& Some(g.spec_src()) == before.spec_buffer_src()
        &&& Some(g.spec_sink()) == before.spec_buffer_sink()
        &&& g.spec_time_base() == before.spec_time_base()
        &&& g.spec_filters() == filters
    }

    /// Consumes the builder and lists what its destruction gives back.
    pub fn into_releases(self) -> (r: Vec<Release>)
        ensures
            r@ == self.releases(),
    {
        let mut r: Vec<Release> = Vec::new();
        if self.owns {
            r.push(Release::Graph(self.handle));
        }
        let mut held: Vec<Filter> = Vec::new();
        match self.buffer_src {
            Some(f) => held.push(f),
            None => {},
        }
        match self.buffer_sink {
            Some(f) => held.push(f),
            None => {},
        }
        assert(held@ =~= self.held_filters());
        push_filter_releases(&mut r, &held);
        r
    }
}

/// A configured native graph with its designated source and sink; it keeps
/// every filter of the graph alive for as long as it lives.
pub struct FilterGraph {
    handle: u64,
    src: Filter,
    sink: Filter,
    time_base: TimeBase,
    filters: Vec<Filter>,
}

impl FilterGraph {
    pub closed spec fn spec_handle(&self) -> u64 {
        self.handle
    }

    pub closed spec fn spec_src(&self) -> Filter {
        self.src
    }

    pub closed spec fn spec_sink(&self) -> Filter {
        self.sink
    }

    pub closed spec fn spec_time_base(&self) -> TimeBase {
        self.time_base
    }

    /// The filters kept alive besides the source and the sink.
    pub closed spec fn spec_filters(&self) -> Seq<Filter> {
        self.filters@
    }

    /// Every filter the graph holds: the source, the sink, then the others.
    pub open spec fn held_filters(&self) -> Seq<Filter> {
        seq![self.spec_src(), self.spec_sink()] + self.spec_filters()
    }

    /// What destroying the graph gives back: the native graph, then every
    /// filter it holds.
    pub open spec fn releases(&self) -> Seq<Release> {
        seq![Release::Graph(self.spec_handle())] + filter_releases(self.held_filters())
    }

    /// Starts building a graph on a freshly allocated native graph.
    pub fn builder(graph_handle: u64, time_base: TimeBase) -> (r: Result<FilterGraphBuilder, Error>)
        ensures
            graph_handle == 0 ==> r == Err::<FilterGraphBuilder, Error>(Error::AllocationFailure),
            graph_handle != 0 ==> (r matches Ok(b) && {
                &&& b.wf()
                &&& b.spec_handle() == graph_handle
                &&& b.spec_time_base() == time_base
                &&& b.owns_graph()
                &&& b.spec_buffer_src() is None
                &&& b.spec_buffer_sink() is None
                &&& b.releases() == seq![Release::Graph(graph_handle)]
            }),
    {
        FilterGraphBuilder::new(graph_handle, time_base)
    }

    /// The native handle of the graph.
    pub fn handle(&self) -> (r: u64)
        ensures
            r == self.spec_handle(),
    {
        self.handle
    }

    /// The native handle of the source filter, where frames are pushed.
    pub fn source_handle(&self) -> (r: u64)
        ensures
            r == self.spec_src().spec_handle(),
    {
        self.src.handle()
    }

    /// The native handle of the sink filter, where frames are taken.
    pub fn sink_handle(&self) -> (r: u64)
        ensures
            r == self.spec_sink().spec_handle(),
    {
        self.sink.handle()
    }

    /// The time base that frames taken from the graph carry.
    pub fn time_base(&self) -> (r: TimeBase)
        ensures
            r == self.spec_time_base(),
    {
        self.time_base
    }

    /// Outcome of pushing a frame into the source, given the status the
    /// engine returned for the push.
    pub fn push(&self, push_status: i32) -> (r: Result<(), Error>)
        ensures
            r == status_result(push_status),
    {
        Error::check_status(push_status)
    }

    /// Outcome of taking a frame from the sink, given the status the engine
    /// returned and the frame handle it wrote: 1 hands over a frame, tagged
    /// with the graph's time base; 0 means no frame is ready yet; any other
    /// status is an error carrying that code. A status of 1 with a null frame
    /// would be a defect of the engine and is excluded.
    pub fn take(&self, take_status: i32, frame_handle: u64) -> (r: Result<Option<Frame>, Error>)
        requires
            take_status == 1 ==> frame_handle != 0,
        ensures
            take_status == 1 ==> (r matches Ok(Some(f)) && f.spec_handle() == frame_handle
                && f.spec_time_base() == self.spec_time_base()),
            take_status == 0 ==> r == Ok::<Option<Frame>, Error>(None),
            take_status != 0 && take_status != 1 ==> r == Err::<Option<Frame>, Error>(
                Error::NativeOperationError(take_status),
            ),
    {
        if take_status == 1 {
            Ok(Some(Frame { handle: frame_handle, time_base: self.time_base }))
        } else if take_status == 0 {
            Ok(None)
        } else {
            Err(Error::NativeOperationError(take_status))
        }
    }

    /// Consumes the graph and lists what its destruction gives back.
    pub fn into_releases(self) -> (r: Vec<Release>)
        ensures
            r@ == self.releases(),
    {
        let mut r: Vec<Release> = vec![Release::Graph(self.handle)];
        let mut held: Vec<Filter> = vec![self.src, self.sink];
        let mut rest = self.filters;
        held.append(&mut rest);
        assert(held@ =~= self.held_filters());
        push_filter_releases(&mut r, &held);
        r
    }
}

} // verus!
