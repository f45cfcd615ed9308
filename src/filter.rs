use vstd::prelude::*;
use vstd::string::StrSliceExecFns;

use crate::error::{status_result, Error};

verus! {

/// A native resource that the holder of a value must give back to the engine
/// when that value is destroyed.
#[derive(Debug, Clone, Copy, PartialEq, Eq, Structural)]
pub enum Release {
    /// Free the native graph with this handle.
    Graph(u64),
    /// Free the native filter with this handle.
    Filter(u64),
}

/// A string can be handed to the engine as a C string when it holds no NUL.
pub open spec fn is_c_compatible(s: Seq<char>) -> bool {
    forall|i: int| 0 <= i < s.len() ==> s[i] != '\0'
}

/// Tells whether `s` can be handed to the engine as a C string.
pub fn c_compatible(s: &str) -> (r: bool)
    ensures
        r == is_c_compatible(s@),
{
    let n = s.unicode_len();
    let mut i: usize = 0;
    while i < n
        invariant
            n == s@.len(),
            i <= n,
            forall|j: int| 0 <= j < i ==> s@[j] != '\0',
        decreases n - i,
    {
        if s.get_char(i) == '\0' {
            return false;
        }
        i = i + 1;
    }
    true
}

/// A finalized native filter node, allocated from the graph `graph`.
#[derive(Debug)]
pub struct Filter {
    handle: u64,
    graph: u64,
}

/// The releases owed for a sequence of filters, one per filter, in order.
pub open spec fn filter_releases(fs: Seq<Filter>) -> Seq<Release> {
    fs.map_values(|f: Filter| Release::Filter(f.spec_handle()))
}

impl Filter {
    pub closed spec fn spec_handle(&self) -> u64 {
        self.handle
    }

    pub closed spec fn spec_graph(&self) -> u64 {
        self.graph
    }

    /// A filter always holds a live (non-null) native handle.
    pub open spec fn wf(&self) -> bool {
        self.spec_handle() != 0
    }

    /// What destroying this filter gives back to the engine.
    pub open spec fn releases(&self) -> Seq<Release> {
        seq![Release::Filter(self.spec_handle())]
    }

    /// The native handle of this filter.
    pub fn handle(&self) -> (r: u64)
        ensures
            r == self.spec_handle(),
    {
        self.handle
    }

    /// The native graph this filter was allocated from.
    pub fn graph(&self) -> (r: u64)
        ensures
            r == self.spec_graph(),
    {
        self.graph
    }

    /// Outcome of linking output pad `output_pad` of `filter_output` to input
    /// pad `input_pad` of `filter_input`, given the status the engine returned
    /// for that link. Neither filter changes owner.
    pub fn link(
        filter_output: &Filter,
        output_pad: u32,
        filter_input: &Filter,
        input_pad: u32,
        link_status: i32,
    ) -> (r: Result<(), Error>)
        ensures
            r == status_result(link_status),
    {
        Error::check_status(link_status)
    }

    /// Consumes the filter and lists what its destruction gives back.
    pub fn into_releases(self) -> (r: Vec<Release>)
        ensures
            r@ == self.releases(),
    {
        vec![Release::Filter(self.handle)]
    }
}

/// A native filter node that has been allocated but not yet initialized,
/// with the options recorded for its initialization.
pub struct FilterBuilder {
    handle: u64,
    graph: u64,
    owns: bool,
    options: Vec<(String, String)>,
}

impl FilterBuilder {
    pub closed spec fn spec_handle(&self) -> u64 {
        self.handle
    }

    pub closed spec fn spec_graph(&self) -> u64 {
        self.graph
    }

    /// Whether this builder still owns its native filter (it has not been
    /// built yet).
    pub closed spec fn owns_filter(&self) -> bool {
        self.owns
    }

    /// The options recorded so far, as (name, value) pairs in order.
    pub closed spec fn spec_options(&self) -> Seq<(Seq<char>, Seq<char>)> {
        self.options@.map_values(|p: (String, String)| (p.0@, p.1@))
    }

    pub open spec fn wf(&self) -> bool {
        self.spec_handle() != 0
    }

    /// What destroying this builder gives back: its filter, unless ownership
    /// has moved to a built `Filter`.
    pub open spec fn releases(&self) -> Seq<Release> {
        if self.owns_filter() {
            seq![Release::Filter(self.spec_handle())]
        } else {
            seq![]
        }
    }

    /// Takes ownership of a freshly allocated native filter of graph `graph`.
    /// A null handle means the allocation failed.
    pub fn new(graph: u64, filter_handle: u64) -> (r: Result<FilterBuilder, Error>)
        ensures
            filter_handle == 0 ==> r == Err::<FilterBuilder, Error>(Error::AllocationFailure),
            filter_handle != 0 ==> (r matches Ok(b) && {
                &&& b.wf()
                &&& b.spec_handle() == filter_handle
                &&& b.spec_graph() == graph
                &&& b.owns_filter()
                &&& b.spec_options() == Seq::<(Seq<char>, Seq<char>)>::empty()
            }),
    {
        if filter_handle == 0 {
            return Err(Error::AllocationFailure);
        }
        let b = FilterBuilder { handle: filter_handle, graph, owns: true, options: Vec::new() };
        assert(b.spec_options() =~= Seq::<(Seq<char>, Seq<char>)>::empty());
        Ok(b)
    }

    /// The native handle of the filter being built.
    pub fn handle(&self) -> (r: u64)
        ensures
            r == self.spec_handle(),
    {
        self.handle
    }

    /// Records the option `name` = `value` for the filter's initialization.
    pub fn set_option(self, name: &str, value: &str) -> (r: FilterBuilder)
        requires
            is_c_compatible(name@),
            is_c_compatible(value@),
        ensures
            r.spec_handle() == self.spec_handle(),
            r.spec_graph() == self.spec_graph(),
            r.owns_filter() == self.owns_filter(),
            r.spec_options() == self.spec_options().push((name@, value@)),
    {
        let mut b = self;
        b.options.push((name.to_owned(), value.to_owned()));
        assert(b.spec_options() =~= self.spec_options().push((name@, value@)));
        b
    }

    /// The recorded options, in the order they were set.
    pub fn options(&self) -> (r: &Vec<(String, String)>)
        ensures
            r@.map_values(|p: (String, String)| (p.0@, p.1@)) == self.spec_options(),
    {
        &self.options
    }

    /// Finalizes the filter, given the status the engine returned when
    /// initializing it. On success ownership of the native filter moves to the
    /// returned `Filter` and this builder gives nothing back any more; on
    /// failure the builder is unchanged and still owns the filter.
    pub fn build(&mut self, init_status: i32) -> (r: Result<Filter, Error>)
        requires
            old(self).wf(),
            old(self).owns_filter(),
        ensures
            init_status < 0 ==> r == Err::<Filter, Error>(Error::NativeOperationError(init_status))
                && *final(self) == *old(self),
            init_status >= 0 ==> (r matches Ok(f) && f.wf() && f.spec_handle() == old(
                self,
            ).spec_handle() && f.spec_graph() == old(self).spec_graph()),
            init_status >= 0 ==> {
                &&& !final(self).owns_filter()
                &&& final(self).spec_handle() == old(self).spec_handle()
                &&& final(self).spec_graph() == old(self).spec_graph()
                &&& final(self).spec_options() == old(self).spec_options()
                &&& final(self).releases() == Seq::<Release>::empty()
            },
    {
        if init_status < 0 {
            return Err(Error::NativeOperationError(init_status));
        }
        self.owns = false;
        Ok(Filter { handle: self.handle, graph: self.graph })
    }

    /// Consumes the builder and lists what its destruction gives back.
    pub fn into_releases(self) -> (r: Vec<Release>)
        ensures
            r@ == self.releases(),
    {
        let mut r: Vec<Release> = Vec::new();
        if self.owns {
            r.push(Release::Filter(self.handle));
        }
        assert(r@ =~= self.releases());
        r
    }
}

} // verus!
