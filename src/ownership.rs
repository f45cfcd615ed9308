use vstd::prelude::*;

use crate::filter::{filter_releases, Filter, FilterBuilder, Release};
use crate::graph::{FilterGraph, FilterGraphBuilder};

verus! {

/// How many times `r` occurs in the release list `s`.
pub open spec fn times_released(s: Seq<Release>, r: Release) -> nat
    decreases s.len(),
{
    if s.len() == 0 {
        0
    } else {
        times_released(s.drop_last(), r) + if s.last() == r {
            1nat
        } else {
            0nat
        }
    }
}

proof fn lemma_times_released_concat(a: Seq<Release>, b: Seq<Release>, r: Release)
    ensures
        times_released(a + b, r) == times_released(a, r) + times_released(b, r),
    decreases b.len(),
{
    if b.len() == 0 {
        assert(a + b =~= a);
    } else {
        assert((a + b).drop_last() =~= a + b.drop_last());
        lemma_times_released_concat(a, b.drop_last(), r);
    }
}

proof fn lemma_filters_release_no_graph(fs: Seq<Filter>, h: u64)
    ensures
        times_released(filter_releases(fs), Release::Graph(h)) == 0,
    decreases fs.len(),
{
    if fs.len() > 0 {
        assert(filter_releases(fs).drop_last() =~= filter_releases(fs.drop_last()));
        lemma_filters_release_no_graph(fs.drop_last(), h);
    }
}

proof fn lemma_single_release(r: Release)
    ensures
        times_released(seq![r], r) == 1,
{
    assert(seq![r].drop_last() =~= Seq::<Release>::empty());
    assert(times_released(Seq::<Release>::empty(), r) == 0);
}

/// A builder that owns its graph gives that graph back exactly once.
proof fn lemma_owned_graph_released_once(b: FilterGraphBuilder)
    requires
        b.owns_graph(),
    ensures
        times_released(b.releases(), Release::Graph(b.spec_handle())) == 1,
{
    let h = b.spec_handle();
    let head = seq![Release::Graph(h)];
    lemma_times_released_concat(head, filter_releases(b.held_filters()), Release::Graph(h));
    lemma_filters_release_no_graph(b.held_filters(), h);
    lemma_single_release(Release::Graph(h));
}

/// Handles of `fs` are pairwise distinct.
pub open spec fn distinct_handles(fs: Seq<Filter>) -> bool {
    forall|j: int, k: int|
        0 <= j < fs.len() && 0 <= k < fs.len() && j != k ==> #[trigger] fs[j].spec_handle()
            != #[trigger] fs[k].spec_handle()
}

proof fn lemma_absent_filter_not_released(fs: Seq<Filter>, h: u64)
    requires
        forall|j: int| 0 <= j < fs.len() ==> #[trigger] fs[j].spec_handle() != h,
    ensures
        times_released(filter_releases(fs), Release::Filter(h)) == 0,
    decreases fs.len(),
{
    if fs.len() > 0 {
        assert(filter_releases(fs).drop_last() =~= filter_releases(fs.drop_last()));
        lemma_absent_filter_not_released(fs.drop_last(), h);
    }
}

proof fn lemma_distinct_filter_released_once(fs: Seq<Filter>, i: int)
    requires
        0 <= i < fs.len(),
        distinct_handles(fs),
    ensures
        times_released(filter_releases(fs), Release::Filter(fs[i].spec_handle())) == 1,
    decreases fs.len(),
{
    let last = fs.len() - 1;
    let h = fs[i].spec_handle();
    let init = fs.drop_last();
    assert(filter_releases(fs).drop_last() =~= filter_releases(init));
    if i == last {
        assert forall|j: int| 0 <= j < init.len() implies #[trigger] init[j].spec_handle() != h by {
            assert(fs[j].spec_handle() != fs[last].spec_handle());
        }
        lemma_absent_filter_not_released(init, h);
    } else {
        assert(fs[last].spec_handle() != h);
        assert forall|j: int, k: int|
            0 <= j < init.len() && 0 <= k < init.len() && j != k implies #[trigger] init[j].spec_handle()
            != #[trigger] init[k].spec_handle() by {
            assert(fs[j].spec_handle() != fs[k].spec_handle());
        }
        lemma_distinct_filter_released_once(init, i);
    }
}

/// A successful build hands everything over without loss or duplication:
/// what the builder owed (its graph, source and sink) together with the
/// filters handed to the build is exactly what the builder and the built
/// graph owe afterwards, in the same order. So the graph is freed exactly
/// once, and so is each of those filters when their handles are distinct.
pub proof fn lemma_successful_build_releases_graph_once(
    before: FilterGraphBuilder,
    after: FilterGraphBuilder,
    filters: Seq<Filter>,
    graph: FilterGraph,
)
    requires
        before.owns_graph(),
        before.has_endpoints(),
        after.spec_handle() == before.spec_handle(),
        !after.owns_graph(),
        after.spec_buffer_src() is None,
        after.spec_buffer_sink() is None,
        FilterGraphBuilder::built(before, filters, graph),
    ensures
        times_released(before.releases(), Release::Graph(before.spec_handle())) == 1,
        after.releases() == Seq::<Release>::empty(),
        after.releases() + graph.releases() == before.releases() + filter_releases(filters),
        times_released(
            after.releases() + graph.releases(),
            Release::Graph(before.spec_handle()),
        ) == 1,
        distinct_handles(graph.held_filters()) ==> forall|i: int|
            0 <= i < graph.held_filters().len() ==> times_released(
                after.releases() + graph.releases(),
                Release::Filter(#[trigger] graph.held_filters()[i].spec_handle()),
            ) == 1,
{
    let h = before.spec_handle();
    let held = graph.held_filters();
    lemma_owned_graph_released_once(before);
    assert(after.held_filters() =~= Seq::<Filter>::empty());
    assert(filter_releases(after.held_filters()) =~= Seq::<Release>::empty());
    assert(after.releases() =~= Seq::<Release>::empty());
    assert(held =~= before.held_filters() + filters);
    assert(filter_releases(before.held_filters() + filters) =~= filter_releases(
        before.held_filters(),
    ) + filter_releases(filters));
    assert(after.releases() + graph.releases() =~= before.releases() + filter_releases(filters));
    let head = seq![Release::Graph(h)];
    assert(after.releases() + graph.releases() =~= head + filter_releases(held));
    lemma_times_released_concat(head, filter_releases(held), Release::Graph(h));
    lemma_filters_release_no_graph(held, h);
    lemma_single_release(Release::Graph(h));
    if distinct_handles(held) {
        assert forall|i: int| 0 <= i < held.len() implies times_released(
            after.releases() + graph.releases(),
            Release::Filter(#[trigger] held[i].spec_handle()),
        ) == 1 by {
            let r = Release::Filter(held[i].spec_handle());
            lemma_times_released_concat(head, filter_releases(held), r);
            assert(head.drop_last() =~= Seq::<Release>::empty());
            assert(times_released(Seq::<Release>::empty(), r) == 0);
            lemma_distinct_filter_released_once(held, i);
        }
    }
}

/// A build that the engine refuses leaves the builder as it was: it still
/// owns its graph and gives it back exactly once.
pub proof fn lemma_failed_build_keeps_graph(before: FilterGraphBuilder, after: FilterGraphBuilder)
    requires
        before.owns_graph(),
        after == before,
    ensures
        after.releases() == before.releases(),
        times_released(after.releases(), Release::Graph(before.spec_handle())) == 1,
{
    lemma_owned_graph_released_once(after);
}

/// Building needs both endpoints: a builder whose source or sink was never
/// designated is not ready, so `build`'s precondition rules it out whatever
/// the engine would answer.
pub proof fn lemma_build_needs_endpoints(b: FilterGraphBuilder)
    requires
        b.spec_buffer_src() is None || b.spec_buffer_sink() is None,
    ensures
        !b.has_endpoints(),
{
}

/// A successful filter build hands the native filter over without
/// duplicating it: the builder owed it once, and afterwards the builder and
/// the built filter together owe it exactly once.
pub proof fn lemma_filter_build_releases_filter_once(
    before: FilterBuilder,
    after: FilterBuilder,
    filter: Filter,
)
    requires
        before.owns_filter(),
        !after.owns_filter(),
        filter.spec_handle() == before.spec_handle(),
    ensures
        times_released(before.releases(), Release::Filter(before.spec_handle())) == 1,
        times_released(
            after.releases() + filter.releases(),
            Release::Filter(before.spec_handle()),
        ) == 1,
{
    let r = Release::Filter(before.spec_handle());
    lemma_single_release(r);
    assert(after.releases() + filter.releases() =~= seq![r]);
}

} // verus!
