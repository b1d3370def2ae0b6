//! The laws of the server, stated and proved over the spec functions that the
//! executable functions' contracts use.

use vstd::prelude::*;

use crate::handler::spec_response;
use crate::message::{RequestView, ResponseView};
use crate::server::{
    spec_accept, spec_next_to_join, spec_stop, AcceptAction, AcceptEvent, CoreView,
};

verus! {

/// The responses owed to a sequence of requests, in order: one round trip per
/// request, no pipelining and no reordering.
pub open spec fn response_trace(reqs: Seq<RequestView>) -> Seq<Option<ResponseView>> {
    reqs.map_values(|r: RequestView| spec_response(r))
}

/// Law: the response to an echo request carries exactly the request's
/// content, whatever that content is.
pub proof fn lemma_echo_preserves_content(content: Seq<char>)
    ensures
        spec_response(RequestView::Echo(content)) == Some(ResponseView::Echo(content)),
{
}

/// Law: for operands whose exact sum is representable in 32 bits, the
/// response to an addition request carries exactly that sum.
pub proof fn lemma_add_exact(a: i32, b: i32)
    requires
        i32::MIN <= a + b <= i32::MAX,
    ensures
        spec_response(RequestView::Add(a, b)) matches Some(r) && r == ResponseView::Sum(
            (a + b) as i32,
        ),
{
}

/// Law: one connection's requests are answered one by one, in arrival order.
/// The trace of responses has exactly one slot per request — at most one
/// response is ever produced for a request — and the i-th slot answers the
/// i-th request.
pub proof fn lemma_one_response_per_request(reqs: Seq<RequestView>)
    ensures
        response_trace(reqs).len() == reqs.len(),
        forall|i: int|
            0 <= i < reqs.len() ==> response_trace(reqs)[i] == spec_response(reqs[i]),
{
}

/// Law: a sequence of echo requests served in order on one connection yields
/// exactly one response per request, in the same order, each carrying its own
/// request's content.
pub proof fn lemma_sequential_echoes(contents: Seq<Seq<char>>)
    ensures
        ({
            let trace = response_trace(
                contents.map_values(|c: Seq<char>| RequestView::Echo(c)),
            );
            &&& trace.len() == contents.len()
            &&& forall|i: int|
                0 <= i < contents.len() ==> trace[i] == Some(ResponseView::Echo(contents[i]))
        }),
{
}

/// One served request in an interleaved run of several connections: which
/// connection it arrived on, and the request itself.
pub ghost struct ServedRequest {
    pub connection: nat,
    pub request: RequestView,
}

/// The requests that one connection contributed to an interleaved run, in
/// arrival order.
pub open spec fn requests_on(run: Seq<ServedRequest>, k: nat) -> Seq<RequestView> {
    run.filter(|e: ServedRequest| e.connection == k).map_values(|e: ServedRequest| e.request)
}

/// One answered request in an interleaved run.
pub ghost struct ServedAnswer {
    pub connection: nat,
    pub response: Option<ResponseView>,
}

/// The responses an interleaved run sends back on one connection, in order:
/// each served request is answered where it arrived.
pub open spec fn responses_on(run: Seq<ServedRequest>, k: nat) -> Seq<Option<ResponseView>> {
    run.map_values(|e: ServedRequest| ServedAnswer { connection: e.connection, response: spec_response(e.request) })
        .filter(|p: ServedAnswer| p.connection == k)
        .map_values(|p: ServedAnswer| p.response)
}

/// Law: connections do not cross-talk. However the requests of independent
/// connections interleave, the responses sent on connection `k` are exactly
/// the trace of `k`'s own requests: other connections' traffic never shows up
/// in them, and never alters them.
pub proof fn lemma_no_cross_talk(run: Seq<ServedRequest>, k: nat)
    ensures
        responses_on(run, k) == response_trace(requests_on(run, k)),
    decreases run.len(),
{
    broadcast use vstd::seq_lib::group_seq_properties;

    let answer = |e: ServedRequest| ServedAnswer {
        connection: e.connection,
        response: spec_response(e.request),
    };
    let on_k = |e: ServedRequest| e.connection == k;
    let answer_on_k = |p: ServedAnswer| p.connection == k;
    if run.len() == 0 {
        assert(run.map_values(answer).len() == 0);
        assert(responses_on(run, k) =~= response_trace(requests_on(run, k)));
    } else {
        let rest = run.drop_last();
        let e = run.last();
        lemma_no_cross_talk(rest, k);
        assert(rest.push(e) =~= run);
        assert(run.map_values(answer) =~= rest.map_values(answer).push(answer(e)));
        rest.lemma_filter_push(e, on_k);
        rest.map_values(answer).lemma_filter_push(answer(e), answer_on_k);
        if e.connection == k {
            assert(run.map_values(answer).filter(answer_on_k) =~= rest.map_values(
                answer,
            ).filter(answer_on_k).push(answer(e)));
            assert(responses_on(run, k) =~= responses_on(rest, k).push(answer(e).response));
            assert(run.filter(on_k) =~= rest.filter(on_k).push(e));
            assert(requests_on(run, k) =~= requests_on(rest, k).push(e.request));
            assert(response_trace(requests_on(run, k)) =~= response_trace(requests_on(rest, k))
                .push(spec_response(e.request)));
        } else {
            assert(run.map_values(answer).filter(answer_on_k) =~= rest.map_values(
                answer,
            ).filter(answer_on_k));
            assert(responses_on(run, k) =~= responses_on(rest, k));
            assert(run.filter(on_k) =~= rest.filter(on_k));
            assert(requests_on(run, k) =~= requests_on(rest, k));
        }
    }
}

/// Law: stopping is idempotent. A second stop leaves the state exactly where
/// the first put it, so calling `stop` twice has the observable effect of
/// calling it once.
pub proof fn lemma_stop_idempotent(s: CoreView)
    ensures
        spec_stop(spec_stop(s)) == spec_stop(s),
{
}

/// Law: once stop is requested, no accept poll ever registers a connection
/// again. Whatever the poll observes, the state is unchanged and the accept
/// loop is told to stop and drain.
pub proof fn lemma_no_accept_after_stop(s: CoreView, event: AcceptEvent)
    ensures
        spec_accept(spec_stop(s), event).0 == spec_stop(s),
        spec_accept(spec_stop(s), event).1 == AcceptAction::StopAccepting,
{
}

/// The state once the shutdown drain has handed out every registered task.
pub open spec fn spec_drain(s: CoreView) -> CoreView
    decreases s.tasks.len(),
{
    if s.tasks.len() == 0 {
        s
    } else {
        spec_drain(spec_next_to_join(s).0)
    }
}

/// The task ids the shutdown drain hands out, in join order.
pub open spec fn drain_order(s: CoreView) -> Seq<u64>
    decreases s.tasks.len(),
{
    if s.tasks.len() == 0 {
        Seq::empty()
    } else {
        seq![s.tasks.last()] + drain_order(spec_next_to_join(s).0)
    }
}

/// Law: the shutdown drain terminates with an empty registry and touches
/// nothing else, so after `stop` the accept loop's drain brings the server to
/// a fully shut down state and `run` can return.
pub proof fn lemma_drain_completes_shutdown(s: CoreView)
    ensures
        spec_drain(spec_stop(s)).shutdown_complete(),
        spec_drain(s).tasks.len() == 0,
        spec_drain(s).running == s.running,
        spec_drain(s).next_task == s.next_task,
    decreases s.tasks.len(),
{
    if s.tasks.len() == 0 {
    } else {
        lemma_drain_completes_shutdown(spec_next_to_join(s).0);
        assert(spec_stop(s).tasks.len() != 0);
        assert(spec_next_to_join(spec_stop(s)).0 =~= spec_stop(spec_next_to_join(s).0));
        lemma_drain_completes_shutdown(spec_next_to_join(spec_stop(s)).0);
    }
}

/// Law: in a well-formed core no task id is ever registered twice, so a
/// drain that hands out each registered id hands each task out exactly once.
pub proof fn lemma_task_ids_unique(s: CoreView, i: int, j: int)
    requires
        s.wf(),
        0 <= i < s.tasks.len(),
        0 <= j < s.tasks.len(),
        i != j,
    ensures
        s.tasks[i] != s.tasks[j],
{
}

/// Law: the shutdown drain joins every registered task exactly once, most
/// recently spawned first; none is skipped and none is joined twice.
pub proof fn lemma_drain_joins_every_task(s: CoreView)
    ensures
        drain_order(s) == s.tasks.reverse(),
    decreases s.tasks.len(),
{
    if s.tasks.len() == 0 {
        assert(drain_order(s) =~= s.tasks.reverse());
    } else {
        lemma_drain_joins_every_task(spec_next_to_join(s).0);
        assert(drain_order(s) =~= seq![s.tasks.last()] + s.tasks.drop_last().reverse());
        assert(drain_order(s) =~= s.tasks.reverse());
    }
}

} // verus!
