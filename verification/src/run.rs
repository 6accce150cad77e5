//! Whole runs of a request: the steps that a sequence of events leads
//! through, and what holds of every such sequence.

use vstd::prelude::*;
use crate::atproto::CidView;
use crate::aws::{CacheParametersView, ObjectRefView};
use crate::manip::content_type_of;
use crate::errors::CdnErrorView;
use crate::route::{
    cached_at,
    fail,
    next,
    ActionView,
    EventView,
    ReadAnswerView,
    RequestView,
    StateView,
};
use crate::state::AppStateView;

verus! {

/// Where a request stands after the events, one step for each, when it began
/// in `start`.
pub open spec fn state_after(app: AppStateView, start: StateView, events: Seq<EventView>) -> StateView
    decreases events.len(),
{
    if events.len() == 0 {
        start
    } else {
        next(app, state_after(app, start, events.drop_last()), events.last()).0
    }
}

/// What the last of the events leads to, when the request began in `start`.
pub open spec fn action_after(app: AppStateView, start: StateView, events: Seq<EventView>) -> ActionView
    recommends
        events.len() > 0,
{
    next(app, state_after(app, start, events.drop_last()), events.last()).1
}

/// How far a request has come.
pub open spec fn stage(state: StateView) -> nat {
    match state {
        StateView::ResolveOrigin(_) => 0,
        StateView::CheckCache(_) => 1,
        StateView::Fetch(_) => 2,
        StateView::Decode(_) => 3,
        StateView::Transform(_) => 4,
        StateView::Store(_, _) => 5,
        StateView::Done => 6,
    }
}

/// The action calls on the origin or on the image codec.
pub open spec fn uses_origin_or_codec(action: ActionView) -> bool {
    action is FetchBlob || action is Decode || action is Transform
}

/// The event brings bytes from the origin that are the content that `cid`
/// names.
pub open spec fn is_verified_fetch(event: EventView, cid: CidView) -> bool {
    event matches EventView::Fetched(Ok(bytes)) && cid.names(bytes)
}

/// One of the events brought bytes from the origin that are the content that
/// `cid` names.
pub open spec fn fetched_verified(events: Seq<EventView>, cid: CidView) -> bool {
    exists|i: int| 0 <= i < events.len() && is_verified_fetch(#[trigger] events[i], cid)
}

/// The parameters are those of the request, at some origin.
pub open spec fn of_request(params: CacheParametersView, request: RequestView) -> bool {
    params == request.at(params.pds_endpoint)
}

/// The steps of a request follow one another in one order. Each action but a
/// failure comes from one state only and leads to one state only, a step
/// either moves one stage on or ends the request, and bytes are handed to the
/// decoder only if they are the content that the request names.
pub proof fn lemma_step_order(app: AppStateView, state: StateView, event: EventView)
    ensures
        ({
            let (after, action) = next(app, state, event);
            &&& after is Done || stage(after) == stage(state) + 1
            &&& !(action is Resolve)
            &&& action is ReadCache ==> state is ResolveOrigin && after is CheckCache
            &&& action is FetchBlob ==> state is CheckCache && after is Fetch
            &&& action is Decode ==> state is Fetch && after is Decode
            &&& action is Transform ==> state is Decode && after is Transform
            &&& action is WriteCache ==> state is Transform && after is Store
            &&& action is Respond ==> (state is CheckCache || state is Store) && after is Done
            &&& action is Fail ==> after is Done
            &&& state is Done ==> (after, action) == fail(CdnErrorView::ServerError)
            &&& action matches ActionView::Decode { bytes } ==> state matches StateView::Fetch(
                params,
            ) && params.cid.names(bytes) && event == EventView::Fetched(
                Ok::<Seq<u8>, Seq<char>>(bytes),
            )
        }),
{
}

/// A request never goes back a stage.
pub proof fn lemma_stage_monotone(
    app: AppStateView,
    start: StateView,
    events: Seq<EventView>,
    m: int,
    n: int,
)
    requires
        0 <= m <= n <= events.len(),
    ensures
        stage(state_after(app, start, events.take(m))) <= stage(
            state_after(app, start, events.take(n)),
        ),
    decreases n - m,
{
    if m < n {
        lemma_stage_monotone(app, start, events, m, n - 1);
        assert(events.take(n).drop_last() =~= events.take(n - 1));
        lemma_step_order(app, state_after(app, start, events.take(n - 1)), events.take(n).last());
    }
}

/// What is known of a request that began with `request`, at every point of
/// its run.
spec fn on_track(request: RequestView, state: StateView, events: Seq<EventView>) -> bool {
    match state {
        StateView::ResolveOrigin(r) => r == request,
        StateView::CheckCache(params) => of_request(params, request),
        StateView::Fetch(params) => of_request(params, request),
        StateView::Decode(params) => of_request(params, request) && fetched_verified(
            events,
            request.cid,
        ),
        StateView::Transform(params) => of_request(params, request) && fetched_verified(
            events,
            request.cid,
        ),
        StateView::Store(params, _) => of_request(params, request) && fetched_verified(
            events,
            request.cid,
        ),
        StateView::Done => true,
    }
}

/// A verified fetch among the events is still among them when one more has
/// arrived.
proof fn lemma_fetch_stays(events: Seq<EventView>, cid: CidView)
    requires
        events.len() > 0,
        fetched_verified(events.drop_last(), cid),
    ensures
        fetched_verified(events, cid),
{
    let before = events.drop_last();
    let i = choose|i: int| 0 <= i < before.len() && is_verified_fetch(#[trigger] before[i], cid);
    assert(events[i] == before[i]);
}

proof fn lemma_on_track(app: AppStateView, request: RequestView, events: Seq<EventView>)
    ensures
        on_track(request, state_after(app, StateView::ResolveOrigin(request), events), events),
    decreases events.len(),
{
    if events.len() > 0 {
        let before = events.drop_last();
        lemma_on_track(app, request, before);
        let state = state_after(app, StateView::ResolveOrigin(request), before);
        let after = next(app, state, events.last()).0;
        if fetched_verified(before, request.cid) {
            lemma_fetch_stays(events, request.cid);
        }
        if after is Decode {
            assert(is_verified_fetch(events[events.len() - 1], request.cid));
        }
    }
}

/// Nothing is decoded, transformed, cached or served that did not pass the
/// integrity check.
///
/// Whatever events arrive for a request: if the last of them leads to the
/// decoder, the codec or a cache write, then one of them brought bytes from
/// the origin that are the content the request names; the bytes handed to
/// the decoder are such bytes; and a blob is served only out of the cache or
/// after such a fetch.
pub proof fn lemma_integrity_enforced(
    app: AppStateView,
    request: RequestView,
    events: Seq<EventView>,
)
    requires
        events.len() > 0,
    ensures
        ({
            let action = action_after(app, StateView::ResolveOrigin(request), events);
            &&& action is Decode || action is Transform || action is WriteCache
                ==> fetched_verified(events, request.cid)
            &&& action matches ActionView::Decode { bytes } ==> request.cid.names(bytes)
            &&& action is Respond ==> events.last() is CacheRead || fetched_verified(
                events,
                request.cid,
            )
        }),
{
    let before = events.drop_last();
    let state = state_after(app, StateView::ResolveOrigin(request), before);
    lemma_on_track(app, request, before);
    lemma_on_track(app, request, events);
    lemma_step_order(app, state, events.last());
    if fetched_verified(before, request.cid) {
        lemma_fetch_stays(events, request.cid);
    }
}

/// Bytes that are not the content the request names end the request: the
/// step that receives them fails with `IntegrityMismatch`, and every later
/// step fails too, so that nothing is transformed or cached.
pub proof fn lemma_mismatch_ends_request(
    app: AppStateView,
    request: RequestView,
    events: Seq<EventView>,
    at: int,
)
    requires
        0 <= at < events.len(),
        state_after(app, StateView::ResolveOrigin(request), events.take(at)) is Fetch,
        events[at] matches EventView::Fetched(Ok(bytes)) && !request.cid.names(bytes),
    ensures
        action_after(app, StateView::ResolveOrigin(request), events.take(at + 1))
            == ActionView::Fail(CdnErrorView::IntegrityMismatch),
        forall|n: int|
            at < n <= events.len() ==> #[trigger] action_after(
                app,
                StateView::ResolveOrigin(request),
                events.take(n),
            ) is Fail,
{
    let start = StateView::ResolveOrigin(request);
    lemma_on_track(app, request, events.take(at));
    assert(events.take(at + 1).drop_last() =~= events.take(at));
    assert(events.take(at + 1).last() == events[at]);
    assert(state_after(app, start, events.take(at + 1)) is Done);
    assert forall|n: int| at < n <= events.len() implies #[trigger] action_after(
        app,
        start,
        events.take(n),
    ) is Fail by {
        if n > at + 1 {
            lemma_stage_monotone(app, start, events, at + 1, n - 1);
            assert(events.take(n).drop_last() =~= events.take(n - 1));
            lemma_step_order(app, state_after(app, start, events.take(n - 1)), events.take(n).last());
        }
    }
}

/// A cache hit bypasses the origin and the codec.
///
/// If the cache read of a request finds the blob, then no step of the
/// request, before or after, asks for a fetch, for decoding or for a
/// transform, and none writes to the cache.
pub proof fn lemma_hit_bypasses_origin(
    app: AppStateView,
    request: RequestView,
    events: Seq<EventView>,
    hit: int,
)
    requires
        0 <= hit < events.len(),
        state_after(app, StateView::ResolveOrigin(request), events.take(hit)) is CheckCache,
        events[hit] matches EventView::CacheRead(ReadAnswerView::Body(_)),
    ensures
        forall|n: int|
            1 <= n <= events.len() ==> {
                let action = #[trigger] action_after(
                    app,
                    StateView::ResolveOrigin(request),
                    events.take(n),
                );
                !uses_origin_or_codec(action) && !(action is WriteCache)
            },
{
    let start = StateView::ResolveOrigin(request);
    assert(events.take(hit + 1).drop_last() =~= events.take(hit));
    assert(events.take(hit + 1).last() == events[hit]);
    assert(state_after(app, start, events.take(hit + 1)) is Done);
    assert forall|n: int| 1 <= n <= events.len() implies {
        let action = #[trigger] action_after(app, start, events.take(n));
        !uses_origin_or_codec(action) && !(action is WriteCache)
    } by {
        assert(events.take(n).drop_last() =~= events.take(n - 1));
        let state = state_after(app, start, events.take(n - 1));
        lemma_step_order(app, state, events.take(n).last());
        if n <= hit {
            lemma_stage_monotone(app, start, events, n, hit);
        } else if n > hit + 1 {
            lemma_stage_monotone(app, start, events, hit + 1, n - 1);
        }
    }
}

/// After a miss, the blob that is served is the blob that was written to the
/// cache, and both are the bytes that the codec handed back, unchanged; it is
/// served with the MIME type of the requested format, whether the write
/// succeeded or not.
pub proof fn lemma_miss_serves_what_it_stores(
    app: AppStateView,
    params: CacheParametersView,
    blob: Seq<u8>,
    written: Result<(), Seq<char>>,
)
    ensures
        ({
            let (storing, write) = next(
                app,
                StateView::Transform(params),
                EventView::Transformed(Ok(blob)),
            );
            let (done, respond) = next(app, storing, EventView::Stored(written));
            &&& write == ActionView::WriteCache { object: cached_at(app, params), blob }
            &&& done is Done
            &&& respond matches ActionView::Respond { blob: served, content_type, warning }
            &&& served == blob
            &&& content_type == params.format.mime_type()
            &&& warning.is_some() == written.is_err()
        }),
{
}

/// A cache that cannot be read is no miss: the request ends in
/// `StorageReadFailed`, which is reported as an internal error, and nothing
/// is fetched. Only the answer that there is no such key leads to the
/// origin.
pub proof fn lemma_read_failure_is_no_miss(
    app: AppStateView,
    params: CacheParametersView,
    answer: ReadAnswerView,
)
    ensures
        answer is Failed || answer is BodyUnreadable ==> next(
            app,
            StateView::CheckCache(params),
            EventView::CacheRead(answer),
        ) == fail(CdnErrorView::StorageReadFailed) && CdnErrorView::StorageReadFailed.status()
            == 500,
        next(app, StateView::CheckCache(params), EventView::CacheRead(answer)).1 is FetchBlob
            <==> answer is NoSuchKey,
{
}

/// A blob is written where it is looked for: the cache read and the cache
/// write of a request name the same object, and so do those of any two
/// requests for the same preset, actor, content and format, whatever origin
/// each was resolved to.
pub proof fn lemma_written_where_read(
    app: AppStateView,
    request: RequestView,
    endpoint1: Seq<char>,
    endpoint2: Seq<char>,
    blob: Seq<u8>,
)
    ensures
        next(
            app,
            StateView::ResolveOrigin(request),
            EventView::Resolved(Ok(Some(endpoint1))),
        ).1 == ActionView::ReadCache(cached_at(app, request.at(endpoint1))),
        next(
            app,
            StateView::Transform(request.at(endpoint2)),
            EventView::Transformed(Ok(blob)),
        ).1 == (ActionView::WriteCache { object: cached_at(app, request.at(endpoint2)), blob }),
        cached_at(app, request.at(endpoint1)) == cached_at(app, request.at(endpoint2)),
{
}

/// What an object store that keeps what was written answers to a read.
pub open spec fn read_from(store: Map<ObjectRefView, Seq<u8>>, object: ObjectRefView) -> ReadAnswerView {
    if store.dom().contains(object) {
        ReadAnswerView::Body(store[object])
    } else {
        ReadAnswerView::NoSuchKey
    }
}

/// What is cached is found again. Once the blob of a request was written to
/// a store that keeps what is written, the cache read of a request for the
/// same preset, actor, content and format finds these bytes unchanged,
/// whatever origin either request resolved to, and the pipeline answers with
/// them; only bytes that do not announce an image format are refused.
pub proof fn lemma_round_trip(
    app: AppStateView,
    store: Map<ObjectRefView, Seq<u8>>,
    request: RequestView,
    endpoint1: Seq<char>,
    endpoint2: Seq<char>,
    blob: Seq<u8>,
)
    ensures
        ({
            let write = next(
                app,
                StateView::Transform(request.at(endpoint1)),
                EventView::Transformed(Ok(blob)),
            ).1;
            let (reading, read) = next(
                app,
                StateView::ResolveOrigin(request),
                EventView::Resolved(Ok(Some(endpoint2))),
            );
            &&& write matches ActionView::WriteCache { object: written, blob: kept }
            &&& read matches ActionView::ReadCache(wanted)
            &&& read_from(store.insert(written, kept), wanted) == ReadAnswerView::Body(blob)
            &&& next(app, reading, EventView::CacheRead(ReadAnswerView::Body(blob)))
                == match content_type_of(blob) {
                Ok(content_type) => (
                    StateView::Done,
                    ActionView::Respond { blob, content_type, warning: None },
                ),
                Err(e) => fail(e),
            }
        }),
{
}

/// The two sets of parameters name the same blob: they agree in all but
/// the origin.
pub open spec fn same_blob(p: CacheParametersView, q: CacheParametersView) -> bool {
    p.preset == q.preset && p.did == q.did && p.cid == q.cid && p.format == q.format
}

/// Two events that tell the same, but for the origin endpoint that the actor
/// resolved to and for the outcome of the cache write.
pub open spec fn alike_events(e1: EventView, e2: EventView) -> bool {
    ||| e1 == e2
    ||| e1 matches EventView::Resolved(Ok(Some(_))) && e2 matches EventView::Resolved(Ok(Some(_)))
    ||| e1 is Stored && e2 is Stored
}

/// Two states of requests for the same blob, at the same stage.
pub open spec fn alike_states(s1: StateView, s2: StateView) -> bool {
    match (s1, s2) {
        (StateView::ResolveOrigin(r1), StateView::ResolveOrigin(r2)) => r1 == r2,
        (StateView::CheckCache(p), StateView::CheckCache(q)) => same_blob(p, q),
        (StateView::Fetch(p), StateView::Fetch(q)) => same_blob(p, q),
        (StateView::Decode(p), StateView::Decode(q)) => same_blob(p, q),
        (StateView::Transform(p), StateView::Transform(q)) => same_blob(p, q),
        (StateView::Store(p, blob1), StateView::Store(q, blob2)) => same_blob(p, q) && blob1
            == blob2,
        (StateView::Done, StateView::Done) => true,
        _ => false,
    }
}

/// Two actions that ask for the same: equal actions, fetches of the same
/// blob of the same actor, or responses with the same blob and content type.
pub open spec fn alike_actions(a1: ActionView, a2: ActionView) -> bool {
    match (a1, a2) {
        (
            ActionView::FetchBlob { endpoint: _, did: did1, cid: cid1 },
            ActionView::FetchBlob { endpoint: _, did: did2, cid: cid2 },
        ) => did1 == did2 && cid1 == cid2,
        (
            ActionView::Respond { blob: blob1, content_type: type1, warning: _ },
            ActionView::Respond { blob: blob2, content_type: type2, warning: _ },
        ) => blob1 == blob2 && type1 == type2,
        _ => a1 == a2,
    }
}

/// One step of two requests for the same blob that receive like events asks
/// for the same and leaves them at the same stage.
pub proof fn lemma_step_alike(
    app: AppStateView,
    s1: StateView,
    e1: EventView,
    s2: StateView,
    e2: EventView,
)
    requires
        alike_states(s1, s2),
        alike_events(e1, e2),
    ensures
        alike_states(next(app, s1, e1).0, next(app, s2, e2).0),
        alike_actions(next(app, s1, e1).1, next(app, s2, e2).1),
{
}

proof fn lemma_states_alike(
    app: AppStateView,
    request: RequestView,
    events1: Seq<EventView>,
    events2: Seq<EventView>,
)
    requires
        events1.len() == events2.len(),
        forall|i: int| 0 <= i < events1.len() ==> alike_events(events1[i], events2[i]),
    ensures
        alike_states(
            state_after(app, StateView::ResolveOrigin(request), events1),
            state_after(app, StateView::ResolveOrigin(request), events2),
        ),
    decreases events1.len(),
{
    if events1.len() > 0 {
        let start = StateView::ResolveOrigin(request);
        lemma_states_alike(app, request, events1.drop_last(), events2.drop_last());
        lemma_step_alike(
            app,
            state_after(app, start, events1.drop_last()),
            events1.last(),
            state_after(app, start, events2.drop_last()),
            events2.last(),
        );
    }
}

/// Runs are repeatable. Two runs for the same preset, actor, content and
/// format in which the directory, the cache, the origin and the codec answer
/// alike ask for the same at every step: the same transform, the same blob
/// written under the same key, the same blob served with the same content
/// type. Neither the origin endpoint that the actor resolved to nor the
/// outcome of the cache write has a part in it.
pub proof fn lemma_runs_are_repeatable(
    app: AppStateView,
    request: RequestView,
    events1: Seq<EventView>,
    events2: Seq<EventView>,
)
    requires
        events1.len() == events2.len(),
        events1.len() > 0,
        forall|i: int| 0 <= i < events1.len() ==> alike_events(events1[i], events2[i]),
    ensures
        alike_actions(
            action_after(app, StateView::ResolveOrigin(request), events1),
            action_after(app, StateView::ResolveOrigin(request), events2),
        ),
{
    let start = StateView::ResolveOrigin(request);
    lemma_states_alike(app, request, events1.drop_last(), events2.drop_last());
    lemma_step_alike(
        app,
        state_after(app, start, events1.drop_last()),
        events1.last(),
        state_after(app, start, events2.drop_last()),
        events2.last(),
    );
}

} // verus!
