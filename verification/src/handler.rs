use vstd::prelude::*;

verus! {

/// The status reported for an invocation that ran to its end.
pub const SUCCESS_STATUS: u32 = 200;

/// What the platform gets back from a successful invocation.
pub struct ObjectLambdaResponse {
    pub status_code: u32,
}

/// The part of an invocation's payload that names the source and the
/// destination. A field that the payload lacks is `None`.
pub struct GetObjectContext {
    pub input_s3_url: Option<String>,
    pub output_route: Option<String>,
    pub output_token: Option<String>,
}

/// An invocation's payload, as far as the handler reads it.
pub struct Invocation {
    pub get_object_context: Option<GetObjectContext>,
}

/// Where the filtered content goes.
pub struct WriteTarget {
    pub route: String,
    pub token: String,
}

/// Why an invocation was given up.
#[derive(Clone, Copy, PartialEq, Eq, Structural, Debug)]
pub enum Failure {
    /// The payload lacks its context or one of the context's fields.
    ConfigurationMissing,
    /// The source could not be fetched.
    FetchFailure,
    /// The write to the destination failed, be it at the sink or because the
    /// stream it was reading broke off.
    SinkFailure,
}

/// What the handler learns, one event at a time.
pub enum Event {
    /// An invocation came in.
    Invoked(Invocation),
    /// The fetch that was asked for returned; `target` is the one that was
    /// handed out with the request.
    Fetched { target: WriteTarget, ok: bool },
    /// The write that was asked for returned.
    Written { ok: bool },
}

/// What the handler asks for next.
pub enum Action {
    /// Fetch `url` as a stream of chunks, and keep `target` for the write.
    Fetch { url: String, target: WriteTarget },
    /// Write the fetched stream, filtered, to `target` as one body.
    Write { target: WriteTarget },
    /// Report success to the platform.
    Succeed(ObjectLambdaResponse),
    /// Report the failure to the platform.
    Abort(Failure),
}

/// The handler's rule. An invocation with a complete context asks for the
/// fetch, any other is given up. A fetch that worked asks for the write, one
/// that failed ends the invocation. A write that worked ends it with
/// success, one that failed with a failure. Nothing is tried twice.
pub open spec fn decided(event: Event) -> Action {
    match event {
        Event::Invoked(invocation) => match invocation.get_object_context {
            Some(context) => match (
                context.input_s3_url,
                context.output_route,
                context.output_token,
            ) {
                (Some(url), Some(route), Some(token)) => Action::Fetch {
                    url,
                    target: WriteTarget { route, token },
                },
                _ => Action::Abort(Failure::ConfigurationMissing),
            },
            None => Action::Abort(Failure::ConfigurationMissing),
        },
        Event::Fetched { target, ok } => if ok {
            Action::Write { target }
        } else {
            Action::Abort(Failure::FetchFailure)
        },
        Event::Written { ok } => if ok {
            Action::Succeed(ObjectLambdaResponse { status_code: SUCCESS_STATUS })
        } else {
            Action::Abort(Failure::SinkFailure)
        },
    }
}

/// Decides what to do on `event`.
pub fn next_action(event: Event) -> (action: Action)
    ensures
        action == decided(event),
{
    match event {
        Event::Invoked(invocation) => match invocation.get_object_context {
            Some(context) => match (
                context.input_s3_url,
                context.output_route,
                context.output_token,
            ) {
                (Some(url), Some(route), Some(token)) => Action::Fetch {
                    url,
                    target: WriteTarget { route, token },
                },
                _ => Action::Abort(Failure::ConfigurationMissing),
            },
            None => Action::Abort(Failure::ConfigurationMissing),
        },
        Event::Fetched { target, ok } => if ok {
            Action::Write { target }
        } else {
            Action::Abort(Failure::FetchFailure)
        },
        Event::Written { ok } => if ok {
            Action::Succeed(ObjectLambdaResponse { status_code: SUCCESS_STATUS })
        } else {
            Action::Abort(Failure::SinkFailure)
        },
    }
}

/// Whether `event` is the return of the call that `action` asked for. The
/// return of a fetch brings back the target that went out with the request.
/// Nothing follows an action that ends the invocation.
pub open spec fn answers(action: Action, event: Event) -> bool {
    match action {
        Action::Fetch { url, target } => event matches Event::Fetched { target: returned, ok }
            && returned == target,
        Action::Write { target } => event is Written,
        Action::Succeed(_) => false,
        Action::Abort(_) => false,
    }
}

/// The events of one invocation, in order: the invocation itself, then the
/// return of every call that the handler asked for.
pub open spec fn is_run(events: Seq<Event>) -> bool {
    &&& events.len() > 0
    &&& events[0] is Invoked
    &&& forall|i: int|
        1 <= i < events.len() ==> answers(decided(events[i - 1]), #[trigger] events[i])
}

/// How many writes to the sink the handler asks for over `events`.
pub open spec fn writes(events: Seq<Event>) -> nat
    decreases events.len(),
{
    if events.len() == 0 {
        0
    } else if decided(events.last()) is Write {
        writes(events.drop_last()) + 1
    } else {
        writes(events.drop_last())
    }
}

/// Whether the fetch of a run returned, and with which outcome.
pub open spec fn fetch_returned(events: Seq<Event>, outcome: bool) -> bool {
    exists|i: int| 0 <= i < events.len() && (#[trigger] events[i] matches Event::Fetched { ok, .. }
        && ok == outcome)
}

/// A run has at most three events: the invocation, the return of the fetch
/// and the return of the write, in this order.
pub proof fn lemma_run_shape(events: Seq<Event>)
    requires
        is_run(events),
    ensures
        events.len() <= 3,
        events.len() >= 2 ==> events[1] is Fetched,
        events.len() >= 3 ==> events[2] is Written && (events[1] matches Event::Fetched {
            ok,
            ..
        } && ok),
{
    if events.len() >= 4 {
        assert(answers(decided(events[2]), events[3]));
    }
}

/// Whether `events` has the shape of a run.
pub open spec fn run_shaped(events: Seq<Event>) -> bool {
    &&& 1 <= events.len() <= 3
    &&& events[0] is Invoked
    &&& events.len() >= 2 ==> events[1] is Fetched
    &&& events.len() >= 3 ==> events[2] is Written
}

/// Counting the writes of events in the shape of a run: only the return of
/// a fetch that worked asks for one.
proof fn lemma_writes_by_shape(events: Seq<Event>)
    requires
        run_shaped(events),
    ensures
        writes(events) == if events.len() >= 2 && decided(events[1]) is Write {
            1nat
        } else {
            0nat
        },
{
    let none = Seq::<Event>::empty();
    let first = events.take(1);
    let second = events.take(2);
    assert(writes(none) == 0);
    assert(first.drop_last() == none);
    assert(writes(first) == 0);
    if events.len() == 1 {
        assert(events == first);
    } else {
        assert(second.drop_last() == first);
        assert(writes(second) == if decided(events[1]) is Write {
            1nat
        } else {
            0nat
        });
    }
}

/// The writes of a run: one if its fetch returned with success, else none.
pub proof fn lemma_run_writes(events: Seq<Event>)
    requires
        is_run(events),
    ensures
        writes(events) == if fetch_returned(events, true) {
            1nat
        } else {
            0nat
        },
{
    lemma_run_shape(events);
    lemma_writes_by_shape(events);
}

/// A fetch that fails is the end of it: the handler asks for no write.
pub proof fn lemma_failed_fetch_never_writes(events: Seq<Event>)
    requires
        is_run(events),
        fetch_returned(events, false),
    ensures
        writes(events) == 0,
{
    lemma_run_shape(events);
    lemma_run_writes(events);
}

/// An invocation that ends in success has asked for exactly one write, and
/// no invocation asks for more than one.
pub proof fn lemma_one_write_per_invocation(events: Seq<Event>)
    requires
        is_run(events),
    ensures
        writes(events) <= 1,
        decided(events.last()) is Succeed ==> writes(events) == 1,
{
    lemma_run_shape(events);
    lemma_run_writes(events);
}

} // verus!
