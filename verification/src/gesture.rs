//! The transactional protocol for a parameter edit driven from the control
//! surface: begin, zero or more value updates, end.
//!
//! The host needs an explicit window — not per-update timestamps — to group
//! a drag into one automation event, so every edit must reach the parameter
//! sink as exactly `begin, update*, end`, never an update outside that
//! bracket and never two opens without a close. The protocol is enforced
//! structurally: `begin` is the only way to obtain a [`GestureToken`], and
//! `end` consumes it.

use vstd::prelude::*;

verus! {

/// Identity of one host-owned parameter. The host assigns the number; it is
/// stable for the life of the session.
#[derive(Clone, Copy, PartialEq, Eq, Structural, Debug)]
pub struct ParamHandle {
    pub id: u32,
}

/// A value carried by an update: a switch position, or a ranged level in
/// thousandths of the parameter's unit (fixed point, so that the bridge's
/// arithmetic is exact).
#[derive(Clone, Copy, PartialEq, Eq, Structural, Debug)]
pub enum ParamValue {
    Toggle(bool),
    Level(i64),
}

/// One call observed by the parameter sink.
#[derive(Clone, Copy, PartialEq, Eq, Structural, Debug)]
pub enum GestureEvent {
    Begin(ParamHandle),
    Update(ParamHandle, ParamValue),
    End(ParamHandle),
}

/// Where one more event takes the protocol from a given state. The state is
/// the handle of the gesture now open, if any; `None` as a result marks a
/// protocol violation.
pub open spec fn gesture_step(state: Option<ParamHandle>, event: GestureEvent) -> Option<
    Option<ParamHandle>,
> {
    match state {
        Option::None => match event {
            GestureEvent::Begin(handle) => Option::Some(Option::Some(handle)),
            _ => Option::None,
        },
        Option::Some(open) => match event {
            GestureEvent::Begin(_) => Option::None,
            GestureEvent::Update(handle, _) => if handle == open {
                Option::Some(Option::Some(open))
            } else {
                Option::None
            },
            GestureEvent::End(handle) => if handle == open {
                Option::Some(Option::None)
            } else {
                Option::None
            },
        },
    }
}

/// Runs the protocol over a whole event log, starting with no gesture open.
/// `Some(state)` gives the gesture still open after the log; `None` means
/// the log violates the protocol somewhere.
pub open spec fn gesture_cursor(events: Seq<GestureEvent>) -> Option<Option<ParamHandle>>
    decreases events.len(),
{
    if events.len() == 0 {
        Option::Some(Option::None)
    } else {
        match gesture_cursor(events.drop_last()) {
            Option::None => Option::None,
            Option::Some(state) => gesture_step(state, events.last()),
        }
    }
}

/// A log is well formed exactly when it parses as complete
/// begin/update*/end brackets, followed by the still-open bracket of
/// `open`, if any.
pub open spec fn sink_wf(events: Seq<GestureEvent>, open: Option<ParamHandle>) -> bool {
    gesture_cursor(events) == Option::Some(open)
}

/// The bracket one complete edit appends to the log: begin, the given
/// updates in order, end — all on one handle.
pub open spec fn gesture_bracket(handle: ParamHandle, updates: Seq<ParamValue>) -> Seq<
    GestureEvent,
> {
    seq![GestureEvent::Begin(handle)] + updates.map(
        |i: int, value: ParamValue| GestureEvent::Update(handle, value),
    ) + seq![GestureEvent::End(handle)]
}

/// Proof that pushing one event advances the cursor by one protocol step.
pub proof fn lemma_cursor_push(events: Seq<GestureEvent>, event: GestureEvent)
    ensures
        gesture_cursor(events.push(event)) == (match gesture_cursor(events) {
            Option::None => Option::None::<Option<ParamHandle>>,
            Option::Some(state) => gesture_step(state, event),
        }),
{
    assert(events.push(event).drop_last() =~= events);
    assert(events.push(event).last() == event);
}

/// Law (gesture pairing): one complete edit — begin, any number of updates,
/// end, all on one handle — appended to a well-formed log with no open
/// gesture leaves a well-formed log with no open gesture.
pub proof fn lemma_gesture_pairing(
    events: Seq<GestureEvent>,
    handle: ParamHandle,
    updates: Seq<ParamValue>,
)
    requires
        sink_wf(events, Option::None),
    ensures
        sink_wf(events + gesture_bracket(handle, updates), Option::None),
    decreases updates.len(),
{
    if updates.len() == 0 {
        let opened = events.push(GestureEvent::Begin(handle));
        lemma_cursor_push(events, GestureEvent::Begin(handle));
        lemma_cursor_push(opened, GestureEvent::End(handle));
        assert(events + gesture_bracket(handle, updates) =~= opened.push(
            GestureEvent::End(handle),
        ));
    } else {
        let shorter = updates.drop_last();
        lemma_gesture_pairing(events, handle, shorter);
        let closed = events + gesture_bracket(handle, shorter);
        // Splice the last update in just before the closing end.
        let spliced = closed.drop_last().push(
            GestureEvent::Update(handle, updates.last()),
        ).push(GestureEvent::End(handle));
        lemma_cursor_push(closed.drop_last(), GestureEvent::Update(handle, updates.last()));
        lemma_cursor_push(
            closed.drop_last().push(GestureEvent::Update(handle, updates.last())),
            GestureEvent::End(handle),
        );
        assert(closed.last() == GestureEvent::End(handle));
        assert(gesture_cursor(closed.drop_last()) == Option::Some(Option::Some(handle)));
        assert(events + gesture_bracket(handle, updates) =~= spliced);
    }
}

/// Proof that a parseable log parses at every prefix, and that consecutive
/// prefixes are one protocol step apart.
pub proof fn lemma_cursor_step_at(events: Seq<GestureEvent>, i: int)
    requires
        gesture_cursor(events) is Some,
        0 <= i < events.len(),
    ensures
        gesture_cursor(events.take(i)) is Some,
        gesture_cursor(events.take(i + 1)) == gesture_step(
            gesture_cursor(events.take(i))->0,
            events[i],
        ),
        gesture_cursor(events.take(i + 1)) is Some,
    decreases events.len(),
{
    assert(gesture_cursor(events.drop_last()) is Some);
    if i == events.len() - 1 {
        assert(events.take(i) =~= events.drop_last());
        assert(events.take(i + 1) =~= events);
    } else {
        lemma_cursor_step_at(events.drop_last(), i);
        assert(events.drop_last().take(i) =~= events.take(i));
        assert(events.drop_last().take(i + 1) =~= events.take(i + 1));
    }
}

/// Law (no update outside a bracket): in a well-formed log, an update on a
/// handle can only occur while the gesture on that same handle is open.
pub proof fn lemma_update_inside_bracket(
    events: Seq<GestureEvent>,
    open: Option<ParamHandle>,
    i: int,
    handle: ParamHandle,
    value: ParamValue,
)
    requires
        sink_wf(events, open),
        0 <= i < events.len(),
        events[i] == GestureEvent::Update(handle, value),
    ensures
        gesture_cursor(events.take(i)) == Option::Some(Option::Some(handle)),
{
    lemma_cursor_step_at(events, i);
}

/// Law (no nested begin): in a well-formed log, a begin can only occur
/// while no gesture is open — never two begins without an intervening end.
pub proof fn lemma_begin_not_nested(
    events: Seq<GestureEvent>,
    open: Option<ParamHandle>,
    i: int,
    handle: ParamHandle,
)
    requires
        sink_wf(events, open),
        0 <= i < events.len(),
        events[i] == GestureEvent::Begin(handle),
    ensures
        gesture_cursor(events.take(i)) == Option::Some(Option::None::<ParamHandle>),
{
    lemma_cursor_step_at(events, i);
}

/// Law (end closes its own bracket): in a well-formed log, an end on a
/// handle can only occur while the gesture on that same handle is open, so
/// begin and end pair one to one.
pub proof fn lemma_end_matches_open(
    events: Seq<GestureEvent>,
    open: Option<ParamHandle>,
    i: int,
    handle: ParamHandle,
)
    requires
        sink_wf(events, open),
        0 <= i < events.len(),
        events[i] == GestureEvent::End(handle),
    ensures
        gesture_cursor(events.take(i)) == Option::Some(Option::Some(handle)),
{
    lemma_cursor_step_at(events, i);
}

/// The parameter sink as the host observes it: the ordered log of gesture
/// calls issued by the control surface, plus the gesture now open, if any.
/// Every reachable log is well formed — each method requires and preserves
/// [`ParamSink::wf`].
pub struct ParamSink {
    events: Vec<GestureEvent>,
    open: Option<ParamHandle>,
}

impl View for ParamSink {
    type V = Seq<GestureEvent>;

    /// The abstract state: the calls observed so far, in order.
    closed spec fn view(&self) -> Seq<GestureEvent> {
        self.events@
    }
}

/// Witness that a gesture is open on one handle: only [`ParamSink::begin`]
/// constructs it, and [`ParamSink::end`] consumes it, so an edit that type
/// checks is bracketed correctly by construction.
pub struct GestureToken {
    handle: ParamHandle,
}

impl GestureToken {
    /// The handle the open gesture edits.
    pub closed spec fn handle(&self) -> ParamHandle {
        self.handle
    }

    /// The handle the open gesture edits.
    pub fn param(&self) -> (handle: ParamHandle)
        ensures
            handle == self.handle(),
    {
        self.handle
    }
}

impl ParamSink {
    /// The gesture now open, if any.
    pub closed spec fn open_gesture(&self) -> Option<ParamHandle> {
        self.open
    }

    /// The sink's invariant: its log obeys the protocol and its open slot
    /// matches the log.
    pub open spec fn wf(&self) -> bool {
        sink_wf(self@, self.open_gesture())
    }

    /// A sink that has observed nothing.
    pub fn new() -> (sink: Self)
        ensures
            sink@ == Seq::<GestureEvent>::empty(),
            sink.open_gesture() is None,
            sink.wf(),
    {
        ParamSink { events: Vec::new(), open: Option::None }
    }

    /// The calls observed so far, in order.
    pub fn events(&self) -> (log: &Vec<GestureEvent>)
        ensures
            log@ == self@,
    {
        &self.events
    }

    /// Opens an edit on `handle`: the host marks the parameter as being
    /// edited, so the updates that follow land in one automation window.
    pub fn begin(&mut self, handle: ParamHandle) -> (token: GestureToken)
        requires
            old(self).wf(),
            old(self).open_gesture() is None,
        ensures
            final(self)@ == old(self)@.push(GestureEvent::Begin(handle)),
            final(self).open_gesture() == Option::Some(handle),
            final(self).wf(),
            token.handle() == handle,
    {
        proof {
            lemma_cursor_push(self@, GestureEvent::Begin(handle));
        }
        self.events.push(GestureEvent::Begin(handle));
        self.open = Option::Some(handle);
        GestureToken { handle }
    }

    /// Signals an intermediate or final value during the open edit. The
    /// caller clamps the value to the parameter's declared range before
    /// this call; the sink records whatever it is handed.
    pub fn update(&mut self, token: &GestureToken, value: ParamValue)
        requires
            old(self).wf(),
            old(self).open_gesture() == Option::Some(token.handle()),
        ensures
            final(self)@ == old(self)@.push(GestureEvent::Update(token.handle(), value)),
            final(self).open_gesture() == Option::Some(token.handle()),
            final(self).wf(),
    {
        proof {
            lemma_cursor_push(self@, GestureEvent::Update(token.handle(), value));
        }
        self.events.push(GestureEvent::Update(token.param(), value));
    }

    /// Closes the edit: the host closes the automation window for this
    /// parameter. Consumes the token, so the gesture cannot be reused.
    pub fn end(&mut self, token: GestureToken)
        requires
            old(self).wf(),
            old(self).open_gesture() == Option::Some(token.handle()),
        ensures
            final(self)@ == old(self)@.push(GestureEvent::End(token.handle())),
            final(self).open_gesture() is None,
            final(self).wf(),
    {
        proof {
            lemma_cursor_push(self@, GestureEvent::End(token.handle()));
        }
        self.events.push(GestureEvent::End(token.param()));
        self.open = Option::None;
    }
}

} // verus!
