//! The two control widgets of the surface: a boolean toggle and a ranged
//! slider. Each reads the authoritative current value from the parameter
//! store, and on user interaction emits one complete gesture — begin, the
//! value updates, end — within the same input-handling pass, so no gesture
//! is ever left open across render passes.

use vstd::prelude::*;
use crate::gesture::GestureEvent;
use crate::gesture::ParamHandle;
use crate::gesture::ParamSink;
use crate::gesture::ParamValue;
use crate::gesture::gesture_bracket;

verus! {

/// The events one toggle activation sends: a complete gesture carrying the
/// flipped value.
pub open spec fn toggle_bracket(handle: ParamHandle, new_value: bool) -> Seq<GestureEvent> {
    gesture_bracket(handle, seq![ParamValue::Toggle(new_value)])
}

/// A boolean control bound to one parameter. It holds no value of its own:
/// the current state is read from the store each pass, so the display never
/// drifts when automation changes the parameter concurrently.
pub struct ToggleControl {
    handle: ParamHandle,
}

impl ToggleControl {
    /// The parameter this control edits.
    pub closed spec fn handle(&self) -> ParamHandle {
        self.handle
    }

    /// A toggle bound to `handle`.
    pub fn new(handle: ParamHandle) -> (control: Self)
        ensures
            control.handle() == handle,
    {
        ToggleControl { handle }
    }

    /// The parameter this control edits.
    pub fn param(&self) -> (handle: ParamHandle)
        ensures
            handle == self.handle(),
    {
        self.handle
    }

    /// One discrete activation (a click): flips the current value and sends
    /// it to the sink as one complete gesture, then returns the new value
    /// for local display.
    pub fn activate(&self, sink: &mut ParamSink, current: bool) -> (new_value: bool)
        requires
            old(sink).wf(),
            old(sink).open_gesture() is None,
        ensures
            new_value == !current,
            final(sink)@ == old(sink)@ + toggle_bracket(self.handle(), !current),
            final(sink).open_gesture() is None,
            final(sink).wf(),
    {
        let new_value = !current;
        let token = sink.begin(self.handle);
        sink.update(&token, ParamValue::Toggle(new_value));
        sink.end(token);
        proof {
            assert(final(sink)@ =~= old(sink)@ + toggle_bracket(self.handle(), new_value));
        }
        new_value
    }

    /// One render pass: when the pass carries an activation, emits the
    /// complete gesture and returns the new value; otherwise touches
    /// nothing and returns `None`, leaving the display to the store's
    /// current value.
    pub fn render(&self, sink: &mut ParamSink, current: bool, activated: bool) -> (new_value:
        Option<bool>)
        requires
            old(sink).wf(),
            old(sink).open_gesture() is None,
        ensures
            activated ==> {
                &&& new_value == Option::Some(!current)
                &&& final(sink)@ == old(sink)@ + toggle_bracket(self.handle(), !current)
            },
            !activated ==> {
                &&& new_value is None
                &&& final(sink)@ == old(sink)@
            },
            final(sink).open_gesture() is None,
            final(sink).wf(),
    {
        if activated {
            Option::Some(self.activate(sink, current))
        } else {
            Option::None
        }
    }
}

/// A value clamped to a declared range: never below `low`, never above
/// `high`.
pub open spec fn clamped(value: int, low: int, high: int) -> int {
    if value < low {
        low
    } else if value > high {
        high
    } else {
        value
    }
}

/// The updates one drag sends: each sample clamped to the declared range,
/// in the order the drag delivered them.
pub open spec fn drag_updates(low: int, high: int, samples: Seq<i64>) -> Seq<ParamValue> {
    samples.map(|i: int, sample: i64| ParamValue::Level(clamped(sample as int, low, high) as i64))
}

/// The same updates as the sink records them, wrapped in update events on
/// one handle.
pub open spec fn drag_update_events(
    handle: ParamHandle,
    low: int,
    high: int,
    samples: Seq<i64>,
) -> Seq<GestureEvent> {
    samples.map(
        |i: int, sample: i64| GestureEvent::Update(
            handle,
            ParamValue::Level(clamped(sample as int, low, high) as i64),
        ),
    )
}

/// The events one drag sends: a complete gesture carrying the clamped
/// samples.
pub open spec fn drag_bracket(handle: ParamHandle, low: int, high: int, samples: Seq<i64>) -> Seq<
    GestureEvent,
> {
    gesture_bracket(handle, drag_updates(low, high, samples))
}

/// A ranged control bound to one parameter, with the parameter's declared
/// valid range in thousandths of its unit. Like the toggle it holds no
/// value of its own; outside a drag the display reads the store.
pub struct ContinuousControl {
    handle: ParamHandle,
    low: i64,
    high: i64,
}

impl ContinuousControl {
    /// The parameter this control edits.
    pub closed spec fn handle(&self) -> ParamHandle {
        self.handle
    }

    /// The declared lower bound.
    pub closed spec fn low(&self) -> int {
        self.low as int
    }

    /// The declared upper bound.
    pub closed spec fn high(&self) -> int {
        self.high as int
    }

    /// The control's invariant: a non-empty declared range.
    pub open spec fn wf(&self) -> bool {
        self.low() <= self.high()
    }

    /// A slider bound to `handle` with the declared range
    /// `low ..= high`.
    pub fn new(handle: ParamHandle, low: i64, high: i64) -> (control: Self)
        requires
            low <= high,
        ensures
            control.handle() == handle,
            control.low() == low,
            control.high() == high,
            control.wf(),
    {
        ContinuousControl { handle, low, high }
    }

    /// The parameter this control edits.
    pub fn param(&self) -> (handle: ParamHandle)
        ensures
            handle == self.handle(),
    {
        self.handle
    }

    /// Clamps one sample to the declared range — done before every update,
    /// never after.
    pub fn clamp(&self, value: i64) -> (clamped_value: i64)
        ensures
            clamped_value == clamped(value as int, self.low(), self.high()),
    {
        if value < self.low {
            self.low
        } else if value > self.high {
            self.high
        } else {
            value
        }
    }

    /// The value to display outside any active drag: the store's current
    /// value, never a locally cached one, so the display cannot drift when
    /// automation or another control edits the same parameter.
    pub fn displayed_value(&self, store_value: i64) -> (display: i64)
        ensures
            display == store_value,
    {
        store_value
    }

    /// One whole drag: begin on drag-start, one update per movement sample
    /// — clamped to the declared range first — and end on release, all
    /// within one input-handling pass. Returns the last value sent, if the
    /// drag carried any sample.
    pub fn drag(&self, sink: &mut ParamSink, samples: &Vec<i64>) -> (last_value: Option<i64>)
        requires
            old(sink).wf(),
            old(sink).open_gesture() is None,
        ensures
            final(sink)@ == old(sink)@ + drag_bracket(
                self.handle(),
                self.low(),
                self.high(),
                samples@,
            ),
            final(sink).open_gesture() is None,
            final(sink).wf(),
            samples@.len() == 0 ==> last_value is None,
            samples@.len() > 0 ==> (last_value matches Option::Some(value) && value as int
                == clamped(samples@.last() as int, self.low(), self.high())),
    {
        let ghost initial = sink@;
        let token = sink.begin(self.handle);
        let mut last_value: Option<i64> = Option::None;
        let mut index: usize = 0;
        while index < samples.len()
            invariant
                old(sink).wf(),
                index <= samples@.len(),
                sink.open_gesture() == Option::Some(self.handle()),
                sink.wf(),
                sink@ =~= initial + seq![GestureEvent::Begin(self.handle())]
                    + drag_update_events(
                    self.handle(),
                    self.low(),
                    self.high(),
                    samples@.take(index as int),
                ),
                token.handle() == self.handle(),
                index == 0 ==> last_value is None,
                index > 0 ==> (last_value matches Option::Some(value) && value as int == clamped(
                    samples@[index - 1] as int,
                    self.low(),
                    self.high(),
                )),
            decreases samples@.len() - index,
        {
            let sample = self.clamp(samples[index]);
            sink.update(&token, ParamValue::Level(sample));
            last_value = Option::Some(sample);
            index = index + 1;
            proof {
                assert(samples@.take(index as int) =~= samples@.take(index - 1).push(
                    samples@[index - 1],
                ));
                assert(drag_update_events(
                    self.handle(),
                    self.low(),
                    self.high(),
                    samples@.take(index as int),
                ) =~= drag_update_events(
                    self.handle(),
                    self.low(),
                    self.high(),
                    samples@.take(index - 1),
                ).push(
                    GestureEvent::Update(
                        self.handle(),
                        ParamValue::Level(
                            clamped(samples@[index - 1] as int, self.low(), self.high()) as i64,
                        ),
                    ),
                ));
            }
        }
        sink.end(token);
        proof {
            assert(samples@.take(samples@.len() as int) =~= samples@);
            assert(final(sink)@ =~= initial + drag_bracket(
                self.handle(),
                self.low(),
                self.high(),
                samples@,
            ));
        }
        last_value
    }
}

} // verus!
