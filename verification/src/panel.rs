//! The composed control surface: one meter, one ranged slider, one toggle,
//! rendered in a fixed order each pass. Pure composition — the panel adds
//! no data-flow logic of its own, it only forwards each component's inputs
//! and collects their outputs.

use vstd::prelude::*;
use crate::controls::ContinuousControl;
use crate::controls::ToggleControl;
use crate::controls::clamped;
use crate::controls::drag_bracket;
use crate::controls::toggle_bracket;
use crate::gesture::GestureEvent;
use crate::gesture::ParamSink;
use crate::meter::MeterPresenter;
use crate::meter::MeterScale;
use crate::meter::FRACTION_ONE;
use crate::meter::display_cb;
use crate::meter::hold_step;
use crate::meter::normalized;

verus! {

/// Everything one render pass consumes: the store's current parameter
/// values, the measurement read from the level cell, the elapsed time, and
/// the input events delivered this pass.
pub struct TickInput {
    /// The ranged parameter's authoritative current value, in thousandths.
    pub slider_current: i64,
    /// The movement samples of a drag completed this pass, if any.
    pub slider_drag: Option<Vec<i64>>,
    /// The measurement read from the level cell, in centibels; `None` is
    /// silence.
    pub measured_cb: Option<i32>,
    /// Time since the previous pass, in milliseconds.
    pub elapsed_ms: u32,
    /// The boolean parameter's authoritative current value.
    pub toggle_current: bool,
    /// Whether the toggle was activated this pass.
    pub toggle_activated: bool,
}

/// Everything one render pass produces for drawing and for local display
/// updates.
pub struct TickOutput {
    /// The meter's fill, as a fraction of [`FRACTION_ONE`].
    pub meter_fraction: u32,
    /// The slider's new value, when a drag with at least one sample ended
    /// this pass.
    pub slider_value: Option<i64>,
    /// The toggle's new value, when it was activated this pass.
    pub toggle_value: Option<bool>,
}

/// The events the slider contributes to one pass: a complete drag gesture,
/// or nothing when no drag happened.
pub open spec fn slider_tick_events(slider: ContinuousControl, input: TickInput) -> Seq<
    GestureEvent,
> {
    match input.slider_drag {
        Option::Some(samples) => drag_bracket(
            slider.handle(),
            slider.low(),
            slider.high(),
            samples@,
        ),
        Option::None => Seq::<GestureEvent>::empty(),
    }
}

/// The events the toggle contributes to one pass: a complete toggle
/// gesture, or nothing when it was not activated.
pub open spec fn toggle_tick_events(toggle: ToggleControl, input: TickInput) -> Seq<GestureEvent> {
    if input.toggle_activated {
        toggle_bracket(toggle.handle(), !input.toggle_current)
    } else {
        Seq::<GestureEvent>::empty()
    }
}

/// The visible control surface: a slider, a meter and a toggle over one
/// parameter sink, rendered in that fixed order each pass.
pub struct PanelComposer {
    slider: ContinuousControl,
    meter: MeterPresenter,
    toggle: ToggleControl,
}

impl PanelComposer {
    /// The panel's slider.
    pub closed spec fn slider(&self) -> ContinuousControl {
        self.slider
    }

    /// The panel's toggle.
    pub closed spec fn toggle(&self) -> ToggleControl {
        self.toggle
    }

    /// The meter's display range.
    pub closed spec fn meter_scale(&self) -> MeterScale {
        self.meter.scale()
    }

    /// The level the meter shows now, in centibels.
    pub closed spec fn meter_held(&self) -> int {
        self.meter.held()
    }

    /// The meter's decay rate, in centibels per millisecond.
    pub closed spec fn meter_decay_rate(&self) -> int {
        self.meter.decay_rate()
    }

    /// The panel's invariant: its components' invariants.
    pub open spec fn wf(&self) -> bool {
        &&& self.slider().wf()
        &&& self.meter().wf()
    }

    /// The panel's meter.
    pub closed spec fn meter(&self) -> MeterPresenter {
        self.meter
    }

    /// A panel over the given components.
    pub fn new(slider: ContinuousControl, meter: MeterPresenter, toggle: ToggleControl) -> (panel:
        Self)
        requires
            slider.wf(),
            meter.wf(),
        ensures
            panel.slider() == slider,
            panel.meter() == meter,
            panel.toggle() == toggle,
            panel.wf(),
    {
        PanelComposer { slider, meter, toggle }
    }

    /// One render pass, in fixed order: the slider first, then the meter,
    /// then the toggle. The sink observes exactly the slider's events
    /// followed by the toggle's — each a complete gesture — and the meter
    /// contributes its normalized fill without touching the sink.
    pub fn render_tick(&mut self, sink: &mut ParamSink, input: &TickInput) -> (output: TickOutput)
        requires
            old(self).wf(),
            old(sink).wf(),
            old(sink).open_gesture() is None,
        ensures
            final(sink)@ == old(sink)@ + slider_tick_events(old(self).slider(), *input)
                + toggle_tick_events(old(self).toggle(), *input),
            final(sink).open_gesture() is None,
            final(sink).wf(),
            final(self).meter_held() == hold_step(
                old(self).meter_held(),
                display_cb(old(self).meter_scale(), input.measured_cb),
                old(self).meter_decay_rate() * input.elapsed_ms,
            ),
            output.meter_fraction == normalized(old(self).meter_scale(), final(self).meter_held()),
            output.meter_fraction <= FRACTION_ONE,
            output.toggle_value == (if input.toggle_activated {
                Option::Some(!input.toggle_current)
            } else {
                Option::None::<bool>
            }),
            (match input.slider_drag {
                Option::Some(samples) => {
                    if samples@.len() == 0 {
                        output.slider_value is None
                    } else {
                        output.slider_value matches Option::Some(value) && value as int == clamped(
                            samples@.last() as int,
                            old(self).slider().low(),
                            old(self).slider().high(),
                        )
                    }
                },
                Option::None => output.slider_value is None,
            }),
            final(self).slider() == old(self).slider(),
            final(self).toggle() == old(self).toggle(),
            final(self).meter_scale() == old(self).meter_scale(),
            final(self).meter_decay_rate() == old(self).meter_decay_rate(),
            final(self).wf(),
    {
        let slider_value: Option<i64> = match &input.slider_drag {
            Option::Some(samples) => self.slider.drag(sink, samples),
            Option::None => Option::None,
        };
        let meter_fraction = self.meter.render(input.measured_cb, input.elapsed_ms);
        let toggle_value = self.toggle.render(
            sink,
            input.toggle_current,
            input.toggle_activated,
        );
        proof {
            assert(final(sink)@ =~= old(sink)@ + slider_tick_events(old(self).slider(), *input)
                + toggle_tick_events(old(self).toggle(), *input));
        }
        TickOutput { meter_fraction, slider_value, toggle_value }
    }
}

} // verus!
