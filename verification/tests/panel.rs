use meter_bridge::controls::ContinuousControl;
use meter_bridge::controls::ToggleControl;
use meter_bridge::gesture::GestureEvent;
use meter_bridge::gesture::ParamHandle;
use meter_bridge::gesture::ParamSink;
use meter_bridge::gesture::ParamValue;
use meter_bridge::meter::MeterPresenter;
use meter_bridge::meter::MeterScale;
use meter_bridge::panel::PanelComposer;
use meter_bridge::panel::TickInput;

fn gain() -> ParamHandle {
    ParamHandle { id: 1 }
}

fn mute() -> ParamHandle {
    ParamHandle { id: 2 }
}

fn panel() -> PanelComposer {
    let slider = ContinuousControl::new(gain(), -10_000, 10_000);
    let meter = MeterPresenter::new(MeterScale { floor_cb: -6_000, ceil_cb: 0 }, 10);
    let toggle = ToggleControl::new(mute());
    PanelComposer::new(slider, meter, toggle)
}

fn idle_input() -> TickInput {
    TickInput {
        slider_current: 2_000,
        slider_drag: None,
        measured_cb: None,
        elapsed_ms: 16,
        toggle_current: false,
        toggle_activated: false,
    }
}

#[test]
fn idle_pass_emits_no_gesture() {
    let mut panel = panel();
    let mut sink = ParamSink::new();
    let output = panel.render_tick(&mut sink, &idle_input());
    assert!(sink.events().is_empty());
    assert_eq!(output.slider_value, None);
    assert_eq!(output.toggle_value, None);
    assert_eq!(output.meter_fraction, 0);
}

#[test]
fn busy_pass_emits_slider_events_before_toggle_events() {
    let mut panel = panel();
    let mut sink = ParamSink::new();
    let mut input = idle_input();
    input.slider_drag = Some(vec![3_000, 7_500, 12_000]);
    input.measured_cb = Some(-3_000);
    input.toggle_activated = true;
    let output = panel.render_tick(&mut sink, &input);
    assert_eq!(output.slider_value, Some(10_000));
    assert_eq!(output.toggle_value, Some(true));
    assert_eq!(output.meter_fraction, 5_000);
    assert_eq!(
        sink.events(),
        &vec![
            GestureEvent::Begin(gain()),
            GestureEvent::Update(gain(), ParamValue::Level(3_000)),
            GestureEvent::Update(gain(), ParamValue::Level(7_500)),
            GestureEvent::Update(gain(), ParamValue::Level(10_000)),
            GestureEvent::End(gain()),
            GestureEvent::Begin(mute()),
            GestureEvent::Update(mute(), ParamValue::Toggle(true)),
            GestureEvent::End(mute()),
        ]
    );
}

#[test]
fn meter_holds_its_peak_across_passes() {
    let mut panel = panel();
    let mut sink = ParamSink::new();
    let mut loud = idle_input();
    loud.measured_cb = Some(0);
    loud.elapsed_ms = 100;
    let full = panel.render_tick(&mut sink, &loud);
    assert_eq!(full.meter_fraction, 10_000);
    let mut quiet = idle_input();
    quiet.elapsed_ms = 100;
    let decayed = panel.render_tick(&mut sink, &quiet);
    // One quiet pass of 100 ms at 10 centibels per millisecond:
    // held falls from 0 to -1000, and (-1000 + 6000) * 10000 / 6000 = 8333.
    assert_eq!(decayed.meter_fraction, 8_333);
    assert!(sink.events().is_empty());
}
