use meter_bridge::controls::ContinuousControl;
use meter_bridge::controls::ToggleControl;
use meter_bridge::gesture::GestureEvent;
use meter_bridge::gesture::ParamHandle;
use meter_bridge::gesture::ParamSink;
use meter_bridge::gesture::ParamValue;

#[test]
fn direct_gesture_records_begin_updates_end() {
    let mut sink = ParamSink::new();
    let gain = ParamHandle { id: 1 };
    let token = sink.begin(gain);
    sink.update(&token, ParamValue::Level(1500));
    sink.update(&token, ParamValue::Level(2500));
    sink.end(token);
    assert_eq!(
        sink.events(),
        &vec![
            GestureEvent::Begin(gain),
            GestureEvent::Update(gain, ParamValue::Level(1500)),
            GestureEvent::Update(gain, ParamValue::Level(2500)),
            GestureEvent::End(gain),
        ]
    );
}

#[test]
fn toggle_click_emits_one_complete_gesture() {
    // Toggle invoked with current value false: the sink observes
    // begin, update(true), end, and the control returns true.
    let mut sink = ParamSink::new();
    let mute = ParamHandle { id: 2 };
    let control = ToggleControl::new(mute);
    let new_value = control.activate(&mut sink, false);
    assert!(new_value);
    assert_eq!(
        sink.events(),
        &vec![
            GestureEvent::Begin(mute),
            GestureEvent::Update(mute, ParamValue::Toggle(true)),
            GestureEvent::End(mute),
        ]
    );
}

#[test]
fn toggle_without_activation_emits_nothing() {
    let mut sink = ParamSink::new();
    let mute = ParamHandle { id: 2 };
    let control = ToggleControl::new(mute);
    let new_value = control.render(&mut sink, true, false);
    assert_eq!(new_value, None);
    assert!(sink.events().is_empty());
}

#[test]
fn toggle_flips_a_true_value_back() {
    let mut sink = ParamSink::new();
    let mute = ParamHandle { id: 2 };
    let control = ToggleControl::new(mute);
    let new_value = control.render(&mut sink, true, true);
    assert_eq!(new_value, Some(false));
    assert_eq!(
        sink.events(),
        &vec![
            GestureEvent::Begin(mute),
            GestureEvent::Update(mute, ParamValue::Toggle(false)),
            GestureEvent::End(mute),
        ]
    );
}

#[test]
fn drag_clamps_each_sample_to_the_declared_range() {
    // Drag through samples 3.0, 7.5, 12.0 on a range of -10.0..=10.0
    // (thousandths): the last sample is clamped to the ceiling.
    let mut sink = ParamSink::new();
    let gain = ParamHandle { id: 1 };
    let control = ContinuousControl::new(gain, -10_000, 10_000);
    let last = control.drag(&mut sink, &vec![3_000, 7_500, 12_000]);
    assert_eq!(last, Some(10_000));
    assert_eq!(
        sink.events(),
        &vec![
            GestureEvent::Begin(gain),
            GestureEvent::Update(gain, ParamValue::Level(3_000)),
            GestureEvent::Update(gain, ParamValue::Level(7_500)),
            GestureEvent::Update(gain, ParamValue::Level(10_000)),
            GestureEvent::End(gain),
        ]
    );
}

#[test]
fn drag_clamps_below_the_floor_too() {
    let mut sink = ParamSink::new();
    let gain = ParamHandle { id: 1 };
    let control = ContinuousControl::new(gain, -10_000, 10_000);
    let last = control.drag(&mut sink, &vec![-25_000]);
    assert_eq!(last, Some(-10_000));
    assert_eq!(
        sink.events(),
        &vec![
            GestureEvent::Begin(gain),
            GestureEvent::Update(gain, ParamValue::Level(-10_000)),
            GestureEvent::End(gain),
        ]
    );
}

#[test]
fn empty_drag_still_pairs_begin_with_end() {
    let mut sink = ParamSink::new();
    let gain = ParamHandle { id: 1 };
    let control = ContinuousControl::new(gain, -10_000, 10_000);
    let last = control.drag(&mut sink, &vec![]);
    assert_eq!(last, None);
    assert_eq!(
        sink.events(),
        &vec![GestureEvent::Begin(gain), GestureEvent::End(gain)]
    );
}

#[test]
fn consecutive_gestures_stay_paired() {
    let mut sink = ParamSink::new();
    let mute = ParamHandle { id: 2 };
    let control = ToggleControl::new(mute);
    let first = control.activate(&mut sink, false);
    let second = control.activate(&mut sink, first);
    assert!(!second);
    assert_eq!(
        sink.events(),
        &vec![
            GestureEvent::Begin(mute),
            GestureEvent::Update(mute, ParamValue::Toggle(true)),
            GestureEvent::End(mute),
            GestureEvent::Begin(mute),
            GestureEvent::Update(mute, ParamValue::Toggle(false)),
            GestureEvent::End(mute),
        ]
    );
}

#[test]
fn displayed_value_is_the_store_value() {
    let control = ContinuousControl::new(ParamHandle { id: 1 }, -10_000, 10_000);
    assert_eq!(control.displayed_value(4_200), 4_200);
}
