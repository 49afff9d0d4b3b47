use faust_params::collector::{UiCollector, UiEvent};

fn drive_mixed_tree(c: &mut UiCollector) {
    // A tree mixing containers, booleans, bargraphs, metadata and
    // numeric controls at several nesting depths.
    c.open_tab_box("top");
    c.declare("author", "someone");
    c.open_horizontal_box("row");
    c.add_button("bypass", 0);
    c.add_vertical_slider("gain", 1, 0, -240, 240, 1);
    c.add_check_button("mute", 2);
    c.open_vertical_box("column");
    c.add_num_entry("attack", 3, 300, 0, 1000, 1);
    c.add_horizontal_bargraph("level", 4, 0, 10);
    c.close_box();
    c.add_horizontal_slider("release", 5, 420, 10, 10000, 1);
    c.add_vertical_bargraph("peak", 6, 0, 10);
    c.close_box();
    c.close_box();
}

#[test]
fn collects_only_numeric_controls() {
    let mut c = UiCollector::new();
    drive_mixed_tree(&mut c);
    let labels: Vec<&str> = c.controls.iter().map(|d| d.label.as_str()).collect();
    assert_eq!(labels, vec!["gain", "attack", "release"]);
}

#[test]
fn keeps_traversal_order_and_metadata() {
    let mut c = UiCollector::new();
    drive_mixed_tree(&mut c);
    assert_eq!(c.controls.len(), 3);
    let gain = &c.controls[0];
    assert_eq!(gain.label, "gain");
    assert_eq!(gain.param_index, 1);
    assert_eq!(gain.initial_tenths, 0);
    assert_eq!(gain.min_tenths, -240);
    assert_eq!(gain.max_tenths, 240);
    assert_eq!(gain.step_tenths, 1);
    let attack = &c.controls[1];
    assert_eq!(attack.label, "attack");
    assert_eq!(attack.param_index, 3);
    let release = &c.controls[2];
    assert_eq!(release.label, "release");
    assert_eq!(release.param_index, 5);
}

#[test]
fn containers_and_booleans_leave_no_trace() {
    let mut c = UiCollector::new();
    c.open_tab_box("a");
    c.open_horizontal_box("b");
    c.open_vertical_box("c");
    c.add_button("push", 0);
    c.add_check_button("tick", 1);
    c.add_horizontal_bargraph("meter", 2, 0, 10);
    c.add_vertical_bargraph("meter2", 3, 0, 10);
    c.declare("key", "value");
    c.close_box();
    c.close_box();
    c.close_box();
    assert_eq!(c.controls.len(), 0);
}

#[test]
fn duplicate_labels_are_collected_as_given() {
    // The collector performs no validation and no deduplication.
    let mut c = UiCollector::new();
    c.add_vertical_slider("Gain", 0, 0, 0, 10, 1);
    c.add_vertical_slider("gain", 1, 0, 0, 10, 1);
    assert_eq!(c.controls.len(), 2);
    assert_eq!(c.controls[0].label, "Gain");
    assert_eq!(c.controls[1].label, "gain");
}

#[test]
fn replaying_recorded_events_matches_direct_calls() {
    let events = vec![
        UiEvent::OpenTabBox { label: "top".to_string() },
        UiEvent::Declare { key: "author".to_string(), value: "someone".to_string() },
        UiEvent::AddButton { label: "bypass".to_string(), param_index: 0 },
        UiEvent::AddVerticalSlider {
            label: "gain".to_string(),
            param_index: 1,
            initial_tenths: 0,
            min_tenths: -240,
            max_tenths: 240,
            step_tenths: 1,
        },
        UiEvent::AddHorizontalBargraph {
            label: "level".to_string(),
            param_index: 2,
            min_tenths: 0,
            max_tenths: 10,
        },
        UiEvent::AddNumEntry {
            label: "attack".to_string(),
            param_index: 3,
            initial_tenths: 300,
            min_tenths: 0,
            max_tenths: 1000,
            step_tenths: 1,
        },
        UiEvent::CloseBox,
    ];
    let mut replayed = UiCollector::new();
    replayed.run_traversal(&events);

    let mut direct = UiCollector::new();
    direct.open_tab_box("top");
    direct.declare("author", "someone");
    direct.add_button("bypass", 0);
    direct.add_vertical_slider("gain", 1, 0, -240, 240, 1);
    direct.add_horizontal_bargraph("level", 2, 0, 10);
    direct.add_num_entry("attack", 3, 300, 0, 1000, 1);
    direct.close_box();

    assert_eq!(replayed.controls.len(), 2);
    assert_eq!(replayed.controls.len(), direct.controls.len());
    for (a, b) in replayed.controls.iter().zip(direct.controls.iter()) {
        assert_eq!(a.label, b.label);
        assert_eq!(a.param_index, b.param_index);
        assert_eq!(a.initial_tenths, b.initial_tenths);
        assert_eq!(a.min_tenths, b.min_tenths);
        assert_eq!(a.max_tenths, b.max_tenths);
        assert_eq!(a.step_tenths, b.step_tenths);
    }
}

#[test]
fn three_numeric_kinds_share_semantics() {
    let mut c = UiCollector::new();
    c.add_vertical_slider("one", 0, 10, 0, 100, 1);
    c.add_horizontal_slider("two", 1, 20, 0, 100, 1);
    c.add_num_entry("three", 2, 30, 0, 100, 1);
    let labels: Vec<&str> = c.controls.iter().map(|d| d.label.as_str()).collect();
    assert_eq!(labels, vec!["one", "two", "three"]);
}
