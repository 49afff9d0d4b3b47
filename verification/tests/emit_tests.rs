use faust_params::collector::{UiCollector, UiEvent};
use faust_params::controls::ControlDescriptor;
use faust_params::emit::{emit_registry, generate_from_traversal, EmitError};

fn control(
    label: &str,
    param_index: u32,
    initial_tenths: i64,
    min_tenths: i64,
    max_tenths: i64,
) -> ControlDescriptor {
    ControlDescriptor {
        label: label.to_string(),
        param_index,
        initial_tenths,
        min_tenths,
        max_tenths,
        step_tenths: 1,
    }
}

fn nine_control_tree() -> UiCollector {
    let mut c = UiCollector::new();
    c.open_vertical_box("compressor");
    c.add_vertical_slider("input_gain", 0, 0, -240, 240, 1);
    c.add_vertical_slider("strength", 1, 1000, 0, 1000, 1);
    c.add_vertical_slider("thresh", 2, -10, -300, 0, 1);
    c.add_vertical_slider("attack", 3, 300, 0, 1000, 1);
    c.add_vertical_slider("attack_shape", 4, 20, -40, 40, 1);
    c.add_vertical_slider("release", 5, 420, 10, 10000, 1);
    c.add_vertical_slider("release_shape", 6, -30, -40, 40, 1);
    c.add_vertical_slider("knee", 7, 20, 0, 300, 1);
    c.add_vertical_slider("link", 8, 1000, 0, 1000, 1);
    c.close_box();
    c
}

const NINE_CONTROL_TEXT: &str = r#"use faust_types::ParamIndex;
#[derive(Params)]
struct GainFaustNihPlugParams {
// nr of params: 9
    #[id = "input_gain"]
    input_gain: FloatParam,
    #[id = "strength"]
    strength: FloatParam,
    #[id = "thresh"]
    thresh: FloatParam,
    #[id = "attack"]
    attack: FloatParam,
    #[id = "attack_shape"]
    attack_shape: FloatParam,
    #[id = "release"]
    release: FloatParam,
    #[id = "release_shape"]
    release_shape: FloatParam,
    #[id = "knee"]
    knee: FloatParam,
    #[id = "link"]
    link: FloatParam
}

impl Default for GainFaustNihPlugParams {
    fn default() -> Self {
        Self {
            input_gain: FloatParam::new("input_gain", 0.0, FloatRange::Linear { min: -24.0, max: 24.0}),
            strength: FloatParam::new("strength", 100.0, FloatRange::Linear { min: 0.0, max: 100.0}),
            thresh: FloatParam::new("thresh", -1.0, FloatRange::Linear { min: -30.0, max: 0.0}),
            attack: FloatParam::new("attack", 30.0, FloatRange::Linear { min: 0.0, max: 100.0}),
            attack_shape: FloatParam::new("attack_shape", 2.0, FloatRange::Linear { min: -4.0, max: 4.0}),
            release: FloatParam::new("release", 42.0, FloatRange::Linear { min: 1.0, max: 1000.0}),
            release_shape: FloatParam::new("release_shape", -3.0, FloatRange::Linear { min: -4.0, max: 4.0}),
            knee: FloatParam::new("knee", 2.0, FloatRange::Linear { min: 0.0, max: 30.0}),
            link: FloatParam::new("link", 100.0, FloatRange::Linear { min: 0.0, max: 100.0})
        }
    }
}

pub const INPUT_GAIN_PI: ParamIndex = ParamIndex(0);
pub const STRENGTH_PI: ParamIndex = ParamIndex(1);
pub const THRESH_PI: ParamIndex = ParamIndex(2);
pub const ATTACK_PI: ParamIndex = ParamIndex(3);
pub const ATTACK_SHAPE_PI: ParamIndex = ParamIndex(4);
pub const RELEASE_PI: ParamIndex = ParamIndex(5);
pub const RELEASE_SHAPE_PI: ParamIndex = ParamIndex(6);
pub const KNEE_PI: ParamIndex = ParamIndex(7);
pub const LINK_PI: ParamIndex = ParamIndex(8);
"#;

#[test]
fn end_to_end_nine_controls() {
    let c = nine_control_tree();
    let out = emit_registry(&c.controls, "GainFaustNihPlugParams").unwrap();
    assert_eq!(out, NINE_CONTROL_TEXT);
}

#[test]
fn generation_is_deterministic_across_runs() {
    // Two independent runs over independently built but equal trees.
    let c1 = nine_control_tree();
    let c2 = nine_control_tree();
    let out1 = emit_registry(&c1.controls, "GainFaustNihPlugParams").unwrap();
    let out2 = emit_registry(&c2.controls, "GainFaustNihPlugParams").unwrap();
    assert_eq!(out1, out2);
}

#[test]
fn regeneration_reproduces_prior_output() {
    // Regenerating from an unchanged tree yields output identical to
    // the prior artifact's content.
    let c = nine_control_tree();
    let prior = emit_registry(&c.controls, "GainFaustNihPlugParams").unwrap();
    let again = emit_registry(&c.controls, "GainFaustNihPlugParams").unwrap();
    assert_eq!(again, prior);
}

#[test]
fn whole_pass_is_deterministic_over_a_recorded_traversal() {
    let events = vec![
        UiEvent::OpenVerticalBox { label: "demo".to_string() },
        UiEvent::AddVerticalSlider {
            label: "gain".to_string(),
            param_index: 0,
            initial_tenths: 0,
            min_tenths: -240,
            max_tenths: 240,
            step_tenths: 1,
        },
        UiEvent::AddCheckButton { label: "mute".to_string(), param_index: 1 },
        UiEvent::AddNumEntry {
            label: "attack".to_string(),
            param_index: 2,
            initial_tenths: 300,
            min_tenths: 0,
            max_tenths: 1000,
            step_tenths: 1,
        },
        UiEvent::CloseBox,
    ];
    let out1 = generate_from_traversal(&events, "DemoParams").unwrap();
    let out2 = generate_from_traversal(&events, "DemoParams").unwrap();
    assert_eq!(out1, out2);
    assert!(out1.contains("#[id = \"gain\"]"));
    assert!(out1.contains("#[id = \"attack\"]"));
    assert!(!out1.contains("mute"));
    assert!(out1.contains("// nr of params: 2"));
}

#[test]
fn range_fidelity_for_thresh() {
    let ctrls = vec![control("thresh", 2, -10, -300, 0)];
    let out = emit_registry(&ctrls, "P").unwrap();
    // Host-visible identifier: the label, verbatim, distinct from the
    // generated field name.
    assert!(out.contains("#[id = \"thresh\"]"));
    // Name, default and linear range, each with one-decimal formatting.
    assert!(out.contains(
        "thresh: FloatParam::new(\"thresh\", -1.0, FloatRange::Linear { min: -30.0, max: 0.0})"
    ));
}

#[test]
fn case_collision_is_refused() {
    let ctrls = vec![control("Gain", 0, 0, 0, 100), control("gain", 1, 0, 0, 100)];
    let r = emit_registry(&ctrls, "P");
    assert_eq!(
        r,
        Err(EmitError::IdentifierCollision { first: 0, second: 1 })
    );
}

#[test]
fn equal_labels_are_refused() {
    let ctrls = vec![
        control("gain", 0, 0, 0, 100),
        control("attack", 1, 0, 0, 100),
        control("gain", 2, 0, 0, 100),
    ];
    let r = emit_registry(&ctrls, "P");
    assert_eq!(
        r,
        Err(EmitError::IdentifierCollision { first: 0, second: 2 })
    );
}

#[test]
fn illegal_identifier_is_refused() {
    // A label that lower-cases to something no field name may be.
    let ctrls = vec![control("2fast", 0, 0, 0, 100)];
    let r = emit_registry(&ctrls, "P");
    assert_eq!(r, Err(EmitError::IllegalIdentifier { index: 0 }));
}

#[test]
fn reserved_word_identifier_is_refused() {
    // "Loop" lower-cases to a reserved word of the generated language.
    let ctrls = vec![control("gain", 0, 0, 0, 100), control("Loop", 1, 0, 0, 100)];
    let r = emit_registry(&ctrls, "P");
    assert_eq!(r, Err(EmitError::IllegalIdentifier { index: 1 }));
}

#[test]
fn empty_label_is_refused() {
    let ctrls = vec![control("", 0, 0, 0, 100)];
    let r = emit_registry(&ctrls, "P");
    assert_eq!(r, Err(EmitError::IllegalIdentifier { index: 0 }));
}

#[test]
fn empty_registry_emits_empty_struct() {
    let ctrls: Vec<ControlDescriptor> = Vec::new();
    let out = emit_registry(&ctrls, "EmptyParams").unwrap();
    assert!(out.contains("struct EmptyParams {"));
    assert!(out.contains("// nr of params: 0"));
    assert!(out.contains("impl Default for EmptyParams"));
}

#[test]
fn mixed_case_labels_fold_to_field_names() {
    let ctrls = vec![control("InputGain", 0, 0, -240, 240)];
    let out = emit_registry(&ctrls, "P").unwrap();
    // The id attribute keeps the label verbatim; the field name is the
    // lower-cased label.
    assert!(out.contains("#[id = \"InputGain\"]\n    inputgain: FloatParam"));
    assert!(out.contains("inputgain: FloatParam::new(\"InputGain\", 0.0,"));
    assert!(out.contains("pub const INPUTGAIN_PI: ParamIndex = ParamIndex(0);"));
}

#[test]
fn step_size_is_accepted_but_not_rendered() {
    let mut a = control("gain", 0, 0, 0, 100);
    a.step_tenths = 5;
    let mut b = control("gain", 0, 0, 0, 100);
    b.step_tenths = 700;
    let out_a = emit_registry(&vec![a], "P").unwrap();
    let out_b = emit_registry(&vec![b], "P").unwrap();
    assert_eq!(out_a, out_b);
}
