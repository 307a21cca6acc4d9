use tweak_shader_wasm::external::JsInputValue;
use tweak_shader_wasm::input_type::{
    BoundedInput, DiscreteInput, InputType, InputVariant, ShaderBool, TextureStatus,
};
use tweak_shader_wasm::payload::{InputPayload, PayloadShape, SetInputError};
use tweak_shader_wasm::registry::InputRegistry;

fn bits(x: f32) -> u32 {
    x.to_bits()
}

fn float_input() -> InputType {
    InputType::Float(BoundedInput {
        current: bits(0.25),
        min: bits(0.0),
        max: bits(1.0),
        default: bits(0.05),
    })
}

fn int_input() -> InputType {
    InputType::Int(
        BoundedInput { current: 3, min: -10, max: 10, default: 3 },
        Some(vec![("option_1".to_string(), 1), ("option_2".to_string(), 2)]),
    )
}

fn point_input() -> InputType {
    InputType::Point(BoundedInput {
        current: [bits(0.5), bits(-0.5)],
        min: [bits(-1.0), bits(-1.0)],
        max: [bits(1.0), bits(1.0)],
        default: [bits(0.0), bits(0.0)],
    })
}

fn bool_input() -> InputType {
    InputType::Bool(DiscreteInput { current: ShaderBool::True, default: ShaderBool::False })
}

fn color_input() -> InputType {
    InputType::Color(DiscreteInput {
        current: [bits(0.1), bits(0.2), bits(0.3), bits(1.0)],
        default: [bits(0.0), bits(0.0), bits(0.0), bits(1.0)],
    })
}

fn registry() -> InputRegistry {
    let mut r = InputRegistry::new();
    assert!(r.register("speed".to_string(), float_input()));
    assert!(r.register("mode".to_string(), int_input()));
    assert!(r.register("origin".to_string(), point_input()));
    assert!(r.register("invert".to_string(), bool_input()));
    assert!(r.register("tint".to_string(), color_input()));
    assert!(r.register("photo".to_string(), InputType::Image(TextureStatus::Uninit)));
    assert!(r.register("matrix".to_string(), InputType::RawBytes(vec![1, 2, 3, 4, 5, 6])));
    r
}

#[test]
fn snapshot_of_float_keeps_every_field() {
    let s = JsInputValue::from(&float_input());
    assert_eq!(
        s,
        JsInputValue::Float {
            current: bits(0.25),
            min: bits(0.0),
            max: bits(1.0),
            default: bits(0.05)
        }
    );
}

#[test]
fn snapshot_of_int_copies_labels() {
    let s = JsInputValue::from(&int_input());
    assert_eq!(
        s,
        JsInputValue::Int {
            current: 3,
            min: -10,
            max: 10,
            default: 3,
            labels: Some(vec![("option_1".to_string(), 1), ("option_2".to_string(), 2)]),
        }
    );
    let bare = InputType::Int(BoundedInput { current: 0, min: 0, max: 1, default: 0 }, None);
    assert_eq!(
        JsInputValue::from(&bare),
        JsInputValue::Int { current: 0, min: 0, max: 1, default: 0, labels: None }
    );
}

#[test]
fn snapshot_of_point_and_color() {
    assert_eq!(
        JsInputValue::from(&point_input()),
        JsInputValue::Point {
            current: [bits(0.5), bits(-0.5)],
            min: [bits(-1.0), bits(-1.0)],
            max: [bits(1.0), bits(1.0)],
            default: [bits(0.0), bits(0.0)],
        }
    );
    assert_eq!(
        JsInputValue::from(&color_input()),
        JsInputValue::Color {
            current: [bits(0.1), bits(0.2), bits(0.3), bits(1.0)],
            default: [bits(0.0), bits(0.0), bits(0.0), bits(1.0)],
        }
    );
}

#[test]
fn snapshot_of_bool_is_a_plain_truth_value() {
    assert_eq!(
        JsInputValue::from(&bool_input()),
        JsInputValue::Bool { current: true, default: false }
    );
    assert!(ShaderBool::True.is_true());
    assert!(!ShaderBool::False.is_true());
    assert_eq!(ShaderBool::from_bool(true), ShaderBool::True);
    assert_eq!(ShaderBool::from_bool(false), ShaderBool::False);
}

#[test]
fn snapshot_of_image_names_its_status() {
    assert_eq!(
        JsInputValue::from(&InputType::Image(TextureStatus::Uninit)),
        JsInputValue::Image { status: "uninit".to_string(), width: None, height: None }
    );
    assert_eq!(
        JsInputValue::from(&InputType::Image(TextureStatus::Loaded { width: 640, height: 480 })),
        JsInputValue::Image {
            status: "loaded".to_string(),
            width: Some(640),
            height: Some(480)
        }
    );
}

#[test]
fn snapshot_of_raw_bytes_is_a_copy() {
    let input = InputType::RawBytes(vec![9, 8, 7]);
    let s = JsInputValue::from(&input);
    assert_eq!(s, JsInputValue::RawBytes { bytes: vec![9, 8, 7] });
    assert_eq!(input, InputType::RawBytes(vec![9, 8, 7]));
}

#[test]
fn variant_of_each_input() {
    assert_eq!(float_input().variant(), InputVariant::Float);
    assert_eq!(int_input().variant(), InputVariant::Int);
    assert_eq!(point_input().variant(), InputVariant::Point);
    assert_eq!(bool_input().variant(), InputVariant::Bool);
    assert_eq!(color_input().variant(), InputVariant::Color);
    assert_eq!(InputType::Image(TextureStatus::Uninit).variant(), InputVariant::Image);
    assert_eq!(InputType::RawBytes(vec![]).variant(), InputVariant::Bytes);
}

#[test]
fn duplicate_is_equal() {
    for input in [float_input(), int_input(), InputType::RawBytes(vec![1, 2])] {
        assert_eq!(input.duplicate(), input);
    }
}

#[test]
fn get_set_get_gives_an_equal_snapshot() {
    for name in ["speed", "mode", "origin", "invert", "tint", "matrix"] {
        let mut r = registry();
        let first = r.get_input(name).unwrap();
        let payload = first.current_payload().unwrap();
        assert_eq!(r.set_input(name, &payload), Ok(()));
        let second = r.get_input(name).unwrap();
        assert_eq!(first, second);
    }
}

#[test]
fn set_replaces_current_only() {
    let mut r = registry();
    assert_eq!(r.set_input("speed", &InputPayload::Float(bits(0.75))), Ok(()));
    assert_eq!(
        r.get_input("speed"),
        Some(JsInputValue::Float {
            current: bits(0.75),
            min: bits(0.0),
            max: bits(1.0),
            default: bits(0.05)
        })
    );
    assert_eq!(r.set_input("mode", &InputPayload::Int(-7)), Ok(()));
    assert_eq!(
        r.get_input("mode"),
        Some(JsInputValue::Int {
            current: -7,
            min: -10,
            max: 10,
            default: 3,
            labels: Some(vec![("option_1".to_string(), 1), ("option_2".to_string(), 2)]),
        })
    );
    assert_eq!(r.set_input("origin", &InputPayload::Point([bits(2.0), bits(3.0)])), Ok(()));
    assert_eq!(
        r.get_input_state("origin"),
        Some(InputType::Point(BoundedInput {
            current: [bits(2.0), bits(3.0)],
            min: [bits(-1.0), bits(-1.0)],
            max: [bits(1.0), bits(1.0)],
            default: [bits(0.0), bits(0.0)],
        }))
    );
    assert_eq!(r.set_input("invert", &InputPayload::Bool(false)), Ok(()));
    assert_eq!(
        r.get_input_state("invert"),
        Some(InputType::Bool(DiscreteInput {
            current: ShaderBool::False,
            default: ShaderBool::False
        }))
    );
    assert_eq!(r.set_input("invert", &InputPayload::Bool(true)), Ok(()));
    assert_eq!(
        r.get_input("invert"),
        Some(JsInputValue::Bool { current: true, default: false })
    );
    let red = [bits(1.0), bits(0.0), bits(0.0), bits(1.0)];
    assert_eq!(r.set_input("tint", &InputPayload::Color(red)), Ok(()));
    assert_eq!(
        r.get_input("tint"),
        Some(JsInputValue::Color {
            current: red,
            default: [bits(0.0), bits(0.0), bits(0.0), bits(1.0)]
        })
    );
}

#[test]
fn longer_payload_fills_the_buffer_and_no_more() {
    let mut r = registry();
    let payload = InputPayload::Bytes(vec![10, 20, 30, 40, 50, 60, 70, 80, 90]);
    assert_eq!(r.set_input("matrix", &payload), Ok(()));
    assert_eq!(
        r.get_input("matrix"),
        Some(JsInputValue::RawBytes { bytes: vec![10, 20, 30, 40, 50, 60] })
    );
}

#[test]
fn shorter_payload_leaves_the_tail() {
    let mut r = registry();
    let payload = InputPayload::Bytes(vec![10, 20]);
    assert_eq!(r.set_input("matrix", &payload), Ok(()));
    assert_eq!(
        r.get_input("matrix"),
        Some(JsInputValue::RawBytes { bytes: vec![10, 20, 3, 4, 5, 6] })
    );
    assert_eq!(r.set_input("matrix", &InputPayload::Bytes(vec![])), Ok(()));
    assert_eq!(
        r.get_input("matrix"),
        Some(JsInputValue::RawBytes { bytes: vec![10, 20, 3, 4, 5, 6] })
    );
}

#[test]
fn payload_of_equal_length_replaces_the_buffer() {
    let mut input = InputType::RawBytes(vec![0, 0, 0]);
    assert_eq!(input.assign(&InputPayload::Bytes(vec![7, 8, 9])), Ok(()));
    assert_eq!(input, InputType::RawBytes(vec![7, 8, 9]));
}

#[test]
fn get_of_an_unregistered_name_is_no_value() {
    let r = registry();
    assert_eq!(r.get_input("missing"), None);
    assert_eq!(r.get_input_state("missing"), None);
    assert_eq!(InputRegistry::new().get_input("speed"), None);
}

#[test]
fn set_of_an_unregistered_name_fails_and_changes_nothing() {
    let mut r = registry();
    let before = r.get_input_list();
    assert_eq!(
        r.set_input("missing", &InputPayload::Float(bits(1.0))),
        Err(SetInputError::InputNotFound)
    );
    assert_eq!(r.get_input_list(), before);
    assert_eq!(r.payload_shape("missing"), Err(SetInputError::InputNotFound));
}

#[test]
fn set_of_an_image_is_unsupported() {
    let mut r = registry();
    let before = r.get_input_list();
    for payload in [
        InputPayload::Float(0),
        InputPayload::Int(1),
        InputPayload::Bool(true),
        InputPayload::Bytes(vec![1, 2, 3]),
    ] {
        assert_eq!(r.set_input("photo", &payload), Err(SetInputError::UnsupportedInputType));
    }
    assert_eq!(r.get_input_list(), before);
    assert_eq!(r.payload_shape("photo"), Err(SetInputError::UnsupportedInputType));
}

#[test]
fn payload_of_the_wrong_shape_is_refused_before_any_change() {
    let mut r = registry();
    let before = r.get_input_list();
    assert_eq!(r.set_input("speed", &InputPayload::Bool(true)), Err(SetInputError::Deserialization));
    assert_eq!(r.set_input("mode", &InputPayload::Float(3)), Err(SetInputError::Deserialization));
    assert_eq!(
        r.set_input("origin", &InputPayload::Color([0, 0, 0, 0])),
        Err(SetInputError::Deserialization)
    );
    assert_eq!(r.set_input("invert", &InputPayload::Int(1)), Err(SetInputError::Deserialization));
    assert_eq!(
        r.set_input("tint", &InputPayload::Point([0, 0])),
        Err(SetInputError::Deserialization)
    );
    assert_eq!(r.set_input("matrix", &InputPayload::Int(1)), Err(SetInputError::Deserialization));
    assert_eq!(r.get_input_list(), before);
}

#[test]
fn payload_shape_follows_the_registered_kind() {
    let r = registry();
    assert_eq!(r.payload_shape("speed"), Ok(PayloadShape::Float));
    assert_eq!(r.payload_shape("mode"), Ok(PayloadShape::Int));
    assert_eq!(r.payload_shape("origin"), Ok(PayloadShape::Point));
    assert_eq!(r.payload_shape("invert"), Ok(PayloadShape::Bool));
    assert_eq!(r.payload_shape("tint"), Ok(PayloadShape::Color));
    assert_eq!(r.payload_shape("matrix"), Ok(PayloadShape::Bytes));
    assert_eq!(InputVariant::Image.payload_shape(), Err(SetInputError::UnsupportedInputType));
    assert_eq!(InputPayload::Bytes(vec![]).shape(), PayloadShape::Bytes);
    assert_eq!(InputPayload::Float(0).shape(), PayloadShape::Float);
}

#[test]
fn list_keeps_the_order_of_registration() {
    let r = registry();
    let list = r.get_input_list();
    let names: Vec<&str> = list.iter().map(|e| e.0.as_str()).collect();
    assert_eq!(names, vec!["speed", "mode", "origin", "invert", "tint", "photo", "matrix"]);
    assert_eq!(list.len(), r.len());
    assert_eq!(list[0].1, JsInputValue::from(&float_input()));
    assert_eq!(list[6].1, JsInputValue::RawBytes { bytes: vec![1, 2, 3, 4, 5, 6] });
}

#[test]
fn a_taken_name_is_not_registered_again() {
    let mut r = registry();
    assert!(!r.register("speed".to_string(), int_input()));
    assert_eq!(r.len(), 7);
    assert_eq!(r.get_input("speed"), Some(JsInputValue::from(&float_input())));
}

#[test]
fn set_touches_one_input_only() {
    let mut r = registry();
    let before = r.get_input_list();
    assert_eq!(r.set_input("mode", &InputPayload::Int(9)), Ok(()));
    let after = r.get_input_list();
    for i in 0..before.len() {
        if before[i].0 != "mode" {
            assert_eq!(before[i], after[i]);
        }
    }
}

#[test]
fn current_payload_of_each_snapshot() {
    assert_eq!(
        JsInputValue::from(&float_input()).current_payload(),
        Some(InputPayload::Float(bits(0.25)))
    );
    assert_eq!(
        JsInputValue::from(&bool_input()).current_payload(),
        Some(InputPayload::Bool(true))
    );
    assert_eq!(
        JsInputValue::from(&InputType::Image(TextureStatus::Uninit)).current_payload(),
        None
    );
}

#[test]
fn set_input_error_messages() {
    assert_eq!(SetInputError::InputNotFound.message(), "Input not found");
    assert_eq!(
        SetInputError::UnsupportedInputType.message(),
        "Unsupported input type for setting value"
    );
    assert_eq!(SetInputError::Deserialization.message(), "Payload does not fit the input's type");
}
