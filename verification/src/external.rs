//! The read-only snapshot of an input that is handed to the host.

use vstd::prelude::*;
use vstd::std_specs::convert::FromSpecImpl;
use crate::input_type::{
    clone_bytes, clone_labels, opt_labels_model, FloatBits, InputModel, InputType, Label,
    TextureStatus,
};

verus! {

/// What the host sees of one input. It owns all of its data: nothing in it
/// points into the engine.
#[derive(Clone, Debug, PartialEq, Eq)]
#[allow(inconsistent_fields)]
pub enum JsInputValue {
    Float { current: FloatBits, min: FloatBits, max: FloatBits, default: FloatBits },
    Int { current: i32, min: i32, max: i32, default: i32, labels: Option<Vec<Label>> },
    Point {
        current: [FloatBits; 2],
        min: [FloatBits; 2],
        max: [FloatBits; 2],
        default: [FloatBits; 2],
    },
    Bool { current: bool, default: bool },
    Color { current: [FloatBits; 4], default: [FloatBits; 4] },
    Image { status: String, width: Option<u32>, height: Option<u32> },
    RawBytes { bytes: Vec<u8> },
}

/// The mathematical value of a [`JsInputValue`].
#[allow(inconsistent_fields)]
pub enum SnapshotModel {
    Float { current: FloatBits, min: FloatBits, max: FloatBits, default: FloatBits },
    Int { current: i32, min: i32, max: i32, default: i32, labels: Option<Seq<(Seq<char>, int)>> },
    Point {
        current: [FloatBits; 2],
        min: [FloatBits; 2],
        max: [FloatBits; 2],
        default: [FloatBits; 2],
    },
    Bool { current: bool, default: bool },
    Color { current: [FloatBits; 4], default: [FloatBits; 4] },
    Image { status: Seq<char>, width: Option<u32>, height: Option<u32> },
    RawBytes { bytes: Seq<u8> },
}

impl View for JsInputValue {
    type V = SnapshotModel;

    open spec fn view(&self) -> SnapshotModel {
        match *self {
            JsInputValue::Float { current, min, max, default } => SnapshotModel::Float {
                current,
                min,
                max,
                default,
            },
            JsInputValue::Int { current, min, max, default, labels } => SnapshotModel::Int {
                current,
                min,
                max,
                default,
                labels: opt_labels_model(labels),
            },
            JsInputValue::Point { current, min, max, default } => SnapshotModel::Point {
                current,
                min,
                max,
                default,
            },
            JsInputValue::Bool { current, default } => SnapshotModel::Bool { current, default },
            JsInputValue::Color { current, default } => SnapshotModel::Color { current, default },
            JsInputValue::Image { status, width, height } => SnapshotModel::Image {
                status: status@,
                width,
                height,
            },
            JsInputValue::RawBytes { bytes } => SnapshotModel::RawBytes { bytes: bytes@ },
        }
    }
}

/// The status word of an image input with nothing loaded.
pub open spec fn status_uninit() -> Seq<char> {
    seq!['u', 'n', 'i', 'n', 'i', 't']
}

/// The status word of an image input with a texture loaded.
pub open spec fn status_loaded() -> Seq<char> {
    seq!['l', 'o', 'a', 'd', 'e', 'd']
}

/// The snapshot that an input projects to: every numeric field as it is, a
/// shader boolean as its truth value, an image as a status word with the
/// texture's size where one is loaded, raw bytes as a copy of the buffer.
pub open spec fn snapshot_of(input: InputModel) -> SnapshotModel {
    match input {
        InputModel::Float(b) => SnapshotModel::Float {
            current: b.current,
            min: b.min,
            max: b.max,
            default: b.default,
        },
        InputModel::Int(b, labels) => SnapshotModel::Int {
            current: b.current,
            min: b.min,
            max: b.max,
            default: b.default,
            labels,
        },
        InputModel::Point(b) => SnapshotModel::Point {
            current: b.current,
            min: b.min,
            max: b.max,
            default: b.default,
        },
        InputModel::Bool(d) => SnapshotModel::Bool {
            current: d.current.truth(),
            default: d.default.truth(),
        },
        InputModel::Color(d) => SnapshotModel::Color { current: d.current, default: d.default },
        InputModel::Image(TextureStatus::Uninit) => SnapshotModel::Image {
            status: status_uninit(),
            width: None,
            height: None,
        },
        InputModel::Image(TextureStatus::Loaded { width, height }) => SnapshotModel::Image {
            status: status_loaded(),
            width: Some(width),
            height: Some(height),
        },
        InputModel::RawBytes(bytes) => SnapshotModel::RawBytes { bytes },
    }
}

impl<'a> FromSpecImpl<&'a InputType> for JsInputValue {
    open spec fn obeys_from_spec() -> bool {
        false
    }

    open spec fn from_spec(input: &'a InputType) -> JsInputValue {
        arbitrary()
    }
}

impl<'a> From<&'a InputType> for JsInputValue {
    /// Projects an input to the snapshot that the host reads.
    fn from(input: &'a InputType) -> (r: JsInputValue)
        ensures
            r@ == snapshot_of(input@),
    {
        match input {
            InputType::Float(b) => JsInputValue::Float {
                current: b.current,
                min: b.min,
                max: b.max,
                default: b.default,
            },
            InputType::Int(b, labels) => {
                let copied: Option<Vec<Label>> = match labels {
                    Some(v) => Some(clone_labels(v)),
                    None => None,
                };
                JsInputValue::Int {
                    current: b.current,
                    min: b.min,
                    max: b.max,
                    default: b.default,
                    labels: copied,
                }
            },
            InputType::Point(b) => JsInputValue::Point {
                current: b.current,
                min: b.min,
                max: b.max,
                default: b.default,
            },
            InputType::Bool(d) => JsInputValue::Bool {
                current: d.current.is_true(),
                default: d.default.is_true(),
            },
            InputType::Color(d) => JsInputValue::Color { current: d.current, default: d.default },
            InputType::Image(status) => match status {
                TextureStatus::Uninit => {
                    proof {
                        reveal_strlit("uninit");
                        assert("uninit"@ =~= status_uninit());
                    }
                    JsInputValue::Image { status: "uninit".to_owned(), width: None, height: None }
                },
                TextureStatus::Loaded { width, height } => {
                    proof {
                        reveal_strlit("loaded");
                        assert("loaded"@ =~= status_loaded());
                    }
                    JsInputValue::Image {
                        status: "loaded".to_owned(),
                        width: Some(*width),
                        height: Some(*height),
                    }
                },
            },
            InputType::RawBytes(bytes) => JsInputValue::RawBytes { bytes: clone_bytes(bytes) },
        }
    }
}

} // verus!
