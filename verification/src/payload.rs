//! Values that the host asks to write into an input, and the rule by which
//! one is written.

use vstd::prelude::*;
use crate::external::{snapshot_of, JsInputValue, SnapshotModel};
use crate::input_type::{
    clone_bytes, BoundedInput, DiscreteInput, FloatBits, InputModel, InputType, InputVariant,
    ShaderBool,
};

verus! {

/// Why an input could not be set.
#[derive(Clone, Copy, Debug, PartialEq, Eq, Structural)]
pub enum SetInputError {
    /// No input is registered under the name.
    InputNotFound,
    /// The input is of a kind that cannot be set by value.
    UnsupportedInputType,
    /// The payload has not the shape that the input's kind takes.
    Deserialization,
}

impl SetInputError {
    /// The words of this error.
    pub open spec fn text(self) -> Seq<char> {
        match self {
            SetInputError::InputNotFound => "Input not found"@,
            SetInputError::UnsupportedInputType => "Unsupported input type for setting value"@,
            SetInputError::Deserialization => "Payload does not fit the input's type"@,
        }
    }

    /// The words of this error, for the host.
    pub fn message(&self) -> (r: String)
        ensures
            r@ == self.text(),
    {
        match self {
            SetInputError::InputNotFound => "Input not found".to_owned(),
            SetInputError::UnsupportedInputType => "Unsupported input type for setting value".to_owned(),
            SetInputError::Deserialization => "Payload does not fit the input's type".to_owned(),
        }
    }
}

/// The shape of payload that an input of a given kind takes.
#[derive(Clone, Copy, Debug, PartialEq, Eq, Structural)]
pub enum PayloadShape {
    /// One number.
    Float,
    /// One integer.
    Int,
    /// Two numbers.
    Point,
    /// One truth value.
    Bool,
    /// Four numbers.
    Color,
    /// A sequence of bytes.
    Bytes,
}

/// A value decoded from the host, ready to be written into an input.
#[derive(Clone, Debug, PartialEq, Eq)]
pub enum InputPayload {
    Float(FloatBits),
    Int(i32),
    Point([FloatBits; 2]),
    Bool(bool),
    Color([FloatBits; 4]),
    Bytes(Vec<u8>),
}

/// The mathematical value of an [`InputPayload`].
pub enum PayloadModel {
    Float(FloatBits),
    Int(i32),
    Point([FloatBits; 2]),
    Bool(bool),
    Color([FloatBits; 4]),
    Bytes(Seq<u8>),
}

impl PayloadModel {
    /// The shape of this payload.
    pub open spec fn shape(self) -> PayloadShape {
        match self {
            PayloadModel::Float(_) => PayloadShape::Float,
            PayloadModel::Int(_) => PayloadShape::Int,
            PayloadModel::Point(_) => PayloadShape::Point,
            PayloadModel::Bool(_) => PayloadShape::Bool,
            PayloadModel::Color(_) => PayloadShape::Color,
            PayloadModel::Bytes(_) => PayloadShape::Bytes,
        }
    }
}

impl View for InputPayload {
    type V = PayloadModel;

    open spec fn view(&self) -> PayloadModel {
        match *self {
            InputPayload::Float(v) => PayloadModel::Float(v),
            InputPayload::Int(v) => PayloadModel::Int(v),
            InputPayload::Point(v) => PayloadModel::Point(v),
            InputPayload::Bool(v) => PayloadModel::Bool(v),
            InputPayload::Color(v) => PayloadModel::Color(v),
            InputPayload::Bytes(v) => PayloadModel::Bytes(v@),
        }
    }
}

impl InputPayload {
    /// The shape of this payload.
    pub fn shape(&self) -> (r: PayloadShape)
        ensures
            r == self@.shape(),
    {
        match self {
            InputPayload::Float(_) => PayloadShape::Float,
            InputPayload::Int(_) => PayloadShape::Int,
            InputPayload::Point(_) => PayloadShape::Point,
            InputPayload::Bool(_) => PayloadShape::Bool,
            InputPayload::Color(_) => PayloadShape::Color,
            InputPayload::Bytes(_) => PayloadShape::Bytes,
        }
    }
}

/// The shape of payload that an input of the given kind takes, or the reason
/// why it takes none. It depends on the input's kind alone.
pub open spec fn shape_for(variant: InputVariant) -> Result<PayloadShape, SetInputError> {
    match variant {
        InputVariant::Float => Ok(PayloadShape::Float),
        InputVariant::Int => Ok(PayloadShape::Int),
        InputVariant::Point => Ok(PayloadShape::Point),
        InputVariant::Bool => Ok(PayloadShape::Bool),
        InputVariant::Color => Ok(PayloadShape::Color),
        InputVariant::Bytes => Ok(PayloadShape::Bytes),
        InputVariant::Image => Err(SetInputError::UnsupportedInputType),
    }
}

/// A buffer after a payload was laid over its front: as long as before, the
/// payload's bytes where the payload reaches, the buffer's own bytes behind.
pub open spec fn overlay(buffer: Seq<u8>, payload: Seq<u8>) -> Seq<u8> {
    Seq::new(
        buffer.len(),
        |i: int|
            if i < payload.len() {
                payload[i]
            } else {
                buffer[i]
            },
    )
}

/// How many bytes a payload overwrites in a buffer.
pub open spec fn copied_len(buffer: Seq<u8>, payload: Seq<u8>) -> nat {
    if buffer.len() <= payload.len() {
        buffer.len()
    } else {
        payload.len()
    }
}

/// The input after a payload of the right shape was written into it. Only the
/// current value changes: range, default and labels stay.
pub open spec fn written(input: InputModel, payload: PayloadModel) -> InputModel {
    match (input, payload) {
        (InputModel::Float(b), PayloadModel::Float(v)) => InputModel::Float(
            BoundedInput { current: v, min: b.min, max: b.max, default: b.default },
        ),
        (InputModel::Int(b, labels), PayloadModel::Int(v)) => InputModel::Int(
            BoundedInput { current: v, min: b.min, max: b.max, default: b.default },
            labels,
        ),
        (InputModel::Point(b), PayloadModel::Point(v)) => InputModel::Point(
            BoundedInput { current: v, min: b.min, max: b.max, default: b.default },
        ),
        (InputModel::Bool(d), PayloadModel::Bool(v)) => InputModel::Bool(
            DiscreteInput { current: ShaderBool::lifted(v), default: d.default },
        ),
        (InputModel::Color(d), PayloadModel::Color(v)) => InputModel::Color(
            DiscreteInput { current: v, default: d.default },
        ),
        (InputModel::RawBytes(buffer), PayloadModel::Bytes(bytes)) => InputModel::RawBytes(
            overlay(buffer, bytes),
        ),
        _ => input,
    }
}

/// The outcome of setting an input: the kind of the input decides which shape
/// is taken, never the payload. An image takes none; a payload of another
/// shape than the input's is refused; otherwise the payload is written.
pub open spec fn assigned(input: InputModel, payload: PayloadModel) -> Result<
    InputModel,
    SetInputError,
> {
    match shape_for(input.variant()) {
        Err(e) => Err(e),
        Ok(shape) => if payload.shape() == shape {
            Ok(written(input, payload))
        } else {
            Err(SetInputError::Deserialization)
        },
    }
}

/// Lays `payload` over the front of `buffer`, which keeps its length.
pub fn copy_prefix(buffer: &mut Vec<u8>, payload: &Vec<u8>)
    ensures
        final(buffer)@ == overlay(old(buffer)@, payload@),
        final(buffer)@.len() == old(buffer)@.len(),
        forall|i: int|
            0 <= i < copied_len(old(buffer)@, payload@) ==> final(buffer)@[i] == payload@[i],
        forall|i: int|
            copied_len(old(buffer)@, payload@) <= i < old(buffer)@.len() ==> final(buffer)@[i]
                == old(buffer)@[i],
{
    let copy_len: usize = if buffer.len() < payload.len() {
        buffer.len()
    } else {
        payload.len()
    };
    let mut i: usize = 0;
    while i < copy_len
        invariant
            i <= copy_len,
            copy_len <= payload@.len(),
            copy_len <= old(buffer)@.len(),
            buffer@.len() == old(buffer)@.len(),
            forall|k: int| 0 <= k < i ==> buffer@[k] == payload@[k],
            forall|k: int| i <= k < buffer@.len() ==> buffer@[k] == old(buffer)@[k],
        decreases copy_len - i,
    {
        buffer.set(i, payload[i]);
        i += 1;
    }
    assert(buffer@ =~= overlay(old(buffer)@, payload@));
}

impl InputVariant {
    /// The shape of payload that an input of this kind takes.
    pub fn payload_shape(&self) -> (r: Result<PayloadShape, SetInputError>)
        ensures
            r == shape_for(*self),
    {
        match self {
            InputVariant::Float => Ok(PayloadShape::Float),
            InputVariant::Int => Ok(PayloadShape::Int),
            InputVariant::Point => Ok(PayloadShape::Point),
            InputVariant::Bool => Ok(PayloadShape::Bool),
            InputVariant::Color => Ok(PayloadShape::Color),
            InputVariant::Bytes => Ok(PayloadShape::Bytes),
            InputVariant::Image => Err(SetInputError::UnsupportedInputType),
        }
    }
}

impl InputType {
    /// Writes a payload into this input. On an error the input is as before.
    pub fn assign(&mut self, payload: &InputPayload) -> (r: Result<(), SetInputError>)
        ensures
            match assigned(old(self)@, payload@) {
                Ok(after) => r == Ok::<(), SetInputError>(()) && final(self)@ == after,
                Err(e) => r == Err::<(), SetInputError>(e) && final(self)@ == old(self)@,
            },
    {
        match self {
            InputType::Float(b) => match payload {
                InputPayload::Float(v) => {
                    b.current = *v;
                    Ok(())
                },
                _ => Err(SetInputError::Deserialization),
            },
            InputType::Int(b, _) => match payload {
                InputPayload::Int(v) => {
                    b.current = *v;
                    Ok(())
                },
                _ => Err(SetInputError::Deserialization),
            },
            InputType::Point(b) => match payload {
                InputPayload::Point(v) => {
                    b.current = *v;
                    Ok(())
                },
                _ => Err(SetInputError::Deserialization),
            },
            InputType::Bool(d) => match payload {
                InputPayload::Bool(v) => {
                    d.current = ShaderBool::from_bool(*v);
                    Ok(())
                },
                _ => Err(SetInputError::Deserialization),
            },
            InputType::Color(d) => match payload {
                InputPayload::Color(v) => {
                    d.current = *v;
                    Ok(())
                },
                _ => Err(SetInputError::Deserialization),
            },
            InputType::RawBytes(buffer) => match payload {
                InputPayload::Bytes(bytes) => {
                    copy_prefix(buffer, bytes);
                    Ok(())
                },
                _ => Err(SetInputError::Deserialization),
            },
            InputType::Image(_) => Err(SetInputError::UnsupportedInputType),
        }
    }
}

/// The payload that carries a snapshot's current value: what the host sends
/// back to leave an input as it read it. An image has none.
pub open spec fn current_of(snapshot: SnapshotModel) -> Option<PayloadModel> {
    match snapshot {
        SnapshotModel::Float { current, .. } => Some(PayloadModel::Float(current)),
        SnapshotModel::Int { current, .. } => Some(PayloadModel::Int(current)),
        SnapshotModel::Point { current, .. } => Some(PayloadModel::Point(current)),
        SnapshotModel::Bool { current, .. } => Some(PayloadModel::Bool(current)),
        SnapshotModel::Color { current, .. } => Some(PayloadModel::Color(current)),
        SnapshotModel::RawBytes { bytes } => Some(PayloadModel::Bytes(bytes)),
        SnapshotModel::Image { .. } => None,
    }
}

impl JsInputValue {
    /// The payload that carries this snapshot's current value.
    pub fn current_payload(&self) -> (r: Option<InputPayload>)
        ensures
            match current_of(self@) {
                Some(p) => r is Some && r.unwrap()@ == p,
                None => r is None,
            },
    {
        match self {
            JsInputValue::Float { current, .. } => Some(InputPayload::Float(*current)),
            JsInputValue::Int { current, .. } => Some(InputPayload::Int(*current)),
            JsInputValue::Point { current, .. } => Some(InputPayload::Point(*current)),
            JsInputValue::Bool { current, .. } => Some(InputPayload::Bool(*current)),
            JsInputValue::Color { current, .. } => Some(InputPayload::Color(*current)),
            JsInputValue::RawBytes { bytes } => Some(InputPayload::Bytes(clone_bytes(bytes))),
            JsInputValue::Image { .. } => None,
        }
    }
}

/// Writing back what was read changes nothing: for every input but an image,
/// the current value of its snapshot is a payload that the input takes, and
/// the input after taking it is the input before.
pub proof fn lemma_write_back_is_identity(input: InputModel)
    requires
        input.variant() != InputVariant::Image,
    ensures
        current_of(snapshot_of(input)) is Some,
        assigned(input, current_of(snapshot_of(input)).unwrap()) == Ok::<InputModel, SetInputError>(
            input,
        ),
{
    match input {
        InputModel::Bool(d) => {
            assert(ShaderBool::lifted(d.current.truth()) == d.current);
        },
        InputModel::RawBytes(bytes) => {
            assert(overlay(bytes, bytes) =~= bytes);
        },
        _ => {},
    }
}

/// A payload at least as long as the buffer fills the whole buffer with its
/// first bytes, and the buffer keeps its length.
pub proof fn lemma_overlay_long_payload(buffer: Seq<u8>, payload: Seq<u8>)
    requires
        payload.len() >= buffer.len(),
    ensures
        overlay(buffer, payload) == payload.subrange(0, buffer.len() as int),
        overlay(buffer, payload).len() == buffer.len(),
        copied_len(buffer, payload) == buffer.len(),
{
    assert(overlay(buffer, payload) =~= payload.subrange(0, buffer.len() as int));
}

/// A payload no longer than the buffer replaces the buffer's front by all
/// of its bytes, and the bytes behind stay as they were.
pub proof fn lemma_overlay_short_payload(buffer: Seq<u8>, payload: Seq<u8>)
    requires
        payload.len() <= buffer.len(),
    ensures
        overlay(buffer, payload) == payload + buffer.subrange(
            payload.len() as int,
            buffer.len() as int,
        ),
        overlay(buffer, payload).len() == buffer.len(),
        copied_len(buffer, payload) == payload.len(),
{
    assert(overlay(buffer, payload) =~= payload + buffer.subrange(
        payload.len() as int,
        buffer.len() as int,
    ));
}

/// An image input refuses every payload, whatever its shape.
pub proof fn lemma_image_refuses(input: InputModel, payload: PayloadModel)
    requires
        input.variant() == InputVariant::Image,
    ensures
        assigned(input, payload) == Err::<InputModel, SetInputError>(
            SetInputError::UnsupportedInputType,
        ),
{
}

/// A payload that an input takes leaves the input's kind, range, default and
/// labels as they were; for a byte buffer, its length.
pub proof fn lemma_assigned_keeps_metadata(input: InputModel, payload: PayloadModel)
    requires
        assigned(input, payload) is Ok,
    ensures
        ({
            let after = assigned(input, payload).unwrap();
            &&& after.variant() == input.variant()
            &&& match (input, after) {
                (InputModel::Float(a), InputModel::Float(b)) => a.min == b.min && a.max == b.max
                    && a.default == b.default,
                (InputModel::Int(a, la), InputModel::Int(b, lb)) => a.min == b.min && a.max
                    == b.max && a.default == b.default && la == lb,
                (InputModel::Point(a), InputModel::Point(b)) => a.min == b.min && a.max == b.max
                    && a.default == b.default,
                (InputModel::Bool(a), InputModel::Bool(b)) => a.default == b.default,
                (InputModel::Color(a), InputModel::Color(b)) => a.default == b.default,
                (InputModel::RawBytes(a), InputModel::RawBytes(b)) => a.len() == b.len(),
                _ => false,
            }
        }),
{
}

} // verus!
