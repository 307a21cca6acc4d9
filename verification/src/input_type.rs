//! The typed inputs of a shader, as the bridge holds and edits them.
//!
//! Every floating-point quantity is carried as the bit pattern of an IEEE-754
//! single-precision number, so that a value read out and written back is the
//! same value bit for bit.

use vstd::prelude::*;

verus! {

/// A single-precision number, held as its bit pattern.
pub type FloatBits = u32;

/// The boolean that a shader uniform holds. It is kept apart from the native
/// `bool`: the evaluator reads it as a whole machine word.
#[derive(Clone, Copy, Debug, PartialEq, Eq, Structural)]
pub enum ShaderBool {
    False,
    True,
}

impl ShaderBool {
    /// What the shader boolean stands for as a plain truth value.
    pub open spec fn truth(self) -> bool {
        self == ShaderBool::True
    }

    /// The shader boolean that stands for a plain truth value.
    pub open spec fn lifted(b: bool) -> ShaderBool {
        if b {
            ShaderBool::True
        } else {
            ShaderBool::False
        }
    }

    /// Whether this value is `True`.
    pub fn is_true(&self) -> (r: bool)
        ensures
            r == self.truth(),
    {
        match self {
            ShaderBool::True => true,
            ShaderBool::False => false,
        }
    }

    /// Lifts a plain truth value into a shader boolean.
    pub fn from_bool(b: bool) -> (r: ShaderBool)
        ensures
            r == ShaderBool::lifted(b),
            r.truth() == b,
    {
        if b {
            ShaderBool::True
        } else {
            ShaderBool::False
        }
    }
}

/// A value with a range and a default.
#[derive(Clone, Copy, Debug, PartialEq, Eq)]
pub struct BoundedInput<T: Copy> {
    pub current: T,
    pub min: T,
    pub max: T,
    pub default: T,
}

/// A value with a default and no range.
#[derive(Clone, Copy, Debug, PartialEq, Eq)]
pub struct DiscreteInput<T: Copy> {
    pub current: T,
    pub default: T,
}

/// Whether a texture input has pixels behind it.
#[derive(Clone, Copy, Debug, PartialEq, Eq)]
pub enum TextureStatus {
    /// Nothing was loaded yet.
    Uninit,
    /// A texture of this size is loaded.
    Loaded { width: u32, height: u32 },
}

/// The kind of an input, without its value.
#[derive(Clone, Copy, Debug, PartialEq, Eq, Structural)]
pub enum InputVariant {
    Float,
    Int,
    Point,
    Bool,
    Color,
    Image,
    Bytes,
}

/// One label of an integer input: a name and the value it stands for.
pub type Label = (String, i32);

/// A named input of the shader with its current state.
#[derive(Clone, Debug, PartialEq, Eq)]
pub enum InputType {
    Float(BoundedInput<FloatBits>),
    Int(BoundedInput<i32>, Option<Vec<Label>>),
    Point(BoundedInput<[FloatBits; 2]>),
    Bool(DiscreteInput<ShaderBool>),
    Color(DiscreteInput<[FloatBits; 4]>),
    Image(TextureStatus),
    RawBytes(Vec<u8>),
}

/// The mathematical value of an [`InputType`].
pub enum InputModel {
    Float(BoundedInput<FloatBits>),
    Int(BoundedInput<i32>, Option<Seq<(Seq<char>, int)>>),
    Point(BoundedInput<[FloatBits; 2]>),
    Bool(DiscreteInput<ShaderBool>),
    Color(DiscreteInput<[FloatBits; 4]>),
    Image(TextureStatus),
    RawBytes(Seq<u8>),
}

/// The labels of an integer input as a sequence of (name, value) pairs.
pub open spec fn labels_model(labels: Seq<Label>) -> Seq<(Seq<char>, int)> {
    Seq::new(labels.len(), |i: int| (labels[i].0@, labels[i].1 as int))
}

/// The optional labels of an integer input as a mathematical value.
pub open spec fn opt_labels_model(labels: Option<Vec<Label>>) -> Option<Seq<(Seq<char>, int)>> {
    match labels {
        Some(v) => Some(labels_model(v@)),
        None => None,
    }
}

impl InputModel {
    /// The kind of this input.
    pub open spec fn variant(self) -> InputVariant {
        match self {
            InputModel::Float(_) => InputVariant::Float,
            InputModel::Int(_, _) => InputVariant::Int,
            InputModel::Point(_) => InputVariant::Point,
            InputModel::Bool(_) => InputVariant::Bool,
            InputModel::Color(_) => InputVariant::Color,
            InputModel::Image(_) => InputVariant::Image,
            InputModel::RawBytes(_) => InputVariant::Bytes,
        }
    }
}

impl View for InputType {
    type V = InputModel;

    open spec fn view(&self) -> InputModel {
        match *self {
            InputType::Float(b) => InputModel::Float(b),
            InputType::Int(b, labels) => InputModel::Int(b, opt_labels_model(labels)),
            InputType::Point(b) => InputModel::Point(b),
            InputType::Bool(d) => InputModel::Bool(d),
            InputType::Color(d) => InputModel::Color(d),
            InputType::Image(s) => InputModel::Image(s),
            InputType::RawBytes(bytes) => InputModel::RawBytes(bytes@),
        }
    }
}

/// Copies a list of labels.
pub fn clone_labels(labels: &Vec<Label>) -> (r: Vec<Label>)
    ensures
        labels_model(r@) == labels_model(labels@),
        r@.len() == labels@.len(),
{
    let mut out: Vec<Label> = Vec::new();
    let mut i: usize = 0;
    while i < labels.len()
        invariant
            i <= labels.len(),
            out@.len() == i,
            forall|k: int| 0 <= k < i ==> out@[k].0@ == labels@[k].0@ && out@[k].1 == labels@[k].1,
        decreases labels.len() - i,
    {
        let name: String = labels[i].0.clone();
        let value: i32 = labels[i].1;
        out.push((name, value));
        i += 1;
    }
    assert(labels_model(out@) =~= labels_model(labels@));
    out
}

/// Copies a byte buffer.
pub fn clone_bytes(bytes: &Vec<u8>) -> (r: Vec<u8>)
    ensures
        r@ == bytes@,
{
    let mut out: Vec<u8> = Vec::new();
    let mut i: usize = 0;
    while i < bytes.len()
        invariant
            i <= bytes.len(),
            out@ == bytes@.subrange(0, i as int),
        decreases bytes.len() - i,
    {
        out.push(bytes[i]);
        assert(out@ =~= bytes@.subrange(0, i + 1));
        i += 1;
    }
    assert(bytes@.subrange(0, bytes@.len() as int) =~= bytes@);
    out
}

impl InputType {
    /// The kind of this input.
    pub fn variant(&self) -> (r: InputVariant)
        ensures
            r == self@.variant(),
    {
        match self {
            InputType::Float(_) => InputVariant::Float,
            InputType::Int(_, _) => InputVariant::Int,
            InputType::Point(_) => InputVariant::Point,
            InputType::Bool(_) => InputVariant::Bool,
            InputType::Color(_) => InputVariant::Color,
            InputType::Image(_) => InputVariant::Image,
            InputType::RawBytes(_) => InputVariant::Bytes,
        }
    }

    /// An independent copy with the same value.
    pub fn duplicate(&self) -> (r: InputType)
        ensures
            r@ == self@,
    {
        match self {
            InputType::Float(b) => InputType::Float(*b),
            InputType::Int(b, labels) => {
                let copied: Option<Vec<Label>> = match labels {
                    Some(v) => Some(clone_labels(v)),
                    None => None,
                };
                InputType::Int(*b, copied)
            },
            InputType::Point(b) => InputType::Point(*b),
            InputType::Bool(d) => InputType::Bool(*d),
            InputType::Color(d) => InputType::Color(*d),
            InputType::Image(s) => InputType::Image(*s),
            InputType::RawBytes(bytes) => InputType::RawBytes(clone_bytes(bytes)),
        }
    }
}

} // verus!
