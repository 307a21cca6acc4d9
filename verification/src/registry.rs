//! The registry of named inputs: typed get, set and list by name.

use vstd::prelude::*;
use crate::external::{snapshot_of, JsInputValue};
use crate::input_type::{InputModel, InputType, InputVariant};
use crate::payload::{
    assigned, current_of, lemma_write_back_is_identity, shape_for, InputPayload, PayloadModel,
    PayloadShape, SetInputError,
};

verus! {

/// An input together with the name it is registered under.
#[derive(Clone, Debug, PartialEq, Eq)]
pub struct NamedInput {
    pub name: String,
    pub input: InputType,
}

/// The registry as a mathematical value: the inputs in the order in which
/// they were registered, each with its name.
pub type RegistryModel = Seq<(Seq<char>, InputModel)>;

/// Whether an input is registered under `name`.
pub open spec fn has_name(entries: RegistryModel, name: Seq<char>) -> bool {
    exists|i: int| 0 <= i < entries.len() && (#[trigger] entries[i]).0 == name
}

/// The place of the input registered under `name`, where there is one.
pub open spec fn index_of(entries: RegistryModel, name: Seq<char>) -> int {
    choose|i: int| 0 <= i < entries.len() && (#[trigger] entries[i]).0 == name
}

/// The input registered under `name`, if any.
pub open spec fn lookup(entries: RegistryModel, name: Seq<char>) -> Option<InputModel> {
    if has_name(entries, name) {
        Some(entries[index_of(entries, name)].1)
    } else {
        None
    }
}

/// No two inputs share a name.
pub open spec fn names_distinct(entries: RegistryModel) -> bool {
    forall|i: int, j: int|
        0 <= i < j < entries.len() ==> (#[trigger] entries[i]).0 != (#[trigger] entries[j]).0
}

/// The registry after `payload` was set on the input called `name`, with the
/// result of the call: unchanged with an error where the name is unknown or
/// the input refuses the payload, else with that one input written.
pub open spec fn after_set(entries: RegistryModel, name: Seq<char>, payload: PayloadModel) -> (
    RegistryModel,
    Result<(), SetInputError>,
) {
    match lookup(entries, name) {
        None => (entries, Err(SetInputError::InputNotFound)),
        Some(input) => match assigned(input, payload) {
            Err(e) => (entries, Err(e)),
            Ok(after) => (entries.update(index_of(entries, name), (name, after)), Ok(())),
        },
    }
}

/// The named inputs of one engine. Names are unique, and the order of
/// registration is kept.
pub struct InputRegistry {
    entries: Vec<NamedInput>,
}

impl View for InputRegistry {
    type V = RegistryModel;

    closed spec fn view(&self) -> RegistryModel {
        Seq::new(self.entries@.len(), |i: int| (self.entries@[i].name@, self.entries@[i].input@))
    }
}

impl InputRegistry {
    /// The registry's invariant: no two inputs share a name.
    pub open spec fn wf(&self) -> bool {
        names_distinct(self@)
    }

    /// A registry without inputs.
    pub fn new() -> (r: InputRegistry)
        ensures
            r@ == Seq::<(Seq<char>, InputModel)>::empty(),
            r.wf(),
    {
        let r = InputRegistry { entries: Vec::new() };
        assert(r@ =~= Seq::<(Seq<char>, InputModel)>::empty());
        r
    }

    /// How many inputs are registered.
    pub fn len(&self) -> (r: usize)
        ensures
            r == self@.len(),
    {
        self.entries.len()
    }

    fn find(&self, name: &str) -> (r: Option<usize>)
        requires
            self.wf(),
        ensures
            match r {
                Some(i) => i < self@.len() && self@[i as int].0 == name@ && has_name(
                    self@,
                    name@,
                ) && index_of(self@, name@) == i && self.entries@[i as int].input@
                    == self@[i as int].1,
                None => !has_name(self@, name@),
            },
    {
        let wanted: String = name.to_owned();
        let mut i: usize = 0;
        while i < self.entries.len()
            invariant
                i <= self.entries@.len(),
                self.entries@.len() == self@.len(),
                wanted@ == name@,
                self.wf(),
                forall|k: int| 0 <= k < i ==> (#[trigger] self@[k]).0 != name@,
            decreases self.entries.len() - i,
        {
            if self.entries[i].name == wanted {
                proof {
                    assert(self@[i as int].0 == name@);
                    let j = index_of(self@, name@);
                    assert(0 <= j < self@.len() && self@[j].0 == name@);
                    assert(j == i);
                }
                return Some(i);
            }
            i += 1;
        }
        None
    }

    /// Adds an input under a new name at the end. Where the name is taken
    /// the registry stays as it is and the answer is `false`.
    pub fn register(&mut self, name: String, input: InputType) -> (r: bool)
        requires
            old(self).wf(),
        ensures
            final(self).wf(),
            r == !has_name(old(self)@, name@),
            r ==> final(self)@ == old(self)@.push((name@, input@)),
            !r ==> final(self)@ == old(self)@,
            r ==> lookup(final(self)@, name@) == Some(input@),
            forall|other: Seq<char>|
                other != name@ ==> #[trigger] lookup(final(self)@, other) == lookup(
                    old(self)@,
                    other,
                ),
    {
        proof {
            if !has_name(old(self)@, name@) {
                assert forall|other: Seq<char>| true implies #[trigger] lookup(
                    old(self)@.push((name@, input@)),
                    other,
                ) == (if other == name@ {
                    Some(input@)
                } else {
                    lookup(old(self)@, other)
                }) by {
                    lemma_register_reads_back(old(self)@, name@, input@, other);
                }
            }
        }
        match self.find(name.as_str()) {
            Some(_) => false,
            None => {
                self.entries.push(NamedInput { name, input });
                assert(self@ =~= old(self)@.push((name@, input@)));
                true
            },
        }
    }

    /// The snapshot of the input called `name`; `None` where no input has
    /// that name, which is no error.
    pub fn get_input(&self, name: &str) -> (r: Option<JsInputValue>)
        requires
            self.wf(),
        ensures
            match lookup(self@, name@) {
                Some(input) => r is Some && r.unwrap()@ == snapshot_of(input),
                None => r is None,
            },
    {
        match self.find(name) {
            Some(i) => Some(JsInputValue::from(&self.entries[i].input)),
            None => None,
        }
    }

    /// A copy of the input called `name`, with everything it holds.
    pub fn get_input_state(&self, name: &str) -> (r: Option<InputType>)
        requires
            self.wf(),
        ensures
            match lookup(self@, name@) {
                Some(input) => r is Some && r.unwrap()@ == input,
                None => r is None,
            },
    {
        match self.find(name) {
            Some(i) => Some(self.entries[i].input.duplicate()),
            None => None,
        }
    }

    /// The shape of payload that the input called `name` takes. It is decided
    /// by the kind of the registered input, before any payload is looked at.
    pub fn payload_shape(&self, name: &str) -> (r: Result<PayloadShape, SetInputError>)
        requires
            self.wf(),
        ensures
            r == match lookup(self@, name@) {
                Some(input) => shape_for(input.variant()),
                None => Err(SetInputError::InputNotFound),
            },
    {
        match self.find(name) {
            Some(i) => {
                let variant: InputVariant = self.entries[i].input.variant();
                variant.payload_shape()
            },
            None => Err(SetInputError::InputNotFound),
        }
    }

    /// Sets the input called `name` from a payload. An unknown name, an image
    /// input and a payload of the wrong shape are refused, and then nothing
    /// has changed.
    pub fn set_input(&mut self, name: &str, payload: &InputPayload) -> (r: Result<
        (),
        SetInputError,
    >)
        requires
            old(self).wf(),
        ensures
            final(self).wf(),
            final(self)@ == after_set(old(self)@, name@, payload@).0,
            r == after_set(old(self)@, name@, payload@).1,
            r is Err ==> final(self)@ == old(self)@,
            final(self)@.len() == old(self)@.len(),
            forall|i: int|
                0 <= i < old(self)@.len() ==> (#[trigger] final(self)@[i]).0 == old(self)@[i].0,
            r is Ok ==> lookup(final(self)@, name@) == Some(
                assigned(lookup(old(self)@, name@).unwrap(), payload@).unwrap(),
            ),
            forall|other: Seq<char>|
                other != name@ ==> #[trigger] lookup(final(self)@, other) == lookup(
                    old(self)@,
                    other,
                ),
    {
        proof {
            lemma_set_reads_back(old(self)@, name@, payload@);
            assert forall|other: Seq<char>| other != name@ implies #[trigger] lookup(
                after_set(old(self)@, name@, payload@).0,
                other,
            ) == lookup(old(self)@, other) by {
                lemma_set_touches_one(old(self)@, name@, payload@, other);
            }
        }
        match self.find(name) {
            None => Err(SetInputError::InputNotFound),
            Some(i) => {
                let r = self.entries[i].input.assign(payload);
                proof {
                    match assigned(old(self)@[i as int].1, payload@) {
                        Ok(after) => {
                            assert(self@ =~= old(self)@.update(i as int, (name@, after)));
                        },
                        Err(_) => {
                            assert(self@ =~= old(self)@);
                        },
                    }
                }
                r
            },
        }
    }

    /// Every input with its snapshot, in the order of registration.
    pub fn get_input_list(&self) -> (r: Vec<(String, JsInputValue)>)
        ensures
            r@.len() == self@.len(),
            forall|i: int|
                0 <= i < self@.len() ==> (#[trigger] r@[i]).0@ == self@[i].0 && r@[i].1@
                    == snapshot_of(self@[i].1),
    {
        let mut out: Vec<(String, JsInputValue)> = Vec::new();
        let mut i: usize = 0;
        while i < self.entries.len()
            invariant
                i <= self.entries@.len(),
                self.entries@.len() == self@.len(),
                out@.len() == i,
                forall|k: int|
                    0 <= k < i ==> (#[trigger] out@[k]).0@ == self@[k].0 && out@[k].1@
                        == snapshot_of(self@[k].1),
            decreases self.entries.len() - i,
        {
            let name: String = self.entries[i].name.clone();
            let snapshot: JsInputValue = JsInputValue::from(&self.entries[i].input);
            out.push((name, snapshot));
            i += 1;
        }
        out
    }
}

/// Reading an input and setting it to what was read leaves the registry as
/// it was, so that a second read gives an equal snapshot. This holds of every
/// registered input but an image.
pub proof fn lemma_get_set_get(entries: RegistryModel, name: Seq<char>)
    requires
        names_distinct(entries),
        lookup(entries, name) is Some,
        lookup(entries, name).unwrap().variant() != InputVariant::Image,
    ensures
        ({
            let first = snapshot_of(lookup(entries, name).unwrap());
            let outcome = after_set(entries, name, current_of(first).unwrap());
            &&& current_of(first) is Some
            &&& outcome.1 == Ok::<(), SetInputError>(())
            &&& outcome.0 == entries
            &&& snapshot_of(lookup(outcome.0, name).unwrap()) == first
        }),
{
    let input = lookup(entries, name).unwrap();
    lemma_write_back_is_identity(input);
    let i = index_of(entries, name);
    assert(entries.update(i, (name, input)) =~= entries);
}

/// Setting an input that is not registered fails with `InputNotFound` and
/// changes nothing.
pub proof fn lemma_set_unknown_name(entries: RegistryModel, name: Seq<char>, payload: PayloadModel)
    requires
        !has_name(entries, name),
    ensures
        after_set(entries, name, payload) == (
            entries,
            Err::<(), SetInputError>(SetInputError::InputNotFound),
        ),
        lookup(entries, name) is None,
{
}

/// Setting an image input fails with `UnsupportedInputType`, whatever the
/// payload, and changes nothing.
pub proof fn lemma_set_image(entries: RegistryModel, name: Seq<char>, payload: PayloadModel)
    requires
        lookup(entries, name) is Some,
        lookup(entries, name).unwrap().variant() == InputVariant::Image,
    ensures
        after_set(entries, name, payload) == (
            entries,
            Err::<(), SetInputError>(SetInputError::UnsupportedInputType),
        ),
{
}

/// Registering an input under a new name makes it readable under that name,
/// keeps names unique and leaves what every other name reads.
pub proof fn lemma_register_reads_back(
    entries: RegistryModel,
    name: Seq<char>,
    input: InputModel,
    other: Seq<char>,
)
    requires
        names_distinct(entries),
        !has_name(entries, name),
    ensures
        names_distinct(entries.push((name, input))),
        lookup(entries.push((name, input)), other) == (if other == name {
            Some(input)
        } else {
            lookup(entries, other)
        }),
{
    let grown = entries.push((name, input));
    let n = entries.len() as int;
    assert(grown[n] == (name, input));
    assert forall|k: int| 0 <= k < n implies #[trigger] grown[k] == entries[k] by {}
    assert forall|k: int| 0 <= k < n implies (#[trigger] entries[k]).0 != name by {}
    assert(names_distinct(grown)) by {
        assert forall|a: int, b: int| 0 <= a < b < grown.len() implies (#[trigger] grown[a]).0 != (
        #[trigger] grown[b]).0 by {
            assert(grown[a] == entries[a]);
            if b < n {
                assert(grown[b] == entries[b]);
                assert(entries[a].0 != entries[b].0);
            } else {
                assert(entries[a].0 != name);
            }
        }
    }
    if other == name {
        assert(has_name(grown, name));
        let j = index_of(grown, name);
        if j < n {
            assert(grown[j] == entries[j]);
            assert(entries[j].0 != name);
        }
    } else {
        if has_name(entries, other) {
            let i = index_of(entries, other);
            assert(grown[i] == entries[i]);
            assert(has_name(grown, other));
            let j = index_of(grown, other);
            assert(j < n);
            assert(grown[j] == entries[j]);
            if j < i {
                assert(entries[j].0 != entries[i].0);
            }
            if i < j {
                assert(entries[i].0 != entries[j].0);
            }
        } else {
            if has_name(grown, other) {
                let j = index_of(grown, other);
                if j < n {
                    assert(grown[j] == entries[j]);
                    assert(entries[j].0 == other);
                }
                assert(false);
            }
        }
    }
}

/// After a successful set, a read of the same name gives the input as the
/// payload left it.
pub proof fn lemma_set_reads_back(entries: RegistryModel, name: Seq<char>, payload: PayloadModel)
    requires
        names_distinct(entries),
    ensures
        after_set(entries, name, payload).1 is Ok ==> lookup(
            after_set(entries, name, payload).0,
            name,
        ) == Some(assigned(lookup(entries, name).unwrap(), payload).unwrap()),
{
    if after_set(entries, name, payload).1 is Ok {
        let i = index_of(entries, name);
        let after = after_set(entries, name, payload).0;
        assert(after[i].0 == name);
        assert(has_name(after, name));
        let j = index_of(after, name);
        assert(after[j].0 == name);
        if j != i {
            assert(after[j] == entries[j]);
            if j < i {
                assert(entries[j].0 != entries[i].0);
            } else {
                assert(entries[i].0 != entries[j].0);
            }
        }
    }
}

/// A successful set changes the one input it names and no other, and where
/// names are unique they stay so.
pub proof fn lemma_set_touches_one(
    entries: RegistryModel,
    name: Seq<char>,
    payload: PayloadModel,
    other: Seq<char>,
)
    requires
        names_distinct(entries),
        other != name,
    ensures
        names_distinct(after_set(entries, name, payload).0),
        lookup(after_set(entries, name, payload).0, other) == lookup(entries, other),
{
    let after = after_set(entries, name, payload).0;
    if after != entries {
        let i = index_of(entries, name);
        assert(has_name(entries, name));
        assert forall|k: int| 0 <= k < entries.len() implies (#[trigger] after[k]).0
            == entries[k].0 by {}
        assert(names_distinct(after)) by {
            assert forall|a: int, b: int| 0 <= a < b < after.len() implies (#[trigger] after[a]).0
                != (#[trigger] after[b]).0 by {
                assert(entries[a].0 != entries[b].0);
            }
        }
        if has_name(entries, other) {
            let j = index_of(entries, other);
            assert(j != i);
            assert(after[j] == entries[j]);
            assert(has_name(after, other));
            let j2 = index_of(after, other);
            assert(after[j2].0 == other);
            assert(entries[j2].0 == other);
            assert(j2 == j) by {
                if j2 < j {
                    assert(entries[j2].0 != entries[j].0);
                }
                if j < j2 {
                    assert(entries[j].0 != entries[j2].0);
                }
            }
        } else {
            if has_name(after, other) {
                let j2 = index_of(after, other);
                assert(entries[j2].0 == other);
                assert(false);
            }
        }
    }
}

} // verus!
