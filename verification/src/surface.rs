//! The cache of render surfaces: one surface for each render target, found
//! again by the identity tag that the target carries after its first use.

use vstd::prelude::*;

verus! {

/// The character of one decimal digit.
pub open spec fn digit_char(d: nat) -> char {
    if d == 0 {
        '0'
    } else if d == 1 {
        '1'
    } else if d == 2 {
        '2'
    } else if d == 3 {
        '3'
    } else if d == 4 {
        '4'
    } else if d == 5 {
        '5'
    } else if d == 6 {
        '6'
    } else if d == 7 {
        '7'
    } else if d == 8 {
        '8'
    } else {
        '9'
    }
}

/// The digit that a character stands for; 0 for any other character.
pub open spec fn digit_value(c: char) -> nat {
    if c == '1' {
        1
    } else if c == '2' {
        2
    } else if c == '3' {
        3
    } else if c == '4' {
        4
    } else if c == '5' {
        5
    } else if c == '6' {
        6
    } else if c == '7' {
        7
    } else if c == '8' {
        8
    } else if c == '9' {
        9
    } else {
        0
    }
}

/// A number written in decimal, without sign or leading zeros.
pub open spec fn decimal(n: nat) -> Seq<char>
    decreases n,
{
    if n < 10 {
        seq![digit_char(n)]
    } else {
        decimal(n / 10).push(digit_char(n % 10))
    }
}

/// The number that a sequence of digits reads as.
pub open spec fn decimal_value(s: Seq<char>) -> nat
    decreases s.len(),
{
    if s.len() == 0 {
        0
    } else {
        decimal_value(s.drop_last()) * 10 + digit_value(s.last())
    }
}

/// Reading a number's decimal form gives the number back.
pub proof fn lemma_decimal_value(n: nat)
    ensures
        decimal_value(decimal(n)) == n,
    decreases n,
{
    if n < 10 {
        let s = decimal(n);
        assert(s.len() == 1);
        assert(s.last() == digit_char(n));
        assert(s.drop_last().len() == 0);
        assert(decimal_value(s.drop_last()) == 0);
        assert(digit_value(digit_char(n)) == n);
    } else {
        lemma_decimal_value(n / 10);
        let s = decimal(n);
        assert(s.drop_last() =~= decimal(n / 10));
        assert(s.last() == digit_char(n % 10));
        assert(digit_value(digit_char(n % 10)) == n % 10);
    }
}

/// Two numbers with the same decimal form are the same number.
pub proof fn lemma_decimal_injective(a: nat, b: nat)
    requires
        decimal(a) == decimal(b),
    ensures
        a == b,
{
    lemma_decimal_value(a);
    lemma_decimal_value(b);
}

/// Why no surface was found for a render target.
#[derive(Clone, Copy, Debug, PartialEq, Eq, Structural)]
pub enum SurfaceLookupError {
    /// The target carries a tag that is no text.
    TagNotText,
    /// The target carries a tag that the cache has never given out.
    EntryNotFound,
}

impl SurfaceLookupError {
    /// The words of this error.
    pub open spec fn text(self) -> Seq<char> {
        match self {
            SurfaceLookupError::TagNotText => "Stored surface id was not a string."@,
            SurfaceLookupError::EntryNotFound => "Surface entry not Found."@,
        }
    }

    /// The words of this error, for the host.
    pub fn message(&self) -> (r: String)
        ensures
            r@ == self.text(),
    {
        match self {
            SurfaceLookupError::TagNotText => "Stored surface id was not a string.".to_owned(),
            SurfaceLookupError::EntryNotFound => "Surface entry not Found.".to_owned(),
        }
    }
}

/// What a render target carries where its identity tag would be.
#[derive(Clone, Debug, PartialEq, Eq)]
pub enum TargetTag {
    /// Nothing: the target was never rendered to.
    Absent,
    /// Something that is no text.
    NotText,
    /// A tag.
    Text(String),
}

/// The mathematical value of a [`TargetTag`].
pub enum TagModel {
    Absent,
    NotText,
    Text(Seq<char>),
}

impl View for TargetTag {
    type V = TagModel;

    open spec fn view(&self) -> TagModel {
        match *self {
            TargetTag::Absent => TagModel::Absent,
            TargetTag::NotText => TagModel::NotText,
            TargetTag::Text(t) => TagModel::Text(t@),
        }
    }
}

/// What to do for a render target.
#[derive(Clone, Copy, Debug, PartialEq, Eq, Structural)]
pub enum SurfaceStep {
    /// The target is new: make a surface for it and insert it.
    Create,
    /// The target's surface is the one in this slot.
    Cached(usize),
}

/// The cache as a mathematical value: tag and surface, in order of insertion.
pub type CacheModel<S> = Seq<(Seq<char>, S)>;

/// Every entry's tag is the decimal form of its slot: the size of the cache
/// at the time the entry was added.
pub open spec fn tags_in_order<S>(entries: CacheModel<S>) -> bool {
    forall|i: int| 0 <= i < entries.len() ==> (#[trigger] entries[i]).0 == decimal(i as nat)
}

/// Whether some entry carries the tag.
pub open spec fn has_tag<S>(entries: CacheModel<S>, tag: Seq<char>) -> bool {
    exists|i: int| 0 <= i < entries.len() && (#[trigger] entries[i]).0 == tag
}

/// The slot of the entry that carries the tag, where there is one.
pub open spec fn slot_of<S>(entries: CacheModel<S>, tag: Seq<char>) -> int {
    choose|i: int| 0 <= i < entries.len() && (#[trigger] entries[i]).0 == tag
}

/// The step that a target with the given tag calls for: a surface to create
/// where it carries none, the slot of its surface where the cache knows the
/// tag, an error otherwise.
pub open spec fn resolution<S>(entries: CacheModel<S>, tag: TagModel) -> Result<
    SurfaceStep,
    SurfaceLookupError,
> {
    match tag {
        TagModel::Absent => Ok(SurfaceStep::Create),
        TagModel::NotText => Err(SurfaceLookupError::TagNotText),
        TagModel::Text(t) => if has_tag(entries, t) {
            Ok(SurfaceStep::Cached(slot_of(entries, t) as usize))
        } else {
            Err(SurfaceLookupError::EntryNotFound)
        },
    }
}

/// The surfaces made so far, each under the tag that its target carries.
pub struct SurfaceCache<S> {
    entries: Vec<(String, S)>,
}

/// Writes a number in decimal. This is `usize::to_string` of the standard
/// library, which writes an unsigned integer in base ten with no sign and
/// no leading zeros; the contract says that and is not proved here.
#[verifier::external_body]
fn decimal_string(n: usize) -> (r: String)
    ensures
        r@ == decimal(n as nat),
{
    n.to_string()
}

impl<S> View for SurfaceCache<S> {
    type V = CacheModel<S>;

    closed spec fn view(&self) -> CacheModel<S> {
        Seq::new(self.entries@.len(), |i: int| (self.entries@[i].0@, self.entries@[i].1))
    }
}

impl<S> SurfaceCache<S> {
    /// The cache's invariant: tags are the slots in decimal.
    pub open spec fn wf(&self) -> bool {
        tags_in_order(self@)
    }

    /// An empty cache.
    pub fn new() -> (r: SurfaceCache<S>)
        ensures
            r@.len() == 0,
            r.wf(),
    {
        SurfaceCache { entries: Vec::new() }
    }

    /// How many surfaces the cache holds.
    pub fn len(&self) -> (r: usize)
        ensures
            r == self@.len(),
    {
        self.entries.len()
    }

    /// Decides what a render target needs, from the tag it carries.
    pub fn retrieve_surface(&self, tag: &TargetTag) -> (r: Result<SurfaceStep, SurfaceLookupError>)
        requires
            self.wf(),
        ensures
            r == resolution(self@, tag@),
            match r {
                Ok(SurfaceStep::Cached(slot)) => slot < self@.len() && tag@ == TagModel::Text(
                    self@[slot as int].0,
                ),
                _ => true,
            },
    {
        match tag {
            TargetTag::Absent => Ok(SurfaceStep::Create),
            TargetTag::NotText => Err(SurfaceLookupError::TagNotText),
            TargetTag::Text(t) => {
                let mut i: usize = 0;
                while i < self.entries.len()
                    invariant
                        i <= self.entries@.len(),
                        self.entries@.len() == self@.len(),
                        self.wf(),
                        tag@ == TagModel::Text(t@),
                        forall|k: int| 0 <= k < i ==> (#[trigger] self@[k]).0 != t@,
                    decreases self.entries.len() - i,
                {
                    if self.entries[i].0 == *t {
                        proof {
                            assert(self@[i as int].0 == t@);
                            let j = slot_of(self@, t@);
                            assert(0 <= j < self@.len() && self@[j].0 == t@);
                            lemma_decimal_injective(j as nat, i as nat);
                        }
                        return Ok(SurfaceStep::Cached(i));
                    }
                    i += 1;
                }
                Err(SurfaceLookupError::EntryNotFound)
            },
        }
    }

    /// Adds the surface made for a new target and returns the tag to attach
    /// to that target: the size of the cache before, in decimal.
    pub fn insert(&mut self, surface: S) -> (tag: String)
        requires
            old(self).wf(),
        ensures
            final(self).wf(),
            tag@ == decimal(old(self)@.len()),
            final(self)@ == old(self)@.push((tag@, surface)),
            !has_tag(old(self)@, tag@),
            resolution(final(self)@, TagModel::Text(tag@)) == Ok::<SurfaceStep, SurfaceLookupError>(
                SurfaceStep::Cached(old(self)@.len() as usize),
            ),
            forall|t: Seq<char>|
                has_tag(old(self)@, t) ==> #[trigger] resolution(final(self)@, TagModel::Text(t))
                    == resolution(old(self)@, TagModel::Text(t)),
            forall|i: int| 0 <= i < old(self)@.len() ==> #[trigger] final(self)@[i] == old(self)@[i],
    {
        let tag: String = decimal_string(self.entries.len());
        let attached: String = tag.clone();
        self.entries.push((tag, surface));
        proof {
            assert(self@ =~= old(self)@.push((attached@, surface)));
            lemma_new_tag_is_fresh(old(self)@);
            assert forall|t: Seq<char>| has_tag(old(self)@, t) implies #[trigger] resolution(
                self@,
                TagModel::Text(t),
            ) == resolution(old(self)@, TagModel::Text(t)) by {
                lemma_surface_is_stable(old(self)@, slot_of(old(self)@, t), surface);
            }
            lemma_new_tag_resolves(old(self)@, surface);
        }
        attached
    }

    /// The surface in a slot.
    pub fn get(&self, slot: usize) -> (r: &S)
        requires
            slot < self@.len(),
        ensures
            *r == self@[slot as int].1,
    {
        &self.entries[slot].1
    }
}

/// The tag that the next insertion gives out is carried by no entry yet.
pub proof fn lemma_new_tag_is_fresh<S>(entries: CacheModel<S>)
    requires
        tags_in_order(entries),
    ensures
        !has_tag(entries, decimal(entries.len())),
{
    if has_tag(entries, decimal(entries.len())) {
        let j = slot_of(entries, decimal(entries.len()));
        lemma_decimal_injective(j as nat, entries.len());
    }
}

/// At most one surface per target: in a cache whose tags are in order, a tag
/// is carried by one entry only, the one in the slot that the tag names.
pub proof fn lemma_one_surface_per_tag<S>(entries: CacheModel<S>, i: int, j: int)
    requires
        tags_in_order(entries),
        0 <= i < entries.len(),
        0 <= j < entries.len(),
        entries[i].0 == entries[j].0,
    ensures
        i == j,
        slot_of(entries, entries[i].0) == i,
{
    lemma_decimal_injective(i as nat, j as nat);
    let k = slot_of(entries, entries[i].0);
    lemma_decimal_injective(k as nat, i as nat);
}

/// The surface inserted for a new target is found under the tag that the
/// insertion gives out, in the slot behind all earlier ones.
pub proof fn lemma_new_tag_resolves<S>(entries: CacheModel<S>, surface: S)
    requires
        tags_in_order(entries),
    ensures
        ({
            let fresh = decimal(entries.len());
            let grown = entries.push((fresh, surface));
            &&& tags_in_order(grown)
            &&& has_tag(grown, fresh)
            &&& slot_of(grown, fresh) == entries.len()
            &&& grown[entries.len() as int].1 == surface
        }),
{
    let fresh = decimal(entries.len());
    let grown = entries.push((fresh, surface));
    let n = entries.len() as int;
    assert(grown[n] == (fresh, surface));
    assert forall|i: int| 0 <= i < grown.len() implies (#[trigger] grown[i]).0 == decimal(
        i as nat,
    ) by {
        if i < n {
            assert(grown[i] == entries[i]);
        }
    }
    lemma_one_surface_per_tag(grown, n, n);
}

/// A target keeps its surface: once a surface was inserted and its tag
/// attached, every later lookup by that tag finds the same slot and the same
/// surface, however many surfaces were inserted since; and the surface
/// inserted for another target gets another tag and another slot.
pub proof fn lemma_surface_is_stable<S>(entries: CacheModel<S>, slot: int, surface: S)
    requires
        tags_in_order(entries),
        0 <= slot < entries.len(),
    ensures
        ({
            let tag = entries[slot].0;
            let grown = entries.push((decimal(entries.len()), surface));
            &&& tags_in_order(grown)
            &&& has_tag(entries, tag) && slot_of(entries, tag) == slot
            &&& has_tag(grown, tag) && slot_of(grown, tag) == slot
            &&& grown[slot].1 == entries[slot].1
            &&& decimal(entries.len()) != tag
            &&& has_tag(grown, decimal(entries.len()))
            &&& slot_of(grown, decimal(entries.len())) == entries.len()
        }),
{
    let tag = entries[slot].0;
    let fresh = decimal(entries.len());
    let grown = entries.push((fresh, surface));
    assert(grown[slot] == entries[slot]);
    lemma_new_tag_resolves(entries, surface);
    lemma_one_surface_per_tag(entries, slot, slot);
    lemma_one_surface_per_tag(grown, slot, slot);
    if fresh == tag {
        lemma_decimal_injective(entries.len(), slot as nat);
    }
}

} // verus!
