//! The companion instance itself: the behaviour that the emitted fragments
//! give the generated builder, stated and proved once over a model of the
//! companion's state.  A companion holds one absent-or-present slot per
//! field; the factory starts every slot absent, each setter fills exactly
//! its own field's slot, and the finalizer checks every required slot in
//! field order before it consumes anything, so a failed build reports the
//! first missing required field and leaves the companion untouched.

use vstd::prelude::*;
use crate::defs::{Field, ShapeError, TypeData, TypeDefinition};
use crate::extract::{extract_fields, extract_spec, shape_error_of};

verus! {

/// A concrete field value: the flat record types in scope carry text and
/// integer fields.
#[derive(Debug, Clone, PartialEq)]
pub enum Value {
    Text(String),
    Int(i64),
}

/// A materialized instance of the target type: one value per field, in
/// field order.  An optional field left unset holds an absent value; a
/// required field always holds a present one.
#[derive(Debug, Clone, PartialEq)]
pub struct BuiltRecord {
    pub target: String,
    pub values: Vec<Option<Value>>,
}

/// The finalize-time failure class: a required field was never set before
/// build was called.  Unlike a shape error, this is a recoverable, reported
/// condition at the build call site.
#[derive(Debug, Clone, PartialEq)]
pub enum BuildError {
    /// The first required field, in field order, whose slot was absent.
    MissingField(String),
}

impl BuildError {
    /// The name of the missing field the error reports.
    pub open spec fn missing_name(self) -> Seq<char> {
        match self {
            BuildError::MissingField(name) => name@,
        }
    }

    /// The error's descriptive text, naming the missing field.
    pub fn message(&self) -> (r: String)
        ensures
            r@ == "missing field: "@ + self.missing_name(),
    {
        match self {
            BuildError::MissingField(name) => {
                let mut out = String::new();
                out.append("missing field: ");
                out.append(name.as_str());
                proof {
                    assert(out@ =~= "missing field: "@ + name@);
                }
                out
            }
        }
    }
}

/// Whether some field of the list carries the given name.
pub open spec fn has_field(fs: Seq<Field>, name: Seq<char>) -> bool {
    exists|i: int| 0 <= i < fs.len() && fs[i].name@ == name
}

/// The first index of the field with the given name.
pub open spec fn field_index(fs: Seq<Field>, name: Seq<char>) -> int
    decreases fs.len(),
{
    if fs.len() == 0 {
        0
    } else if fs[0].name@ == name {
        0
    } else {
        1 + field_index(fs.drop_first(), name)
    }
}

/// Where a field with the name exists, `field_index` is the first index
/// carrying it.
pub proof fn lemma_field_index(fs: Seq<Field>, name: Seq<char>)
    requires
        has_field(fs, name),
    ensures
        0 <= field_index(fs, name) < fs.len(),
        fs[field_index(fs, name)].name@ == name,
        forall|k: int| 0 <= k < field_index(fs, name) ==> fs[k].name@ != name,
    decreases fs.len(),
{
    if fs.len() == 0 {
    } else if fs[0].name@ == name {
    } else {
        let i = choose|i: int| 0 <= i < fs.len() && fs[i].name@ == name;
        assert(fs.drop_first()[i - 1].name@ == name);
        lemma_field_index(fs.drop_first(), name);
        assert(forall|k: int|
            0 <= k < field_index(fs.drop_first(), name) ==> fs.drop_first()[k].name@ != name);
        assert(forall|k: int|
            1 <= k < field_index(fs, name) ==> fs[k].name@ == fs.drop_first()[k - 1].name@);
    }
}

/// The slot sequence after one setter call: the named field's slot becomes
/// present with the value, and no other slot changes.
pub open spec fn set_field_spec(
    fs: Seq<Field>,
    slots: Seq<Option<Value>>,
    name: Seq<char>,
    value: Value,
) -> Seq<Option<Value>> {
    slots.update(field_index(fs, name), Some(value))
}

/// Whether every required field's slot is present.
pub open spec fn required_complete(fs: Seq<Field>, slots: Seq<Option<Value>>) -> bool {
    forall|i: int| 0 <= i < fs.len() && !fs[i].optional ==> slots[i] is Some
}

/// The first index, in field order, of a required field whose slot is
/// absent.
pub open spec fn first_missing(fs: Seq<Field>, slots: Seq<Option<Value>>) -> int
    decreases fs.len(),
{
    if fs.len() == 0 {
        0
    } else if !fs[0].optional && slots[0] is None {
        0
    } else {
        1 + first_missing(fs.drop_first(), slots.drop_first())
    }
}

/// Where the checks up to an absent required slot all pass, that slot's
/// index is exactly `first_missing`.
pub proof fn lemma_first_missing_at(fs: Seq<Field>, slots: Seq<Option<Value>>, i: int)
    requires
        fs.len() == slots.len(),
        0 <= i < fs.len(),
        !fs[i].optional,
        slots[i] is None,
        forall|k: int| 0 <= k < i ==> fs[k].optional || slots[k] is Some,
    ensures
        first_missing(fs, slots) == i,
    decreases i,
{
    if i == 0 {
    } else {
        assert(fs[0].optional || slots[0] is Some);
        assert(fs.drop_first()[i - 1] == fs[i]);
        assert(slots.drop_first()[i - 1] == slots[i]);
        assert(forall|k: int|
            0 <= k < i - 1 ==> fs.drop_first()[k] == fs[k + 1] && slots.drop_first()[k] == slots[k
                + 1]);
        lemma_first_missing_at(fs.drop_first(), slots.drop_first(), i - 1);
    }
}

/// A companion instance: the target type's name, the field list it was
/// derived from, and one absent-or-present slot per field.
#[derive(Debug, Clone)]
pub struct Companion {
    pub target: String,
    pub fields: Vec<Field>,
    pub slots: Vec<Option<Value>>,
}

impl Companion {
    /// Well-formedness: one slot per field.
    pub open spec fn wf(self) -> bool {
        self.slots@.len() == self.fields@.len()
    }

    /// The factory: a companion for the given target type and field list
    /// with exactly one slot per field, every slot absent.
    pub fn builder(target: String, fields: Vec<Field>) -> (r: Companion)
        ensures
            r.wf(),
            r.target@ == target@,
            r.fields@ == fields@,
            r.slots@.len() == fields@.len(),
            forall|i: int| 0 <= i < r.slots@.len() ==> r.slots@[i] is None,
    {
        let mut slots: Vec<Option<Value>> = Vec::new();
        let mut i: usize = 0;
        while i < fields.len()
            invariant
                slots@.len() == i,
                0 <= i <= fields.len(),
                forall|k: int| 0 <= k < i ==> slots@[k] is None,
            decreases fields.len() - i,
        {
            slots.push(None);
            i = i + 1;
        }
        Companion { target, fields, slots }
    }

    /// One fluent setter call: stores the value as present in the named
    /// field's slot and touches no other slot.  The generated builder has
    /// one such operation per field, so the name always names a field.
    pub fn set_field(&mut self, name: &str, value: Value)
        requires
            old(self).wf(),
            has_field(old(self).fields@, name@),
        ensures
            final(self).wf(),
            final(self).target@ == old(self).target@,
            final(self).fields@ == old(self).fields@,
            final(self).slots@ == set_field_spec(
                old(self).fields@,
                old(self).slots@,
                name@,
                value,
            ),
    {
        proof {
            lemma_field_index(self.fields@, name@);
        }
        let i = find_field(&self.fields, name).unwrap();
        self.slots.set(i, Some(value));
    }

    /// The finalizer.  In field order, every required field's slot is
    /// checked for presence before any slot is consumed: if one is absent,
    /// the build fails naming the first such field and the companion is
    /// left exactly as it was.  Once every check passes, every slot's value
    /// is moved out (the slots reset to absent, so a consumed companion
    /// cannot silently be rebuilt from stale values) and the target is
    /// constructed from the moved values — present for every required
    /// field, and for an optional field whatever its slot held, absent
    /// included.
    pub fn build(&mut self) -> (r: Result<BuiltRecord, BuildError>)
        requires
            old(self).wf(),
        ensures
            final(self).wf(),
            final(self).target@ == old(self).target@,
            final(self).fields@ == old(self).fields@,
            r is Ok <==> required_complete(old(self).fields@, old(self).slots@),
            r matches Ok(rec) ==> {
                &&& rec.target@ == old(self).target@
                &&& rec.values@ == old(self).slots@
                &&& forall|i: int| 0 <= i < final(self).slots@.len() ==> final(self).slots@[i] is None
            },
            r matches Err(e) ==> {
                &&& e == BuildError::MissingField(
                    old(self).fields@[first_missing(old(self).fields@, old(self).slots@)].name,
                )
                &&& *final(self) == *old(self)
            },
    {
        let field_count = self.fields.len();
        let mut i: usize = 0;
        while i < field_count
            invariant
                old(self).wf(),
                field_count == old(self).fields@.len(),
                0 <= i <= field_count,
                *self == *old(self),
                forall|k: int| 0 <= k < i ==> old(self).fields@[k].optional || old(self).slots@[k] is Some,
            decreases field_count - i,
        {
            if !self.fields[i].optional && self.slots[i].is_none() {
                proof {
                    lemma_first_missing_at(old(self).fields@, old(self).slots@, i as int);
                }
                return Err(BuildError::MissingField(self.fields[i].name.clone()));
            }
            i = i + 1;
        }
        let mut values: Vec<Option<Value>> = Vec::new();
        let mut j: usize = 0;
        while j < field_count
            invariant
                old(self).wf(),
                field_count == old(self).fields@.len(),
                0 <= j <= field_count,
                self.target@ == old(self).target@,
                self.fields@ == old(self).fields@,
                self.slots@.len() == old(self).slots@.len(),
                values@.len() == j,
                forall|k: int| 0 <= k < j ==> values@[k] == old(self).slots@[k],
                forall|k: int| 0 <= k < j ==> self.slots@[k] is None,
                forall|k: int| j <= k < self.slots@.len() ==> self.slots@[k] == old(self).slots@[k],
            decreases field_count - j,
        {
            let mut taken: Option<Value> = None;
            self.slots.set_and_swap(j, &mut taken);
            values.push(taken);
            j = j + 1;
        }
        proof {
            assert(values@ =~= old(self).slots@);
        }
        Ok(BuiltRecord { target: self.target.clone(), values })
    }
}

/// Finds the first field carrying the given name, if any.
fn find_field(fields: &Vec<Field>, name: &str) -> (r: Option<usize>)
    ensures
        r is Some <==> has_field(fields@, name@),
        r matches Some(i) ==> i == field_index(fields@, name@),
{
    let mut i: usize = 0;
    while i < fields.len()
        invariant
            0 <= i <= fields.len(),
            forall|k: int| 0 <= k < i ==> fields@[k].name@ != name@,
        decreases fields.len() - i,
    {
        if str_eq(fields[i].name.as_str(), name) {
            proof {
                lemma_field_index(fields@, name@);
            }
            return Some(i);
        }
        i = i + 1;
    }
    None
}

/// Character-for-character string equality.
fn str_eq(a: &str, b: &str) -> (r: bool)
    ensures
        r == (a@ == b@),
{
    let a_len = a.unicode_len();
    let b_len = b.unicode_len();
    if a_len != b_len {
        return false;
    }
    let mut i: usize = 0;
    while i < a_len
        invariant
            0 <= i <= a_len,
            a@.len() == a_len,
            b@.len() == a_len,
            forall|k: int| 0 <= k < i ==> a@[k] == b@[k],
        decreases a_len - i,
    {
        if a.get_char(i) != b.get_char(i) {
            return false;
        }
        i = i + 1;
    }
    proof {
        assert(a@ =~= b@);
    }
    true
}

/// The factory applied straight to a type definition: extracts the field
/// list and creates the empty companion.  Succeeds exactly on a record with
/// named fields.
pub fn builder_for(def: &TypeDefinition) -> (r: Result<Companion, ShapeError>)
    ensures
        r is Ok <==> def.data is NamedRecord,
        def.data matches TypeData::NamedRecord(decls) ==> r matches Ok(c) && {
            &&& c.wf()
            &&& c.target@ == def.name@
            &&& c.fields@ == extract_spec(decls@)
            &&& forall|i: int| 0 <= i < c.slots@.len() ==> c.slots@[i] is None
        },
        !(def.data is NamedRecord) ==> r == Result::<Companion, ShapeError>::Err(
            shape_error_of(def.data),
        ),
{
    match extract_fields(def) {
        Ok(fields) => Ok(Companion::builder(def.name.clone(), fields)),
        Err(e) => Err(e),
    }
}

/// Setter calls for two distinct fields commute: the companion ends in the
/// same state whichever of the two runs first.  With `lemma_last_write_wins`
/// this is order-independence — any permutation of setter calls that ends
/// with the same last value per field fills the slots identically, so build
/// materializes the same record.
pub proof fn lemma_setters_commute(
    fs: Seq<Field>,
    slots: Seq<Option<Value>>,
    name1: Seq<char>,
    value1: Value,
    name2: Seq<char>,
    value2: Value,
)
    requires
        slots.len() == fs.len(),
        has_field(fs, name1),
        has_field(fs, name2),
        name1 != name2,
    ensures
        set_field_spec(fs, set_field_spec(fs, slots, name1, value1), name2, value2)
            == set_field_spec(fs, set_field_spec(fs, slots, name2, value2), name1, value1),
{
    lemma_field_index(fs, name1);
    lemma_field_index(fs, name2);
    assert(set_field_spec(fs, set_field_spec(fs, slots, name1, value1), name2, value2)
        =~= set_field_spec(fs, set_field_spec(fs, slots, name2, value2), name1, value1));
}

/// Distinct names never share a field index.
pub proof fn lemma_field_index_injective(fs: Seq<Field>, name1: Seq<char>, name2: Seq<char>)
    requires
        has_field(fs, name1),
        has_field(fs, name2),
        name1 != name2,
    ensures
        field_index(fs, name1) != field_index(fs, name2),
{
    lemma_field_index(fs, name1);
    lemma_field_index(fs, name2);
}

/// The slots after a whole sequence of setter calls, applied front to back.
pub open spec fn apply_setters(
    fs: Seq<Field>,
    slots: Seq<Option<Value>>,
    calls: Seq<(Seq<char>, Value)>,
) -> Seq<Option<Value>>
    decreases calls.len(),
{
    if calls.len() == 0 {
        slots
    } else {
        apply_setters(fs, set_field_spec(fs, slots, calls[0].0, calls[0].1), calls.drop_first())
    }
}

/// Construction equivalence: setter calls naming pairwise distinct fields
/// fill, for each named field, its slot with exactly that call's value, and
/// leave every other slot as it was.  The state the calls reach is the one
/// direct construction from the same field values would use, and build's
/// contract moves it out unchanged.
pub proof fn lemma_setters_fill_named_slots(
    fs: Seq<Field>,
    slots: Seq<Option<Value>>,
    calls: Seq<(Seq<char>, Value)>,
)
    requires
        slots.len() == fs.len(),
        forall|j: int| 0 <= j < calls.len() ==> has_field(fs, #[trigger] calls[j].0),
        forall|j: int, k: int| 0 <= j < k < calls.len() ==> calls[j].0 != calls[k].0,
    ensures
        apply_setters(fs, slots, calls).len() == fs.len(),
        forall|j: int|
            0 <= j < calls.len() ==> apply_setters(fs, slots, calls)[field_index(
                fs,
                #[trigger] calls[j].0,
            )] == Some(calls[j].1),
        forall|i: int|
            0 <= i < fs.len() && (forall|j: int|
                0 <= j < calls.len() ==> field_index(fs, #[trigger] calls[j].0) != i)
                ==> #[trigger] apply_setters(fs, slots, calls)[i] == slots[i],
    decreases calls.len(),
{
    if calls.len() > 0 {
        let name0 = calls[0].0;
        let value0 = calls[0].1;
        lemma_field_index(fs, name0);
        let i0 = field_index(fs, name0);
        let slots1 = set_field_spec(fs, slots, name0, value0);
        let rest = calls.drop_first();
        assert(forall|j: int| 0 <= j < rest.len() ==> #[trigger] rest[j] == calls[j + 1]);
        lemma_setters_fill_named_slots(fs, slots1, rest);
        assert forall|j: int| 0 <= j < rest.len() implies field_index(fs, #[trigger] rest[j].0)
            != i0 by {
            lemma_field_index_injective(fs, rest[j].0, name0);
        }
        assert(apply_setters(fs, slots1, rest)[i0] == slots1[i0]);
        assert(slots1[i0] == Some(value0));
        assert forall|j: int|
            0 <= j < calls.len() implies apply_setters(fs, slots, calls)[field_index(
            fs,
            #[trigger] calls[j].0,
        )] == Some(calls[j].1) by {
            if j > 0 {
                assert(rest[j - 1] == calls[j]);
            }
        }
    }
}

/// Order-independence: any permutation of the same setter calls, one call
/// per field, fills the slots identically, so the record a following build
/// materializes does not depend on the order the setters ran in.
pub proof fn lemma_setter_order_irrelevant(
    fs: Seq<Field>,
    slots: Seq<Option<Value>>,
    calls1: Seq<(Seq<char>, Value)>,
    calls2: Seq<(Seq<char>, Value)>,
)
    requires
        slots.len() == fs.len(),
        calls1.to_multiset() == calls2.to_multiset(),
        forall|j: int| 0 <= j < calls1.len() ==> has_field(fs, #[trigger] calls1[j].0),
        forall|j: int, k: int| 0 <= j < k < calls1.len() ==> calls1[j].0 != calls1[k].0,
        forall|j: int, k: int| 0 <= j < k < calls2.len() ==> calls2[j].0 != calls2[k].0,
    ensures
        apply_setters(fs, slots, calls1) == apply_setters(fs, slots, calls2),
{
    broadcast use vstd::seq_lib::group_to_multiset_ensures;

    assert forall|j: int| 0 <= j < calls2.len() implies calls1.contains(#[trigger] calls2[j]) by {
        assert(calls2.to_multiset().count(calls2[j]) > 0);
    }
    assert forall|j: int| 0 <= j < calls1.len() implies calls2.contains(#[trigger] calls1[j]) by {
        assert(calls1.to_multiset().count(calls1[j]) > 0);
    }
    assert forall|j: int| 0 <= j < calls2.len() implies has_field(fs, #[trigger] calls2[j].0) by {
        let k = choose|k: int| 0 <= k < calls1.len() && calls1[k] == calls2[j];
        assert(has_field(fs, calls1[k].0));
    }
    lemma_setters_fill_named_slots(fs, slots, calls1);
    lemma_setters_fill_named_slots(fs, slots, calls2);
    let r1 = apply_setters(fs, slots, calls1);
    let r2 = apply_setters(fs, slots, calls2);
    assert forall|i: int| 0 <= i < fs.len() implies r1[i] == r2[i] by {
        if exists|j: int| 0 <= j < calls1.len() && field_index(fs, #[trigger] calls1[j].0) == i {
            let j1 = choose|j: int|
                0 <= j < calls1.len() && field_index(fs, #[trigger] calls1[j].0) == i;
            let j2 = choose|k: int| 0 <= k < calls2.len() && calls2[k] == calls1[j1];
            assert(calls2.contains(calls1[j1]));
            assert(0 <= j2 < calls2.len() && calls2[j2] == calls1[j1]);
            assert(r1[i] == Some(calls1[j1].1));
            assert(r2[field_index(fs, calls2[j2].0)] == Some(calls2[j2].1));
        } else {
            assert forall|j: int|
                0 <= j < calls2.len() implies field_index(fs, #[trigger] calls2[j].0) != i by {
                let k = choose|k: int| 0 <= k < calls1.len() && calls1[k] == calls2[j];
                assert(field_index(fs, calls1[k].0) != i);
            }
            assert(r1[i] == slots[i]);
            assert(r2[i] == slots[i]);
        }
    }
    assert(r1 =~= r2);
}

/// Setter calls covering every required field leave the companion complete,
/// so the build that follows them succeeds.
pub proof fn lemma_covering_calls_complete(
    fs: Seq<Field>,
    slots: Seq<Option<Value>>,
    calls: Seq<(Seq<char>, Value)>,
)
    requires
        slots.len() == fs.len(),
        forall|j: int| 0 <= j < calls.len() ==> has_field(fs, #[trigger] calls[j].0),
        forall|j: int, k: int| 0 <= j < k < calls.len() ==> calls[j].0 != calls[k].0,
        forall|i: int|
            0 <= i < fs.len() && !fs[i].optional ==> exists|j: int|
                0 <= j < calls.len() && field_index(fs, #[trigger] calls[j].0) == i,
    ensures
        required_complete(fs, apply_setters(fs, slots, calls)),
{
    lemma_setters_fill_named_slots(fs, slots, calls);
    assert forall|i: int|
        0 <= i < fs.len() && !fs[i].optional implies apply_setters(fs, slots, calls)[i]
        is Some by {
        let j = choose|j: int| 0 <= j < calls.len() && field_index(fs, #[trigger] calls[j].0) == i;
        assert(apply_setters(fs, slots, calls)[field_index(fs, calls[j].0)] == Some(calls[j].1));
    }
}

/// The last setter call for a field wins: setting the same field twice
/// leaves exactly the state of setting it once to the second value.
pub proof fn lemma_last_write_wins(
    fs: Seq<Field>,
    slots: Seq<Option<Value>>,
    name: Seq<char>,
    value1: Value,
    value2: Value,
)
    requires
        slots.len() == fs.len(),
        has_field(fs, name),
    ensures
        set_field_spec(fs, set_field_spec(fs, slots, name, value1), name, value2)
            == set_field_spec(fs, slots, name, value2),
{
    lemma_field_index(fs, name);
    assert(set_field_spec(fs, set_field_spec(fs, slots, name, value1), name, value2)
        =~= set_field_spec(fs, slots, name, value2));
}

} // verus!
