//! The generic structured value that a cell or a row converts to.

use vstd::prelude::*;

verus! {

/// A number: an integer between `i64::MIN` and `u64::MAX`, or a finite
/// binary64 floating-point value, held as its bit pattern.
#[derive(Clone, Copy, Debug, PartialEq, Eq)]
pub enum Number {
    /// An integer that is not negative.
    PosInt(u64),
    /// A negative integer.
    NegInt(i64),
    /// The bit pattern of a finite binary64 value.
    Float(u64),
}

/// What a `Number` stands for.
pub enum NumberView {
    Integer(int),
    /// The bit pattern of a binary64 value, as an integer.
    Float(int),
}

/// Whether a binary64 bit pattern is neither an infinity nor a NaN: its
/// exponent field, the eleven bits above the 52 of the mantissa, is not all
/// ones.
pub open spec fn f64_bits_finite(bits: u64) -> bool {
    (bits as int / 0x10_0000_0000_0000) % 0x800 != 0x7ff
}

impl View for Number {
    type V = NumberView;

    open spec fn view(&self) -> NumberView {
        match self {
            Number::PosInt(v) => NumberView::Integer(*v as int),
            Number::NegInt(v) => NumberView::Integer(*v as int),
            Number::Float(bits) => NumberView::Float(*bits as int),
        }
    }
}

impl Number {
    /// Each number has one representation: `NegInt` holds only negative
    /// integers and `Float` only finite values.
    pub open spec fn wf(&self) -> bool {
        match self {
            Number::PosInt(_) => true,
            Number::NegInt(v) => *v < 0,
            Number::Float(bits) => f64_bits_finite(*bits),
        }
    }

    /// The number that equals a signed integer.
    pub fn from_i64(v: i64) -> (n: Number)
        ensures
            n@ == NumberView::Integer(v as int),
            n.wf(),
    {
        if v < 0 {
            Number::NegInt(v)
        } else {
            Number::PosInt(v as u64)
        }
    }

    /// The number that equals an unsigned integer.
    pub fn from_u64(v: u64) -> (n: Number)
        ensures
            n@ == NumberView::Integer(v as int),
            n.wf(),
    {
        Number::PosInt(v)
    }

    /// The number with the given binary64 bit pattern; none for an infinity
    /// or a NaN.
    pub fn from_f64_bits(bits: u64) -> (n: Option<Number>)
        ensures
            f64_bits_finite(bits) ==> n == Some(Number::Float(bits)),
            !f64_bits_finite(bits) ==> n is None,
    {
        if (bits / 0x10_0000_0000_0000) % 0x800 != 0x7ff {
            Some(Number::Float(bits))
        } else {
            None
        }
    }
}

/// A generic value: null, a boolean, a number, a text, an array of values,
/// or an object, which maps names to values and keeps the order in which the
/// names first came.
#[derive(Debug, PartialEq)]
pub enum CanonicalValue {
    Null,
    Bool(bool),
    Number(Number),
    Text(String),
    Array(Vec<CanonicalValue>),
    Object(Vec<(String, CanonicalValue)>),
}

/// What a `CanonicalValue` stands for.
pub enum ValueView {
    Null,
    Bool(bool),
    Number(NumberView),
    Text(Seq<char>),
    Array(Seq<ValueView>),
    Object(Seq<EntryView>),
}

/// What an entry of an object stands for: a name and the value it has.
pub struct EntryView {
    pub name: Seq<char>,
    pub value: ValueView,
}

impl View for CanonicalValue {
    type V = ValueView;

    open spec fn view(&self) -> ValueView
        decreases self,
    {
        match self {
            CanonicalValue::Null => ValueView::Null,
            CanonicalValue::Bool(b) => ValueView::Bool(*b),
            CanonicalValue::Number(n) => ValueView::Number(n@),
            CanonicalValue::Text(s) => ValueView::Text(s@),
            CanonicalValue::Array(items) => ValueView::Array(
                Seq::new(
                    items@.len(),
                    |i: int|
                        if 0 <= i < items@.len() {
                            items@[i].view()
                        } else {
                            ValueView::Null
                        },
                ),
            ),
            CanonicalValue::Object(entries) => ValueView::Object(
                Seq::new(
                    entries@.len(),
                    |i: int|
                        if 0 <= i < entries@.len() {
                            EntryView { name: entries@[i].0@, value: entries@[i].1.view() }
                        } else {
                            EntryView { name: Seq::empty(), value: ValueView::Null }
                        },
                ),
            ),
        }
    }
}

/// What the items of an array stand for, in order.
pub open spec fn items_view(items: Seq<CanonicalValue>) -> Seq<ValueView> {
    Seq::new(items.len(), |i: int| items[i]@)
}

/// What the entries of an object stand for, in order.
pub open spec fn entries_view(entries: Seq<(String, CanonicalValue)>) -> Seq<EntryView> {
    Seq::new(entries.len(), |i: int| EntryView { name: entries[i].0@, value: entries[i].1@ })
}

/// Whether some entry has the given name.
pub open spec fn has_key(entries: Seq<EntryView>, key: Seq<char>) -> bool {
    exists|i: int| 0 <= i < entries.len() && (#[trigger] entries[i]).name == key
}

/// The place of an entry with the given name, where there is one.
pub open spec fn key_position(entries: Seq<EntryView>, key: Seq<char>) -> int {
    choose|i: int| 0 <= i < entries.len() && (#[trigger] entries[i]).name == key
}

/// No name occurs in two entries.
pub open spec fn keys_distinct(entries: Seq<EntryView>) -> bool {
    forall|i: int, j: int|
        0 <= i < j < entries.len() ==> (#[trigger] entries[i]).name != (#[trigger] entries[j]).name
}

/// The entries after a name is given a value: the value takes the place of
/// the one that the name had, or comes last where the name is new.
pub open spec fn object_insert(
    entries: Seq<EntryView>,
    key: Seq<char>,
    value: ValueView,
) -> Seq<EntryView> {
    if has_key(entries, key) {
        entries.update(key_position(entries, key), EntryView { name: key, value })
    } else {
        entries.push(EntryView { name: key, value })
    }
}

/// The value that a name has among the entries.
pub open spec fn object_get(entries: Seq<EntryView>, key: Seq<char>) -> Option<
    ValueView,
> {
    if has_key(entries, key) {
        Some(entries[key_position(entries, key)].value)
    } else {
        None
    }
}

/// The view of an array is the views of its items.
pub proof fn lemma_array_view(items: Vec<CanonicalValue>)
    ensures
        CanonicalValue::Array(items)@ == ValueView::Array(items_view(items@)),
{
    let v = CanonicalValue::Array(items);
    assert(v@->Array_0 =~= items_view(items@));
}

/// The view of an object is the views of its entries.
pub proof fn lemma_object_view(entries: Vec<(String, CanonicalValue)>)
    ensures
        CanonicalValue::Object(entries)@ == ValueView::Object(entries_view(entries@)),
{
    let v = CanonicalValue::Object(entries);
    assert(v@->Object_0 =~= entries_view(entries@));
}

/// Giving a name a value leaves every name with one entry, sets the value of
/// that name and changes the value of no other.
pub proof fn lemma_object_insert(entries: Seq<EntryView>, key: Seq<char>, value: ValueView)
    requires
        keys_distinct(entries),
    ensures
        keys_distinct(object_insert(entries, key, value)),
        object_get(object_insert(entries, key, value), key) == Some(value),
        forall|other: Seq<char>|
            other != key ==> object_get(object_insert(entries, key, value), other) == object_get(
                entries,
                other,
            ),
{
    let after = object_insert(entries, key, value);
    let p = if has_key(entries, key) {
        key_position(entries, key)
    } else {
        entries.len() as int
    };
    assert(after[p] == EntryView { name: key, value });
    assert(has_key(after, key));
    assert forall|i: int| 0 <= i < after.len() && i != p implies (#[trigger] after[i]).name
        != key by {
        assert(after[i] == entries[i]);
        if has_key(entries, key) {
            assert(entries[p].name == key);
        }
    }
    assert forall|i: int, j: int| 0 <= i < j < after.len() implies (#[trigger] after[i]).name != (
    #[trigger] after[j]).name by {
        if i != p && j != p {
            assert(entries[i].name != entries[j].name);
        }
    }
    assert forall|other: Seq<char>| other != key implies object_get(after, other) == object_get(
        entries,
        other,
    ) by {
        if has_key(entries, other) {
            let q = key_position(entries, other);
            assert(after[q] == entries[q]);
            assert(has_key(after, other));
            let r = key_position(after, other);
            assert(after[r] == entries[r]);
        } else if has_key(after, other) {
            let r = key_position(after, other);
            assert(after[r] == entries[r]);
        }
    }
}

impl CanonicalValue {
    /// Every number in the value has its one representation and no object in
    /// it has a name twice.
    pub open spec fn wf(&self) -> bool
        decreases self,
    {
        match self {
            CanonicalValue::Number(n) => n.wf(),
            CanonicalValue::Array(items) => forall|i: int|
                0 <= i < items@.len() ==> (#[trigger] items@[i]).wf(),
            CanonicalValue::Object(entries) => {
                &&& keys_distinct(entries_view(entries@))
                &&& forall|i: int| 0 <= i < entries@.len() ==> (#[trigger] entries@[i]).1.wf()
            },
            _ => true,
        }
    }

    /// The value under a name of an object; none where the name is absent
    /// or the value is no object.
    pub fn get(&self, key: &str) -> (found: Option<&CanonicalValue>)
        requires
            self.wf(),
        ensures
            match self@ {
                ValueView::Object(entries) => match found {
                    Some(v) => object_get(entries, key@) == Some(v@),
                    None => object_get(entries, key@) is None,
                },
                _ => found is None,
            },
    {
        match self {
            CanonicalValue::Object(entries) => {
                proof {
                    lemma_object_view(*entries);
                }
                let ghost views = entries_view(entries@);
                let name = key.to_owned();
                let mut i: usize = 0;
                while i < entries.len()
                    invariant
                        i <= entries.len(),
                        views == entries_view(entries@),
                        self@ == ValueView::Object(views),
                        keys_distinct(views),
                        name@ == key@,
                        forall|j: int| 0 <= j < i ==> (#[trigger] views[j]).name != key@,
                    decreases entries.len() - i,
                {
                    if entries[i].0 == name {
                        assert(views[i as int].name == key@);
                        assert(has_key(views, key@));
                        assert(key_position(views, key@) == i);
                        assert(views[i as int].value == entries[i as int].1@);
                        return Some(&entries[i].1);
                    }
                    i += 1;
                }
                assert(!has_key(views, key@));
                None
            },
            _ => None,
        }
    }
}

/// Gives a name a value among the entries of an object: the value replaces
/// the one that the name had, or is added last where the name is new.
pub fn insert_entry(entries: &mut Vec<(String, CanonicalValue)>, key: String, value: CanonicalValue)
    requires
        keys_distinct(entries_view(old(entries)@)),
    ensures
        entries_view(final(entries)@) == object_insert(entries_view(old(entries)@), key@, value@),
        keys_distinct(entries_view(final(entries)@)),
        forall|i: int|
            0 <= i < final(entries)@.len() ==> (#[trigger] final(entries)@[i]).1 == (if i < old(
                entries,
            )@.len() && old(entries)@[i].0@ != key@ {
                old(entries)@[i].1
            } else {
                value
            }),
{
    let ghost before = entries_view(entries@);
    proof {
        lemma_object_insert(before, key@, value@);
    }
    let mut i: usize = 0;
    while i < entries.len()
        invariant
            i <= entries.len(),
            *entries == *old(entries),
            before == entries_view(entries@),
            keys_distinct(before),
            forall|j: int| 0 <= j < i ==> (#[trigger] before[j]).name != key@,
        decreases entries.len() - i,
    {
        if entries[i].0 == key {
            assert(before[i as int].name == key@);
            assert(has_key(before, key@));
            assert(key_position(before, key@) == i);
            entries.set(i, (key, value));
            assert(entries_view(entries@) =~= object_insert(before, key@, value@));
            assert forall|k: int| 0 <= k < entries@.len() && k != i implies old(entries)@[k].0@
                != key@ by {
                assert(before[k].name != before[i as int].name);
            }
            return ;
        }
        i += 1;
    }
    assert(!has_key(before, key@));
    entries.push((key, value));
    assert(entries_view(entries@) =~= object_insert(before, key@, value@));
    assert forall|k: int| 0 <= k < old(entries)@.len() implies old(entries)@[k].0@ != key@ by {
        assert(before[k].name != key@);
    }
}

} // verus!
