//! The JSON-like value tree that the decoders build, and its mathematical model.
//!
//! Objects behave as JSON maps: a key occurs at most once, and inserting a key
//! that is already present replaces its value.
use vstd::prelude::*;

verus! {

/// The model of a decoded value.
pub enum ValueView {
    Null,
    Bool(bool),
    UInt(u64),
    /// A finite 64-bit float, held by its IEEE 754 bit pattern.
    Float(u64),
    Str(Seq<char>),
    Array(Seq<ValueView>),
    Object(Seq<(Seq<char>, ValueView)>),
}

/// A decoded value.
#[derive(Debug, PartialEq)]
pub enum Value {
    Null,
    Bool(bool),
    UInt(u64),
    /// A finite 64-bit float, held by its IEEE 754 bit pattern.
    Float(u64),
    Str(String),
    Array(Vec<Value>),
    Object(Object),
}

/// A JSON object, kept in insertion order.
#[derive(Debug, PartialEq)]
pub struct Object {
    pub entries: Vec<(String, Value)>,
}

pub open spec fn value_view(v: &Value) -> ValueView
    decreases v,
{
    match v {
        Value::Null => ValueView::Null,
        Value::Bool(b) => ValueView::Bool(*b),
        Value::UInt(n) => ValueView::UInt(*n),
        Value::Float(bits) => ValueView::Float(*bits),
        Value::Str(s) => ValueView::Str(s@),
        Value::Array(items) => ValueView::Array(
            Seq::new(
                items@.len(),
                |i: int|
                    if 0 <= i < items@.len() {
                        proof {
                            assert(decreases_to!(items => items@[i]));
                        }
                        value_view(&items@[i])
                    } else {
                        ValueView::Null
                    },
            ),
        ),
        Value::Object(o) => ValueView::Object(
            Seq::new(
                o.entries@.len(),
                |i: int|
                    if 0 <= i < o.entries@.len() {
                        proof {
                            assert(decreases_to!(o.entries => o.entries@[i]));
                        }
                        (o.entries@[i].0@, value_view(&o.entries@[i].1))
                    } else {
                        (Seq::empty(), ValueView::Null)
                    },
            ),
        ),
    }
}

impl View for Value {
    type V = ValueView;

    open spec fn view(&self) -> ValueView {
        value_view(self)
    }
}

/// The models of a sequence of values.
pub open spec fn values_view(items: Seq<Value>) -> Seq<ValueView> {
    Seq::new(items.len(), |i: int| items[i]@)
}

/// The model of a sequence of object entries.
pub open spec fn entries_view(entries: Seq<(String, Value)>) -> Seq<(Seq<char>, ValueView)> {
    Seq::new(entries.len(), |i: int| (entries[i].0@, entries[i].1@))
}

impl View for Object {
    type V = Seq<(Seq<char>, ValueView)>;

    open spec fn view(&self) -> Seq<(Seq<char>, ValueView)> {
        entries_view(self.entries@)
    }
}

/// Inserting `k` into an association list: the first entry with key `k` gets
/// value `v`; where there is none, `(k, v)` is appended.
pub open spec fn assoc_insert<V>(s: Seq<(Seq<char>, V)>, k: Seq<char>, v: V) -> Seq<(Seq<char>, V)>
    decreases s.len(),
{
    if s.len() == 0 {
        seq![(k, v)]
    } else if s[0].0 == k {
        s.update(0, (k, v))
    } else {
        seq![s[0]] + assoc_insert(s.drop_first(), k, v)
    }
}

/// The value of the first entry with key `k`.
pub open spec fn assoc_get<V>(s: Seq<(Seq<char>, V)>, k: Seq<char>) -> Option<V>
    decreases s.len(),
{
    if s.len() == 0 {
        None
    } else if s[0].0 == k {
        Some(s[0].1)
    } else {
        assoc_get(s.drop_first(), k)
    }
}

/// No key occurs twice.
pub open spec fn keys_unique<V>(s: Seq<(Seq<char>, V)>) -> bool {
    forall|i: int, j: int| 0 <= i < j < s.len() ==> s[i].0 != s[j].0
}

/// Where `k` first occurs at `i` (or nowhere, `i == s.len()`), inserting updates index `i`
/// (or appends).
pub proof fn lemma_assoc_insert_at<V>(s: Seq<(Seq<char>, V)>, k: Seq<char>, v: V, i: int)
    requires
        0 <= i <= s.len(),
        forall|j: int| 0 <= j < i ==> s[j].0 != k,
        i < s.len() ==> s[i].0 == k,
    ensures
        i < s.len() ==> assoc_insert(s, k, v) == s.update(i, (k, v)),
        i == s.len() ==> assoc_insert(s, k, v) == s.push((k, v)),
    decreases s.len(),
{
    if s.len() == 0 {
        assert(seq![(k, v)] =~= s.push((k, v)));
    } else if s[0].0 == k {
    } else {
        let t = s.drop_first();
        assert forall|j: int| 0 <= j < i - 1 implies t[j].0 != k by {
            assert(t[j] == s[j + 1]);
        }
        lemma_assoc_insert_at(t, k, v, i - 1);
        if i < s.len() {
            assert(seq![s[0]] + t.update(i - 1, (k, v)) =~= s.update(i, (k, v)));
        } else {
            assert(seq![s[0]] + t.push((k, v)) =~= s.push((k, v)));
        }
    }
}

/// Reading back a key gives the value last inserted under it.
pub proof fn law_get_after_insert<V>(s: Seq<(Seq<char>, V)>, k: Seq<char>, v: V)
    ensures
        assoc_get(assoc_insert(s, k, v), k) == Some(v),
    decreases s.len(),
{
    if s.len() == 0 {
    } else if s[0].0 == k {
        assert(assoc_insert(s, k, v)[0] == (k, v));
    } else {
        law_get_after_insert(s.drop_first(), k, v);
        let r = assoc_insert(s, k, v);
        assert(r.drop_first() =~= assoc_insert(s.drop_first(), k, v));
    }
}

/// Inserting one key leaves what every other key reads unchanged.
pub proof fn law_insert_keeps_other_keys<V>(s: Seq<(Seq<char>, V)>, k: Seq<char>, v: V, other: Seq<char>)
    requires
        other != k,
    ensures
        assoc_get(assoc_insert(s, k, v), other) == assoc_get(s, other),
    decreases s.len(),
{
    if s.len() == 0 {
        assert(seq![(k, v)].drop_first() =~= Seq::<(Seq<char>, V)>::empty());
    } else if s[0].0 == k {
        let r = assoc_insert(s, k, v);
        assert(r[0] == (k, v));
        assert(r.drop_first() =~= s.drop_first());
        assert(assoc_get(r, other) == assoc_get(r.drop_first(), other));
    } else {
        law_insert_keeps_other_keys(s.drop_first(), k, v, other);
        let r = assoc_insert(s, k, v);
        assert(r[0] == s[0]);
        assert(r.drop_first() =~= assoc_insert(s.drop_first(), k, v));
    }
}

/// Insertion never makes a key occur twice.
pub proof fn law_insert_keeps_keys_unique<V>(s: Seq<(Seq<char>, V)>, k: Seq<char>, v: V)
    requires
        keys_unique(s),
    ensures
        keys_unique(assoc_insert(s, k, v)),
{
    let i = choose_first_index(s, k);
    lemma_assoc_insert_at(s, k, v, i);
    let r = assoc_insert(s, k, v);
    if i < s.len() {
        assert forall|a: int, b: int| 0 <= a < b < r.len() implies r[a].0 != r[b].0 by {
            if a != i && b != i {
                assert(r[a] == s[a] && r[b] == s[b]);
            }
        }
    } else {
        assert forall|a: int, b: int| 0 <= a < b < r.len() implies r[a].0 != r[b].0 by {
            if b < s.len() {
                assert(r[a] == s[a] && r[b] == s[b]);
            } else {
                assert(r[a] == s[a]);
            }
        }
    }
}

/// The index of the first entry with key `k`, or `s.len()` where there is none.
pub proof fn choose_first_index<V>(s: Seq<(Seq<char>, V)>, k: Seq<char>) -> (i: int)
    ensures
        0 <= i <= s.len(),
        forall|j: int| 0 <= j < i ==> s[j].0 != k,
        i < s.len() ==> s[i].0 == k,
    decreases s.len(),
{
    if s.len() == 0 {
        0
    } else {
        let i = choose_first_index(s.drop_first(), k);
        if s[0].0 == k {
            0
        } else {
            assert forall|j: int| 0 <= j < i + 1 implies s[j].0 != k by {
                if j > 0 {
                    assert(s[j] == s.drop_first()[j - 1]);
                }
            }
            i + 1
        }
    }
}

/// The model of a float read by its bit pattern: JSON has no NaN or infinity, so a
/// pattern whose exponent bits are all set stands for `null`.
pub open spec fn float_view(bits: u64) -> ValueView {
    if (bits >> 52u64) & 0x7ffu64 == 0x7ffu64 {
        ValueView::Null
    } else {
        ValueView::Float(bits)
    }
}

/// Whether the float with this bit pattern is finite.
pub open spec fn is_finite_bits(bits: u64) -> bool {
    (bits >> 52u64) & 0x7ffu64 != 0x7ffu64
}

impl Value {
    /// A float value from its bit pattern (`null` where it is not finite).
    pub fn from_float_bits(bits: u64) -> (v: Value)
        ensures
            v@ == float_view(bits),
    {
        if (bits >> 52u64) & 0x7ffu64 == 0x7ffu64 {
            Value::Null
        } else {
            Value::Float(bits)
        }
    }

    pub fn from_u8(n: u8) -> (v: Value)
        ensures
            v@ == ValueView::UInt(n as u64),
    {
        Value::UInt(n as u64)
    }

    pub fn from_u16(n: u16) -> (v: Value)
        ensures
            v@ == ValueView::UInt(n as u64),
    {
        Value::UInt(n as u64)
    }

    pub fn from_u32(n: u32) -> (v: Value)
        ensures
            v@ == ValueView::UInt(n as u64),
    {
        Value::UInt(n as u64)
    }

    pub fn from_str(s: &str) -> (v: Value)
        ensures
            v@ == ValueView::Str(s@),
    {
        Value::Str(String::from_str(s))
    }

    pub fn from_values(items: Vec<Value>) -> (v: Value)
        ensures
            v@ == ValueView::Array(values_view(items@)),
    {
        let v = Value::Array(items);
        proof {
            assert(values_view(items@) =~= match v@ {
                ValueView::Array(s) => s,
                _ => Seq::empty(),
            });
        }
        v
    }

    pub fn from_object(o: Object) -> (v: Value)
        ensures
            v@ == ValueView::Object(o@),
    {
        let v = Value::Object(o);
        proof {
            assert(o@ =~= match v@ {
                ValueView::Object(s) => s,
                _ => Seq::empty(),
            });
        }
        v
    }
}

impl Object {
    pub fn new() -> (o: Object)
        ensures
            o@ == Seq::<(Seq<char>, ValueView)>::empty(),
    {
        let o = Object { entries: Vec::new() };
        proof {
            assert(o@ =~= Seq::<(Seq<char>, ValueView)>::empty());
        }
        o
    }

    /// Inserts `value` under `key`, replacing the value of an equal key.
    pub fn insert(&mut self, key: String, value: Value)
        ensures
            final(self)@ == assoc_insert(old(self)@, key@, value@),
    {
        let ghost s = old(self)@;
        let n = self.entries.len();
        let mut i: usize = 0;
        let mut found = false;
        while i < n
            invariant
                n == self.entries@.len(),
                self@ == s,
                0 <= i <= n,
                forall|j: int| 0 <= j < i ==> s[j].0 != key@,
                found ==> i < n && s[i as int].0 == key@,
            ensures
                found ==> i < n && s[i as int].0 == key@,
                !found ==> i == n,
                forall|j: int| 0 <= j < i ==> s[j].0 != key@,
            decreases n - i,
        {
            if self.entries[i].0 == key {
                found = true;
                break;
            }
            i = i + 1;
        }
        proof {
            lemma_assoc_insert_at(s, key@, value@, i as int);
        }
        let ghost kv = key@;
        let ghost vv = value@;
        if found {
            self.entries.set(i, (key, value));
            proof {
                assert(self@ =~= s.update(i as int, (kv, vv)));
            }
        } else {
            self.entries.push((key, value));
            proof {
                assert(self@ =~= s.push((kv, vv)));
            }
        }
    }

    /// Inserts `value` under the key `key`.
    pub fn put(&mut self, key: &str, value: Value)
        ensures
            final(self)@ == assoc_insert(old(self)@, key@, value@),
    {
        self.insert(String::from_str(key), value);
    }
}

} // verus!
