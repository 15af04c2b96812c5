//! The JSON values that requests and responses carry, with JavaScript-style
//! helpers (truthiness, string conversion) over them.
use crate::text::{
    seq_lt, str_eq, str_lt, lemma_lt_irreflexive, lemma_lt_asymmetric, lemma_lt_transitive,
    lemma_lt_total,
};
use vstd::prelude::*;

verus! {

/// A JSON number as serde_json stores it: a non-negative integer, a negative
/// integer, or a float (kept here as the decimal text that denotes it).
pub enum JsonNumber {
    PosInt(u64),
    NegInt(i64),
    Float(String),
}

/// A JSON value.
pub enum JsonValue {
    Null,
    Bool(bool),
    Number(JsonNumber),
    Str(String),
    Array(Vec<JsonValue>),
    Object(JsonObject),
}

/// A JSON object: its entries ordered by key, each key once (the order in
/// which serde_json's default map keeps them).
pub struct JsonObject {
    pub(crate) entries: Vec<(String, JsonValue)>,
}

pub enum NumberView {
    PosInt(u64),
    NegInt(i64),
    Float(Seq<char>),
}

/// The mathematical value of a [`JsonValue`].
pub enum JsonView {
    Null,
    Bool(bool),
    Number(NumberView),
    Str(Seq<char>),
    Array(Seq<JsonView>),
    Object(Seq<(Seq<char>, JsonView)>),
}

pub open spec fn number_view(n: JsonNumber) -> NumberView {
    match n {
        JsonNumber::PosInt(u) => NumberView::PosInt(u),
        JsonNumber::NegInt(i) => NumberView::NegInt(i),
        JsonNumber::Float(t) => NumberView::Float(t@),
    }
}

pub open(crate) spec fn json_view(v: JsonValue) -> JsonView
    decreases v,
{
    match v {
        JsonValue::Null => JsonView::Null,
        JsonValue::Bool(b) => JsonView::Bool(b),
        JsonValue::Number(n) => JsonView::Number(number_view(n)),
        JsonValue::Str(s) => JsonView::Str(s@),
        JsonValue::Array(items) => JsonView::Array(items_view(items@)),
        JsonValue::Object(o) => JsonView::Object(entries_view(o.entries@)),
    }
}

pub open(crate) spec fn items_view(items: Seq<JsonValue>) -> Seq<JsonView>
    decreases items,
{
    if items.len() == 0 {
        Seq::empty()
    } else {
        items_view(items.drop_last()).push(json_view(items.last()))
    }
}

pub open(crate) spec fn entries_view(es: Seq<(String, JsonValue)>) -> Seq<(Seq<char>, JsonView)>
    decreases es,
{
    if es.len() == 0 {
        Seq::empty()
    } else {
        entries_view(es.drop_last()).push((es.last().0@, json_view(es.last().1)))
    }
}

pub open(crate) spec fn object_view(o: JsonObject) -> Seq<(Seq<char>, JsonView)> {
    entries_view(o.entries@)
}

impl View for JsonNumber {
    type V = NumberView;

    open spec fn view(&self) -> NumberView {
        number_view(*self)
    }
}

impl View for JsonValue {
    type V = JsonView;

    open spec fn view(&self) -> JsonView {
        json_view(*self)
    }
}

impl View for JsonObject {
    type V = Seq<(Seq<char>, JsonView)>;

    open spec fn view(&self) -> Seq<(Seq<char>, JsonView)> {
        object_view(*self)
    }
}


// ---------------------------------------------------------------------------
// Views, element by element.
// ---------------------------------------------------------------------------

pub proof fn lemma_items_view(items: Seq<JsonValue>)
    ensures
        items_view(items).len() == items.len(),
        forall|i: int| 0 <= i < items.len() ==> #[trigger] items_view(items)[i] == json_view(items[i]),
    decreases items.len(),
{
    if items.len() > 0 {
        lemma_items_view(items.drop_last());
    }
}

pub proof fn lemma_entries_view(es: Seq<(String, JsonValue)>)
    ensures
        entries_view(es).len() == es.len(),
        forall|i: int|
            0 <= i < es.len() ==> #[trigger] entries_view(es)[i] == (es[i].0@, json_view(es[i].1)),
    decreases es.len(),
{
    if es.len() > 0 {
        lemma_entries_view(es.drop_last());
    }
}

// ---------------------------------------------------------------------------
// Objects as sorted association lists.
// ---------------------------------------------------------------------------

/// Keys strictly increase along the entries.
pub open spec fn sorted_keys(es: Seq<(Seq<char>, JsonView)>) -> bool {
    forall|i: int, j: int| 0 <= i < j < es.len() ==> seq_lt(#[trigger] es[i].0, #[trigger] es[j].0)
}

/// The value stored under `k`, if any.
pub open spec fn lookup(es: Seq<(Seq<char>, JsonView)>, k: Seq<char>) -> Option<JsonView>
    decreases es.len(),
{
    if es.len() == 0 {
        None
    } else if es[0].0 == k {
        Some(es[0].1)
    } else {
        lookup(es.drop_first(), k)
    }
}

/// The entries after storing `v` under `k`: the value is replaced where the key
/// is present, and a new entry goes where its key sorts otherwise.
pub open spec fn insert_entry(es: Seq<(Seq<char>, JsonView)>, k: Seq<char>, v: JsonView) -> Seq<
    (Seq<char>, JsonView),
>
    decreases es.len(),
{
    if es.len() == 0 {
        seq![(k, v)]
    } else if es[0].0 == k {
        es.update(0, (k, v))
    } else if seq_lt(k, es[0].0) {
        seq![(k, v)] + es
    } else {
        seq![es[0]] + insert_entry(es.drop_first(), k, v)
    }
}

/// The entries without the one stored under `k`.
pub open spec fn remove_entry(es: Seq<(Seq<char>, JsonView)>, k: Seq<char>) -> Seq<
    (Seq<char>, JsonView),
>
    decreases es.len(),
{
    if es.len() == 0 {
        es
    } else if es[0].0 == k {
        es.drop_first()
    } else {
        seq![es[0]] + remove_entry(es.drop_first(), k)
    }
}

proof fn lemma_insert_split(es: Seq<(Seq<char>, JsonView)>, k: Seq<char>, v: JsonView, p: int)
    requires
        0 <= p <= es.len(),
        forall|i: int| 0 <= i < p ==> seq_lt(#[trigger] es[i].0, k),
    ensures
        insert_entry(es, k, v) == es.take(p) + insert_entry(es.skip(p), k, v),
    decreases p,
{
    if p == 0 {
        assert(es.skip(0) =~= es);
        assert(es.take(0) + insert_entry(es, k, v) =~= insert_entry(es, k, v));
    } else {
        lemma_lt_irreflexive(k);
        assert(seq_lt(es[0].0, k));
        lemma_lt_asymmetric(es[0].0, k);
        let rest = es.drop_first();
        assert forall|i: int| 0 <= i < p - 1 implies seq_lt(#[trigger] rest[i].0, k) by {
            assert(rest[i] == es[i + 1]);
        }
        lemma_insert_split(rest, k, v, p - 1);
        assert(rest.skip(p - 1) =~= es.skip(p));
        assert(es.take(p) =~= seq![es[0]] + rest.take(p - 1));
        assert(insert_entry(es, k, v) == seq![es[0]] + insert_entry(rest, k, v));
        assert(seq![es[0]] + (rest.take(p - 1) + insert_entry(es.skip(p), k, v)) =~= es.take(p)
            + insert_entry(es.skip(p), k, v));
    }
}

proof fn lemma_remove_split(es: Seq<(Seq<char>, JsonView)>, k: Seq<char>, p: int)
    requires
        0 <= p <= es.len(),
        forall|i: int| 0 <= i < p ==> (#[trigger] es[i].0) != k,
    ensures
        remove_entry(es, k) == es.take(p) + remove_entry(es.skip(p), k),
    decreases p,
{
    if p == 0 {
        assert(es.skip(0) =~= es);
        assert(es.take(0) + remove_entry(es, k) =~= remove_entry(es, k));
    } else {
        let rest = es.drop_first();
        assert forall|i: int| 0 <= i < p - 1 implies (#[trigger] rest[i].0) != k by {
            assert(rest[i] == es[i + 1]);
        }
        lemma_remove_split(rest, k, p - 1);
        assert(rest.skip(p - 1) =~= es.skip(p));
        assert(es.take(p) =~= seq![es[0]] + rest.take(p - 1));
        assert(seq![es[0]] + (rest.take(p - 1) + remove_entry(es.skip(p), k)) =~= es.take(p)
            + remove_entry(es.skip(p), k));
    }
}

proof fn lemma_lookup_split(es: Seq<(Seq<char>, JsonView)>, k: Seq<char>, p: int)
    requires
        0 <= p <= es.len(),
        forall|i: int| 0 <= i < p ==> (#[trigger] es[i].0) != k,
    ensures
        lookup(es, k) == lookup(es.skip(p), k),
    decreases p,
{
    if p == 0 {
        assert(es.skip(0) =~= es);
    } else {
        let rest = es.drop_first();
        assert forall|i: int| 0 <= i < p - 1 implies (#[trigger] rest[i].0) != k by {
            assert(rest[i] == es[i + 1]);
        }
        lemma_lookup_split(rest, k, p - 1);
        assert(rest.skip(p - 1) =~= es.skip(p));
    }
}

proof fn lemma_lookup_absent(es: Seq<(Seq<char>, JsonView)>, k: Seq<char>)
    requires
        forall|i: int| 0 <= i < es.len() ==> (#[trigger] es[i].0) != k,
    ensures
        lookup(es, k) is None,
    decreases es.len(),
{
    if es.len() > 0 {
        let rest = es.drop_first();
        assert forall|i: int| 0 <= i < rest.len() implies (#[trigger] rest[i].0) != k by {
            assert(rest[i] == es[i + 1]);
        }
        lemma_lookup_absent(rest, k);
    }
}

impl JsonObject {
    #[verifier::type_invariant]
    spec fn keys_increase(self) -> bool {
        forall|i: int, j: int|
            0 <= i < j < self.entries@.len() ==> seq_lt(
                #[trigger] self.entries@[i].0@,
                #[trigger] self.entries@[j].0@,
            )
    }

    /// An object with no entries.
    pub fn new() -> (r: JsonObject)
        ensures
            r@ == Seq::<(Seq<char>, JsonView)>::empty(),
    {
        let r = JsonObject { entries: Vec::new() };
        proof {
            lemma_entries_view(r.entries@);
            assert(r@ =~= Seq::<(Seq<char>, JsonView)>::empty());
        }
        r
    }

    /// The number of entries (the keys strictly increase).
    pub fn len(&self) -> (r: usize)
        ensures
            r == self@.len(),
            sorted_keys(self@),
    {
        proof {
            use_type_invariant(self);
            lemma_entries_view(self.entries@);
            assert forall|i: int, j: int| 0 <= i < j < self@.len() implies seq_lt(
                #[trigger] self@[i].0,
                #[trigger] self@[j].0,
            ) by {
                assert(seq_lt(self.entries@[i].0@, self.entries@[j].0@));
            }
        }
        self.entries.len()
    }

    /// The key and value at position `i` in key order.
    pub fn entry_at(&self, i: usize) -> (r: (&String, &JsonValue))
        requires
            i < self@.len(),
        ensures
            r.0@ == self@[i as int].0,
            r.1@ == self@[i as int].1,
    {
        proof {
            lemma_entries_view(self.entries@);
        }
        let e = &self.entries[i];
        (&e.0, &e.1)
    }

    /// Position of the first entry whose key does not sort before `key`.
    fn position(&self, key: &str) -> (p: usize)
        ensures
            p <= self@.len(),
            forall|i: int| 0 <= i < p ==> seq_lt(#[trigger] self@[i].0, key@),
            p < self@.len() ==> !seq_lt(self@[p as int].0, key@),
    {
        proof {
            lemma_entries_view(self.entries@);
        }
        let mut p: usize = 0;
        while p < self.entries.len() && str_lt(self.entries[p].0.as_str(), key)
            invariant
                p <= self.entries@.len(),
                self.entries@.len() == self@.len(),
                forall|i: int| 0 <= i < self.entries@.len() ==> #[trigger] self@[i] == (
                    self.entries@[i].0@,
                    json_view(self.entries@[i].1),
                ),
                forall|i: int| 0 <= i < p ==> seq_lt(#[trigger] self@[i].0, key@),
            decreases self.entries@.len() - p,
        {
            p = p + 1;
        }
        p
    }

    /// The value stored under `key`, if any.
    pub fn get(&self, key: &str) -> (r: Option<&JsonValue>)
        ensures
            match r {
                Some(v) => lookup(self@, key@) == Some(v@),
                None => lookup(self@, key@) is None,
            },
    {
        proof {
            use_type_invariant(self);
            lemma_entries_view(self.entries@);
        }
        let p = self.position(key);
        proof {
            assert forall|i: int| 0 <= i < p implies (#[trigger] self@[i].0) != key@ by {
                lemma_lt_irreflexive(key@);
            }
            lemma_lookup_split(self@, key@, p as int);
        }
        if p < self.entries.len() && str_eq(self.entries[p].0.as_str(), key) {
            proof {
                assert(self@.skip(p as int)[0] == self@[p as int]);
            }
            Some(&self.entries[p].1)
        } else {
            proof {
                let rest = self@.skip(p as int);
                assert forall|i: int| 0 <= i < rest.len() implies (#[trigger] rest[i].0) != key@ by {
                    assert(rest[i] == self@[p + i]);
                    if i > 0 {
                        lemma_lt_total(self@[p as int].0, key@);
                        assert(seq_lt(key@, self@[p as int].0));
                        assert(seq_lt(self@[p as int].0, self@[p + i].0));
                        lemma_lt_transitive(key@, self@[p as int].0, self@[p + i].0);
                        lemma_lt_irreflexive(key@);
                    }
                }
                lemma_lookup_absent(rest, key@);
            }
            None
        }
    }

    /// Whether a value is stored under `key`.
    pub fn contains_key(&self, key: &str) -> (r: bool)
        ensures
            r == lookup(self@, key@) is Some,
    {
        self.get(key).is_some()
    }

    /// Stores `value` under `key`.
    pub fn insert(&mut self, key: String, value: JsonValue)
        ensures
            final(self)@ == insert_entry(old(self)@, key@, value@),
            sorted_keys(old(self)@),
    {
        proof {
            use_type_invariant(&*self);
            lemma_entries_view(self.entries@);
        }
        let p = self.position(key.as_str());
        let ghost old_view = self@;
        let mut es: Vec<(String, JsonValue)> = Vec::new();
        std::mem::swap(&mut es, &mut self.entries);
        let ghost old_es = es@;
        proof {
            lemma_insert_split(old_view, key@, value@, p as int);
        }
        let ghost kv = key@;
        let ghost vv = value@;
        if p < es.len() && str_eq(es[p].0.as_str(), key.as_str()) {
            es.set(p, (key, value));
            proof {
                let rest = old_view.skip(p as int);
                assert(rest[0].0 == kv);
                assert(insert_entry(rest, kv, vv) == rest.update(0, (kv, vv)));
                lemma_entries_view(es@);
                assert(entries_view(es@) =~= old_view.take(p as int) + rest.update(0, (kv, vv)));
                assert forall|i: int, j: int| 0 <= i < j < es@.len() implies seq_lt(
                    #[trigger] es@[i].0@,
                    #[trigger] es@[j].0@,
                ) by {
                    assert(es@[i].0@ == old_es[i].0@);
                    assert(es@[j].0@ == old_es[j].0@);
                }
            }
        } else {
            es.insert(p, (key, value));
            proof {
                let rest = old_view.skip(p as int);
                if p < old_view.len() {
                    lemma_lt_total(old_view[p as int].0, kv);
                    assert(rest[0] == old_view[p as int]);
                    assert(seq_lt(kv, rest[0].0));
                }
                assert(insert_entry(rest, kv, vv) =~= seq![(kv, vv)] + rest);
                lemma_entries_view(es@);
                assert(entries_view(es@) =~= old_view.take(p as int) + (seq![(kv, vv)] + rest));
                assert forall|i: int, j: int| 0 <= i < j < es@.len() implies seq_lt(
                    #[trigger] es@[i].0@,
                    #[trigger] es@[j].0@,
                ) by {
                    if j < p {
                        assert(es@[i] == old_es[i]);
                        assert(es@[j] == old_es[j]);
                        assert(seq_lt(old_es[i].0@, old_es[j].0@));
                    } else if j == p {
                        assert(es@[i] == old_es[i]);
                        assert(old_view[i].0 == old_es[i].0@);
                    } else if i == p {
                        assert(es@[j] == old_es[j - 1]);
                        assert(old_view[j - 1].0 == old_es[j - 1].0@);
                        if j - 1 > p {
                            assert(seq_lt(old_es[p as int].0@, old_es[j - 1].0@));
                            lemma_lt_transitive(kv, old_view[p as int].0, old_view[j - 1].0);
                        }
                    } else if i < p {
                        assert(es@[i] == old_es[i]);
                        assert(es@[j] == old_es[j - 1]);
                        assert(old_view[i].0 == old_es[i].0@);
                        assert(old_view[j - 1].0 == old_es[j - 1].0@);
                        assert(seq_lt(old_view[i].0, kv));
                        if j - 1 > p {
                            assert(seq_lt(old_es[p as int].0@, old_es[j - 1].0@));
                            lemma_lt_transitive(kv, old_view[p as int].0, old_view[j - 1].0);
                        }
                        lemma_lt_transitive(old_view[i].0, kv, old_view[j - 1].0);
                    } else {
                        assert(es@[i] == old_es[i - 1]);
                        assert(es@[j] == old_es[j - 1]);
                        assert(seq_lt(old_es[i - 1].0@, old_es[j - 1].0@));
                    }
                }
            }
        }
        self.entries = es;
    }

    /// Removes the entry stored under `key` and returns its value, if any.
    pub fn remove(&mut self, key: &str) -> (r: Option<JsonValue>)
        ensures
            final(self)@ == remove_entry(old(self)@, key@),
            sorted_keys(old(self)@),
            match r {
                Some(v) => lookup(old(self)@, key@) == Some(v@),
                None => lookup(old(self)@, key@) is None,
            },
    {
        proof {
            use_type_invariant(&*self);
            lemma_entries_view(self.entries@);
        }
        let p = self.position(key);
        let ghost old_view = self@;
        proof {
            assert forall|i: int| 0 <= i < p implies (#[trigger] old_view[i].0) != key@ by {
                lemma_lt_irreflexive(key@);
            }
            lemma_remove_split(old_view, key@, p as int);
            lemma_lookup_split(old_view, key@, p as int);
        }
        if p < self.entries.len() && str_eq(self.entries[p].0.as_str(), key) {
            let mut es: Vec<(String, JsonValue)> = Vec::new();
            std::mem::swap(&mut es, &mut self.entries);
            let ghost old_es = es@;
            let removed = es.remove(p);
            proof {
                let rest = old_view.skip(p as int);
                assert(rest[0] == old_view[p as int]);
                lemma_entries_view(es@);
                assert(entries_view(es@) =~= old_view.take(p as int) + rest.drop_first());
                assert forall|i: int, j: int| 0 <= i < j < es@.len() implies seq_lt(
                    #[trigger] es@[i].0@,
                    #[trigger] es@[j].0@,
                ) by {
                    if j < p {
                        assert(es@[i] == old_es[i]);
                        assert(es@[j] == old_es[j]);
                    } else if i < p {
                        assert(es@[i] == old_es[i]);
                        assert(es@[j] == old_es[j + 1]);
                    } else {
                        assert(es@[i] == old_es[i + 1]);
                        assert(es@[j] == old_es[j + 1]);
                    }
                }
            }
            self.entries = es;
            Some(removed.1)
        } else {
            proof {
                let rest = old_view.skip(p as int);
                assert forall|i: int| 0 <= i < rest.len() implies (#[trigger] rest[i].0) != key@ by {
                    assert(rest[i] == old_view[p + i]);
                    lemma_lt_total(old_view[p as int].0, key@);
                    if i > 0 {
                        lemma_lt_transitive(key@, old_view[p as int].0, old_view[p + i].0);
                    }
                    lemma_lt_irreflexive(key@);
                }
                lemma_remove_absent(rest, key@);
                lemma_lookup_absent(rest, key@);
                assert(old_view.take(p as int) + rest =~= old_view);
            }
            None
        }
    }
}

pub proof fn lemma_remove_absent(es: Seq<(Seq<char>, JsonView)>, k: Seq<char>)
    requires
        forall|i: int| 0 <= i < es.len() ==> (#[trigger] es[i].0) != k,
    ensures
        remove_entry(es, k) == es,
    decreases es.len(),
{
    if es.len() > 0 {
        let rest = es.drop_first();
        assert forall|i: int| 0 <= i < rest.len() implies (#[trigger] rest[i].0) != k by {
            assert(rest[i] == es[i + 1]);
        }
        lemma_remove_absent(rest, k);
        assert(seq![es[0]] + rest =~= es);
    }
}


impl JsonObject {
    /// An independent copy of the object.
    pub fn deep_clone(&self) -> (r: JsonObject)
        ensures
            r@ == self@,
        decreases self, 0nat,
    {
        proof {
            use_type_invariant(self);
            lemma_entries_view(self.entries@);
        }
        let mut out: Vec<(String, JsonValue)> = Vec::new();
        let mut i: usize = 0;
        while i < self.entries.len()
            invariant
                i <= self.entries@.len(),
                out@.len() == i,
                forall|k: int|
                    0 <= k < i ==> (#[trigger] out@[k]).0@ == self.entries@[k].0@ && out@[k].1@
                        == self.entries@[k].1@,
            decreases self.entries@.len() - i,
        {
            let key = self.entries[i].0.clone();
            let value = self.entries[i].1.deep_clone();
            out.push((key, value));
            i = i + 1;
        }
        proof {
            lemma_entries_view(out@);
            assert(entries_view(out@) =~= entries_view(self.entries@));
            assert forall|a: int, b: int| 0 <= a < b < out@.len() implies seq_lt(
                #[trigger] out@[a].0@,
                #[trigger] out@[b].0@,
            ) by {
                assert(seq_lt(self.entries@[a].0@, self.entries@[b].0@));
            }
        }
        JsonObject { entries: out }
    }
}

impl JsonValue {
    /// An independent copy of the value.
    pub fn deep_clone(&self) -> (r: JsonValue)
        ensures
            r@ == self@,
        decreases self, 1nat,
    {
        match self {
            JsonValue::Null => JsonValue::Null,
            JsonValue::Bool(b) => JsonValue::Bool(*b),
            JsonValue::Number(JsonNumber::PosInt(u)) => JsonValue::Number(JsonNumber::PosInt(*u)),
            JsonValue::Number(JsonNumber::NegInt(n)) => JsonValue::Number(JsonNumber::NegInt(*n)),
            JsonValue::Number(JsonNumber::Float(t)) => JsonValue::Number(JsonNumber::Float(t.clone())),
            JsonValue::Str(s) => JsonValue::Str(s.clone()),
            JsonValue::Array(items) => {
                let mut out: Vec<JsonValue> = Vec::new();
                let mut i: usize = 0;
                while i < items.len()
                    invariant
                        *self == JsonValue::Array(*items),
                        i <= items@.len(),
                        out@.len() == i,
                        forall|k: int| 0 <= k < i ==> (#[trigger] out@[k])@ == items@[k]@,
                    decreases items@.len() - i,
                {
                    proof {
                        assert(decreases_to!(*items => items[i as int]));
                        assert(*items == (*self)->Array_0);
                        assert(decreases_to!(*self => (*self)->Array_0));
                        assert(decreases_to!(*self => items[i as int]));
                    }
                    let v = items[i].deep_clone();
                    out.push(v);
                    i = i + 1;
                }
                proof {
                    lemma_items_view(out@);
                    lemma_items_view(items@);
                    assert(items_view(out@) =~= items_view(items@));
                }
                JsonValue::Array(out)
            },
            JsonValue::Object(o) => JsonValue::Object(o.deep_clone()),
        }
    }

    /// A JSON string holding the given text.
    pub fn text(s: &str) -> (r: JsonValue)
        ensures
            r@ == JsonView::Str(s@),
    {
        JsonValue::Str(s.to_owned())
    }

    /// A JSON number holding the given integer (as serde_json's `From<i64>` stores it).
    pub fn integer(n: i64) -> (r: JsonValue)
        ensures
            r@ == int_view(n as int),
    {
        if n < 0 {
            JsonValue::Number(JsonNumber::NegInt(n))
        } else {
            JsonValue::Number(JsonNumber::PosInt(n as u64))
        }
    }

    /// A JSON number holding the given unsigned integer.
    pub fn unsigned(n: u64) -> (r: JsonValue)
        ensures
            r@ == JsonView::Number(NumberView::PosInt(n)),
    {
        JsonValue::Number(JsonNumber::PosInt(n))
    }

    /// The object inside, if this is an object.
    pub fn as_object(&self) -> (r: Option<&JsonObject>)
        ensures
            match r {
                Some(o) => self@ == JsonView::Object(o@),
                None => !(self@ is Object),
            },
    {
        match self {
            JsonValue::Object(o) => Some(o),
            _ => None,
        }
    }

    /// The text inside, if this is a string.
    pub fn as_str(&self) -> (r: Option<&String>)
        ensures
            match r {
                Some(s) => self@ == JsonView::Str(s@),
                None => !(self@ is Str),
            },
    {
        match self {
            JsonValue::Str(s) => Some(s),
            _ => None,
        }
    }

    /// The value stored under `key` when this is an object.
    pub fn get(&self, key: &str) -> (r: Option<&JsonValue>)
        ensures
            match r {
                Some(v) => get_field(self@, key@) == Some(v@),
                None => get_field(self@, key@) is None,
            },
    {
        match self {
            JsonValue::Object(o) => o.get(key),
            _ => None,
        }
    }

    /// The integer inside, when it is a number that fits an `i64`
    /// (as serde_json's `Value::as_i64`).
    pub fn as_i64(&self) -> (r: Option<i64>)
        ensures
            r == view_as_i64(self@),
    {
        match self {
            JsonValue::Number(JsonNumber::PosInt(u)) => {
                if *u <= 0x7fff_ffff_ffff_ffff {
                    Some(*u as i64)
                } else {
                    None
                }
            },
            JsonValue::Number(JsonNumber::NegInt(n)) => Some(*n),
            _ => None,
        }
    }
}

/// The number serde_json stores for an `i64`.
pub open spec fn int_view(n: int) -> JsonView {
    if n < 0 {
        JsonView::Number(NumberView::NegInt(n as i64))
    } else {
        JsonView::Number(NumberView::PosInt(n as u64))
    }
}

/// The value stored under `key` in an object (none for other values).
pub open spec fn get_field(v: JsonView, key: Seq<char>) -> Option<JsonView> {
    match v {
        JsonView::Object(es) => lookup(es, key),
        _ => None,
    }
}

pub open spec fn view_as_i64(v: JsonView) -> Option<i64> {
    match v {
        JsonView::Number(NumberView::PosInt(u)) => if u <= 0x7fff_ffff_ffff_ffff {
            Some(u as i64)
        } else {
            None
        },
        JsonView::Number(NumberView::NegInt(n)) => Some(n),
        _ => None,
    }
}


/// Storing under a key after removing it is the same as storing directly.
pub proof fn lemma_insert_after_remove(es: Seq<(Seq<char>, JsonView)>, k: Seq<char>, v: JsonView)
    requires
        sorted_keys(es),
    ensures
        insert_entry(remove_entry(es, k), k, v) == insert_entry(es, k, v),
    decreases es.len(),
{
    if es.len() > 0 {
        let rest = es.drop_first();
        assert(sorted_keys(rest)) by {
            assert forall|i: int, j: int| 0 <= i < j < rest.len() implies seq_lt(
                #[trigger] rest[i].0,
                #[trigger] rest[j].0,
            ) by {
                assert(rest[i] == es[i + 1]);
                assert(rest[j] == es[j + 1]);
            }
        }
        if es[0].0 == k {
            if rest.len() > 0 {
                assert(rest[0] == es[1]);
                assert(seq_lt(es[0].0, es[1].0));
                lemma_lt_irreflexive(k);
            }
            assert(insert_entry(rest, k, v) =~= seq![(k, v)] + rest);
            assert(es.update(0, (k, v)) =~= seq![(k, v)] + rest);
        } else {
            if seq_lt(k, es[0].0) {
                assert forall|i: int| 0 <= i < rest.len() implies (#[trigger] rest[i].0) != k by {
                    assert(rest[i] == es[i + 1]);
                    assert(seq_lt(es[0].0, es[i + 1].0));
                    lemma_lt_transitive(k, es[0].0, es[i + 1].0);
                    lemma_lt_irreflexive(k);
                }
                lemma_remove_absent(rest, k);
                let removed = seq![es[0]] + remove_entry(rest, k);
                assert(removed =~= es);
            } else {
                lemma_insert_after_remove(rest, k, v);
                let removed = seq![es[0]] + remove_entry(rest, k);
                assert(removed[0] == es[0]);
                assert(removed.drop_first() =~= remove_entry(rest, k));
            }
        }
    }
}


/// Storing a key's own value again leaves sorted entries unchanged.
pub proof fn lemma_insert_present(es: Seq<(Seq<char>, JsonView)>, k: Seq<char>, v: JsonView)
    requires
        sorted_keys(es),
        lookup(es, k) == Some(v),
    ensures
        insert_entry(es, k, v) == es,
    decreases es.len(),
{
    if es[0].0 == k {
        assert(es.update(0, (k, v)) =~= es);
    } else {
        let rest = es.drop_first();
        assert(sorted_keys(rest)) by {
            assert forall|i: int, j: int| 0 <= i < j < rest.len() implies seq_lt(
                #[trigger] rest[i].0,
                #[trigger] rest[j].0,
            ) by {
                assert(rest[i] == es[i + 1]);
                assert(rest[j] == es[j + 1]);
            }
        }
        if seq_lt(k, es[0].0) {
            assert forall|i: int| 0 <= i < rest.len() implies (#[trigger] rest[i].0) != k by {
                assert(rest[i] == es[i + 1]);
                assert(seq_lt(es[0].0, es[i + 1].0));
                lemma_lt_transitive(k, es[0].0, es[i + 1].0);
                lemma_lt_irreflexive(k);
            }
            lemma_lookup_absent(rest, k);
        } else {
            lemma_insert_present(rest, k, v);
            assert(seq![es[0]] + rest =~= es);
        }
    }
}

/// Putting back a removed value restores sorted entries.
pub proof fn lemma_insert_after_remove_same(es: Seq<(Seq<char>, JsonView)>, k: Seq<char>)
    requires
        sorted_keys(es),
        lookup(es, k) is Some,
    ensures
        insert_entry(remove_entry(es, k), k, lookup(es, k).unwrap()) == es,
{
    lemma_insert_after_remove(es, k, lookup(es, k).unwrap());
    lemma_insert_present(es, k, lookup(es, k).unwrap());
}

/// Removing an absent key changes nothing.
pub proof fn lemma_remove_absent_lookup(es: Seq<(Seq<char>, JsonView)>, k: Seq<char>)
    requires
        lookup(es, k) is None,
    ensures
        remove_entry(es, k) == es,
    decreases es.len(),
{
    if es.len() > 0 {
        lemma_remove_absent_lookup(es.drop_first(), k);
        assert(seq![es[0]] + es.drop_first() =~= es);
    }
}

} // verus!
