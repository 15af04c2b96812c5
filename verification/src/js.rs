//! JavaScript-flavoured readings of JSON values: truthiness, string
//! conversion and `Number(..)` conversion, as the request handlers use them.
use crate::json::{lemma_entries_view, lemma_items_view, JsonNumber, JsonValue, JsonView, NumberView};
use crate::decimal::{float_json, float_reading, read_back, reading_zero, reads_as_zero, reading_of, read_back_value};
use crate::text::{
    ascii_lower, ascii_lower_chars, chars_of, decimal, i64_text, signed_decimal, string_of, trim, trim_chars, u128_text,
};
use vstd::prelude::*;
use vstd::utf8::encode_utf8;

verus! {

// ---------------------------------------------------------------------------
// JSON text of arrays and objects (serde_json).
// ---------------------------------------------------------------------------

/// serde_json's dynamically typed JSON value.
#[verifier::external_type_specification]
#[verifier::external_body]
pub struct ExSerdeValue(serde_json::Value);

/// serde_json's JSON number.
#[verifier::external_type_specification]
#[verifier::external_body]
pub struct ExSerdeNumber(serde_json::Number);

/// The compact JSON text serde_json writes for a value
/// (`serde_json::to_string`); a function of the value alone.
pub uninterp spec fn compact_json(v: JsonView) -> Seq<char>;

/// Converts a number into serde_json's representation (a float's text is
/// read back as a JSON number).
#[verifier::external_body]
fn number_to_serde(n: &JsonNumber) -> serde_json::Value {
    match n {
        JsonNumber::PosInt(n) => serde_json::Value::from(*n),
        JsonNumber::NegInt(n) => serde_json::Value::from(*n),
        JsonNumber::Float(t) => serde_json::from_str(t).unwrap_or_default(),
    }
}

/// Converts a value into serde_json's representation, one node for one node
/// (object entries keep their keys).
#[verifier::external_body]
fn to_serde(v: &JsonValue) -> serde_json::Value {
    match v {
        JsonValue::Null => serde_json::Value::Null,
        JsonValue::Bool(b) => serde_json::Value::Bool(*b),
        JsonValue::Number(n) => number_to_serde(n),
        JsonValue::Str(s) => serde_json::Value::String(s.clone()),
        JsonValue::Array(items) => serde_json::Value::Array(items.iter().map(to_serde).collect()),
        JsonValue::Object(o) => serde_json::Value::Object(
            o.entries.iter().map(|(k, v)| (k.clone(), to_serde(v))).collect(),
        ),
    }
}

/// The JSON text of a value, as `serde_json::to_string` writes it.
///
/// Trusted: the text is named (`compact_json`), not stated; serde_json's
/// serializer is not restated here.
#[verifier::external_body]
pub(crate) fn json_text(v: &JsonValue) -> (r: String)
    ensures
        r@ == compact_json(v@),
{
    serde_json::to_string(&to_serde(v)).unwrap_or_default()
}

/// The JSON document `serde_json::from_slice` reads from the bytes, or the
/// text of its error; a function of the bytes alone.
pub uninterp spec fn json_document(bytes: Seq<u8>) -> Result<JsonView, Seq<char>>;

/// Converts serde_json's number into a number: integers stay integers,
/// other numbers keep the text serde_json prints for them.
#[verifier::external_body]
fn number_from_serde(n: serde_json::Number) -> JsonNumber {
    match (n.as_u64(), n.as_i64()) {
        (Some(u), _) => JsonNumber::PosInt(u),
        (None, Some(i)) => JsonNumber::NegInt(i),
        _ => JsonNumber::Float(n.to_string()),
    }
}

/// Converts serde_json's representation into a value, one node for one node;
/// objects keep the key order of serde_json's map, which is the order of the
/// keys' UTF-8 bytes and hence of their characters.
#[verifier::external_body]
fn from_serde(v: serde_json::Value) -> JsonValue {
    match v {
        serde_json::Value::Null => JsonValue::Null,
        serde_json::Value::Bool(b) => JsonValue::Bool(b),
        serde_json::Value::Number(n) => JsonValue::Number(number_from_serde(n)),
        serde_json::Value::String(s) => JsonValue::Str(s),
        serde_json::Value::Array(items) => JsonValue::Array(items.into_iter().map(from_serde).collect()),
        serde_json::Value::Object(map) => JsonValue::Object(crate::json::JsonObject {
            entries: map.into_iter().map(|(k, v)| (k, from_serde(v))).collect(),
        }),
    }
}

/// `serde_json::from_slice` into a value.
///
/// Trusted: the document is named (`json_document`), not stated.
#[verifier::external_body]
pub(crate) fn parse_json(bytes: &[u8]) -> (r: Result<JsonValue, String>)
    ensures
        match r {
            Ok(v) => json_document(bytes@) == Ok::<JsonView, Seq<char>>(v@),
            Err(e) => json_document(bytes@) == Err::<JsonView, Seq<char>>(e@),
        },
{
    serde_json::from_slice::<serde_json::Value>(bytes).map(from_serde).map_err(|e| e.to_string())
}

/// The text `String::from_utf8_lossy` makes of the bytes.
pub uninterp spec fn lossy_text(bytes: Seq<u8>) -> Seq<char>;

/// `String::from_utf8_lossy`: the bytes decoded as UTF-8, invalid sequences
/// replaced by U+FFFD.
///
/// Trusted: the text is named; for valid UTF-8 std documents that the text is
/// the decoded bytes, which the contract states.
#[verifier::external_body]
pub(crate) fn utf8_lossy(bytes: &[u8]) -> (r: String)
    ensures
        r@ == lossy_text(bytes@),
        vstd::utf8::valid_utf8(bytes@) ==> r@ == vstd::utf8::decode_utf8(bytes@),
{
    String::from_utf8_lossy(bytes).into_owned()
}

/// An upstream body: its JSON document, or its text when it is not JSON.
pub open spec fn body_value(bytes: Seq<u8>) -> JsonView {
    match json_document(bytes) {
        Ok(v) => v,
        Err(_) => JsonView::Str(lossy_text(bytes)),
    }
}

/// Reads an upstream body: JSON when it parses, its text otherwise.
pub fn read_body(bytes: &[u8]) -> (r: JsonValue)
    ensures
        r@ == body_value(bytes@),
{
    match parse_json(bytes) {
        Ok(v) => v,
        Err(_) => JsonValue::Str(utf8_lossy(bytes)),
    }
}

// ---------------------------------------------------------------------------
// Truthiness and string conversion.
// ---------------------------------------------------------------------------

/// The digits before any exponent are all zero.
pub open spec fn mantissa_zero(t: Seq<char>) -> bool
    decreases t.len(),
{
    if t.len() == 0 {
        true
    } else if t[0] == 'e' || t[0] == 'E' {
        true
    } else if '1' <= t[0] && t[0] <= '9' {
        false
    } else {
        mantissa_zero(t.drop_first())
    }
}

/// The number is zero.
pub open spec fn is_zero_number(n: NumberView) -> bool {
    match n {
        NumberView::PosInt(u) => u == 0,
        NumberView::NegInt(_) => false,
        NumberView::Float(t) => mantissa_zero(t),
    }
}

/// JavaScript truthiness: `null`, `false`, zero and the empty string are false.
pub open spec fn is_truthy(v: JsonView) -> bool {
    match v {
        JsonView::Null => false,
        JsonView::Bool(b) => b,
        JsonView::Number(n) => !is_zero_number(n),
        JsonView::Str(s) => s.len() > 0,
        _ => true,
    }
}

/// The decimal text of a number, as serde_json prints it.
pub open spec fn number_text(n: NumberView) -> Seq<char> {
    match n {
        NumberView::PosInt(u) => decimal(u as nat),
        NumberView::NegInt(i) => signed_decimal(i as int),
        NumberView::Float(t) => t,
    }
}

/// JavaScript `String(value)` for the values the handlers meet: strings as
/// they are, scalars as their literal text, arrays and objects as JSON text.
pub open spec fn js_text(v: JsonView) -> Seq<char> {
    match v {
        JsonView::Null => seq!['n', 'u', 'l', 'l'],
        JsonView::Bool(b) => if b {
            seq!['t', 'r', 'u', 'e']
        } else {
            seq!['f', 'a', 'l', 's', 'e']
        },
        JsonView::Number(n) => number_text(n),
        JsonView::Str(s) => s,
        _ => compact_json(v),
    }
}

fn mantissa_is_zero(t: &[char]) -> (r: bool)
    ensures
        r == mantissa_zero(t@),
{
    let mut i: usize = 0;
    assert(t@.skip(0) =~= t@);
    while i < t.len()
        invariant
            i <= t@.len(),
            mantissa_zero(t@) == mantissa_zero(t@.skip(i as int)),
        decreases t@.len() - i,
    {
        let c = t[i];
        if c == 'e' || c == 'E' {
            return true;
        }
        if '1' <= c && c <= '9' {
            return false;
        }
        assert(t@.skip(i as int).drop_first() =~= t@.skip(i + 1));
        i = i + 1;
    }
    true
}

/// JavaScript truthiness of a value.
pub fn truthy(v: &JsonValue) -> (r: bool)
    ensures
        r == is_truthy(v@),
{
    match v {
        JsonValue::Null => false,
        JsonValue::Bool(b) => *b,
        JsonValue::Number(JsonNumber::PosInt(u)) => *u != 0,
        JsonValue::Number(JsonNumber::NegInt(_)) => true,
        JsonValue::Number(JsonNumber::Float(t)) => {
            let cs = chars_of(t.as_str());
            !mantissa_is_zero(cs.as_slice())
        },
        JsonValue::Str(s) => !s.as_str().is_empty(),
        JsonValue::Array(_) => true,
        JsonValue::Object(_) => true,
    }
}

/// The text of a string built from the given characters.
fn text_of(cs: &[char]) -> (r: String)
    ensures
        r@ == cs@,
{
    string_of(cs)
}

/// JavaScript `String(value)`.
pub fn js_string(v: &JsonValue) -> (r: String)
    ensures
        r@ == js_text(v@),
{
    match v {
        JsonValue::Null => text_of(&['n', 'u', 'l', 'l']),
        JsonValue::Bool(b) => if *b {
            text_of(&['t', 'r', 'u', 'e'])
        } else {
            text_of(&['f', 'a', 'l', 's', 'e'])
        },
        JsonValue::Number(JsonNumber::PosInt(u)) => u128_text(*u as u128),
        JsonValue::Number(JsonNumber::NegInt(n)) => i64_text(*n),
        JsonValue::Number(JsonNumber::Float(t)) => t.clone(),
        JsonValue::Str(s) => s.clone(),
        JsonValue::Array(_) => json_text(v),
        JsonValue::Object(_) => json_text(v),
    }
}

// ---------------------------------------------------------------------------
// Number(..) conversion.
// ---------------------------------------------------------------------------

/// A recogniser step for `[+-]?[0-9]+` (state 2 accepts, -1 rejects).
pub open spec fn int_step(st: int, c: char) -> int {
    if st == 0 && (c == '+' || c == '-') {
        1
    } else if 0 <= st <= 2 && '0' <= c && c <= '9' {
        2
    } else {
        -1
    }
}

/// A recogniser step for JSON's number grammar
/// `-?(0|[1-9][0-9]*)(\.[0-9]+)?([eE][+-]?[0-9]+)?` (states 2, 3, 5, 8 accept).
pub open spec fn json_number_step(st: int, c: char) -> int {
    let digit = '0' <= c && c <= '9';
    if st == 0 && c == '-' {
        1
    } else if (st == 0 || st == 1) && c == '0' {
        2
    } else if (st == 0 || st == 1) && '1' <= c && c <= '9' {
        3
    } else if st == 3 && digit {
        3
    } else if (st == 2 || st == 3) && c == '.' {
        4
    } else if (st == 4 || st == 5) && digit {
        5
    } else if (st == 2 || st == 3 || st == 5) && (c == 'e' || c == 'E') {
        6
    } else if st == 6 && (c == '+' || c == '-') {
        7
    } else if (st == 6 || st == 7 || st == 8) && digit {
        8
    } else {
        -1
    }
}

/// A recogniser step for the decimal forms `str::parse::<f64>` accepts:
/// `[+-]?(d+|d+\.d*|d*\.d+)([eE][+-]?d+)?` (states 2, 3, 5, 8 accept).
pub open spec fn decimal_float_step(st: int, c: char) -> int {
    let digit = '0' <= c && c <= '9';
    if st == 0 && (c == '+' || c == '-') {
        1
    } else if (st == 0 || st == 1 || st == 2) && digit {
        2
    } else if st == 2 && c == '.' {
        3
    } else if (st == 0 || st == 1) && c == '.' {
        4
    } else if (st == 3 || st == 4 || st == 5) && digit {
        5
    } else if (st == 2 || st == 3 || st == 5) && (c == 'e' || c == 'E') {
        6
    } else if st == 6 && (c == '+' || c == '-') {
        7
    } else if (st == 6 || st == 7 || st == 8) && digit {
        8
    } else {
        -1
    }
}

/// Which of the recognisers above a run uses.
pub enum Grammar {
    Integer,
    JsonNumber,
    DecimalFloat,
}

pub open spec fn step(g: Grammar, st: int, c: char) -> int {
    match g {
        Grammar::Integer => int_step(st, c),
        Grammar::JsonNumber => json_number_step(st, c),
        Grammar::DecimalFloat => decimal_float_step(st, c),
    }
}

/// The state a recogniser reaches after reading `s` from state `st`.
pub open spec fn run(g: Grammar, s: Seq<char>, st: int) -> int
    decreases s.len(),
{
    if s.len() == 0 || st < 0 {
        st
    } else {
        run(g, s.drop_first(), step(g, st, s[0]))
    }
}

pub open spec fn accepting(g: Grammar, st: int) -> bool {
    match g {
        Grammar::Integer => st == 2,
        _ => st == 2 || st == 3 || st == 5 || st == 8,
    }
}

/// `s` belongs to the grammar.
pub open spec fn matches_grammar(g: Grammar, s: Seq<char>) -> bool {
    accepting(g, run(g, s, 0))
}

fn exec_step(g: &Grammar, st: i8, c: char) -> (r: i8)
    requires
        -1 <= st <= 8,
    ensures
        r == step(*g, st as int, c),
        -1 <= r <= 8,
{
    let digit = '0' <= c && c <= '9';
    match g {
        Grammar::Integer => {
            if st == 0 && (c == '+' || c == '-') {
                1
            } else if 0 <= st && st <= 2 && digit {
                2
            } else {
                -1
            }
        },
        Grammar::JsonNumber => {
            if st == 0 && c == '-' {
                1
            } else if (st == 0 || st == 1) && c == '0' {
                2
            } else if (st == 0 || st == 1) && '1' <= c && c <= '9' {
                3
            } else if st == 3 && digit {
                3
            } else if (st == 2 || st == 3) && c == '.' {
                4
            } else if (st == 4 || st == 5) && digit {
                5
            } else if (st == 2 || st == 3 || st == 5) && (c == 'e' || c == 'E') {
                6
            } else if st == 6 && (c == '+' || c == '-') {
                7
            } else if (st == 6 || st == 7 || st == 8) && digit {
                8
            } else {
                -1
            }
        },
        Grammar::DecimalFloat => {
            if st == 0 && (c == '+' || c == '-') {
                1
            } else if (st == 0 || st == 1 || st == 2) && digit {
                2
            } else if st == 2 && c == '.' {
                3
            } else if (st == 0 || st == 1) && c == '.' {
                4
            } else if (st == 3 || st == 4 || st == 5) && digit {
                5
            } else if (st == 2 || st == 3 || st == 5) && (c == 'e' || c == 'E') {
                6
            } else if st == 6 && (c == '+' || c == '-') {
                7
            } else if (st == 6 || st == 7 || st == 8) && digit {
                8
            } else {
                -1
            }
        },
    }
}

/// Whether `s` belongs to the grammar.
pub(crate) fn recognise(g: Grammar, s: &[char]) -> (r: bool)
    ensures
        r == matches_grammar(g, s@),
{
    let mut st: i8 = 0;
    let mut i: usize = 0;
    assert(s@.skip(0) =~= s@);
    while i < s.len() && st >= 0
        invariant
            i <= s@.len(),
            -1 <= st <= 8,
            run(g, s@, 0) == run(g, s@.skip(i as int), st as int),
        decreases s@.len() - i,
    {
        let next = exec_step(&g, st, s[i]);
        assert(s@.skip(i as int).drop_first() =~= s@.skip(i + 1));
        st = next;
        i = i + 1;
    }
    match g {
        Grammar::Integer => st == 2,
        _ => st == 2 || st == 3 || st == 5 || st == 8,
    }
}

/// The value of a string of decimal digits.
pub open spec fn digits_value(s: Seq<char>) -> int
    decreases s.len(),
{
    if s.len() == 0 {
        0
    } else {
        digits_value(s.drop_last()) * 10 + ((s.last() as int) - ('0' as int))
    }
}

/// The value of an integer literal `[+-]?[0-9]+`.
pub open spec fn literal_value(t: Seq<char>) -> int {
    if t.len() > 0 && t[0] == '-' {
        -digits_value(t.drop_first())
    } else if t.len() > 0 && t[0] == '+' {
        digits_value(t.drop_first())
    } else {
        digits_value(t)
    }
}

/// The largest magnitude below which every integer is exact in an `f64`.
pub open spec fn exact_limit() -> int {
    0x20_0000_0000_0000
}

/// What `Number(text)` gives for an already trimmed text, read as a float
/// parse reads it: an integer literal of magnitude at most 2^53
/// is that integer exactly; any other decimal literal is read as the nearest
/// double (serde_json's correctly rounded reading of its JSON form), which [`read_back`] turns
/// into an integer when integral and within the `i64` range and keeps as the
/// double otherwise; a double out of range, and anything else, is the string
/// "NaN".
pub open spec fn number_from_text(t: Seq<char>) -> JsonView {
    if matches_grammar(Grammar::Integer, t) && -exact_limit() <= literal_value(t) <= exact_limit() {
        let v = literal_value(t);
        if v < 0 {
            JsonView::Number(NumberView::NegInt(v as i64))
        } else {
            JsonView::Number(NumberView::PosInt(v as u64))
        }
    } else if matches_grammar(Grammar::DecimalFloat, t) {
        match float_reading(float_json(t)) {
            Some(x) => read_back(x),
            None => JsonView::Str(seq!['N', 'a', 'N']),
        }
    } else {
        JsonView::Str(seq!['N', 'a', 'N'])
    }
}

/// JavaScript `Number(value)`, kept as a JSON value: null and false are 0,
/// true is 1, numbers stay, strings are converted, and arrays and objects give
/// the string "NaN".
pub open spec fn js_number(v: JsonView) -> JsonView {
    match v {
        JsonView::Null => JsonView::Number(NumberView::PosInt(0)),
        JsonView::Bool(b) => JsonView::Number(NumberView::PosInt(if b {
            1
        } else {
            0
        })),
        JsonView::Number(_) => v,
        JsonView::Str(s) => number_from_text(trim(s)),
        _ => JsonView::Str(seq!['N', 'a', 'N']),
    }
}

/// The magnitude of the digits after an optional sign, or `None` once it
/// passes 2^53.
pub(crate) fn small_magnitude(t: &[char], start: usize) -> (r: Option<u64>)
    requires
        start <= t@.len(),
        forall|i: int| start <= i < t@.len() ==> '0' <= #[trigger] t@[i] && t@[i] <= '9',
    ensures
        match r {
            Some(m) => m as int == digits_value(t@.skip(start as int)) && m <= exact_limit(),
            None => digits_value(t@.skip(start as int)) > exact_limit(),
        },
{
    let mut m: u64 = 0;
    let mut i: usize = start;
    assert(t@.skip(start as int).take(0) =~= Seq::<char>::empty());
    while i < t.len()
        invariant
            start <= i <= t@.len(),
            forall|k: int| start <= k < t@.len() ==> '0' <= #[trigger] t@[k] && t@[k] <= '9',
            m as int == digits_value(t@.skip(start as int).take(i - start)),
            m <= exact_limit(),
        decreases t@.len() - i,
    {
        let d = (t[i] as u32 - '0' as u32) as u64;
        let ghost prefix = t@.skip(start as int).take(i + 1 - start);
        assert(prefix.drop_last() =~= t@.skip(start as int).take(i - start));
        assert(prefix.last() == t@[i as int]);
        if m > 0x3_3333_3333_3333 || m * 10 + d > 0x20_0000_0000_0000 {
            proof {
                lemma_digits_value_grows(t@.skip(start as int), i + 1 - start);
            }
            return None;
        }
        m = m * 10 + d;
        i = i + 1;
    }
    assert(t@.skip(start as int).take(t@.len() - start) =~= t@.skip(start as int));
    Some(m)
}

proof fn lemma_digits_value_grows(s: Seq<char>, n: int)
    requires
        0 <= n <= s.len(),
        forall|k: int| 0 <= k < s.len() ==> '0' <= #[trigger] s[k] && s[k] <= '9',
    ensures
        digits_value(s) >= digits_value(s.take(n)),
    decreases s.len() - n,
{
    if n < s.len() {
        lemma_digits_value_grows(s, n + 1);
        let p = s.take(n + 1);
        assert(p.drop_last() =~= s.take(n));
        assert(p.last() == s[n]);
        lemma_digits_value_nonneg(s.take(n));
    } else {
        assert(s.take(n) =~= s);
    }
}

proof fn lemma_digits_value_nonneg(s: Seq<char>)
    requires
        forall|k: int| 0 <= k < s.len() ==> '0' <= #[trigger] s[k] && s[k] <= '9',
    ensures
        digits_value(s) >= 0,
    decreases s.len(),
{
    if s.len() > 0 {
        lemma_digits_value_nonneg(s.drop_last());
    }
}

pub(crate) proof fn lemma_integer_digits(t: Seq<char>, st: int, start: int)
    requires
        0 <= start <= t.len(),
        0 <= st <= 2,
        accepting(Grammar::Integer, run(Grammar::Integer, t.skip(start), st)),
        st != 0 ==> true,
    ensures
        forall|i: int| start <= i < t.len() ==> '0' <= #[trigger] t[i] && t[i] <= '9' || (i
            == start && st == 0 && (t[i] == '+' || t[i] == '-')),
    decreases t.len() - start,
{
    if start < t.len() {
        let s = t.skip(start);
        let next = int_step(st, t[start]);
        assert(s[0] == t[start]);
        assert(s.drop_first() =~= t.skip(start + 1));
        if next >= 0 {
            lemma_integer_digits(t, next, start + 1);
        } else {
            assert(run(Grammar::Integer, s.drop_first(), next) == next) by {
                lemma_run_rejected(Grammar::Integer, s.drop_first());
            }
        }
    }
}

proof fn lemma_run_rejected(g: Grammar, s: Seq<char>)
    ensures
        run(g, s, -1) == -1,
{
}

/// JavaScript `Number(value)` (see [`js_number`]).
pub fn number_value(value: JsonValue) -> (r: JsonValue)
    ensures
        r@ == js_number(value@),
{
    match value {
        JsonValue::Null => JsonValue::Number(JsonNumber::PosInt(0)),
        JsonValue::Bool(b) => JsonValue::Number(JsonNumber::PosInt(if b {
            1
        } else {
            0
        })),
        JsonValue::Number(n) => JsonValue::Number(n),
        JsonValue::Str(s) => {
            let cs = chars_of(s.as_str());
            let t = trim_chars(cs.as_slice());
            number_from_trimmed(t.as_slice())
        },
        JsonValue::Array(_) => nan_text(),
        JsonValue::Object(_) => nan_text(),
    }
}

fn nan_text() -> (r: JsonValue)
    ensures
        r@ == JsonView::Str(seq!['N', 'a', 'N']),
{
    JsonValue::Str(string_of(&['N', 'a', 'N']))
}

fn number_from_trimmed(t: &[char]) -> (r: JsonValue)
    ensures
        r@ == number_from_text(t@),
{
    if recognise(Grammar::Integer, t) {
        proof {
            assert(t@.skip(0) =~= t@);
            lemma_integer_digits(t@, 0, 0);
        }
        let negative = t[0] == '-';
        let start: usize = if t[0] == '-' || t[0] == '+' {
            1
        } else {
            0
        };
        proof {
            if start == 1 {
                assert(t@.skip(1) =~= t@.drop_first());
            } else {
                assert(t@.skip(0) =~= t@);
            }
        }
        match small_magnitude(t, start) {
            Some(m) => {
                if negative && m > 0 {
                    let n: i64 = 0i64 - (m as i64);
                    return JsonValue::Number(JsonNumber::NegInt(n));
                } else {
                    return JsonValue::Number(JsonNumber::PosInt(m));
                }
            },
            None => {},
        }
    }
    if recognise(Grammar::DecimalFloat, t) {
        match reading_of(t) {
            Some(x) => read_back_value(x.as_slice()),
            None => nan_text(),
        }
    } else {
        nan_text()
    }
}

// ---------------------------------------------------------------------------
// Zero tests and emptiness.
// ---------------------------------------------------------------------------

/// `value.trim().parse::<f64>() == Ok(0.0)`: the trimmed text is a decimal
/// literal whose digits before any exponent are all zero, or whose nearest
/// double is zero (it underflows).
pub open spec fn text_is_zero(s: Seq<char>) -> bool {
    matches_grammar(Grammar::DecimalFloat, trim(s)) && (mantissa_zero(trim(s)) || reading_zero(
        float_reading(float_json(trim(s))),
    ))
}

/// The reading of "is zero" the handlers use: null, false, a zero number and
/// a text that parses to zero; anything else, or no value, is not zero.
pub open spec fn is_zero_value(v: Option<JsonView>) -> bool {
    match v {
        Some(JsonView::Null) => true,
        Some(JsonView::Bool(b)) => !b,
        Some(JsonView::Number(n)) => is_zero_number(n),
        Some(JsonView::Str(s)) => text_is_zero(s),
        _ => false,
    }
}

/// Whether a value counts as zero (see [`is_zero_value`]).
pub fn number_is_zero(value: Option<&JsonValue>) -> (r: bool)
    ensures
        r == is_zero_value(match value {
            Some(v) => Some(v@),
            None => None,
        }),
{
    match value {
        Some(JsonValue::Null) => true,
        Some(JsonValue::Bool(b)) => !*b,
        Some(JsonValue::Number(JsonNumber::PosInt(u))) => *u == 0,
        Some(JsonValue::Number(JsonNumber::NegInt(_))) => false,
        Some(JsonValue::Number(JsonNumber::Float(t))) => {
            let cs = chars_of(t.as_str());
            mantissa_is_zero(cs.as_slice())
        },
        Some(JsonValue::Str(s)) => {
            let cs = chars_of(s.as_str());
            let t = trim_chars(cs.as_slice());
            recognise(Grammar::DecimalFloat, t.as_slice()) && (mantissa_is_zero(t.as_slice())
                || reads_as_zero(t.as_slice()))
        },
        _ => false,
    }
}

/// The text is present: after trimming it is neither empty, "null" nor "undefined".
pub open spec fn is_nonempty_text(t: Seq<char>) -> bool {
    let s = trim(t);
    s.len() > 0 && s != seq!['n', 'u', 'l', 'l'] && s != seq![
        'u',
        'n',
        'd',
        'e',
        'f',
        'i',
        'n',
        'e',
        'd',
    ]
}

fn chars_equal(a: &[char], b: &[char]) -> (r: bool)
    ensures
        r == (a@ == b@),
{
    if a.len() != b.len() {
        return false;
    }
    let mut i: usize = 0;
    while i < a.len()
        invariant
            a@.len() == b@.len(),
            i <= a@.len(),
            forall|j: int| 0 <= j < i ==> a@[j] == b@[j],
        decreases a@.len() - i,
    {
        if a[i] != b[i] {
            return false;
        }
        i = i + 1;
    }
    assert(a@ =~= b@);
    true
}

/// Whether the value's text is present (see [`is_nonempty_text`]).
pub fn nonempty(value: &JsonValue) -> (r: bool)
    ensures
        r == is_nonempty_text(js_text(value@)),
{
    let text = js_string(value);
    let cs = chars_of(text.as_str());
    let t = trim_chars(cs.as_slice());
    let null_text = ['n', 'u', 'l', 'l'];
    let undefined_text = ['u', 'n', 'd', 'e', 'f', 'i', 'n', 'e', 'd'];
    let is_null = chars_equal(t.as_slice(), &null_text);
    let is_undefined = chars_equal(t.as_slice(), &undefined_text);
    proof {
        assert(null_text@ =~= seq!['n', 'u', 'l', 'l']);
        assert(undefined_text@ =~= seq!['u', 'n', 'd', 'e', 'f', 'i', 'n', 'e', 'd']);
    }
    t.len() != 0 && !is_null && !is_undefined
}

/// The words a float parse reads as positive infinity: `inf` and `infinity`,
/// in any case, with an optional `+`.
pub open spec fn infinity_word(t: Seq<char>) -> bool {
    let l = ascii_lower(t);
    l == seq!['i', 'n', 'f'] || l == seq!['+', 'i', 'n', 'f'] || l == seq![
        'i',
        'n',
        'f',
        'i',
        'n',
        'i',
        't',
        'y',
    ] || l == seq!['+', 'i', 'n', 'f', 'i', 'n', 'i', 't', 'y']
}

/// `text.parse::<f64>()` succeeds with a value above zero: a decimal literal
/// without a minus sign whose digits before any exponent are not all zero and
/// whose nearest double is not zero (a literal beyond the double range reads
/// as infinity), or a word for infinity.
pub open spec fn positive_text(t: Seq<char>) -> bool {
    ||| {
        &&& matches_grammar(Grammar::DecimalFloat, t)
        &&& !(t.len() > 0 && t[0] == '-')
        &&& !mantissa_zero(t)
        &&& !reading_zero(float_reading(float_json(t)))
    }
    ||| infinity_word(t)
}

/// Whether the text reads as a number above zero (see [`positive_text`]).
pub fn positive_decimal(t: &str) -> (r: bool)
    ensures
        r == positive_text(t@),
{
    let cs = chars_of(t);
    if recognise(Grammar::DecimalFloat, cs.as_slice()) && !(cs.len() > 0 && cs[0] == '-')
        && !mantissa_is_zero(cs.as_slice()) && !reads_as_zero(cs.as_slice()) {
        return true;
    }
    let l = ascii_lower_chars(cs.as_slice());
    let inf = ['i', 'n', 'f'];
    let plus_inf = ['+', 'i', 'n', 'f'];
    let infinity = ['i', 'n', 'f', 'i', 'n', 'i', 't', 'y'];
    let plus_infinity = ['+', 'i', 'n', 'f', 'i', 'n', 'i', 't', 'y'];
    proof {
        assert(inf@ =~= seq!['i', 'n', 'f']);
        assert(plus_inf@ =~= seq!['+', 'i', 'n', 'f']);
        assert(infinity@ =~= seq!['i', 'n', 'f', 'i', 'n', 'i', 't', 'y']);
        assert(plus_infinity@ =~= seq!['+', 'i', 'n', 'f', 'i', 'n', 'i', 't', 'y']);
    }
    chars_equal(l.as_slice(), &inf) || chars_equal(l.as_slice(), &plus_inf) || chars_equal(
        l.as_slice(),
        &infinity,
    ) || chars_equal(l.as_slice(), &plus_infinity)
}

/// The compact JSON text of a value (see [`compact_json`]).
pub fn to_json_text(v: &JsonValue) -> (r: String)
    ensures
        r@ == compact_json(v@),
{
    json_text(v)
}

/// The JSON document a text holds, or the parse error (see
/// [`json_document`]).
pub fn from_json_text(text: &str) -> (r: Result<JsonValue, String>)
    ensures
        match r {
            Ok(v) => json_document(encode_utf8(text@)) == Ok::<JsonView, Seq<char>>(v@),
            Err(e) => json_document(encode_utf8(text@)) == Err::<JsonView, Seq<char>>(e@),
        },
{
    parse_json(text.as_bytes())
}

} // verus!
