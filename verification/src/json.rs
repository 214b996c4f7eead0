//! A JSON value model with a verified parser and serializer.
//!
//! Values keep numbers as the lexemes they arrived with, so no floating point enters
//! the library; the accessors read integers out of integral lexemes exactly.
//! The parser is specified by a deterministic specification-level parser
//! (`sp_value` and friends), and the executable parser is proved to return
//! exactly what the specification parser returns.

use vstd::prelude::*;

verus! {

broadcast use
    vstd::std_specs::vec::group_vec_axioms,
    vstd::seq::group_seq_axioms,
;

/// A decoded JSON document.  `Num` holds the numeric lexeme exactly as it
/// appeared in the input; `Obj` keeps fields in input order, duplicates
/// included (lookups take the first match).
pub enum JsonValue {
    Null,
    Bool(bool),
    Num(String),
    Str(String),
    Arr(Vec<JsonValue>),
    Obj(Vec<(String, JsonValue)>),
}

/// The mathematical model of a JSON value.
pub enum JsonModel {
    Null,
    Bool(bool),
    Num(Seq<char>),
    Str(Seq<char>),
    Arr(Seq<JsonModel>),
    Obj(Seq<(Seq<char>, JsonModel)>),
}

impl JsonValue {
    /// The model of this value.
    pub open spec fn jm(self) -> JsonModel
        decreases self via Self::jm_decreases
    {
        match self {
            JsonValue::Null => JsonModel::Null,
            JsonValue::Bool(b) => JsonModel::Bool(b),
            JsonValue::Num(s) => JsonModel::Num(s@),
            JsonValue::Str(s) => JsonModel::Str(s@),
            JsonValue::Arr(items) => JsonModel::Arr(jm_seq(items@)),
            JsonValue::Obj(fields) => JsonModel::Obj(jm_fields(fields@)),
        }
    }

    #[via_fn]
    proof fn jm_decreases(self) {
        match self {
            JsonValue::Arr(items) => {
                assert(decreases_to!(self => items));
                assert(decreases_to!(items => items@));
            }
            JsonValue::Obj(fields) => {
                assert(decreases_to!(self => fields));
                assert(decreases_to!(fields => fields@));
            }
            _ => {}
        }
    }

    /// The canonical empty object, which stands in for an empty response body.
    pub fn empty_object() -> (r: JsonValue)
        ensures
            r.jm() == JsonModel::Obj(Seq::<(Seq<char>, JsonModel)>::empty()),
    {
        let r = JsonValue::Obj(Vec::new());
        proof {
            assert(r.jm() =~= JsonModel::Obj(Seq::<(Seq<char>, JsonModel)>::empty()));
        }
        r
    }
}

/// The models of a sequence of values, element by element.
pub open spec fn jm_seq(items: Seq<JsonValue>) -> Seq<JsonModel>
    decreases items,
{
    if items.len() == 0 {
        Seq::empty()
    } else {
        seq![items[0].jm()] + jm_seq(items.drop_first())
    }
}

/// The models of a sequence of object fields, element by element.
pub open spec fn jm_fields(fields: Seq<(String, JsonValue)>) -> Seq<(Seq<char>, JsonModel)>
    decreases fields,
{
    if fields.len() == 0 {
        Seq::empty()
    } else {
        seq![(fields[0].0@, fields[0].1.jm())] + jm_fields(fields.drop_first())
    }
}

/// JSON whitespace.
pub open spec fn is_ws(c: char) -> bool {
    c == ' ' || c == '\t' || c == '\n' || c == '\r'
}

/// A decimal digit.
pub open spec fn is_digit(c: char) -> bool {
    '0' <= c && c <= '9'
}

/// A hexadecimal digit.
pub open spec fn is_hex(c: char) -> bool {
    is_digit(c) || ('a' <= c && c <= 'f') || ('A' <= c && c <= 'F')
}

/// The value of a hexadecimal digit.
pub open spec fn hex_val(c: char) -> u32 {
    if is_digit(c) {
        ((c as u32) - 48) as u32
    } else if 'a' <= c && c <= 'f' {
        ((c as u32) - 87) as u32
    } else {
        ((c as u32) - 55) as u32
    }
}

/// The position of the first non-whitespace character at or after `i`.
pub open spec fn sp_ws(s: Seq<char>, i: int) -> int
    decreases s.len() - i,
{
    if 0 <= i && i < s.len() && is_ws(s[i]) {
        sp_ws(s, i + 1)
    } else {
        i
    }
}

/// Skipping whitespace stays within the input.
pub proof fn lemma_sp_ws(s: Seq<char>, i: int)
    requires
        0 <= i <= s.len(),
    ensures
        i <= sp_ws(s, i) <= s.len(),
    decreases s.len() - i,
{
    if i < s.len() && is_ws(s[i]) {
        lemma_sp_ws(s, i + 1);
    }
}

/// The position of the first non-digit character at or after `i`.
pub open spec fn sp_digits_end(s: Seq<char>, i: int) -> int
    decreases s.len() - i,
{
    if 0 <= i && i < s.len() && is_digit(s[i]) {
        sp_digits_end(s, i + 1)
    } else {
        i
    }
}

/// Skipping digits stays within the input.
pub proof fn lemma_sp_digits_end(s: Seq<char>, i: int)
    requires
        0 <= i <= s.len(),
    ensures
        i <= sp_digits_end(s, i) <= s.len(),
        i < s.len() && is_digit(s[i]) ==> sp_digits_end(s, i) > i,
    decreases s.len() - i,
{
    if i < s.len() && is_digit(s[i]) {
        lemma_sp_digits_end(s, i + 1);
    }
}

/// Four hexadecimal digits starting at `i`, combined into one value.
pub open spec fn sp_hex4(s: Seq<char>, i: int) -> Option<u32> {
    if 0 <= i && i + 4 <= s.len() && is_hex(s[i]) && is_hex(s[i + 1]) && is_hex(s[i + 2]) && is_hex(
        s[i + 3],
    ) {
        Some(
            (hex_val(s[i]) * 0x1000 + hex_val(s[i + 1]) * 0x100 + hex_val(s[i + 2]) * 0x10
                + hex_val(s[i + 3])) as u32,
        )
    } else {
        None
    }
}

/// The decoded character for a single-character escape.
pub open spec fn simple_escape(c: char) -> Option<char> {
    if c == '"' {
        Some('"')
    } else if c == '\\' {
        Some('\\')
    } else if c == '/' {
        Some('/')
    } else if c == 'b' {
        Some('\u{8}')
    } else if c == 'f' {
        Some('\u{c}')
    } else if c == 'n' {
        Some('\n')
    } else if c == 'r' {
        Some('\r')
    } else if c == 't' {
        Some('\t')
    } else {
        None
    }
}

/// Parses the body of a JSON string starting just after the opening quote at
/// position `i`; yields the decoded text and the position just after the
/// closing quote.
pub open spec fn sp_string(s: Seq<char>, i: int) -> Option<(Seq<char>, int)>
    decreases s.len() - i,
{
    if i < 0 || i >= s.len() {
        None
    } else {
        let c = s[i];
        if c == '"' {
            Some((Seq::empty(), i + 1))
        } else if c == '\\' {
            if i + 1 >= s.len() {
                None
            } else {
                let e = s[i + 1];
                if e == 'u' {
                    match sp_hex4(s, i + 2) {
                        Some(cp) => {
                            if 0xD800 <= cp && cp < 0xDC00 {
                                // A high surrogate must be followed by a low surrogate escape.
                                if i + 8 <= s.len() && s[i + 6] == '\\' && s[i + 7] == 'u' {
                                    match sp_hex4(s, i + 8) {
                                        Some(cp2) => {
                                            if 0xDC00 <= cp2 && cp2 < 0xE000 {
                                                let combined = (0x10000 + (cp - 0xD800) * 0x400 + (
                                                cp2 - 0xDC00)) as u32;
                                                match sp_string(s, i + 12) {
                                                    Some((t, j)) => Some(
                                                        (seq![combined as char] + t, j),
                                                    ),
                                                    None => None,
                                                }
                                            } else {
                                                None
                                            }
                                        },
                                        None => None,
                                    }
                                } else {
                                    None
                                }
                            } else if 0xDC00 <= cp && cp < 0xE000 {
                                None
                            } else {
                                match sp_string(s, i + 6) {
                                    Some((t, j)) => Some((seq![cp as char] + t, j)),
                                    None => None,
                                }
                            }
                        },
                        None => None,
                    }
                } else {
                    match simple_escape(e) {
                        Some(c2) => match sp_string(s, i + 2) {
                            Some((t, j)) => Some((seq![c2] + t, j)),
                            None => None,
                        },
                        None => None,
                    }
                }
            }
        } else if (c as u32) < 0x20 {
            None
        } else {
            match sp_string(s, i + 1) {
                Some((t, j)) => Some((seq![c] + t, j)),
                None => None,
            }
        }
    }
}

/// A parsed string body ends within the input, after where it began.
pub proof fn lemma_sp_string(s: Seq<char>, i: int)
    requires
        0 <= i <= s.len(),
    ensures
        match sp_string(s, i) {
            Some((t, j)) => i < j <= s.len(),
            None => true,
        },
    decreases s.len() - i,
{
    if i < s.len() {
        let c = s[i];
        if c == '\\' && i + 1 < s.len() {
            let e = s[i + 1];
            if e == 'u' {
                if sp_hex4(s, i + 2) is Some {
                    let cp = sp_hex4(s, i + 2)->0;
                    if 0xD800 <= cp && cp < 0xDC00 {
                        if i + 8 <= s.len() && s[i + 6] == '\\' && s[i + 7] == 'u' {
                            if sp_hex4(s, i + 8) is Some {
                                lemma_sp_string(s, i + 12);
                            }
                        }
                    } else if !(0xDC00 <= cp && cp < 0xE000) {
                        lemma_sp_string(s, i + 6);
                    }
                }
            } else {
                if simple_escape(e) is Some {
                    lemma_sp_string(s, i + 2);
                }
            }
        } else if c != '"' && !((c as u32) < 0x20) {
            lemma_sp_string(s, i + 1);
        }
    }
}

/// The position just after a valid JSON number starting at `i`, or `None`
/// when no valid number starts there.
pub open spec fn sp_number_end(s: Seq<char>, i: int) -> Option<int> {
    let p = if 0 <= i && i < s.len() && s[i] == '-' {
        i + 1
    } else {
        i
    };
    if p < 0 || p >= s.len() || !is_digit(s[p]) {
        None
    } else {
        let ie = if s[p] == '0' {
            p + 1
        } else {
            sp_digits_end(s, p)
        };
        let fe_opt: Option<int> = if ie < s.len() && s[ie] == '.' {
            if ie + 1 < s.len() && is_digit(s[ie + 1]) {
                Some(sp_digits_end(s, ie + 1))
            } else {
                None
            }
        } else {
            Some(ie)
        };
        match fe_opt {
            Some(fe) => {
                if fe < s.len() && (s[fe] == 'e' || s[fe] == 'E') {
                    let q = if fe + 1 < s.len() && (s[fe + 1] == '+' || s[fe + 1] == '-') {
                        fe + 2
                    } else {
                        fe + 1
                    };
                    if q < s.len() && is_digit(s[q]) {
                        Some(sp_digits_end(s, q))
                    } else {
                        None
                    }
                } else {
                    Some(fe)
                }
            },
            None => None,
        }
    }
}

/// A parsed number ends within the input, after where it began.
pub proof fn lemma_sp_number_end(s: Seq<char>, i: int)
    requires
        0 <= i <= s.len(),
    ensures
        match sp_number_end(s, i) {
            Some(e) => i < e <= s.len(),
            None => true,
        },
{
    let p = if i < s.len() && s[i] == '-' {
        i + 1
    } else {
        i
    };
    if p < s.len() && is_digit(s[p]) {
        lemma_sp_digits_end(s, p);
        let ie = if s[p] == '0' {
            p + 1
        } else {
            sp_digits_end(s, p)
        };
        if ie < s.len() && s[ie] == '.' {
            if ie + 1 < s.len() && is_digit(s[ie + 1]) {
                lemma_sp_digits_end(s, ie + 1);
                let fe = sp_digits_end(s, ie + 1);
                if fe < s.len() && (s[fe] == 'e' || s[fe] == 'E') {
                    let q = if fe + 1 < s.len() && (s[fe + 1] == '+' || s[fe + 1] == '-') {
                        fe + 2
                    } else {
                        fe + 1
                    };
                    if q < s.len() && is_digit(s[q]) {
                        lemma_sp_digits_end(s, q);
                    }
                }
            }
        } else {
            if ie < s.len() && (s[ie] == 'e' || s[ie] == 'E') {
                let q = if ie + 1 < s.len() && (s[ie + 1] == '+' || s[ie + 1] == '-') {
                    ie + 2
                } else {
                    ie + 1
                };
                if q < s.len() && is_digit(s[q]) {
                    lemma_sp_digits_end(s, q);
                }
            }
        }
    }
}

/// Parses one JSON value starting at `i` (leading whitespace allowed);
/// yields the value and the position just after it.  `fuel` bounds the
/// recursion and is in practice always sufficient at `s.len() + 1`.
pub open spec fn sp_value(s: Seq<char>, i: int, fuel: nat) -> Option<(JsonModel, int)>
    decreases fuel,
{
    if fuel == 0 {
        None
    } else {
        let j = sp_ws(s, i);
        if j < 0 || j >= s.len() {
            None
        } else {
            let c = s[j];
            if c == 'n' {
                if j + 4 <= s.len() && s[j + 1] == 'u' && s[j + 2] == 'l' && s[j + 3] == 'l' {
                    Some((JsonModel::Null, j + 4))
                } else {
                    None
                }
            } else if c == 't' {
                if j + 4 <= s.len() && s[j + 1] == 'r' && s[j + 2] == 'u' && s[j + 3] == 'e' {
                    Some((JsonModel::Bool(true), j + 4))
                } else {
                    None
                }
            } else if c == 'f' {
                if j + 5 <= s.len() && s[j + 1] == 'a' && s[j + 2] == 'l' && s[j + 3] == 's' && s[j
                    + 4] == 'e' {
                    Some((JsonModel::Bool(false), j + 5))
                } else {
                    None
                }
            } else if c == '"' {
                match sp_string(s, j + 1) {
                    Some((t, k)) => Some((JsonModel::Str(t), k)),
                    None => None,
                }
            } else if c == '[' {
                match sp_elems(s, j + 1, (fuel - 1) as nat, true) {
                    Some((items, k)) => Some((JsonModel::Arr(items), k)),
                    None => None,
                }
            } else if c == '{' {
                match sp_members(s, j + 1, (fuel - 1) as nat, true) {
                    Some((fs, k)) => Some((JsonModel::Obj(fs), k)),
                    None => None,
                }
            } else if c == '-' || is_digit(c) {
                match sp_number_end(s, j) {
                    Some(e) => Some((JsonModel::Num(s.subrange(j, e)), e)),
                    None => None,
                }
            } else {
                None
            }
        }
    }
}

/// Parses the elements of an array after the opening bracket; `first` is
/// true until the first element has been read, so that only `[]` may close
/// immediately.
pub open spec fn sp_elems(s: Seq<char>, i: int, fuel: nat, first: bool) -> Option<
    (Seq<JsonModel>, int),
>
    decreases fuel,
{
    if fuel == 0 {
        None
    } else {
        let j = sp_ws(s, i);
        if first && 0 <= j && j < s.len() && s[j] == ']' {
            Some((Seq::empty(), j + 1))
        } else {
            match sp_value(s, i, (fuel - 1) as nat) {
                Some((v, k)) => {
                    let m = sp_ws(s, k);
                    if 0 <= m && m < s.len() && s[m] == ',' {
                        match sp_elems(s, m + 1, (fuel - 1) as nat, false) {
                            Some((rest, e)) => Some((seq![v] + rest, e)),
                            None => None,
                        }
                    } else if 0 <= m && m < s.len() && s[m] == ']' {
                        Some((seq![v], m + 1))
                    } else {
                        None
                    }
                },
                None => None,
            }
        }
    }
}

/// Parses the members of an object after the opening brace.
pub open spec fn sp_members(s: Seq<char>, i: int, fuel: nat, first: bool) -> Option<
    (Seq<(Seq<char>, JsonModel)>, int),
>
    decreases fuel,
{
    if fuel == 0 {
        None
    } else {
        let j = sp_ws(s, i);
        if j < 0 || j >= s.len() {
            None
        } else if first && s[j] == '}' {
            Some((Seq::empty(), j + 1))
        } else if s[j] == '"' {
            match sp_string(s, j + 1) {
                Some((key, k)) => {
                    let m = sp_ws(s, k);
                    if 0 <= m && m < s.len() && s[m] == ':' {
                        match sp_value(s, m + 1, (fuel - 1) as nat) {
                            Some((v, k2)) => {
                                let m2 = sp_ws(s, k2);
                                if 0 <= m2 && m2 < s.len() && s[m2] == ',' {
                                    match sp_members(s, m2 + 1, (fuel - 1) as nat, false) {
                                        Some((rest, e)) => Some((seq![(key, v)] + rest, e)),
                                        None => None,
                                    }
                                } else if 0 <= m2 && m2 < s.len() && s[m2] == '}' {
                                    Some((seq![(key, v)], m2 + 1))
                                } else {
                                    None
                                }
                            },
                            None => None,
                        }
                    } else {
                        None
                    }
                },
                None => None,
            }
        } else {
            None
        }
    }
}

/// The recursion budget used for parsing `s`: one more than its length
/// whenever that fits in the machine word.
pub open spec fn json_fuel(s: Seq<char>) -> nat {
    if s.len() < usize::MAX {
        (s.len() + 1) as nat
    } else {
        s.len()
    }
}

/// Parses a complete JSON document: one value, with only whitespace around it.
pub open spec fn sp_json(s: Seq<char>) -> Option<JsonModel> {
    match sp_value(s, 0, json_fuel(s)) {
        Some((v, k)) => {
            if sp_ws(s, k) == s.len() {
                Some(v)
            } else {
                None
            }
        },
        None => None,
    }
}

/// `jm_seq` maps each element to its model.
pub proof fn lemma_jm_seq(items: Seq<JsonValue>)
    ensures
        jm_seq(items).len() == items.len(),
        forall|i: int| 0 <= i < items.len() ==> jm_seq(items)[i] == #[trigger] items[i].jm(),
    decreases items.len(),
{
    if items.len() > 0 {
        lemma_jm_seq(items.drop_first());
        assert forall|i: int| 0 <= i < items.len() implies jm_seq(items)[i]
            == #[trigger] items[i].jm() by {
            if i > 0 {
                assert(items.drop_first()[i - 1] == items[i]);
                assert(jm_seq(items)[i] == jm_seq(items.drop_first())[i - 1]);
            }
        }
    }
}

/// `jm_fields` maps each field to its model.
pub proof fn lemma_jm_fields(fields: Seq<(String, JsonValue)>)
    ensures
        jm_fields(fields).len() == fields.len(),
        forall|i: int| 0 <= i < fields.len() ==> jm_fields(fields)[i] == (
            #[trigger] fields[i].0@,
            fields[i].1.jm(),
        ),
    decreases fields.len(),
{
    if fields.len() > 0 {
        lemma_jm_fields(fields.drop_first());
        assert forall|i: int| 0 <= i < fields.len() implies jm_fields(fields)[i] == (
            #[trigger] fields[i].0@,
            fields[i].1.jm(),
        ) by {
            if i > 0 {
                assert(fields.drop_first()[i - 1] == fields[i]);
                assert(jm_fields(fields)[i] == jm_fields(fields.drop_first())[i - 1]);
            }
        }
    }
}

} // verus!

// ===== executable parser =====

verus! {

use crate::text::char_from_u32;

/// `jm_seq` distributes over prepending one element.
pub proof fn lemma_jm_seq_cons(v: JsonValue, rest: Seq<JsonValue>)
    ensures
        jm_seq(seq![v] + rest) == seq![v.jm()] + jm_seq(rest),
{
    let whole = seq![v] + rest;
    assert(whole.len() > 0);
    assert(whole[0] == v);
    assert(whole.drop_first() =~= rest);
    assert(jm_seq(whole) =~= seq![v.jm()] + jm_seq(rest));
}

/// `jm_fields` distributes over prepending one field.
pub proof fn lemma_jm_fields_cons(key: String, v: JsonValue, rest: Seq<(String, JsonValue)>)
    ensures
        jm_fields(seq![(key, v)] + rest) == seq![(key@, v.jm())] + jm_fields(rest),
{
    let whole = seq![(key, v)] + rest;
    assert(whole.len() > 0);
    assert(whole[0] == (key, v));
    assert(whole.drop_first() =~= rest);
    assert(jm_fields(whole) =~= seq![(key@, v.jm())] + jm_fields(rest));
}

fn skip_ws(s: &Vec<char>, i: usize) -> (r: usize)
    requires
        i <= s@.len(),
    ensures
        r as int == sp_ws(s@, i as int),
        i <= r <= s@.len(),
    decreases s@.len() - i,
{
    if i < s.len() {
        let c = s[i];
        if c == ' ' || c == '\t' || c == '\n' || c == '\r' {
            return skip_ws(s, i + 1);
        }
    }
    i
}

fn digits_end(s: &Vec<char>, i: usize) -> (r: usize)
    requires
        i <= s@.len(),
    ensures
        r as int == sp_digits_end(s@, i as int),
        i <= r <= s@.len(),
    decreases s@.len() - i,
{
    if i < s.len() {
        let c = s[i];
        if '0' <= c && c <= '9' {
            return digits_end(s, i + 1);
        }
    }
    i
}

fn hexv(c: char) -> (r: Option<u32>)
    ensures
        r is Some <==> is_hex(c),
        r is Some ==> r->0 == hex_val(c),
{
    if '0' <= c && c <= '9' {
        Some((c as u32) - 48)
    } else if 'a' <= c && c <= 'f' {
        Some((c as u32) - 87)
    } else if 'A' <= c && c <= 'F' {
        Some((c as u32) - 55)
    } else {
        None
    }
}

fn p_hex4(s: &Vec<char>, i: usize) -> (r: Option<u32>)
    requires
        i <= s@.len(),
    ensures
        r == sp_hex4(s@, i as int),
{
    if s.len() - i < 4 {
        return None;
    }
    let h0 = hexv(s[i]);
    let h1 = hexv(s[i + 1]);
    let h2 = hexv(s[i + 2]);
    let h3 = hexv(s[i + 3]);
    match (h0, h1, h2, h3) {
        (Some(a), Some(b), Some(c), Some(d)) => Some(a * 0x1000 + b * 0x100 + c * 0x10 + d),
        _ => None,
    }
}

fn p_string(s: &Vec<char>, i: usize) -> (r: Option<(String, usize)>)
    requires
        i <= s@.len(),
    ensures
        match r {
            Some((t, j)) => sp_string(s@, i as int) == Some((t@, j as int)) && i < j <= s@.len(),
            None => sp_string(s@, i as int) is None,
        },
    decreases s@.len() - i,
{
    proof {
        lemma_sp_string(s@, i as int);
    }
    if i >= s.len() {
        return None;
    }
    let c = s[i];
    if c == '"' {
        let t = String::new();
        proof {
            assert(t@ =~= Seq::<char>::empty());
        }
        Some((t, i + 1))
    } else if c == '\\' {
        if s.len() - i < 2 {
            return None;
        }
        let e = s[i + 1];
        if e == 'u' {
            match p_hex4(s, i + 2) {
                Some(cp) => {
                    if 0xD800 <= cp && cp < 0xDC00 {
                        if s.len() - i >= 8 && s[i + 6] == '\\' && s[i + 7] == 'u' {
                            match p_hex4(s, i + 8) {
                                Some(cp2) => {
                                    if 0xDC00 <= cp2 && cp2 < 0xE000 {
                                        let combined = 0x10000 + (cp - 0xD800) * 0x400 + (cp2
                                            - 0xDC00);
                                        match p_string(s, i + 12) {
                                            Some((t, j)) => {
                                                let c2 = char_from_u32(combined).unwrap();
                                                let mut piece = String::new();
                                                crate::text::push_char(&mut piece, c2);
                                                piece.append(t.as_str());
                                                proof {
                                                    assert(piece@ =~= seq![combined as char] + t@);
                                                }
                                                Some((piece, j))
                                            },
                                            None => None,
                                        }
                                    } else {
                                        None
                                    }
                                },
                                None => None,
                            }
                        } else {
                            None
                        }
                    } else if 0xDC00 <= cp && cp < 0xE000 {
                        None
                    } else {
                        match p_string(s, i + 6) {
                            Some((t, j)) => {
                                let c2 = char_from_u32(cp).unwrap();
                                let mut piece = String::new();
                                crate::text::push_char(&mut piece, c2);
                                piece.append(t.as_str());
                                proof {
                                    assert(piece@ =~= seq![cp as char] + t@);
                                }
                                Some((piece, j))
                            },
                            None => None,
                        }
                    }
                },
                None => None,
            }
        } else {
            let decoded: Option<char> = if e == '"' {
                Some('"')
            } else if e == '\\' {
                Some('\\')
            } else if e == '/' {
                Some('/')
            } else if e == 'b' {
                Some('\u{8}')
            } else if e == 'f' {
                Some('\u{c}')
            } else if e == 'n' {
                Some('\n')
            } else if e == 'r' {
                Some('\r')
            } else if e == 't' {
                Some('\t')
            } else {
                None
            };
            match decoded {
                Some(c2) => match p_string(s, i + 2) {
                    Some((t, j)) => {
                        let mut piece = String::new();
                        crate::text::push_char(&mut piece, c2);
                        piece.append(t.as_str());
                        proof {
                            assert(piece@ =~= seq![c2] + t@);
                        }
                        Some((piece, j))
                    },
                    None => None,
                },
                None => None,
            }
        }
    } else if (c as u32) < 0x20 {
        None
    } else {
        match p_string(s, i + 1) {
            Some((t, j)) => {
                let mut piece = String::new();
                crate::text::push_char(&mut piece, c);
                piece.append(t.as_str());
                proof {
                    assert(piece@ =~= seq![c] + t@);
                }
                Some((piece, j))
            },
            None => None,
        }
    }
}

fn p_number_end(s: &Vec<char>, i: usize) -> (r: Option<usize>)
    requires
        i <= s@.len(),
    ensures
        match r {
            Some(e) => sp_number_end(s@, i as int) == Some(e as int) && i < e <= s@.len(),
            None => sp_number_end(s@, i as int) is None,
        },
{
    proof {
        lemma_sp_number_end(s@, i as int);
    }
    let p: usize = if i < s.len() && s[i] == '-' {
        i + 1
    } else {
        i
    };
    if p >= s.len() {
        return None;
    }
    let c = s[p];
    if !('0' <= c && c <= '9') {
        return None;
    }
    let ie: usize = if c == '0' {
        p + 1
    } else {
        digits_end(s, p)
    };
    let fe: usize = if ie < s.len() && s[ie] == '.' {
        if ie + 1 < s.len() && '0' <= s[ie + 1] && s[ie + 1] <= '9' {
            digits_end(s, ie + 1)
        } else {
            return None;
        }
    } else {
        ie
    };
    if fe < s.len() && (s[fe] == 'e' || s[fe] == 'E') {
        let q: usize = if fe + 1 < s.len() && (s[fe + 1] == '+' || s[fe + 1] == '-') {
            fe + 2
        } else {
            fe + 1
        };
        if q < s.len() && '0' <= s[q] && s[q] <= '9' {
            Some(digits_end(s, q))
        } else {
            None
        }
    } else {
        Some(fe)
    }
}

} // verus!

// ===== executable value parser =====

verus! {

fn p_value(s: &Vec<char>, i: usize, fuel: usize) -> (r: Option<(JsonValue, usize)>)
    requires
        i <= s@.len(),
    ensures
        match r {
            Some((v, k)) => sp_value(s@, i as int, fuel as nat) == Some((v.jm(), k as int)) && k
                <= s@.len(),
            None => sp_value(s@, i as int, fuel as nat) is None,
        },
    decreases fuel,
{
    if fuel == 0 {
        return None;
    }
    let j = skip_ws(s, i);
    if j >= s.len() {
        return None;
    }
    let c = s[j];
    if c == 'n' {
        if s.len() - j >= 4 && s[j + 1] == 'u' && s[j + 2] == 'l' && s[j + 3] == 'l' {
            Some((JsonValue::Null, j + 4))
        } else {
            None
        }
    } else if c == 't' {
        if s.len() - j >= 4 && s[j + 1] == 'r' && s[j + 2] == 'u' && s[j + 3] == 'e' {
            Some((JsonValue::Bool(true), j + 4))
        } else {
            None
        }
    } else if c == 'f' {
        if s.len() - j >= 5 && s[j + 1] == 'a' && s[j + 2] == 'l' && s[j + 3] == 's' && s[j + 4]
            == 'e' {
            Some((JsonValue::Bool(false), j + 5))
        } else {
            None
        }
    } else if c == '"' {
        match p_string(s, j + 1) {
            Some((t, k)) => Some((JsonValue::Str(t), k)),
            None => None,
        }
    } else if c == '[' {
        match p_elems(s, j + 1, fuel - 1, true) {
            Some((items, k)) => Some((JsonValue::Arr(items), k)),
            None => None,
        }
    } else if c == '{' {
        match p_members(s, j + 1, fuel - 1, true) {
            Some((fields, k)) => Some((JsonValue::Obj(fields), k)),
            None => None,
        }
    } else if c == '-' || ('0' <= c && c <= '9') {
        match p_number_end(s, j) {
            Some(e) => {
                let mut lex = String::new();
                let mut q: usize = j;
                while q < e
                    invariant
                        j <= q <= e <= s@.len(),
                        lex@ == s@.subrange(j as int, q as int),
                    decreases e - q,
                {
                    crate::text::push_char(&mut lex, s[q]);
                    proof {
                        assert(lex@ =~= s@.subrange(j as int, q + 1 as int));
                    }
                    q = q + 1;
                }
                proof {
                    assert(lex@ =~= s@.subrange(j as int, e as int));
                }
                Some((JsonValue::Num(lex), e))
            },
            None => None,
        }
    } else {
        None
    }
}

fn p_elems(s: &Vec<char>, i: usize, fuel: usize, first: bool) -> (r: Option<(Vec<JsonValue>, usize)>)
    requires
        i <= s@.len(),
    ensures
        match r {
            Some((items, k)) => sp_elems(s@, i as int, fuel as nat, first) == Some(
                (jm_seq(items@), k as int),
            ) && k <= s@.len(),
            None => sp_elems(s@, i as int, fuel as nat, first) is None,
        },
    decreases fuel,
{
    if fuel == 0 {
        return None;
    }
    let j = skip_ws(s, i);
    if first && j < s.len() && s[j] == ']' {
        let items: Vec<JsonValue> = Vec::new();
        proof {
            assert(jm_seq(items@) =~= Seq::<JsonModel>::empty());
        }
        return Some((items, j + 1));
    }
    match p_value(s, i, fuel - 1) {
        Some((v, k)) => {
            let m = skip_ws(s, k);
            if m < s.len() && s[m] == ',' {
                match p_elems(s, m + 1, fuel - 1, false) {
                    Some((mut rest, e)) => {
                        proof {
                            lemma_jm_seq_cons(v, rest@);
                        }
                        let ghost old_rest = rest@;
                        rest.insert(0, v);
                        proof {
                            assert(rest@ =~= seq![v] + old_rest);
                        }
                        Some((rest, e))
                    },
                    None => None,
                }
            } else if m < s.len() && s[m] == ']' {
                let mut items: Vec<JsonValue> = Vec::new();
                items.push(v);
                proof {
                    assert(items@ =~= seq![v] + Seq::<JsonValue>::empty());
                    lemma_jm_seq_cons(v, Seq::<JsonValue>::empty());
                    assert(jm_seq(items@) =~= seq![v.jm()]);
                }
                Some((items, m + 1))
            } else {
                None
            }
        },
        None => None,
    }
}

fn p_members(s: &Vec<char>, i: usize, fuel: usize, first: bool) -> (r: Option<
    (Vec<(String, JsonValue)>, usize),
>)
    requires
        i <= s@.len(),
    ensures
        match r {
            Some((fields, k)) => sp_members(s@, i as int, fuel as nat, first) == Some(
                (jm_fields(fields@), k as int),
            ) && k <= s@.len(),
            None => sp_members(s@, i as int, fuel as nat, first) is None,
        },
    decreases fuel,
{
    if fuel == 0 {
        return None;
    }
    let j = skip_ws(s, i);
    if j >= s.len() {
        return None;
    }
    if first && s[j] == '}' {
        let fields: Vec<(String, JsonValue)> = Vec::new();
        proof {
            assert(jm_fields(fields@) =~= Seq::<(Seq<char>, JsonModel)>::empty());
        }
        return Some((fields, j + 1));
    }
    if s[j] != '"' {
        return None;
    }
    match p_string(s, j + 1) {
        Some((key, k)) => {
            let m = skip_ws(s, k);
            if m < s.len() && s[m] == ':' {
                match p_value(s, m + 1, fuel - 1) {
                    Some((v, k2)) => {
                        let m2 = skip_ws(s, k2);
                        if m2 < s.len() && s[m2] == ',' {
                            match p_members(s, m2 + 1, fuel - 1, false) {
                                Some((mut rest, e)) => {
                                    proof {
                                        lemma_jm_fields_cons(key, v, rest@);
                                    }
                                    let ghost old_rest = rest@;
                                    let ghost gkey = key;
                                    let ghost gv = v;
                                    rest.insert(0, (key, v));
                                    proof {
                                        assert(rest@ =~= seq![(gkey, gv)] + old_rest);
                                    }
                                    Some((rest, e))
                                },
                                None => None,
                            }
                        } else if m2 < s.len() && s[m2] == '}' {
                            let ghost gkey = key;
                            let ghost gv = v;
                            let mut fields: Vec<(String, JsonValue)> = Vec::new();
                            fields.push((key, v));
                            proof {
                                assert(fields@ =~= seq![(gkey, gv)] + Seq::<
                                    (String, JsonValue),
                                >::empty());
                                lemma_jm_fields_cons(gkey, gv, Seq::<(String, JsonValue)>::empty());
                                assert(jm_fields(fields@) =~= seq![(gkey@, gv.jm())]);
                            }
                            Some((fields, m2 + 1))
                        } else {
                            None
                        }
                    },
                    None => None,
                }
            } else {
                None
            }
        },
        None => None,
    }
}

/// Parses a complete JSON document from characters.
pub fn parse_json_chars(s: &Vec<char>) -> (r: Option<JsonValue>)
    ensures
        match r {
            Some(v) => sp_json(s@) == Some(v.jm()),
            None => sp_json(s@) is None,
        },
{
    let fuel: usize = if s.len() < usize::MAX {
        s.len() + 1
    } else {
        s.len()
    };
    match p_value(s, 0, fuel) {
        Some((v, k)) => {
            let e = skip_ws(s, k);
            if e == s.len() {
                Some(v)
            } else {
                None
            }
        },
        None => None,
    }
}

/// Parses a complete JSON document from text.
pub fn parse_json_text(s: &str) -> (r: Option<JsonValue>)
    ensures
        match r {
            Some(v) => sp_json(s@) == Some(v.jm()),
            None => sp_json(s@) is None,
        },
{
    let chars = crate::text::str_to_chars(s);
    parse_json_chars(&chars)
}

} // verus!

// ===== serializer =====

verus! {

/// The hexadecimal digit character for a value below sixteen.
pub open spec fn hex_char(d: int) -> char {
    if d < 10 {
        crate::text::digit_char(d)
    } else if d == 10 {
        'a'
    } else if d == 11 {
        'b'
    } else if d == 12 {
        'c'
    } else if d == 13 {
        'd'
    } else if d == 14 {
        'e'
    } else {
        'f'
    }
}

/// How one character is written inside a JSON string literal.
pub open spec fn esc_char(c: char) -> Seq<char> {
    if c == '"' {
        seq!['\\', '"']
    } else if c == '\\' {
        seq!['\\', '\\']
    } else if c == '\n' {
        seq!['\\', 'n']
    } else if c == '\r' {
        seq!['\\', 'r']
    } else if c == '\t' {
        seq!['\\', 't']
    } else if (c as u32) < 0x20 {
        seq!['\\', 'u', '0', '0', hex_char((c as u32) as int / 16), hex_char((c as u32) as int % 16)]
    } else {
        seq![c]
    }
}

/// How a whole text is written inside a JSON string literal.
pub open spec fn esc_str(t: Seq<char>) -> Seq<char>
    decreases t.len(),
{
    if t.len() == 0 {
        Seq::empty()
    } else {
        esc_char(t[0]) + esc_str(t.subrange(1, t.len() as int))
    }
}

/// The serialized form of a JSON value: no whitespace, fields in stored
/// order, numbers as their stored lexemes.
pub open spec fn ser(v: JsonModel) -> Seq<char>
    decreases v,
{
    match v {
        JsonModel::Null => seq!['n', 'u', 'l', 'l'],
        JsonModel::Bool(b) => if b {
            seq!['t', 'r', 'u', 'e']
        } else {
            seq!['f', 'a', 'l', 's', 'e']
        },
        JsonModel::Num(lex) => lex,
        JsonModel::Str(t) => seq!['"'] + esc_str(t) + seq!['"'],
        JsonModel::Arr(items) => seq!['['] + ser_items(items) + seq![']'],
        JsonModel::Obj(fields) => seq!['{'] + ser_fields(fields) + seq!['}'],
    }
}

/// The serialized elements of an array, comma separated.
pub open spec fn ser_items(items: Seq<JsonModel>) -> Seq<char>
    decreases items,
{
    if items.len() == 0 {
        Seq::empty()
    } else if items.len() == 1 {
        ser(items[0])
    } else {
        ser(items[0]) + seq![','] + ser_items(items.subrange(1, items.len() as int))
    }
}

/// The serialized members of an object, comma separated.
pub open spec fn ser_fields(fields: Seq<(Seq<char>, JsonModel)>) -> Seq<char>
    decreases fields,
{
    if fields.len() == 0 {
        Seq::empty()
    } else {
        let head = seq!['"'] + esc_str(fields[0].0) + seq!['"', ':'] + ser(fields[0].1);
        if fields.len() == 1 {
            head
        } else {
            head + seq![','] + ser_fields(fields.subrange(1, fields.len() as int))
        }
    }
}

fn write_escaped(t: &str, out: &mut String)
    ensures
        final(out)@ == old(out)@ + esc_str(t@),
{
    let chars = crate::text::str_to_chars(t);
    write_escaped_chars(&chars, 0, out);
    proof {
        assert(chars@.subrange(0, chars@.len() as int) =~= t@);
    }
}

fn write_escaped_chars(t: &Vec<char>, start: usize, out: &mut String)
    requires
        start <= t@.len(),
    ensures
        final(out)@ == old(out)@ + esc_str(t@.subrange(start as int, t@.len() as int)),
    decreases t@.len() - start,
{
    if start >= t.len() {
        proof {
            assert(t@.subrange(start as int, t@.len() as int) =~= Seq::<char>::empty());
            assert(old(out)@ + esc_str(Seq::<char>::empty()) =~= old(out)@);
        }
        return ;
    }
    let ghost rest = t@.subrange(start as int, t@.len() as int);
    proof {
        assert(rest[0] == t@[start as int]);
        assert(rest.subrange(1, rest.len() as int) =~= t@.subrange(start + 1 as int, t@.len() as int));
    }
    let c = t[start];
    if c == '"' {
        out.append("\\\"");
        proof {
            reveal_strlit("\\\"");
            assert("\\\""@ =~= seq!['\\', '"']);
        }
    } else if c == '\\' {
        out.append("\\\\");
        proof {
            reveal_strlit("\\\\");
            assert("\\\\"@ =~= seq!['\\', '\\']);
        }
    } else if c == '\n' {
        out.append("\\n");
        proof {
            reveal_strlit("\\n");
            assert("\\n"@ =~= seq!['\\', 'n']);
        }
    } else if c == '\r' {
        out.append("\\r");
        proof {
            reveal_strlit("\\r");
            assert("\\r"@ =~= seq!['\\', 'r']);
        }
    } else if c == '\t' {
        out.append("\\t");
        proof {
            reveal_strlit("\\t");
            assert("\\t"@ =~= seq!['\\', 't']);
        }
    } else if (c as u32) < 0x20 {
        out.append("\\u00");
        let hi = (c as u32) / 16;
        let lo = (c as u32) % 16;
        let hc: char = if hi == 0 {
            '0'
        } else {
            '1'
        };
        let lc: char = match lo {
            0 => '0',
            1 => '1',
            2 => '2',
            3 => '3',
            4 => '4',
            5 => '5',
            6 => '6',
            7 => '7',
            8 => '8',
            9 => '9',
            10 => 'a',
            11 => 'b',
            12 => 'c',
            13 => 'd',
            14 => 'e',
            _ => 'f',
        };
        crate::text::push_char(out, hc);
        crate::text::push_char(out, lc);
        proof {
            reveal_strlit("\\u00");
            assert("\\u00"@ =~= seq!['\\', 'u', '0', '0']);
            assert(hc == hex_char((c as u32) as int / 16));
            assert(lc == hex_char((c as u32) as int % 16));
            assert(out@ =~= old(out)@ + esc_char(c));
        }
    } else {
        crate::text::push_char(out, c);
        proof {
            assert(out@ =~= old(out)@ + esc_char(c));
        }
    }
    proof {
        assert(out@ =~= old(out)@ + esc_char(t@[start as int]));
    }
    write_escaped_chars(t, start + 1, out);
    proof {
        assert(old(out)@ + esc_char(rest[0]) + esc_str(rest.subrange(1, rest.len() as int))
            =~= old(out)@ + esc_str(rest));
    }
}

/// Appends the serialized form of `v` to `out`.
pub fn write_json(v: &JsonValue, out: &mut String)
    ensures
        final(out)@ == old(out)@ + ser(v.jm()),
    decreases *v,
{
    match v {
        JsonValue::Null => {
            out.append("null");
            proof {
                reveal_strlit("null");
                assert("null"@ =~= seq!['n', 'u', 'l', 'l']);
                assert(out@ =~= old(out)@ + ser(v.jm()));
            }
        },
        JsonValue::Bool(b) => {
            crate::text::append_bool(out, *b);
            proof {
                assert(out@ =~= old(out)@ + ser(v.jm()));
            }
        },
        JsonValue::Num(lex) => {
            out.append(lex.as_str());
            proof {
                assert(out@ =~= old(out)@ + ser(v.jm()));
            }
        },
        JsonValue::Str(t) => {
            crate::text::push_char(out, '"');
            write_escaped(t.as_str(), out);
            crate::text::push_char(out, '"');
            proof {
                assert(out@ =~= old(out)@ + ser(v.jm()));
            }
        },
        JsonValue::Arr(items) => {
            crate::text::push_char(out, '[');
            proof {
                assert(decreases_to!(*v => *items));
            }
            write_items(items, 0, out);
            crate::text::push_char(out, ']');
            proof {
                lemma_jm_seq(items@);
                assert(items@.subrange(0, items@.len() as int) =~= items@);
                assert(out@ =~= old(out)@ + ser(v.jm()));
            }
        },
        JsonValue::Obj(fields) => {
            crate::text::push_char(out, '{');
            proof {
                assert(decreases_to!(*v => *fields));
            }
            write_fields(fields, 0, out);
            crate::text::push_char(out, '}');
            proof {
                assert(fields@.subrange(0, fields@.len() as int) =~= fields@);
                assert(out@ =~= old(out)@ + ser(v.jm()));
            }
        },
    }
}

fn write_items(items: &Vec<JsonValue>, start: usize, out: &mut String)
    requires
        start <= items@.len(),
    ensures
        final(out)@ == old(out)@ + ser_items(jm_seq(items@.subrange(start as int, items@.len() as int))),
    decreases *items, items@.len() - start,
{
    let ghost rest = items@.subrange(start as int, items@.len() as int);
    proof {
        lemma_jm_seq(rest);
    }
    if start >= items.len() {
        proof {
            assert(rest =~= Seq::<JsonValue>::empty());
            assert(out@ + ser_items(jm_seq(rest)) =~= out@);
        }
        return ;
    }
    proof {
        assert(rest[0] == items@[start as int]);
        assert(rest.drop_first() =~= items@.subrange(start + 1 as int, items@.len() as int));
        assert(jm_seq(rest) == seq![rest[0].jm()] + jm_seq(rest.drop_first()));
    }
    write_json(&items[start], out);
    if start + 1 < items.len() {
        crate::text::push_char(out, ',');
        write_items(items, start + 1, out);
        proof {
            let m = jm_seq(rest);
            assert(m.len() == rest.len());
            assert(m.len() > 1);
            assert(m[0] == items@[start as int].jm());
            assert(m.subrange(1, m.len() as int) =~= jm_seq(
                items@.subrange(start + 1 as int, items@.len() as int),
            ));
            assert(out@ =~= old(out)@ + ser_items(m));
        }
    } else {
        proof {
            let m = jm_seq(rest);
            assert(m.len() == 1);
            assert(m[0] == items@[start as int].jm());
            assert(out@ =~= old(out)@ + ser_items(m));
        }
    }
}

fn write_fields(fields: &Vec<(String, JsonValue)>, start: usize, out: &mut String)
    requires
        start <= fields@.len(),
    ensures
        final(out)@ == old(out)@ + ser_fields(
            jm_fields(fields@.subrange(start as int, fields@.len() as int)),
        ),
    decreases *fields, fields@.len() - start,
{
    let ghost rest = fields@.subrange(start as int, fields@.len() as int);
    proof {
        lemma_jm_fields(rest);
    }
    if start >= fields.len() {
        proof {
            assert(rest =~= Seq::<(String, JsonValue)>::empty());
            assert(out@ + ser_fields(jm_fields(rest)) =~= out@);
        }
        return ;
    }
    proof {
        assert(rest[0] == fields@[start as int]);
        assert(rest.drop_first() =~= fields@.subrange(start + 1 as int, fields@.len() as int));
        assert(jm_fields(rest) == seq![(rest[0].0@, rest[0].1.jm())] + jm_fields(rest.drop_first()));
    }
    crate::text::push_char(out, '"');
    write_escaped(fields[start].0.as_str(), out);
    out.append("\":");
    proof {
        reveal_strlit("\":");
        assert("\":"@ =~= seq!['"', ':']);
    }
    write_json(&fields[start].1, out);
    if start + 1 < fields.len() {
        crate::text::push_char(out, ',');
        write_fields(fields, start + 1, out);
        proof {
            let m = jm_fields(rest);
            assert(m.len() > 1);
            assert(m[0] == (fields@[start as int].0@, fields@[start as int].1.jm()));
            assert(m.subrange(1, m.len() as int) =~= jm_fields(
                fields@.subrange(start + 1 as int, fields@.len() as int),
            ));
            assert(out@ =~= old(out)@ + ser_fields(m));
        }
    } else {
        proof {
            let m = jm_fields(rest);
            assert(m.len() == 1);
            assert(m[0] == (fields@[start as int].0@, fields@[start as int].1.jm()));
            assert(out@ =~= old(out)@ + ser_fields(m));
        }
    }
}

/// The serialized form of `v` as a fresh string.
pub fn json_to_string(v: &JsonValue) -> (r: String)
    ensures
        r@ == ser(v.jm()),
{
    let mut out = String::new();
    write_json(v, &mut out);
    proof {
        assert(out@ =~= ser(v.jm()));
    }
    out
}

} // verus!

// ===== accessors =====

verus! {

/// First-match lookup in an object's fields.
pub open spec fn jm_fields_get(fields: Seq<(Seq<char>, JsonModel)>, key: Seq<char>) -> Option<
    JsonModel,
>
    decreases fields.len(),
{
    if fields.len() == 0 {
        None
    } else if fields[0].0 == key {
        Some(fields[0].1)
    } else {
        jm_fields_get(fields.subrange(1, fields.len() as int), key)
    }
}

/// Field lookup: the first field with the given key, on objects only.
pub open spec fn jm_get(m: JsonModel, key: Seq<char>) -> Option<JsonModel> {
    match m {
        JsonModel::Obj(fields) => jm_fields_get(fields, key),
        _ => None,
    }
}

/// Every character of `t` is a decimal digit.
pub open spec fn all_digits(t: Seq<char>) -> bool {
    forall|i: int| 0 <= i < t.len() ==> is_digit(#[trigger] t[i])
}

/// The value of a digit string, most significant digit first.
pub open spec fn digits_val(t: Seq<char>) -> int
    decreases t.len(),
{
    if t.len() == 0 {
        0
    } else {
        digits_val(t.drop_last()) * 10 + ((t.last() as int) - 48)
    }
}

/// The integer denoted by a numeric lexeme, when it is a plain integer
/// (an optional minus sign and then digits only).
pub open spec fn lex_int(t: Seq<char>) -> Option<int> {
    if t.len() > 0 && t[0] == '-' {
        let mag = t.subrange(1, t.len() as int);
        if mag.len() > 0 && all_digits(mag) {
            Some(-digits_val(mag))
        } else {
            None
        }
    } else if t.len() > 0 && all_digits(t) {
        Some(digits_val(t))
    } else {
        None
    }
}

/// A digit string's value is never negative.
pub proof fn lemma_digits_val_nonneg(t: Seq<char>)
    requires
        all_digits(t),
    ensures
        digits_val(t) >= 0,
    decreases t.len(),
{
    if t.len() > 0 {
        assert(all_digits(t.drop_last())) by {
            assert(forall|i: int|
                0 <= i < t.len() - 1 ==> is_digit(#[trigger] t.drop_last()[i]) == is_digit(t[i]));
        }
        lemma_digits_val_nonneg(t.drop_last());
    }
}

/// Extending a digit string cannot shrink its value.
pub proof fn lemma_digits_val_prefix(t: Seq<char>, n: int)
    requires
        all_digits(t),
        0 <= n <= t.len(),
    ensures
        digits_val(t) >= digits_val(t.subrange(0, n)),
    decreases t.len() - n,
{
    if n < t.len() {
        lemma_digits_val_prefix(t, n + 1);
        let shorter = t.subrange(0, n);
        let longer = t.subrange(0, n + 1);
        assert(longer.drop_last() =~= shorter);
        assert(all_digits(shorter));
        lemma_digits_val_nonneg(shorter);
        assert(digits_val(longer) == digits_val(shorter) * 10 + ((longer.last() as int) - 48));
        assert(digits_val(longer) >= digits_val(shorter));
    } else {
        assert(t.subrange(0, n) =~= t);
    }
}

impl JsonValue {
    /// Looks up a field of an object by key; `None` on other values and on
    /// missing keys.
    pub fn get<'a>(&'a self, key: &str) -> (r: Option<&'a JsonValue>)
        ensures
            match r {
                Some(x) => jm_get(self.jm(), key@) == Some(x.jm()),
                None => jm_get(self.jm(), key@) is None,
            },
    {
        match self {
            JsonValue::Obj(fields) => {
                let owned = key.to_owned();
                let r = get_from(fields, 0, &owned);
                proof {
                    assert(fields@.subrange(0, fields@.len() as int) =~= fields@);
                }
                r
            },
            _ => None,
        }
    }

    /// True exactly on an object with no fields (an empty response body).
    pub fn is_empty_object(&self) -> (r: bool)
        ensures
            r == (self.jm() matches JsonModel::Obj(f) && f.len() == 0),
    {
        match self {
            JsonValue::Obj(fields) => {
                proof {
                    lemma_jm_fields(fields@);
                }
                fields.len() == 0
            },
            _ => false,
        }
    }

    /// The text of a string value.
    pub fn as_str<'a>(&'a self) -> (r: Option<&'a String>)
        ensures
            match r {
                Some(t) => self.jm() == JsonModel::Str(t@),
                None => !(self.jm() matches JsonModel::Str(_)),
            },
    {
        match self {
            JsonValue::Str(t) => Some(t),
            _ => None,
        }
    }

    /// The truth value of a boolean value.
    pub fn as_bool(&self) -> (r: Option<bool>)
        ensures
            match r {
                Some(b) => self.jm() == JsonModel::Bool(b),
                None => !(self.jm() matches JsonModel::Bool(_)),
            },
    {
        match self {
            JsonValue::Bool(b) => Some(*b),
            _ => None,
        }
    }

    /// The elements of an array value.
    pub fn as_array<'a>(&'a self) -> (r: Option<&'a Vec<JsonValue>>)
        ensures
            match r {
                Some(items) => self.jm() == JsonModel::Arr(jm_seq(items@)),
                None => !(self.jm() matches JsonModel::Arr(_)),
            },
    {
        match self {
            JsonValue::Arr(items) => Some(items),
            _ => None,
        }
    }

    /// The integer denoted by a numeric value whose lexeme is a plain
    /// integer within the 64-bit signed range.
    pub fn as_i64(&self) -> (r: Option<i64>)
        ensures
            r == (match self.jm() {
                JsonModel::Num(lex) => match lex_int(lex) {
                    Some(n) => if i64::MIN <= n <= i64::MAX {
                        Some(n as i64)
                    } else {
                        None::<i64>
                    },
                    None => None::<i64>,
                },
                _ => None::<i64>,
            }),
    {
        match self {
            JsonValue::Num(lex) => num_lexeme_to_i64(lex),
            _ => None,
        }
    }
}

fn get_from<'a>(fields: &'a Vec<(String, JsonValue)>, i: usize, key: &String) -> (r: Option<
    &'a JsonValue,
>)
    requires
        i <= fields@.len(),
    ensures
        match r {
            Some(x) => jm_fields_get(
                jm_fields(fields@.subrange(i as int, fields@.len() as int)),
                key@,
            ) == Some(x.jm()),
            None => jm_fields_get(
                jm_fields(fields@.subrange(i as int, fields@.len() as int)),
                key@,
            ) is None,
        },
    decreases fields@.len() - i,
{
    let ghost rest = fields@.subrange(i as int, fields@.len() as int);
    proof {
        lemma_jm_fields(rest);
    }
    if i >= fields.len() {
        proof {
            assert(rest =~= Seq::<(String, JsonValue)>::empty());
        }
        return None;
    }
    proof {
        assert(rest[0] == fields@[i as int]);
        assert(jm_fields(rest)[0] == (rest[0].0@, rest[0].1.jm()));
        assert(jm_fields(rest).subrange(1, jm_fields(rest).len() as int) =~= jm_fields(
            rest.drop_first(),
        )) by {
            assert(jm_fields(rest) == seq![(rest[0].0@, rest[0].1.jm())] + jm_fields(
                rest.drop_first(),
            ));
        }
        assert(rest.drop_first() =~= fields@.subrange(i + 1 as int, fields@.len() as int));
    }
    if fields[i].0 == *key {
        Some(&fields[i].1)
    } else {
        get_from(fields, i + 1, key)
    }
}

fn num_lexeme_to_i64(lex: &String) -> (r: Option<i64>)
    ensures
        r == (match lex_int(lex@) {
            Some(n) => if i64::MIN <= n <= i64::MAX {
                Some(n as i64)
            } else {
                None::<i64>
            },
            None => None::<i64>,
        }),
{
    let chars = crate::text::str_to_chars(lex.as_str());
    let neg = chars.len() > 0 && chars[0] == '-';
    let start: usize = if neg {
        1
    } else {
        0
    };
    if chars.len() == start {
        return None;
    }
    let ghost mag = if neg {
        lex@.subrange(1, lex@.len() as int)
    } else {
        lex@
    };
    // Accumulate the magnitude, stopping as soon as it can no longer fit.
    let mut acc: u64 = 0;
    let mut i: usize = start;
    let bound: u64 = if neg {
        9223372036854775808u64
    } else {
        9223372036854775807u64
    };
    while i < chars.len()
        invariant
            start <= i <= chars@.len(),
            chars@ == lex@,
            start == (if neg {
                1int
            } else {
                0int
            }),
            neg == (chars@.len() > 0 && chars@[0] == '-'),
            mag == chars@.subrange(start as int, chars@.len() as int),
            all_digits(mag.subrange(0, i - start)),
            acc == digits_val(mag.subrange(0, i - start)),
            acc <= bound,
            bound == (if neg {
                9223372036854775808u64
            } else {
                9223372036854775807u64
            }),
        decreases chars@.len() - i,
    {
        let c = chars[i];
        if !('0' <= c && c <= '9') {
            proof {
                assert(mag[i - start] == chars@[i as int]);
                assert(!is_digit(mag[i - start]));
                assert(!all_digits(mag));
            }
            return None;
        }
        let d = (c as u32) as u64 - 48;
        proof {
            assert(mag.subrange(0, i + 1 - start).drop_last() =~= mag.subrange(0, i - start));
            assert(mag.subrange(0, i + 1 - start).last() == chars@[i as int]);
        }
        if acc > (bound - d) / 10 {
            // The magnitude certainly exceeds the representable range.
            proof {
                let pre = mag.subrange(0, i + 1 - start);
                assert(digits_val(pre) == acc * 10 + d);
                assert(acc * 10 + d > bound) by (nonlinear_arith)
                    requires
                        acc > (bound - d) / 10,
                        d <= 9,
                        bound >= 9,
                        acc >= 0,
                ;
                if all_digits(mag) {
                    lemma_digits_val_prefix(mag, i + 1 - start);
                    assert(digits_val(mag) >= digits_val(pre));
                    assert(digits_val(mag) > bound);
                    if neg {
                        assert(lex_int(lex@) == Some(-digits_val(mag)));
                        assert(-digits_val(mag) < i64::MIN as int);
                    } else {
                        assert(mag =~= lex@);
                        assert(lex_int(lex@) == Some(digits_val(mag)));
                        assert(digits_val(mag) > i64::MAX as int);
                    }
                } else {
                    assert(lex_int(lex@) is None);
                }
            }
            return None;
        }
        proof {
            assert(acc * 10 + d <= bound) by (nonlinear_arith)
                requires
                    acc <= (bound - d) / 10,
                    d <= 9,
                    bound >= 9,
                    acc >= 0,
            ;
        }
        acc = acc * 10 + d;
        i = i + 1;
    }
    proof {
        assert(mag.subrange(0, mag.len() as int) =~= mag);
        assert(all_digits(mag));
        assert(acc == digits_val(mag));
    }
    if neg {
        if acc == 9223372036854775808u64 {
            Some(i64::MIN)
        } else {
            Some(-(acc as i64))
        }
    } else {
        Some(acc as i64)
    }
}

} // verus!
