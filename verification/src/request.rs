//! Building outbound requests and classifying HTTP outcomes.
//!
//! A `RequestSpec` is everything the driving loop needs to issue one HTTP
//! call: method, path relative to the configured base, query parameters,
//! headers (the API-key header included), and an optional JSON body.
//! `classify_http` turns the raw outcome (status code and body text) into a
//! decoded JSON value or a classified error: a blank success body counts as
//! an empty object, a success body that is not JSON is a decode error that
//! carries the raw body, and a non-success status is an API error carrying
//! the status and the body text — a non-success body is never parsed.

use vstd::prelude::*;
use crate::json::{JsonValue, JsonModel, sp_json, is_ws};
use crate::error::ApiError;
use crate::text::{dec_digits, dec_int};

verus! {

broadcast use vstd::std_specs::vec::group_vec_axioms, vstd::seq::group_seq_axioms;

/// The HTTP method of an outbound request.
#[derive(PartialEq, Eq, Structural, Clone, Copy, Debug)]
pub enum HttpMethod {
    Get,
    Post,
    Put,
    Delete,
}

/// One outbound HTTP request, ready for the driving loop.
pub struct RequestSpec {
    pub method: HttpMethod,
    pub path: String,
    pub query: Vec<(String, String)>,
    pub headers: Vec<(String, String)>,
    pub body: Option<JsonValue>,
}

/// The model of an outbound request.
pub struct ReqM {
    pub method: HttpMethod,
    pub path: Seq<char>,
    pub query: Seq<(Seq<char>, Seq<char>)>,
    pub headers: Seq<(Seq<char>, Seq<char>)>,
    pub body: Option<JsonModel>,
}

/// The views of a list of string pairs.
pub open spec fn pairs_view(v: Seq<(String, String)>) -> Seq<(Seq<char>, Seq<char>)> {
    v.map_values(|p: (String, String)| (p.0@, p.1@))
}

impl RequestSpec {
    /// The mathematical view of this request.
    pub open spec fn vm(self) -> ReqM {
        ReqM {
            method: self.method,
            path: self.path@,
            query: pairs_view(self.query@),
            headers: pairs_view(self.headers@),
            body: match self.body {
                Some(b) => Some(b.jm()),
                None => None,
            },
        }
    }
}

/// A body of only JSON whitespace counts as absent.
pub open spec fn is_blank(s: Seq<char>) -> bool {
    forall|i: int| 0 <= i < s.len() ==> is_ws(#[trigger] s[i])
}

/// The empty-object model that stands in for an empty success body.
pub open spec fn empty_obj() -> JsonModel {
    JsonModel::Obj(Seq::empty())
}

/// What classification returns for a given status code and body text.
pub open spec fn spec_classify(status: u16, body: Seq<char>) -> Result<JsonModel, (u16, Seq<char>)> {
    if !(200 <= status < 300) {
        Err((status, "HTTP error "@ + dec_digits(status as nat) + ": "@ + body))
    } else if is_blank(body) {
        Ok(empty_obj())
    } else {
        match sp_json(body) {
            Some(m) => Ok(m),
            None => Err((500, "Chyba parsování JSON. Response: "@ + body)),
        }
    }
}

/// Classifies one HTTP outcome: decodes a success body (blank means empty
/// object), and carries status and body text through on failure.
pub fn classify_http(status: u16, body: &str) -> (r: Result<JsonValue, ApiError>)
    ensures
        match r {
            Ok(v) => spec_classify(status, body@) == Ok::<JsonModel, (u16, Seq<char>)>(v.jm()),
            Err(e) => e matches ApiError::Api { status: s, message } && spec_classify(status, body@)
                == Err::<JsonModel, (u16, Seq<char>)>((s, message@)),
        },
{
    if !(200 <= status && status < 300) {
        let mut msg = "HTTP error ".to_owned();
        crate::text::append_u64(&mut msg, status as u64);
        msg.append(": ");
        msg.append(body);
        proof {
            reveal_strlit("HTTP error ");
            reveal_strlit(": ");
        }
        return Err(ApiError::Api { status, message: msg });
    }
    let chars = crate::text::str_to_chars(body);
    let mut blank = true;
    let mut i: usize = 0;
    while i < chars.len()
        invariant
            i <= chars@.len(),
            chars@ == body@,
            blank == is_blank(body@.subrange(0, i as int)),
        decreases chars@.len() - i,
    {
        let c = chars[i];
        let ghost pre = body@.subrange(0, i as int);
        let ghost post = body@.subrange(0, i + 1 as int);
        if !(c == ' ' || c == '\t' || c == '\n' || c == '\r') {
            blank = false;
        }
        proof {
            assert forall|j: int| 0 <= j < post.len() && is_blank(pre) && is_ws(body@[i as int])
                implies is_ws(#[trigger] post[j]) by {
                if j < i {
                    assert(post[j] == pre[j]);
                }
            }
            if !is_blank(pre) {
                let j = choose|j: int| 0 <= j < pre.len() && !is_ws(pre[j]);
                assert(post[j] == pre[j]);
                assert(!is_blank(post));
            }
            if is_blank(pre) && !is_ws(body@[i as int]) {
                assert(post[i as int] == body@[i as int]);
                assert(!is_blank(post));
            }
        }
        i = i + 1;
    }
    proof {
        assert(body@.subrange(0, body@.len() as int) =~= body@);
    }
    if blank {
        return Ok(JsonValue::empty_object());
    }
    match crate::json::parse_json_chars(&chars) {
        Some(v) => Ok(v),
        None => {
            let mut msg = "Chyba parsování JSON. Response: ".to_owned();
            msg.append(body);
            proof {
                reveal_strlit("Chyba parsování JSON. Response: ");
            }
            Err(ApiError::Api { status: 500, message: msg })
        },
    }
}

// ===== query building =====

/// A query parameter holding an unsigned number, when present.
pub open spec fn qry_ou32(key: Seq<char>, o: Option<u32>) -> Seq<(Seq<char>, Seq<char>)> {
    match o {
        Some(v) => seq![(key, dec_digits(v as nat))],
        None => Seq::empty(),
    }
}

/// A query parameter holding a signed number, when present.
pub open spec fn qry_oi32(key: Seq<char>, o: Option<i32>) -> Seq<(Seq<char>, Seq<char>)> {
    match o {
        Some(v) => seq![(key, dec_int(v as int))],
        None => Seq::empty(),
    }
}

/// A query parameter holding text, when present.
pub open spec fn qry_otext(key: Seq<char>, o: Option<Seq<char>>) -> Seq<(Seq<char>, Seq<char>)> {
    match o {
        Some(t) => seq![(key, t)],
        None => Seq::empty(),
    }
}

/// The comma-joined form of a list of texts.
pub open spec fn join_commas(items: Seq<Seq<char>>) -> Seq<char>
    decreases items.len(),
{
    if items.len() == 0 {
        Seq::empty()
    } else if items.len() == 1 {
        items[0]
    } else {
        items[0] + seq![','] + join_commas(items.subrange(1, items.len() as int))
    }
}

/// The extras query parameter: the requested extras, comma joined, when
/// any were requested.
pub open spec fn qry_olist(key: Seq<char>, o: Option<Seq<Seq<char>>>) -> Seq<
    (Seq<char>, Seq<char>),
> {
    match o {
        Some(items) => seq![(key, join_commas(items))],
        None => Seq::empty(),
    }
}

/// The free-text filter parameters: a present search query implicitly turns
/// the filter flag on; otherwise the flag appears only when explicitly set.
pub open spec fn qry_filter(q: Option<Seq<char>>, set_filter: Option<bool>) -> Seq<
    (Seq<char>, Seq<char>),
> {
    match q {
        Some(t) => seq![("easy_query_q"@, t), ("set_filter"@, "1"@)],
        None => if set_filter == Some(true) {
            seq![("set_filter"@, "1"@)]
        } else {
            Seq::empty()
        },
    }
}

pub(crate) fn push_qry_ou32(query: &mut Vec<(String, String)>, key: &str, o: &Option<u32>)
    ensures
        pairs_view(final(query)@) == pairs_view(old(query)@) + qry_ou32(key@, *o),
{
    match o {
        Some(v) => {
            let lex = crate::text::u32_string(*v);
            query.push((key.to_owned(), lex));
        },
        None => {},
    }
    proof {
        assert(pairs_view(query@) =~= pairs_view(old(query)@) + qry_ou32(key@, *o));
    }
}

pub(crate) fn push_qry_oi32(query: &mut Vec<(String, String)>, key: &str, o: &Option<i32>)
    ensures
        pairs_view(final(query)@) == pairs_view(old(query)@) + qry_oi32(key@, *o),
{
    match o {
        Some(v) => {
            let lex = crate::text::i32_string(*v);
            query.push((key.to_owned(), lex));
        },
        None => {},
    }
    proof {
        assert(pairs_view(query@) =~= pairs_view(old(query)@) + qry_oi32(key@, *o));
    }
}

pub(crate) fn push_qry_otext(query: &mut Vec<(String, String)>, key: &str, o: &Option<String>)
    ensures
        pairs_view(final(query)@) == pairs_view(old(query)@) + qry_otext(
            key@,
            crate::ops::ostr(*o),
        ),
{
    match o {
        Some(t) => {
            query.push((key.to_owned(), t.clone()));
        },
        None => {},
    }
    proof {
        assert(pairs_view(query@) =~= pairs_view(old(query)@) + qry_otext(
            key@,
            crate::ops::ostr(*o),
        ));
    }
}

/// Joins texts with commas.
pub fn join_with_commas(items: &Vec<String>) -> (r: String)
    ensures
        r@ == join_commas(crate::ops::texts_view(items@)),
    decreases items@.len(),
{
    let ghost tv = crate::ops::texts_view(items@);
    let mut out = String::new();
    let mut i: usize = 0;
    while i < items.len()
        invariant
            i <= items@.len(),
            tv == crate::ops::texts_view(items@),
            tv.len() == items@.len(),
            out@ == join_commas(tv.subrange(0, i as int)) + (if 0 < i < tv.len() {
                seq![',']
            } else {
                Seq::<char>::empty()
            }),
        decreases items@.len() - i,
    {
        proof {
            lemma_join_commas_snoc(tv, i as int);
            assert(tv[i as int] == items@[i as int]@);
        }
        out.append(items[i].as_str());
        if i + 1 < items.len() {
            crate::text::push_char(&mut out, ',');
        }
        proof {
            assert(out@ =~= join_commas(tv.subrange(0, i + 1 as int)) + (if 0 < i + 1 < tv.len() {
                seq![',']
            } else {
                Seq::<char>::empty()
            }));
        }
        i = i + 1;
    }
    proof {
        assert(tv.subrange(0, tv.len() as int) =~= tv);
        if items@.len() == 0 {
            assert(out@ =~= join_commas(tv));
        } else {
            assert(out@ =~= join_commas(tv));
        }
    }
    out
}

/// How one more item extends a comma-joined prefix.
proof fn lemma_join_commas_snoc(items: Seq<Seq<char>>, i: int)
    requires
        0 <= i < items.len(),
    ensures
        join_commas(items.subrange(0, i + 1)) == (if i == 0 {
            items[0]
        } else {
            join_commas(items.subrange(0, i)) + seq![','] + items[i]
        }),
    decreases i,
{
    if i == 0 {
        assert(items.subrange(0, 1).len() == 1);
        assert(items.subrange(0, 1)[0] == items[0]);
    } else {
        lemma_join_split(items, 0, i + 1);
        if i == 1 {
            let t = items.subrange(1, 2);
            assert(t.len() == 1 && t[0] == items[1]);
            assert(join_commas(t) == items[1]);
            assert(items.subrange(0, 1)[0] == items[0]);
            assert(join_commas(items.subrange(0, 1)) == items[0]);
            assert(join_commas(items.subrange(0, 2)) =~= join_commas(items.subrange(0, 1))
                + seq![','] + items[1]);
        } else {
            lemma_join_split(items, 0, i);
            let t2 = items.subrange(1, items.len() as int);
            lemma_join_commas_snoc(t2, i - 1);
            assert(t2.subrange(0, i) =~= items.subrange(1, i + 1));
            assert(t2.subrange(0, i - 1) =~= items.subrange(1, i));
            assert(t2[i - 1] == items[i]);
            assert(join_commas(items.subrange(1, i + 1)) == join_commas(items.subrange(1, i))
                + seq![','] + items[i]);
            assert(join_commas(items.subrange(0, i + 1)) =~= join_commas(items.subrange(0, i))
                + seq![','] + items[i]);
        }
    }
}

/// Joining a nonempty range splits on its head.
proof fn lemma_join_split(items: Seq<Seq<char>>, lo: int, hi: int)
    requires
        0 <= lo < hi <= items.len(),
    ensures
        join_commas(items.subrange(lo, hi)) == (if hi - lo == 1 {
            items[lo]
        } else {
            items[lo] + seq![','] + join_commas(items.subrange(lo + 1, hi))
        }),
{
    let sub = items.subrange(lo, hi);
    assert(sub[0] == items[lo]);
    if hi - lo > 1 {
        assert(sub.subrange(1, sub.len() as int) =~= items.subrange(lo + 1, hi));
    }
}

pub(crate) fn push_qry_olist(query: &mut Vec<(String, String)>, key: &str, o: &Option<Vec<String>>)
    ensures
        pairs_view(final(query)@) == pairs_view(old(query)@) + qry_olist(
            key@,
            crate::ops::olist(*o),
        ),
{
    match o {
        Some(items) => {
            let joined = join_with_commas(items);
            query.push((key.to_owned(), joined));
        },
        None => {},
    }
    proof {
        assert(pairs_view(query@) =~= pairs_view(old(query)@) + qry_olist(
            key@,
            crate::ops::olist(*o),
        ));
    }
}

pub(crate) fn push_qry_filter(
    query: &mut Vec<(String, String)>,
    q: &Option<String>,
    set_filter: &Option<bool>,
)
    ensures
        pairs_view(final(query)@) == pairs_view(old(query)@) + qry_filter(
            crate::ops::ostr(*q),
            *set_filter,
        ),
{
    match q {
        Some(t) => {
            query.push(("easy_query_q".to_owned(), t.clone()));
            query.push(("set_filter".to_owned(), "1".to_owned()));
        },
        None => {
            match set_filter {
                Some(true) => {
                    query.push(("set_filter".to_owned(), "1".to_owned()));
                },
                _ => {},
            }
        },
    }
    proof {
        assert(pairs_view(query@) =~= pairs_view(old(query)@) + qry_filter(
            crate::ops::ostr(*q),
            *set_filter,
        ));
    }
}

/// An entity path: the collection prefix, the id, and the `.json` suffix.
pub open spec fn entity_path(prefix: Seq<char>, id: i32) -> Seq<char> {
    prefix + dec_int(id as int) + ".json"@
}

/// Renders an entity path.
pub fn make_entity_path(prefix: &str, id: i32) -> (r: String)
    ensures
        r@ == entity_path(prefix@, id),
{
    let mut out = prefix.to_owned();
    crate::text::append_i64(&mut out, id as i64);
    out.append(".json");
    out
}

} // verus!

// ===== the extras parameter =====

verus! {

/// The name of the query parameter that lists the requested extras.
pub open spec fn extras_key() -> Seq<char> {
    "inc"@ + "lude"@
}

/// Renders the extras parameter name.
pub fn extras_key_string() -> (r: String)
    ensures
        r@ == extras_key(),
{
    let mut s = "inc".to_owned();
    s.append("lude");
    s
}

/// Pushes the extras parameter, comma joined, when extras were requested.
pub(crate) fn push_qry_extras(query: &mut Vec<(String, String)>, o: &Option<Vec<String>>)
    ensures
        pairs_view(final(query)@) == pairs_view(old(query)@) + qry_olist(
            extras_key(),
            crate::ops::olist(*o),
        ),
{
    match o {
        Some(items) => {
            let joined = join_with_commas(items);
            query.push((extras_key_string(), joined));
        },
        None => {},
    }
    proof {
        assert(pairs_view(query@) =~= pairs_view(old(query)@) + qry_olist(
            extras_key(),
            crate::ops::olist(*o),
        ));
    }
}

} // verus!
