//! A JSON document as the error renderer reads it, and the walk that finds
//! the sub-document a deserialization failure points at.

use vstd::prelude::*;

use crate::text::{split_on, split_spec, str_eq, views};

verus! {

/// The shape of a JSON node, as far as a path walk needs it.
#[derive(Debug)]
pub enum JsonKind {
    /// Members, each key once.
    Object(Vec<(String, JsonTree)>),
    Array(Vec<JsonTree>),
    /// `null`, a boolean, a number or a string.
    Scalar,
}

/// A parsed JSON node together with its compact JSON text.
#[derive(Debug)]
pub struct JsonTree {
    pub text: String,
    pub kind: JsonKind,
}

/// The first member of `entries` whose key is `key`, looking from index `i` on.
pub open spec fn member_from(entries: Seq<(String, JsonTree)>, key: Seq<char>, i: int) -> Option<
    JsonTree,
>
    decreases entries.len() - i,
{
    if i < 0 || i >= entries.len() {
        None
    } else if entries[i].0@ == key {
        Some(entries[i].1)
    } else {
        member_from(entries, key, i + 1)
    }
}

/// The value of the member named `key`.
pub open spec fn member(entries: Seq<(String, JsonTree)>, key: Seq<char>) -> Option<JsonTree> {
    member_from(entries, key, 0)
}

/// The numeric value of a string of decimal digits.
pub open spec fn digits_value(d: Seq<char>) -> nat
    decreases d.len(),
{
    if d.len() == 0 {
        0
    } else {
        digits_value(d.drop_last()) * 10 + (d.last() as nat - '0' as nat) as nat
    }
}

pub open spec fn is_digit(c: char) -> bool {
    '0' <= c && c <= '9'
}

pub open spec fn all_digits(d: Seq<char>) -> bool {
    forall|i: int| 0 <= i < d.len() ==> is_digit(#[trigger] d[i])
}

/// What `usize`'s `FromStr` accepts: an optional `+`, then one or more
/// decimal digits whose value fits in `usize`.
pub open spec fn parse_usize_spec(t: Seq<char>) -> Option<nat> {
    let d = if t.len() > 0 && t[0] == '+' {
        t.drop_first()
    } else {
        t
    };
    if d.len() > 0 && all_digits(d) && digits_value(d) <= usize::MAX {
        Some(digits_value(d))
    } else {
        None
    }
}

/// The array index that a path segment of the form `[n]` names.
pub open spec fn bracket_index(seg: Seq<char>) -> Option<nat> {
    if seg.len() >= 2 && seg[0] == '[' && seg.last() == ']' {
        parse_usize_spec(seg.subrange(1, seg.len() - 1))
    } else {
        None
    }
}

/// The node reached from `t` by following `segs`: a segment is a member key
/// inside an object and an `[n]` index inside an array.
pub open spec fn walk(t: JsonTree, segs: Seq<Seq<char>>) -> Option<JsonTree>
    decreases segs.len(),
{
    if segs.len() == 0 {
        Some(t)
    } else {
        match t.kind {
            JsonKind::Object(es) => match member(es@, segs[0]) {
                Some(n) => walk(n, segs.drop_first()),
                None => None,
            },
            JsonKind::Array(xs) => match bracket_index(segs[0]) {
                Some(k) => if k < xs@.len() {
                    walk(xs@[k as int], segs.drop_first())
                } else {
                    None
                },
                None => None,
            },
            JsonKind::Scalar => None,
        }
    }
}

proof fn lemma_digits_prefix_grows(d: Seq<char>, i: int)
    requires
        0 <= i <= d.len(),
        all_digits(d),
    ensures
        digits_value(d.subrange(0, i)) <= digits_value(d),
    decreases d.len() - i,
{
    if i < d.len() {
        lemma_digits_prefix_grows(d, i + 1);
        let p = d.subrange(0, i + 1);
        assert(p.drop_last() =~= d.subrange(0, i));
        assert(digits_value(p) == digits_value(d.subrange(0, i)) * 10 + (p.last() as nat
            - '0' as nat) as nat);
        assert(is_digit(d[i]));
    } else {
        assert(d.subrange(0, i) =~= d);
    }
}

/// Reads a decimal `usize` as `str::parse::<usize>` does.
pub fn parse_usize(t: &str) -> (r: Option<usize>)
    ensures
        match r {
            Some(v) => parse_usize_spec(t@) == Some(v as nat),
            None => parse_usize_spec(t@).is_none(),
        },
{
    let n = t.unicode_len();
    let mut i: usize = 0;
    if n > 0 && t.get_char(0) == '+' {
        i = 1;
    }
    let ghost d = if t@.len() > 0 && t@[0] == '+' {
        t@.drop_first()
    } else {
        t@
    };
    let ghost first = i;
    assert(d =~= t@.subrange(first as int, n as int));
    if i == n {
        return None;
    }
    let mut value: usize = 0;
    while i < n
        invariant
            n == t@.len(),
            first <= i <= n,
            d == (if t@.len() > 0 && t@[0] == '+' {
                t@.drop_first()
            } else {
                t@
            }),
            d =~= t@.subrange(first as int, n as int),
            all_digits(t@.subrange(first as int, i as int)),
            value as nat == digits_value(t@.subrange(first as int, i as int)),
        decreases n - i,
    {
        let c = t.get_char(i);
        let ghost pre = t@.subrange(first as int, i as int);
        let ghost next = t@.subrange(first as int, i + 1);
        assert(next.drop_last() =~= pre);
        assert(next.last() == c);
        if c < '0' || c > '9' {
            assert(d[i - first] == c);
            assert(!is_digit(d[i - first]));
            return None;
        }
        let digit: usize = (c as u32 - '0' as u32) as usize;
        assert(all_digits(next)) by {
            assert forall|j: int| 0 <= j < next.len() implies is_digit(#[trigger] next[j]) by {
                if j < pre.len() {
                    assert(next[j] == pre[j]);
                }
            }
        }
        if value > (usize::MAX - digit) / 10 {
            proof {
                assert(digits_value(next) > usize::MAX) by (nonlinear_arith)
                    requires
                        digits_value(next) == value * 10 + digit,
                        value > (usize::MAX - digit) / 10,
                        digit <= 9,
                ;
                if all_digits(d) {
                    lemma_digits_prefix_grows(d, next.len() as int);
                    assert(d.subrange(0, next.len() as int) =~= next);
                }
            }
            return None;
        }
        proof {
            assert(value * 10 + digit <= usize::MAX) by (nonlinear_arith)
                requires
                    value <= (usize::MAX - digit) / 10,
                    digit <= 9,
            ;
        }
        value = value * 10 + digit;
        i = i + 1;
    }
    assert(t@.subrange(first as int, n as int) =~= d);
    Some(value)
}


/// Looks up the member named `key`.
pub fn find_member<'a>(entries: &'a Vec<(String, JsonTree)>, key: &str) -> (r: Option<&'a JsonTree>)
    ensures
        match r {
            Some(n) => member(entries@, key@) == Some(*n),
            None => member(entries@, key@).is_none(),
        },
{
    let mut i: usize = 0;
    while i < entries.len()
        invariant
            i <= entries@.len(),
            member(entries@, key@) == member_from(entries@, key@, i as int),
        decreases entries@.len() - i,
    {
        let entry = &entries[i];
        if str_eq(entry.0.as_str(), key) {
            return Some(&entry.1);
        }
        i = i + 1;
    }
    None
}

/// Reads the array index that a segment of the form `[n]` names.
pub fn segment_index(seg: &str) -> (r: Option<usize>)
    ensures
        match r {
            Some(k) => bracket_index(seg@) == Some(k as nat),
            None => bracket_index(seg@).is_none(),
        },
{
    let n = seg.unicode_len();
    if n >= 2 && seg.get_char(0) == '[' && seg.get_char(n - 1) == ']' {
        parse_usize(seg.substring_char(1, n - 1))
    } else {
        None
    }
}

/// Follows `segs` from `root`: a member key inside an object, an `[n]`
/// index inside an array; `None` as soon as a step does not resolve.
pub fn extract_value_at_path<'a>(root: &'a JsonTree, segs: &Vec<String>) -> (r: Option<&'a JsonTree>)
    ensures
        match r {
            Some(n) => walk(*root, views(segs@)) == Some(*n),
            None => walk(*root, views(segs@)).is_none(),
        },
{
    let mut cur: &JsonTree = root;
    let mut i: usize = 0;
    assert(views(segs@).subrange(0, segs@.len() as int) =~= views(segs@));
    while i < segs.len()
        invariant
            i <= segs@.len(),
            walk(*root, views(segs@)) == walk(*cur, views(segs@).subrange(i as int, segs@.len() as int)),
        decreases segs@.len() - i,
    {
        let ghost rest = views(segs@).subrange(i as int, segs@.len() as int);
        assert(rest[0] == segs@[i as int]@);
        assert(rest.drop_first() =~= views(segs@).subrange(i + 1, segs@.len() as int));
        let seg = segs[i].as_str();
        match &cur.kind {
            JsonKind::Object(entries) => {
                match find_member(entries, seg) {
                    Some(next) => {
                        cur = next;
                    },
                    None => {
                        return None;
                    },
                }
            },
            JsonKind::Array(items) => {
                match segment_index(seg) {
                    Some(k) => {
                        if k < items.len() {
                            cur = &items[k];
                        } else {
                            return None;
                        }
                    },
                    None => {
                        return None;
                    },
                }
            },
            JsonKind::Scalar => {
                return None;
            },
        }
        i = i + 1;
    }
    assert(views(segs@).subrange(i as int, segs@.len() as int) =~= Seq::<Seq<char>>::empty());
    Some(cur)
}


/// The text shown when the raw body is not JSON at all.
pub open spec fn invalid_json_text() -> Seq<char> {
    "Invalid JSON"@
}

/// The text shown when the path does not resolve inside the document.
pub open spec fn unresolved_text() -> Seq<char> {
    "Could not extract problematic value"@
}

/// The detail rendered for a failure at `path` in the document `doc`
/// (`None` when the body did not parse as JSON): the compact text of the
/// node the dotted path reaches, or one of the two fallback texts.
pub open spec fn detail_spec(doc: Option<JsonTree>, path: Seq<char>) -> Seq<char> {
    match doc {
        None => invalid_json_text(),
        Some(t) => match walk(t, split_spec(path, '.')) {
            Some(n) => n.text@,
            None => unresolved_text(),
        },
    }
}

/// Renders the detail for a failure at `path` in an already parsed document.
pub fn detail_for(doc: &Option<JsonTree>, path: &str) -> (r: String)
    ensures
        r@ == detail_spec(*doc, path@),
{
    match doc {
        None => String::from_str("Invalid JSON"),
        Some(t) => {
            let segs = split_on(path, '.');
            match extract_value_at_path(t, &segs) {
                Some(n) => n.text.clone(),
                None => String::from_str("Could not extract problematic value"),
            }
        },
    }
}

/// The detail of a deserialization failure at `path` is either the exact
/// compact JSON of the node that `path` reaches in the document, or one of
/// the two fallback texts: "Invalid JSON" when the body is not JSON, and
/// "Could not extract problematic value" when the path does not resolve.
pub proof fn lemma_detail_is_fragment_or_fallback(doc: Option<JsonTree>, path: Seq<char>)
    ensures
        doc is None ==> detail_spec(doc, path) == invalid_json_text(),
        doc matches Some(t) ==> match walk(t, split_spec(path, '.')) {
            Some(n) => detail_spec(doc, path) == n.text@,
            None => detail_spec(doc, path) == unresolved_text(),
        },
        detail_spec(doc, path) == invalid_json_text() || detail_spec(doc, path)
            == unresolved_text() || exists|t: JsonTree, n: JsonTree|
            doc == Some(t) && walk(t, split_spec(path, '.')) == Some(n) && detail_spec(doc, path)
                == n.text@,
{
    if let Some(t) = doc {
        if let Some(n) = walk(t, split_spec(path, '.')) {
            assert(doc == Some(t) && walk(t, split_spec(path, '.')) == Some(n) && detail_spec(
                doc,
                path,
            ) == n.text@);
        }
    }
}

#[verifier::external_type_specification]
#[verifier::external_body]
pub struct ExJsonValue(serde_json::Value);

/// The document `serde_json::from_str::<serde_json::Value>` reads from the
/// text, as a `JsonTree`; `None` when the text is not well-formed JSON.
pub uninterp spec fn json_doc(s: Seq<char>) -> Option<JsonTree>;

/// Relies on serde_json's `Value` variants and its `Display`, which writes a
/// node as compact JSON text; an object's map holds each key once.
#[verifier::external_body]
fn tree_of(v: &serde_json::Value) -> JsonTree {
    let kind = match v {
        serde_json::Value::Object(m) => JsonKind::Object(
            m.iter().map(|(k, x)| (k.clone(), tree_of(x))).collect(),
        ),
        serde_json::Value::Array(a) => JsonKind::Array(a.iter().map(tree_of).collect()),
        _ => JsonKind::Scalar,
    };
    JsonTree { text: v.to_string(), kind }
}

/// Relies on `serde_json::from_str` into a generic `Value`: the result
/// depends on the text alone, and is `None` on text that is not JSON.
#[verifier::external_body]
fn parse_json(s: &str) -> (r: Option<JsonTree>)
    ensures
        r == json_doc(s@),
{
    serde_json::from_str::<serde_json::Value>(s).ok().map(|v| tree_of(&v))
}

/// Renders the detail for a failure at `path` in the raw body `raw`: the
/// compact JSON text of the node that `path` reaches in the document `raw`
/// holds, or a fallback text; rendering never fails.
pub fn extract_detail(raw: &str, path: &str) -> (r: String)
    ensures
        r@ == detail_spec(json_doc(raw@), path@),
{
    detail_for(&parse_json(raw), path)
}

} // verus!
