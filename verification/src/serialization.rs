//! The serialization bridge: URL joining, flattening a structured document
//! into form parameters, and building a validated header set. Each
//! fallible conversion comes in two forms: a validating one that surfaces
//! the first failure, and a best-effort one that drops what would have
//! failed.

use vstd::prelude::*;
use crate::document::{Document, FieldValue, form_value, spec_form_value, spec_value_text, value_text};
use crate::errors::ReqwestBuilderError;
use crate::headers::{
    HeaderMap, header_name_ok, header_value_ok, spec_header_name_ok, spec_header_value_ok,
};
use crate::text::{spec_lower, str_to_chars, chars_to_string};
use crate::types::{QueryParams, spec_map_insert};

verus! {

/// `s` without its trailing slashes.
pub open spec fn spec_strip_trailing_slashes(s: Seq<char>) -> Seq<char>
    decreases s.len(),
{
    if s.len() > 0 && s[s.len() - 1] == '/' {
        spec_strip_trailing_slashes(s.drop_last())
    } else {
        s
    }
}

/// `s` without its leading slashes.
pub open spec fn spec_strip_leading_slashes(s: Seq<char>) -> Seq<char>
    decreases s.len(),
{
    if s.len() > 0 && s[0] == '/' {
        spec_strip_leading_slashes(s.skip(1))
    } else {
        s
    }
}

/// The joined URL: the base without trailing slashes, then — when the
/// endpoint is more than slashes — exactly one slash and the endpoint
/// without its leading slashes.
pub open spec fn spec_join_url(base: Seq<char>, endpoint: Seq<char>) -> Seq<char> {
    let b = spec_strip_trailing_slashes(base);
    let e = spec_strip_leading_slashes(endpoint);
    if e.len() == 0 {
        b
    } else {
        b + seq!['/'] + e
    }
}

/// Joins a base URL and an endpoint path with exactly one separating
/// slash, stripping the base's trailing slashes and the endpoint's leading
/// slashes; an empty endpoint leaves the stripped base alone.
pub fn construct_url(base_url: &str, endpoint: &str) -> (r: String)
    ensures
        r@ == spec_join_url(base_url@, endpoint@),
{
    let bv = str_to_chars(base_url);
    let ev = str_to_chars(endpoint);
    let mut e: usize = bv.len();
    proof {
        assert(bv@.take(e as int) =~= bv@);
    }
    while e > 0 && bv[e - 1] == '/'
        invariant
            e <= bv@.len(),
            spec_strip_trailing_slashes(bv@) == spec_strip_trailing_slashes(
                bv@.take(e as int),
            ),
        decreases e,
    {
        proof {
            assert(bv@.take(e as int).drop_last() =~= bv@.take(e - 1));
        }
        e = e - 1;
    }
    proof {
        assert(spec_strip_trailing_slashes(bv@.take(e as int)) == bv@.take(e as int));
    }
    let mut b: usize = 0;
    proof {
        assert(ev@.skip(0) =~= ev@);
    }
    while b < ev.len() && ev[b] == '/'
        invariant
            b <= ev@.len(),
            spec_strip_leading_slashes(ev@) == spec_strip_leading_slashes(ev@.skip(b as int)),
        decreases ev@.len() - b,
    {
        proof {
            assert(ev@.skip(b as int).skip(1) =~= ev@.skip(b + 1));
        }
        b = b + 1;
    }
    proof {
        assert(spec_strip_leading_slashes(ev@.skip(b as int)) == ev@.skip(b as int));
    }
    let mut out: Vec<char> = Vec::new();
    let mut i: usize = 0;
    while i < e
        invariant
            i <= e,
            e <= bv@.len(),
            out@ == bv@.take(e as int).take(i as int),
        decreases e - i,
    {
        out.push(bv[i]);
        i = i + 1;
        proof {
            assert(out@ =~= bv@.take(e as int).take(i as int));
        }
    }
    proof {
        assert(out@ =~= bv@.take(e as int));
    }
    if b < ev.len() {
        let ghost stem = out@;
        out.push('/');
        let mut j: usize = b;
        while j < ev.len()
            invariant
                b <= j <= ev@.len(),
                out@ == stem + seq!['/'] + ev@.skip(b as int).take(j - b),
            decreases ev@.len() - j,
        {
            out.push(ev[j]);
            j = j + 1;
            proof {
                assert(out@ =~= stem + seq!['/'] + ev@.skip(b as int).take(j - b));
            }
        }
        proof {
            assert(ev@.skip(b as int).take(ev@.len() - b) =~= ev@.skip(b as int));
        }
    }
    proof {
        assert(out@ =~= spec_join_url(base_url@, endpoint@));
    }
    chars_to_string(&out)
}

/// Joins a base URL and an endpoint path; this construction cannot fail,
/// so the best-effort form is the same join.
pub fn construct_url_safe(base_url: &str, endpoint: &str) -> (r: String)
    ensures
        r@ == spec_join_url(base_url@, endpoint@),
{
    construct_url(base_url, endpoint)
}

/// The flat form of an object's fields, in order: absent fields dropped,
/// every other field under its name with its canonical text.
pub open spec fn spec_flatten_form(
    entries: Seq<(String, FieldValue)>,
) -> Seq<(Seq<char>, Seq<char>)>
    decreases entries.len(),
{
    if entries.len() == 0 {
        Seq::empty()
    } else {
        let m = spec_flatten_form(entries.drop_last());
        match spec_form_value(entries.last().1) {
            Option::None => m,
            Option::Some(t) => spec_map_insert(m, entries.last().0@, t),
        }
    }
}

/// Flattens a structured document into form parameters: fields whose
/// value is absent are dropped, every other field is rendered to its
/// canonical text; a document that is not an object is rejected.
pub fn serialize_to_form_params(data: &Document) -> (r: Result<
    QueryParams,
    ReqwestBuilderError,
>)
    ensures
        match r {
            Ok(params) => data matches Document::Object(es) && params@ == spec_flatten_form(
                es@,
            ),
            Err(e) => data is NonObject && (e matches ReqwestBuilderError::SerializationError(m)
                && m@ == "Data must serialize to a JSON object"@),
        },
{
    match data {
        Document::NonObject(_) => Err(
            ReqwestBuilderError::SerializationError(
                "Data must serialize to a JSON object".to_owned(),
            ),
        ),
        Document::Object(es) => {
            let mut params = QueryParams::new();
            let mut i: usize = 0;
            proof {
                assert(params@ =~= spec_flatten_form(es@.take(0)));
            }
            while i < es.len()
                invariant
                    i <= es@.len(),
                    params@ == spec_flatten_form(es@.take(i as int)),
                decreases es@.len() - i,
            {
                let ghost pre = es@.take(i as int);
                match form_value(&es[i].1) {
                    Some(t) => {
                        let k = es[i].0.clone();
                        params.insert(k, t);
                    },
                    None => {},
                }
                i = i + 1;
                proof {
                    assert(es@.take(i as int).drop_last() =~= pre);
                    assert(es@.take(i as int).last() == es@[i - 1]);
                }
            }
            proof {
                assert(es@.take(es@.len() as int) =~= es@);
            }
            Ok(params)
        },
    }
}

/// Flattens a structured document into form parameters, best effort: a
/// document that is not an object yields the empty parameter set.
pub fn serialize_to_form_params_safe(data: &Document) -> (r: QueryParams)
    ensures
        r@ == match *data {
            Document::Object(es) => spec_flatten_form(es@),
            Document::NonObject(_) => Seq::<(Seq<char>, Seq<char>)>::empty(),
        },
{
    match serialize_to_form_params(data) {
        Ok(params) => params,
        Err(_) => QueryParams::new(),
    }
}

/// Whether a document entry makes a valid header: a text value whose name
/// and characters both pass the header grammar.
pub open spec fn spec_header_entry_ok(e: (String, FieldValue)) -> bool {
    e.1 matches FieldValue::Text(s) && spec_header_name_ok(e.0@) && spec_header_value_ok(s@)
}

/// The key, attempted value, and cause reported for an invalid header
/// entry: a non-text value is reported first, then an invalid name, then
/// an invalid value.
pub open spec fn spec_header_entry_error(e: (String, FieldValue)) -> (
    Seq<char>,
    Seq<char>,
    Seq<char>,
) {
    match e.1 {
        FieldValue::Text(s) => if !spec_header_name_ok(e.0@) {
            (e.0@, s@, "Invalid header name: invalid HTTP header name"@)
        } else {
            (e.0@, s@, "Invalid header value: failed to parse header value"@)
        },
        _ => (e.0@, spec_value_text(e.1), "Header value must be a string"@),
    }
}

/// The first invalid entry's report, if any entry is invalid.
pub open spec fn spec_first_header_error(entries: Seq<(String, FieldValue)>) -> Option<
    (Seq<char>, Seq<char>, Seq<char>),
>
    decreases entries.len(),
{
    if entries.len() == 0 {
        None
    } else if !spec_header_entry_ok(entries[0]) {
        Some(spec_header_entry_error(entries[0]))
    } else {
        spec_first_header_error(entries.skip(1))
    }
}

/// The header set built from the valid entries, in order, names lowered.
pub open spec fn spec_header_pairs(entries: Seq<(String, FieldValue)>) -> Seq<
    (Seq<char>, Seq<char>),
>
    decreases entries.len(),
{
    if entries.len() == 0 {
        Seq::empty()
    } else {
        let m = spec_header_pairs(entries.drop_last());
        let l = entries.last();
        if spec_header_entry_ok(l) {
            match l.1 {
                FieldValue::Text(s) => spec_map_insert(m, spec_lower(l.0@), s@),
                _ => m,
            }
        } else {
            m
        }
    }
}

/// A wholly valid prefix reports no error.
proof fn lemma_first_error_none(entries: Seq<(String, FieldValue)>)
    requires
        forall|j: int| 0 <= j < entries.len() ==> spec_header_entry_ok(#[trigger] entries[j]),
    ensures
        spec_first_header_error(entries) is None,
    decreases entries.len(),
{
    if entries.len() > 0 {
        lemma_first_error_none(entries.skip(1));
    }
}

/// The first invalid entry decides the reported error.
proof fn lemma_first_error_at(entries: Seq<(String, FieldValue)>, i: int)
    requires
        0 <= i < entries.len(),
        !spec_header_entry_ok(entries[i]),
        forall|j: int| 0 <= j < i ==> spec_header_entry_ok(#[trigger] entries[j]),
    ensures
        spec_first_header_error(entries) == Some(spec_header_entry_error(entries[i])),
    decreases i,
{
    if i > 0 {
        lemma_first_error_at(entries.skip(1), i - 1);
    }
}

/// Builds a validated header set from a structured document, failing on
/// the first entry whose value is not text or whose name or value breaks
/// the header grammar; the error names the offending key, the attempted
/// value, and which check failed.
pub fn serialize_to_header_map(headers: &Document) -> (r: Result<
    HeaderMap,
    ReqwestBuilderError,
>)
    ensures
        match r {
            Ok(h) => headers matches Document::Object(es) && spec_first_header_error(es@)
                is None && h@ == spec_header_pairs(es@),
            Err(e) => match *headers {
                Document::Object(es) => spec_first_header_error(es@) matches Some(info)
                    && (e matches ReqwestBuilderError::HeaderError { key, value, source }
                    && key@ == info.0 && value@ == info.1 && source@ == info.2),
                Document::NonObject(_) => e matches ReqwestBuilderError::SerializationError(m)
                    && m@ == "Headers must serialize to a JSON object"@,
            },
        },
{
    match *headers {
        Document::NonObject(_) => Err(
            ReqwestBuilderError::SerializationError(
                "Headers must serialize to a JSON object".to_owned(),
            ),
        ),
        Document::Object(ref es) => {
            let mut h = HeaderMap::new();
            let mut i: usize = 0;
            proof {
                assert(h@ =~= spec_header_pairs(es@.take(0)));
            }
            while i < es.len()
                invariant
                    i <= es@.len(),
                    *headers == Document::Object(*es),
                    h@ == spec_header_pairs(es@.take(i as int)),
                    forall|j: int| 0 <= j < i ==> spec_header_entry_ok(#[trigger] es@[j]),
                decreases es@.len() - i,
            {
                let ghost pre = es@.take(i as int);
                match &es[i].1 {
                    FieldValue::Text(s) => {
                        if !header_name_ok(es[i].0.as_str()) {
                            proof {
                                lemma_first_error_at(es@, i as int);
                            }
                            return Err(
                                ReqwestBuilderError::HeaderError {
                                    key: es[i].0.clone(),
                                    value: s.clone(),
                                    source: "Invalid header name: invalid HTTP header name"
                                        .to_owned(),
                                },
                            );
                        }
                        if !header_value_ok(s.as_str()) {
                            proof {
                                lemma_first_error_at(es@, i as int);
                            }
                            return Err(
                                ReqwestBuilderError::HeaderError {
                                    key: es[i].0.clone(),
                                    value: s.clone(),
                                    source: "Invalid header value: failed to parse header value"
                                        .to_owned(),
                                },
                            );
                        }
                        let v = s.clone();
                        h.insert(es[i].0.as_str(), v);
                    },
                    _ => {
                        proof {
                            lemma_first_error_at(es@, i as int);
                        }
                        return Err(
                            ReqwestBuilderError::HeaderError {
                                key: es[i].0.clone(),
                                value: value_text(&es[i].1),
                                source: "Header value must be a string".to_owned(),
                            },
                        );
                    },
                }
                i = i + 1;
                proof {
                    assert(es@.take(i as int).drop_last() =~= pre);
                    assert(es@.take(i as int).last() == es@[i - 1]);
                }
            }
            proof {
                assert(es@.take(es@.len() as int) =~= es@);
                lemma_first_error_none(es@);
            }
            Ok(h)
        },
    }
}

/// Builds a header set from a structured document, best effort: entries
/// that would have failed validation are dropped in silence, and a
/// document that is not an object yields the empty set.
pub fn serialize_to_header_map_safe(headers: &Document) -> (r: HeaderMap)
    ensures
        r@ == match *headers {
            Document::Object(es) => spec_header_pairs(es@),
            Document::NonObject(_) => Seq::<(Seq<char>, Seq<char>)>::empty(),
        },
{
    match headers {
        Document::NonObject(_) => HeaderMap::new(),
        Document::Object(es) => {
            let mut h = HeaderMap::new();
            let mut i: usize = 0;
            proof {
                assert(h@ =~= spec_header_pairs(es@.take(0)));
            }
            while i < es.len()
                invariant
                    i <= es@.len(),
                    h@ == spec_header_pairs(es@.take(i as int)),
                decreases es@.len() - i,
            {
                let ghost pre = es@.take(i as int);
                match &es[i].1 {
                    FieldValue::Text(s) => {
                        if header_name_ok(es[i].0.as_str()) && header_value_ok(s.as_str()) {
                            let v = s.clone();
                            h.insert(es[i].0.as_str(), v);
                        }
                    },
                    _ => {},
                }
                i = i + 1;
                proof {
                    assert(es@.take(i as int).drop_last() =~= pre);
                    assert(es@.take(i as int).last() == es@[i - 1]);
                }
            }
            proof {
                assert(es@.take(es@.len() as int) =~= es@);
            }
            h
        },
    }
}

/// Header construction is a function of the document alone: built twice
/// from the same entries, the header set holds identical pairs.
pub proof fn lemma_header_construction_idempotent(
    entries: Seq<(String, FieldValue)>,
    h1: Seq<(Seq<char>, Seq<char>)>,
    h2: Seq<(Seq<char>, Seq<char>)>,
)
    requires
        h1 == spec_header_pairs(entries),
        h2 == spec_header_pairs(entries),
    ensures
        h1 == h2,
{
}

/// Stripping trailing slashes leaves nothing ending in a slash.
proof fn lemma_strip_trailing_no_slash(s: Seq<char>)
    ensures
        spec_strip_trailing_slashes(s).len() > 0 ==> spec_strip_trailing_slashes(s).last()
            != '/',
    decreases s.len(),
{
    if s.len() > 0 && s[s.len() - 1] == '/' {
        lemma_strip_trailing_no_slash(s.drop_last());
    }
}

/// Stripping leading slashes leaves nothing starting with a slash.
proof fn lemma_strip_leading_no_slash(s: Seq<char>)
    ensures
        spec_strip_leading_slashes(s).len() > 0 ==> spec_strip_leading_slashes(s)[0] != '/',
    decreases s.len(),
{
    if s.len() > 0 && s[0] == '/' {
        lemma_strip_leading_no_slash(s.skip(1));
    }
}

/// For every base URL, with or without trailing slashes, and every
/// endpoint, with or without leading slashes, the joined URL puts
/// exactly one slash at the seam and no duplicate: the stripped base
/// never ends in a slash, the stripped endpoint never starts with one,
/// and they stand around a single separator — or, when the endpoint is
/// nothing but slashes, the join is the stripped base alone.
pub proof fn lemma_url_join_single_slash(base: Seq<char>, endpoint: Seq<char>)
    ensures
        spec_strip_trailing_slashes(base).len() > 0 ==> spec_strip_trailing_slashes(
            base,
        ).last() != '/',
        spec_strip_leading_slashes(endpoint).len() > 0 ==> spec_strip_leading_slashes(
            endpoint,
        )[0] != '/',
        spec_strip_leading_slashes(endpoint).len() == 0 ==> spec_join_url(base, endpoint)
            == spec_strip_trailing_slashes(base),
        spec_strip_leading_slashes(endpoint).len() > 0 ==> spec_join_url(base, endpoint)
            == spec_strip_trailing_slashes(base) + seq!['/'] + spec_strip_leading_slashes(
            endpoint,
        ),
{
    lemma_strip_trailing_no_slash(base);
    lemma_strip_leading_no_slash(endpoint);
}

/// A field whose structured value is null is dropped: removing it
/// changes nothing in the flattened form.
pub proof fn lemma_null_field_dropped(entries: Seq<(String, FieldValue)>)
    requires
        entries.len() > 0,
        entries.last().1 is Null,
    ensures
        spec_flatten_form(entries) == spec_flatten_form(entries.drop_last()),
{
}

} // verus!
