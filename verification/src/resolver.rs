//! The role resolver: turns a shape's declared annotations — container
//! method, path and body kind, and one role per field — into a request
//! descriptor and resolved role tables, rejecting unsupported tokens at
//! definition time. Alongside stand the three runtime procedures the
//! resolution gives every shape: path substitution, query-parameter
//! collection, and auxiliary-header construction.

use vstd::prelude::*;
use vstd::string::*;
use crate::document::{Document, FieldValue};
use crate::errors::ReqwestBuilderError;
use crate::text::{replace_str, spec_replace, str_eq};
use crate::types::{HttpMethod, QueryParams, RequestBody, spec_map_insert, spec_names_view, spec_pairs_view};

verus! {

/// The compile-time descriptor of one request shape: method, path
/// template, and body kind. Resolved once, never mutated.
#[derive(Debug, Clone, PartialEq)]
pub struct RequestDescriptor {
    pub method: HttpMethod,
    pub path_template: String,
    pub body_kind: RequestBody,
}

/// The single role a field carries: a path parameter, a query parameter
/// or header under an optional explicit name, or part of the body.
#[derive(Debug, Clone, PartialEq)]
pub enum FieldRole {
    /// Substituted into the path template for the `{fieldName}` token.
    PathParam,
    /// Sent as a query parameter, renamed when a name is given.
    Query(Option<String>),
    /// Sent as a header, renamed when a name is given.
    Header(Option<String>),
    /// Left to the body serializer; the default for untagged fields.
    Body,
}

/// The resolved role tables of a shape: which fields feed the path, and
/// the field-to-name pairs for query parameters and headers, in
/// declaration order.
#[derive(Debug, Clone, PartialEq)]
pub struct ShapeRoles {
    pub path_params: Vec<String>,
    pub query_params: Vec<(String, String)>,
    pub header_params: Vec<(String, String)>,
}

/// The method a token resolves to, if it is one of the supported seven.
pub open spec fn spec_method_of(s: Seq<char>) -> Option<HttpMethod> {
    if s == "GET"@ {
        Some(HttpMethod::Get)
    } else if s == "POST"@ {
        Some(HttpMethod::Post)
    } else if s == "PUT"@ {
        Some(HttpMethod::Put)
    } else if s == "DELETE"@ {
        Some(HttpMethod::Delete)
    } else if s == "PATCH"@ {
        Some(HttpMethod::Patch)
    } else if s == "HEAD"@ {
        Some(HttpMethod::Head)
    } else if s == "OPTIONS"@ {
        Some(HttpMethod::Options)
    } else {
        None
    }
}

/// The body kind a token resolves to, if it is one of the four known.
pub open spec fn spec_body_kind_of(s: Seq<char>) -> Option<RequestBody> {
    if s == "json"@ {
        Some(RequestBody::Json)
    } else if s == "form"@ {
        Some(RequestBody::Form)
    } else if s == "multipart"@ {
        Some(RequestBody::Multipart)
    } else if s == "none"@ {
        Some(RequestBody::NoBody)
    } else {
        None
    }
}

/// Resolves a method token, rejecting any unsupported value and naming
/// the offending token in the error.
pub fn parse_method(s: &str) -> (r: Result<HttpMethod, ReqwestBuilderError>)
    ensures
        match r {
            Ok(m) => spec_method_of(s@) == Some(m),
            Err(e) => spec_method_of(s@) is None && (
            e matches ReqwestBuilderError::InvalidRequest(msg) && msg@
                == "Unsupported HTTP method: "@ + s@),
        },
{
    if str_eq(s, "GET") {
        Ok(HttpMethod::Get)
    } else if str_eq(s, "POST") {
        Ok(HttpMethod::Post)
    } else if str_eq(s, "PUT") {
        Ok(HttpMethod::Put)
    } else if str_eq(s, "DELETE") {
        Ok(HttpMethod::Delete)
    } else if str_eq(s, "PATCH") {
        Ok(HttpMethod::Patch)
    } else if str_eq(s, "HEAD") {
        Ok(HttpMethod::Head)
    } else if str_eq(s, "OPTIONS") {
        Ok(HttpMethod::Options)
    } else {
        let mut msg = String::from_str("Unsupported HTTP method: ");
        msg.append(s);
        Err(ReqwestBuilderError::InvalidRequest(msg))
    }
}

/// Resolves a body-kind token, rejecting any unsupported value and naming
/// the offending token in the error.
pub fn parse_body_kind(s: &str) -> (r: Result<RequestBody, ReqwestBuilderError>)
    ensures
        match r {
            Ok(b) => spec_body_kind_of(s@) == Some(b),
            Err(e) => spec_body_kind_of(s@) is None && (
            e matches ReqwestBuilderError::InvalidRequest(msg) && msg@
                == "Unsupported body type: "@ + s@),
        },
{
    if str_eq(s, "json") {
        Ok(RequestBody::Json)
    } else if str_eq(s, "form") {
        Ok(RequestBody::Form)
    } else if str_eq(s, "multipart") {
        Ok(RequestBody::Multipart)
    } else if str_eq(s, "none") {
        Ok(RequestBody::NoBody)
    } else {
        let mut msg = String::from_str("Unsupported body type: ");
        msg.append(s);
        Err(ReqwestBuilderError::InvalidRequest(msg))
    }
}

/// Resolves the container annotations of a shape: `method` is required
/// and must be a supported token, `path` is required, and `body` defaults
/// to the structured-document kind when absent. An unsupported method or
/// body token is reported before a missing attribute, and a missing
/// `method` before a missing `path`.
pub fn resolve_container(
    method: Option<&str>,
    path: Option<&str>,
    body: Option<&str>,
) -> (r: Result<RequestDescriptor, ReqwestBuilderError>)
    ensures
        r is Ok <==> {
            &&& method matches Some(m) && spec_method_of(m@) is Some
            &&& path is Some
            &&& match body {
                Some(b) => spec_body_kind_of(b@) is Some,
                None => true,
            }
        },
        r matches Ok(d) ==> {
            &&& method matches Some(m) && Some(d.method) == spec_method_of(m@)
            &&& path matches Some(p) && d.path_template@ == p@
            &&& match body {
                Some(b) => Some(d.body_kind) == spec_body_kind_of(b@),
                None => d.body_kind == RequestBody::Json,
            }
        },
        r matches Err(e) ==> e is InvalidRequest,
        method matches Some(m) ==> (spec_method_of(m@) is None ==> (r matches Err(e) && (
        e matches ReqwestBuilderError::InvalidRequest(msg) && msg@
            == "Unsupported HTTP method: "@ + m@))),
        body matches Some(b) ==> ((spec_body_kind_of(b@) is None && match method {
            Some(m) => spec_method_of(m@) is Some,
            None => true,
        }) ==> (r matches Err(e) && (e matches ReqwestBuilderError::InvalidRequest(msg)
            && msg@ == "Unsupported body type: "@ + b@))),
        (method is None && match body {
            Some(b) => spec_body_kind_of(b@) is Some,
            None => true,
        }) ==> (r matches Err(e) && (e matches ReqwestBuilderError::InvalidRequest(msg)
            && msg@ == "Missing required 'method' attribute"@)),
        (path is None && match method {
            Some(m) => spec_method_of(m@) is Some,
            None => false,
        } && match body {
            Some(b) => spec_body_kind_of(b@) is Some,
            None => true,
        }) ==> (r matches Err(e) && (e matches ReqwestBuilderError::InvalidRequest(msg)
            && msg@ == "Missing required 'path' attribute"@)),
{
    let resolved_method = match method {
        Some(m) => Some(parse_method(m)?),
        None => None,
    };
    let body_kind = match body {
        Some(b) => parse_body_kind(b)?,
        None => RequestBody::Json,
    };
    let m = match resolved_method {
        Some(m) => m,
        None => {
            return Err(
                ReqwestBuilderError::InvalidRequest(
                    "Missing required 'method' attribute".to_owned(),
                ),
            );
        },
    };
    let p = match path {
        Some(p) => p,
        None => {
            return Err(
                ReqwestBuilderError::InvalidRequest(
                    "Missing required 'path' attribute".to_owned(),
                ),
            );
        },
    };
    Ok(RequestDescriptor { method: m, path_template: p.to_owned(), body_kind })
}

/// The parameter or header name a field resolves to: the explicit rename
/// when one is given, the field's own name otherwise.
pub open spec fn spec_resolved_name(field: Seq<char>, rename: Option<String>) -> Seq<char> {
    match rename {
        Some(n) => n@,
        None => field,
    }
}

/// The path-parameter fields of a shape, in declaration order.
pub open spec fn spec_path_fields(fs: Seq<(String, FieldRole)>) -> Seq<Seq<char>>
    decreases fs.len(),
{
    if fs.len() == 0 {
        Seq::empty()
    } else {
        let rest = spec_path_fields(fs.drop_last());
        if fs.last().1 is PathParam {
            rest.push(fs.last().0@)
        } else {
            rest
        }
    }
}

/// The query fields of a shape with their resolved parameter names, in
/// declaration order.
pub open spec fn spec_query_fields(fs: Seq<(String, FieldRole)>) -> Seq<(Seq<char>, Seq<char>)>
    decreases fs.len(),
{
    if fs.len() == 0 {
        Seq::empty()
    } else {
        let rest = spec_query_fields(fs.drop_last());
        match fs.last().1 {
            FieldRole::Query(ren) => rest.push(
                (fs.last().0@, spec_resolved_name(fs.last().0@, ren)),
            ),
            _ => rest,
        }
    }
}

/// The header fields of a shape with their resolved header names, in
/// declaration order.
pub open spec fn spec_header_fields(fs: Seq<(String, FieldRole)>) -> Seq<(Seq<char>, Seq<char>)>
    decreases fs.len(),
{
    if fs.len() == 0 {
        Seq::empty()
    } else {
        let rest = spec_header_fields(fs.drop_last());
        match fs.last().1 {
            FieldRole::Header(ren) => rest.push(
                (fs.last().0@, spec_resolved_name(fs.last().0@, ren)),
            ),
            _ => rest,
        }
    }
}

/// Resolves the field roles of a shape into its role tables: every
/// path-parameter field by name, and every query or header field under
/// its resolved name — the explicit rename when given, the field's own
/// name otherwise. Untagged fields are body fields and claim no table
/// entry.
pub fn resolve_roles(fields: &Vec<(String, FieldRole)>) -> (r: ShapeRoles)
    ensures
        spec_names_view(r.path_params@) == spec_path_fields(fields@),
        spec_pairs_view(r.query_params@) == spec_query_fields(fields@),
        spec_pairs_view(r.header_params@) == spec_header_fields(fields@),
{
    let mut path_params: Vec<String> = Vec::new();
    let mut query_params: Vec<(String, String)> = Vec::new();
    let mut header_params: Vec<(String, String)> = Vec::new();
    let mut i: usize = 0;
    proof {
        assert(spec_names_view(path_params@) =~= spec_path_fields(fields@.take(0)));
        assert(spec_pairs_view(query_params@) =~= spec_query_fields(fields@.take(0)));
        assert(spec_pairs_view(header_params@) =~= spec_header_fields(fields@.take(0)));
    }
    while i < fields.len()
        invariant
            i <= fields@.len(),
            spec_names_view(path_params@) == spec_path_fields(fields@.take(i as int)),
            spec_pairs_view(query_params@) == spec_query_fields(fields@.take(i as int)),
            spec_pairs_view(header_params@) == spec_header_fields(fields@.take(i as int)),
        decreases fields@.len() - i,
    {
        let ghost pre = fields@.take(i as int);
        match &fields[i].1 {
            FieldRole::PathParam => {
                path_params.push(fields[i].0.clone());
            },
            FieldRole::Query(ren) => {
                let name = match ren {
                    Some(n) => n.clone(),
                    None => fields[i].0.clone(),
                };
                query_params.push((fields[i].0.clone(), name));
            },
            FieldRole::Header(ren) => {
                let name = match ren {
                    Some(n) => n.clone(),
                    None => fields[i].0.clone(),
                };
                header_params.push((fields[i].0.clone(), name));
            },
            FieldRole::Body => {},
        }
        i = i + 1;
        proof {
            assert(fields@.take(i as int).drop_last() =~= pre);
            assert(fields@.take(i as int).last() == fields@[i - 1]);
            assert(spec_names_view(path_params@) =~= spec_path_fields(
                fields@.take(i as int),
            ));
            assert(spec_pairs_view(query_params@) =~= spec_query_fields(
                fields@.take(i as int),
            ));
            assert(spec_pairs_view(header_params@) =~= spec_header_fields(
                fields@.take(i as int),
            ));
        }
    }
    proof {
        assert(fields@.take(fields@.len() as int) =~= fields@);
    }
    ShapeRoles { path_params, query_params, header_params }
}

/// The `{name}` token that a path-parameter field claims in a template.
pub open spec fn spec_placeholder(name: Seq<char>) -> Seq<char> {
    seq!['{'] + name + seq!['}']
}

/// The template after substituting each pair in order: every occurrence
/// of `{name}` is replaced by the pair's value, one pair at a time, in
/// the order the pairs are given. A shape with no path-parameter fields
/// leaves the template unchanged.
pub open spec fn spec_substitute(t: Seq<char>, vs: Seq<(Seq<char>, Seq<char>)>) -> Seq<char>
    decreases vs.len(),
{
    if vs.len() == 0 {
        t
    } else {
        spec_replace(
            spec_substitute(t, vs.drop_last()),
            spec_placeholder(vs.last().0),
            vs.last().1,
        )
    }
}

/// Substitutes every `{fieldName}` token in `template` with the paired
/// stringified value, one field at a time in the order given: textual
/// replacement, not segment-aware, with the leftmost occurrence replaced
/// first.
pub fn substitute_path_params(template: &str, values: &Vec<(String, String)>) -> (r: String)
    ensures
        r@ == spec_substitute(template@, spec_pairs_view(values@)),
{
    let mut cur: String = template.to_owned();
    let mut i: usize = 0;
    proof {
        assert(spec_pairs_view(values@).take(0) =~= spec_pairs_view(values@.take(0)));
        assert(spec_pairs_view(values@.take(0)) =~= Seq::<(Seq<char>, Seq<char>)>::empty());
    }
    while i < values.len()
        invariant
            i <= values@.len(),
            cur@ == spec_substitute(template@, spec_pairs_view(values@.take(i as int))),
        decreases values@.len() - i,
    {
        let ghost pre = spec_pairs_view(values@.take(i as int));
        let mut ph = String::from_str("{");
        ph.append(values[i].0.as_str());
        ph.append("}");
        proof {
            reveal_strlit("{");
            reveal_strlit("}");
            assert(ph@ =~= spec_placeholder(values@[i as int].0@));
        }
        let next = replace_str(cur.as_str(), ph.as_str(), values[i].1.as_str());
        cur = next;
        i = i + 1;
        proof {
            assert(spec_pairs_view(values@.take(i as int)).drop_last() =~= pre);
            assert(spec_pairs_view(values@.take(i as int)).last() == (
                values@[i - 1].0@,
                values@[i - 1].1@,
            ));
        }
    }
    proof {
        assert(values@.take(values@.len() as int) =~= values@);
    }
    cur
}

/// The query map collected from resolved names and optional stringified
/// values, in order: absent values contribute nothing.
pub open spec fn spec_collect_query(vs: Seq<(String, Option<String>)>) -> Seq<
    (Seq<char>, Seq<char>),
>
    decreases vs.len(),
{
    if vs.len() == 0 {
        Seq::empty()
    } else {
        let rest = spec_collect_query(vs.drop_last());
        match vs.last().1 {
            Some(v) => spec_map_insert(rest, vs.last().0@, v@),
            None => rest,
        }
    }
}

/// Collects the query parameters of a shape from its resolved names and
/// optional stringified values: a field whose value is absent is
/// omitted, and when nothing contributes there is no map at all rather
/// than an empty one.
pub fn collect_query_params(values: &Vec<(String, Option<String>)>) -> (r: Option<QueryParams>)
    ensures
        match r {
            Some(q) => q@ == spec_collect_query(values@) && q@.len() > 0,
            None => spec_collect_query(values@).len() == 0,
        },
{
    let mut params = QueryParams::new();
    let mut i: usize = 0;
    proof {
        assert(params@ =~= spec_collect_query(values@.take(0)));
    }
    while i < values.len()
        invariant
            i <= values@.len(),
            params@ == spec_collect_query(values@.take(i as int)),
        decreases values@.len() - i,
    {
        let ghost pre = values@.take(i as int);
        match &values[i].1 {
            Some(v) => {
                let k = values[i].0.clone();
                params.insert(k, v.clone());
            },
            None => {},
        }
        i = i + 1;
        proof {
            assert(values@.take(i as int).drop_last() =~= pre);
            assert(values@.take(i as int).last() == values@[i - 1]);
        }
    }
    proof {
        assert(values@.take(values@.len() as int) =~= values@);
    }
    if params.is_empty() {
        None
    } else {
        Some(params)
    }
}

/// Builds the auxiliary-headers document of a shape from its resolved
/// header names and stringified values: a shape with no header fields
/// has no headers document at all rather than an empty one.
pub fn build_aux_headers(values: &Vec<(String, String)>) -> (r: Option<Document>)
    ensures
        (r is None) <==> values@.len() == 0,
        r matches Some(d) ==> (d matches Document::Object(es) && es@.len() == values@.len()
            && forall|i: int|
            0 <= i < es@.len() ==> es@[i].0@ == values@[i].0@ && (
            #[trigger] es@[i].1 matches FieldValue::Text(t) && t@ == values@[i].1@)),
{
    if values.len() == 0 {
        return None;
    }
    let mut es: Vec<(String, FieldValue)> = Vec::new();
    let mut i: usize = 0;
    while i < values.len()
        invariant
            i <= values@.len(),
            es@.len() == i,
            forall|j: int|
                0 <= j < i ==> es@[j].0@ == values@[j].0@ && (#[trigger] es@[j].1 matches
                FieldValue::Text(t) && t@ == values@[j].1@),
        decreases values@.len() - i,
    {
        let name = values[i].0.clone();
        let text = values[i].1.clone();
        es.push((name, FieldValue::Text(text)));
        i = i + 1;
    }
    Some(Document::Object(es))
}

/// A shape with zero path-parameter fields returns its template
/// unchanged.
pub proof fn lemma_substitute_no_fields(t: Seq<char>, vs: Seq<(Seq<char>, Seq<char>)>)
    requires
        vs.len() == 0,
    ensures
        spec_substitute(t, vs) == t,
{
}

/// Query fields whose values are all absent yield no entries at all,
/// so the shape reports no query map rather than an empty one.
pub proof fn lemma_absent_fields_contribute_nothing(vs: Seq<(String, Option<String>)>)
    requires
        forall|j: int| 0 <= j < vs.len() ==> #[trigger] vs[j].1 is None,
    ensures
        spec_collect_query(vs).len() == 0,
    decreases vs.len(),
{
    if vs.len() > 0 {
        lemma_absent_fields_contribute_nothing(vs.drop_last());
    }
}

} // verus!
