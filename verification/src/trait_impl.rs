//! The assembly protocol: the capability set every request shape
//! provides, and the two operations that combine those capabilities into
//! an inert, transport-ready request descriptor — a validating path that
//! surfaces the first failure, and a best-effort path that degrades by
//! omission and cannot fail.

use vstd::prelude::*;
use crate::document::{Document, spec_is_empty_object};
use crate::errors::ReqwestBuilderError;
use crate::file_upload::MultipartForm;
use crate::headers::HeaderMap;
use crate::serialization::{
    construct_url, serialize_to_form_params, serialize_to_form_params_safe,
    serialize_to_header_map, serialize_to_header_map_safe, spec_first_header_error,
    spec_flatten_form, spec_header_pairs, spec_join_url,
};
use crate::text::{spec_bool_text, spec_idec, spec_udec, bool_to_string, i64_to_string,
    u64_to_string};
use crate::types::{HttpMethod, QueryParams, RequestBody, spec_map_insert};

verus! {

/// What one value of a shape hands to assembly: the full capability set
/// of the protocol, gathered once.
#[derive(Debug)]
pub struct RequestParts {
    /// The HTTP method.
    pub method: HttpMethod,
    /// The endpoint path, already path-substituted.
    pub endpoint: String,
    /// The auxiliary headers, as their structured document, if any.
    pub headers: Option<Document>,
    /// The declared body kind.
    pub body: RequestBody,
    /// The query parameters, if any.
    pub query_params: Option<QueryParams>,
    /// The multipart payload, consulted only for a multipart body.
    pub multipart: Option<MultipartForm>,
    /// The shape's own structured document, or the serializer's error.
    pub document: Result<Document, ReqwestBuilderError>,
}

/// The body payload of an assembled request: a structured document, a
/// flat form map, a multipart payload, or nothing.
#[derive(Debug, Clone, PartialEq)]
pub enum AssembledBody {
    /// A structured-document body.
    Json(Document),
    /// A flat form-encoded body.
    Form(QueryParams),
    /// A multipart payload.
    Multipart(MultipartForm),
    /// No body.
    Empty,
}

/// The inert request descriptor handed to the external transport:
/// constructed once, consumed whole, never mutated.
#[derive(Debug)]
pub struct AssembledRequest {
    pub method: HttpMethod,
    pub url: String,
    pub query_params: Option<QueryParams>,
    pub headers: Option<HeaderMap>,
    pub body: AssembledBody,
}

/// Whether the body kind, the serialized document and the multipart
/// payload can attach on the validating path.
pub open spec fn spec_body_attaches(
    kind: RequestBody,
    document: Result<Document, ReqwestBuilderError>,
    multipart: Option<MultipartForm>,
) -> bool {
    match kind {
        RequestBody::Json => document is Ok,
        RequestBody::Form => document matches Ok(d) && d is Object,
        RequestBody::Multipart => true,
        RequestBody::NoBody => true,
    }
}

/// How the validating path turns the body inputs into an outcome: a
/// document body attaches unless the document is the canonical empty
/// object; a form body is the flattened document; a multipart body is
/// the payload when one is given; no body attaches nothing; and the
/// serializer's error, or a form document that is not an object, fails
/// the attachment.
pub open spec fn spec_body_attachment(
    kind: RequestBody,
    document: Result<Document, ReqwestBuilderError>,
    multipart: Option<MultipartForm>,
    r: Result<AssembledBody, ReqwestBuilderError>,
) -> bool {
    match kind {
        RequestBody::Json => match document {
            Ok(d) => r matches Ok(b) && if spec_is_empty_object(d) {
                b is Empty
            } else {
                b matches AssembledBody::Json(d2) && d2 == d
            },
            Err(e0) => r matches Err(e) && e == e0,
        },
        RequestBody::Form => match document {
            Ok(d) => match d {
                Document::Object(es) => r matches Ok(b) && (b matches AssembledBody::Form(q)
                    && q@ == spec_flatten_form(es@)),
                Document::NonObject(_) => r matches Err(e) && (
                e matches ReqwestBuilderError::SerializationError(m) && m@
                    == "Data must serialize to a JSON object"@),
            },
            Err(e0) => r matches Err(e) && e == e0,
        },
        RequestBody::Multipart => r matches Ok(b) && match multipart {
            Some(f) => b matches AssembledBody::Multipart(f2) && f2 == f,
            None => b is Empty,
        },
        RequestBody::NoBody => r matches Ok(b) && b is Empty,
    }
}

/// Attaches the body for the validating path, per
/// `spec_body_attachment`.
pub fn add_body_to_request(
    kind: RequestBody,
    document: Result<Document, ReqwestBuilderError>,
    multipart: Option<MultipartForm>,
) -> (r: Result<AssembledBody, ReqwestBuilderError>)
    ensures
        spec_body_attachment(kind, document, multipart, r),
        r is Ok <==> spec_body_attaches(kind, document, multipart),
{
    match kind {
        RequestBody::Json => {
            let d = document?;
            if d.is_empty_object() {
                Ok(AssembledBody::Empty)
            } else {
                Ok(AssembledBody::Json(d))
            }
        },
        RequestBody::Form => {
            let d = document?;
            let params = serialize_to_form_params(&d)?;
            Ok(AssembledBody::Form(params))
        },
        RequestBody::Multipart => match multipart {
            Some(f) => Ok(AssembledBody::Multipart(f)),
            None => Ok(AssembledBody::Empty),
        },
        RequestBody::NoBody => Ok(AssembledBody::Empty),
    }
}

/// Whether the optional auxiliary-headers document converts cleanly.
pub open spec fn spec_headers_convert(headers: Option<Document>) -> bool {
    match headers {
        None => true,
        Some(d) => d matches Document::Object(es) && spec_first_header_error(es@) is None,
    }
}

/// The successful conversion of the optional auxiliary headers: absent
/// headers stay absent, present ones become the validated set.
pub open spec fn spec_header_attachment(
    headers: Option<Document>,
    converted: Option<HeaderMap>,
) -> bool {
    match headers {
        None => converted is None,
        Some(d) => d matches Document::Object(es) && (converted matches Some(h) && h@
            == spec_header_pairs(es@)),
    }
}

/// Assembles the request on the validating path: the URL is the joined
/// base and endpoint, query parameters are attached verbatim, the body
/// attaches per its kind, and the auxiliary headers become a validated
/// header set. Every fallible step surfaces its failure at once — the
/// body's before the headers' — and no partial request is returned on
/// error.
pub fn assemble_request(parts: RequestParts, base_url: &str) -> (r: Result<
    AssembledRequest,
    ReqwestBuilderError,
>)
    ensures
        r is Ok <==> spec_body_attaches(parts.body, parts.document, parts.multipart)
            && spec_headers_convert(parts.headers),
        r matches Ok(a) ==> {
            &&& a.method == parts.method
            &&& a.url@ == spec_join_url(base_url@, parts.endpoint@)
            &&& match parts.query_params {
                Some(q) => a.query_params matches Some(q2) && q2@ == q@,
                None => a.query_params is None,
            }
            &&& spec_body_attachment(parts.body, parts.document, parts.multipart, Ok(a.body))
            &&& spec_header_attachment(parts.headers, a.headers)
        },
        (!spec_body_attaches(parts.body, parts.document, parts.multipart)) ==> (
        r matches Err(e) && spec_body_attachment(
            parts.body,
            parts.document,
            parts.multipart,
            Err(e),
        )),
        (spec_body_attaches(parts.body, parts.document, parts.multipart)
            && !spec_headers_convert(parts.headers)) ==> (r matches Err(e) && match parts.headers {
            Some(d) => match d {
                Document::Object(es) => spec_first_header_error(es@) matches Some(info) && (
                e matches ReqwestBuilderError::HeaderError { key, value, source } && key@
                    == info.0 && value@ == info.1 && source@ == info.2),
                Document::NonObject(_) => e matches ReqwestBuilderError::SerializationError(m)
                    && m@ == "Headers must serialize to a JSON object"@,
            },
            None => false,
        }),
{
    let url = construct_url(base_url, parts.endpoint.as_str());
    let body = add_body_to_request(parts.body, parts.document, parts.multipart)?;
    let headers = match parts.headers {
        Some(d) => Some(serialize_to_header_map(&d)?),
        None => None,
    };
    Ok(
        AssembledRequest {
            method: parts.method,
            url,
            query_params: parts.query_params,
            headers,
            body,
        },
    )
}

/// How the best-effort path turns the body inputs into a payload: as the
/// validating path where that succeeds; a failed document serialization
/// attaches nothing; a form document that is not an object attaches an
/// empty form.
pub open spec fn spec_body_attachment_safe(
    kind: RequestBody,
    document: Result<Document, ReqwestBuilderError>,
    multipart: Option<MultipartForm>,
    b: AssembledBody,
) -> bool {
    match kind {
        RequestBody::Json => match document {
            Ok(d) => if spec_is_empty_object(d) {
                b is Empty
            } else {
                b matches AssembledBody::Json(d2) && d2 == d
            },
            Err(_) => b is Empty,
        },
        RequestBody::Form => match document {
            Ok(d) => match d {
                Document::Object(es) => b matches AssembledBody::Form(q) && q@
                    == spec_flatten_form(es@),
                Document::NonObject(_) => b matches AssembledBody::Form(q) && q@.len() == 0,
            },
            Err(_) => b matches AssembledBody::Form(q) && q@.len() == 0,
        },
        RequestBody::Multipart => match multipart {
            Some(f) => b matches AssembledBody::Multipart(f2) && f2 == f,
            None => b is Empty,
        },
        RequestBody::NoBody => b is Empty,
    }
}

/// The best-effort conversion of the optional auxiliary headers: absent
/// headers stay absent; a present document becomes the set of its valid
/// entries, anything invalid dropped in silence.
pub open spec fn spec_header_attachment_safe(
    headers: Option<Document>,
    converted: Option<HeaderMap>,
) -> bool {
    match headers {
        None => converted is None,
        Some(d) => converted matches Some(h) && h@ == match d {
            Document::Object(es) => spec_header_pairs(es@),
            Document::NonObject(_) => Seq::<(Seq<char>, Seq<char>)>::empty(),
        },
    }
}

/// Assembles the request on the best-effort path: the same sequencing as
/// the validating path, but every failure becomes an omission — a body
/// that cannot serialize is skipped, a form that is not an object is
/// sent empty, and invalid headers are dropped in silence. This path
/// never fails and reports nothing.
pub fn assemble_request_safe(parts: RequestParts, base_url: &str) -> (a: AssembledRequest)
    ensures
        a.method == parts.method,
        a.url@ == spec_join_url(base_url@, parts.endpoint@),
        match parts.query_params {
            Some(q) => a.query_params matches Some(q2) && q2@ == q@,
            None => a.query_params is None,
        },
        spec_body_attachment_safe(parts.body, parts.document, parts.multipart, a.body),
        spec_header_attachment_safe(parts.headers, a.headers),
{
    let url = construct_url(base_url, parts.endpoint.as_str());
    let body = match parts.body {
        RequestBody::Json => match parts.document {
            Ok(d) => if d.is_empty_object() {
                AssembledBody::Empty
            } else {
                AssembledBody::Json(d)
            },
            Err(_) => AssembledBody::Empty,
        },
        RequestBody::Form => match parts.document {
            Ok(d) => AssembledBody::Form(serialize_to_form_params_safe(&d)),
            Err(_) => AssembledBody::Form(QueryParams::new()),
        },
        RequestBody::Multipart => match parts.multipart {
            Some(f) => AssembledBody::Multipart(f),
            None => AssembledBody::Empty,
        },
        RequestBody::NoBody => AssembledBody::Empty,
    };
    let headers = match parts.headers {
        Some(d) => Some(serialize_to_header_map_safe(&d)),
        None => None,
    };
    AssembledRequest {
        method: parts.method,
        url,
        query_params: parts.query_params,
        headers,
        body,
    }
}

/// A document body is never attached for the canonical empty-object
/// document, whatever else the parts hold: the assembled body is empty.
pub proof fn lemma_empty_document_body_skipped(
    d: Document,
    multipart: Option<MultipartForm>,
    b: AssembledBody,
)
    requires
        spec_is_empty_object(d),
        spec_body_attachment(RequestBody::Json, Ok(d), multipart, Ok(b))
            || spec_body_attachment_safe(RequestBody::Json, Ok(d), multipart, b),
    ensures
        b is Empty,
{
}

/// The capability set every request shape provides, with the two derived
/// assembly operations. A shape must name its method and its substituted
/// endpoint; headers, query parameters and the multipart payload default
/// to absent, the body kind to a structured document, and the document
/// itself to the canonical empty object, which is never attached.
///
/// The capabilities themselves are the implementor's to choose, so they
/// carry no contracts; the two derived operations delegate to
/// `assemble_request` and `assemble_request_safe`, whose contracts state
/// exactly what is built from whatever the capabilities return.
pub trait IntoReqwestBuilder: Sized {
    /// The HTTP method of the request.
    fn method(&self) -> HttpMethod;

    /// The endpoint path, with path parameters already substituted.
    fn endpoint(&self) -> String;

    /// The auxiliary headers of the request, as their structured
    /// document; absent by default.
    fn headers(&self) -> Option<Document> {
        None
    }

    /// The declared body kind; a structured document by default.
    fn body(&self) -> RequestBody {
        RequestBody::Json
    }

    /// The query parameters; absent by default.
    fn query_params(&self) -> Option<QueryParams> {
        None
    }

    /// The multipart payload, consulted only for a multipart body;
    /// absent by default.
    fn create_multipart_form(&self) -> Option<MultipartForm> {
        None
    }

    /// The shape's structured document, from the external serializer;
    /// the canonical empty object by default, which is never attached.
    fn document(&self) -> Result<Document, ReqwestBuilderError> {
        Ok(Document::empty())
    }

    /// Gathers the whole capability set of this value.
    fn to_request_parts(self) -> RequestParts {
        let method = self.method();
        let endpoint = self.endpoint();
        let headers = self.headers();
        let body = self.body();
        let query_params = self.query_params();
        let multipart = self.create_multipart_form();
        let document = self.document();
        RequestParts { method, endpoint, headers, body, query_params, multipart, document }
    }

    /// Turns this value into a request descriptor on the validating
    /// path: the first failure — the body's before the headers' — is
    /// surfaced and no partial request is returned.
    fn into_reqwest_builder(self, base_url: &str) -> Result<
        AssembledRequest,
        ReqwestBuilderError,
    > {
        let parts = self.to_request_parts();
        assemble_request(parts, base_url)
    }

    /// Turns this value into a request descriptor on the best-effort
    /// path, which cannot fail: whatever would have failed is omitted in
    /// silence.
    fn into_reqwest_builder_safe(self, base_url: &str) -> AssembledRequest {
        let parts = self.to_request_parts();
        assemble_request_safe(parts, base_url)
    }
}

/// The contribution a field value makes to the query string: nothing
/// when the value is absent, one canonical text otherwise.
pub trait QueryParamValue {
    /// What this value contributes, if anything.
    spec fn spec_param_value(&self) -> Option<Seq<char>>;

    /// Adds this value's contribution to `params` under `param_name`:
    /// absent values leave the map untouched.
    fn add_to_params(&self, param_name: &str, params: &mut QueryParams)
        ensures
            final(params)@ == match self.spec_param_value() {
                Some(v) => spec_map_insert(old(params)@, param_name@, v),
                None => old(params)@,
            },
    ;
}

/// Adds `value`'s query contribution under `param_name`: one call for
/// every tagged field, whether or not its type can be absent.
pub fn query_param_helper<T: QueryParamValue>(
    value: &T,
    param_name: &str,
    params: &mut QueryParams,
)
    ensures
        final(params)@ == match value.spec_param_value() {
            Some(v) => spec_map_insert(old(params)@, param_name@, v),
            None => old(params)@,
        },
{
    value.add_to_params(param_name, params);
}

impl<T: QueryParamValue> QueryParamValue for Option<T> {
    open spec fn spec_param_value(&self) -> Option<Seq<char>> {
        match self {
            Some(v) => v.spec_param_value(),
            None => None,
        }
    }

    fn add_to_params(&self, param_name: &str, params: &mut QueryParams) {
        match self {
            Some(v) => v.add_to_params(param_name, params),
            None => {},
        }
    }
}

impl QueryParamValue for String {
    open spec fn spec_param_value(&self) -> Option<Seq<char>> {
        Some(self@)
    }

    fn add_to_params(&self, param_name: &str, params: &mut QueryParams) {
        params.insert(param_name.to_owned(), self.clone());
    }
}

impl QueryParamValue for &str {
    open spec fn spec_param_value(&self) -> Option<Seq<char>> {
        Some(self@)
    }

    fn add_to_params(&self, param_name: &str, params: &mut QueryParams) {
        params.insert(param_name.to_owned(), (*self).to_owned());
    }
}

impl QueryParamValue for u32 {
    open spec fn spec_param_value(&self) -> Option<Seq<char>> {
        Some(spec_udec(*self as nat))
    }

    fn add_to_params(&self, param_name: &str, params: &mut QueryParams) {
        params.insert(param_name.to_owned(), u64_to_string(*self as u64));
    }
}

impl QueryParamValue for u64 {
    open spec fn spec_param_value(&self) -> Option<Seq<char>> {
        Some(spec_udec(*self as nat))
    }

    fn add_to_params(&self, param_name: &str, params: &mut QueryParams) {
        params.insert(param_name.to_owned(), u64_to_string(*self));
    }
}

impl QueryParamValue for i32 {
    open spec fn spec_param_value(&self) -> Option<Seq<char>> {
        Some(spec_idec(*self as int))
    }

    fn add_to_params(&self, param_name: &str, params: &mut QueryParams) {
        params.insert(param_name.to_owned(), i64_to_string(*self as i64));
    }
}

impl QueryParamValue for i64 {
    open spec fn spec_param_value(&self) -> Option<Seq<char>> {
        Some(spec_idec(*self as int))
    }

    fn add_to_params(&self, param_name: &str, params: &mut QueryParams) {
        params.insert(param_name.to_owned(), i64_to_string(*self));
    }
}

impl QueryParamValue for bool {
    open spec fn spec_param_value(&self) -> Option<Seq<char>> {
        Some(spec_bool_text(*self))
    }

    fn add_to_params(&self, param_name: &str, params: &mut QueryParams) {
        params.insert(param_name.to_owned(), bool_to_string(*self));
    }
}

} // verus!
