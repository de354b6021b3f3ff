//! Declarative construction of HTTP request descriptors.
//!
//! A caller describes a request shape once — method, path template, body
//! kind, and the role of each field — and this library turns a value of that
//! shape into an inert, transport-ready request descriptor: a method, a
//! joined URL, validated headers, query parameters, and a body payload.
//! Every conversion and every validation step is specified by a contract and
//! verified.

pub mod document;
pub mod errors;
pub mod file_upload;
pub mod headers;
pub mod resolver;
pub mod serialization;
pub mod text;
pub mod trait_impl;
pub mod types;

pub use errors::ReqwestBuilderError;
pub use trait_impl::{AssembledBody, AssembledRequest, IntoReqwestBuilder, QueryParamValue, RequestParts, query_param_helper};
pub use file_upload::FileUpload;
pub use types::{HttpMethod, QueryParams, RequestBody};
pub use serialization::{construct_url, serialize_to_form_params, serialize_to_header_map};
