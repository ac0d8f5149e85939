//! The handler layer of an HTTP server: what a request handler has to offer,
//! and the builder that pairs a handler type with the factories of its body
//! decoder and body encoder.
use vstd::prelude::*;

pub mod factories;
pub mod handler;
pub mod slots;

verus! {

/// `httpcodec::Request<T>`: a request whose body is of type `T`. The handler
/// layer only passes requests on; nothing is known here of what one holds.
#[verifier::external_type_specification]
#[verifier::external_body]
#[verifier::reject_recursive_types(T)]
pub struct ExRequest<T>(httpcodec::Request<T>);

/// `httpcodec::Response<T>`: a response whose body is of type `T`. The handler
/// layer only passes responses on; nothing is known here of what one holds.
#[verifier::external_type_specification]
#[verifier::external_body]
#[verifier::reject_recursive_types(T)]
pub struct ExResponse<T>(httpcodec::Response<T>);

/// `bytecodec::Error`: what a body decoder returns when it fails. It is handed
/// to the handler as it came; nothing is known here of what it holds.
#[verifier::external_type_specification]
#[verifier::external_body]
pub struct ExDecodingError(bytecodec::Error);

/// A request with a body of type `T`.
pub type Req<T> = httpcodec::Request<T>;

/// A response with a body of type `T`.
pub type Res<T> = httpcodec::Response<T>;

/// The error of a body decoder.
pub type DecodingError = bytecodec::Error;

} // verus!
