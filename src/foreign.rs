//! Outside types that the library carries through without looking inside.
use vstd::prelude::*;

verus! {

/// A decoded raster image of the `image` crate; frames and window captures are held as these.
#[verifier::external_type_specification]
#[verifier::external_body]
pub struct ExDynamicImage(image::DynamicImage);

/// A monotonic instant of std; a candidate frame keeps the instant at which it was elected.
#[verifier::external_type_specification]
#[verifier::external_body]
pub struct ExInstant(std::time::Instant);

/// A parsed JSON document of `serde_json`; the library hands it between the accessors below.
#[verifier::external_type_specification]
#[verifier::external_body]
pub struct ExJsonValue(serde_json::Value);

/// The error `serde_json` reports for text it cannot read or a value it cannot write.
#[verifier::external_type_specification]
#[verifier::external_body]
pub struct ExJsonError(serde_json::Error);

} // verus!
