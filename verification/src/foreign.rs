//! Error types of other libraries that this crate's errors carry. A value of
//! one of them is handed on as it came: nothing here looks into it.

use vstd::prelude::*;

verus! {

#[verifier::external_type_specification]
#[verifier::external_body]
pub struct ExIoError(std::io::Error);

#[verifier::external_type_specification]
#[verifier::external_body]
pub struct ExXmlError(serde_xml_rs::Error);

} // verus!
