//! Declarations of the outside types that the library carries through.
//! Verus sees nothing inside a value of these types.

use vstd::prelude::*;

verus! {

/// `std::io::Error`, carried inside the library's error enums.
#[verifier::external_type_specification]
#[verifier::external_body]
pub struct ExIoError(std::io::Error);

/// `toml::de::Error`, the parse error of a configuration file.
#[verifier::external_type_specification]
#[verifier::external_body]
pub struct ExTomlDeError(toml::de::Error);

/// `toml::ser::Error`, the serialization error of a configuration file.
#[verifier::external_type_specification]
#[verifier::external_body]
pub struct ExTomlSerError(toml::ser::Error);

/// `core_affinity::CoreId`, a processor to pin a worker to; only carried.
#[verifier::external_type_specification]
#[verifier::external_body]
pub struct ExCoreId(core_affinity::CoreId);

} // verus!
