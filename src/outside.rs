use anyhow::Error as AnyhowError;
use sqlx::Error as SqlxError;
use vstd::prelude::*;

verus! {

/// Declared so that an unclassified failure can carry its cause.
#[verifier::external_type_specification]
#[verifier::external_body]
pub struct ExAnyhowError(AnyhowError);

/// Declared so that a database failure can carry its cause.
#[verifier::external_type_specification]
#[verifier::external_body]
pub struct ExSqlxError(SqlxError);

/// Declared so that a record can carry its identifier.
#[verifier::external_type_specification]
#[verifier::external_body]
pub struct ExUuid(uuid::Uuid);

/// Declared so that the latency probe can draw from the service's generator.
#[verifier::external_type_specification]
#[verifier::external_body]
pub struct ExStdRng(rand::rngs::StdRng);

} // verus!
