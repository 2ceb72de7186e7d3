//! The generic persistence capability and its entity.
//!
//! The storage engine itself is an external collaborator; what stands
//! here is the capability set every repository offers and the entity as
//! the core sees it, with its creation timestamp as a plain epoch value.

use crate::error::AppError;
use vstd::prelude::*;

verus! {

/// The capability set of a repository over an entity type `T` with
/// identifiers of type `ID`; every operation may fail.
pub trait DatabaseRepository<T, ID> {
    fn find_all(&self) -> Result<Vec<T>, AppError>;

    fn find_by_id(&self, id: ID) -> Result<Option<T>, AppError>;

    fn save(&self, entity: T) -> Result<T, AppError>;

    fn delete(&self, entity: T) -> Result<T, AppError>;

    fn delete_by_id(&self, id: ID) -> Result<T, AppError>;

    fn update(&self, entity: T) -> Result<T, AppError>;

    fn save_or_update(&self, entity: T) -> Result<T, AppError>;
}

/// Milliseconds since the Unix epoch, read from the system clock.
///
/// Relies on chrono's `Utc::now` (which requires a system clock at or
/// after the Unix epoch) and `DateTime::timestamp_millis`. The result
/// depends on the clock, so nothing is promised of it.
#[verifier::external_body]
fn now_unix_millis() -> i64 {
    chrono::Utc::now().timestamp_millis()
}

/// A stored pipeline record; `created_at` is in milliseconds since the
/// Unix epoch.
#[derive(Debug, Clone)]
pub struct PipeLineEntity {
    pub id: Option<i64>,
    pub name: String,
    pub email: String,
    pub age: Option<u8>,
    pub created_at: i64,
}

impl PipeLineEntity {
    /// Builds a record stamped with the current time.
    pub fn new(id: Option<i64>, name: String, email: String, age: Option<u8>) -> (r:
        PipeLineEntity)
        ensures
            r.id == id,
            r.name == name,
            r.email == email,
            r.age == age,
    {
        PipeLineEntity { id, name, email, age, created_at: now_unix_millis() }
    }
}

} // verus!
