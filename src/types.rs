use crate::error::Error;
use vstd::prelude::*;

verus! {

/// The two eye colors a record may have.
#[derive(Clone, Copy, Debug, PartialEq, Eq, Structural)]
pub enum EyeColor {
    Blue,
    Brown,
}

/// A record of the resource. `cool_cat_club_id` is its identity: records are
/// looked up by it.
#[derive(Debug, PartialEq, Eq)]
pub struct Cat {
    pub name: String,
    pub cool_cat_club_id: uuid::Uuid,
    pub age: i16,
    pub eye_color: EyeColor,
}

/// The answer to a lookup by identifier: the record that the store found,
/// or `NotFoundError` when it found none.
pub fn cat_or_not_found(found: Option<Cat>) -> (r: Result<Cat, Error>)
    ensures
        match found {
            Some(c) => r == Ok::<Cat, Error>(c),
            None => r matches Err(Error::NotFoundError),
        },
{
    match found {
        Some(c) => Ok(c),
        None => Err(Error::NotFoundError),
    }
}

} // verus!
