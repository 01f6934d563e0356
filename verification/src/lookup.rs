//! Looking rows up by their two identifiers: the number that the table
//! gives them, and the UUID under which they are known outside.

use vstd::prelude::*;
use crate::resource_id::{canonical_uuid, text_of, uuid_hyphenated, ApiError};

verus! {

/// A row with a number and a UUID.
pub trait Keyed {
    /// The number of the row.
    spec fn key_id(&self) -> i32;

    /// The UUID of the row, as the table holds it.
    spec fn key_uuid(&self) -> Seq<char>;

    /// The number of the row.
    fn row_id(&self) -> (id: i32)
        ensures
            id == self.key_id(),
    ;

    /// The UUID of the row, as the table holds it.
    fn row_uuid(&self) -> (uuid: &String)
        ensures
            uuid@ == self.key_uuid(),
    ;
}

/// Whether the row at position `i` is the first with the number `id`.
pub open spec fn is_first_with_id<T: Keyed>(rows: Seq<T>, id: i32, i: int) -> bool {
    &&& 0 <= i < rows.len()
    &&& rows[i].key_id() == id
    &&& forall|j: int| 0 <= j < i ==> (#[trigger] rows[j]).key_id() != id
}

/// Whether the row at position `i` is the first with the UUID `uuid`.
pub open spec fn is_first_with_uuid<T: Keyed>(rows: Seq<T>, uuid: Seq<char>, i: int) -> bool {
    &&& 0 <= i < rows.len()
    &&& rows[i].key_uuid() == uuid
    &&& forall|j: int| 0 <= j < i ==> (#[trigger] rows[j]).key_uuid() != uuid
}

/// Whether a result is the hyphenated form of the UUID of the first row
/// with the number `id`, or tells why there is none: no row has the
/// number, or what the row holds is not a UUID.
pub open spec fn is_uuid_of<T: Keyed>(result: Result<String, ApiError>, rows: Seq<T>, id: i32) -> bool {
    match result {
        Ok(uuid) => exists|i: int|
            #[trigger] is_first_with_id(rows, id, i) && uuid_hyphenated(rows[i].key_uuid()) == Some(
                uuid@,
            ),
        Err(ApiError::NotFound) => forall|i: int|
            0 <= i < rows.len() ==> (#[trigger] rows[i]).key_id() != id,
        Err(e) => e == ApiError::Uuid && exists|i: int|
            #[trigger] is_first_with_id(rows, id, i) && uuid_hyphenated(rows[i].key_uuid()).is_none(),
    }
}

/// Whether a result is the number of the first row that holds the UUID
/// `uuid`, or says that no row holds it.
pub open spec fn is_id_with<T: Keyed>(
    result: Result<i32, ApiError>,
    rows: Seq<T>,
    uuid: Seq<char>,
) -> bool {
    match result {
        Ok(id) => exists|i: int|
            #[trigger] is_first_with_uuid(rows, uuid, i) && rows[i].key_id() == id,
        Err(e) => e == ApiError::NotFound && forall|i: int|
            0 <= i < rows.len() ==> (#[trigger] rows[i]).key_uuid() != uuid,
    }
}

/// Whether a result is the number of the first row that holds the UUID
/// that `parsed` is the hyphenated form of, or tells why there is none: no
/// UUID was parsed, or no row holds it.
pub open spec fn is_id_of<T: Keyed>(
    result: Result<i32, ApiError>,
    rows: Seq<T>,
    parsed: Option<Seq<char>>,
) -> bool {
    match parsed {
        None => result == Err::<i32, ApiError>(ApiError::Uuid),
        Some(uuid) => is_id_with(result, rows, uuid),
    }
}

/// The position of the first row with the number `id`.
pub fn position_of_id<T: Keyed>(rows: &Vec<T>, id: i32) -> (found: Option<usize>)
    ensures
        match found {
            Some(i) => is_first_with_id(rows@, id, i as int),
            None => forall|i: int| 0 <= i < rows@.len() ==> (#[trigger] rows@[i]).key_id() != id,
        },
{
    let mut i: usize = 0;
    while i < rows.len()
        invariant
            0 <= i <= rows@.len(),
            forall|j: int| 0 <= j < i ==> (#[trigger] rows@[j]).key_id() != id,
        decreases rows@.len() - i,
    {
        if rows[i].row_id() == id {
            return Some(i);
        }
        i = i + 1;
    }
    None
}

/// The hyphenated form of the UUID of the first row with the number `id`.
pub fn get_uuid<T: Keyed>(rows: &Vec<T>, id: i32) -> (result: Result<String, ApiError>)
    ensures
        is_uuid_of(result, rows@, id),
{
    match position_of_id(rows, id) {
        Some(i) => match canonical_uuid(rows[i].row_uuid().as_str()) {
            Some(uuid) => Ok(uuid),
            None => Err(ApiError::Uuid),
        },
        None => Err(ApiError::NotFound),
    }
}

/// The position of the first row that holds the UUID `uuid`.
pub fn position_of_uuid<T: Keyed>(rows: &Vec<T>, uuid: &String) -> (found: Option<usize>)
    ensures
        match found {
            Some(i) => is_first_with_uuid(rows@, uuid@, i as int),
            None => forall|i: int|
                0 <= i < rows@.len() ==> (#[trigger] rows@[i]).key_uuid() != uuid@,
        },
{
    let mut i: usize = 0;
    while i < rows.len()
        invariant
            0 <= i <= rows@.len(),
            forall|j: int| 0 <= j < i ==> (#[trigger] rows@[j]).key_uuid() != uuid@,
        decreases rows@.len() - i,
    {
        if *rows[i].row_uuid() == *uuid {
            return Some(i);
        }
        i = i + 1;
    }
    None
}

/// The number of the first row that holds the UUID `uuid`.
pub fn id_with_uuid<T: Keyed>(rows: &Vec<T>, uuid: &String) -> (result: Result<i32, ApiError>)
    ensures
        is_id_with(result, rows@, uuid@),
{
    match position_of_uuid(rows, uuid) {
        Some(i) => Ok(rows[i].row_id()),
        None => Err(ApiError::NotFound),
    }
}

/// The number of the first row that holds the given UUID in hyphenated
/// form, given what the UUID that was asked for parsed to.
pub fn id_of_parsed<T: Keyed>(rows: &Vec<T>, parsed: Option<String>) -> (result: Result<
    i32,
    ApiError,
>)
    ensures
        is_id_of(result, rows@, text_of(parsed)),
{
    match parsed {
        None => Err(ApiError::Uuid),
        Some(uuid) => id_with_uuid(rows, &uuid),
    }
}

/// The number of the first row that holds the UUID which `uuid` is parsed
/// to, in hyphenated form.
pub fn get_id<T: Keyed>(rows: &Vec<T>, uuid: &str) -> (result: Result<i32, ApiError>)
    ensures
        is_id_of(result, rows@, uuid_hyphenated(uuid@)),
{
    let parsed = canonical_uuid(uuid);
    id_of_parsed(rows, parsed)
}

} // verus!
