//! Partition GUIDs, given as UUID strings.

use vstd::prelude::*;
use crate::error::ComposeError;

verus! {

#[verifier::external_type_specification]
#[verifier::external_body]
pub struct ExUuidError(uuid::Error);

/// The 128-bit value that `uuid::Uuid::parse_str` reads from a string, or
/// nothing where it rejects the string.
pub uninterp spec fn uuid_parse_str(input: Seq<char>) -> Option<u128>;

/// Calls `uuid::Uuid::parse_str`, which reads a UUID in any of its textual
/// forms, and gives the UUID as the 128-bit number that its sixteen bytes
/// spell in big-endian order (`uuid::Uuid::as_u128`). The contract gives the
/// outcome its name and claims nothing more of it.
#[verifier::external_body]
fn parse_uuid(input: &str) -> (parsed: Result<u128, uuid::Error>)
    ensures
        match parsed {
            Ok(value) => uuid_parse_str(input@) == Some(value),
            Err(_) => uuid_parse_str(input@) is None,
        },
{
    match uuid::Uuid::parse_str(input) {
        Ok(uuid) => Ok(uuid.as_u128()),
        Err(e) => Err(e),
    }
}

/// The GUID of the partition at position `index`, given what parsing its
/// GUID string gave, if it has one: no GUID for a partition without one, the
/// parsed value, or `BadGuid` where the string was rejected.
pub open spec fn guid_from(index: usize, parsed: Option<Option<u128>>) -> Result<
    Option<u128>,
    ComposeError,
> {
    match parsed {
        None => Ok(None),
        Some(Some(value)) => Ok(Some(value)),
        Some(None) => Err(ComposeError::BadGuid { index }),
    }
}

/// The outcome of parsing as the value it gave, if any.
pub open spec fn parsed_value(parsed: Result<u128, uuid::Error>) -> Option<u128> {
    match parsed {
        Ok(value) => Some(value),
        Err(_) => None,
    }
}

/// The GUID of the partition at position `index` whose GUID string is `guid`.
pub open spec fn guid_of(index: usize, guid: Option<Seq<char>>) -> Result<Option<u128>, ComposeError> {
    match guid {
        None => guid_from(index, None),
        Some(text) => guid_from(index, Some(uuid_parse_str(text))),
    }
}

/// Decides the GUID of the partition at position `index` from what parsing
/// its GUID string gave, if it has one.
pub fn guid_from_parsed(index: usize, parsed: Option<Result<u128, uuid::Error>>) -> (guid: Result<
    Option<u128>,
    ComposeError,
>)
    ensures
        guid == guid_from(
            index,
            match parsed {
                Some(outcome) => Some(parsed_value(outcome)),
                None => None,
            },
        ),
{
    match parsed {
        None => Ok(None),
        Some(Ok(value)) => Ok(Some(value)),
        Some(Err(_)) => Err(ComposeError::BadGuid { index }),
    }
}

/// Parses the GUID string of the partition at position `index`, if it has one.
pub fn parse_guid(index: usize, guid: Option<&str>) -> (parsed: Result<Option<u128>, ComposeError>)
    ensures
        parsed == guid_of(
            index,
            match guid {
                Some(text) => Some(text@),
                None => None,
            },
        ),
{
    match guid {
        None => guid_from_parsed(index, None),
        Some(text) => guid_from_parsed(index, Some(parse_uuid(text))),
    }
}

} // verus!
