use composite_image::error::ComposeError;
use composite_image::guid::{guid_from_parsed, parse_guid};

#[test]
fn no_guid_string_gives_no_guid() {
    assert_eq!(parse_guid(0, None), Ok(None));
    assert_eq!(guid_from_parsed(3, None), Ok(None));
}

#[test]
fn hyphenated_uuid_is_parsed() {
    assert_eq!(
        parse_guid(0, Some("550e8400-e29b-41d4-a716-446655440000")),
        Ok(Some(0x550e8400_e29b_41d4_a716_446655440000))
    );
    assert_eq!(
        parse_guid(1, Some("00000000-0000-0000-0000-000000000001")),
        Ok(Some(1))
    );
}

#[test]
fn other_forms_of_uuid_are_parsed() {
    let value = 0x936da01f_9abd_4d9d_80c7_02af85c822a8u128;
    assert_eq!(parse_guid(0, Some("936da01f9abd4d9d80c702af85c822a8")), Ok(Some(value)));
    assert_eq!(parse_guid(0, Some("936DA01F-9ABD-4D9D-80C7-02AF85C822A8")), Ok(Some(value)));
    assert_eq!(parse_guid(0, Some("{936da01f-9abd-4d9d-80c7-02af85c822a8}")), Ok(Some(value)));
    assert_eq!(
        parse_guid(0, Some("urn:uuid:936da01f-9abd-4d9d-80c7-02af85c822a8")),
        Ok(Some(value))
    );
}

#[test]
fn malformed_guid_is_rejected_with_its_position() {
    assert_eq!(parse_guid(0, Some("")), Err(ComposeError::BadGuid { index: 0 }));
    assert_eq!(parse_guid(2, Some("not a uuid")), Err(ComposeError::BadGuid { index: 2 }));
    assert_eq!(
        parse_guid(7, Some("550e8400-e29b-41d4-a716-44665544000")),
        Err(ComposeError::BadGuid { index: 7 })
    );
    assert_eq!(
        parse_guid(7, Some("550e8400-e29b-41d4-a716-44665544000g")),
        Err(ComposeError::BadGuid { index: 7 })
    );
    assert_eq!(
        parse_guid(1, Some("550e8400e29b-41d4-a716-4466554400000")),
        Err(ComposeError::BadGuid { index: 1 })
    );
}

#[test]
fn guid_follows_the_outcome_of_parsing() {
    assert_eq!(guid_from_parsed(0, Some(Ok(5))), Ok(Some(5)));
    assert_eq!(guid_from_parsed(4, Some(Ok(u128::MAX))), Ok(Some(u128::MAX)));
    let rejected = uuid::Uuid::parse_str("zz").unwrap_err();
    assert_eq!(guid_from_parsed(4, Some(Err(rejected))), Err(ComposeError::BadGuid { index: 4 }));
}

#[test]
fn strings_that_are_not_ascii_are_rejected() {
    let inputs = [
        "é",
        "550e8400-e29b-41d4-a716-4466554400é",
        "{550e8400-e29b-41d4-a716-44665544é}",
        "urn:uuid:550e8400-e29b-41d4-a716-4466554400é",
        "ééééééééééééééééé",
        "éééééééééééééééééé",
        "{éééééééééééééééééé}",
        "urn:uuid:ééééééééééééééééé—",
        "550e8400—e29b—41d4—a716—4466",
        "--------------------------------",
        "------------------------------------",
        "{}",
        "{",
        "urn:uuid:",
    ];
    for input in inputs {
        assert_eq!(parse_guid(5, Some(input)), Err(ComposeError::BadGuid { index: 5 }));
    }
}
