use ibc_host::chain_id::ChainId;
use ibc_host::identifiers::IdentifierError;

#[test]
fn test_inc_revision_number() {
    let mut chain_id = ChainId::new("chainA-1").unwrap();

    assert!(chain_id.increment_revision_number().is_ok());
    assert_eq!(chain_id.revision_number(), 2);
    assert_eq!(chain_id.as_str(), "chainA-2");

    assert!(chain_id.increment_revision_number().is_ok());
    assert_eq!(chain_id.revision_number(), 3);
    assert_eq!(chain_id.as_str(), "chainA-3");
}

#[test]
fn test_failed_inc_revision_number() {
    let mut chain_id = ChainId::new("chainA").unwrap();

    assert!(chain_id.increment_revision_number().is_err());
    assert_eq!(chain_id.revision_number(), 0);
    assert_eq!(chain_id.as_str(), "chainA");
}

#[test]
fn chain_id_increment_overflows_at_max() {
    let text = format!("chainA-{}", u64::MAX);
    let mut chain_id = ChainId::new(&text).unwrap();
    assert_eq!(chain_id.revision_number(), u64::MAX);
    assert_eq!(
        chain_id.increment_revision_number(),
        Err(IdentifierError::RevisionNumberOverflow)
    );
    assert_eq!(chain_id.revision_number(), u64::MAX);
    assert_eq!(chain_id.as_str(), text);
}

#[test]
fn chain_id_increment_crosses_digit_boundary() {
    let mut chain_id = ChainId::new("chainA-9").unwrap();
    chain_id.increment_revision_number().unwrap();
    assert_eq!(chain_id.as_str(), "chainA-10");
    assert_eq!(chain_id.revision_number(), 10);
    let mut chain_id = ChainId::new("a-b-99").unwrap();
    chain_id.increment_revision_number().unwrap();
    assert_eq!(chain_id.as_str(), "a-b-100");
}

fn check_with_rev(raw: &str, name: &str, rev: u64) {
    let chain_id = ChainId::new(raw).unwrap();
    assert!(chain_id.validate_length(1, 64).is_ok());
    assert_eq!(chain_id.revision_number(), rev);
    assert_eq!(chain_id.as_str(), format!("{name}-{rev}"));
    let (n, r) = chain_id.split_chain_id().unwrap();
    assert_eq!(n, name);
    assert_eq!(r, rev);
}

#[test]
fn chain_id_valid_with_revision() {
    check_with_rev("chainA-0", "chainA", 0);
    check_with_rev("chainA-1", "chainA", 1);
    check_with_rev("chainA--1", "chainA-", 1);
    check_with_rev("chainA-1-2", "chainA-1", 2);
    check_with_rev("111-2", "111", 2);
    check_with_rev("----1", "---", 1);
    check_with_rev("._+-1", "._+", 1);
    check_with_rev(&("A".repeat(43) + "-3"), &"A".repeat(43), 3);
}

#[test]
fn chain_id_valid_without_revision() {
    let long = "A".repeat(64);
    for raw in [
        "chainA", "chainA.2", "123", "._+", "chainA-", "chainA-a", "chainA-01", "chainA-1-",
        long.as_str(),
    ] {
        let chain_id = ChainId::new(raw).unwrap();
        assert!(chain_id.validate_length(1, 64).is_ok());
        assert_eq!(chain_id.revision_number(), 0);
        assert_eq!(chain_id.as_str(), raw);
    }
}

#[test]
fn chain_id_invalid_from_str() {
    let too_long = "A".repeat(65);
    let long_name = "A".repeat(44) + "-123";
    for raw in [
        too_long.as_str(),
        long_name.as_str(),
        "-1",
        " ----1",
        " ",
        " chainA",
        "chain A",
        " chainA.2",
        " chainA.2-1",
        " 1",
        " -",
        "   -1",
        "/chainA-1",
        r#"{"id":"foo-42","revision_number":"69"}"#,
    ] {
        assert!(ChainId::new(raw).is_err(), "{raw}");
    }
}

#[test]
fn chain_id_error_kinds() {
    assert_eq!(ChainId::new(""), Err(IdentifierError::Empty));
    assert!(matches!(
        ChainId::new("chain A"),
        Err(IdentifierError::InvalidCharacter { .. })
    ));
    assert!(matches!(
        ChainId::new(&"A".repeat(65)),
        Err(IdentifierError::InvalidLength { min: 1, max: 64, .. })
    ));
    assert!(matches!(
        ChainId::new("-1"),
        Err(IdentifierError::InvalidLength { min: 1, max: 43, .. })
    ));
}

#[test]
fn chain_id_length_bounds() {
    assert!(ChainId::new("a").is_ok());
    assert!(ChainId::new(&"a".repeat(64)).is_ok());
    assert!(ChainId::new(&"a".repeat(65)).is_err());
}

#[test]
fn chain_id_leading_zero_revision_is_not_a_revision() {
    let chain_id = ChainId::new("chainA-01").unwrap();
    assert_eq!(chain_id.revision_number(), 0);
    assert!(chain_id.split_chain_id().is_err());
    let chain_id = ChainId::new("chainA-0").unwrap();
    assert_eq!(chain_id.split_chain_id().unwrap(), ("chainA", 0));
}

#[test]
fn chain_id_parse_format_round_trip() {
    for raw in ["chainA-7", "x-y-18446744073709551615", "c-0"] {
        let chain_id = ChainId::new(raw).unwrap();
        let (name, rev) = chain_id.split_chain_id().unwrap();
        assert_eq!(format!("{name}-{rev}"), raw);
    }
}

#[test]
fn chain_id_revision_too_large_is_not_a_revision() {
    let chain_id = ChainId::new("chainA-18446744073709551616").unwrap();
    assert_eq!(chain_id.revision_number(), 0);
}

#[test]
fn chain_id_validate_length_uses_name() {
    let chain_id = ChainId::new("abc-5").unwrap();
    assert!(chain_id.validate_length(1, 64).is_ok());
    assert!(chain_id.validate_length(1, 23).is_err());
    assert!(chain_id.validate_length(1, 24).is_ok());
    let chain_id = ChainId::new("abcde").unwrap();
    assert!(chain_id.validate_length(6, 64).is_err());
    assert!(chain_id.validate_length(5, 5).is_ok());
}

#[test]
fn chain_id_from_str_and_clone() {
    let chain_id: ChainId = "chainB-4".parse().unwrap();
    let copy = chain_id.clone();
    assert_eq!(copy, chain_id);
    assert_eq!(copy.revision_number(), 4);
}

#[test]
fn chain_id_from_parts_checks_the_revision() {
    let c = ChainId::from_parts("foo-42", 42).unwrap();
    assert_eq!(c.revision_number(), 42);
    assert_eq!(
        ChainId::from_parts("foo-42", 69),
        Err(IdentifierError::RevisionNumberMismatch { given: 69, carried: 42 })
    );
    assert!(ChainId::from_parts("foo", 0).is_ok());
    assert!(ChainId::from_parts("", 0).is_err());
    assert!(ChainId::new(&("A".repeat(60) + "-1")).is_err());
}
