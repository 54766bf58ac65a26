use wslplugins::diagnostics::Anchor;
use wslplugins::{RequiredVersion, VersionToken};

fn number(digits: &str) -> VersionToken {
    VersionToken::Integer {
        digits: digits.to_string(),
    }
}

fn other(text: &str) -> VersionToken {
    VersionToken::Other {
        text: text.to_string(),
    }
}

const COMMA: VersionToken = VersionToken::Comma;

#[test]
fn test_parse_valid_version_with_revision() {
    let version_tokens = vec![number("1"), COMMA, number("2"), COMMA, number("3")];
    let parsed_version = RequiredVersion::parse(&version_tokens).unwrap();

    assert_eq!(parsed_version.major, 1);
    assert_eq!(parsed_version.minor, 2);
    assert_eq!(parsed_version.revision, 3);
}

#[test]
fn test_parse_valid_version_without_revision() {
    let version_tokens = vec![number("1"), COMMA, number("2")];
    let parsed_version = RequiredVersion::parse(&version_tokens).unwrap();

    assert_eq!(parsed_version.major, 1);
    assert_eq!(parsed_version.minor, 2);
    assert_eq!(parsed_version.revision, 0);
}

#[test]
fn test_parse_invalid_version_missing_major() {
    let version_tokens = vec![COMMA, number("2"), COMMA, number("3")];
    let parsed_result = RequiredVersion::parse(&version_tokens);

    assert!(parsed_result.is_err());
}

#[test]
fn test_parse_invalid_version_non_numeric() {
    let version_tokens = vec![number("1"), COMMA, other("a"), COMMA, number("3")];
    let parsed_result = RequiredVersion::parse(&version_tokens);

    assert!(parsed_result.is_err());
}

#[test]
fn test_parse_invalid_version_extra_component() {
    let version_tokens = vec![number("1"), COMMA, number("2"), COMMA, number("3"), COMMA, number("4")];
    let parsed_result = RequiredVersion::parse(&version_tokens);

    assert!(parsed_result.is_err());
    assert_eq!(
        parsed_result.unwrap_err().to_string(),
        "unexpected additional components in version"
    );
}

#[test]
fn test_parse_invalid_version_extra_trailing_comma() {
    let version_tokens = vec![number("1"), COMMA, number("2"), COMMA, number("3"), COMMA];
    let parsed_result = RequiredVersion::parse(&version_tokens);

    assert!(parsed_result.is_err());
    assert_eq!(
        parsed_result.unwrap_err().to_string(),
        "unexpected additional components in version"
    );
}

#[test]
fn missing_major_is_named_at_its_place() {
    let e = RequiredVersion::parse(&[COMMA, number("2")]).unwrap_err();
    assert_eq!(e.errors().len(), 1);
    assert_eq!(e.errors()[0].anchor, Anchor::AttributeToken { index: 0 });
    assert_eq!(e.errors()[0].message, "expected the major version number");
    let e = RequiredVersion::parse(&[]).unwrap_err();
    assert_eq!(e.errors()[0].anchor, Anchor::AttributeEnd);
    assert_eq!(e.to_string(), "expected the major version number");
}

#[test]
fn missing_minor_and_separator_are_named() {
    let e = RequiredVersion::parse(&[number("1")]).unwrap_err();
    assert_eq!(e.to_string(), "expected the minor version number");
    let e = RequiredVersion::parse(&[number("1"), number("2")]).unwrap_err();
    assert_eq!(e.errors()[0].anchor, Anchor::AttributeToken { index: 1 });
    assert_eq!(e.to_string(), "expected `,` between version numbers");
}

#[test]
fn trailing_separator_without_revision_is_named() {
    let e = RequiredVersion::parse(&[number("1"), COMMA, number("2"), COMMA]).unwrap_err();
    assert_eq!(e.errors()[0].anchor, Anchor::AttributeEnd);
    assert_eq!(e.to_string(), "expected the revision number after `,`");
}

#[test]
fn non_numeric_component_is_named() {
    let e = RequiredVersion::parse(&[number("1"), COMMA, other("a"), COMMA, number("3")]).unwrap_err();
    assert_eq!(e.errors().len(), 1);
    assert_eq!(e.errors()[0].anchor, Anchor::AttributeToken { index: 2 });
    assert_eq!(e.to_string(), "version component is not a base-10 integer");
    let e = RequiredVersion::parse(&[number("1x"), COMMA, number("2")]).unwrap_err();
    assert_eq!(e.to_string(), "version component is not a base-10 integer");
}

#[test]
fn component_over_32_bits_is_named() {
    let ok = RequiredVersion::parse(&[number("4294967295"), COMMA, number("0")]).unwrap();
    assert_eq!(ok.major, u32::MAX);
    let e = RequiredVersion::parse(&[number("4294967296"), COMMA, number("0")]).unwrap_err();
    assert_eq!(e.errors()[0].anchor, Anchor::AttributeToken { index: 0 });
    assert_eq!(e.to_string(), "version component does not fit in 32 bits");
}

#[test]
fn every_defect_is_reported_together() {
    let e = RequiredVersion::parse(&[other("x"), COMMA, number("99999999999"), COMMA, number("3"), COMMA, number("4")])
        .unwrap_err();
    assert_eq!(e.errors().len(), 3);
    assert_eq!(
        e.to_string(),
        "version component is not a base-10 integer\nversion component does not fit in 32 bits\nunexpected additional components in version"
    );
    assert_eq!(e.errors()[2].anchor, Anchor::AttributeToken { index: 5 });
}

#[test]
fn leading_zeros_are_read_as_numbers() {
    let v = RequiredVersion::parse(&[number("007"), COMMA, number("010"), COMMA, number("0")]).unwrap();
    assert_eq!((v.major, v.minor, v.revision), (7, 10, 0));
}

#[test]
fn version_tokens_read_back() {
    for v in [
        RequiredVersion { major: 1, minor: 0, revision: 5 },
        RequiredVersion { major: 0, minor: 0, revision: 0 },
        RequiredVersion { major: u32::MAX, minor: 12, revision: 3405 },
    ] {
        let tokens = v.to_tokens();
        assert_eq!(RequiredVersion::parse(&tokens), Ok(v));
    }
    assert_eq!(
        RequiredVersion { major: 1, minor: 20, revision: 300 }.to_tokens(),
        vec![number("1"), COMMA, number("20"), COMMA, number("300")]
    );
}

#[test]
fn decimal_digits_of_numbers() {
    assert_eq!(wslplugins::version::decimal_string(0), "0");
    assert_eq!(wslplugins::version::decimal_string(9), "9");
    assert_eq!(wslplugins::version::decimal_string(10), "10");
    assert_eq!(wslplugins::version::decimal_string(4294967295), "4294967295");
}
