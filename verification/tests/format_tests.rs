use garble_service::format::{
    default_v5c_path, detect_v5_format, ensure_v5c_action, CircuitFormatV5, FormatError, V5cAction,
};

const MAGIC: [u8; 4] = [b'Z', b'k', b'2', b'u'];

fn header(version: u8, format_type: u8) -> Vec<u8> {
    let mut h = MAGIC.to_vec();
    h.push(version);
    h.push(format_type);
    h
}

#[test]
fn detects_v5a() {
    assert_eq!(detect_v5_format(&header(5, 0)), Ok(CircuitFormatV5::V5a));
}

#[test]
fn detects_v5c() {
    assert_eq!(detect_v5_format(&header(5, 2)), Ok(CircuitFormatV5::V5c));
}

#[test]
fn ignores_bytes_after_the_prefix() {
    let mut h = header(5, 2);
    h.extend_from_slice(&[0xff, 0xee, 0x00]);
    assert_eq!(detect_v5_format(&h), Ok(CircuitFormatV5::V5c));
}

#[test]
fn rejects_bad_magic() {
    let mut h = header(5, 0);
    h[3] = b'v';
    assert_eq!(detect_v5_format(&h), Err(FormatError::BadMagic));
}

#[test]
fn rejects_other_versions() {
    assert_eq!(detect_v5_format(&header(4, 0)), Err(FormatError::UnsupportedVersion(4)));
}

#[test]
fn rejects_other_format_types() {
    assert_eq!(detect_v5_format(&header(5, 1)), Err(FormatError::UnsupportedFormatType(1)));
}

#[test]
fn rejects_short_headers() {
    assert_eq!(detect_v5_format(&MAGIC), Err(FormatError::TruncatedHeader(4)));
    assert_eq!(detect_v5_format(&[]), Err(FormatError::TruncatedHeader(0)));
}

#[test]
fn magic_is_checked_before_version() {
    assert_eq!(detect_v5_format(&[0, 0, 0, 0, 9, 9]), Err(FormatError::BadMagic));
}

#[test]
fn v5c_path_replaces_the_extension() {
    assert_eq!(default_v5c_path("circuit.ckt"), "circuit.v5c.ckt");
}

#[test]
fn v5c_path_appends_to_a_bare_name() {
    assert_eq!(default_v5c_path("circuit"), "circuit.v5c.ckt");
}

#[test]
fn v5c_path_replaces_only_the_last_extension() {
    assert_eq!(default_v5c_path("circuit.v5a.ckt"), "circuit.v5a.v5c.ckt");
}

#[test]
fn v5c_path_keeps_the_directory() {
    assert_eq!(default_v5c_path("data/circuits/adder.ckt"), "data/circuits/adder.v5c.ckt");
}

#[test]
fn v5c_input_is_used_as_is() {
    assert_eq!(ensure_v5c_action(CircuitFormatV5::V5c, None), V5cAction::UseInput);
    assert_eq!(
        ensure_v5c_action(CircuitFormatV5::V5c, Some(CircuitFormatV5::V5a)),
        V5cAction::UseInput
    );
}

#[test]
fn existing_v5c_output_is_reused() {
    assert_eq!(
        ensure_v5c_action(CircuitFormatV5::V5a, Some(CircuitFormatV5::V5c)),
        V5cAction::UseExistingOutput
    );
}

#[test]
fn v5a_input_is_converted_otherwise() {
    assert_eq!(ensure_v5c_action(CircuitFormatV5::V5a, None), V5cAction::ConvertToOutput);
    assert_eq!(
        ensure_v5c_action(CircuitFormatV5::V5a, Some(CircuitFormatV5::V5a)),
        V5cAction::ConvertToOutput
    );
}

#[test]
fn v5c_path_of_a_path_without_file_name_is_unchanged() {
    assert_eq!(default_v5c_path(""), "");
    assert_eq!(default_v5c_path("/"), "/");
    assert_eq!(default_v5c_path(".."), "..");
    assert_eq!(default_v5c_path("."), ".");
}

#[test]
fn v5c_path_keeps_a_leading_dot_name_whole() {
    assert_eq!(default_v5c_path("dir/.hidden"), "dir/.hidden.v5c.ckt");
    assert_eq!(default_v5c_path("/abs/dir/a.b.ckt"), "/abs/dir/a.b.v5c.ckt");
}

#[test]
fn v5c_path_drops_trailing_separators_after_the_file_name() {
    assert_eq!(default_v5c_path("dir/a.ckt/"), "dir/a.v5c.ckt");
    assert_eq!(default_v5c_path("dir/a.ckt/."), "dir/a.v5c.ckt");
}

#[test]
fn v5c_path_of_a_path_ending_in_parent_or_current_dir_is_unchanged() {
    assert_eq!(default_v5c_path("a/.."), "a/..");
    assert_eq!(default_v5c_path("./"), "./");
    assert_eq!(default_v5c_path("../.."), "../..");
}

#[test]
fn v5c_path_differs_from_a_v5c_named_input() {
    assert_eq!(default_v5c_path("a.v5c.ckt"), "a.v5c.v5c.ckt");
}

#[test]
fn ensuring_a_v5c_circuit_again_uses_it() {
    for existing in [None, Some(CircuitFormatV5::V5a), Some(CircuitFormatV5::V5c)] {
        assert_eq!(ensure_v5c_action(CircuitFormatV5::V5c, existing), V5cAction::UseInput);
    }
}
