use chainsaw::cli::{format_field_length, print_title};
use chainsaw::Error;

#[test]
fn control_characters_are_removed_and_text_is_chunked() {
    assert_eq!(format_field_length("ab\ncd", false, 2), "ab\ncd");
    assert_eq!(format_field_length("a\r\tb", false, 10), "ab");
    assert_eq!(format_field_length("abcdef", false, 2), "ab\ncd\nef");
    assert_eq!(format_field_length("abcde", false, 2), "ab\ncd\ne");
}

#[test]
fn doubled_spaces_collapse_like_one_replacement_pass() {
    assert_eq!(format_field_length("a  b", false, 10), "a b");
    assert_eq!(format_field_length("a   b", false, 10), "a  b");
    assert_eq!(format_field_length("a    b", false, 10), "a  b");
}

#[test]
fn long_output_is_truncated_with_a_notice() {
    let long = "x".repeat(1500);
    let shown = format_field_length(&long, false, 5000);
    assert_eq!(
        shown,
        format!(
            "{}...\n\n(use --full to show all content)",
            "x".repeat(1000)
        )
    );
    let full = format_field_length(&long, true, 5000);
    assert_eq!(full, long);
}

#[test]
fn exactly_one_thousand_characters_are_not_truncated() {
    let text = "y".repeat(1000);
    assert_eq!(format_field_length(&text, false, 5000), text);
}

#[test]
fn the_banner_names_the_tool() {
    let banner = print_title();
    assert_eq!(
        banner,
        "\nchainsaw - rapidly search and hunt through windows event logs\n"
    );
}

#[test]
fn errors_carry_their_wording() {
    assert_eq!(Error::Timestamp.message(), "could not get timestamp");
    assert_eq!(
        Error::MissingFilter.message(),
        "no pattern or regular expression was set"
    );
    assert_eq!(
        Error::InvalidRegex.message(),
        "invalid regular expression"
    );
    assert_eq!(Error::Decode.message(), "could not decode the container");
    assert_eq!(Error::Io.message(), "could not read the path");
}
