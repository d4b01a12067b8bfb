//! The null-terminated UTF-16 form that every string-taking native
//! call consumes.

use wfd::as_null_term_utf16;

#[test]
fn empty_string_is_just_the_terminator() {
    assert_eq!(as_null_term_utf16(""), vec![0u16]);
}

#[test]
fn ascii_encodes_one_unit_per_char() {
    assert_eq!(
        as_null_term_utf16("*.txt"),
        vec![0x2A, 0x2E, 0x74, 0x78, 0x74, 0]
    );
}

#[test]
fn basic_plane_chars_encode_directly() {
    assert_eq!(as_null_term_utf16("é"), vec![0x00E9, 0]);
    assert_eq!(as_null_term_utf16("日本"), vec![0x65E5, 0x672C, 0]);
}

#[test]
fn astral_chars_encode_as_surrogate_pairs() {
    // U+1D11E (musical G clef)
    assert_eq!(as_null_term_utf16("𝄞"), vec![0xD834, 0xDD1E, 0]);
}

#[test]
fn encoding_matches_the_standard_library() {
    let samples = ["", "C:\\Users\\ä\\file.txt", "日本語 𝄞 mixed", "*.jpg;*.jpeg"];
    for s in samples {
        let expected: Vec<u16> = s.encode_utf16().chain(Some(0)).collect();
        assert_eq!(as_null_term_utf16(s), expected);
    }
}
