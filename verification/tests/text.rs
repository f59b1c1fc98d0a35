use ra_lsp_server::text::{i32_text, u64_text};

#[test]
fn numbers_are_written_in_decimal() {
    for n in [0, 7, 10, 99, 100, 1234567890, u64::MAX] {
        assert_eq!(u64_text(n), n.to_string());
    }
}

#[test]
fn signed_numbers_are_written_in_decimal() {
    for n in [0, 5, -1, -32800, i32::MAX, i32::MIN] {
        assert_eq!(i32_text(n), n.to_string());
    }
}
