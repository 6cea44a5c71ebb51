use nvim_gtk_shell::text::{argument_text, is_one, joined, mouse_text, push_decimal, trim};

fn decimal(n: u64) -> String {
    let mut out = String::new();
    push_decimal(&mut out, n);
    out
}

#[test]
fn decimal_notation() {
    for n in [0, 7, 9, 10, 99, 100, 1024, 90_000, u64::MAX] {
        assert_eq!(decimal(n), n.to_string());
    }
}

#[test]
fn decimal_reads_back() {
    for n in [0u64, 1, 10, 305, 18_446_744_073_709_551_615] {
        assert_eq!(decimal(n).parse::<u64>().unwrap(), n);
    }
}

#[test]
fn decimal_is_appended() {
    let mut out = "row ".to_owned();
    push_decimal(&mut out, 12);
    assert_eq!(out, "row 12");
}

#[test]
fn joined_texts() {
    assert_eq!(joined("e ", "a b"), "e a b");
    assert_eq!(joined("", ""), "");
}

#[test]
fn white_space_is_trimmed_like_std_does() {
    for text in ["", " ", "1", " 1", "1 ", "\t1\n", "\u{a0}1\u{2003}", " a b ", "\u{200b}1", "x"] {
        assert_eq!(trim(text), text.trim());
    }
}

#[test]
fn every_character_is_trimmed_like_std_does() {
    for code in 0..0x110000u32 {
        if let Some(c) = char::from_u32(code) {
            let text = c.to_string();
            assert_eq!(trim(&text).is_empty(), c.is_whitespace(), "{:x}", code);
        }
    }
}

#[test]
fn only_one_is_one() {
    assert!(is_one("1"));
    assert!(!is_one(""));
    assert!(!is_one("11"));
    assert!(!is_one("0"));
    assert!(!is_one("\u{661}"));
}

#[test]
fn mouse_text_has_key_and_cell() {
    assert_eq!(mouse_text("<LeftMouse>", 12, 3), "<LeftMouse><12,3>");
    assert_eq!(mouse_text("<C-ScrollWheelUp>", 0, 0), "<C-ScrollWheelUp><0,0>");
}

#[test]
fn mouse_texts_of_two_cells_differ() {
    assert_ne!(mouse_text("k", 1, 11), mouse_text("k", 11, 1));
    assert_ne!(mouse_text("k", 1, 23), mouse_text("k", 12, 3));
}

#[test]
fn arguments_are_joined_in_order() {
    let names = vec![Some("/a/b".to_owned()), Some("/c\\ d".to_owned())];
    assert_eq!(argument_text(&names), ":ar /a/b /c\\ d");
}

#[test]
fn uris_without_a_file_are_left_out() {
    let names = vec![None, Some("/a".to_owned()), None, Some("/b".to_owned()), None];
    assert_eq!(argument_text(&names), ":ar /a /b");
    assert_eq!(argument_text(&vec![None]), ":ar");
    assert_eq!(argument_text(&Vec::new()), ":ar");
}
