use mdget::cli::begins_with_hyphen;
use mdget::text::{bytes_precede, list_holds, same_bytes, same_text, text_precedes};

#[test]
fn same_text_is_exact() {
    assert!(same_text("", ""));
    assert!(same_text("fabric", "fabric"));
    assert!(!same_text("fabric", "Fabric"));
    assert!(!same_text("fabric", "fabri"));
    assert!(!same_text("fabric", "fabric "));
    assert!(same_text("\u{e9}t\u{e9}", "\u{e9}t\u{e9}"));
    assert!(!same_text("\u{e9}", "e"));
}

#[test]
fn same_bytes_compares_length_and_content() {
    assert!(same_bytes(&[], &[]));
    assert!(same_bytes(&[1, 2, 3], &[1, 2, 3]));
    assert!(!same_bytes(&[1, 2, 3], &[1, 2]));
    assert!(!same_bytes(&[1, 2, 3], &[1, 2, 4]));
    assert!(!same_bytes(&[], &[0]));
}

#[test]
fn list_holds_exact_items_only() {
    let list = vec!["1.19".to_string(), "1.20.1".to_string(), String::new()];
    assert!(list_holds(&list, "1.19"));
    assert!(list_holds(&list, "1.20.1"));
    assert!(list_holds(&list, ""));
    assert!(!list_holds(&list, "1.20"));
    assert!(!list_holds(&list, "1.19 "));
    assert!(!list_holds(&Vec::new(), "1.19"));
}

#[test]
fn bytes_precede_is_the_dictionary_order() {
    assert!(bytes_precede(&[], &[0]));
    assert!(!bytes_precede(&[], &[]));
    assert!(!bytes_precede(&[0], &[]));
    assert!(bytes_precede(&[1, 2], &[1, 3]));
    assert!(!bytes_precede(&[1, 3], &[1, 2]));
    assert!(bytes_precede(&[1, 2], &[1, 2, 0]));
    assert!(!bytes_precede(&[1, 2, 0], &[1, 2]));
    assert!(bytes_precede(&[1, 255], &[2]));
    assert!(!bytes_precede(&[7, 7], &[7, 7]));
}

#[test]
fn text_precedes_orders_timestamps_by_time() {
    assert!(text_precedes("2023-01-01T00:00:00Z", "2023-01-01T00:00:01Z"));
    assert!(text_precedes("2022-12-31T23:59:59Z", "2023-01-01T00:00:00Z"));
    assert!(!text_precedes("2023-06-01T00:00:00Z", "2023-01-01T00:00:00Z"));
    assert!(!text_precedes("2023-06-01T00:00:00Z", "2023-06-01T00:00:00Z"));
    assert!(text_precedes("2023-06-01T00:00:00.123Z", "2023-06-01T00:00:00.2Z"));
    assert!(text_precedes("", "0"));
}

#[test]
fn options_begin_with_a_hyphen() {
    assert!(begins_with_hyphen("-v"));
    assert!(begins_with_hyphen("--all"));
    assert!(begins_with_hyphen("-"));
    assert!(!begins_with_hyphen(""));
    assert!(!begins_with_hyphen("a-b"));
    assert!(!begins_with_hyphen("\u{2014}x"));
}
