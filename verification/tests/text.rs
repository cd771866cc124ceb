use polygo_engine::executor::errors::{
    is_balance_not_settled_error, is_no_match_error, OrderFault,
};
use polygo_engine::text::{
    byte_len, characters, contains, decimal_text, is_blank, is_white_space, join, parse_number,
    same_letters, same_text, strip_tail, trim,
};

#[test]
fn classifies_expected_exchange_errors() {
    assert!(is_no_match_error("no orders found to match with FAK order"));
    assert!(is_balance_not_settled_error("not enough balance / allowance"));
    assert!(!is_balance_not_settled_error("temporary server error"));
}

#[test]
fn errors_are_found_in_longer_texts() {
    assert!(is_no_match_error("x: no orders found to match with FAK order. y"));
    assert!(!is_no_match_error("No orders found to match with FAK order"));
    assert!(is_balance_not_settled_error("NOT ENOUGH balance / Allowance"));
    assert!(is_balance_not_settled_error("balance: 0, order amount: 5"));
    assert!(!is_balance_not_settled_error("balance: 0"));
    assert!(is_balance_not_settled_error("the allowance or BALANCE IS NOT ENOUGH"));
    assert!(!is_balance_not_settled_error("balance is not enough"));
}

#[test]
fn faults_in_words() {
    assert_eq!(OrderFault::Exchange("e".into()).text(), "e");
    assert_eq!(OrderFault::EntryStatusFailed("e".into()).text(), "GTC entry status failed: e");
    assert_eq!(OrderFault::EntryCancelFailed("e".into()).text(), "GTC entry cancel failed: e");
    assert_eq!(
        OrderFault::EntryUnverified("e".into()).text(),
        "GTC entry canceled order fill could not be verified: e"
    );
    assert_eq!(OrderFault::EntryCancelUnconfirmed.text(), "GTC entry cancellation was not confirmed");
    assert_eq!(OrderFault::ExitStatusFailed("e".into()).text(), "GTC order status failed: e");
    assert_eq!(OrderFault::ExitCancelFailed("e".into()).text(), "GTC cancel failed: e");
    assert_eq!(
        OrderFault::ExitUnverified("e".into()).text(),
        "GTC canceled order fill could not be verified: e"
    );
    assert_eq!(OrderFault::ExitCancelUnconfirmed.text(), "GTC cancellation was not confirmed");
    assert_eq!(OrderFault::FloorOrderOpen.text(), "GTC floor order is still open");
}

#[test]
fn white_space_is_that_of_the_standard_library() {
    for n in 0..=0x10_ffff_u32 {
        if let Some(c) = char::from_u32(n) {
            assert_eq!(is_white_space(c), c.is_whitespace(), "{n:x}");
        }
    }
}

#[test]
fn text_functions_agree_with_the_standard_library() {
    let texts = ["", " ", "a", "Ab c", "\u{e9}", "\u{3000}x\u{2003}", "xx/", "//", "+7", "-7", "007", "+", "18446744073709551615", "18446744073709551616", "1_0", "\u{661}"];
    for s in texts {
        let c: Vec<char> = s.chars().collect();
        assert_eq!(characters(s), c);
        assert_eq!(byte_len(s), s.len());
        assert_eq!(is_blank(s), s.trim().is_empty());
        assert_eq!(trim(&c).into_iter().collect::<String>(), s.trim());
        assert_eq!(strip_tail(s, '/'), s.trim_end_matches('/'));
        assert_eq!(parse_number(&c, u64::MAX), s.parse::<u64>().ok(), "{s}");
        for t in texts {
            assert_eq!(same_text(s, t), s == t);
            assert_eq!(contains(s, t), s.contains(t));
            assert_eq!(same_letters(s, t), s.eq_ignore_ascii_case(t));
            assert_eq!(join(s, t), format!("{s}{t}"));
        }
    }
    assert!(same_letters("Content-Length", "content-length"));
    for n in [0, 9, 10, 123_456, u64::MAX] {
        assert_eq!(decimal_text(n), n.to_string());
    }
}
