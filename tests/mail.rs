use unclaims::defines::split_define;
use unclaims::mail::{
    build_account_already_exist_email, build_account_creation_email,
    build_account_creation_email_with_code, build_account_recovery_email, build_ack_email,
    build_send_confirm_email, build_voided_email, hex_code, pct_encode,
};

#[test]
fn pct_encode_escapes_four_characters() {
    assert_eq!(pct_encode("a b%\"c\nd"), "a%20b%25%22c%0Ad");
    assert_eq!(pct_encode(""), "");
    assert_eq!(pct_encode("plain"), "plain");
}

#[test]
fn hex_code_takes_sixteen_digits() {
    assert_eq!(hex_code(0), "0");
    assert_eq!(hex_code(255), "ff");
    assert_eq!(hex_code(0x1234_5678_9abc_def0_1234), "123456789abcdef0");
    assert_eq!(hex_code(u128::MAX), "ffffffffffffffff");
}

#[test]
fn send_confirm_email() {
    let m = build_send_confirm_email("alice@example.com", "10", "USDC", "bob@example.com", "relayer@example.com");
    assert_eq!(m.to, "alice@example.com");
    assert_eq!(m.subject, "Send 10 USDC to bob@example.com");
    assert_eq!(
        m.body_plain,
        "以下の送金を実行しますか？\n- 金額: 10 USDC\n- 受信者: bob@example.com\n- 送信者: alice@example.com\n\n返信用件名(重要): Send 10 USDC to bob@example.com"
    );
    assert!(m.body_html.contains(r#"<a href="mailto:relayer@example.com?subject=Send%2010%20USDC%20to%20bob@example.com""#));
    assert!(m.body_html.contains("<li><strong>Amount:</strong> 10 USDC</li>"));
    assert!(m.body_html.starts_with("<!doctype html>"));
    assert!(m.body_html.ends_with("</body></html>"));
    assert!(m.reference.is_none() && m.reply_to.is_none() && m.body_attachments.is_none());
}

#[test]
fn account_creation_email_with_code() {
    let m = build_account_creation_email_with_code("alice@example.com", "relayer@example.com", "abc123");
    assert_eq!(m.subject, "Email Wallet Account Creation. Code abc123");
    assert!(m.body_plain.contains("返信用件名(重要): Email Wallet Account Creation. Code abc123"));
    assert!(m.body_html.contains("mailto:relayer@example.com?subject=Email%20Wallet%20Account%20Creation.%20Code%20abc123"));
    assert!(m.body_html.contains("Code: abc123</p>"));
}

#[test]
fn account_creation_email_from_clock() {
    let m = build_account_creation_email("alice@example.com", "relayer@example.com");
    let code = m.subject.strip_prefix("Email Wallet Account Creation. Code ").unwrap();
    assert!(!code.is_empty() && code.len() <= 16);
    assert!(code.chars().all(|c| c.is_ascii_hexdigit() && !c.is_ascii_uppercase()));
}

#[test]
fn already_exist_email() {
    let w = "0x000000000000000000000000000000000000cafe";
    let m = build_account_already_exist_email("alice@example.com", "deadbeef", w, "https://etherscan.io");
    assert_eq!(m.subject, "Sign in to your Email Wallet");
    assert_eq!(
        m.body_plain,
        format!("Your wallet is already created.\nAccount Code: deadbeef\nWallet: {w}\nExplorer: https://etherscan.io/address/{w}")
    );
    assert!(m.body_html.contains(">0x0000...cafe</a>"));
    assert!(m.body_html.contains(&format!("href=\"https://etherscan.io/address/{w}\"")));
}

#[test]
fn recovery_email() {
    let w = "0x000000000000000000000000000000000000babe";
    let m = build_account_recovery_email("alice@example.com", "deadbeef", w, "https://etherscan.io");
    assert_eq!(m.subject, "Email Wallet Account Login");
    assert_eq!(m.body_plain, format!("Your account key is deadbeef. Keep it safe.\nWallet: https://etherscan.io/address/{w}"));
    assert!(m.body_html.contains(">0x0000...babe</a>"));
}

#[test]
fn short_wallet_of_six_characters() {
    let m = build_account_recovery_email("a", "c", "abcdef", "e");
    assert!(m.body_html.contains(">abcdef...cdef</a>"));
}

#[test]
fn ack_email() {
    let m = build_ack_email("alice@example.com", "Hello");
    assert_eq!(m.subject, "Re: Hello");
    assert_eq!(m.body_plain, "Your email 'Hello' is received.");
    assert!(m.body_html.contains("<p style=\"margin:0;\">Hi alice@example.com,</p>"));
    assert!(m.body_html.contains("<strong>Hello</strong>"));
}

#[test]
fn voided_email() {
    let m = build_voided_email("alice@example.com", "0xc0de", "https://etherscan.io", "0x1234");
    assert_eq!(m.subject, "Email Wallet Notification: Transfer Voided");
    assert_eq!(m.body_plain, "Tx: https://etherscan.io/tx/0x1234");
    assert!(m.body_html.contains("href=\"https://etherscan.io/tx/0x1234\""));
    assert!(m.body_html.contains("href=\"https://etherscan.io/address/0xc0de\""));
}

#[test]
fn split_define_at_first_equals() {
    assert_eq!(split_define("a=b=c"), Some(("a".to_string(), "b=c".to_string())));
    assert_eq!(split_define("=x"), Some((String::new(), "x".to_string())));
    assert_eq!(split_define("novalue"), None);
}

#[test]
fn short_wallet_cuts_bytes_of_non_ascii_address() {
    let m = build_account_recovery_email("a", "c", "abcdefé-wxyz", "e");
    assert!(m.body_html.contains(">abcdef...wxyz</a>"));
    let m = build_account_already_exist_email("a", "c", "ééé-wxyz", "e");
    assert!(m.body_html.contains(">ééé...wxyz</a>"));
}
