//! Notification emails: a transfer confirmation, account creation and sign-in
//! messages, an acknowledgement and a void notice, each built from a fixed
//! template and the values it names.

use vstd::prelude::*;
use vstd::string::StringSliceAdditionalSpecFns;
use vstd::utf8::{decode_utf8, encode_utf8, encode_utf8_decode_utf8, is_char_boundary};

verus! {

/// A file carried inline by an email.
#[derive(Debug, Clone)]
pub struct EmailAttachment {
    pub inline_id: String,
    pub content_type: String,
    pub contents: Vec<u8>,
}

/// An email ready to be sent.
#[derive(Debug, Clone)]
pub struct EmailMessage {
    pub to: String,
    pub subject: String,
    pub body_plain: String,
    pub body_html: String,
    pub reference: Option<String>,
    pub reply_to: Option<String>,
    pub body_attachments: Option<Vec<EmailAttachment>>,
}

/// The message has no reference, no reply-to address and no attachments.
pub open spec fn bare(m: EmailMessage) -> bool {
    &&& m.reference is None
    &&& m.reply_to is None
    &&& m.body_attachments is None
}

/// The subject of a sign-in email.
pub const SIGN_IN_SUBJECT: &'static str = "Sign in to your Email Wallet";

/// The subject of an account recovery email.
pub const RECOVERY_SUBJECT: &'static str = "Email Wallet Account Login";

/// The subject of a void notification.
pub const VOIDED_SUBJECT: &'static str = "Email Wallet Notification: Transfer Voided";

/// The subject of a sign-in email.
pub open spec fn sign_in_subject() -> Seq<char> {
    SIGN_IN_SUBJECT@
}

/// The subject of an account recovery email.
pub open spec fn recovery_subject() -> Seq<char> {
    RECOVERY_SUBJECT@
}

/// The subject of a void notification.
pub open spec fn voided_subject() -> Seq<char> {
    VOIDED_SUBJECT@
}

/// The percent-encoding of one character in a mailto subject.
pub open spec fn pct_char(c: char) -> Seq<char> {
    if c == '%' {
        seq!['%', '2', '5']
    } else if c == ' ' {
        seq!['%', '2', '0']
    } else if c == '\n' {
        seq!['%', '0', 'A']
    } else if c == '"' {
        seq!['%', '2', '2']
    } else {
        seq![c]
    }
}

/// `s` with `%`, space, line feed and double quote percent-encoded.
pub open spec fn pct_encoded(s: Seq<char>) -> Seq<char>
    decreases s.len(),
{
    if s.len() == 0 {
        Seq::empty()
    } else {
        pct_encoded(s.drop_last()) + pct_char(s.last())
    }
}

/// The sixteen lowercase hexadecimal digits, in order.
pub open spec fn hex_digits() -> Seq<char> {
    seq!['0', '1', '2', '3', '4', '5', '6', '7', '8', '9', 'a', 'b', 'c', 'd', 'e', 'f']
}

/// The lowercase hexadecimal digit of `d`.
pub open spec fn hex_char(d: nat) -> char {
    hex_digits()[d as int]
}

/// The lowercase hexadecimal numeral of `n`, without leading zeros.
pub open spec fn hex_of(n: nat) -> Seq<char>
    decreases n,
{
    if n < 16 {
        seq![hex_char(n)]
    } else {
        hex_of(n / 16).push(hex_char(n % 16))
    }
}

/// At most the first sixteen characters of `s`.
pub open spec fn first_sixteen(s: Seq<char>) -> Seq<char> {
    if s.len() <= 16 {
        s
    } else {
        s.subrange(0, 16)
    }
}

/// The code of an account creation email made at `nanos` nanoseconds past the epoch.
pub open spec fn hex_code_of(nanos: u128) -> Seq<char> {
    first_sixteen(hex_of(nanos as nat))
}

/// `w` can be cut after its sixth byte and before its last four bytes
/// without splitting a character.
pub open spec fn wallet_cuttable(w: &str) -> bool {
    &&& 6 <= w.spec_bytes().len() <= usize::MAX
    &&& is_char_boundary(w.spec_bytes(), 6)
    &&& is_char_boundary(w.spec_bytes(), w.spec_bytes().len() - 4)
}

/// The wallet address with UTF-8 encoding `w`, cut to its first six and
/// last four bytes.
pub open spec fn short_wallet_text(w: Seq<u8>) -> Seq<char> {
    wallet_short_text(
        decode_utf8(w.subrange(0, 6)),
        decode_utf8(w.subrange(w.len() - 4, w.len() as int)),
    )
}

/// Percent-encodes `%`, space, line feed and double quote in `s`, for a mailto subject.
pub fn pct_encode(s: &str) -> (r: String)
    ensures
        r@ == pct_encoded(s@),
{
    let n = s.unicode_len();
    let mut out = String::new();
    let mut i: usize = 0;
    while i < n
        invariant
            n == s@.len(),
            i <= n,
            out@ == pct_encoded(s@.subrange(0, i as int)),
        decreases n - i,
    {
        let c = s.get_char(i);
        proof {
            assert(s@.subrange(0, i + 1).drop_last() =~= s@.subrange(0, i as int));
        }
        if c == '%' {
            out.append("%25");
            proof {
                reveal_strlit("%25");
            }
        } else if c == ' ' {
            out.append("%20");
            proof {
                reveal_strlit("%20");
            }
        } else if c == '\n' {
            out.append("%0A");
            proof {
                reveal_strlit("%0A");
            }
        } else if c == '"' {
            out.append("%22");
            proof {
                reveal_strlit("%22");
            }
        } else {
            out.append(s.substring_char(i, i + 1));
        }
        proof {
            assert(out@ =~= pct_encoded(s@.subrange(0, i + 1)));
        }
        i = i + 1;
    }
    proof {
        assert(s@.subrange(0, n as int) =~= s@);
    }
    out
}

/// A fixed piece of the transfer command subject.
pub const SEND_SUBJECT_0: &'static str = "Send ";

/// A fixed piece of the transfer command subject.
pub const SEND_SUBJECT_1: &'static str = " ";

/// A fixed piece of the transfer command subject.
pub const SEND_SUBJECT_2: &'static str = " to ";

/// A fixed piece of a mailto link.
pub const MAILTO_0: &'static str = "mailto:";

/// A fixed piece of a mailto link.
pub const MAILTO_1: &'static str = "?subject=";

/// A fixed piece of the transfer confirmation's HTML body.
pub const SEND_CONFIRM_HTML_0: &'static str = r#"<!doctype html>
<html><body style="font-family: Arial, sans-serif; background:#f8fafc; padding:24px;">
  <div style="max-width:640px;margin:0 auto;background:#ffffff;border:1px solid #e5e7eb;border-radius:12px;overflow:hidden;">
    <div style="background:linear-gradient(135deg,#eab308,#ca8a04);color:#fff;padding:18px 20px;">
      <h2 style="margin:0;font-size:18px;">ZK Email Transfer Confirmation</h2>
    </div>
    <div style="padding:20px;">
      <p style="margin:0 0 12px 0;">"#;

/// A fixed piece of the transfer confirmation's HTML body.
pub const SEND_CONFIRM_HTML_1: &'static str = r#", would you like to execute the following transfer?</p>
      <div style="background:#fffbeb;border:1px solid #facc15;border-radius:8px;padding:16px;">
        <ul style="margin:0;padding-left:18px;">
          <li><strong>Amount:</strong> "#;

/// A fixed piece of the transfer confirmation's HTML body.
pub const SEND_CONFIRM_HTML_2: &'static str = " ";

/// A fixed piece of the transfer confirmation's HTML body.
pub const SEND_CONFIRM_HTML_3: &'static str = r#"</li>
          <li><strong>Recipient:</strong> "#;

/// A fixed piece of the transfer confirmation's HTML body.
pub const SEND_CONFIRM_HTML_4: &'static str = r#"</li>
          <li><strong>Sender:</strong> "#;

/// A fixed piece of the transfer confirmation's HTML body.
pub const SEND_CONFIRM_HTML_5: &'static str = r#"</li>
        </ul>
      </div>
      <div style="text-align:center;margin:22px 0;">
        <a href=""#;

/// A fixed piece of the transfer confirmation's HTML body.
pub const SEND_CONFIRM_HTML_6: &'static str = r#"" style="display:inline-block;background:#eab308;color:#ffffff;text-decoration:none;padding:14px 22px;border-radius:8px;font-weight:700;">
          🚀 Reply to execute
        </a>
      </div>
      <div style="background:#f1f5f9;border:1px solid #cbd5e1;border-radius:8px;padding:12px;">
        <div style="font-weight:700;margin-bottom:6px;">Reply Subject (required)</div>
        <code style="display:block;background:#fff;padding:10px;border-radius:6px;border:1px solid #e5e7eb;">"#;

/// A fixed piece of the transfer confirmation's HTML body.
pub const SEND_CONFIRM_HTML_7: &'static str = r#"</code>
        <div style="color:#64748b;font-size:12px;margin-top:6px;">⚠️ The transfer will be processed only if the subject exactly matches. The body can be empty.</div>
      </div>
    </div>
    <div style="padding:14px 20px;border-top:1px solid #e5e7eb;color:#6b7280;font-size:12px;text-align:center;">
      This message was generated for testing with Mailpit. Final confirmation happens by replying with DKIM.
    </div>
  </div>
</body></html>"#;

/// A fixed piece of the transfer confirmation's plain-text body.
pub const SEND_CONFIRM_PLAIN_0: &'static str = r#"以下の送金を実行しますか？
- 金額: "#;

/// A fixed piece of the transfer confirmation's plain-text body.
pub const SEND_CONFIRM_PLAIN_1: &'static str = " ";

/// A fixed piece of the transfer confirmation's plain-text body.
pub const SEND_CONFIRM_PLAIN_2: &'static str = r#"
- 受信者: "#;

/// A fixed piece of the transfer confirmation's plain-text body.
pub const SEND_CONFIRM_PLAIN_3: &'static str = r#"
- 送信者: "#;

/// A fixed piece of the transfer confirmation's plain-text body.
pub const SEND_CONFIRM_PLAIN_4: &'static str = r#"

返信用件名(重要): "#;

/// A fixed piece of the account creation subject.
pub const CREATION_SUBJECT_0: &'static str = "Email Wallet Account Creation. Code ";

/// A fixed piece of the account creation HTML body.
pub const CREATION_HTML_0: &'static str = r#"<!doctype html>
<html><body style="font-family: Arial, sans-serif; background:#f8fafc; padding:24px;">
  <div style="max-width:640px;margin:0 auto;background:#ffffff;border:1px solid #e5e7eb;border-radius:12px;overflow:hidden;">
    <div style="background:linear-gradient(135deg,#22c55e,#16a34a);color:#fff;padding:18px 20px;">
      <h2 style="margin:0;font-size:18px;">Create Your Email Wallet</h2>
    </div>
    <div style="padding:20px;">
      <p style="margin:0 0 12px 0;">"#;

/// A fixed piece of the account creation HTML body.
pub const CREATION_HTML_1: &'static str = r#", you can activate your wallet by replying to this email.</p>
      <div style="background:#ecfdf5;border:1px solid #10b981;border-radius:8px;padding:16px;">
        <div style="font-weight:700;margin-bottom:6px;">Reply Subject (required)</div>
        <code style="display:block;background:#fff;padding:10px;border-radius:6px;border:1px solid #e5e7eb;">"#;

/// A fixed piece of the account creation HTML body.
pub const CREATION_HTML_2: &'static str = r#"</code>
        <div style="color:#065f46;font-size:12px;margin-top:6px;">⚠️ The wallet will be created only if the subject exactly matches. The body can be empty.</div>
      </div>
      <div style="text-align:center;margin:22px 0;">
        <a href=""#;

/// A fixed piece of the account creation HTML body.
pub const CREATION_HTML_3: &'static str = r#"" style="display:inline-block;background:#10b981;color:#ffffff;text-decoration:none;padding:14px 22px;border-radius:8px;font-weight:700;">
          ✉️ Reply to create
        </a>
      </div>
      <p style="color:#6b7280;font-size:12px;">Code: "#;

/// A fixed piece of the account creation HTML body.
pub const CREATION_HTML_4: &'static str = r#"</p>
    </div>
    <div style="padding:14px 20px;border-top:1px solid #e5e7eb;color:#6b7280;font-size:12px;text-align:center;">
      This message was generated for testing with Mailpit. Final confirmation happens by replying with DKIM.
    </div>
  </div>
</body></html>"#;

/// A fixed piece of the account creation plain-text body.
pub const CREATION_PLAIN_0: &'static str = r#"ウォレット作成を開始します。
返信用件名(重要): "#;

/// A fixed piece of the account creation plain-text body.
pub const CREATION_PLAIN_1: &'static str = r#"
このメールにそのまま返信するか、本文のボタンを押してください。"#;

/// A fixed piece of a shortened wallet address.
pub const WALLET_SHORT_0: &'static str = "...";

/// A fixed piece of the sign-in HTML body.
pub const ALREADY_EXIST_HTML_0: &'static str = r#"<!doctype html>
<html><body style="font-family: Arial, sans-serif; background:#f8fafc; padding:24px;">
  <div style="max-width:640px;margin:0 auto;background:#ffffff;border:1px solid #e5e7eb;border-radius:12px;overflow:hidden;">
    <div style="background:linear-gradient(135deg,#6d28d9,#5b21b6);color:#fff;padding:18px 20px;">
      <h2 style="margin:0;font-size:18px;">Wallet Already Created</h2>
    </div>
    <div style="padding:20px;">
      <p style="margin:0 0 12px 0;">"#;

/// A fixed piece of the sign-in HTML body.
pub const ALREADY_EXIST_HTML_1: &'static str = r#", please sign in with the information below.</p>
      <div style="background:#f5f3ff;border:1px solid #c4b5fd;border-radius:8px;padding:16px;">
        <ul style="margin:0;padding-left:18px;">
          <li><strong>Account Code:</strong> "#;

/// A fixed piece of the sign-in HTML body.
pub const ALREADY_EXIST_HTML_2: &'static str = r#"</li>
          <li><strong>Wallet:</strong> <a href=""#;

/// A fixed piece of the sign-in HTML body.
pub const ALREADY_EXIST_HTML_3: &'static str = "/address/";

/// A fixed piece of the sign-in HTML body.
pub const ALREADY_EXIST_HTML_4: &'static str = r#"" style="color:#6d28d9;text-decoration:none;">"#;

/// A fixed piece of the sign-in HTML body.
pub const ALREADY_EXIST_HTML_5: &'static str = r#"</a></li>
        </ul>
      </div>
    </div>
  </div>
</body></html>"#;

/// A fixed piece of the sign-in plain-text body.
pub const ALREADY_EXIST_PLAIN_0: &'static str = r#"Your wallet is already created.
Account Code: "#;

/// A fixed piece of the sign-in plain-text body.
pub const ALREADY_EXIST_PLAIN_1: &'static str = r#"
Wallet: "#;

/// A fixed piece of the sign-in plain-text body.
pub const ALREADY_EXIST_PLAIN_2: &'static str = r#"
Explorer: "#;

/// A fixed piece of the sign-in plain-text body.
pub const ALREADY_EXIST_PLAIN_3: &'static str = "/address/";

/// A fixed piece of the account recovery HTML body.
pub const RECOVERY_HTML_0: &'static str = r#"<!doctype html>
<html><body style="font-family: Arial, sans-serif; background:#f8fafc; padding:24px;">
  <div style="max-width:640px;margin:0 auto;background:#ffffff;border:1px solid #e5e7eb;border-radius:12px;overflow:hidden;">
    <div style="background:linear-gradient(135deg,#0ea5e9,#0369a1);color:#fff;padding:18px 20px;">
      <h2 style="margin:0;font-size:18px;">Account Recovery</h2>
    </div>
    <div style="padding:20px;">
      <div style="background:#f0f9ff;border:1px solid #7dd3fc;border-radius:8px;padding:16px;">
        <ul style="margin:0;padding-left:18px;">
          <li><strong>Account Code:</strong> "#;

/// A fixed piece of the account recovery HTML body.
pub const RECOVERY_HTML_1: &'static str = r#"</li>
          <li><strong>Wallet:</strong> <a href=""#;

/// A fixed piece of the account recovery HTML body.
pub const RECOVERY_HTML_2: &'static str = "/address/";

/// A fixed piece of the account recovery HTML body.
pub const RECOVERY_HTML_3: &'static str = r#"" style="color:#0369a1;text-decoration:none;">"#;

/// A fixed piece of the account recovery HTML body.
pub const RECOVERY_HTML_4: &'static str = r#"</a></li>
        </ul>
      </div>
      <p style="color:#0f172a;font-size:12px;margin-top:8px;">Please keep your Account Code secure.</p>
    </div>
  </div>
</body></html>"#;

/// A fixed piece of the account recovery plain-text body.
pub const RECOVERY_PLAIN_0: &'static str = "Your account key is ";

/// A fixed piece of the account recovery plain-text body.
pub const RECOVERY_PLAIN_1: &'static str = r#". Keep it safe.
Wallet: "#;

/// A fixed piece of the account recovery plain-text body.
pub const RECOVERY_PLAIN_2: &'static str = "/address/";

/// A fixed piece of the acknowledgement subject.
pub const ACK_SUBJECT_0: &'static str = "Re: ";

/// A fixed piece of the acknowledgement HTML body.
pub const ACK_HTML_0: &'static str = r#"<!doctype html>
<html><body style="font-family: Arial, sans-serif; background:#f8fafc; padding:24px;">
  <div style="max-width:640px;margin:0 auto;background:#ffffff;border:1px solid #e5e7eb;border-radius:12px;overflow:hidden;">
    <div style="background:linear-gradient(135deg,#475569,#334155);color:#fff;padding:18px 20px;">
      <h2 style="margin:0;font-size:18px;">We received your request</h2>
    </div>
    <div style="padding:20px;">
      <p style="margin:0;">Hi "#;

/// A fixed piece of the acknowledgement HTML body.
pub const ACK_HTML_1: &'static str = r#",</p>
      <p style="margin:8px 0 0 0;">We have received your email with subject <strong>"#;

/// A fixed piece of the acknowledgement HTML body.
pub const ACK_HTML_2: &'static str = r#"</strong>.</p>
    </div>
  </div>
</body></html>"#;

/// A fixed piece of the acknowledgement plain-text body.
pub const ACK_PLAIN_0: &'static str = "Your email '";

/// A fixed piece of the acknowledgement plain-text body.
pub const ACK_PLAIN_1: &'static str = "' is received.";

/// A fixed piece of the void notification HTML body.
pub const VOIDED_HTML_0: &'static str = r#"<!doctype html>
<html><body style="font-family: Arial, sans-serif; background:#f8fafc; padding:24px;">
  <div style="max-width:640px;margin:0 auto;background:#ffffff;border:1px solid #e5e7eb;border-radius:12px;overflow:hidden;">
    <div style="background:linear-gradient(135deg,#ef4444,#b91c1c);color:#fff;padding:18px 20px;">
      <h2 style="margin:0;font-size:18px;">Transfer Voided</h2>
    </div>
    <div style="padding:20px;">
      <p style="margin:0 0 8px 0;">"#;

/// A fixed piece of the void notification HTML body.
pub const VOIDED_HTML_1: &'static str = r#", the following transaction has been voided.</p>
      <ul style="margin:0;padding-left:18px;">
        <li><a href=""#;

/// A fixed piece of the void notification HTML body.
pub const VOIDED_HTML_2: &'static str = "/tx/";

/// A fixed piece of the void notification HTML body.
pub const VOIDED_HTML_3: &'static str = r#"" style="color:#ef4444;text-decoration:none;">View transaction</a></li>
        <li><a href=""#;

/// A fixed piece of the void notification HTML body.
pub const VOIDED_HTML_4: &'static str = "/address/";

/// A fixed piece of the void notification HTML body.
pub const VOIDED_HTML_5: &'static str = r#"" style="color:#ef4444;text-decoration:none;">View wallet</a></li>
      </ul>
    </div>
  </div>
</body></html>"#;

/// A fixed piece of the void notification plain-text body.
pub const VOIDED_PLAIN_0: &'static str = "Tx: ";

/// A fixed piece of the void notification plain-text body.
pub const VOIDED_PLAIN_1: &'static str = "/tx/";

/// The reply subject that commands a transfer.
pub open spec fn send_subject_text(
    amount: Seq<char>,
    token: Seq<char>,
    recipient: Seq<char>,
) -> Seq<char> {
    SEND_SUBJECT_0@ + amount + SEND_SUBJECT_1@ + token + SEND_SUBJECT_2@ + recipient
}

/// A mailto link to the relayer with a percent-encoded subject.
pub open spec fn mailto_text(relayer_email: Seq<char>, encoded_subject: Seq<char>) -> Seq<char> {
    MAILTO_0@ + relayer_email + MAILTO_1@ + encoded_subject
}

/// The HTML body of a transfer confirmation.
pub open spec fn send_confirm_html_text(
    sender: Seq<char>,
    amount: Seq<char>,
    token: Seq<char>,
    recipient: Seq<char>,
    mailto: Seq<char>,
    command_subject: Seq<char>,
) -> Seq<char> {
    SEND_CONFIRM_HTML_0@
        + sender
        + SEND_CONFIRM_HTML_1@
        + amount
        + SEND_CONFIRM_HTML_2@
        + token
        + SEND_CONFIRM_HTML_3@
        + recipient
        + SEND_CONFIRM_HTML_4@
        + sender
        + SEND_CONFIRM_HTML_5@
        + mailto
        + SEND_CONFIRM_HTML_6@
        + command_subject
        + SEND_CONFIRM_HTML_7@
}

/// The plain-text body of a transfer confirmation.
pub open spec fn send_confirm_plain_text(
    amount: Seq<char>,
    token: Seq<char>,
    recipient: Seq<char>,
    sender: Seq<char>,
    command_subject: Seq<char>,
) -> Seq<char> {
    SEND_CONFIRM_PLAIN_0@
        + amount
        + SEND_CONFIRM_PLAIN_1@
        + token
        + SEND_CONFIRM_PLAIN_2@
        + recipient
        + SEND_CONFIRM_PLAIN_3@
        + sender
        + SEND_CONFIRM_PLAIN_4@
        + command_subject
}

/// The reply subject that creates a wallet.
pub open spec fn creation_subject_text(code: Seq<char>) -> Seq<char> {
    CREATION_SUBJECT_0@ + code
}

/// The HTML body of an account creation email.
pub open spec fn creation_html_text(
    sender: Seq<char>,
    code_subject: Seq<char>,
    mailto: Seq<char>,
    code_display: Seq<char>,
) -> Seq<char> {
    CREATION_HTML_0@
        + sender
        + CREATION_HTML_1@
        + code_subject
        + CREATION_HTML_2@
        + mailto
        + CREATION_HTML_3@
        + code_display
        + CREATION_HTML_4@
}

/// The plain-text body of an account creation email.
pub open spec fn creation_plain_text(code_subject: Seq<char>) -> Seq<char> {
    CREATION_PLAIN_0@ + code_subject + CREATION_PLAIN_1@
}

/// A shortened wallet address.
pub open spec fn wallet_short_text(head: Seq<char>, tail: Seq<char>) -> Seq<char> {
    head + WALLET_SHORT_0@ + tail
}

/// The HTML body of a sign-in email.
pub open spec fn already_exist_html_text(
    sender: Seq<char>,
    account_code: Seq<char>,
    explorer: Seq<char>,
    wallet: Seq<char>,
    wallet_short: Seq<char>,
) -> Seq<char> {
    ALREADY_EXIST_HTML_0@
        + sender
        + ALREADY_EXIST_HTML_1@
        + account_code
        + ALREADY_EXIST_HTML_2@
        + explorer
        + ALREADY_EXIST_HTML_3@
        + wallet
        + ALREADY_EXIST_HTML_4@
        + wallet_short
        + ALREADY_EXIST_HTML_5@
}

/// The plain-text body of a sign-in email.
pub open spec fn already_exist_plain_text(
    account_code: Seq<char>,
    wallet: Seq<char>,
    explorer: Seq<char>,
) -> Seq<char> {
    ALREADY_EXIST_PLAIN_0@
        + account_code
        + ALREADY_EXIST_PLAIN_1@
        + wallet
        + ALREADY_EXIST_PLAIN_2@
        + explorer
        + ALREADY_EXIST_PLAIN_3@
        + wallet
}

/// The HTML body of an account recovery email.
pub open spec fn recovery_html_text(
    account_code: Seq<char>,
    explorer: Seq<char>,
    wallet: Seq<char>,
    wallet_short: Seq<char>,
) -> Seq<char> {
    RECOVERY_HTML_0@
        + account_code
        + RECOVERY_HTML_1@
        + explorer
        + RECOVERY_HTML_2@
        + wallet
        + RECOVERY_HTML_3@
        + wallet_short
        + RECOVERY_HTML_4@
}

/// The plain-text body of an account recovery email.
pub open spec fn recovery_plain_text(
    account_code: Seq<char>,
    explorer: Seq<char>,
    wallet: Seq<char>,
) -> Seq<char> {
    RECOVERY_PLAIN_0@ + account_code + RECOVERY_PLAIN_1@ + explorer + RECOVERY_PLAIN_2@ + wallet
}

/// The subject of an acknowledgement.
pub open spec fn ack_subject_text(subject: Seq<char>) -> Seq<char> {
    ACK_SUBJECT_0@ + subject
}

/// The HTML body of an acknowledgement.
pub open spec fn ack_html_text(sender: Seq<char>, subject: Seq<char>) -> Seq<char> {
    ACK_HTML_0@ + sender + ACK_HTML_1@ + subject + ACK_HTML_2@
}

/// The plain-text body of an acknowledgement.
pub open spec fn ack_plain_text(subject: Seq<char>) -> Seq<char> {
    ACK_PLAIN_0@ + subject + ACK_PLAIN_1@
}

/// The HTML body of a void notification.
pub open spec fn voided_html_text(
    sender: Seq<char>,
    explorer: Seq<char>,
    tx: Seq<char>,
    wallet: Seq<char>,
) -> Seq<char> {
    VOIDED_HTML_0@
        + sender
        + VOIDED_HTML_1@
        + explorer
        + VOIDED_HTML_2@
        + tx
        + VOIDED_HTML_3@
        + explorer
        + VOIDED_HTML_4@
        + wallet
        + VOIDED_HTML_5@
}

/// The plain-text body of a void notification.
pub open spec fn voided_plain_text(explorer: Seq<char>, tx: Seq<char>) -> Seq<char> {
    VOIDED_PLAIN_0@ + explorer + VOIDED_PLAIN_1@ + tx
}

fn fill_send_subject(amount: &str, token: &str, recipient: &str) -> (r: String)
    ensures
        r@ == send_subject_text(amount@, token@, recipient@),
{
    let mut s = String::from_str(SEND_SUBJECT_0);
    s.append(amount);
    s.append(SEND_SUBJECT_1);
    s.append(token);
    s.append(SEND_SUBJECT_2);
    s.append(recipient);
    s
}

fn fill_mailto(relayer_email: &str, encoded_subject: &str) -> (r: String)
    ensures
        r@ == mailto_text(relayer_email@, encoded_subject@),
{
    let mut s = String::from_str(MAILTO_0);
    s.append(relayer_email);
    s.append(MAILTO_1);
    s.append(encoded_subject);
    s
}

fn fill_send_confirm_html(
    sender: &str,
    amount: &str,
    token: &str,
    recipient: &str,
    mailto: &str,
    command_subject: &str,
) -> (r: String)
    ensures
        r@ == send_confirm_html_text(sender@, amount@, token@, recipient@, mailto@, command_subject@),
{
    let mut s = String::from_str(SEND_CONFIRM_HTML_0);
    s.append(sender);
    s.append(SEND_CONFIRM_HTML_1);
    s.append(amount);
    s.append(SEND_CONFIRM_HTML_2);
    s.append(token);
    s.append(SEND_CONFIRM_HTML_3);
    s.append(recipient);
    s.append(SEND_CONFIRM_HTML_4);
    s.append(sender);
    s.append(SEND_CONFIRM_HTML_5);
    s.append(mailto);
    s.append(SEND_CONFIRM_HTML_6);
    s.append(command_subject);
    s.append(SEND_CONFIRM_HTML_7);
    s
}

fn fill_send_confirm_plain(
    amount: &str,
    token: &str,
    recipient: &str,
    sender: &str,
    command_subject: &str,
) -> (r: String)
    ensures
        r@ == send_confirm_plain_text(amount@, token@, recipient@, sender@, command_subject@),
{
    let mut s = String::from_str(SEND_CONFIRM_PLAIN_0);
    s.append(amount);
    s.append(SEND_CONFIRM_PLAIN_1);
    s.append(token);
    s.append(SEND_CONFIRM_PLAIN_2);
    s.append(recipient);
    s.append(SEND_CONFIRM_PLAIN_3);
    s.append(sender);
    s.append(SEND_CONFIRM_PLAIN_4);
    s.append(command_subject);
    s
}

fn fill_creation_subject(code: &str) -> (r: String)
    ensures
        r@ == creation_subject_text(code@),
{
    let mut s = String::from_str(CREATION_SUBJECT_0);
    s.append(code);
    s
}

fn fill_creation_html(
    sender: &str,
    code_subject: &str,
    mailto: &str,
    code_display: &str,
) -> (r: String)
    ensures
        r@ == creation_html_text(sender@, code_subject@, mailto@, code_display@),
{
    let mut s = String::from_str(CREATION_HTML_0);
    s.append(sender);
    s.append(CREATION_HTML_1);
    s.append(code_subject);
    s.append(CREATION_HTML_2);
    s.append(mailto);
    s.append(CREATION_HTML_3);
    s.append(code_display);
    s.append(CREATION_HTML_4);
    s
}

fn fill_creation_plain(code_subject: &str) -> (r: String)
    ensures
        r@ == creation_plain_text(code_subject@),
{
    let mut s = String::from_str(CREATION_PLAIN_0);
    s.append(code_subject);
    s.append(CREATION_PLAIN_1);
    s
}

fn fill_wallet_short(head: &str, tail: &str) -> (r: String)
    ensures
        r@ == wallet_short_text(head@, tail@),
{
    let mut s = String::from_str(head);
    s.append(WALLET_SHORT_0);
    s.append(tail);
    s
}

fn fill_already_exist_html(
    sender: &str,
    account_code: &str,
    explorer: &str,
    wallet: &str,
    wallet_short: &str,
) -> (r: String)
    ensures
        r@ == already_exist_html_text(sender@, account_code@, explorer@, wallet@, wallet_short@),
{
    let mut s = String::from_str(ALREADY_EXIST_HTML_0);
    s.append(sender);
    s.append(ALREADY_EXIST_HTML_1);
    s.append(account_code);
    s.append(ALREADY_EXIST_HTML_2);
    s.append(explorer);
    s.append(ALREADY_EXIST_HTML_3);
    s.append(wallet);
    s.append(ALREADY_EXIST_HTML_4);
    s.append(wallet_short);
    s.append(ALREADY_EXIST_HTML_5);
    s
}

fn fill_already_exist_plain(account_code: &str, wallet: &str, explorer: &str) -> (r: String)
    ensures
        r@ == already_exist_plain_text(account_code@, wallet@, explorer@),
{
    let mut s = String::from_str(ALREADY_EXIST_PLAIN_0);
    s.append(account_code);
    s.append(ALREADY_EXIST_PLAIN_1);
    s.append(wallet);
    s.append(ALREADY_EXIST_PLAIN_2);
    s.append(explorer);
    s.append(ALREADY_EXIST_PLAIN_3);
    s.append(wallet);
    s
}

fn fill_recovery_html(
    account_code: &str,
    explorer: &str,
    wallet: &str,
    wallet_short: &str,
) -> (r: String)
    ensures
        r@ == recovery_html_text(account_code@, explorer@, wallet@, wallet_short@),
{
    let mut s = String::from_str(RECOVERY_HTML_0);
    s.append(account_code);
    s.append(RECOVERY_HTML_1);
    s.append(explorer);
    s.append(RECOVERY_HTML_2);
    s.append(wallet);
    s.append(RECOVERY_HTML_3);
    s.append(wallet_short);
    s.append(RECOVERY_HTML_4);
    s
}

fn fill_recovery_plain(account_code: &str, explorer: &str, wallet: &str) -> (r: String)
    ensures
        r@ == recovery_plain_text(account_code@, explorer@, wallet@),
{
    let mut s = String::from_str(RECOVERY_PLAIN_0);
    s.append(account_code);
    s.append(RECOVERY_PLAIN_1);
    s.append(explorer);
    s.append(RECOVERY_PLAIN_2);
    s.append(wallet);
    s
}

fn fill_ack_subject(subject: &str) -> (r: String)
    ensures
        r@ == ack_subject_text(subject@),
{
    let mut s = String::from_str(ACK_SUBJECT_0);
    s.append(subject);
    s
}

fn fill_ack_html(sender: &str, subject: &str) -> (r: String)
    ensures
        r@ == ack_html_text(sender@, subject@),
{
    let mut s = String::from_str(ACK_HTML_0);
    s.append(sender);
    s.append(ACK_HTML_1);
    s.append(subject);
    s.append(ACK_HTML_2);
    s
}

fn fill_ack_plain(subject: &str) -> (r: String)
    ensures
        r@ == ack_plain_text(subject@),
{
    let mut s = String::from_str(ACK_PLAIN_0);
    s.append(subject);
    s.append(ACK_PLAIN_1);
    s
}

fn fill_voided_html(sender: &str, explorer: &str, tx: &str, wallet: &str) -> (r: String)
    ensures
        r@ == voided_html_text(sender@, explorer@, tx@, wallet@),
{
    let mut s = String::from_str(VOIDED_HTML_0);
    s.append(sender);
    s.append(VOIDED_HTML_1);
    s.append(explorer);
    s.append(VOIDED_HTML_2);
    s.append(tx);
    s.append(VOIDED_HTML_3);
    s.append(explorer);
    s.append(VOIDED_HTML_4);
    s.append(wallet);
    s.append(VOIDED_HTML_5);
    s
}

fn fill_voided_plain(explorer: &str, tx: &str) -> (r: String)
    ensures
        r@ == voided_plain_text(explorer@, tx@),
{
    let mut s = String::from_str(VOIDED_PLAIN_0);
    s.append(explorer);
    s.append(VOIDED_PLAIN_1);
    s.append(tx);
    s
}

/// The digit of `d` as a one-character string.
fn hex_digit(d: u128) -> (r: &'static str)
    requires
        d < 16,
    ensures
        r@ == seq![hex_char(d as nat)],
{
    let table = "0123456789abcdef";
    proof {
        reveal_strlit("0123456789abcdef");
        assert(table@ =~= hex_digits());
    }
    let i = d as usize;
    let r = table.substring_char(i, i + 1);
    proof {
        assert(r@ =~= seq![hex_char(d as nat)]);
    }
    r
}

/// The lowercase hexadecimal numeral of `n`.
fn hex_numeral(n: u128) -> (r: String)
    ensures
        r@ == hex_of(n as nat),
    decreases n,
{
    if n < 16 {
        String::from_str(hex_digit(n))
    } else {
        let mut s = hex_numeral(n / 16);
        s.append(hex_digit(n % 16));
        s
    }
}

/// The code of an account creation email made at `nanos` nanoseconds past
/// the epoch: the first sixteen digits of its lowercase hexadecimal numeral.
pub fn hex_code(nanos: u128) -> (r: String)
    ensures
        r@ == hex_code_of(nanos),
{
    let s = hex_numeral(nanos);
    let len = s.as_str().unicode_len();
    if len <= 16 {
        s
    } else {
        String::from_str(s.as_str().substring_char(0, 16))
    }
}

/// Relies on std::time::SystemTime::now for the time in nanoseconds since
/// the Unix epoch, zero where the clock reads earlier. Nothing is promised of
/// the value.
#[verifier::external_body]
fn unix_time_nanos() -> u128 {
    std::time::SystemTime::now().duration_since(std::time::UNIX_EPOCH).map(|d| d.as_nanos()).unwrap_or(
        0,
    )
}

/// A fresh account creation code, read from the clock.
fn gen_hex_code() -> (r: String)
    ensures
        exists|nanos: u128| r@ == #[trigger] hex_code_of(nanos),
{
    hex_code(unix_time_nanos())
}

/// `w` cut to its first six and last four bytes.
fn short_wallet(w: &str) -> (r: String)
    requires
        wallet_cuttable(w),
    ensures
        r@ == short_wallet_text(w.spec_bytes()),
{
    broadcast use encode_utf8_decode_utf8;

    let len = w.len();
    let (head, _) = w.split_at(6);
    let (_, tail) = w.split_at(len - 4);
    proof {
        assert(decode_utf8(encode_utf8(head@)) == head@);
        assert(decode_utf8(encode_utf8(tail@)) == tail@);
    }
    fill_wallet_short(head, tail)
}

/// An email to `sender` that asks them to confirm the transfer of `amount`
/// `token` to `recipient` by replying to `relayer_email` with the subject
/// that commands it.
pub fn build_send_confirm_email(
    sender: &str,
    amount: &str,
    token: &str,
    recipient: &str,
    relayer_email: &str,
) -> (r: EmailMessage)
    ensures
        r.to@ == sender@,
        r.subject@ == send_subject_text(amount@, token@, recipient@),
        r.body_plain@ == send_confirm_plain_text(amount@, token@, recipient@, sender@, r.subject@),
        r.body_html@ == send_confirm_html_text(
            sender@,
            amount@,
            token@,
            recipient@,
            mailto_text(relayer_email@, pct_encoded(r.subject@)),
            r.subject@,
        ),
        bare(r),
{
    let command_subject = fill_send_subject(amount, token, recipient);
    let encoded = pct_encode(command_subject.as_str());
    let mailto = fill_mailto(relayer_email, encoded.as_str());
    let body_html = fill_send_confirm_html(
        sender,
        amount,
        token,
        recipient,
        mailto.as_str(),
        command_subject.as_str(),
    );
    let body_plain = fill_send_confirm_plain(
        amount,
        token,
        recipient,
        sender,
        command_subject.as_str(),
    );
    EmailMessage {
        to: String::from_str(sender),
        subject: command_subject,
        body_plain,
        body_html,
        reference: None,
        reply_to: None,
        body_attachments: None,
    }
}

/// `m` is the account creation email to `sender` with code `code`, whose
/// reply to `relayer_email` creates the wallet.
pub open spec fn account_creation_message(
    m: EmailMessage,
    sender: Seq<char>,
    relayer_email: Seq<char>,
    code: Seq<char>,
) -> bool {
    &&& m.to@ == sender
    &&& m.subject@ == creation_subject_text(code)
    &&& m.body_plain@ == creation_plain_text(m.subject@)
    &&& m.body_html@ == creation_html_text(
        sender,
        m.subject@,
        mailto_text(relayer_email, pct_encoded(m.subject@)),
        code,
    )
    &&& bare(m)
}

/// The account creation email to `sender` with the code `code`.
pub fn build_account_creation_email_with_code(sender: &str, relayer_email: &str, code: &str) -> (r:
    EmailMessage)
    ensures
        account_creation_message(r, sender@, relayer_email@, code@),
{
    let code_subject = fill_creation_subject(code);
    let encoded = pct_encode(code_subject.as_str());
    let mailto = fill_mailto(relayer_email, encoded.as_str());
    let body_html = fill_creation_html(sender, code_subject.as_str(), mailto.as_str(), code);
    let body_plain = fill_creation_plain(code_subject.as_str());
    EmailMessage {
        to: String::from_str(sender),
        subject: code_subject,
        body_plain,
        body_html,
        reference: None,
        reply_to: None,
        body_attachments: None,
    }
}

/// An email that lets `sender` create a wallet by replying to
/// `relayer_email` with a subject carrying a fresh code from the clock.
pub fn build_account_creation_email(sender: &str, relayer_email: &str) -> (r: EmailMessage)
    ensures
        exists|nanos: u128|
            account_creation_message(r, sender@, relayer_email@, #[trigger] hex_code_of(nanos)),
{
    let code = gen_hex_code();
    let ghost nanos = choose|nanos: u128| code@ == hex_code_of(nanos);
    let r = build_account_creation_email_with_code(sender, relayer_email, code.as_str());
    proof {
        assert(account_creation_message(r, sender@, relayer_email@, hex_code_of(nanos)));
    }
    r
}

/// An email telling `sender` that their wallet exists, with its account
/// code and a link to the wallet on `explorer`.
pub fn build_account_already_exist_email(
    sender: &str,
    account_code: &str,
    wallet_addr: &str,
    explorer: &str,
) -> (r: EmailMessage)
    requires
        wallet_cuttable(wallet_addr),
    ensures
        r.to@ == sender@,
        r.subject@ == sign_in_subject(),
        r.body_plain@ == already_exist_plain_text(account_code@, wallet_addr@, explorer@),
        r.body_html@ == already_exist_html_text(
            sender@,
            account_code@,
            explorer@,
            wallet_addr@,
            short_wallet_text(wallet_addr.spec_bytes()),
        ),
        bare(r),
{
    let wallet_short = short_wallet(wallet_addr);
    let body_html = fill_already_exist_html(
        sender,
        account_code,
        explorer,
        wallet_addr,
        wallet_short.as_str(),
    );
    EmailMessage {
        to: String::from_str(sender),
        subject: String::from_str(SIGN_IN_SUBJECT),
        body_plain: fill_already_exist_plain(account_code, wallet_addr, explorer),
        body_html,
        reference: None,
        reply_to: None,
        body_attachments: None,
    }
}

/// An email that sends `sender` their account code again, with a link to
/// the wallet on `explorer`.
pub fn build_account_recovery_email(
    sender: &str,
    account_code: &str,
    wallet_addr: &str,
    explorer: &str,
) -> (r: EmailMessage)
    requires
        wallet_cuttable(wallet_addr),
    ensures
        r.to@ == sender@,
        r.subject@ == recovery_subject(),
        r.body_plain@ == recovery_plain_text(account_code@, explorer@, wallet_addr@),
        r.body_html@ == recovery_html_text(
            account_code@,
            explorer@,
            wallet_addr@,
            short_wallet_text(wallet_addr.spec_bytes()),
        ),
        bare(r),
{
    let wallet_short = short_wallet(wallet_addr);
    let body_html = fill_recovery_html(account_code, explorer, wallet_addr, wallet_short.as_str());
    EmailMessage {
        to: String::from_str(sender),
        subject: String::from_str(RECOVERY_SUBJECT),
        body_plain: fill_recovery_plain(account_code, explorer, wallet_addr),
        body_html,
        reference: None,
        reply_to: None,
        body_attachments: None,
    }
}

/// An email telling `sender` that their email with subject
/// `original_subject` was received.
pub fn build_ack_email(sender: &str, original_subject: &str) -> (r: EmailMessage)
    ensures
        r.to@ == sender@,
        r.subject@ == ack_subject_text(original_subject@),
        r.body_plain@ == ack_plain_text(original_subject@),
        r.body_html@ == ack_html_text(sender@, original_subject@),
        bare(r),
{
    EmailMessage {
        to: String::from_str(sender),
        subject: fill_ack_subject(original_subject),
        body_plain: fill_ack_plain(original_subject),
        body_html: fill_ack_html(sender, original_subject),
        reference: None,
        reply_to: None,
        body_attachments: None,
    }
}

/// An email telling `sender` that a transfer was voided, with links to the
/// transaction and to the wallet on `explorer`.
pub fn build_voided_email(sender: &str, wallet_addr: &str, explorer: &str, tx_hash: &str) -> (r:
    EmailMessage)
    ensures
        r.to@ == sender@,
        r.subject@ == voided_subject(),
        r.body_plain@ == voided_plain_text(explorer@, tx_hash@),
        r.body_html@ == voided_html_text(sender@, explorer@, tx_hash@, wallet_addr@),
        bare(r),
{
    EmailMessage {
        to: String::from_str(sender),
        subject: String::from_str(VOIDED_SUBJECT),
        body_plain: fill_voided_plain(explorer, tx_hash),
        body_html: fill_voided_html(sender, explorer, tx_hash, wallet_addr),
        reference: None,
        reply_to: None,
        body_attachments: None,
    }
}

} // verus!
