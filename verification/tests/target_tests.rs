use megalith_lsps2::target::{DecodedInvoice, PaymentTarget, TargetError};

const NO_AMOUNT: &str = "lnbc1pvjluezsp5zyg3zyg3zyg3zyg3zyg3zyg3zyg3zyg3zyg3zyg3zyg3zyg3zygspp5qqqsyqcyq5rqwzqfqqqsyqcyq5rqwzqfqqqsyqcyq5rqwzqfqypqdpl2pkx2ctnv5sxxmmwwd5kgetjypeh2ursdae8g6twvus8g6rfwvs8qun0dfjkxaq9qrsgq357wnc5r2ueh7ck6q93dj32dlqnls087fxdwk8qakdyafkq3yap9us6v52vjjsrvywa6rt52cm9r9zqt8r2t7mlcwspyetp5h2tztugp9lfyql";
const COFFEE: &str = "lnbc2500u1pvjluezsp5zyg3zyg3zyg3zyg3zyg3zyg3zyg3zyg3zyg3zyg3zyg3zyg3zygspp5qqqsyqcyq5rqwzqfqqqsyqcyq5rqwzqfqqqsyqcyq5rqwzqfqypqdq5xysxxatsyp3k7enxv4jsxqzpu9qrsgquk0rl77nj30yxdy8j9vdx85fkpmdla2087ne0xh8nhedh8w27kyke0lp53ut353s06fv3qfegext0eh0ymjpf39tuven09sam30g4vgpfna3rh";

#[test]
fn invoice_with_amount_becomes_a_target() {
    let t = PaymentTarget::parse(COFFEE).unwrap();
    assert_eq!(t.amount_msat(), 250_000_000);
    assert_eq!(t.invoice().as_str(), COFFEE);
    assert_eq!(t.description().as_deref(), Some("1 cup coffee"));
    assert_eq!(t.requirement(), Some(255_010_000));
}

#[test]
fn invoice_without_amount_is_rejected() {
    assert_eq!(PaymentTarget::parse(NO_AMOUNT), Err(TargetError::NoAmount));
}

#[test]
fn text_that_is_no_invoice_is_rejected() {
    for text in ["", "lnbc", "hello", "bc1qvzvkjn4q3nszqxrv3nraga2r822xjty3ykvkuw"] {
        assert_eq!(PaymentTarget::parse(text), Err(TargetError::InvalidInvoice), "{:?}", text);
    }
}

#[test]
fn invoice_with_a_damaged_checksum_is_rejected() {
    let mut damaged = String::from(COFFEE);
    damaged.pop();
    damaged.push('q');
    assert_eq!(PaymentTarget::parse(&damaged), Err(TargetError::InvalidInvoice));
}

#[test]
fn target_errors_exit_with_invalid_input() {
    assert_eq!(TargetError::InvalidInvoice.exit_code(), 2);
    assert_eq!(TargetError::NoAmount.exit_code(), 2);
}

#[test]
fn from_decoded_rejects_what_did_not_decode() {
    assert_eq!(
        PaymentTarget::from_decoded(String::from("x"), None),
        Err(TargetError::InvalidInvoice)
    );
}

#[test]
fn from_decoded_rejects_a_missing_amount() {
    let d = DecodedInvoice { amount_msat: None, description: Some(String::from("tip")) };
    assert_eq!(
        PaymentTarget::from_decoded(String::from("x"), Some(d)),
        Err(TargetError::NoAmount)
    );
}

#[test]
fn from_decoded_keeps_text_amount_and_description() {
    let d = DecodedInvoice { amount_msat: Some(10_000_000), description: None };
    let t = PaymentTarget::from_decoded(String::from("lnbc..."), Some(d)).unwrap();
    assert_eq!(t.invoice().as_str(), "lnbc...");
    assert_eq!(t.amount_msat(), 10_000_000);
    assert_eq!(*t.description(), None);
    assert_eq!(t.requirement(), Some(10_210_000));

    let d = DecodedInvoice { amount_msat: Some(0), description: Some(String::from("zero")) };
    let t = PaymentTarget::from_decoded(String::from("y"), Some(d)).unwrap();
    assert_eq!(t.amount_msat(), 0);
    assert_eq!(t.description().as_deref(), Some("zero"));
    assert_eq!(t.requirement(), Some(10_000));
}

#[test]
fn requirement_that_does_not_fit_is_none() {
    let d = DecodedInvoice { amount_msat: Some(u64::MAX), description: None };
    let t = PaymentTarget::from_decoded(String::from("y"), Some(d)).unwrap();
    assert_eq!(t.requirement(), None);
}
