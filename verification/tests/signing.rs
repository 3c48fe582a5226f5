use exchange_client::signing::{base64_of_text, sign_base64, sign_hex};

#[test]
fn binance_signature_of_the_pinned_query() {
    let signature = sign_hex("s", "symbol=BTC&timestamp=1000");
    assert_eq!(
        signature,
        "5c5f421b9a221151cab429a10e2bf2e8c4611d33d35e97e003920df5b6a231b3"
    );
}

#[test]
fn hex_signature_is_lower_case_and_two_digits_for_each_byte() {
    let signature = sign_hex("sec", "timestamp=1700000000000");
    assert_eq!(signature.len(), 64);
    assert!(signature
        .chars()
        .all(|c| c.is_ascii_digit() || ('a'..='f').contains(&c)));
    assert_eq!(
        signature,
        "d54ae89989be83bbf026cf4d1758899399bb97f4b395cab3f82753ee7c093e45"
    );
}

#[test]
fn signature_changes_with_the_secret_and_with_the_text() {
    let a = sign_hex("s", "symbol=BTC&timestamp=1000");
    let b = sign_hex("t", "symbol=BTC&timestamp=1000");
    let c = sign_hex("s", "symbol=BTC&timestamp=1001");
    assert_ne!(a, b);
    assert_ne!(a, c);
}

#[test]
fn signing_the_same_text_twice_gives_the_same_signature() {
    assert_eq!(sign_hex("k", "a=1"), sign_hex("k", "a=1"));
    assert_eq!(sign_base64("k", "a=1"), sign_base64("k", "a=1"));
}

#[test]
fn okx_signature_of_the_pinned_pre_hash() {
    let signature = sign_base64(
        "secret",
        "2024-01-01T00:00:00.000ZGET/api/v5/account/balance",
    );
    assert_eq!(signature, "dfI+ViVVBgfRPWcGyH3gM3bM/DTyiqUqZys/Y9UbsFQ=");
}

#[test]
fn base64_of_a_text_is_padded() {
    assert_eq!(base64_of_text("hello"), "aGVsbG8=");
    assert_eq!(base64_of_text("app:shh"), "YXBwOnNoaA==");
    assert_eq!(base64_of_text(""), "");
}

#[test]
fn signatures_have_a_fixed_length() {
    for (secret, text) in [("", ""), ("s", "a"), ("a long secret, longer than a block of the hash: 0123456789012345678901234567890123456789", "x=1&y=2")] {
        assert_eq!(sign_hex(secret, text).chars().count(), 64);
        assert_eq!(sign_base64(secret, text).chars().count(), 44);
    }
}

#[test]
fn base64_has_four_characters_for_every_three_bytes() {
    for text in ["", "a", "ab", "abc", "abcd", "abcde", "abcdef", "é"] {
        let encoded = base64_of_text(text);
        assert_eq!(encoded.chars().count(), 4 * ((text.len() + 2) / 3), "{:?}", text);
    }
}
