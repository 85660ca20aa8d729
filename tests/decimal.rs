use cw721_custom::decimal::{parse_token_id, token_id_string};

#[test]
fn token_ids_render_in_decimal() {
    assert_eq!(token_id_string(0), "0");
    assert_eq!(token_id_string(9), "9");
    assert_eq!(token_id_string(10), "10");
    assert_eq!(token_id_string(1907), "1907");
    assert_eq!(token_id_string(u128::MAX), u128::MAX.to_string());
}

#[test]
fn token_ids_parse_from_decimal() {
    assert_eq!(parse_token_id("0"), Some(0));
    assert_eq!(parse_token_id("19"), Some(19));
    assert_eq!(parse_token_id("007"), Some(7));
    assert_eq!(parse_token_id(&u128::MAX.to_string()), Some(u128::MAX));
}

#[test]
fn malformed_token_ids_are_refused() {
    assert_eq!(parse_token_id(""), None);
    assert_eq!(parse_token_id("1a"), None);
    assert_eq!(parse_token_id("-1"), None);
    assert_eq!(parse_token_id(" 1"), None);
    assert_eq!(parse_token_id("340282366920938463463374607431768211456"), None);
}
