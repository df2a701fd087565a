use rpc_endpoint::{decode_block_number, format_hex, hex_to_decimal, RpcError};

#[test]
fn hex_plain() {
    assert_eq!(hex_to_decimal("0xff"), Ok(255));
}

#[test]
fn hex_stray_quote_tolerated() {
    assert_eq!(hex_to_decimal("\"0x10\""), Ok(16));
    assert_eq!(hex_to_decimal("0x10\""), Ok(16));
}

#[test]
fn hex_invalid_digits() {
    assert_eq!(hex_to_decimal("zz"), Err(RpcError::ParseError));
    assert_eq!(hex_to_decimal("0x12g4"), Err(RpcError::ParseError));
}

#[test]
fn hex_without_prefix() {
    assert_eq!(hex_to_decimal("ff"), Ok(255));
    assert_eq!(hex_to_decimal("0"), Ok(0));
}

#[test]
fn hex_mixed_case() {
    assert_eq!(hex_to_decimal("0xAbC"), Ok(2748));
}

#[test]
fn hex_empty_fails() {
    assert_eq!(hex_to_decimal(""), Err(RpcError::ParseError));
    assert_eq!(hex_to_decimal("0x"), Err(RpcError::ParseError));
    assert_eq!(hex_to_decimal("\"\""), Err(RpcError::ParseError));
}

#[test]
fn hex_largest_value() {
    assert_eq!(hex_to_decimal("0xffffffffffffffff"), Ok(u64::MAX));
}

#[test]
fn hex_overflow_fails() {
    assert_eq!(hex_to_decimal("0x10000000000000000"), Err(RpcError::ParseError));
}

#[test]
fn fixed_window_extracts_hex() {
    let text = "{\"jsonrpc\":\"2.0\",\"id\":1,\"result\":\"0x113f756\"}";
    assert_eq!(text.len(), 45);
    assert_eq!(format_hex(text), Ok("0x113f756"));
}

#[test]
fn fixed_window_decodes_block_number() {
    let text = "{\"jsonrpc\":\"2.0\",\"id\":1,\"result\":\"0x113f756\"}";
    assert_eq!(decode_block_number(text), Ok(18085718));
}

#[test]
fn short_text_is_out_of_bounds() {
    assert_eq!(format_hex(""), Err(RpcError::OutOfBounds));
    assert_eq!(format_hex("short"), Err(RpcError::OutOfBounds));
    let thirty_five = "aaaaaaaaaaaaaaaaaaaaaaaaaaaaaaaaaaa";
    assert_eq!(thirty_five.len(), 35);
    assert_eq!(format_hex(thirty_five), Err(RpcError::OutOfBounds));
    assert_eq!(decode_block_number(thirty_five), Err(RpcError::OutOfBounds));
}

#[test]
fn thirty_six_chars_is_in_bounds() {
    let thirty_six = "aaaaaaaaaaaaaaaaaaaaaaaaaaaaaaaaaa16";
    assert_eq!(thirty_six.len(), 36);
    // Offset 34 up to length minus 2 leaves nothing: an empty hex string.
    assert_eq!(format_hex(thirty_six), Ok(""));
    assert_eq!(decode_block_number(thirty_six), Err(RpcError::ParseError));
}
