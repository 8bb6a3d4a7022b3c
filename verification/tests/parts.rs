use odos_sor::address::Address;
use odos_sor::api::{SwapContext, TransactionData};
use odos_sor::error::OdosError;
use odos_sor::hex::decode;
use odos_sor::json::{parse, JsonValue};
use odos_sor::sor::{base_transaction, quote_response, transaction_data};
use odos_sor::text::decimal_string;
use odos_sor::value::{choose_reading, parse_value, U256};

fn small(n: u64) -> U256 {
    U256::from_limbs([n, 0, 0, 0])
}

#[test]
fn decimal_string_of_some_numbers() {
    assert_eq!(decimal_string(0), "0");
    assert_eq!(decimal_string(7), "7");
    assert_eq!(decimal_string(9), "9");
    assert_eq!(decimal_string(10), "10");
    assert_eq!(decimal_string(404), "404");
    assert_eq!(decimal_string(1000), "1000");
    assert_eq!(decimal_string(65535), "65535");
}

#[test]
fn decimal_string_agrees_with_std() {
    for n in 0..=u16::MAX {
        assert_eq!(decimal_string(n), format!("{}", n));
    }
}

#[test]
fn hex_decode_with_and_without_prefix() {
    assert_eq!(decode("0x1234"), Ok(vec![0x12, 0x34]));
    assert_eq!(decode("1234"), Ok(vec![0x12, 0x34]));
    assert_eq!(decode("0X1234"), Ok(vec![0x12, 0x34]));
    assert_eq!(decode("0xAbCdEf09"), Ok(vec![0xab, 0xcd, 0xef, 0x09]));
    assert_eq!(decode("0x"), Ok(vec![]));
    assert_eq!(decode(""), Ok(vec![]));
    assert_eq!(decode("00ff"), Ok(vec![0x00, 0xff]));
}

#[test]
fn hex_decode_refuses_what_is_no_hex() {
    for text in ["0", "0x1", "123", "0xg0", "zz", "0x 12", "0x0x12", "12\u{e9}", "0x12\u{20ac}4"] {
        assert!(decode(text).is_err(), "{}", text);
    }
}

#[test]
fn parse_value_reads_decimal_first() {
    assert_eq!(parse_value("0"), Some(U256::zero()));
    assert_eq!(parse_value("10"), Some(small(10)));
    assert_eq!(parse_value("1000000000000000000"), Some(small(1_000_000_000_000_000_000)));
    assert_eq!(parse_value("18446744073709551616"), Some(U256::from_limbs([0, 1, 0, 0])));
}

#[test]
fn parse_value_reads_hexadecimal_next() {
    assert_eq!(parse_value("0x10"), Some(small(16)));
    assert_eq!(parse_value("ff"), Some(small(255)));
    assert_eq!(parse_value("0xde0b6b3a7640000"), Some(small(1_000_000_000_000_000_000)));
}

#[test]
fn parse_value_reads_the_largest_number() {
    let text = "115792089237316195423570985008687907853269984665640564039457584007913129639935";
    assert_eq!(parse_value(text), Some(U256::from_limbs([u64::MAX; 4])));
}

#[test]
fn parse_value_refuses_what_is_no_number() {
    assert_eq!(parse_value("much"), None);
    assert_eq!(parse_value("-1"), None);
    assert_eq!(parse_value("1.5"), None);
    assert_eq!(parse_value("0x0x1"), None);
    let too_large = "0x10000000000000000000000000000000000000000000000000000000000000000";
    assert_eq!(parse_value(too_large), None);
}

#[test]
fn choose_reading_prefers_decimal() {
    assert_eq!(choose_reading(Some(small(1)), Some(small(2))), Some(small(1)));
    assert_eq!(choose_reading(None, Some(small(2))), Some(small(2)));
    assert_eq!(choose_reading(Some(small(1)), None), Some(small(1)));
    assert_eq!(choose_reading(None, None), None);
}

#[test]
fn u256_limbs_go_in_and_out() {
    assert_eq!(U256::from_limbs([1, 2, 3, 4]).into_limbs(), [1, 2, 3, 4]);
    assert_eq!(U256::zero().into_limbs(), [0, 0, 0, 0]);
}

#[test]
fn address_text_is_checksummed() {
    let a = Address::new([
        0xd8, 0xda, 0x6b, 0xf2, 0x69, 0x64, 0xaf, 0x9d, 0x7e, 0xed, 0x9e, 0x03, 0xe5, 0x34, 0x15,
        0xd3, 0x7a, 0xa9, 0x60, 0x45,
    ]);
    assert_eq!(a.to_checksum(), "0xd8dA6BF26964aF9D7eEd9e03E53415D37aA96045");
    assert_eq!(a.to_checksum().len(), 42);
    assert_eq!(Address::new([0; 20]).to_checksum(), "0x0000000000000000000000000000000000000000");
    assert_eq!(a.as_bytes()[0], 0xd8);
}

#[test]
fn json_parse_gives_the_document() {
    let doc = parse("{\"a\":\"x\",\"b\":[1,true,null],\"c\":{\"d\":2.5}}").unwrap();
    assert_eq!(doc.get("a"), Some(&JsonValue::Text("x".to_string())));
    assert_eq!(
        doc.get("b"),
        Some(&JsonValue::Array(vec![
            JsonValue::Number("1".to_string()),
            JsonValue::Bool(true),
            JsonValue::Null,
        ]))
    );
    assert_eq!(
        doc.get("c"),
        Some(&JsonValue::Object(vec![("d".to_string(), JsonValue::Number("2.5".to_string()))]))
    );
    assert_eq!(doc.get("d"), None);
    assert_eq!(doc.get("a").unwrap().as_text(), Some(&"x".to_string()));
    assert_eq!(doc.get("b").unwrap().as_text(), None);
    assert_eq!(doc.get("b").unwrap().get("a"), None);
}

#[test]
fn json_parse_refuses_what_is_no_json() {
    assert!(parse("").is_err());
    assert!(parse("{").is_err());
    assert!(parse("{\"a\":}").is_err());
    assert!(parse("nul").is_err());
}

#[test]
fn json_get_takes_the_first_entry_of_a_key() {
    let doc = JsonValue::Object(vec![
        ("k".to_string(), JsonValue::Text("first".to_string())),
        ("other".to_string(), JsonValue::Null),
        ("k".to_string(), JsonValue::Text("second".to_string())),
    ]);
    assert_eq!(doc.get("k"), Some(&JsonValue::Text("first".to_string())));
    assert_eq!(doc.get("other"), Some(&JsonValue::Null));
    assert_eq!(doc.get(""), None);
    assert_eq!(JsonValue::Object(vec![]).get("k"), None);
}

#[test]
fn transaction_data_from_a_document() {
    let tx = JsonValue::Object(vec![
        ("gas".to_string(), JsonValue::Number("1".to_string())),
        ("value".to_string(), JsonValue::Text("5".to_string())),
        ("data".to_string(), JsonValue::Text("0x00".to_string())),
    ]);
    let doc = JsonValue::Object(vec![("transaction".to_string(), tx)]);
    assert_eq!(
        transaction_data(&doc),
        Ok(TransactionData { data: "0x00".to_string(), value: "5".to_string() })
    );
    assert!(matches!(transaction_data(&JsonValue::Null), Err(OdosError::Decoding(_))));
    let doc = JsonValue::Object(vec![("transaction".to_string(), JsonValue::Object(vec![]))]);
    assert!(matches!(transaction_data(&doc), Err(OdosError::Decoding(_))));
}

#[test]
fn base_transaction_from_transaction_data() {
    let swap = SwapContext::new(
        Address::new([1; 20]),
        Address::new([2; 20]),
        Address::new([3; 20]),
        "p".to_string(),
    );
    assert_eq!(swap.signer_address(), Address::new([1; 20]));
    assert_eq!(swap.output_recipient(), Address::new([2; 20]));
    assert_eq!(swap.router_address(), Address::new([3; 20]));
    assert_eq!(swap.path_id(), "p");
    let tx = TransactionData { data: "0x1234".to_string(), value: "1000000000000000000".to_string() };
    let t = base_transaction(&swap, &tx).unwrap();
    assert_eq!(t.input, vec![0x12u8, 0x34]);
    assert_eq!(t.value, small(1_000_000_000_000_000_000));
    assert_eq!(t.to, Address::new([3; 20]));
    assert_eq!(t.from, Address::new([1; 20]));
    let odd = TransactionData { data: "0x123".to_string(), value: "1".to_string() };
    assert!(matches!(base_transaction(&swap, &odd), Err(OdosError::Hex(_))));
    let bad = TransactionData { data: "0x12".to_string(), value: "x".to_string() };
    assert!(matches!(base_transaction(&swap, &bad), Err(OdosError::Decoding(_))));
}

#[test]
fn error_message_and_makers() {
    assert_eq!(OdosError::quote_request_error("q".to_string()), OdosError::QuoteRequest("q".to_string()));
    assert_eq!(
        OdosError::transaction_assembly_error("t".to_string()),
        OdosError::TransactionAssembly("t".to_string())
    );
    assert_eq!(OdosError::ClientInit("a".to_string()).message(), "a");
    assert_eq!(OdosError::Transport("b".to_string()).message(), "b");
    assert_eq!(OdosError::Decoding("c".to_string()).message(), "c");
    assert_eq!(OdosError::Hex("d".to_string()).message(), "d");
    assert_eq!(OdosError::QuoteRequest("e".to_string()).message(), "e");
    assert_eq!(OdosError::TransactionAssembly("f".to_string()).message(), "f");
}

#[test]
fn quote_response_from_a_document() {
    let doc = JsonValue::Object(vec![
        ("outAmounts".to_string(), JsonValue::Array(vec![])),
        ("pathId".to_string(), JsonValue::Text("p-9".to_string())),
    ]);
    let same = JsonValue::Object(vec![
        ("outAmounts".to_string(), JsonValue::Array(vec![])),
        ("pathId".to_string(), JsonValue::Text("p-9".to_string())),
    ]);
    let quote = quote_response(doc).unwrap();
    assert_eq!(quote.path_id, "p-9");
    assert_eq!(quote.document, same);
    assert!(matches!(quote_response(JsonValue::Object(vec![])), Err(OdosError::Decoding(_))));
    assert!(matches!(quote_response(JsonValue::Text("pathId".to_string())), Err(OdosError::Decoding(_))));
}
