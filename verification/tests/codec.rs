use stockfighter::codec::{
    direction_from_json, fill_from_json, list_field, list_from_json, opt_list_field,
    quote_from_json, stock_list_from_json, variant_name, Shape,
};
use stockfighter::json::{as_bool, as_text, as_usize, member, opt_usize_field, parse, usize_field};
use stockfighter::limits::{
    check_limits, measure, Measure, MAX_EXPONENT, MAX_KEY, MAX_NESTING, MAX_TEXT,
};
use stockfighter::{BidAsk, DecodeError, Fill, JsonValue, Order, OrderDirection, StockTicker};

fn object(members: Vec<(&str, JsonValue)>) -> JsonValue {
    JsonValue::Object(members.into_iter().map(|(k, v)| (k.to_string(), v)).collect())
}

fn text(s: &str) -> JsonValue {
    JsonValue::Text(s.to_string())
}

#[test]
fn member_lookup() {
    let obj = object(vec![("a", JsonValue::Unsigned(1)), ("b", JsonValue::Null)]);
    assert!(matches!(member(&obj, "a"), Ok(Some(JsonValue::Unsigned(1)))));
    assert!(matches!(member(&obj, "b"), Ok(Some(JsonValue::Null))));
    assert!(matches!(member(&obj, "c"), Ok(None)));
    assert!(matches!(member(&JsonValue::Null, "a"), Err(DecodeError::Expected)));
    let twice = object(vec![("a", JsonValue::Unsigned(1)), ("a", JsonValue::Unsigned(2))]);
    assert!(matches!(member(&twice, "a"), Ok(Some(JsonValue::Unsigned(1)))));
}

#[test]
fn numbers() {
    assert_eq!(as_usize(&JsonValue::Unsigned(0)), Ok(0));
    assert_eq!(as_usize(&JsonValue::Unsigned(5050)), Ok(5050));
    assert_eq!(as_usize(&JsonValue::Signed(12)), Ok(12));
    assert_eq!(as_usize(&JsonValue::Signed(-1)), Err(DecodeError::Expected));
    assert_eq!(as_usize(&JsonValue::Signed(i64::MIN)), Err(DecodeError::Expected));
    assert_eq!(as_usize(&JsonValue::Fraction), Err(DecodeError::Expected));
    assert_eq!(as_usize(&text("12")), Err(DecodeError::Expected));
    assert_eq!(as_usize(&JsonValue::Unsigned(usize::MAX as u64)), Ok(usize::MAX));
}

#[test]
fn texts_and_flags() {
    assert_eq!(as_text(&text("x")), Ok("x".to_string()));
    assert_eq!(as_text(&JsonValue::Null), Err(DecodeError::Expected));
    assert_eq!(as_bool(&JsonValue::Boolean(true)), Ok(true));
    assert_eq!(as_bool(&JsonValue::Unsigned(1)), Err(DecodeError::Expected));
}

#[test]
fn required_and_optional_members() {
    let obj = object(vec![("n", JsonValue::Unsigned(3)), ("z", JsonValue::Null)]);
    assert_eq!(usize_field(&obj, "n"), Ok(3));
    assert_eq!(usize_field(&obj, "missing"), Err(DecodeError::MissingField));
    assert_eq!(usize_field(&obj, "z"), Err(DecodeError::Expected));
    assert_eq!(opt_usize_field(&obj, "n"), Ok(Some(3)));
    assert_eq!(opt_usize_field(&obj, "missing"), Ok(None));
    assert_eq!(opt_usize_field(&obj, "z"), Ok(None));
    assert_eq!(opt_usize_field(&JsonValue::Array(vec![]), "n"), Err(DecodeError::Expected));
}

#[test]
fn directions() {
    assert_eq!(direction_from_json(&text("buy")), Ok(OrderDirection::buy));
    assert_eq!(direction_from_json(&text("sell")), Ok(OrderDirection::sell));
    assert_eq!(direction_from_json(&text("Buy")), Err(DecodeError::UnknownVariant));
    assert_eq!(direction_from_json(&JsonValue::Boolean(true)), Err(DecodeError::Expected));
    assert_eq!(direction_from_json(&JsonValue::Null), Err(DecodeError::Expected));
}

#[test]
fn a_variant_may_come_as_an_object() {
    let full = object(vec![("fields", JsonValue::Array(vec![])), ("variant", text("sell"))]);
    assert_eq!(direction_from_json(&full), Ok(OrderDirection::sell));
    assert_eq!(variant_name(&full).map(|s| s.as_str()), Ok("sell"));
    let unknown = object(vec![("fields", JsonValue::Array(vec![])), ("variant", text("hold"))]);
    assert_eq!(direction_from_json(&unknown), Err(DecodeError::UnknownVariant));
    let no_fields = object(vec![("variant", text("buy"))]);
    assert_eq!(direction_from_json(&no_fields), Err(DecodeError::MissingField));
    let no_variant = object(vec![("fields", JsonValue::Array(vec![]))]);
    assert_eq!(direction_from_json(&no_variant), Err(DecodeError::MissingField));
    let odd_variant = object(vec![("variant", JsonValue::Unsigned(1))]);
    assert_eq!(direction_from_json(&odd_variant), Err(DecodeError::Expected));
    let odd_fields = object(vec![("fields", JsonValue::Null), ("variant", text("buy"))]);
    assert_eq!(direction_from_json(&odd_fields), Err(DecodeError::Expected));
}

#[test]
fn quote_from_a_value() {
    let obj = object(vec![
        ("ok", JsonValue::Boolean(true)),
        ("symbol", text("FOOBAR")),
        ("venue", text("TESTEX")),
        ("last", JsonValue::Unsigned(5050)),
        ("askSize", JsonValue::Unsigned(9)),
    ]);
    let q = quote_from_json(&obj).unwrap();
    assert_eq!(q.last, 5050);
    assert_eq!(q.ask_size, Some(9));
    assert_eq!(q.bid_size, None);
}

#[test]
fn the_first_member_that_fails_decides() {
    let obj = object(vec![("ok", text("yes")), ("venue", text("TESTEX"))]);
    assert_eq!(quote_from_json(&obj), Err(DecodeError::Expected));
    let obj = object(vec![("ok", JsonValue::Boolean(true)), ("last", text("x"))]);
    assert_eq!(quote_from_json(&obj), Err(DecodeError::MissingField));
}

#[test]
fn arrays_are_read_front_to_back() {
    let good = object(vec![("price", JsonValue::Unsigned(1))]);
    let fill = fill_from_json(&good).unwrap();
    assert_eq!((fill.price, fill.qty, fill.ts), (Some(1), None, None));
    let list = JsonValue::Array(vec![
        object(vec![("qty", JsonValue::Unsigned(2))]),
        object(vec![("qty", JsonValue::Unsigned(3))]),
    ]);
    let fills = list_from_json::<Fill>(&list).unwrap();
    assert_eq!(fills.iter().map(|f| f.qty).collect::<Vec<_>>(), vec![Some(2), Some(3)]);
    assert_eq!(list_from_json::<Fill>(&JsonValue::Array(vec![])), Ok(vec![]));
    assert_eq!(list_from_json::<Fill>(&JsonValue::Null), Err(DecodeError::Expected));
    let mixed = JsonValue::Array(vec![
        object(vec![("price", JsonValue::Unsigned(1)), ("qty", JsonValue::Unsigned(1)), ("isBuy", JsonValue::Boolean(true))]),
        object(vec![("price", JsonValue::Unsigned(1))]),
        JsonValue::Null,
    ]);
    assert_eq!(list_from_json::<BidAsk>(&mixed), Err(DecodeError::MissingField));
}

#[test]
fn a_required_list_must_be_there() {
    let obj = object(vec![("ok", JsonValue::Boolean(true))]);
    assert_eq!(stock_list_from_json(&obj), Err(DecodeError::MissingField));
    let obj = object(vec![("ok", JsonValue::Boolean(true)), ("symbols", JsonValue::Null)]);
    assert_eq!(stock_list_from_json(&obj), Err(DecodeError::Expected));
    let obj = object(vec![("ok", JsonValue::Boolean(true)), ("symbols", JsonValue::Array(vec![]))]);
    assert_eq!(stock_list_from_json(&obj).unwrap().symbols.len(), 0);
}

fn nesting(text: &str) -> usize {
    measure(text).nesting
}

#[test]
fn nesting_is_measured_outside_strings() {
    assert_eq!(nesting(""), 0);
    assert_eq!(nesting("12"), 0);
    assert_eq!(nesting("[]"), 1);
    assert_eq!(nesting("{\"a\":[1,{\"b\":[]}]}"), 4);
    assert_eq!(nesting("[[],[],[[]],[]]"), 3);
    assert_eq!(nesting("\"[[[[\""), 0);
    assert_eq!(nesting("[\"a\\\"[[[\",[]]"), 2);
    assert_eq!(nesting("[\"\\\\\",[[]]]"), 3);
    assert_eq!(nesting("[\"\u{e9}[\",{}]"), 2);
    assert_eq!(nesting("]]]][["), 2);
    assert_eq!(nesting("[[[["), 4);
}

#[test]
fn keys_are_the_strings_before_a_colon() {
    assert_eq!(measure("{\"abc\":\"defghij\"}").key, 3);
    assert_eq!(measure("{\"abc\" \t\r\n : 1, \"de\":2}").key, 3);
    assert_eq!(measure("[\"abcdef\", \"gh\"]").key, 0);
    assert_eq!(measure("{\"a\\\"b\":1}").key, 4);
    assert_eq!(measure("{\"\u{e9}\":1}").key, 2);
    assert_eq!(measure("{\"abc\" x : 1}").key, 0);
    assert_eq!(
        measure("{\"a\":{\"bcd\":{\"ef\":1}}}"),
        Measure { nesting: 3, key: 3, exponent: 0, dangling_comma: false }
    );
}

#[test]
fn exponents_are_the_digits_behind_an_e() {
    assert_eq!(measure("1e5").exponent, 1);
    assert_eq!(measure("[1.5E+123, 2e-7]").exponent, 3);
    assert_eq!(measure("12345678901234567890").exponent, 0);
    assert_eq!(measure("-1234567890.1234567890").exponent, 0);
    assert_eq!(measure("[true,false,null,12345]").exponent, 0);
    assert_eq!(measure("\"1e12345\"").exponent, 0);
    assert_eq!(measure("1e+-123").exponent, 0);
    assert_eq!(measure("1e0000000001").exponent, 10);
}

#[test]
fn limits() {
    assert_eq!(MAX_NESTING, 128);
    assert_eq!(MAX_KEY, 511);
    assert_eq!(MAX_EXPONENT, 9);
    assert_eq!(MAX_TEXT, 4294967295);
    assert!(check_limits(""));
    assert!(check_limits("{\"ok\":true}"));
    assert!(check_limits(&format!("{{\"{}\":1}}", "k".repeat(MAX_KEY))));
    assert!(!check_limits(&format!("{{\"{}\":1}}", "k".repeat(MAX_KEY + 1))));
    assert!(check_limits(&format!("[\"{}\"]", "v".repeat(100_000))));
    assert!(check_limits("1e123456789"));
    assert!(!check_limits("1e1234567890"));
    assert!(check_limits(&"[".repeat(MAX_NESTING)));
    assert!(!check_limits(&"[".repeat(MAX_NESTING + 1)));
}

#[test]
fn parsing_keeps_to_the_limits() {
    let key = "k".repeat(MAX_KEY);
    match parse(&format!("{{\"{}\":1}}", key)) {
        Ok(JsonValue::Object(members)) => assert_eq!(members[0].0, key),
        other => panic!("{:?}", other),
    }
    let long_key = format!("{{\"{}\":1}}", "k".repeat(70_000));
    assert!(matches!(parse(&long_key), Err(DecodeError::OverLimit)));
    let long_value = format!("{{\"k\":\"{}\"}}", "v".repeat(70_000));
    assert!(matches!(parse(&long_value), Ok(JsonValue::Object(_))));
    assert!(matches!(parse("1e123456789"), Ok(JsonValue::Fraction)));
    assert!(matches!(parse("1e-123456789"), Ok(JsonValue::Fraction)));
    assert!(matches!(
        parse("1e100000000000000000000000000000"),
        Err(DecodeError::OverLimit)
    ));
}

#[test]
fn parsing_reads_every_kind_of_value() {
    let v = parse("{\"z\":null,\"b\":true,\"n\":-3,\"u\":18446744073709551615,\"f\":1.5,\"t\":\"x\",\"a\":[1,\"two\"],\"o\":{}}")
        .unwrap();
    let members = match v {
        JsonValue::Object(m) => m,
        other => panic!("{:?}", other),
    };
    let keys: Vec<&str> = members.iter().map(|m| m.0.as_str()).collect();
    assert_eq!(keys, vec!["a", "b", "f", "n", "o", "t", "u", "z"]);
    assert!(matches!(&members[0].1, JsonValue::Array(items)
        if matches!(items.as_slice(), [JsonValue::Unsigned(1), JsonValue::Text(t)] if t == "two")));
    assert!(matches!(&members[1].1, JsonValue::Boolean(true)));
    assert!(matches!(&members[2].1, JsonValue::Fraction));
    assert!(matches!(&members[3].1, JsonValue::Signed(-3)));
    assert!(matches!(&members[4].1, JsonValue::Object(m) if m.is_empty()));
    assert!(matches!(&members[5].1, JsonValue::Text(t) if t == "x"));
    assert!(matches!(&members[6].1, JsonValue::Unsigned(u64::MAX)));
    assert!(matches!(&members[7].1, JsonValue::Null));
}

#[test]
fn parsing_refuses_what_is_not_json() {
    assert!(matches!(parse(""), Err(DecodeError::Syntax)));
    assert!(matches!(parse("{\"a\":}"), Err(DecodeError::Syntax)));
    assert!(matches!(parse("[1,2"), Err(DecodeError::Syntax)));
    assert!(matches!(parse("[1] x"), Err(DecodeError::Syntax)));
    assert!(matches!(parse("7"), Ok(JsonValue::Unsigned(7))));
}

#[test]
fn an_object_that_closes_behind_a_comma_is_not_parsed() {
    let text = "[{\"k\":{\"a\":1,},\"x\":2}]";
    assert!(check_limits(text));
    assert!(measure(text).dangling_comma);
    assert!(matches!(parse(text), Err(DecodeError::Syntax)));
    assert!(matches!(parse("{\"a\":1,}"), Err(DecodeError::Syntax)));
    assert!(matches!(parse("[{\"a\":1 , \t\r\n }]"), Err(DecodeError::Syntax)));
    assert!(matches!(parse("{\"a\":{\"b\":[1,2],}}"), Err(DecodeError::Syntax)));
    assert!(matches!(parse("[1,}"), Err(DecodeError::Syntax)));
    assert!(!measure("{\"a\":\",}\"}").dangling_comma);
    assert!(matches!(parse("{\"a\":\",}\"}"), Ok(JsonValue::Object(_))));
    assert!(!measure("{\"a\":[1,2],\"b\":{}}").dangling_comma);
    assert!(!measure("[1,2]").dangling_comma);
    assert!(!measure("{\"a\":1,\"b\":2}").dangling_comma);
    assert!(matches!(parse("[1,]"), Err(DecodeError::Syntax)));
    let both = format!("{}{{\"a\":1,}}", "[".repeat(MAX_NESTING + 1));
    assert!(matches!(parse(&both), Err(DecodeError::OverLimit)));
}

#[test]
fn parsing_refuses_what_nests_too_deep() {
    let at_limit = format!("{}{}", "[".repeat(MAX_NESTING), "]".repeat(MAX_NESTING));
    assert_eq!(nesting(&at_limit), MAX_NESTING);
    assert!(matches!(parse(&at_limit), Ok(JsonValue::Array(_))));
    let beyond = format!("{}{}", "[".repeat(MAX_NESTING + 1), "]".repeat(MAX_NESTING + 1));
    assert!(matches!(parse(&beyond), Err(DecodeError::OverLimit)));
    let far_beyond = "[".repeat(1_000_000);
    assert!(matches!(parse(&far_beyond), Err(DecodeError::OverLimit)));
    let wide = format!("[{}[]]", "[],".repeat(10_000));
    assert_eq!(nesting(&wide), 2);
    assert!(parse(&wide).is_ok());
}

#[test]
fn lists_of_every_shape() {
    let ticker = object(vec![("name", text("Foo")), ("symbol", text("FOO"))]);
    assert_eq!(StockTicker::read(&ticker).unwrap().symbol, "FOO");
    let tickers = list_from_json::<StockTicker>(&JsonValue::Array(vec![ticker])).unwrap();
    assert_eq!(tickers.len(), 1);
    assert_eq!(tickers[0].name, "Foo");
    let order = object(vec![
        ("account", text("A")),
        ("venue", text("V")),
        ("stock", text("S")),
        ("price", JsonValue::Unsigned(1)),
        ("qty", JsonValue::Unsigned(2)),
        ("direction", text("buy")),
        ("orderType", text("limit")),
    ]);
    let orders = list_from_json::<Order>(&JsonValue::Array(vec![order])).unwrap();
    assert_eq!(orders[0].qty, 2);
    let holder = object(vec![
        ("some", JsonValue::Array(vec![object(vec![("qty", JsonValue::Unsigned(4))])])),
        ("none", JsonValue::Null),
        ("odd", JsonValue::Unsigned(1)),
    ]);
    assert_eq!(list_field::<Fill>(&holder, "some").unwrap()[0].qty, Some(4));
    assert_eq!(list_field::<Fill>(&holder, "absent"), Err(DecodeError::MissingField));
    assert_eq!(list_field::<Fill>(&holder, "none"), Err(DecodeError::Expected));
    assert_eq!(opt_list_field::<Fill>(&holder, "none"), Ok(None));
    assert_eq!(opt_list_field::<Fill>(&holder, "absent"), Ok(None));
    assert_eq!(opt_list_field::<Fill>(&holder, "odd"), Err(DecodeError::Expected));
    assert_eq!(opt_list_field::<Fill>(&holder, "some").unwrap().unwrap().len(), 1);
}
