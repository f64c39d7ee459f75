use goodwe_web::json::{find_field, json_text, set_text, set_unsigned, Json, JsonNumber};

fn text(t: &str) -> Json {
    Json::Text(t.to_owned())
}

fn entry(k: &str, v: Json) -> (String, Json) {
    (k.to_owned(), v)
}

#[test]
fn fields_of_an_object() {
    let v = Json::Object(vec![entry("a", text("x")), entry("b", Json::Bool(true))]);
    assert_eq!(v.field("a").text_or(""), "x");
    assert_eq!(v.field("b").text_or("no text"), "no text");
    assert!(matches!(v.field("c"), Json::Null));
    assert!(matches!(text("a").field("a"), Json::Null));
}

#[test]
fn the_later_entry_of_a_key_counts() {
    let fields = vec![entry("a", text("old")), entry("b", Json::Null), entry("a", text("new"))];
    assert_eq!(find_field(&fields, "a"), Some(2));
    assert_eq!(find_field(&fields, "c"), None);
    let v = Json::Object(fields);
    assert_eq!(v.field("a").text_or(""), "new");
    assert_eq!(json_text(&v), r#"{"a":"new","b":null}"#);
}

#[test]
fn set_fields_read_back() {
    let mut fields = vec![entry("api", text(""))];
    set_text(&mut fields, "api", "https://example.org");
    assert_eq!(fields.len(), 1);
    set_unsigned(&mut fields, "pageNum", 2);
    set_unsigned(&mut fields, "pageNum", 3);
    assert_eq!(fields.len(), 2);
    let v = Json::Object(fields);
    assert_eq!(v.field("api").text_or(""), "https://example.org");
    assert_eq!(v.field("pageNum").unsigned_or_zero(), 3);
}

#[test]
fn only_unsigned_integers_count() {
    assert_eq!(Json::Number(JsonNumber::PosInt(u64::MAX)).unsigned_or_zero(), u64::MAX);
    assert_eq!(Json::Number(JsonNumber::NegInt(-3)).unsigned_or_zero(), 0);
    assert_eq!(Json::Number(JsonNumber::NegInt(5)).unsigned_or_zero(), 5);
    assert_eq!(Json::Number(JsonNumber::Float("7.5".to_owned())).unsigned_or_zero(), 0);
    assert_eq!(text("7").unsigned_or_zero(), 0);
    assert_eq!(Json::Null.unsigned_or_zero(), 0);
}

#[test]
fn documents_are_written_with_their_keys_in_order() {
    let v = Json::Object(vec![
        entry("z", Json::Array(vec![Json::Null, Json::Bool(false), text("q\"\\\n")])),
        entry("n", Json::Number(JsonNumber::PosInt(18446744073709551615))),
        entry("m", Json::Number(JsonNumber::NegInt(-5))),
        entry("f", Json::Number(JsonNumber::Float("0.30000000000000004".to_owned()))),
        entry("o", Json::Object(vec![])),
    ]);
    assert_eq!(
        json_text(&v),
        r#"{"f":0.30000000000000004,"m":-5,"n":18446744073709551615,"o":{},"z":[null,false,"q\"\\\n"]}"#
    );
}

#[test]
fn a_numeral_of_no_number_is_written_as_null() {
    let v = Json::Number(JsonNumber::Float("plenty".to_owned()));
    assert_eq!(json_text(&v), "null");
}

#[test]
fn the_later_entry_counts_at_any_depth_and_in_any_number() {
    let mut fields = vec![];
    for i in 0..40 {
        fields.push(entry("k", Json::Number(JsonNumber::PosInt(i))));
        fields.push(entry("z", Json::Null));
        fields.push(entry("a", Json::Bool(i % 2 == 1)));
    }
    let v = Json::Array(vec![Json::Object(vec![entry("o", Json::Object(fields))])]);
    assert_eq!(json_text(&v), r#"[{"o":{"a":true,"k":39,"z":null}}]"#);
}

#[test]
fn setting_a_repeated_key_changes_the_entry_that_counts() {
    let mut fields = vec![entry("a", text("1")), entry("a", text("2")), entry("b", text("3"))];
    set_text(&mut fields, "a", "4");
    assert_eq!(fields.len(), 3);
    assert_eq!(find_field(&fields, "a"), Some(1));
    assert_eq!(json_text(&Json::Object(fields)), r#"{"a":"4","b":"3"}"#);
}
