use serde_json::Value;
use stringmatch::{StringMatch, StringMatchLength};

fn length_of(m: &StringMatch) -> StringMatchLength {
    if m.is_full_match() {
        StringMatchLength::Full
    } else if m.is_partial_match() {
        StringMatchLength::Partial
    } else {
        StringMatchLength::Word
    }
}

fn encode(m: &StringMatch) -> String {
    let length = match length_of(m) {
        StringMatchLength::Full => "Full",
        StringMatchLength::Partial => "Partial",
        StringMatchLength::Word => "Word",
    };
    let mut fields = serde_json::Map::new();
    fields.insert(String::from("text"), Value::String(String::from(m.text())));
    fields.insert(String::from("match_length"), Value::String(String::from(length)));
    fields.insert(String::from("case_sensitive"), Value::Bool(m.is_case_sensitive()));
    serde_json::to_string(&Value::Object(fields)).unwrap()
}

fn decode(encoded: &str) -> StringMatch {
    let value: Value = serde_json::from_str(encoded).unwrap();
    let m = StringMatch::new(value["text"].as_str().unwrap());
    let m = match value["match_length"].as_str().unwrap() {
        "Full" => m.full(),
        "Partial" => m.partial(),
        "Word" => m.word(),
        other => panic!("no such length of match: {}", other),
    };
    if value["case_sensitive"].as_bool().unwrap() {
        m.case_sensitive()
    } else {
        m.case_insensitive()
    }
}

#[test]
fn test_serde() {
    let orig = StringMatch::new("a").partial().case_insensitive();
    let serialized: String = encode(&orig);
    let deserialized: StringMatch = decode(&serialized);
    assert_eq!(deserialized, orig);
}

#[test]
fn round_trip_for_every_configuration() {
    for text in ["", "a", "two words", "Größe \"quoted\" \\ \n"] {
        for sensitive in [true, false] {
            for length in [
                StringMatchLength::Full,
                StringMatchLength::Partial,
                StringMatchLength::Word,
            ] {
                let m = StringMatch::new(text);
                let m = match length {
                    StringMatchLength::Full => m.full(),
                    StringMatchLength::Partial => m.partial(),
                    StringMatchLength::Word => m.word(),
                };
                let m = if sensitive { m.case_sensitive() } else { m.case_insensitive() };
                let back = decode(&encode(&m));
                assert_eq!(back, m);
                assert_eq!(back.text(), text);
                assert_eq!(length_of(&back), length);
                assert_eq!(back.is_case_sensitive(), sensitive);
            }
        }
    }
}

#[test]
fn encoded_form_holds_the_three_attributes() {
    let encoded = encode(&StringMatch::new("a").partial().case_insensitive());
    let value: Value = serde_json::from_str(&encoded).unwrap();
    assert_eq!(value["text"], Value::String(String::from("a")));
    assert_eq!(value["match_length"], Value::String(String::from("Partial")));
    assert_eq!(value["case_sensitive"], Value::Bool(false));
    assert_eq!(value.as_object().unwrap().len(), 3);
}
