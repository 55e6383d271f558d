use goidev::models::{ApiDefinition, ApiMeaning};
use goidev::rich::{
    decode_definition, decode_meaning, decode_meanings, definition_of_document, encode_definition,
    encode_meaning, encode_meanings, read_definition, rich_text, StoredDefinition,
};

fn definition(text: &str, example: Option<&str>) -> ApiDefinition {
    ApiDefinition { definition: text.to_string(), example: example.map(|e| e.to_string()) }
}

fn sample() -> Vec<ApiMeaning> {
    vec![
        ApiMeaning {
            part_of_speech: "noun".to_string(),
            definitions: vec![
                definition("a greeting", Some("hello there")),
                definition("a call", None),
            ],
        },
        ApiMeaning {
            part_of_speech: "verb".to_string(),
            definitions: vec![definition("to greet with \"hello\"", None)],
        },
    ]
}

fn document(text: &str) -> serde_json::Value {
    serde_json::from_str(text).expect("the test's own JSON")
}

#[test]
fn document_of_meanings_reads_back() {
    let meanings = sample();
    let document = encode_meanings(&meanings);
    assert_eq!(decode_meanings(&document), Some(meanings));
}

#[test]
fn document_of_meanings_has_the_schema() {
    let expected = document(
        r#"[
            {"partOfSpeech": "noun", "definitions": [
                {"definition": "a greeting", "example": "hello there"},
                {"definition": "a call", "example": null}
            ]},
            {"partOfSpeech": "verb", "definitions": [
                {"definition": "to greet with \"hello\"", "example": null}
            ]}
        ]"#,
    );
    assert_eq!(encode_meanings(&sample()), expected);
}

#[test]
fn document_of_one_definition() {
    assert_eq!(
        encode_definition(&definition("a greeting", Some("hello there"))),
        document(r#"{"definition": "a greeting", "example": "hello there"}"#)
    );
    assert_eq!(
        encode_definition(&definition("a call", None)),
        document(r#"{"definition": "a call", "example": null}"#)
    );
}

#[test]
fn document_of_one_meaning() {
    let meaning = ApiMeaning { part_of_speech: "noun".to_string(), definitions: vec![] };
    assert_eq!(encode_meaning(&meaning), document(r#"{"partOfSpeech": "noun", "definitions": []}"#));
}

#[test]
fn rich_text_is_compact_json_with_sorted_keys() {
    let text = rich_text(&sample()).expect("meaning groups can be written");
    assert_eq!(
        text,
        concat_all(&[
            r#"[{"definitions":[{"definition":"a greeting","example":"hello there"},"#,
            r#"{"definition":"a call","example":null}],"partOfSpeech":"noun"},"#,
            r#"{"definitions":[{"definition":"to greet with \"hello\"","example":null}],"#,
            r#""partOfSpeech":"verb"}]"#,
        ])
    );
}

fn concat_all(parts: &[&str]) -> String {
    let mut text = String::new();
    for part in parts {
        text.push_str(part);
    }
    text
}

#[test]
fn rich_text_of_no_meanings_is_an_empty_array() {
    assert_eq!(rich_text(&Vec::new()), Ok("[]".to_string()));
}

#[test]
fn rich_text_reads_back_as_rich() {
    let meanings = sample();
    let text = rich_text(&meanings).expect("meaning groups can be written");
    assert_eq!(read_definition(&text), StoredDefinition::Rich(meanings));
}

#[test]
fn rich_text_keeps_awkward_characters() {
    let meanings = vec![ApiMeaning {
        part_of_speech: "interjection \u{1F44B}".to_string(),
        definitions: vec![definition(
            "line one\nline two\ttabbed \\ back \u{0007} bell",
            Some("caf\u{00E9} \u{4F60}\u{597D} \"quoted\""),
        )],
    }];
    let text = rich_text(&meanings).expect("meaning groups can be written");
    assert_eq!(read_definition(&text), StoredDefinition::Rich(meanings));
}

#[test]
fn plain_text_reads_as_flat() {
    assert_eq!(read_definition("a greeting"), StoredDefinition::Flat("a greeting".to_string()));
    assert_eq!(read_definition(""), StoredDefinition::Flat(String::new()));
}

#[test]
fn json_that_is_no_list_of_meanings_reads_as_flat() {
    for text in ["42", "\"a greeting\"", "{\"partOfSpeech\":\"noun\"}", "[1,2]", "[{\"definitions\":[]}]"] {
        assert_eq!(read_definition(text), StoredDefinition::Flat(text.to_string()));
    }
}

#[test]
fn empty_array_reads_as_rich_without_meanings() {
    assert_eq!(read_definition("[]"), StoredDefinition::Rich(Vec::new()));
}

#[test]
fn definition_of_document_follows_the_document() {
    let rich = document(r#"[{"partOfSpeech":"noun","definitions":[{"definition":"x"}]}]"#);
    assert_eq!(
        definition_of_document("ignored", &rich),
        StoredDefinition::Rich(vec![ApiMeaning {
            part_of_speech: "noun".to_string(),
            definitions: vec![definition("x", None)],
        }])
    );
    assert_eq!(
        definition_of_document("7", &document("7")),
        StoredDefinition::Flat("7".to_string())
    );
}

#[test]
fn definition_without_example_has_none() {
    assert_eq!(decode_definition(&document(r#"{"definition":"x"}"#)), Some(definition("x", None)));
}

#[test]
fn definition_with_null_example_has_none() {
    assert_eq!(
        decode_definition(&document(r#"{"definition":"x","example":null}"#)),
        Some(definition("x", None))
    );
}

#[test]
fn definition_with_example_keeps_it() {
    assert_eq!(
        decode_definition(&document(r#"{"definition":"x","example":"y","synonyms":["z"]}"#)),
        Some(definition("x", Some("y")))
    );
}

#[test]
fn definition_needs_its_text() {
    assert_eq!(decode_definition(&document(r#"{"example":"y"}"#)), None);
    assert_eq!(decode_definition(&document(r#"{"definition":7}"#)), None);
    assert_eq!(decode_definition(&document(r#"{"definition":null}"#)), None);
    assert_eq!(decode_definition(&document(r#""x""#)), None);
    assert_eq!(decode_definition(&document(r#"["definition"]"#)), None);
}

#[test]
fn example_of_another_type_is_refused() {
    assert_eq!(decode_definition(&document(r#"{"definition":"x","example":7}"#)), None);
    assert_eq!(decode_definition(&document(r#"{"definition":"x","example":["y"]}"#)), None);
}

#[test]
fn meaning_needs_label_and_definitions() {
    assert_eq!(decode_meaning(&document(r#"{"definitions":[]}"#)), None);
    assert_eq!(decode_meaning(&document(r#"{"partOfSpeech":"noun"}"#)), None);
    assert_eq!(decode_meaning(&document(r#"{"partOfSpeech":1,"definitions":[]}"#)), None);
    assert_eq!(decode_meaning(&document(r#"{"partOfSpeech":"noun","definitions":{}}"#)), None);
    assert_eq!(
        decode_meaning(&document(r#"{"partOfSpeech":"noun","definitions":[{"definition":1}]}"#)),
        None
    );
    assert_eq!(
        decode_meaning(&document(r#"{"partOfSpeech":"noun","definitions":[]}"#)),
        Some(ApiMeaning { part_of_speech: "noun".to_string(), definitions: vec![] })
    );
}

#[test]
fn meanings_are_read_in_order() {
    let read = decode_meanings(&document(
        r#"[{"partOfSpeech":"b","definitions":[{"definition":"2"},{"definition":"1"}]},
            {"partOfSpeech":"a","definitions":[]}]"#,
    ))
    .expect("a list of meaning groups");
    assert_eq!(read.len(), 2);
    assert_eq!(read[0].part_of_speech, "b");
    assert_eq!(read[0].definitions[0].definition, "2");
    assert_eq!(read[0].definitions[1].definition, "1");
    assert_eq!(read[1].part_of_speech, "a");
}

#[test]
fn one_unreadable_meaning_spoils_the_list() {
    assert_eq!(
        decode_meanings(&document(r#"[{"partOfSpeech":"a","definitions":[]}, 3]"#)),
        None
    );
    assert_eq!(decode_meanings(&document(r#"{"partOfSpeech":"a","definitions":[]}"#)), None);
}
