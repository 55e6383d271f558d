use goidev::client::{Outcome, Reply};
use goidev::models::{ApiDefinition, ApiMeaning};
use goidev::pipeline::{
    acquire, add_word, add_word_from_api, conclude_acquisition, conclude_addition, delete_word,
    get_words, prepare, AcquisitionError, AddError, Insertion,
};
use goidev::rich::{read_definition, StoredDefinition};
use goidev::store::{DeleteError, WordStore, WriteReply};

fn meanings_of_hello() -> Vec<ApiMeaning> {
    vec![
        ApiMeaning {
            part_of_speech: "noun".to_string(),
            definitions: vec![ApiDefinition {
                definition: "A greeting.".to_string(),
                example: Some("She said hello.".to_string()),
            }],
        },
        ApiMeaning {
            part_of_speech: "verb".to_string(),
            definitions: vec![
                ApiDefinition { definition: "To greet.".to_string(), example: None },
                ApiDefinition { definition: "To call out.".to_string(), example: None },
            ],
        },
    ]
}

const HELLO_BODY: &str = r#"[{"word":"hello","meanings":[
    {"partOfSpeech":"noun","definitions":[{"definition":"A greeting.","example":"She said hello."}]},
    {"partOfSpeech":"verb","definitions":[{"definition":"To greet."},{"definition":"To call out."}]}
]}]"#;

fn ok_reply(body: &str) -> Reply {
    Reply::Response { status: 200, body: body.to_string() }
}

#[test]
fn acquired_word_is_listed_once_and_reads_back() {
    let mut store = WordStore::new();
    assert_eq!(add_word_from_api("hello".to_string(), ok_reply(HELLO_BODY), &mut store), Ok(()));
    let rows = get_words(&store);
    assert_eq!(rows.len(), 1);
    assert_eq!(rows[0].id, 1);
    assert_eq!(rows[0].word, "hello");
    assert_eq!(read_definition(&rows[0].definition), StoredDefinition::Rich(meanings_of_hello()));
}

#[test]
fn acquired_definition_is_the_rich_text() {
    let mut store = WordStore::new();
    let found = Outcome::Found(vec![ApiMeaning {
        part_of_speech: "noun".to_string(),
        definitions: vec![ApiDefinition { definition: "A greeting.".to_string(), example: None }],
    }]);
    assert_eq!(acquire("hello", found, &mut store), Ok(()));
    assert_eq!(
        get_words(&store)[0].definition,
        r#"[{"definitions":[{"definition":"A greeting.","example":null}],"partOfSpeech":"noun"}]"#
    );
}

#[test]
fn second_acquisition_is_refused() {
    let mut store = WordStore::new();
    assert_eq!(add_word_from_api("hello".to_string(), ok_reply(HELLO_BODY), &mut store), Ok(()));
    let before = get_words(&store);
    assert_eq!(
        add_word_from_api("hello".to_string(), ok_reply(HELLO_BODY), &mut store),
        Err(AcquisitionError::AlreadyExists)
    );
    let other = r#"[{"word":"hello","meanings":[{"partOfSpeech":"x","definitions":[]}]}]"#;
    assert_eq!(
        add_word_from_api("hello".to_string(), ok_reply(other), &mut store),
        Err(AcquisitionError::AlreadyExists)
    );
    let after = get_words(&store);
    assert_eq!(after, before);
    assert_eq!(after.iter().filter(|row| row.word == "hello").count(), 1);
}

#[test]
fn status_404_gives_not_found_and_no_row() {
    let mut store = WordStore::new();
    assert_eq!(add_word("kept".to_string(), "as it is".to_string(), &mut store), Ok(()));
    let before = get_words(&store);
    assert_eq!(
        add_word_from_api("zzzz".to_string(), Reply::Response { status: 404, body: HELLO_BODY.to_string() }, &mut store),
        Err(AcquisitionError::NotFound)
    );
    assert_eq!(get_words(&store), before);
}

#[test]
fn status_500_gives_remote_error_and_no_row() {
    let mut store = WordStore::new();
    assert_eq!(
        add_word_from_api("hello".to_string(), Reply::Response { status: 500, body: HELLO_BODY.to_string() }, &mut store),
        Err(AcquisitionError::RemoteError(
            "HTTP status 500 for url (https://api.dictionaryapi.dev/api/v2/entries/en/hello)".to_string()
        ))
    );
    assert!(get_words(&store).is_empty());
}

#[test]
fn transport_failure_gives_remote_error_and_no_row() {
    let mut store = WordStore::new();
    assert_eq!(
        add_word_from_api("hello".to_string(), Reply::Failed { detail: "timed out".to_string() }, &mut store),
        Err(AcquisitionError::RemoteError("timed out".to_string()))
    );
    assert!(get_words(&store).is_empty());
}

#[test]
fn malformed_body_gives_remote_error_and_no_row() {
    let mut store = WordStore::new();
    assert_eq!(
        add_word_from_api("hello".to_string(), ok_reply("{"), &mut store),
        Err(AcquisitionError::RemoteError("EOF while parsing an object at line 1 column 1".to_string()))
    );
    assert!(get_words(&store).is_empty());
}

#[test]
fn lookup_without_meanings_gives_not_found_and_no_row() {
    let mut store = WordStore::new();
    assert_eq!(add_word_from_api("hello".to_string(), ok_reply("[]"), &mut store), Err(AcquisitionError::NotFound));
    assert_eq!(
        add_word_from_api("hello".to_string(), ok_reply(r#"[{"word":"hello","meanings":[]}]"#), &mut store),
        Err(AcquisitionError::NotFound)
    );
    assert!(get_words(&store).is_empty());
}

#[test]
fn found_without_meanings_is_treated_as_not_found() {
    let mut store = WordStore::new();
    assert_eq!(acquire("hello", Outcome::Found(Vec::new()), &mut store), Err(AcquisitionError::NotFound));
    assert_eq!(prepare("hello", Outcome::Found(Vec::new())), Err(AcquisitionError::NotFound));
    assert!(get_words(&store).is_empty());
}

#[test]
fn prepare_gives_the_row_to_write() {
    assert_eq!(
        prepare(
            "hello",
            Outcome::Found(vec![ApiMeaning { part_of_speech: "noun".to_string(), definitions: vec![] }])
        ),
        Ok(Insertion {
            word: "hello".to_string(),
            definition: r#"[{"definitions":[],"partOfSpeech":"noun"}]"#.to_string()
        })
    );
}

#[test]
fn prepare_passes_lookup_failures_on() {
    assert_eq!(prepare("hello", Outcome::NotFound), Err(AcquisitionError::NotFound));
    assert_eq!(
        prepare("hello", Outcome::TransportOrServiceError("down".to_string())),
        Err(AcquisitionError::RemoteError("down".to_string()))
    );
}

#[test]
fn acquisition_ends_on_the_engines_answer() {
    assert_eq!(conclude_acquisition(WriteReply::Done { rows_affected: 1 }), Ok(()));
    assert_eq!(
        conclude_acquisition(WriteReply::Failed { unique_violation: true, detail: "u".to_string() }),
        Err(AcquisitionError::AlreadyExists)
    );
    assert_eq!(
        conclude_acquisition(WriteReply::Failed { unique_violation: false, detail: "disk full".to_string() }),
        Err(AcquisitionError::StorageError("disk full".to_string()))
    );
}

#[test]
fn addition_ends_on_the_engines_answer() {
    assert_eq!(conclude_addition(WriteReply::Done { rows_affected: 1 }), Ok(()));
    assert_eq!(
        conclude_addition(WriteReply::Failed { unique_violation: true, detail: "u".to_string() }),
        Err(AddError::AlreadyExists)
    );
    assert_eq!(
        conclude_addition(WriteReply::Failed { unique_violation: false, detail: "disk full".to_string() }),
        Err(AddError::StorageError("disk full".to_string()))
    );
}

#[test]
fn manual_add_then_list() {
    let mut store = WordStore::new();
    assert_eq!(add_word("hello".to_string(), "a greeting".to_string(), &mut store), Ok(()));
    let rows = get_words(&store);
    assert_eq!(rows.len(), 1);
    assert_eq!(rows[0].word, "hello");
    assert_eq!(rows[0].definition, "a greeting");
    assert_eq!(add_word("hello".to_string(), "anything".to_string(), &mut store), Err(AddError::AlreadyExists));
    let rows = get_words(&store);
    assert_eq!(rows.len(), 1);
    assert_eq!(rows[0].definition, "a greeting");
    assert_eq!(read_definition(&rows[0].definition), StoredDefinition::Flat("a greeting".to_string()));
}

#[test]
fn manual_add_and_acquisition_share_the_uniqueness() {
    let mut store = WordStore::new();
    assert_eq!(add_word("hello".to_string(), "a greeting".to_string(), &mut store), Ok(()));
    assert_eq!(
        add_word_from_api("hello".to_string(), ok_reply(HELLO_BODY), &mut store),
        Err(AcquisitionError::AlreadyExists)
    );
    assert_eq!(add_word_from_api("Hello".to_string(), ok_reply(HELLO_BODY), &mut store), Ok(()));
    assert_eq!(add_word("Hello".to_string(), "x".to_string(), &mut store), Err(AddError::AlreadyExists));
    assert_eq!(get_words(&store).len(), 2);
}

#[test]
fn delete_word_of_absent_key_is_row_not_found() {
    let mut store = WordStore::new();
    assert_eq!(delete_word(1, &mut store), Err(DeleteError::RowNotFound));
    assert_eq!(add_word("hello".to_string(), "a greeting".to_string(), &mut store), Ok(()));
    assert_eq!(delete_word(2, &mut store), Err(DeleteError::RowNotFound));
    assert_eq!(get_words(&store).len(), 1);
}

#[test]
fn deleted_word_leaves_the_list_and_its_key_is_not_reused() {
    let mut store = WordStore::new();
    assert_eq!(add_word("one".to_string(), "1".to_string(), &mut store), Ok(()));
    assert_eq!(add_word_from_api("hello".to_string(), ok_reply(HELLO_BODY), &mut store), Ok(()));
    assert_eq!(delete_word(2, &mut store), Ok(()));
    assert!(get_words(&store).iter().all(|row| row.id != 2 && row.word != "hello"));
    assert_eq!(delete_word(2, &mut store), Err(DeleteError::RowNotFound));
    assert_eq!(add_word_from_api("hello".to_string(), ok_reply(HELLO_BODY), &mut store), Ok(()));
    assert_eq!(add_word("three".to_string(), "3".to_string(), &mut store), Ok(()));
    let ids: Vec<i64> = get_words(&store).iter().map(|row| row.id).collect();
    assert_eq!(ids, vec![1, 3, 4]);
}

#[test]
fn words_are_listed_in_ascending_order_of_key() {
    let mut store = WordStore::new();
    for word in ["pear", "apple", "zebra", "mango", "fig"] {
        assert_eq!(add_word(word.to_string(), "fruit, mostly".to_string(), &mut store), Ok(()));
    }
    assert_eq!(delete_word(3, &mut store), Ok(()));
    let rows = get_words(&store);
    assert!(rows.windows(2).all(|pair| pair[0].id < pair[1].id));
    let words: Vec<&str> = rows.iter().map(|row| row.word.as_str()).collect();
    assert_eq!(words, vec!["pear", "apple", "mango", "fig"]);
}
