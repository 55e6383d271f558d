//! The shapes that travel through the pipeline, each with its mathematical view.

use vstd::prelude::*;

verus! {

/// What the word table holds in one row.
pub ghost struct StoredWord {
    pub id: int,
    pub word: Seq<char>,
    pub definition: Seq<char>,
}

/// One definition of a word, with the example sentence if the dictionary gave one.
pub ghost struct Definition {
    pub text: Seq<char>,
    pub example: Option<Seq<char>>,
}

/// The definitions of a word for one part of speech.
pub ghost struct Meaning {
    pub part_of_speech: Seq<char>,
    pub definitions: Seq<Definition>,
}

/// One entry of a dictionary reply.
pub ghost struct ResponseEntry {
    pub word: Seq<char>,
    pub meanings: Seq<Meaning>,
}

/// How a word is pronounced.
pub ghost struct Phonetic {
    pub text: Option<Seq<char>>,
    pub audio: Option<Seq<char>>,
}

/// A row of the word table: the key the table assigned, the word, and its
/// definition as stored (plain text, or the JSON text of its meaning groups).
#[derive(Debug, Clone, PartialEq, Eq)]
pub struct WordEntry {
    pub id: i64,
    pub word: String,
    pub definition: String,
}

impl View for WordEntry {
    type V = StoredWord;

    open spec fn view(&self) -> StoredWord {
        StoredWord { id: self.id as int, word: self.word@, definition: self.definition@ }
    }
}

impl DeepView for WordEntry {
    type V = StoredWord;

    open spec fn deep_view(&self) -> StoredWord {
        self@
    }
}

/// A single definition with an optional example of use.
#[derive(Debug, Clone, PartialEq, Eq)]
pub struct ApiDefinition {
    pub definition: String,
    pub example: Option<String>,
}

impl View for ApiDefinition {
    type V = Definition;

    open spec fn view(&self) -> Definition {
        Definition {
            text: self.definition@,
            example: match self.example {
                Some(e) => Some(e@),
                None => None,
            },
        }
    }
}

impl DeepView for ApiDefinition {
    type V = Definition;

    open spec fn deep_view(&self) -> Definition {
        self@
    }
}

/// The definitions that belong to one part of speech.
#[derive(Debug, Clone, PartialEq, Eq)]
pub struct ApiMeaning {
    pub part_of_speech: String,
    pub definitions: Vec<ApiDefinition>,
}

impl View for ApiMeaning {
    type V = Meaning;

    open spec fn view(&self) -> Meaning {
        Meaning {
            part_of_speech: self.part_of_speech@,
            definitions: self.definitions.deep_view(),
        }
    }
}

impl DeepView for ApiMeaning {
    type V = Meaning;

    open spec fn deep_view(&self) -> Meaning {
        self@
    }
}

/// One entry of a dictionary reply: the word and its meaning groups.
#[derive(Debug, Clone, PartialEq, Eq)]
pub struct ApiResponseWordEntry {
    pub word: String,
    pub meanings: Vec<ApiMeaning>,
}

impl View for ApiResponseWordEntry {
    type V = ResponseEntry;

    open spec fn view(&self) -> ResponseEntry {
        ResponseEntry { word: self.word@, meanings: self.meanings.deep_view() }
    }
}

impl DeepView for ApiResponseWordEntry {
    type V = ResponseEntry;

    open spec fn deep_view(&self) -> ResponseEntry {
        self@
    }
}

/// Pronunciation of a word: its phonetic spelling and a link to a recording.
#[derive(Debug, Clone, PartialEq, Eq)]
pub struct ApiPhonetic {
    pub text: Option<String>,
    pub audio: Option<String>,
}

impl View for ApiPhonetic {
    type V = Phonetic;

    open spec fn view(&self) -> Phonetic {
        Phonetic {
            text: match self.text {
                Some(t) => Some(t@),
                None => None,
            },
            audio: match self.audio {
                Some(a) => Some(a@),
                None => None,
            },
        }
    }
}

} // verus!
