//! The notes, cards and action parameters that Anki-Connect exchanges.
use vstd::prelude::*;
use std::collections::HashMap;
use crate::json::{json_quoted, quote};
use crate::rpc::ToJson;
use crate::text::{decimal, decimal_spec};

verus! {

/// A field of a note: its name and its value.
#[derive(Clone, Debug)]
pub struct NoteField {
    pub name: String,
    pub value: String,
}

/// A note to add: its note type (model), its deck, its fields by name, its
/// tags, and what is attached to it.
#[derive(Clone, Debug)]
pub struct Note {
    pub model_name: String,
    pub deck_name: String,
    pub fields: HashMap<String, String>,
    pub tags: Vec<String>,
    pub audio: Option<Vec<NoteAudio>>,
    pub picture: Option<Vec<NotePicture>>,
    pub video: Option<Vec<NoteVideo>>,
    pub options: Option<NoteOptions>,
}

/// An audio file to attach: where it is, the name to store it under, the
/// fields it goes into, and its SHA-256 where known.
#[derive(Clone, Debug)]
pub struct NoteAudio {
    pub path: String,
    pub filename: String,
    pub fields: Vec<String>,
    pub hash: Option<String>,
}

/// A picture to attach, described as an audio file is.
#[derive(Clone, Debug)]
pub struct NotePicture {
    pub path: String,
    pub filename: String,
    pub fields: Vec<String>,
    pub hash: Option<String>,
}

/// A video to attach, described as an audio file is.
#[derive(Clone, Debug)]
pub struct NoteVideo {
    pub path: String,
    pub filename: String,
    pub fields: Vec<String>,
    pub hash: Option<String>,
}

/// How duplicates are handled when a note is added.
#[derive(Clone, Debug)]
pub struct NoteOptions {
    pub allow_duplicate: bool,
    pub duplicate_scope: Option<String>,
}

/// Parameters of `addNotes`.
#[derive(Clone, Debug)]
pub struct AddNotesParams {
    pub notes: Vec<Note>,
}

/// Parameters of `addNote`.
#[derive(Clone, Debug)]
pub struct AddNoteParams {
    pub note: Note,
}

/// Parameters of `getDeckNames`.
#[derive(Clone, Copy, Debug)]
pub struct GetDeckNamesParams {
    pub cards: Option<bool>,
}

/// Parameters of `getModelNames`: none.
#[derive(Clone, Copy, Debug)]
pub struct GetModelNamesParams {}

/// Parameters of `getModelFieldNames`.
#[derive(Clone, Debug)]
pub struct GetModelFieldNamesParams {
    pub model_name: String,
}

/// A stored note as `notesInfo` describes it.
#[derive(Clone, Debug)]
pub struct NoteInfo {
    pub note_id: u64,
    pub tags: Vec<String>,
    pub fields: HashMap<String, NoteFieldValue>,
    pub model_name: String,
    pub cards: Vec<u64>,
}

/// The value of a stored field, and its place among the note's fields.
#[derive(Clone, Debug)]
pub struct NoteFieldValue {
    pub value: String,
    pub order: u32,
}

/// Parameters of `findNotes`.
#[derive(Clone, Debug)]
pub struct FindNotesParams {
    pub query: String,
}

/// Parameters of `notesInfo`.
#[derive(Clone, Debug)]
pub struct NotesInfoParams {
    pub notes: Vec<u64>,
}

/// Parameters of `updateNoteFields`.
#[derive(Clone, Debug)]
pub struct UpdateNoteFieldsParams {
    pub note: u64,
    pub fields: HashMap<String, String>,
    pub audio: Option<Vec<NoteAudio>>,
}

/// A card as `cardsInfo` describes it.
#[derive(Clone, Debug)]
pub struct CardInfo {
    pub card_id: u64,
    pub note_id: u64,
    pub deck_name: String,
    pub model_name: String,
    pub ord: u32,
    pub modification_time: u64,
    pub card_type: u32,
    pub queue: u32,
    pub due: u64,
    pub interval: u32,
    pub factor: u32,
    pub reps: u32,
    pub lapses: u32,
    pub left: u32,
    pub original_due: u64,
    pub original_queue: u32,
    pub flags: u32,
}

/// Parameters of `cardsInfo`.
#[derive(Clone, Debug)]
pub struct CardsInfoParams {
    pub cards: Vec<u64>,
}

/// Parameters of `findCards`.
#[derive(Clone, Debug)]
pub struct FindCardsParams {
    pub query: String,
}

/// The numbers of a list, in decimal, separated by commas.
pub open spec fn number_items(s: Seq<u64>) -> Seq<char>
    decreases s.len(),
{
    if s.len() == 0 {
        Seq::empty()
    } else if s.len() == 1 {
        decimal_spec(s[0] as nat)
    } else {
        number_items(s.drop_last()) + ","@ + decimal_spec(s.last() as nat)
    }
}

/// A JSON array of numbers.
pub open spec fn number_array(s: Seq<u64>) -> Seq<char> {
    "["@ + number_items(s) + "]"@
}

/// Writes a list of numbers as a JSON array.
pub fn write_number_array(items: &Vec<u64>) -> (r: String)
    ensures
        r@ == number_array(items@),
{
    let mut body = String::new();
    let mut i: usize = 0;
    while i < items.len()
        invariant
            i <= items@.len(),
            body@ == number_items(items@.subrange(0, i as int)),
        decreases items@.len() - i,
    {
        assert(items@.subrange(0, i + 1).drop_last() =~= items@.subrange(0, i as int));
        if i > 0 {
            body.append(",");
        } else {
            assert(items@.subrange(0, i as int).len() == 0);
        }
        let d = decimal(items[i]);
        body.append(d.as_str());
        i = i + 1;
    }
    assert(items@.subrange(0, items@.len() as int) =~= items@);
    let mut r = String::from_str("[");
    r.append(body.as_str());
    r.append("]");
    r
}

/// An object of one member whose value is already JSON text.
pub open spec fn single_member(name: Seq<char>, value: Seq<char>) -> Seq<char> {
    "{\""@ + name + "\":"@ + value + "}"@
}

fn write_single_member(name: &str, value: &str) -> (r: String)
    ensures
        r@ == single_member(name@, value@),
{
    let mut r = String::from_str("{\"");
    r.append(name);
    r.append("\":");
    r.append(value);
    r.append("}");
    r
}

/// `{"cards":true}` or `{"cards":false}`, and `{}` where the flag is not set.
impl ToJson for GetDeckNamesParams {
    open spec fn json(&self) -> Seq<char> {
        match self.cards {
            Some(c) => single_member("cards"@, if c { "true"@ } else { "false"@ }),
            None => "{}"@,
        }
    }

    fn to_json(&self) -> (r: String) {
        match self.cards {
            Some(c) => write_single_member("cards", if c { "true" } else { "false" }),
            None => String::from_str("{}"),
        }
    }
}

impl ToJson for GetModelNamesParams {
    open spec fn json(&self) -> Seq<char> {
        "{}"@
    }

    fn to_json(&self) -> (r: String) {
        String::from_str("{}")
    }
}

impl ToJson for GetModelFieldNamesParams {
    open spec fn json(&self) -> Seq<char> {
        single_member("modelName"@, json_quoted(self.model_name@))
    }

    fn to_json(&self) -> (r: String) {
        let q = quote(self.model_name.as_str());
        write_single_member("modelName", q.as_str())
    }
}

impl ToJson for FindNotesParams {
    open spec fn json(&self) -> Seq<char> {
        single_member("query"@, json_quoted(self.query@))
    }

    fn to_json(&self) -> (r: String) {
        let q = quote(self.query.as_str());
        write_single_member("query", q.as_str())
    }
}

impl ToJson for FindCardsParams {
    open spec fn json(&self) -> Seq<char> {
        single_member("query"@, json_quoted(self.query@))
    }

    fn to_json(&self) -> (r: String) {
        let q = quote(self.query.as_str());
        write_single_member("query", q.as_str())
    }
}

impl ToJson for NotesInfoParams {
    open spec fn json(&self) -> Seq<char> {
        single_member("notes"@, number_array(self.notes@))
    }

    fn to_json(&self) -> (r: String) {
        let a = write_number_array(&self.notes);
        write_single_member("notes", a.as_str())
    }
}

impl ToJson for CardsInfoParams {
    open spec fn json(&self) -> Seq<char> {
        single_member("cards"@, number_array(self.cards@))
    }

    fn to_json(&self) -> (r: String) {
        let a = write_number_array(&self.cards);
        write_single_member("cards", a.as_str())
    }
}

} // verus!
