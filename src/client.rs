//! The Anki-Connect client: where requests go, and the request that each
//! action sends.
use vstd::prelude::*;
use std::collections::HashMap;
use crate::error::ClientError;
use crate::notes::{
    AddNoteParams, AddNotesParams, CardsInfoParams, FindCardsParams, FindNotesParams,
    GetDeckNamesParams, GetModelFieldNamesParams, GetModelNamesParams, Note, NoteAudio,
    NotesInfoParams, UpdateNoteFieldsParams,
};
use crate::rpc::{AnkiRequest, ANKI_CONNECT_VERSION};

verus! {

#[verifier::external_type_specification]
#[verifier::external_body]
pub struct ExHttpClient(reqwest::Client);

/// Relies on reqwest::Client::new: an HTTP client with default settings. It
/// panics where the TLS backend or the system's resolver configuration cannot
/// be loaded, which no argument decides.
#[verifier::external_body]
fn default_http_client() -> reqwest::Client {
    reqwest::Client::new()
}

/// Relies on reqwest::Client's `Clone`, which shares one connection pool
/// between the copies; nothing is claimed of the copy.
pub assume_specification[ <reqwest::Client as core::clone::Clone>::clone ](c: &reqwest::Client) -> reqwest::Client;

/// Where Anki-Connect listens unless told otherwise.
pub open spec fn default_url() -> Seq<char> {
    "http://localhost:8765"@
}

/// A client of Anki-Connect: the HTTP client it sends with, the address of
/// the service, and the protocol version it speaks.
#[derive(Clone, Debug)]
pub struct AnkiClient {
    client: reqwest::Client,
    url: String,
    version: u8,
}

impl Default for AnkiClient {
    /// The same client as `AnkiClient::new`.
    fn default() -> (r: AnkiClient)
        ensures
            r.url_spec() == default_url(),
            r.version_spec() == ANKI_CONNECT_VERSION,
    {
        AnkiClient::new()
    }
}

impl AnkiClient {
    pub closed spec fn url_spec(&self) -> Seq<char> {
        self.url@
    }

    pub closed spec fn version_spec(&self) -> u8 {
        self.version
    }

    /// A client of the service at its usual local address.
    pub fn new() -> (r: AnkiClient)
        ensures
            r.url_spec() == default_url(),
            r.version_spec() == ANKI_CONNECT_VERSION,
    {
        AnkiClient {
            client: default_http_client(),
            url: String::from_str("http://localhost:8765"),
            version: ANKI_CONNECT_VERSION,
        }
    }

    /// A client of the service at `url`.
    pub fn with_url(url: &str) -> (r: AnkiClient)
        ensures
            r.url_spec() == url@,
            r.version_spec() == ANKI_CONNECT_VERSION,
    {
        AnkiClient {
            client: default_http_client(),
            url: String::from_str(url),
            version: ANKI_CONNECT_VERSION,
        }
    }

    /// A client that sends with a given HTTP client, to the usual address.
    pub fn with_client(client: reqwest::Client) -> (r: AnkiClient)
        ensures
            r.url_spec() == default_url(),
            r.version_spec() == ANKI_CONNECT_VERSION,
    {
        AnkiClient {
            client,
            url: String::from_str("http://localhost:8765"),
            version: ANKI_CONNECT_VERSION,
        }
    }

    /// The address that requests are posted to.
    pub fn url(&self) -> (r: &String)
        ensures
            r@ == self.url_spec(),
    {
        &self.url
    }

    /// The protocol version that requests carry.
    pub fn protocol_version(&self) -> (r: u8)
        ensures
            r == self.version_spec(),
    {
        self.version
    }

    /// The HTTP client that requests are sent with.
    pub fn http_client(&self) -> &reqwest::Client {
        &self.client
    }

    /// A request for `action` at this client's protocol version.
    pub fn request<T>(&self, action: &str, params: Option<T>) -> (r: AnkiRequest<T>)
        ensures
            r.action@ == action@,
            r.version == self.version_spec(),
            r.params == params,
    {
        AnkiRequest::new(action, self.version, params)
    }

    /// The request of `version`, which takes no parameters.
    pub fn version_request(&self) -> (r: AnkiRequest<()>)
        ensures
            r.action@ == "version"@,
            r.version == self.version_spec(),
            r.params is None,
    {
        self.request("version", None)
    }

    /// The request of `getDeckNames`. Its parameters are left out entirely
    /// where the `cards` flag is not given.
    pub fn get_deck_names_request(&self, cards: Option<bool>) -> (r: AnkiRequest<GetDeckNamesParams>)
        ensures
            r.action@ == "getDeckNames"@,
            r.version == self.version_spec(),
            r.params is None <==> cards is None,
            r.params is Some ==> r.params->Some_0.cards == cards,
    {
        let params = if cards.is_some() {
            Some(GetDeckNamesParams { cards })
        } else {
            None
        };
        self.request("getDeckNames", params)
    }

    /// The request of `getModelNames`, which takes no parameters.
    pub fn get_model_names_request(&self) -> (r: AnkiRequest<GetModelNamesParams>)
        ensures
            r.action@ == "getModelNames"@,
            r.version == self.version_spec(),
            r.params is None,
    {
        self.request("getModelNames", None)
    }

    /// The request of `getModelFieldNames` for a note type.
    pub fn get_model_field_names_request(&self, model_name: &str) -> (r: AnkiRequest<GetModelFieldNamesParams>)
        ensures
            r.action@ == "getModelFieldNames"@,
            r.version == self.version_spec(),
            r.params is Some,
            r.params->Some_0.model_name@ == model_name@,
    {
        let params = GetModelFieldNamesParams { model_name: String::from_str(model_name) };
        self.request("getModelFieldNames", Some(params))
    }

    /// The request of `addNote`.
    pub fn add_note_request(&self, note: Note) -> (r: AnkiRequest<AddNoteParams>)
        ensures
            r.action@ == "addNote"@,
            r.version == self.version_spec(),
            r.params == Some(AddNoteParams { note }),
    {
        self.request("addNote", Some(AddNoteParams { note }))
    }

    /// The request of `addNotes`, all the notes in one request.
    pub fn add_notes_request(&self, notes: Vec<Note>) -> (r: AnkiRequest<AddNotesParams>)
        ensures
            r.action@ == "addNotes"@,
            r.version == self.version_spec(),
            r.params == Some(AddNotesParams { notes }),
    {
        self.request("addNotes", Some(AddNotesParams { notes }))
    }

    /// The request of `findNotes` for a search query.
    pub fn find_notes_request(&self, query: &str) -> (r: AnkiRequest<FindNotesParams>)
        ensures
            r.action@ == "findNotes"@,
            r.version == self.version_spec(),
            r.params is Some,
            r.params->Some_0.query@ == query@,
    {
        let params = FindNotesParams { query: String::from_str(query) };
        self.request("findNotes", Some(params))
    }

    /// The request of `notesInfo` for some note ids.
    pub fn notes_info_request(&self, note_ids: Vec<u64>) -> (r: AnkiRequest<NotesInfoParams>)
        ensures
            r.action@ == "notesInfo"@,
            r.version == self.version_spec(),
            r.params == Some(NotesInfoParams { notes: note_ids }),
    {
        self.request("notesInfo", Some(NotesInfoParams { notes: note_ids }))
    }

    /// The request of `updateNoteFields` for one note.
    pub fn update_note_fields_request(
        &self,
        note_id: u64,
        fields: HashMap<String, String>,
        audio: Option<Vec<NoteAudio>>,
    ) -> (r: AnkiRequest<UpdateNoteFieldsParams>)
        ensures
            r.action@ == "updateNoteFields"@,
            r.version == self.version_spec(),
            r.params == Some(UpdateNoteFieldsParams { note: note_id, fields, audio }),
    {
        let params = UpdateNoteFieldsParams { note: note_id, fields, audio };
        self.request("updateNoteFields", Some(params))
    }

    /// What the answer of `updateNoteFields` means: `false` says that the note
    /// was not updated, which is a failure of the call, never a quiet success.
    pub fn update_note_fields_outcome(updated: bool) -> (r: Result<(), ClientError>)
        ensures
            updated ==> r is Ok,
            !updated ==> r is Err && r->Err_0 == ClientError::Domain(r->Err_0->Domain_0)
                && r->Err_0->Domain_0@ == "Failed to update note fields"@,
    {
        if updated {
            Ok(())
        } else {
            Err(ClientError::Domain(String::from_str("Failed to update note fields")))
        }
    }

    /// The request of `cardsInfo` for some card ids.
    pub fn cards_info_request(&self, card_ids: Vec<u64>) -> (r: AnkiRequest<CardsInfoParams>)
        ensures
            r.action@ == "cardsInfo"@,
            r.version == self.version_spec(),
            r.params == Some(CardsInfoParams { cards: card_ids }),
    {
        self.request("cardsInfo", Some(CardsInfoParams { cards: card_ids }))
    }

    /// The request of `findCards` for a search query.
    pub fn find_cards_request(&self, query: &str) -> (r: AnkiRequest<FindCardsParams>)
        ensures
            r.action@ == "findCards"@,
            r.version == self.version_spec(),
            r.params is Some,
            r.params->Some_0.query@ == query@,
    {
        let params = FindCardsParams { query: String::from_str(query) };
        self.request("findCards", Some(params))
    }
}

} // verus!
