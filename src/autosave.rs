//! The document envelope (schema version, timestamp and payload), its JSON
//! form, and the steps of autosave and recovery.
use vstd::prelude::*;
use crate::json::{
    data_error, empty_object, insert_entry, json_member, json_parsed, json_pretty, json_text,
    member, object_value, parse_text, string_value, text, to_pretty_text,
};
use vstd::string::StringExecFns;

verus! {

/// The schema version that every envelope is stamped with.
pub open spec fn schema_version() -> Seq<char> {
    seq!['1', '.', '0', '.', '0']
}

pub open spec fn version_key() -> Seq<char> {
    seq!['v', 'e', 'r', 's', 'i', 'o', 'n']
}

pub open spec fn updated_at_key() -> Seq<char> {
    seq!['u', 'p', 'd', 'a', 't', 'e', 'd', '_', 'a', 't']
}

pub open spec fn content_key() -> Seq<char> {
    seq!['c', 'o', 'n', 't', 'e', 'n', 't']
}

/// A persisted document: schema version, time of writing, and the editor's
/// payload, carried unchanged.
#[derive(Debug)]
pub struct EditorDocument {
    pub version: String,
    pub updated_at: String,
    pub content: serde_json::Value,
}

#[derive(Debug)]
pub enum AutosaveError {
    PathUnavailable,
    Io(std::io::Error),
    Json(serde_json::Error),
}

/// Whether the tree `v` is an envelope with these fields: string members
/// `version` and `updated_at`, a `content` member, and no other member.
pub open spec fn is_envelope_of(
    v: serde_json::Value,
    version: Seq<char>,
    updated_at: Seq<char>,
    content: serde_json::Value,
) -> bool {
    &&& json_member(v, version_key()) matches Some(x) && json_text(x) == Some(version)
    &&& json_member(v, updated_at_key()) matches Some(x) && json_text(x) == Some(updated_at)
    &&& json_member(v, content_key()) == Some(content)
    &&& forall|k: Seq<char>|
        #[trigger] json_member(v, k) is Some ==> k == version_key() || k == updated_at_key() || k
            == content_key()
}

/// The fields of the envelope `v`, when it is one.
pub open spec fn read_envelope(v: serde_json::Value) -> Option<
    (Seq<char>, Seq<char>, serde_json::Value),
> {
    match (json_member(v, version_key()), json_member(v, updated_at_key()), json_member(v, content_key())) {
        (Some(a), Some(b), Some(c)) => match (json_text(a), json_text(b)) {
            (Some(x), Some(y)) => Some((x, y, c)),
            _ => None,
        },
        _ => None,
    }
}

/// The fields of a document, as `read_envelope` gives them.
pub open spec fn fields_of(d: EditorDocument) -> (Seq<char>, Seq<char>, serde_json::Value) {
    (d.version@, d.updated_at@, d.content)
}

/// Relies on `chrono::Utc::now` and `DateTime::to_rfc3339`: the current time
/// in RFC 3339 form.
#[verifier::external_body]
fn current_timestamp() -> (r: String) {
    chrono::Utc::now().to_rfc3339()
}

impl EditorDocument {
    /// A document holding `content`, stamped with the schema version and the
    /// time `updated_at`.
    pub fn stamped(content: serde_json::Value, updated_at: String) -> (r: Self)
        ensures
            r.version@ == schema_version(),
            r.updated_at@ == updated_at@,
            r.content == content,
    {
        proof {
            reveal_strlit("1.0.0");
        }
        EditorDocument { version: String::from_str("1.0.0"), updated_at, content }
    }

    /// A document holding `content`, stamped with the schema version and the
    /// current time.
    pub fn new(content: serde_json::Value) -> (r: Self)
        ensures
            r.version@ == schema_version(),
            r.content == content,
    {
        EditorDocument::stamped(content, current_timestamp())
    }
}

/// The JSON tree of a document: an object with the three fields.
pub fn envelope_value(doc: EditorDocument) -> (r: serde_json::Value)
    ensures
        is_envelope_of(r, doc.version@, doc.updated_at@, doc.content),
{
    proof {
        reveal_strlit("version");
        reveal_strlit("updated_at");
        reveal_strlit("content");
    }
    assert("version"@ =~= version_key());
    assert("updated_at"@ =~= updated_at_key());
    assert("content"@ =~= content_key());
    let ghost d = doc;
    let EditorDocument { version, updated_at, content } = doc;
    let mut m = empty_object();
    insert_entry(&mut m, String::from_str("version"), string_value(version));
    insert_entry(&mut m, String::from_str("updated_at"), string_value(updated_at));
    insert_entry(&mut m, String::from_str("content"), content);
    assert(version_key()[0] != content_key()[0]);
    assert(version_key() != content_key());
    assert(version_key().len() != updated_at_key().len());
    assert(updated_at_key().len() != content_key().len());
    let r = object_value(m);
    assert(json_member(r, version_key()) is Some);
    assert(json_member(r, updated_at_key()) is Some);
    assert(json_member(r, content_key()) is Some);
    r
}

/// Reads a document back from its JSON tree; a missing field, or a version or
/// timestamp that is not a string, is an error.
pub fn document_from_value(v: &serde_json::Value) -> (r: Result<EditorDocument, serde_json::Error>)
    ensures
        match r {
            Ok(d) => read_envelope(*v) == Some(fields_of(d)),
            Err(_) => read_envelope(*v) is None,
        },
{
    proof {
        reveal_strlit("version");
        reveal_strlit("updated_at");
        reveal_strlit("content");
    }
    assert("version"@ =~= version_key());
    assert("updated_at"@ =~= updated_at_key());
    assert("content"@ =~= content_key());
    let version = match member(v, "version") {
        Some(x) => match text(&x) {
            Some(s) => s,
            None => return Err(data_error("invalid type for field `version`, expected a string")),
        },
        None => return Err(data_error("missing field `version`")),
    };
    let updated_at = match member(v, "updated_at") {
        Some(x) => match text(&x) {
            Some(s) => s,
            None => return Err(
                data_error("invalid type for field `updated_at`, expected a string"),
            ),
        },
        None => return Err(data_error("missing field `updated_at`")),
    };
    let content = match member(v, "content") {
        Some(x) => x,
        None => return Err(data_error("missing field `content`")),
    };
    Ok(EditorDocument { version, updated_at, content })
}

/// An envelope that holds exactly these fields reads back as them.
pub proof fn lemma_envelope_round_trip(
    v: serde_json::Value,
    version: Seq<char>,
    updated_at: Seq<char>,
    content: serde_json::Value,
)
    requires
        is_envelope_of(v, version, updated_at, content),
    ensures
        read_envelope(v) == Some((version, updated_at, content)),
{
}

/// Recovering what an autosave wrote gives back the autosaved content, for a
/// tree that reads back from its own indented text as itself.
pub proof fn lemma_recover_after_autosave(
    v: serde_json::Value,
    stamp: Seq<char>,
    content: serde_json::Value,
)
    requires
        is_envelope_of(v, schema_version(), stamp, content),
        json_parsed(json_pretty(v)) == Some(v),
    ensures
        json_parsed(json_pretty(v)) matches Some(w) && read_envelope(w) == Some(
            (schema_version(), stamp, content),
        ),
{
    lemma_envelope_round_trip(v, schema_version(), stamp, content);
}

/// The JSON text of a document holding `content`, stamped with the time
/// `updated_at`.
pub fn encode_stamped(content: serde_json::Value, updated_at: String) -> (r: String)
    ensures
        exists|v: serde_json::Value|
            r@ == json_pretty(v) && is_envelope_of(v, schema_version(), updated_at@, content),
{
    let doc = EditorDocument::stamped(content, updated_at);
    let v = envelope_value(doc);
    match to_pretty_text(&v) {
        Ok(s) => s,
        Err(_) => {
            assert(false);
            String::new()
        },
    }
}

/// The JSON text of a new document holding `content`, stamped with the
/// current time.
pub fn encode_document(content: serde_json::Value) -> (r: String)
    ensures
        exists|v: serde_json::Value, t: Seq<char>|
            r@ == json_pretty(v) && is_envelope_of(v, schema_version(), t, content),
{
    let stamp = current_timestamp();
    let ghost t = stamp@;
    let r = encode_stamped(content, stamp);
    let ghost v = choose|v: serde_json::Value|
        r@ == json_pretty(v) && is_envelope_of(v, schema_version(), t, content);
    assert(r@ == json_pretty(v) && is_envelope_of(v, schema_version(), t, content));
    r
}

/// Reads a document from its JSON text.
pub fn decode_document(raw: &str) -> (r: Result<EditorDocument, serde_json::Error>)
    ensures
        match r {
            Ok(d) => json_parsed(raw@) matches Some(v) && read_envelope(v) == Some(fields_of(d)),
            Err(_) => !(json_parsed(raw@) matches Some(v) && read_envelope(v) is Some),
        },
{
    let v = parse_text(raw)?;
    document_from_value(&v)
}

/// The text that an autosave writes for `content`.
pub fn autosave_payload(content: serde_json::Value) -> (r: String)
    ensures
        exists|v: serde_json::Value, t: Seq<char>|
            r@ == json_pretty(v) && is_envelope_of(v, schema_version(), t, content),
{
    encode_document(content)
}

/// What recovery returns, given the autosave file's text if one exists: no
/// document when there is none, the document when it reads, an error when it
/// does not.
pub fn recover_from(raw: Option<String>) -> (r: Result<Option<EditorDocument>, AutosaveError>)
    ensures
        raw is None ==> r matches Ok(None),
        raw matches Some(s) ==> match r {
            Ok(Some(d)) => json_parsed(s@) matches Some(v) && read_envelope(v) == Some(
                fields_of(d),
            ),
            Ok(None) => false,
            Err(e) => e is Json && !(json_parsed(s@) matches Some(v) && read_envelope(v) is Some),
        },
{
    match raw {
        None => Ok(None),
        Some(s) => match decode_document(s.as_str()) {
            Ok(d) => Ok(Some(d)),
            Err(e) => Err(AutosaveError::Json(e)),
        },
    }
}

} // verus!
