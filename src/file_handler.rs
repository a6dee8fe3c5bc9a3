//! Document files: the path rules that guard every read and write, and the
//! steps of opening and saving between the file dialog and the disk.
use vstd::prelude::*;
use vstd::string::StringExecFns;
use crate::autosave::{decode_document, encode_document, is_envelope_of, read_envelope, schema_version};
use crate::json::{json_parsed, json_pretty};
use crate::text::{chars_of, ends_with, has_suffix};

verus! {

#[verifier::external_type_specification]
#[verifier::external_body]
pub struct ExRegex(regex::Regex);

#[verifier::external_type_specification]
#[verifier::external_body]
pub struct ExRegexError(regex::Error);

#[verifier::external_type_specification]
#[verifier::external_body]
pub struct ExIoError(std::io::Error);

/// A document that was read from disk: where it came from and its payload.
#[derive(Debug)]
pub struct OpenedDocument {
    pub path: String,
    pub content: serde_json::Value,
}

#[derive(Debug)]
pub enum FileError {
    NoFile,
    InvalidExtension,
    InvalidPath,
    Io(std::io::Error),
    Json(serde_json::Error),
}

/// The compound suffix that every document file name ends with.
pub open spec fn document_suffix() -> Seq<char> {
    seq!['.', 'm', 'a', 'n', 'j', 'a', 'w', 'o', 'r', 'd', '.', 'j', 's', 'o', 'n']
}

/// The pattern of the control-character class, as the regex source reads it.
pub open spec fn control_class() -> Seq<char> {
    seq!['[', '\\', 'x', '0', '0', '-', '\\', 'x', '1', 'F', ']']
}

/// Whether `s` holds a control character (below U+0020).
pub open spec fn has_control(s: Seq<char>) -> bool {
    exists|i: int| 0 <= i < s.len() && (s[i] as u32) < 0x20
}

/// The pattern that a compiled regex was built from.
pub uninterp spec fn regex_source(re: regex::Regex) -> Seq<char>;

/// Relies on `regex::Regex::new`: a compiled regex keeps its pattern, which
/// `Regex::as_str` gives back; the outcome depends on the pattern alone, and
/// the control-character class is a valid pattern well within the default
/// size limit.
#[verifier::external_body]
fn compile(pattern: &str) -> (r: Result<regex::Regex, regex::Error>)
    ensures
        r matches Ok(re) ==> regex_source(re) == pattern@,
        pattern@ == control_class() ==> r is Ok,
{
    regex::Regex::new(pattern)
}

/// Relies on `regex::Regex::is_match`: for the class of U+0000 to U+001F, a
/// match is a character of that range anywhere in the text.
#[verifier::external_body]
fn is_match(re: &regex::Regex, s: &str) -> (r: bool)
    requires
        regex_source(*re) == control_class(),
    ensures
        r == has_control(s@),
{
    re.is_match(s)
}

/// The verdict on a path, given whether it holds a control character.
pub fn path_verdict(path: &str, control: bool) -> (r: Result<(), FileError>)
    ensures
        control ==> r matches Err(FileError::InvalidPath),
        !control && !has_suffix(path@, document_suffix()) ==> r matches Err(
            FileError::InvalidExtension,
        ),
        !control && has_suffix(path@, document_suffix()) ==> r is Ok,
{
    if control {
        return Err(FileError::InvalidPath);
    }
    let cs = chars_of(path);
    let suffix = chars_of(".manjaword.json");
    proof {
        reveal_strlit(".manjaword.json");
    }
    assert(suffix@ == document_suffix());
    if !ends_with(&cs, &suffix) {
        return Err(FileError::InvalidExtension);
    }
    Ok(())
}

/// Checks a path before any file access: a control character makes it
/// invalid, and a name without the compound suffix has the wrong extension.
pub fn validate_path(path: &str) -> (r: Result<(), FileError>)
    ensures
        has_control(path@) ==> r matches Err(FileError::InvalidPath),
        !has_control(path@) && !has_suffix(path@, document_suffix()) ==> r matches Err(
            FileError::InvalidExtension,
        ),
        !has_control(path@) && has_suffix(path@, document_suffix()) ==> r is Ok,
{
    let pattern = "[\\x00-\\x1F]";
    proof {
        reveal_strlit("[\\x00-\\x1F]");
    }
    assert(pattern@ == control_class());
    match compile(pattern) {
        Ok(re) => {
            let control = is_match(&re, path);
            path_verdict(path, control)
        },
        Err(_) => {
            assert(false);
            Err(FileError::InvalidPath)
        },
    }
}

/// The path a document is saved under: the chosen path, with the compound
/// suffix appended when it does not already end with it.
pub fn document_save_path(chosen: &str) -> (r: String)
    ensures
        r@ == (if has_suffix(chosen@, document_suffix()) {
            chosen@
        } else {
            chosen@ + document_suffix()
        }),
        has_suffix(r@, document_suffix()),
{
    let cs = chars_of(chosen);
    let suffix = chars_of(".manjaword.json");
    proof {
        reveal_strlit(".manjaword.json");
    }
    assert(suffix@ == document_suffix());
    let mut out = String::from_str(chosen);
    if !ends_with(&cs, &suffix) {
        out.append(".manjaword.json");
        let ghost full = chosen@ + document_suffix();
        assert(full.subrange(full.len() - document_suffix().len(), full.len() as int)
            =~= document_suffix());
    }
    out
}

/// The path under which a document chosen as `chosen` is saved.
pub open spec fn saved_path(chosen: Seq<char>) -> Seq<char> {
    if has_suffix(chosen, document_suffix()) {
        chosen
    } else {
        chosen + document_suffix()
    }
}

/// The save path ends with the compound suffix exactly as chosen when the
/// name had it, and with one copy appended when it did not; saving under the
/// save path again leaves it unchanged.
pub proof fn lemma_saved_path_suffix_once(chosen: Seq<char>)
    ensures
        has_suffix(saved_path(chosen), document_suffix()),
        !has_suffix(chosen, document_suffix()) ==> saved_path(chosen) == chosen
            + document_suffix(),
        saved_path(saved_path(chosen)) == saved_path(chosen),
{
    let full = chosen + document_suffix();
    assert(full.subrange(full.len() - document_suffix().len(), full.len() as int)
        =~= document_suffix());
}

proof fn lemma_saved_path_control(chosen: Seq<char>)
    ensures
        has_control(saved_path(chosen)) == has_control(chosen),
{
    let p = saved_path(chosen);
    if has_control(chosen) {
        let i = choose|i: int| 0 <= i < chosen.len() && (chosen[i] as u32) < 0x20;
        assert(p[i] == chosen[i]);
    }
    if has_control(p) {
        let i = choose|i: int| 0 <= i < p.len() && (p[i] as u32) < 0x20;
        if i >= chosen.len() {
            assert(p[i] == document_suffix()[i - chosen.len()]);
        } else {
            assert(p[i] == chosen[i]);
        }
    }
}

/// The save step between the dialog and the disk: the final path (the
/// compound suffix appended when missing), validated, and the text of a new
/// envelope holding `content`.
pub fn save_payload(chosen: &str, content: serde_json::Value) -> (r: Result<
    (String, String),
    FileError,
>)
    ensures
        has_control(chosen@) ==> r matches Err(FileError::InvalidPath),
        !has_control(chosen@) ==> r is Ok,
        r matches Ok((path, payload)) ==> {
            &&& path@ == saved_path(chosen@)
            &&& !has_control(path@)
            &&& has_suffix(path@, document_suffix())
            &&& exists|v: serde_json::Value, t: Seq<char>|
                payload@ == json_pretty(v) && is_envelope_of(v, schema_version(), t, content)
        },
{
    let path = document_save_path(chosen);
    proof {
        lemma_saved_path_control(chosen@);
        lemma_saved_path_suffix_once(chosen@);
    }
    match validate_path(path.as_str()) {
        Ok(()) => {},
        Err(e) => return Err(e),
    }
    let payload = encode_document(content);
    Ok((path, payload))
}

/// The open step after the file was read: the document's payload, with the
/// path it came from; malformed text is an error.
pub fn opened_document(path: &str, raw: &str) -> (r: Result<OpenedDocument, FileError>)
    ensures
        match r {
            Ok(d) => d.path@ == path@ && (json_parsed(raw@) matches Some(v) && read_envelope(
                v,
            ) matches Some(f) && f.2 == d.content),
            Err(e) => e is Json && !(json_parsed(raw@) matches Some(v) && read_envelope(v) is Some),
        },
{
    match decode_document(raw) {
        Ok(doc) => Ok(OpenedDocument { path: String::from_str(path), content: doc.content }),
        Err(e) => Err(FileError::Json(e)),
    }
}

} // verus!
