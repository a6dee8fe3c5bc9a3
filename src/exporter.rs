//! Export: flattening the editor's delta into lines, choosing the lines that
//! become paragraphs, and placing them on a single page.
use vstd::prelude::*;
use crate::json::{elements, json_elements, json_member, json_text, member, text};
use vstd::string::StringExecFns;
use crate::text::{chars_of, ends_with, has_suffix, split_lines, split_on, texts};

verus! {

#[verifier::external_type_specification]
#[verifier::external_body]
pub struct ExDocxError(docx_rs::DocxError);

#[verifier::external_type_specification]
#[verifier::external_body]
pub struct ExDocx(docx_rs::Docx);

/// The texts of a paragraph document's body paragraphs, in order, as the
/// document shows them (after unescaping).
pub uninterp spec fn docx_paragraph_texts(d: docx_rs::Docx) -> Seq<Seq<char>>;

/// A line as a text run shows it: with its line feeds and carriage returns
/// removed.
pub open spec fn without_breaks(line: Seq<char>) -> Seq<char> {
    line.filter(|c: char| c != '\n' && c != '\r')
}

/// Relies on `docx_rs::Docx::new`: a document without body paragraphs.
#[verifier::external_body]
fn empty_docx() -> (r: docx_rs::Docx)
    ensures
        docx_paragraph_texts(r) == Seq::<Seq<char>>::empty(),
{
    docx_rs::Docx::new()
}

/// Relies on `docx_rs::Docx::add_paragraph` with a paragraph of one run
/// (`Paragraph::new`, `add_run`, `Run::new`, `add_text`): the paragraph is
/// appended to the body; `add_text` drops the line's line feeds, and the
/// escaping in `Text::new` drops its carriage returns.
#[verifier::external_body]
fn push_paragraph(doc: docx_rs::Docx, line: String) -> (r: docx_rs::Docx)
    ensures
        docx_paragraph_texts(r) == docx_paragraph_texts(doc).push(without_breaks(line@)),
{
    doc.add_paragraph(docx_rs::Paragraph::new().add_run(docx_rs::Run::new().add_text(line)))
}

#[derive(Debug)]
pub enum ExportError {
    NoFile,
    Io(std::io::Error),
    Docx(docx_rs::DocxError),
}

pub open spec fn ops_key() -> Seq<char> {
    seq!['o', 'p', 's']
}

pub open spec fn insert_key() -> Seq<char> {
    seq!['i', 'n', 's', 'e', 'r', 't']
}

/// The text that one operation inserts, when it inserts text.
pub open spec fn op_insert(op: serde_json::Value) -> Option<Seq<char>> {
    match json_member(op, insert_key()) {
        Some(x) => json_text(x),
        None => None,
    }
}

/// The inserted texts of a list of operations, in order, skipping operations
/// without a textual insert.
pub open spec fn inserts_of(ops: Seq<serde_json::Value>) -> Seq<Seq<char>>
    decreases ops.len(),
{
    if ops.len() == 0 {
        Seq::empty()
    } else {
        let init = inserts_of(ops.drop_last());
        match op_insert(ops.last()) {
            Some(t) => init.push(t),
            None => init,
        }
    }
}

/// The inserted texts of a delta; nothing when the payload has no `ops` array.
pub open spec fn delta_inserts(content: serde_json::Value) -> Seq<Seq<char>> {
    match json_member(content, ops_key()) {
        Some(ops) => match json_elements(ops) {
            Some(items) => inserts_of(items),
            None => Seq::empty(),
        },
        None => Seq::empty(),
    }
}

/// Each text split at its line breaks, the pieces of all texts in order.
pub open spec fn lines_of(inserts: Seq<Seq<char>>) -> Seq<Seq<char>>
    decreases inserts.len(),
{
    if inserts.len() == 0 {
        Seq::empty()
    } else {
        lines_of(inserts.drop_last()) + split_on(inserts.last(), '\n')
    }
}

/// The lines of a delta.
pub open spec fn delta_lines(content: serde_json::Value) -> Seq<Seq<char>> {
    lines_of(delta_inserts(content))
}

/// The characters that Unicode gives the White_Space property.
pub open spec fn is_space(c: char) -> bool {
    let u = c as u32;
    (0x09 <= u <= 0x0d) || u == 0x20 || u == 0x85 || u == 0xa0 || u == 0x1680 || (0x2000 <= u
        <= 0x200a) || u == 0x2028 || u == 0x2029 || u == 0x202f || u == 0x205f || u == 0x3000
}

/// Whether a line holds nothing but white space.
pub open spec fn is_blank(s: Seq<char>) -> bool {
    forall|i: int| 0 <= i < s.len() ==> is_space(#[trigger] s[i])
}

/// The lines that are not blank, in order.
pub open spec fn kept_lines(lines: Seq<Seq<char>>) -> Seq<Seq<char>>
    decreases lines.len(),
{
    if lines.len() == 0 {
        Seq::empty()
    } else {
        let init = kept_lines(lines.drop_last());
        if is_blank(lines.last()) {
            init
        } else {
            init.push(lines.last())
        }
    }
}

/// Height in millimetres of the first line on a page.
pub const PAGE_TOP_MM: u64 = 280;

/// Vertical advance in millimetres from one line to the next.
pub const LINE_STEP_MM: u64 = 8;

/// Lowest height in millimetres at which a line is still placed.
pub const PAGE_BOTTOM_MM: u64 = 15;

/// How many lines fit on one page between the top and the bottom margin.
pub open spec fn page_capacity() -> int {
    (PAGE_TOP_MM - PAGE_BOTTOM_MM) as int / LINE_STEP_MM as int + 1
}

/// Whether `c` is white space.
pub fn space_char(c: char) -> (r: bool)
    ensures
        r == is_space(c),
{
    let u = c as u32;
    (0x09 <= u && u <= 0x0d) || u == 0x20 || u == 0x85 || u == 0xa0 || u == 0x1680 || (0x2000
        <= u && u <= 0x200a) || u == 0x2028 || u == 0x2029 || u == 0x202f || u == 0x205f || u
        == 0x3000
}

/// Whether `line` holds nothing but white space.
pub fn blank_line(line: &str) -> (r: bool)
    ensures
        r == is_blank(line@),
{
    let cs = chars_of(line);
    let mut i: usize = 0;
    while i < cs.len()
        invariant
            cs@ == line@,
            i <= cs@.len(),
            forall|j: int| 0 <= j < i ==> is_space(#[trigger] cs@[j]),
        decreases cs@.len() - i,
    {
        if !space_char(cs[i]) {
            return false;
        }
        i += 1;
    }
    true
}

/// The lines of the given inserted texts: each text split at its line
/// breaks, in order.
pub fn split_inserts(inserts: &Vec<String>) -> (r: Vec<String>)
    ensures
        texts(r@) == lines_of(texts(inserts@)),
{
    let mut out: Vec<String> = Vec::new();
    let mut i: usize = 0;
    while i < inserts.len()
        invariant
            i <= inserts@.len(),
            texts(out@) == lines_of(texts(inserts@.subrange(0, i as int))),
        decreases inserts@.len() - i,
    {
        let mut pieces = split_lines(inserts[i].as_str());
        let ghost before = out@;
        let ghost added = pieces@;
        out.append(&mut pieces);
        proof {
            let s = texts(inserts@.subrange(0, i + 1));
            assert(s.drop_last() =~= texts(inserts@.subrange(0, i as int)));
            assert(texts(out@) =~= texts(before) + texts(added));
        }
        i += 1;
    }
    assert(inserts@.subrange(0, inserts@.len() as int) =~= inserts@);
    out
}

/// The inserted texts of a delta, as `delta_inserts` states.
pub fn delta_inserts_of(content: &serde_json::Value) -> (r: Vec<String>)
    ensures
        texts(r@) == delta_inserts(*content),
{
    proof {
        reveal_strlit("ops");
        reveal_strlit("insert");
    }
    assert("ops"@ =~= ops_key());
    assert("insert"@ =~= insert_key());
    let mut out: Vec<String> = Vec::new();
    let ops = match member(content, "ops") {
        Some(o) => o,
        None => return out,
    };
    let items = match elements(&ops) {
        Some(items) => items,
        None => return out,
    };
    let mut i: usize = 0;
    while i < items.len()
        invariant
            i <= items@.len(),
            "insert"@ == insert_key(),
            texts(out@) == inserts_of(items@.subrange(0, i as int)),
        decreases items@.len() - i,
    {
        let ghost prev = items@.subrange(0, i as int);
        assert(items@.subrange(0, i + 1).drop_last() =~= prev);
        if let Some(x) = member(&items[i], "insert") {
            if let Some(t) = text(&x) {
                out.push(t);
            }
        }
        assert(texts(out@) =~= inserts_of(items@.subrange(0, i + 1)));
        i += 1;
    }
    assert(items@.subrange(0, items@.len() as int) =~= items@);
    out
}

/// The lines of the editor's delta: the texts that its operations insert,
/// each split at its line breaks; none when the payload is not a delta.
pub fn delta_to_lines(content: &serde_json::Value) -> (r: Vec<String>)
    ensures
        texts(r@) == delta_lines(*content),
{
    let inserts = delta_inserts_of(content);
    split_inserts(&inserts)
}

/// A payload without an `ops` array has no lines.
pub proof fn lemma_no_ops_no_lines(content: serde_json::Value)
    requires
        !(json_member(content, ops_key()) matches Some(ops) && json_elements(ops) is Some),
    ensures
        delta_lines(content) == Seq::<Seq<char>>::empty(),
{
}

/// The lines that become paragraphs: the lines that are not blank, in order.
pub fn paragraph_lines(lines: Vec<String>) -> (r: Vec<String>)
    ensures
        texts(r@) == kept_lines(texts(lines@)),
{
    let mut out: Vec<String> = Vec::new();
    let mut rest = lines;
    let ghost all = lines@;
    let mut i: usize = 0;
    let n = rest.len();
    while i < n
        invariant
            n == all.len(),
            rest@ == all,
            i <= n,
            texts(out@) == kept_lines(texts(all.subrange(0, i as int))),
        decreases n - i,
    {
        let ghost prev = texts(all.subrange(0, i as int));
        assert(texts(all.subrange(0, i + 1)).drop_last() =~= prev);
        assert(texts(all.subrange(0, i + 1)).last() == rest@[i as int]@);
        if !blank_line(rest[i].as_str()) {
            out.push(String::from_str(rest[i].as_str()));
        }
        i += 1;
    }
    assert(all.subrange(0, n as int) =~= all);
    out
}

/// The lines placed on the single page of a page-layout export, each with its
/// height in millimetres: the non-blank lines from the top margin down, one
/// step apart, as many as fit above the bottom margin.
pub fn page_layout(lines: Vec<String>) -> (r: Vec<(String, u64)>)
    ensures
        r@.len() == if kept_lines(texts(lines@)).len() < page_capacity() {
            kept_lines(texts(lines@)).len() as int
        } else {
            page_capacity()
        },
        forall|k: int|
            0 <= k < r@.len() ==> (#[trigger] r@[k]).0@ == kept_lines(texts(lines@))[k] && r@[k].1
                == PAGE_TOP_MM - k * LINE_STEP_MM,
{
    let kept = paragraph_lines(lines);
    let mut out: Vec<(String, u64)> = Vec::new();
    let mut y: u64 = PAGE_TOP_MM;
    let mut rest = kept;
    let ghost all = texts(rest@);
    let n = rest.len();
    let mut i: usize = 0;
    while i < n && y >= PAGE_BOTTOM_MM
        invariant
            n == all.len(),
            texts(rest@) == all,
            i <= n,
            out@.len() == i,
            i <= page_capacity(),
            y == PAGE_TOP_MM - i * LINE_STEP_MM,
            (y >= PAGE_BOTTOM_MM) == (i < page_capacity()),
            forall|k: int|
                0 <= k < i ==> (#[trigger] out@[k]).0@ == all[k] && out@[k].1 == PAGE_TOP_MM - k
                    * LINE_STEP_MM,
        decreases n - i,
    {
        assert(rest@[i as int]@ == all[i as int]);
        out.push((String::from_str(rest[i].as_str()), y));
        if y >= LINE_STEP_MM {
            y = y - LINE_STEP_MM;
        } else {
            y = 0;
        }
        i += 1;
    }
    out
}

/// The paragraph document of an export: one paragraph for each line that is
/// not blank, in order.
pub fn paragraph_document(lines: Vec<String>) -> (r: docx_rs::Docx)
    ensures
        docx_paragraph_texts(r) == kept_lines(texts(lines@)).map_values(
            |l: Seq<char>| without_breaks(l),
        ),
{
    let kept = paragraph_lines(lines);
    let ghost all = texts(kept@);
    let mut doc = empty_docx();
    let mut rest = kept;
    let n = rest.len();
    let mut i: usize = 0;
    while i < n
        invariant
            n == all.len(),
            texts(rest@) == all,
            i <= n,
            docx_paragraph_texts(doc) == all.subrange(0, i as int).map_values(
                |l: Seq<char>| without_breaks(l),
            ),
        decreases n - i,
    {
        assert(rest@[i as int]@ == all[i as int]);
        doc = push_paragraph(doc, String::from_str(rest[i].as_str()));
        assert(all.subrange(0, i + 1).map_values(|l: Seq<char>| without_breaks(l)) =~= all.subrange(
            0,
            i as int,
        ).map_values(|l: Seq<char>| without_breaks(l)).push(without_breaks(all[i as int])));
        i += 1;
    }
    assert(all.subrange(0, n as int) =~= all);
    doc
}

/// The path an export is written to: the chosen path when it already ends
/// with `.` and the format's extension, else the chosen path with that
/// extension appended.
pub fn export_path(chosen: &str, ext: &str) -> (r: String)
    ensures
        r@ == (if has_suffix(chosen@, seq!['.'] + ext@) {
            chosen@
        } else {
            chosen@ + (seq!['.'] + ext@)
        }),
        has_suffix(r@, seq!['.'] + ext@),
{
    proof {
        reveal_strlit(".");
    }
    let mut dotted = String::from_str(".");
    dotted.append(ext);
    assert(dotted@ =~= seq!['.'] + ext@);
    let cs = chars_of(chosen);
    let suffix = chars_of(dotted.as_str());
    let mut out = String::from_str(chosen);
    if !ends_with(&cs, &suffix) {
        out.append(dotted.as_str());
        let ghost full = chosen@ + dotted@;
        assert(full.subrange(full.len() - dotted@.len(), full.len() as int) =~= dotted@);
    }
    out
}

} // verus!
