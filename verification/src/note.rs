//! The note writer: from a vault, a title and a text to the file that holds
//! the note.
//!
//! Nothing here touches the disk. [`plan_write`] says which file is to hold
//! which text; the caller writes it, replacing what the file held, and hands
//! what went wrong, if anything, to [`write_result`].

use vstd::prelude::*;
use vstd::string::*;
use crate::text::push_char;

verus! {

/// The character that stands for `c` in a file name: a space becomes an
/// underscore, every other character stays.
pub open spec fn sanitized_char(c: char) -> char {
    if c == ' ' {
        '_'
    } else {
        c
    }
}

/// A title as it appears in a file name.
pub open spec fn sanitized_title(title: Seq<char>) -> Seq<char> {
    Seq::new(title.len(), |i: int| sanitized_char(title[i]))
}

/// The path of the file that holds the note `title` of the vault at `vault`:
/// the vault, a slash, the sanitized title and the extension `.md`.
pub open spec fn note_file_path(vault: Seq<char>, title: Seq<char>) -> Seq<char> {
    vault + "/"@ + sanitized_title(title) + ".md"@
}

/// Replaces each space of `title` by an underscore.
pub fn sanitize_title(title: &str) -> (out: String)
    ensures
        out@ == sanitized_title(title@),
{
    let mut out = String::new();
    for c in it: title.chars()
        invariant
            it.seq() == title@,
            out@ == sanitized_title(title@.take(it.index() as int)),
    {
        if c == ' ' {
            push_char(&mut out, '_');
        } else {
            push_char(&mut out, c);
        }
        assert(out@ =~= sanitized_title(title@.take(it.index() + 1)));
    }
    assert(title@.take(title@.len() as int) =~= title@);
    out
}

/// The path of the file that holds the note `title` in the vault at
/// `vault_path`.
pub fn note_path(vault_path: &str, title: &str) -> (path: String)
    ensures
        path@ == note_file_path(vault_path@, title@),
{
    let name = sanitize_title(title);
    let mut path = String::from_str(vault_path);
    path.append("/");
    path.append(name.as_str());
    path.append(".md");
    path
}

/// One file to write: its path and the text it is to hold.
#[derive(Debug, PartialEq, Eq)]
pub struct WriteRequest {
    pub path: String,
    pub content: String,
}

impl Clone for WriteRequest {
    fn clone(&self) -> (copy: WriteRequest)
        ensures
            copy@ == self@,
    {
        WriteRequest { path: self.path.clone(), content: self.content.clone() }
    }
}

/// A [`WriteRequest`] as plain text.
pub struct WriteRequestView {
    pub path: Seq<char>,
    pub content: Seq<char>,
}

impl View for WriteRequest {
    type V = WriteRequestView;

    open spec fn view(&self) -> WriteRequestView {
        WriteRequestView { path: self.path@, content: self.content@ }
    }
}

/// The request that saves `content` as the note `title` of the vault at
/// `vault`: the note's file gets the text as it is.
pub open spec fn planned_write(
    vault: Seq<char>,
    title: Seq<char>,
    content: Seq<char>,
) -> WriteRequestView {
    WriteRequestView { path: note_file_path(vault, title), content }
}

impl WriteRequestView {
    /// The files after the request has been carried out on `files`, a map
    /// from each file's path to its text: the file at the request's path
    /// holds the request's text, whether it existed or not, and every other
    /// file is as it was.
    pub open spec fn carried_out(self, files: Map<Seq<char>, Seq<char>>) -> Map<
        Seq<char>,
        Seq<char>,
    > {
        files.insert(self.path, self.content)
    }
}

/// Says which file is to be written, and with what, to save `content` as the
/// note `title` of the vault at `vault_path`.
pub fn plan_write(vault_path: &str, title: &str, content: &str) -> (request: WriteRequest)
    ensures
        request@ == planned_write(vault_path@, title@, content@),
{
    WriteRequest { path: note_path(vault_path, title), content: String::from_str(content) }
}

/// Why a note's file could not be written.
#[derive(Clone, Copy, Debug, PartialEq, Eq, Structural)]
pub enum WriteFailure {
    /// The vault's folder does not exist.
    DirectoryMissing,
    /// The vault's folder, or the note's file, may not be written.
    PermissionDenied,
    /// No space is left where the vault lies.
    DiskFull,
    /// Anything else.
    Other,
}

impl WriteFailure {
    /// What the user is told: that the note was not saved and, where the
    /// failure says what to do about it, why.
    pub open spec fn message_text(self) -> Seq<char> {
        match self {
            WriteFailure::DirectoryMissing => "note was not saved: invalid vault path"@,
            WriteFailure::PermissionDenied => "note was not saved: permission denied"@,
            WriteFailure::DiskFull => "note was not saved: disk full"@,
            WriteFailure::Other => "note was not saved"@,
        }
    }

    /// What the user is told: that the note was not saved and, where the
    /// failure says what to do about it, why.
    pub fn message(&self) -> (text: &'static str)
        ensures
            text@ == self.message_text(),
    {
        match self {
            WriteFailure::DirectoryMissing => "note was not saved: invalid vault path",
            WriteFailure::PermissionDenied => "note was not saved: permission denied",
            WriteFailure::DiskFull => "note was not saved: disk full",
            WriteFailure::Other => "note was not saved",
        }
    }
}

/// What the front end is told of a write: the path of the note's file where
/// nothing went wrong, else what went wrong.
pub fn write_result(request: WriteRequest, failure: Option<WriteFailure>) -> (result: Result<
    String,
    WriteFailure,
>)
    ensures
        failure is None ==> result == Ok::<String, WriteFailure>(request.path),
        failure is Some ==> result == Err::<String, WriteFailure>(failure->0),
{
    match failure {
        None => Ok(request.path),
        Some(why) => Err(why),
    }
}

/// The line that is logged once a note's file has been written.
pub fn created_line(path: &str) -> (line: String)
    ensures
        line@ == "Note created: "@ + path@,
{
    let mut line = String::from_str("Note created: ");
    line.append(path);
    line
}

/// Once a note has been saved, its file holds the note's text and nothing
/// else: in the files that carrying out the planned request leaves behind,
/// the file at the vault, a slash, the title with its spaces as underscores
/// and `.md` exists and reads back as `content`.
pub proof fn lemma_saved_note_reads_back(
    files: Map<Seq<char>, Seq<char>>,
    vault: Seq<char>,
    title: Seq<char>,
    content: Seq<char>,
)
    ensures
        planned_write(vault, title, content).carried_out(files).dom().contains(
            note_file_path(vault, title),
        ),
        planned_write(vault, title, content).carried_out(files)[note_file_path(vault, title)]
            == content,
{
}

/// Saving is idempotent: carrying out the request for the same vault, title
/// and text a second time leaves the files as the first time left them.
pub proof fn lemma_saving_twice_is_saving_once(
    files: Map<Seq<char>, Seq<char>>,
    vault: Seq<char>,
    title: Seq<char>,
    content: Seq<char>,
)
    ensures
        planned_write(vault, title, content).carried_out(
            planned_write(vault, title, content).carried_out(files),
        ) == planned_write(vault, title, content).carried_out(files),
{
    let request = planned_write(vault, title, content);
    assert(request.carried_out(request.carried_out(files)) =~= request.carried_out(files));
}

/// A second save under the same title overwrites the first: the note's file
/// then holds the second text, and the files are as if the first save had
/// never happened.
pub proof fn lemma_later_save_overwrites(
    files: Map<Seq<char>, Seq<char>>,
    vault: Seq<char>,
    title: Seq<char>,
    first: Seq<char>,
    second: Seq<char>,
)
    ensures
        planned_write(vault, title, second).carried_out(
            planned_write(vault, title, first).carried_out(files),
        )[note_file_path(vault, title)] == second,
        planned_write(vault, title, second).carried_out(
            planned_write(vault, title, first).carried_out(files),
        ) == planned_write(vault, title, second).carried_out(files),
{
    let earlier = planned_write(vault, title, first);
    let later = planned_write(vault, title, second);
    assert(later.carried_out(earlier.carried_out(files)) =~= later.carried_out(files));
}

} // verus!
