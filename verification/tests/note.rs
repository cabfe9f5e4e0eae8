use quicknote::note::{
    created_line, note_path, plan_write, sanitize_title, write_result, WriteFailure, WriteRequest,
};

#[test]
fn sanitize_replaces_each_space() {
    assert_eq!(sanitize_title("My First Note"), "My_First_Note");
    assert_eq!(sanitize_title("a  b"), "a__b");
    assert_eq!(sanitize_title(" lead and trail "), "_lead_and_trail_");
}

#[test]
fn sanitize_keeps_everything_else() {
    assert_eq!(sanitize_title(""), "");
    assert_eq!(sanitize_title("plain"), "plain");
    assert_eq!(sanitize_title("tab\tstays"), "tab\tstays");
    assert_eq!(sanitize_title("under_score"), "under_score");
    assert_eq!(sanitize_title("caf\u{e9} cr\u{e8}me \u{1f4dd}"), "caf\u{e9}_cr\u{e8}me_\u{1f4dd}");
    assert_eq!(sanitize_title("a/b.c"), "a/b.c");
}

#[test]
fn sanitize_is_idempotent() {
    let once = sanitize_title("one two three");
    assert_eq!(sanitize_title(&once), once);
}

#[test]
fn path_is_vault_slash_title_md() {
    assert_eq!(note_path("/tmp/vault", "My First Note"), "/tmp/vault/My_First_Note.md");
    assert_eq!(note_path("vault", "t"), "vault/t.md");
    assert_eq!(note_path("/v/", "a b"), "/v//a_b.md");
    assert_eq!(note_path("/v", ""), "/v/.md");
}

#[test]
fn first_note_goes_to_its_file_with_its_text() {
    let request = plan_write("/tmp/vault", "My First Note", "hello");
    assert_eq!(request.path, "/tmp/vault/My_First_Note.md");
    assert_eq!(request.content, "hello");
}

#[test]
fn content_is_written_as_it_is() {
    let text = "# Title\n\n  two spaces \u{e9}\r\n\ttab\n";
    let request = plan_write("/tmp/vault", "n", text);
    assert_eq!(request.content, text);
    assert_eq!(request.content.as_bytes(), text.as_bytes());
    assert_eq!(plan_write("/tmp/vault", "n", "").content, "");
}

#[test]
fn same_arguments_give_the_same_request() {
    let first = plan_write("/tmp/vault", "daily log", "entry");
    let second = plan_write("/tmp/vault", "daily log", "entry");
    assert_eq!(first, second);
    assert_eq!(first.clone(), second);
}

#[test]
fn later_text_goes_to_the_same_file() {
    let a = plan_write("/tmp/vault", "daily log", "A");
    let b = plan_write("/tmp/vault", "daily log", "B");
    assert_eq!(a.path, b.path);
    assert_eq!(b.content, "B");
    assert_ne!(a, b);
}

#[test]
fn titles_that_differ_only_in_space_or_underscore_share_a_file() {
    assert_eq!(plan_write("/v", "a b", "x").path, plan_write("/v", "a_b", "x").path);
    assert_ne!(plan_write("/v", "a b", "x").path, plan_write("/v", "a-b", "x").path);
}

#[test]
fn write_without_failure_returns_the_path() {
    let request = plan_write("/tmp/vault", "My First Note", "hello");
    assert_eq!(write_result(request, None), Ok(String::from("/tmp/vault/My_First_Note.md")));
}

#[test]
fn missing_directory_is_a_failure_result() {
    let request = plan_write("/nonexistent/path", "t", "c");
    assert_eq!(request.path, "/nonexistent/path/t.md");
    assert_eq!(
        write_result(request, Some(WriteFailure::DirectoryMissing)),
        Err(WriteFailure::DirectoryMissing)
    );
}

#[test]
fn each_failure_is_returned_as_it_came() {
    let request = WriteRequest { path: String::from("/v/t.md"), content: String::from("c") };
    assert_eq!(
        write_result(request.clone(), Some(WriteFailure::PermissionDenied)),
        Err(WriteFailure::PermissionDenied)
    );
    assert_eq!(
        write_result(request.clone(), Some(WriteFailure::DiskFull)),
        Err(WriteFailure::DiskFull)
    );
    assert_eq!(write_result(request, Some(WriteFailure::Other)), Err(WriteFailure::Other));
}

#[test]
fn failure_messages() {
    assert_eq!(
        WriteFailure::DirectoryMissing.message(),
        "note was not saved: invalid vault path"
    );
    assert_eq!(WriteFailure::PermissionDenied.message(), "note was not saved: permission denied");
    assert_eq!(WriteFailure::DiskFull.message(), "note was not saved: disk full");
    assert_eq!(WriteFailure::Other.message(), "note was not saved");
}

#[test]
fn created_line_names_the_path() {
    assert_eq!(
        created_line("/tmp/vault/My_First_Note.md"),
        "Note created: /tmp/vault/My_First_Note.md"
    );
    assert_eq!(created_line(""), "Note created: ");
}
