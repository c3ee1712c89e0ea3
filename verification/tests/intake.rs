use fortifile::intake::{classify, encrypted_name, is_encrypted_name, Request};
use fortifile::workspace::{DOCUMENT_NAME, SENTINEL_NAME};

#[test]
fn names_ending_in_marker_are_encrypted() {
    assert!(is_encrypted_name("report.docx.enc"));
    assert!(is_encrypted_name("/home/user/report.enc"));
    assert!(is_encrypted_name(".enc"));
}

#[test]
fn other_names_are_plain() {
    assert!(!is_encrypted_name("report.docx"));
    assert!(!is_encrypted_name(""));
    assert!(!is_encrypted_name("enc"));
    assert!(!is_encrypted_name(".en"));
    assert!(!is_encrypted_name("report.ENC"));
    assert!(!is_encrypted_name("report.enc "));
}

#[test]
fn marker_inside_the_name_does_not_count() {
    assert!(!is_encrypted_name("report.enc.bak"));
    assert!(!is_encrypted_name("/tmp/a.enc/report.docx"));
}

#[test]
fn names_are_read_by_character() {
    assert!(is_encrypted_name("b\u{e9}ret.enc"));
    assert!(is_encrypted_name("\u{6587}\u{66f8}.enc"));
    assert!(!is_encrypted_name("\u{6587}\u{66f8}.docx"));
    assert!(!is_encrypted_name("\u{e9}nc"));
}

#[test]
fn encrypted_name_appends_marker() {
    assert_eq!(encrypted_name("report.docx"), "report.docx.enc");
    assert_eq!(encrypted_name(""), ".enc");
    assert_eq!(encrypted_name("/a/b.enc"), "/a/b.enc.enc");
    assert_eq!(encrypted_name("\u{6587}\u{66f8}"), "\u{6587}\u{66f8}.enc");
}

#[test]
fn encrypted_name_names_an_encrypted_document() {
    for path in ["report.docx", "", "x", "/a/b/c.txt", "already.enc"] {
        assert!(is_encrypted_name(&encrypted_name(path)));
    }
}

#[test]
fn workspace_names() {
    assert_eq!(DOCUMENT_NAME, "test-original.docx");
    assert_eq!(SENTINEL_NAME, "~$st-original.docx");
}

#[test]
fn sentinel_is_lock_name_of_document() {
    let expected = format!("~${}", &DOCUMENT_NAME[2..]);
    assert_eq!(SENTINEL_NAME, expected);
}

#[test]
fn encrypted_documents_are_edited() {
    assert_eq!(classify("report.docx.enc"), Request::Edit);
    assert_eq!(classify(".enc"), Request::Edit);
}

#[test]
fn plain_documents_are_encrypted_beside_themselves() {
    assert_eq!(classify("report.docx"), Request::Encrypt(String::from("report.docx.enc")));
    assert_eq!(classify("a.enc.bak"), Request::Encrypt(String::from("a.enc.bak.enc")));
    assert_eq!(classify(""), Request::Encrypt(String::from(".enc")));
}
