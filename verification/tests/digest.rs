use lenso_email_smtp_plugin::digest::{digest_identity, digest_parts, digest_text};
use lenso_email_smtp_plugin::text::{contains_line_break, join_lines, same_text};

#[test]
fn digests_have_known_values() {
    assert_eq!(
        digest_parts(&[]),
        "sha256:e3b0c44298fc1c149afbf4c8996fb92427ae41e4649b934ca495991b7852b855"
    );
    assert_eq!(
        digest_text(""),
        "sha256:af5570f5a1810b7af78caf4bc70a660f0df51e42baf91d4de5b2328de0e83dfc"
    );
    assert_eq!(
        digest_text("abc"),
        "sha256:c3494ca1a2cf8eeb8a11ded316fb55b83c3bbbedb6313cd50415251e5d09e12f"
    );
    assert_eq!(
        digest_text("\u{e9}"),
        "sha256:1d9b2f68e31ef2b6730c67d7729ca6a523e7f19d8987ca7c72eb93cb3bb9d979"
    );
    assert_eq!(
        digest_parts(&[b"Hello", b"Hello", b"<p>Hello</p>"]),
        "sha256:35d11139c6b9b52329638cc00c9da641252880b4d865b11c02895a4c9670d28f"
    );
}

#[test]
fn identifiers_are_hashed_as_they_are() {
    assert_eq!(
        digest_identity(""),
        "sha256:e3b0c44298fc1c149afbf4c8996fb92427ae41e4649b934ca495991b7852b855"
    );
    assert_eq!(
        digest_identity("abc"),
        "sha256:ba7816bf8f01cfea414140de5dae2223b00361a396177a9cb410ff61f20015ad"
    );
    assert_eq!(
        digest_identity("\u{e9}"),
        "sha256:4a99557e4033c3539de2eb65472017cad5f9557f7a0625a09f1c3f6e2ba69c4c"
    );
    assert_ne!(digest_identity("abc"), digest_text("abc"));
}

#[test]
fn parts_are_told_apart() {
    let split = digest_parts(&[b"ab", b"c"]);
    assert_ne!(split, digest_parts(&[b"a", b"bc"]));
    assert_ne!(split, digest_parts(&[b"abc"]));
    assert_ne!(split, digest_parts(&[b"ab", b"c", b""]));
    assert_ne!(split, digest_parts(&[b"c", b"ab"]));
    assert_eq!(split, digest_parts(&[b"ab", b"c"]));
}

#[test]
fn lines_are_joined_by_line_feeds() {
    assert_eq!(join_lines(&vec![]), "");
    assert_eq!(join_lines(&vec!["one".to_string()]), "one");
    assert_eq!(
        join_lines(&vec!["one".to_string(), String::new(), "three".to_string()]),
        "one\n\nthree"
    );
}

#[test]
fn texts_are_compared() {
    assert!(same_text("\u{e9}", "\u{e9}"));
    assert!(!same_text("a", "ab"));
    assert!(!same_text("a", "b"));
    assert!(contains_line_break("a\rb"));
    assert!(contains_line_break("a\n"));
    assert!(!contains_line_break("a\u{2028}b"));
}
