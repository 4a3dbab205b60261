use codeclimate::fingerprint::{digest_text, fits, text};
use codeclimate::CodeClimate;

fn is_lower_hex(text: &str) -> bool {
    text.len() == 40 && text.bytes().all(|b| b.is_ascii_digit() || (b'a'..=b'f').contains(&b))
}

#[test]
fn text_joins_message_path_and_line_with_hyphens() {
    assert_eq!(text("unused variable: x", "src/a.rs", 3), "unused variable: x-src/a.rs-3");
    assert_eq!(text("", "", 0), "--0");
    assert_eq!(text("m", "p", 1000), "m-p-1000");
}

#[test]
fn digest_of_known_texts() {
    assert_eq!(digest_text(""), "da39a3ee5e6b4b0d3255bfef95601890afd80709");
    assert_eq!(digest_text("abc"), "a9993e364706816aba3e25717850c26c9cd0d89d");
}

#[test]
fn fingerprint_is_sha1_of_the_joined_text() {
    assert_eq!(
        CodeClimate::calculate_fingerprint("unused variable: x", "src/a.rs", 3),
        "95889601cea1f36e1e014e9eaeee389c5a436467"
    );
    assert_eq!(
        CodeClimate::calculate_fingerprint("consider removing this", "src/lib.rs", 12),
        "2c5b933ccb6456377567d9f7a9f415ba6c27be85"
    );
}

#[test]
fn fingerprint_of_empty_message_and_path() {
    assert_eq!(
        CodeClimate::calculate_fingerprint("", "", 0),
        "d56c5009a73ce80d9695ffbd5d66a353b56226f9"
    );
}

#[test]
fn fingerprint_digests_utf8() {
    assert_eq!(
        CodeClimate::calculate_fingerprint("héllo wörld", "src/€.rs", 1),
        "21fe8f678b50b4a192025c87ac0cbc98279a9a5e"
    );
}

#[test]
fn fingerprint_of_widest_line() {
    assert_eq!(
        CodeClimate::calculate_fingerprint("m", "p", 4294967295),
        "e9577e6485d3d1756fb11069c3f6ad7a9cb8ca89"
    );
}

#[test]
fn fingerprint_of_texts_around_the_block_size() {
    let cases = [
        (51, "90f524c5d5e788a17badd783ae10836f351275e5"),
        (52, "7b38117a46e94f8683a1e152559d9a07040b036b"),
        (53, "37079da8b4f8e956a8e153564112ddfa719227f2"),
        (59, "cafeb00a8d1330e42019647807ce5c7ebffaa9a7"),
        (60, "ddf82f36d6d28292a506b46b7a951e55c7de6a1e"),
        (61, "ffbc7200d522ac9aa523a2b9123ecfe01ae961bb"),
        (62, "b53f9cb36329e3f0d4fa227c3eefbef2f4674704"),
        (115, "47464503bd2010d3ca0d65319686701b5ae43d66"),
        (116, "3f860ebba165bcc1ee1d19fdd162c98de1a75925"),
        (117, "ad97d8a0d0f0677638d46992ec941706e28327d6"),
        (200, "a91a6aa742e51fdc3d07e9945118b7423a61bdc6"),
    ];
    for (n, expected) in cases {
        let message = "x".repeat(n);
        assert_eq!(CodeClimate::calculate_fingerprint(&message, "p", 1), expected);
    }
}

#[test]
fn fingerprint_is_forty_lower_case_hex_characters() {
    for (message, path, line) in [("", "", 0), ("a", "b", 1), ("Unused `X`", "SRC/A.RS", 77)] {
        let fingerprint = CodeClimate::calculate_fingerprint(message, path, line);
        assert!(is_lower_hex(&fingerprint), "{}", fingerprint);
    }
}

#[test]
fn fingerprint_is_deterministic() {
    let first = CodeClimate::calculate_fingerprint("dead code", "src/b.rs", 9);
    let second = CodeClimate::calculate_fingerprint("dead code", "src/b.rs", 9);
    assert_eq!(first, second);
    assert_eq!(first, "76a20f7b0af8e704156287ebc7dcfac3ebe896e0");
}

#[test]
fn fingerprint_differs_from_its_text() {
    let joined = text("dead code", "src/b.rs", 9);
    let fingerprint = CodeClimate::calculate_fingerprint("dead code", "src/b.rs", 9);
    assert_ne!(fingerprint, joined);
    assert_eq!(fingerprint, digest_text(&joined));
}

#[test]
fn distinct_findings_have_distinct_fingerprints() {
    let sample = [
        ("unused import", "src/main.rs", 1, "87ceacf477e90bf8ab6e18bfe659acabf9450869"),
        ("unused import", "src/main.rs", 2, "4f65fc6f84e36e2e742a56f8d687d14f2d8187b9"),
        ("unused import", "src/lib.rs", 1, "3eb8e5d4f25ecbe5eef8927fce9ff9e783a17fb4"),
        ("unused imports", "src/main.rs", 1, "7a67798e012c78ff7da7620c1aa5ff4d558eb29f"),
        ("unused import", "src/main.rs", 10, "9e6a37d4632fd5c2267236d0ade406eecfdd6f0a"),
        ("unused import", "src/main.rs", 11, "625e504d1230e8e82799073e67de5a41c8d70303"),
        ("mismatched types", "src/c.rs", 40, "82d274ec6f82a1c45a06683155b5c037d0dd37fa"),
    ];
    let fingerprints: Vec<String> = sample
        .iter()
        .map(|(message, path, line, _)| CodeClimate::calculate_fingerprint(message, path, *line))
        .collect();
    for (i, (_, _, _, expected)) in sample.iter().enumerate() {
        assert_eq!(fingerprints[i], *expected);
        for j in 0..i {
            assert_ne!(fingerprints[i], fingerprints[j]);
        }
    }
}

#[test]
fn hyphen_in_a_path_makes_the_join_ambiguous() {
    let first = CodeClimate::calculate_fingerprint("a-b", "c", 1);
    let second = CodeClimate::calculate_fingerprint("a", "b-c", 1);
    assert_eq!(first, "2445ad9ebb4b8e5a9968859c8373f0cd015283bc");
    assert_eq!(first, second);
}

#[test]
fn ordinary_texts_fit() {
    assert!(fits("unused variable: x", "src/a.rs", 3));
    assert!(fits("", "", 0));
    assert!(fits(&"x".repeat(100_000), "src/a.rs", usize::MAX));
}
