use holochain_runtime::agent_key::{is_readable, AgentPubKey};

fn counting() -> [u8; 32] {
    let mut raw = [0u8; 32];
    for (i, byte) in raw.iter_mut().enumerate() {
        *byte = i as u8 + 1;
    }
    raw
}

#[test]
fn key_text_is_exact() {
    assert_eq!(
        AgentPubKey::from_raw_32([0; 32]).to_text(),
        "uhCAkAAAAAAAAAAAAAAAAAAAAAAAAAAAAAAAAAAAAAAAAAACZ9h_C"
    );
    assert_eq!(
        AgentPubKey::from_raw_32(counting()).to_text(),
        "uhCAkAQIDBAUGBwgJCgsMDQ4PEBESExQVFhcYGRobHB0eHyASfwVd"
    );
}

#[test]
fn key_bytes_are_prefix_key_and_location() {
    let key = AgentPubKey::from_raw_32(counting());
    let bytes = key.get_raw_39();
    assert_eq!(bytes[..3], [0x84, 0x20, 0x24]);
    assert_eq!(bytes[3..35], counting());
    assert_eq!(bytes[35..], [0x12, 0x7f, 0x05, 0x5d]);
    assert_eq!(key.get_raw_32(), counting());
}

#[test]
fn key_agrees_with_the_hash_library() {
    let key = AgentPubKey::from_raw_32([9; 32]);
    let theirs = holo_hash::AgentPubKey::from_raw_32(vec![9; 32]);
    assert_eq!(theirs.get_raw_39(), key.get_raw_39());
    assert_eq!(theirs.get_raw_32(), key.get_raw_32());
    assert_eq!(theirs.to_string(), key.to_text());
}

#[test]
fn key_text_reads_back() {
    for raw in [[0; 32], [7; 32], [255; 32], counting()] {
        let key = AgentPubKey::from_raw_32(raw);
        assert_eq!(AgentPubKey::from_text(&key.to_text()), Ok(key));
    }
}

#[test]
fn key_from_known_text() {
    let text = "uhCAkJCuynkgVdMn_bzZ2ZYaVfygkn0WCuzfFspczxFnZM1QAyXoo";
    assert_eq!(AgentPubKey::from_text(text).unwrap().to_text(), text);
}

#[test]
fn text_that_is_no_key_is_refused() {
    let refused = |text: &str| AgentPubKey::from_text(text).unwrap_err();
    assert_eq!(refused("hCAk"), "NoU");
    assert_eq!(refused("u"), "BadSize");
    assert_eq!(refused("u*"), "BadBase64");
    assert_eq!(
        refused("uhCAkAAAAAAAAAAAAAAAAAAAAAAAAAAAAAAAAAAAAAAAAAAAAAAAA"),
        "BadChecksum(\"uhCAkAAAAAAAAAAAAAAAAAAAAAAAAAAAAAAAAAAAAAAAAAAAAAAAA\")"
    );
}

#[test]
fn only_the_agent_prefix_makes_a_key() {
    let key = AgentPubKey::from_raw_32([1; 32]);
    let mut bytes = key.get_raw_39();
    assert_eq!(AgentPubKey::try_from_raw_39(bytes), Some(key));
    bytes[2] = 0x25;
    assert_eq!(AgentPubKey::try_from_raw_39(bytes), None);
}

#[test]
fn text_is_readable_with_an_ascii_start() {
    assert!(is_readable("uhCAk"));
    assert!(is_readable("x"));
    assert!(!is_readable(""));
    assert!(!is_readable("\u{e9}"));
}
