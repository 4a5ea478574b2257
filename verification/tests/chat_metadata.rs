use sorosusu::chat_metadata::{ChatError, ChatMetadata, CHAT_HASH_WINDOW_SECS};

const ADMIN: u64 = 1;
const CID: &str = "bafybeigdyrzt5sfp7udm7hu76uh7y26nf3efuylqabf3oclgtqy55fbzdi";

#[test]
fn chat_anchor_rules() {
    let mut c = ChatMetadata::init(ADMIN);
    assert_eq!(c.anchor_check(2, 10, &CID.to_string(), 0), Some(ChatError::Unauthorized));
    assert_ne!(c.admin, 2);
    c.authorize_group_admin(ADMIN, 10, 2);
    assert_eq!(c.anchor_check(2, 10, &CID.to_string(), 0), None);
    assert_eq!(c.anchor_check(2, 10, &"short".to_string(), 0), Some(ChatError::InvalidCid));
    assert_eq!(c.anchor_check(2, 10, &"has a space inside".to_string(), 0), Some(ChatError::InvalidCid));
    assert_eq!(c.anchor_check(2, 10, &"x".repeat(129), 0), Some(ChatError::InvalidCid));
    let ev = c.record_chat_hash(2, 10, CID.to_string(), 100);
    assert_eq!((ev.group_id, ev.cid.as_str(), ev.timestamp), (10, CID, 100));
    assert_eq!(c.anchor_check(ADMIN, 10, &CID.to_string(), 100 + CHAT_HASH_WINDOW_SECS - 1), Some(ChatError::TooSoon));
    assert_eq!(c.anchor_check(ADMIN, 10, &CID.to_string(), 100 + CHAT_HASH_WINDOW_SECS), None);
    assert_eq!(c.get_latest_chat_hash(10).unwrap().timestamp, 100);
    assert!(c.get_latest_chat_hash(11).is_none());
}

#[test]
fn chat_history_keeps_last_three() {
    let mut c = ChatMetadata::init(ADMIN);
    for k in 0..5u64 {
        let cid = format!("cid-number-{}", k);
        c.record_chat_hash(ADMIN, 4, cid, k * CHAT_HASH_WINDOW_SECS);
    }
    let h = c.get_chat_hash_history(4);
    let names: Vec<&str> = h.iter().map(|r| r.cid.as_str()).collect();
    assert_eq!(names, vec!["cid-number-2", "cid-number-3", "cid-number-4"]);
    assert_eq!(c.get_latest_chat_hash(4).unwrap().cid, "cid-number-4");
    assert!(c.get_chat_hash_history(5).is_empty());
}
