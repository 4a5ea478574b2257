//! Chat metadata: a group's admin (or the contract admin) anchors the
//! content id of the group's chat archive at most once a day; the last three
//! anchors are kept as history.
use vstd::prelude::*;
use std::collections::BTreeMap;
use vstd::utf8::encode_utf8;
use crate::AccountId;

verus! {

broadcast use vstd::std_specs::btree::group_btree_axioms;

/// Least time between two anchors of a group (24 hours).
pub const CHAT_HASH_WINDOW_SECS: u64 = 86_400;
/// Longest content id, in bytes.
pub const MAX_CID_LEN: u32 = 128;
/// Shortest content id, in bytes.
pub const MIN_CID_LEN: u32 = 10;
/// Anchors kept in a group's history.
pub const MAX_HISTORY_ENTRIES: u32 = 3;

/// Storage keys of the chat tables.
#[derive(Clone, Copy, Debug, PartialEq, Eq, Structural)]
pub enum ChatMetadataDataKey {
    Admin,
    GroupAdmin(u64),
    GroupChatRecord(u64),
    GroupChatHistory(u64),
}

/// An anchored content id and when it was anchored.
#[derive(Clone, Debug)]
pub struct ChatHashRecord {
    pub cid: String,
    pub timestamp: u64,
}

/// The value of an anchor.
pub struct ChatHashView {
    pub cid: Seq<char>,
    pub timestamp: u64,
}

impl View for ChatHashRecord {
    type V = ChatHashView;

    open spec fn view(&self) -> ChatHashView {
        ChatHashView { cid: self.cid@, timestamp: self.timestamp }
    }
}

/// Report of an anchor.
#[derive(Clone, Debug)]
pub struct ChatHashRecordedEvent {
    pub group_id: u64,
    pub cid: String,
    pub timestamp: u64,
}

/// Why an anchor is refused.
#[derive(Clone, Copy, Debug, PartialEq, Eq, Structural)]
pub enum ChatError {
    Unauthorized,
    InvalidCid,
    TooSoon,
}

/// A content id is 10 to 128 bytes of visible ASCII or non-ASCII bytes: no
/// control byte, space or DEL.
pub open spec fn valid_cid(bytes: Seq<u8>) -> bool {
    &&& MIN_CID_LEN <= bytes.len() <= MAX_CID_LEN
    &&& forall|i: int| 0 <= i < bytes.len() ==> #[trigger] bytes[i] > 0x20 && bytes[i] != 0x7f
}

/// The last three entries of a history.
pub open spec fn last_three(h: Seq<ChatHashView>) -> Seq<ChatHashView> {
    if h.len() > MAX_HISTORY_ENTRIES { h.subrange(h.len() - MAX_HISTORY_ENTRIES, h.len() as int) } else { h }
}

fn copy_record(r: &ChatHashRecord) -> (c: ChatHashRecord)
    ensures
        c@ == r@,
{
    ChatHashRecord { cid: r.cid.clone(), timestamp: r.timestamp }
}

fn validate_cid(cid: &String) -> (r: bool)
    ensures
        r == valid_cid(encode_utf8(cid@)),
{
    let bytes = cid.as_str().as_bytes();
    let len = bytes.len();
    if len < MIN_CID_LEN as usize || len > MAX_CID_LEN as usize {
        return false;
    }
    let mut i: usize = 0;
    while i < len
        invariant
            len == bytes@.len(),
            bytes@ == encode_utf8(cid@),
            i <= len,
            forall|j: int| 0 <= j < i ==> #[trigger] bytes@[j] > 0x20 && bytes@[j] != 0x7f,
        decreases len - i,
    {
        let b = bytes[i];
        if b <= 0x20 || b == 0x7f {
            return false;
        }
        i = i + 1;
    }
    true
}

/// Chat-anchor storage.
pub struct ChatMetadata {
    pub admin: AccountId,
    pub group_admins: BTreeMap<u64, AccountId>,
    pub records: BTreeMap<u64, ChatHashRecord>,
    pub histories: BTreeMap<u64, Vec<ChatHashRecord>>,
}

impl ChatMetadata {
    /// A group's history (empty when none is stored).
    pub open spec fn history_of(&self, group_id: u64) -> Seq<ChatHashView> {
        if self.histories@.contains_key(group_id) {
            self.histories@[group_id]@.map_values(|r: ChatHashRecord| r@)
        } else {
            Seq::empty()
        }
    }

    /// Whether `signer` may anchor for a group: the group's admin or the
    /// contract admin.
    pub open spec fn may_anchor(&self, signer: AccountId, group_id: u64) -> bool {
        signer == self.admin || (self.group_admins@.contains_key(group_id) && signer == self.group_admins@[group_id])
    }

    /// Every history holds at most three anchors.
    pub open spec fn wf(&self) -> bool {
        forall|g: u64| #[trigger] self.histories@.contains_key(g) ==> self.histories@[g].len() <= MAX_HISTORY_ENTRIES
    }

    /// Storage administered by `admin`.
    pub fn init(admin: AccountId) -> (r: Self)
        ensures
            r.wf(),
            r.admin == admin,
            r.group_admins@ == Map::<u64, AccountId>::empty(),
            r.records@ == Map::<u64, ChatHashRecord>::empty(),
            r.histories@ == Map::<u64, Vec<ChatHashRecord>>::empty(),
    {
        ChatMetadata { admin, group_admins: BTreeMap::new(), records: BTreeMap::new(), histories: BTreeMap::new() }
    }

    /// Names the admin of a group. Only the contract admin may; any other
    /// caller aborts the call.
    pub fn authorize_group_admin(&mut self, admin: AccountId, group_id: u64, group_admin: AccountId)
        requires
            admin == old(self).admin,
        ensures
            final(self).group_admins@ == old(self).group_admins@.insert(group_id, group_admin),
            final(self).admin == old(self).admin,
            final(self).records == old(self).records,
            final(self).histories == old(self).histories,
    {
        self.group_admins.insert(group_id, group_admin);
    }

    /// Why anchoring `cid` for a group at `now` is refused, if it is: a
    /// signer who is neither the group's admin nor the contract admin, an
    /// invalid content id, or an anchor less than a day old.
    pub open spec fn anchor_refusal(&self, signer: AccountId, group_id: u64, cid: Seq<char>, now: u64) -> Option<ChatError> {
        if !self.may_anchor(signer, group_id) {
            Some(ChatError::Unauthorized)
        } else if !valid_cid(encode_utf8(cid)) {
            Some(ChatError::InvalidCid)
        } else if self.records@.contains_key(group_id) && now < self.records@[group_id].timestamp + CHAT_HASH_WINDOW_SECS {
            Some(ChatError::TooSoon)
        } else {
            None
        }
    }

    /// Checks an anchor: its refusal, if any.
    pub fn anchor_check(&self, signer: AccountId, group_id: u64, cid: &String, now: u64) -> (r: Option<ChatError>)
        requires
            self.records@.contains_key(group_id) ==> self.records@[group_id].timestamp + CHAT_HASH_WINDOW_SECS <= u64::MAX,
        ensures
            r == self.anchor_refusal(signer, group_id, cid@, now),
    {
        let authorized = match self.group_admins.get(&group_id) {
            Some(a) => signer == *a || signer == self.admin,
            None => signer == self.admin,
        };
        if !authorized {
            return Some(ChatError::Unauthorized);
        }
        if !validate_cid(cid) {
            return Some(ChatError::InvalidCid);
        }
        if let Some(existing) = self.records.get(&group_id) {
            if now < existing.timestamp + CHAT_HASH_WINDOW_SECS {
                return Some(ChatError::TooSoon);
            }
        }
        None
    }

    /// Anchors a content id for a group at `now`: the signer must be allowed,
    /// the id valid, and a day must have passed since the group's last
    /// anchor ([`ChatMetadata::anchor_check`]); any other anchor aborts the
    /// call. The anchor becomes the group's latest and joins its history,
    /// which keeps the last three.
    pub fn record_chat_hash(&mut self, signer: AccountId, group_id: u64, cid: String, now: u64)
        -> (r: ChatHashRecordedEvent)
        requires
            old(self).wf(),
            old(self).anchor_refusal(signer, group_id, cid@, now) is None,
        ensures
            final(self).wf(),
            r.group_id == group_id && r.cid@ == cid@ && r.timestamp == now,
            ({
                let rec = ChatHashView { cid: cid@, timestamp: now };
                &&& final(self).records@.dom() == old(self).records@.dom().insert(group_id)
                &&& final(self).records@[group_id]@ == rec
                &&& forall|g: u64| g != group_id && #[trigger] old(self).records@.contains_key(g)
                    ==> final(self).records@[g] == old(self).records@[g]
                &&& final(self).history_of(group_id) == last_three(old(self).history_of(group_id).push(rec))
                &&& forall|g: u64| g != group_id ==> #[trigger] final(self).history_of(g) == old(self).history_of(g)
                &&& final(self).admin == old(self).admin
                &&& final(self).group_admins == old(self).group_admins
            }),
    {
        let record = ChatHashRecord { cid: cid.clone(), timestamp: now };
        let ghost rec = record@;
        self.records.insert(group_id, copy_record(&record));
        assert(self.records@.dom() =~= old(self).records@.dom().insert(group_id));
        let mut history: Vec<ChatHashRecord> = Vec::new();
        let mut kept: usize = 0;
        match self.histories.get(&group_id) {
            Some(h) => {
                let ghost old_h = h@.map_values(|r: ChatHashRecord| r@);
                let full: usize = h.len() + 1;
                let start: usize = if full > MAX_HISTORY_ENTRIES as usize { full - MAX_HISTORY_ENTRIES as usize } else { 0 };
                let mut i: usize = start;
                while i < h.len()
                    invariant
                        start <= i <= h.len(),
                        old_h == h@.map_values(|r: ChatHashRecord| r@),
                        history@.map_values(|r: ChatHashRecord| r@) == old_h.subrange(start as int, i as int),
                    decreases h.len() - i,
                {
                    let ghost before = history@;
                    history.push(copy_record(&h[i]));
                    assert(history@.map_values(|r: ChatHashRecord| r@)
                        =~= before.map_values(|r: ChatHashRecord| r@).push(h@[i as int]@));
                    i = i + 1;
                    assert(old_h.subrange(start as int, i as int) =~= old_h.subrange(start as int, i - 1).push(old_h[i - 1]));
                }
                proof {
                    let pushed = old_h.push(rec);
                    assert(last_three(pushed) =~= old_h.subrange(start as int, h.len() as int).push(rec));
                }
            },
            None => {
                proof {
                    assert(last_three(Seq::<ChatHashView>::empty().push(rec)) =~= Seq::<ChatHashView>::empty().push(rec));
                }
            },
        }
        let ghost before = history@;
        history.push(record);
        assert(history@.map_values(|r: ChatHashRecord| r@) =~= before.map_values(|r: ChatHashRecord| r@).push(rec));
        let len = history.len();
        proof {
            assert(len <= MAX_HISTORY_ENTRIES);
        }
        self.histories.insert(group_id, history);
        ChatHashRecordedEvent { group_id, cid, timestamp: now }
    }

    /// A group's latest anchor, if any.
    pub fn get_latest_chat_hash(&self, group_id: u64) -> (r: Option<ChatHashRecord>)
        ensures
            r is None <==> !self.records@.contains_key(group_id),
            r matches Some(c) ==> c@ == self.records@[group_id]@,
    {
        match self.records.get(&group_id) {
            Some(r) => Some(copy_record(r)),
            None => None,
        }
    }

    /// A group's last three anchors, oldest first.
    pub fn get_chat_hash_history(&self, group_id: u64) -> (r: Vec<ChatHashRecord>)
        ensures
            r@.map_values(|c: ChatHashRecord| c@) == self.history_of(group_id),
    {
        let mut out: Vec<ChatHashRecord> = Vec::new();
        match self.histories.get(&group_id) {
            Some(h) => {
                let mut i: usize = 0;
                while i < h.len()
                    invariant
                        i <= h.len(),
                        out@.map_values(|c: ChatHashRecord| c@) == h@.map_values(|c: ChatHashRecord| c@).subrange(0, i as int),
                    decreases h.len() - i,
                {
                    let ghost before = out@;
                    out.push(copy_record(&h[i]));
                    assert(out@.map_values(|c: ChatHashRecord| c@) =~= before.map_values(|c: ChatHashRecord| c@).push(h@[i as int]@));
                    assert(h@.map_values(|c: ChatHashRecord| c@).subrange(0, i + 1) =~= h@.map_values(|c: ChatHashRecord| c@).subrange(0, i as int).push(h@[i as int]@));
                    i = i + 1;
                }
                assert(h@.map_values(|c: ChatHashRecord| c@).subrange(0, h.len() as int) =~= h@.map_values(|c: ChatHashRecord| c@));
            },
            None => {
                assert(out@.map_values(|c: ChatHashRecord| c@) =~= Seq::<ChatHashView>::empty());
            },
        }
        out
    }
}

/// The history keeps the newest anchor last and never more than three.
pub proof fn law_history_keeps_last_three(h: Seq<ChatHashView>, rec: ChatHashView)
    ensures
        last_three(h.push(rec)).len() <= MAX_HISTORY_ENTRIES,
        last_three(h.push(rec)).last() == rec,
        h.len() < MAX_HISTORY_ENTRIES ==> last_three(h.push(rec)) == h.push(rec),
{
}

} // verus!
