//! Capturing messages posted through the message-emission program.
//!
//! A transaction's inner instructions hold, for each message, the post
//! instruction (selector, nonce, finality, payload) and an event record
//! (two discriminators, emitter, sequence, submission time). The Nth post
//! pairs with the Nth event.

use vstd::prelude::*;

use crate::bytes::{copy_range, read_le_u32, read_le_u64, u32_of_le, u64_of_le};
use crate::bytes::copy_vec;
use crate::guardian::to_array;
use crate::vaa::{TestVaa, VaaChecks};

verus! {

/// Whether `data` starts, at `at`, with the eight bytes of `tag`.
pub open spec fn has_tag_at(data: Seq<u8>, at: int, tag: Seq<u8>) -> bool {
    data.subrange(at, at + 8) == tag
}

fn tag_at(data: &[u8], at: usize, tag: &[u8; 8]) -> (r: bool)
    requires
        at + 8 <= data.len(),
    ensures
        r == has_tag_at(data@, at as int, tag@),
{
    for i in 0..8
        invariant
            at + 8 <= data.len(),
            forall|j: int| 0 <= j < i ==> data@[at + j] == tag@[j],
    {
        if data[at + i] != tag[i] {
            return false;
        }
    }
    assert(data@.subrange(at as int, at + 8) =~= tag@);
    true
}

/// A parsed post instruction.
#[derive(Clone, Debug)]
pub struct PostMessageData {
    pub nonce: u32,
    pub finality: u8,
    pub payload: Vec<u8>,
}

/// What a post instruction holds: selector (8), nonce (4, little-endian),
/// finality (1), payload length (4, little-endian), payload.
pub open spec fn post_message_fields(data: Seq<u8>, selector: Seq<u8>) -> Option<(u32, u8, Seq<u8>)> {
    if data.len() < 17 || !has_tag_at(data, 0, selector) {
        None
    } else {
        let len = u32_of_le(data.subrange(13, 17));
        if data.len() < 17 + len {
            None
        } else {
            Some((u32_of_le(data.subrange(8, 12)), data[12], data.subrange(17, 17 + len)))
        }
    }
}

impl PostMessageData {
    pub open spec fn fields(&self) -> (u32, u8, Seq<u8>) {
        (self.nonce, self.finality, self.payload@)
    }

    /// Parses a post instruction whose selector is `selector`.
    pub fn parse(data: &[u8], selector: &[u8; 8]) -> (r: Option<Self>)
        ensures
            r matches Some(p) ==> post_message_fields(data@, selector@) == Some(p.fields()),
            r is None ==> post_message_fields(data@, selector@) is None,
    {
        if data.len() < 17 || !tag_at(data, 0, selector) {
            return None;
        }
        let nonce = read_le_u32(data, 8);
        let finality = data[12];
        let payload_len = read_le_u32(data, 13) as usize;
        if data.len() - 17 < payload_len {
            return None;
        }
        Some(PostMessageData { nonce, finality, payload: copy_range(data, 17, payload_len) })
    }
}

/// A parsed message event.
#[derive(Clone, Copy, Debug)]
pub struct MessageEvent {
    pub emitter: [u8; 32],
    pub sequence: u64,
    pub submission_time: u32,
}

/// What an event record holds: any 8 bytes, the event discriminator (8),
/// emitter (32), sequence (8, little-endian), submission time (4,
/// little-endian).
pub open spec fn message_event_fields(data: Seq<u8>, discriminator: Seq<u8>) -> Option<(Seq<u8>, u64, u32)> {
    if data.len() < 60 || !has_tag_at(data, 8, discriminator) {
        None
    } else {
        Some((data.subrange(16, 48), u64_of_le(data.subrange(48, 56)), u32_of_le(data.subrange(56, 60))))
    }
}

impl MessageEvent {
    pub open spec fn fields(&self) -> (Seq<u8>, u64, u32) {
        (self.emitter@, self.sequence, self.submission_time)
    }

    /// Parses an event record whose discriminator is `discriminator`.
    pub fn parse(data: &[u8], discriminator: &[u8; 8]) -> (r: Option<Self>)
        ensures
            r matches Some(e) ==> message_event_fields(data@, discriminator@) == Some(e.fields()),
            r is None ==> message_event_fields(data@, discriminator@) is None,
    {
        if data.len() < 60 || !tag_at(data, 8, discriminator) {
            return None;
        }
        let emitter_bytes = copy_range(data, 16, 32);
        let emitter: [u8; 32] = to_array(emitter_bytes.as_slice());
        let sequence = read_le_u64(data, 48);
        let submission_time = read_le_u32(data, 56);
        Some(MessageEvent { emitter, sequence, submission_time })
    }
}

/// A posted message, with what is needed to build its VAA.
#[derive(Clone, Debug)]
pub struct PostedMessageInfo {
    /// The emitter address.
    pub emitter: [u8; 32],
    /// The emitter chain (1, the chain the message was posted on).
    pub emitter_chain: u16,
    pub sequence: u64,
    pub payload: Vec<u8>,
    pub nonce: u32,
    /// The finality the message was posted with.
    pub consistency_level: u8,
    /// The submission time of the event.
    pub timestamp: u32,
}

impl PostedMessageInfo {
    /// Combines an event with the fields of its post instruction.
    pub fn from_event(event: &MessageEvent, payload: Vec<u8>, nonce: u32, consistency_level: u8) -> (r:
        Self)
        ensures
            r.emitter == event.emitter,
            r.emitter_chain == 1,
            r.sequence == event.sequence,
            r.payload == payload,
            r.nonce == nonce,
            r.consistency_level == consistency_level,
            r.timestamp == event.submission_time,
    {
        PostedMessageInfo {
            emitter: event.emitter,
            emitter_chain: 1,
            sequence: event.sequence,
            payload,
            nonce,
            consistency_level,
            timestamp: event.submission_time,
        }
    }

    /// The VAA of this message, for guardian set 0 with every probe on.
    pub fn to_test_vaa(&self) -> (r: TestVaa)
        ensures
            r.emitter_chain == self.emitter_chain,
            r.emitter_address == self.emitter,
            r.sequence == self.sequence,
            r.payload@ == self.payload@,
            r.timestamp == self.timestamp,
            r.nonce == self.nonce,
            r.consistency_level == self.consistency_level,
            r.guardian_set_index == 0,
            r.checks.emitter_chain && r.checks.emitter_address,
    {
        TestVaa {
            emitter_chain: self.emitter_chain,
            emitter_address: self.emitter,
            sequence: self.sequence,
            payload: copy_vec(&self.payload),
            timestamp: self.timestamp,
            nonce: self.nonce,
            consistency_level: self.consistency_level,
            guardian_set_index: 0,
            checks: VaaChecks::default(),
        }
    }
}

/// The fields of the post instructions among `datas`, in order.
pub open spec fn posts_in(datas: Seq<Seq<u8>>, selector: Seq<u8>) -> Seq<(u32, u8, Seq<u8>)>
    decreases datas.len(),
{
    if datas.len() == 0 {
        seq![]
    } else {
        let rest = posts_in(datas.drop_last(), selector);
        match post_message_fields(datas.last(), selector) {
            Some(p) => rest.push(p),
            None => rest,
        }
    }
}

/// The fields of the event records among `datas`, in order.
pub open spec fn events_in(datas: Seq<Seq<u8>>, discriminator: Seq<u8>) -> Seq<(Seq<u8>, u64, u32)>
    decreases datas.len(),
{
    if datas.len() == 0 {
        seq![]
    } else {
        let rest = events_in(datas.drop_last(), discriminator);
        match message_event_fields(datas.last(), discriminator) {
            Some(e) => rest.push(e),
            None => rest,
        }
    }
}

/// Whether `m` is the message of post `p` and event `e`.
pub open spec fn is_message_of(m: PostedMessageInfo, p: (u32, u8, Seq<u8>), e: (Seq<u8>, u64, u32)) -> bool {
    &&& m.nonce == p.0 && m.consistency_level == p.1 && m.payload@ == p.2
    &&& m.emitter@ == e.0 && m.sequence == e.1 && m.timestamp == e.2
    &&& m.emitter_chain == 1
}

/// Every message posted by a transaction, from the data of its inner
/// instructions in log order: the Nth post instruction paired with the Nth
/// event record, as many as both have.
pub fn extract_posted_messages(datas: &[Vec<u8>], selector: &[u8; 8], discriminator: &[u8; 8]) -> (r:
    Vec<PostedMessageInfo>)
    ensures
        ({
            let views = datas@.map_values(|d: Vec<u8>| d@);
            let posts = posts_in(views, selector@);
            let events = events_in(views, discriminator@);
            &&& r@.len() == if posts.len() < events.len() {
                posts.len()
            } else {
                events.len()
            }
            &&& forall|i: int| 0 <= i < r@.len() ==> is_message_of(#[trigger] r@[i], posts[i], events[i])
        }),
{
    let ghost views = datas@.map_values(|d: Vec<u8>| d@);
    let mut posts: Vec<PostMessageData> = Vec::new();
    let mut events: Vec<MessageEvent> = Vec::new();
    for k in 0..datas.len()
        invariant
            views == datas@.map_values(|d: Vec<u8>| d@),
            posts@.len() == posts_in(views.subrange(0, k as int), selector@).len(),
            forall|i: int|
                0 <= i < posts@.len() ==> #[trigger] posts@[i].fields() == posts_in(
                    views.subrange(0, k as int),
                    selector@,
                )[i],
            events@.len() == events_in(views.subrange(0, k as int), discriminator@).len(),
            forall|i: int|
                0 <= i < events@.len() ==> #[trigger] events@[i].fields() == events_in(
                    views.subrange(0, k as int),
                    discriminator@,
                )[i],
    {
        assert(views.subrange(0, k + 1).drop_last() == views.subrange(0, k as int));
        assert(views.subrange(0, k + 1).last() == datas@[k as int]@);
        if let Some(p) = PostMessageData::parse(datas[k].as_slice(), selector) {
            posts.push(p);
        }
        if let Some(e) = MessageEvent::parse(datas[k].as_slice(), discriminator) {
            events.push(e);
        }
    }
    assert(views.subrange(0, datas@.len() as int) == views);
    let n = if posts.len() < events.len() { posts.len() } else { events.len() };
    let mut result: Vec<PostedMessageInfo> = Vec::new();
    for i in 0..n
        invariant
            n <= posts@.len(),
            n <= events@.len(),
            result@.len() == i,
            forall|m: int|
                0 <= m < i ==> is_message_of(
                    #[trigger] result@[m],
                    posts@[m].fields(),
                    events@[m].fields(),
                ),
    {
        let p = &posts[i];
        result.push(
            PostedMessageInfo::from_event(&events[i], copy_vec(&p.payload), p.nonce, p.finality),
        );
    }
    result
}

/// The sequence number an emitter's sequence account holds: its first eight
/// bytes, little-endian; `None` when it is shorter.
pub fn read_emitter_sequence(data: &[u8]) -> (r: Option<u64>)
    ensures
        data@.len() >= 8 ==> r == Some(u64_of_le(data@.subrange(0, 8))),
        data@.len() < 8 ==> r is None,
{
    if data.len() >= 8 {
        Some(read_le_u64(data, 0))
    } else {
        None
    }
}

} // verus!
