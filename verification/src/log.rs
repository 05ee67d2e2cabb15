//! Raw receipt logs, and what it means to decode events out of them.

use crate::primitives::{Address, B256, read_be};
use crate::signature::{is_registered, lemma_signature_hashes_distinct, EventKind};
use vstd::prelude::*;

verus! {

/// One log entry of a transaction receipt.
#[derive(Clone, Debug)]
pub struct ReceiptLog {
    /// The contract that emitted the log.
    pub address: Address,
    /// The payload: the parameters that are not indexed, one 32-byte word each.
    pub data: Vec<u8>,
    /// Topic 0 is the signature hash; the others are the indexed parameters.
    pub topics: Vec<B256>,
}

impl ReceiptLog {
    /// The `i`-th 32-byte word of the data payload.
    pub open spec fn data_word(self, i: int) -> B256 {
        B256::of_bytes(self.data@.subrange(32 * i, 32 * i + 32))
    }

    /// Whether the log has the outline of an event of `kind`: exactly the
    /// kind's number of topics, the kind's signature hash as topic 0, and
    /// exactly the kind's number of words as data.
    pub open spec fn has_shape(self, kind: EventKind) -> bool {
        &&& self.topics@.len() == kind.topics()
        &&& self.topics@[0] == kind.hash()
        &&& self.data@.len() == 32 * kind.data_words()
    }

    pub fn new(address: Address, topics: Vec<B256>, data: Vec<u8>) -> (r: ReceiptLog)
        ensures
            r.address == address,
            r.topics == topics,
            r.data == data,
    {
        ReceiptLog { address, data, topics }
    }

    /// Reads the `i`-th 32-byte word of the data payload.
    pub fn word(&self, i: usize) -> (r: B256)
        requires
            32 * i + 32 <= self.data@.len(),
        ensures
            r == self.data_word(i as int),
    {
        let len: usize = self.data.len();
        let start: usize = 32 * i;
        let hi = read_be(self.data.as_slice(), start, 16);
        let lo = read_be(self.data.as_slice(), start + 16, 16);
        proof {
            let word = self.data@.subrange(32 * i, 32 * i + 32);
            assert(word.subrange(0, 16) =~= self.data@.subrange(start as int, start + 16));
            assert(word.subrange(16, 32) =~= self.data@.subrange(start + 16, start + 32));
        }
        B256 { hi, lo }
    }

    /// Tells whether the log has the outline of an event of `kind`.
    pub fn matches_shape(&self, kind: EventKind) -> (r: bool)
        ensures
            r == self.has_shape(kind),
    {
        if self.topics.len() != kind.expected_topic_count() {
            return false;
        }
        let hash = kind.signature_hash();
        let first = self.topics[0];
        if first.hi != hash.hi || first.lo != hash.lo {
            return false;
        }
        self.data.len() == 32 * kind.data_word_count()
    }
}

/// A kind of event that can be decoded from a log.
pub trait LogEvent: Sized {
    /// The row of the signature table that this kind of event goes by.
    spec fn kind() -> EventKind;

    /// The event that `log` holds, or `None` where `log` is not a
    /// well-formed log of this kind.
    spec fn decode(log: ReceiptLog) -> Option<Self>;

    /// The row of the signature table that this kind of event goes by.
    fn event_kind() -> (r: EventKind)
        ensures
            r == Self::kind(),
    ;

    /// Decodes `log` as an event of this kind.
    fn try_decode(log: &ReceiptLog) -> (r: Option<Self>)
        ensures
            r == Self::decode(*log),
    ;

    /// Only a log with the outline of the kind decodes: the topic count and
    /// the payload length are the kind's, and topic 0 is its signature hash.
    proof fn lemma_decode_shape(log: ReceiptLog)
        ensures
            Self::decode(log) is Some ==> log.has_shape(Self::kind()),
    ;
}

/// The events of one kind in a list of logs: each log is decoded on its own,
/// the logs that do not decode are passed over, and the order is kept.
pub open spec fn decode_all<E: LogEvent>(logs: Seq<ReceiptLog>) -> Seq<E>
    decreases logs.len(),
{
    if logs.len() == 0 {
        Seq::empty()
    } else {
        let before = decode_all::<E>(logs.drop_last());
        match E::decode(logs.last()) {
            Some(event) => before.push(event),
            None => before,
        }
    }
}

/// Decodes every log of `logs` that holds an event of kind `E`.
pub fn extract_events<E: LogEvent>(logs: &[ReceiptLog]) -> (r: Vec<E>)
    ensures
        r@ == decode_all::<E>(logs@),
{
    let mut events: Vec<E> = Vec::new();
    let mut i: usize = 0;
    while i < logs.len()
        invariant
            i <= logs.len(),
            events@ == decode_all::<E>(logs@.take(i as int)),
        decreases logs.len() - i,
    {
        proof {
            let next = logs@.take(i + 1);
            assert(next.drop_last() =~= logs@.take(i as int));
            assert(next.last() == logs@[i as int]);
        }
        match E::try_decode(&logs[i]) {
            Some(event) => {
                events.push(event);
            },
            None => {},
        }
        i = i + 1;
    }
    proof {
        assert(logs@.take(logs.len() as int) =~= logs@);
    }
    events
}

/// Decoding a list of logs is decoding its parts one after the other.
pub proof fn lemma_decode_all_concat<E: LogEvent>(first: Seq<ReceiptLog>, second: Seq<ReceiptLog>)
    ensures
        decode_all::<E>(first + second) == decode_all::<E>(first) + decode_all::<E>(second),
    decreases second.len(),
{
    if second.len() == 0 {
        assert(first + second =~= first);
        assert(decode_all::<E>(first) + Seq::<E>::empty() =~= decode_all::<E>(first));
    } else {
        let all = first + second;
        assert(all.drop_last() =~= first + second.drop_last());
        assert(all.last() == second.last());
        lemma_decode_all_concat::<E>(first, second.drop_last());
        let a = decode_all::<E>(first);
        let b = decode_all::<E>(second.drop_last());
        match E::decode(second.last()) {
            Some(event) => {
                assert((a + b).push(event) =~= a + b.push(event));
            },
            None => {},
        }
    }
}

/// No more events come out than logs went in.
pub proof fn lemma_decode_all_len<E: LogEvent>(logs: Seq<ReceiptLog>)
    ensures
        decode_all::<E>(logs).len() <= logs.len(),
    decreases logs.len(),
{
    if logs.len() > 0 {
        lemma_decode_all_len::<E>(logs.drop_last());
    }
}

/// Where no log decodes, nothing comes out.
pub proof fn lemma_decode_all_nothing<E: LogEvent>(logs: Seq<ReceiptLog>)
    requires
        forall|i: int| 0 <= i < logs.len() ==> E::decode(#[trigger] logs[i]) is None,
    ensures
        decode_all::<E>(logs) == Seq::<E>::empty(),
    decreases logs.len(),
{
    if logs.len() > 0 {
        lemma_decode_all_nothing::<E>(logs.drop_last());
    }
}

/// A log whose topic 0 is not the signature hash of a supported event, or
/// that has no topic at all, decodes as no kind of event.
pub proof fn lemma_unregistered_topic_decodes_to_nothing<E: LogEvent>(log: ReceiptLog)
    requires
        log.topics@.len() == 0 || !is_registered(log.topics@[0]),
    ensures
        E::decode(log) is None,
{
    E::lemma_decode_shape(log);
    if E::decode(log) is Some {
        assert(E::kind().hash() == log.topics@[0]);
    }
}

/// A log whose number of topics is not the expected number of a kind does
/// not decode as that kind, whatever its topic 0 and its payload hold.
pub proof fn lemma_wrong_topic_count_decodes_to_nothing<E: LogEvent>(log: ReceiptLog)
    requires
        log.topics@.len() != E::kind().topics(),
    ensures
        E::decode(log) is None,
{
    E::lemma_decode_shape(log);
}

/// A log whose payload is not exactly the words of a kind does not decode as
/// that kind.
pub proof fn lemma_wrong_payload_length_decodes_to_nothing<E: LogEvent>(log: ReceiptLog)
    requires
        log.data@.len() != 32 * E::kind().data_words(),
    ensures
        E::decode(log) is None,
{
    E::lemma_decode_shape(log);
}

/// Decoding is never ambiguous: a log decodes as at most one kind of event.
pub proof fn lemma_decodes_as_one_kind<A: LogEvent, B: LogEvent>(log: ReceiptLog)
    requires
        A::kind() != B::kind(),
    ensures
        A::decode(log) is None || B::decode(log) is None,
{
    A::lemma_decode_shape(log);
    B::lemma_decode_shape(log);
    lemma_signature_hashes_distinct(A::kind(), B::kind());
}

} // verus!
