//! The topic capability: per-epoch topic naming and the payload codec the
//! consumer core depends on, together with one concrete capability for
//! kind-prefixed topics carrying fixed-width payloads.

use vstd::prelude::*;
use vstd::string::StringExecFns;
use crate::decimal::decimal_chars;
use crate::decimal::lemma_concat_cancel_left;
use crate::decimal::lemma_decimal_injective;
use crate::decimal::u64_to_decimal;

verus! {

/// A resolved physical topic name.
#[derive(Debug)]
pub struct TopicName {
    raw: String,
}

impl View for TopicName {
    type V = Seq<char>;

    closed spec fn view(&self) -> Seq<char> {
        self.raw@
    }
}

impl TopicName {
    /// Wrap a raw name.
    pub fn from_raw(raw: String) -> (r: TopicName)
        ensures
            r@ == raw@,
    {
        TopicName { raw }
    }

    /// Unwrap into the raw name.
    pub fn to_raw(self) -> (r: String)
        ensures
            r@ == self@,
    {
        self.raw
    }
}

/// Capability supplied by the embedder: resolves per-epoch topic names and
/// decodes raw payload bytes. The consumer core depends only on this
/// contract, never on a concrete payload format.
pub trait NodeStreamPerEpochTopic: Sized {
    /// Decoded payload type.
    type Data;

    /// Metadata type the capability associates with its stream.
    type Metadata;

    /// Model of topic naming.
    spec fn spec_topic_for_epoch(&self, epoch: u64) -> Seq<char>;

    /// Model of the payload codec.
    spec fn spec_payload_from_bytes(&self, bytes: Seq<u8>) -> Result<Self::Data, Seq<char>>;

    /// Resolve the physical topic name for an epoch; referentially
    /// transparent for a fixed epoch.
    fn topic_for_epoch(&self, epoch: u64) -> (r: TopicName)
        ensures
            r@ == self.spec_topic_for_epoch(epoch),
    ;

    /// Decode one raw payload: pure, and a failure leaves no state behind.
    fn payload_from_bytes(&self, bytes: &[u8]) -> (r: Result<Self::Data, String>)
        ensures
            match r {
                Ok(d) => self.spec_payload_from_bytes(bytes@) == Ok::<Self::Data, Seq<char>>(d),
                Err(e) => self.spec_payload_from_bytes(bytes@) matches Err(m) && m == e@,
            },
    ;

    /// Epoch isolation: distinct epochs resolve to distinct topic names.
    proof fn epochs_isolated(&self, e1: u64, e2: u64)
        ensures
            e1 != e2 ==> self.spec_topic_for_epoch(e1) != self.spec_topic_for_epoch(e2),
    ;
}

/// The big-endian value of a byte string.
pub open spec fn be_value(bytes: Seq<u8>) -> nat
    decreases bytes.len(),
{
    if bytes.len() == 0 {
        0
    } else {
        be_value(bytes.drop_last()) * 256 + (bytes.last() as nat)
    }
}

spec fn pow256(k: nat) -> nat
    decreases k,
{
    if k == 0 {
        1
    } else {
        256 * pow256((k - 1) as nat)
    }
}

proof fn lemma_pow256_pos(k: nat)
    ensures
        pow256(k) >= 1,
    decreases k,
{
    if k > 0 {
        lemma_pow256_pos((k - 1) as nat);
    }
}

proof fn lemma_pow256_mono(j: nat, k: nat)
    requires
        j <= k,
    ensures
        pow256(j) <= pow256(k),
    decreases k,
{
    if j < k {
        lemma_pow256_mono(j, (k - 1) as nat);
        lemma_pow256_pos((k - 1) as nat);
    }
}

proof fn lemma_pow256_8()
    ensures
        pow256(8) == 0x10000000000000000,
{
    reveal_with_fuel(pow256, 9);
}

/// A topic capability naming topics `<kind>-epoch-<n>` and carrying
/// eight-byte big-endian `u64` payloads with no metadata.
#[derive(Debug)]
pub struct KindedTopic {
    kind: String,
}

impl KindedTopic {
    /// The kind prefix of every topic this capability resolves.
    pub closed spec fn spec_kind(&self) -> Seq<char> {
        self.kind@
    }

    /// A capability for topics of the given kind.
    pub fn new(kind: String) -> (r: KindedTopic)
        ensures
            r.spec_kind() == kind@,
    {
        KindedTopic { kind }
    }
}

impl NodeStreamPerEpochTopic for KindedTopic {
    type Data = u64;

    type Metadata = ();

    open spec fn spec_topic_for_epoch(&self, epoch: u64) -> Seq<char> {
        (self.spec_kind() + "-epoch-"@) + decimal_chars(epoch as nat)
    }

    open spec fn spec_payload_from_bytes(&self, bytes: Seq<u8>) -> Result<u64, Seq<char>> {
        if bytes.len() == 8 {
            Ok(be_value(bytes) as u64)
        } else {
            Err("payload is not exactly eight bytes"@)
        }
    }

    fn topic_for_epoch(&self, epoch: u64) -> (r: TopicName)
        ensures
            r@ == self.spec_topic_for_epoch(epoch),
    {
        let mut s = self.kind.clone();
        s.append("-epoch-");
        let digits = u64_to_decimal(epoch);
        TopicName::from_raw(s.concat(digits.as_str()))
    }

    fn payload_from_bytes(&self, bytes: &[u8]) -> (r: Result<u64, String>)
        ensures
            match r {
                Ok(d) => self.spec_payload_from_bytes(bytes@) == Ok::<u64, Seq<char>>(d),
                Err(e) => self.spec_payload_from_bytes(bytes@) matches Err(m) && m == e@,
            },
    {
        if bytes.len() != 8 {
            return Err("payload is not exactly eight bytes".to_owned());
        }
        let mut v: u64 = 0;
        let mut i: usize = 0;
        while i < 8
            invariant
                bytes@.len() == 8,
                i <= 8,
                v as nat == be_value(bytes@.take(i as int)),
                (v as nat) < pow256(i as nat),
            decreases 8 - i,
        {
            proof {
                lemma_pow256_mono((i + 1) as nat, 8);
                lemma_pow256_8();
                assert(pow256((i + 1) as nat) == 256 * pow256(i as nat));
                assert(bytes@.take(i as int + 1).drop_last() =~= bytes@.take(i as int));
                assert(bytes@.take(i as int + 1).last() == bytes@[i as int]);
            }
            v = v * 256 + (bytes[i] as u64);
            i = i + 1;
        }
        proof {
            assert(bytes@.take(8) =~= bytes@);
            lemma_pow256_8();
        }
        Ok(v)
    }

    proof fn epochs_isolated(&self, e1: u64, e2: u64) {
        if e1 != e2 && self.spec_topic_for_epoch(e1) == self.spec_topic_for_epoch(e2) {
            lemma_concat_cancel_left(
                self.spec_kind() + "-epoch-"@,
                decimal_chars(e1 as nat),
                decimal_chars(e2 as nat),
            );
            lemma_decimal_injective(e1 as nat, e2 as nat);
            assert(false);
        }
    }
}

} // verus!
