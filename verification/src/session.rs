//! Session identity: the opaque token naming one consumption lineage, and
//! its deterministic mapping to a broker consumer-group identifier.

use vstd::prelude::*;
use vstd::string::StringExecFns;
use crate::decimal::decimal_chars;
use crate::decimal::lemma_concat_cancel_left;
use crate::decimal::lemma_decimal_injective;
use crate::decimal::u128_to_decimal;

verus! {

/// Opaque token identifying one consumption lineage. A fresh token is drawn
/// at random and never changes once created; it maps one-to-one to a broker
/// consumer-group identifier through [`NodeStreamSessionId::to_group_id`].
#[derive(Clone, Copy, PartialEq, Eq, Structural, Debug, Hash)]
pub struct NodeStreamSessionId {
    token: u128,
}

/// Relies on `rand::random`: one draw from the thread-local generator.
/// Nothing is assumed of the drawn value.
#[verifier::external_body]
fn fresh_token() -> u128 {
    rand::random()
}

/// The consumer-group identifier a session derives to: a fixed prefix
/// followed by the decimal rendering of the session token.
pub closed spec fn spec_group_id(s: NodeStreamSessionId) -> Seq<char> {
    "node-stream-"@ + decimal_chars(s.token as nat)
}

impl NodeStreamSessionId {
    /// A fresh session token; generation has no externally observable
    /// failure.
    pub fn new() -> NodeStreamSessionId {
        NodeStreamSessionId { token: fresh_token() }
    }

    /// A fresh session guaranteed distinct from `self`: in the vanishingly
    /// unlikely event that the draw collides with the current token, the
    /// token is stepped to its wrapping successor, which always differs.
    pub fn fresh_distinct(&self) -> (r: NodeStreamSessionId)
        ensures
            r != *self,
    {
        let mut t = fresh_token();
        if t == self.token {
            t = if t == u128::MAX {
                0
            } else {
                t + 1
            };
        }
        NodeStreamSessionId { token: t }
    }

    /// The consumer-group identifier for this session: pure and
    /// deterministic, so one session always lands in the same group.
    pub fn to_group_id(&self) -> (r: String)
        ensures
            r@ == spec_group_id(*self),
    {
        let digits = u128_to_decimal(self.token);
        let prefix: String = "node-stream-".to_owned();
        prefix.concat(digits.as_str())
    }
}

/// Law: distinct sessions derive distinct consumer-group identifiers, so two
/// lineages never share consumption progress at the broker.
pub proof fn lemma_group_ids_distinct(a: NodeStreamSessionId, b: NodeStreamSessionId)
    requires
        a != b,
    ensures
        spec_group_id(a) != spec_group_id(b),
{
    if spec_group_id(a) == spec_group_id(b) {
        lemma_concat_cancel_left(
            "node-stream-"@,
            decimal_chars(a.token as nat),
            decimal_chars(b.token as nat),
        );
        lemma_decimal_injective(a.token as nat, b.token as nat);
        assert(false);
    }
}

} // verus!
