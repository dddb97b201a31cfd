//! The stream consumer core: session-scoped creation, reset under a fresh
//! lineage, and the poll protocol — fetch, per-messageset decode, unconditional
//! local marking, and a single broker commit once every messageset of the call
//! decoded and was marked cleanly.
//!
//! The bus transport is the embedding shell's affair. The shell performs one
//! network action at a time (connect, fetch, mark, commit) and hands each
//! outcome back; every decision between those actions is made and verified
//! here.

use vstd::prelude::*;
use crate::session::NodeStreamSessionId;
use crate::session::spec_group_id;
use crate::topic::NodeStreamPerEpochTopic;
use crate::topic::TopicName;

verus! {

/// One raw message as fetched from the bus: its broker offset and payload.
#[derive(Debug)]
pub struct RawMessage {
    /// Raw broker offset, monotonically increasing within a partition.
    pub offset: u64,
    /// Undecoded payload bytes.
    pub value: Vec<u8>,
}

/// One messageset: a batch of raw messages fetched together in one round.
#[derive(Debug)]
pub struct RawMessageSet {
    /// The messages of the batch, in fetch order.
    pub messages: Vec<RawMessage>,
}

/// A decoded message: the payload plus the raw broker offset it came from.
#[derive(Debug, PartialEq, Eq)]
pub struct NodeStreamMessage<D> {
    /// Decoded payload.
    pub payload: D,
    /// Raw broker offset, not an epoch-relative sequence number.
    pub message_offset: u64,
}

/// Typed failure reasons, one per boundary of the protocol. None is retried
/// internally; every failure is surfaced to the caller.
#[derive(Debug)]
pub enum NodeStreamConsumerError {
    /// The bus client could not be established.
    UnableToCreateConsumer { err: String },
    /// A reset was attempted onto the session currently held: accepting it
    /// would silently reuse the same consumer group and offset history.
    DuplicateSession { old: NodeStreamSessionId, new: NodeStreamSessionId },
    /// The fetch from the bus failed; the call aborts with no progress.
    UnableToPollMessage { topic: TopicName, err: String },
    /// A message in a fetched messageset failed to decode. The set was
    /// already marked consumed locally, so it will not be redelivered.
    PayloadDeserializeError { topic: TopicName, err: String },
    /// Local consumption bookkeeping failed; later sets stay untouched.
    UnableToMarkMessageConsumed { topic: TopicName, err: String },
    /// The broker commit failed after successful local marking; the local
    /// cursor stays advanced beyond the committed offset.
    UnableToCommitMessageConsumed { topic: TopicName, err: String },
}

/// Where consumption starts when the group has no committed offset yet.
#[derive(Clone, Copy, PartialEq, Eq, Structural, Debug)]
pub enum FallbackOffset {
    /// Start at the earliest retained message: full replay per fresh session.
    Earliest,
    /// Start past the latest message, seeing only new ones.
    Latest,
}

/// Every message of `ms` decodes under capability `t`.
pub open spec fn all_decode_ok<T: NodeStreamPerEpochTopic>(t: T, ms: Seq<RawMessage>) -> bool {
    forall|i: int|
        0 <= i < ms.len() ==> (#[trigger] t.spec_payload_from_bytes(ms[i].value@)) is Ok
}

/// The decoded messages of `ms`, in fetch order, carrying the raw offsets.
/// Meaningful where `all_decode_ok` holds.
pub open spec fn decoded_messages<T: NodeStreamPerEpochTopic>(t: T, ms: Seq<RawMessage>) -> Seq<
    NodeStreamMessage<T::Data>,
> {
    Seq::new(
        ms.len(),
        |i: int|
            (NodeStreamMessage {
                payload: t.spec_payload_from_bytes(ms[i].value@)->Ok_0,
                message_offset: ms[i].offset,
            }),
    )
}

/// Message `j` of `ms` is the first that fails to decode, with error `e`.
pub open spec fn first_failure_at<T: NodeStreamPerEpochTopic>(
    t: T,
    ms: Seq<RawMessage>,
    j: int,
    e: Seq<char>,
) -> bool {
    &&& 0 <= j < ms.len()
    &&& forall|k: int|
        0 <= k < j ==> (#[trigger] t.spec_payload_from_bytes(ms[k].value@)) is Ok
    &&& t.spec_payload_from_bytes(ms[j].value@) == Err::<T::Data, Seq<char>>(e)
}

/// `e` is the error of the first message of `ms` that fails to decode.
pub open spec fn first_failure_error<T: NodeStreamPerEpochTopic>(
    t: T,
    ms: Seq<RawMessage>,
    e: Seq<char>,
) -> bool {
    exists|j: int| first_failure_at(t, ms, j, e)
}

/// `r` is the decode outcome of messageset `set` under capability `t`: all
/// its messages in order, or the first failure's error.
pub open spec fn decode_result_models<T: NodeStreamPerEpochTopic>(
    t: T,
    set: RawMessageSet,
    r: Result<Vec<NodeStreamMessage<T::Data>>, String>,
) -> bool {
    match r {
        Ok(v) => all_decode_ok(t, set.messages@) && v@ == decoded_messages(t, set.messages@),
        Err(e) => first_failure_error(t, set.messages@, e@),
    }
}

/// The flattened decode of the first `n` messagesets, in fetch order.
pub open spec fn spec_flat_prefix<T: NodeStreamPerEpochTopic>(
    t: T,
    sets: Seq<RawMessageSet>,
    n: int,
) -> Seq<NodeStreamMessage<T::Data>>
    decreases n,
{
    if n <= 0 {
        Seq::empty()
    } else {
        spec_flat_prefix(t, sets, n - 1) + decoded_messages(t, sets[n - 1].messages@)
    }
}

/// Decode one messageset: every message in fetch order, or the first
/// failure's error.
pub fn decode_messageset<T: NodeStreamPerEpochTopic>(topic: &T, set: &RawMessageSet) -> (r: Result<
    Vec<NodeStreamMessage<T::Data>>,
    String,
>)
    ensures
        decode_result_models(*topic, *set, r),
{
    let mut out: Vec<NodeStreamMessage<T::Data>> = Vec::new();
    let mut i: usize = 0;
    let n = set.messages.len();
    while i < n
        invariant
            n == set.messages@.len(),
            i <= n,
            forall|k: int|
                0 <= k < i ==> (#[trigger] topic.spec_payload_from_bytes(
                    set.messages@[k].value@,
                )) is Ok,
            out@ == decoded_messages(*topic, set.messages@.take(i as int)),
        decreases n - i,
    {
        let m = &set.messages[i];
        match topic.payload_from_bytes(m.value.as_slice()) {
            Ok(p) => {
                out.push(NodeStreamMessage { payload: p, message_offset: m.offset });
                proof {
                    assert(decoded_messages(*topic, set.messages@.take(i as int + 1))
                        =~= decoded_messages(*topic, set.messages@.take(i as int)).push(
                        NodeStreamMessage {
                            payload: topic.spec_payload_from_bytes(
                                set.messages@[i as int].value@,
                            )->Ok_0,
                            message_offset: set.messages@[i as int].offset,
                        },
                    ));
                }
            },
            Err(e) => {
                let rr: Result<Vec<NodeStreamMessage<T::Data>>, String> = Err(e);
                proof {
                    assert(first_failure_at(*topic, set.messages@, i as int, rr->Err_0@));
                    assert(decode_result_models(*topic, *set, rr));
                }
                return rr;
            },
        }
        i = i + 1;
    }
    proof {
        assert(set.messages@.take(n as int) =~= set.messages@);
    }
    Ok(out)
}

/// A consumer bound to an address, session, epoch and topic capability whose
/// bus connection is not yet established. `on_create` turns the shell's
/// connection outcome into a live consumer or the creation error.
pub struct ConsumerSetup<T: NodeStreamPerEpochTopic> {
    host_addr: String,
    session: NodeStreamSessionId,
    epoch: u64,
    topic: T,
}

/// The core consumer: binds a broker address, a session, an epoch and a
/// topic capability, and drives the poll protocol. The epoch never changes
/// after construction; a reset consumes the instance and starts a fresh
/// lineage.
pub struct NodeStreamConsumer<T: NodeStreamPerEpochTopic> {
    host_addr: String,
    session: NodeStreamSessionId,
    epoch: u64,
    topic: T,
}

impl<T: NodeStreamPerEpochTopic> ConsumerSetup<T> {
    /// Broker address the connection must be opened against.
    pub closed spec fn spec_host(&self) -> Seq<char> {
        self.host_addr@
    }

    /// Session the connection is scoped to.
    pub closed spec fn spec_session(&self) -> NodeStreamSessionId {
        self.session
    }

    /// Epoch of the lineage.
    pub closed spec fn spec_epoch(&self) -> u64 {
        self.epoch
    }

    /// Topic capability of the lineage.
    pub closed spec fn spec_topic(&self) -> T {
        self.topic
    }

    /// The broker address to connect to.
    pub fn host_addr(&self) -> (r: &String)
        ensures
            r@ == self.spec_host(),
    {
        &self.host_addr
    }

    /// The consumer-group identifier the connection must join: derived
    /// deterministically from the session.
    pub fn group_id(&self) -> (r: String)
        ensures
            r@ == spec_group_id(self.spec_session()),
    {
        self.session.to_group_id()
    }

    /// The one topic name the connection must subscribe to.
    pub fn topic_name(&self) -> (r: TopicName)
        ensures
            r@ == self.spec_topic().spec_topic_for_epoch(self.spec_epoch()),
    {
        self.topic.topic_for_epoch(self.epoch)
    }

    /// The fallback offset policy: always earliest, so a session with no
    /// committed offset replays the stream from its first retained message.
    pub fn fallback_offset(&self) -> (r: FallbackOffset)
        ensures
            r == FallbackOffset::Earliest,
    {
        FallbackOffset::Earliest
    }

    /// Consume the shell's connection outcome: a live consumer on success,
    /// `UnableToCreateConsumer` carrying the shell's error otherwise.
    pub fn on_create(self, outcome: Result<(), String>) -> (r: Result<
        NodeStreamConsumer<T>,
        NodeStreamConsumerError,
    >)
        ensures
            match outcome {
                Ok(_) => r matches Ok(c) && c.spec_session() == self.spec_session()
                    && c.spec_epoch() == self.spec_epoch() && c.spec_topic() == self.spec_topic()
                    && c.spec_host() == self.spec_host(),
                Err(e) => r matches Err(NodeStreamConsumerError::UnableToCreateConsumer {
                    err: msg,
                }) && msg@ == e@,
            },
    {
        match outcome {
            Ok(_) => Ok(
                NodeStreamConsumer {
                    host_addr: self.host_addr,
                    session: self.session,
                    epoch: self.epoch,
                    topic: self.topic,
                },
            ),
            Err(e) => Err(NodeStreamConsumerError::UnableToCreateConsumer { err: e }),
        }
    }
}

/// The replacement setup carries the prior consumer's address, epoch and
/// topic capability over unchanged.
pub open spec fn carries_over<T: NodeStreamPerEpochTopic>(
    c: ConsumerSetup<T>,
    prior: NodeStreamConsumer<T>,
) -> bool {
    &&& c.spec_host() == prior.spec_host()
    &&& c.spec_epoch() == prior.spec_epoch()
    &&& c.spec_topic() == prior.spec_topic()
}

impl<T: NodeStreamPerEpochTopic> NodeStreamConsumer<T> {
    /// Broker address of the connection.
    pub closed spec fn spec_host(&self) -> Seq<char> {
        self.host_addr@
    }

    /// Session of the lineage.
    pub closed spec fn spec_session(&self) -> NodeStreamSessionId {
        self.session
    }

    /// Epoch of the lineage; fixed for the life of the instance.
    pub closed spec fn spec_epoch(&self) -> u64 {
        self.epoch
    }

    /// Topic capability of the lineage.
    pub closed spec fn spec_topic(&self) -> T {
        self.topic
    }

    /// Bind an address, a session (freshly generated when none is supplied),
    /// an epoch and a topic capability. The returned setup still needs its
    /// connection outcome (`ConsumerSetup::on_create`) before it can poll.
    pub fn new(
        host_addr: String,
        session_id: Option<NodeStreamSessionId>,
        epoch: u64,
        topic: T,
    ) -> (r: ConsumerSetup<T>)
        ensures
            session_id matches Some(s) ==> r.spec_session() == s,
            r.spec_host() == host_addr@,
            r.spec_epoch() == epoch,
            r.spec_topic() == topic,
    {
        let session = match session_id {
            Some(s) => s,
            None => NodeStreamSessionId::new(),
        };
        ConsumerSetup { host_addr, session, epoch, topic }
    }

    /// The current session, read-only.
    pub fn session_id(&self) -> (r: NodeStreamSessionId)
        ensures
            r == self.spec_session(),
    {
        self.session
    }

    /// The one topic name this consumer is subscribed to.
    pub fn topic_name(&self) -> (r: TopicName)
        ensures
            r@ == self.spec_topic().spec_topic_for_epoch(self.spec_epoch()),
    {
        self.topic.topic_for_epoch(self.epoch)
    }

    /// Retire this instance and start a fresh lineage from the beginning of
    /// the stream: same address, epoch and topic, under the candidate session
    /// (freshly generated when none is supplied, and then always distinct
    /// from the current one). A candidate equal to the current session is
    /// rejected with `DuplicateSession`: accepting it would reuse the same
    /// consumer group and offset history, defeating the reset. The validated
    /// candidate — never the outgoing session — seeds the replacement, so the
    /// new lineage joins a genuinely different group.
    pub fn reset_with_session(self, session_id: Option<NodeStreamSessionId>) -> (r: Result<
        ConsumerSetup<T>,
        NodeStreamConsumerError,
    >)
        ensures
            match session_id {
                Some(s) => {
                    if s == self.spec_session() {
                        r matches Err(NodeStreamConsumerError::DuplicateSession {
                            old: o,
                            new: n,
                        }) && o == self.spec_session() && n == s
                    } else {
                        r matches Ok(c) && c.spec_session() == s && carries_over(c, self)
                    }
                },
                None => r matches Ok(c) && c.spec_session() != self.spec_session()
                    && carries_over(c, self),
            },
    {
        let candidate = match session_id {
            Some(s) => s,
            None => self.session.fresh_distinct(),
        };
        if candidate == self.session {
            return Err(
                NodeStreamConsumerError::DuplicateSession { old: self.session, new: candidate },
            );
        }
        Ok(
            ConsumerSetup {
                host_addr: self.host_addr,
                session: candidate,
                epoch: self.epoch,
                topic: self.topic,
            },
        )
    }

    /// Begin one poll protocol run from the shell's fetch outcome. A failed
    /// fetch aborts the call with `UnableToPollMessage` and no progress; an
    /// empty fetch goes straight to commit and yields no messages; otherwise
    /// every messageset is decoded and the first must be marked consumed.
    pub fn poll(&self, fetched: Result<Vec<RawMessageSet>, String>) -> (r: PollStep<T>)
        ensures
            match fetched {
                Err(e) => r matches PollStep::Failed(
                    NodeStreamConsumerError::UnableToPollMessage { topic: t, err: msg },
                ) && t@ == self.spec_topic().spec_topic_for_epoch(self.spec_epoch()) && msg@ == e@,
                Ok(sets) => {
                    if sets@.len() == 0 {
                        r matches PollStep::Commit(cp) && cp.spec_topic() == self.spec_topic()
                            && cp.spec_epoch() == self.spec_epoch() && cp.spec_sets() == sets@
                            && cp.spec_acc() == Seq::<NodeStreamMessage<T::Data>>::empty()
                            && commit_stage_clean(cp)
                    } else {
                        r matches PollStep::Mark(mp) && mp.spec_topic() == self.spec_topic()
                            && mp.spec_epoch() == self.spec_epoch() && mp.spec_sets() == sets@
                            && mp.spec_done() == 0 && mark_stage_consistent(mp)
                    }
                },
            },
    {
        let name = self.topic.topic_for_epoch(self.epoch);
        match fetched {
            Err(e) => PollStep::Failed(
                NodeStreamConsumerError::UnableToPollMessage { topic: name, err: e },
            ),
            Ok(sets) => {
                let ghost gsets = sets@;
                let mut results: Vec<Result<Vec<NodeStreamMessage<T::Data>>, String>> = Vec::new();
                let mut i: usize = 0;
                let n = sets.len();
                while i < n
                    invariant
                        n == gsets.len(),
                        sets@ == gsets,
                        i <= n,
                        results@.len() == i,
                        forall|k: int|
                            0 <= k < i ==> decode_result_models(
                                self.topic,
                                gsets[k],
                                #[trigger] results@[k],
                            ),
                    decreases n - i,
                {
                    let dr = decode_messageset(&self.topic, &sets[i]);
                    results.push(dr);
                    i = i + 1;
                }
                if results.len() == 0 {
                    PollStep::Commit(
                        CommitPending {
                            acc: Vec::new(),
                            err_topic: name,
                            sets: Ghost(gsets),
                            topic: Ghost(self.topic),
                            epoch: Ghost(self.epoch),
                        },
                    )
                } else {
                    PollStep::Mark(
                        MarkPending {
                            results,
                            done: 0,
                            acc: Vec::new(),
                            err_topic: name,
                            sets: Ghost(gsets),
                            topic: Ghost(self.topic),
                            epoch: Ghost(self.epoch),
                        },
                    )
                }
            },
        }
    }
}

/// The next move in one poll protocol run.
pub enum PollStep<T: NodeStreamPerEpochTopic> {
    /// The run ended in an error; commit was never reached.
    Failed(NodeStreamConsumerError),
    /// The messageset at `MarkPending::set_index` must be marked consumed
    /// now, whatever its decode outcome; its marking outcome goes to
    /// `MarkPending::on_mark`.
    Mark(MarkPending<T>),
    /// Every messageset decoded and was marked: the accumulated progress must
    /// be committed to the broker; the outcome goes to
    /// `CommitPending::on_commit`.
    Commit(CommitPending<T>),
}

/// A poll run in its marking stage: the messagesets before `spec_done` have
/// decoded and been marked cleanly, and the one at `spec_done` awaits its
/// marking outcome.
pub struct MarkPending<T: NodeStreamPerEpochTopic> {
    results: Vec<Result<Vec<NodeStreamMessage<T::Data>>, String>>,
    done: usize,
    acc: Vec<NodeStreamMessage<T::Data>>,
    err_topic: TopicName,
    sets: Ghost<Seq<RawMessageSet>>,
    topic: Ghost<T>,
    epoch: Ghost<u64>,
}

/// A poll run in its commit stage: every messageset decoded and was marked;
/// only the broker commit is outstanding.
pub struct CommitPending<T: NodeStreamPerEpochTopic> {
    acc: Vec<NodeStreamMessage<T::Data>>,
    err_topic: TopicName,
    sets: Ghost<Seq<RawMessageSet>>,
    topic: Ghost<T>,
    epoch: Ghost<u64>,
}

/// What holds of every marking stage: the messagesets already handled all
/// decoded, and the accumulated messages are exactly their flattened decode.
pub open spec fn mark_stage_consistent<T: NodeStreamPerEpochTopic>(mp: MarkPending<T>) -> bool {
    &&& 0 <= mp.spec_done() < mp.spec_sets().len()
    &&& forall|i: int|
        0 <= i < mp.spec_done() ==> all_decode_ok(
            mp.spec_topic(),
            #[trigger] mp.spec_sets()[i].messages@,
        )
    &&& mp.spec_acc() == spec_flat_prefix(mp.spec_topic(), mp.spec_sets(), mp.spec_done())
}

/// What holds whenever the commit stage is reached: every messageset of the
/// call decoded completely and was marked without error, and what is about to
/// be committed covers exactly their flattened decode.
pub open spec fn commit_stage_clean<T: NodeStreamPerEpochTopic>(cp: CommitPending<T>) -> bool {
    &&& forall|i: int|
        0 <= i < cp.spec_sets().len() ==> all_decode_ok(
            cp.spec_topic(),
            #[trigger] cp.spec_sets()[i].messages@,
        )
    &&& cp.spec_acc() == spec_flat_prefix(
        cp.spec_topic(),
        cp.spec_sets(),
        cp.spec_sets().len() as int,
    )
}

impl<T: NodeStreamPerEpochTopic> MarkPending<T> {
    /// The messagesets of the run, as fetched.
    pub closed spec fn spec_sets(&self) -> Seq<RawMessageSet> {
        self.sets@
    }

    /// How many messagesets were already handled (decoded and marked).
    pub closed spec fn spec_done(&self) -> int {
        self.done as int
    }

    /// The messages accumulated from the handled messagesets.
    pub closed spec fn spec_acc(&self) -> Seq<NodeStreamMessage<T::Data>> {
        self.acc@
    }

    /// The capability of the run.
    pub closed spec fn spec_topic(&self) -> T {
        self.topic@
    }

    /// The epoch of the run.
    pub closed spec fn spec_epoch(&self) -> u64 {
        self.epoch@
    }

    #[verifier::type_invariant]
    closed spec fn wf(&self) -> bool {
        &&& (self.done as int) < self.sets@.len()
        &&& self.sets@.len() <= usize::MAX
        &&& self.results@.len() == self.sets@.len() - (self.done as int)
        &&& forall|i: int|
            0 <= i < self.results@.len() ==> decode_result_models(
                self.topic@,
                self.sets@[self.done + i],
                #[trigger] self.results@[i],
            )
        &&& forall|i: int|
            0 <= i < self.done ==> all_decode_ok(self.topic@, #[trigger] self.sets@[i].messages@)
        &&& self.acc@ == spec_flat_prefix(self.topic@, self.sets@, self.done as int)
        &&& self.err_topic@ == self.topic@.spec_topic_for_epoch(self.epoch@)
    }

    /// Index of the messageset to mark consumed now, in fetch order.
    pub fn set_index(&self) -> (r: usize)
        ensures
            r as int == self.spec_done(),
    {
        self.done
    }

    /// Consume the shell's marking outcome for the messageset at
    /// `set_index`. A failed mark aborts the run with
    /// `UnableToMarkMessageConsumed`; a marked set whose decode failed aborts
    /// it with `PayloadDeserializeError` (the set stays retired locally);
    /// otherwise the run advances to the next set, or to commit after the
    /// last one.
    pub fn on_mark(self, outcome: Result<(), String>) -> (r: PollStep<T>)
        ensures
            outcome matches Err(e) ==> (r matches PollStep::Failed(
                NodeStreamConsumerError::UnableToMarkMessageConsumed { topic: t, err: msg },
            ) && t@ == self.spec_topic().spec_topic_for_epoch(self.spec_epoch()) && msg@ == e@),
            outcome is Ok && all_decode_ok(
                self.spec_topic(),
                self.spec_sets()[self.spec_done()].messages@,
            ) && self.spec_done() + 1 < self.spec_sets().len() ==> (r matches PollStep::Mark(mp)
                && mp.spec_topic() == self.spec_topic() && mp.spec_epoch() == self.spec_epoch()
                && mp.spec_sets() == self.spec_sets() && mp.spec_done() == self.spec_done() + 1
                && mark_stage_consistent(mp)),
            outcome is Ok && all_decode_ok(
                self.spec_topic(),
                self.spec_sets()[self.spec_done()].messages@,
            ) && self.spec_done() + 1 >= self.spec_sets().len() ==> (r matches PollStep::Commit(cp)
                && cp.spec_topic() == self.spec_topic() && cp.spec_epoch() == self.spec_epoch()
                && cp.spec_sets() == self.spec_sets() && commit_stage_clean(cp)),
            outcome is Ok && !all_decode_ok(
                self.spec_topic(),
                self.spec_sets()[self.spec_done()].messages@,
            ) ==> (r matches PollStep::Failed(
                NodeStreamConsumerError::PayloadDeserializeError { topic: t, err: msg },
            ) && t@ == self.spec_topic().spec_topic_for_epoch(self.spec_epoch())
                && first_failure_error(
                self.spec_topic(),
                self.spec_sets()[self.spec_done()].messages@,
                msg@,
            )),
    {
        proof {
            use_type_invariant(&self);
        }
        let MarkPending { mut results, done, mut acc, err_topic, sets, topic, epoch } = self;
        match outcome {
            Err(e) => PollStep::Failed(
                NodeStreamConsumerError::UnableToMarkMessageConsumed { topic: err_topic, err: e },
            ),
            Ok(_) => {
                let head = results.remove(0);
                match head {
                    Err(e) => {
                        proof {
                            let ms = sets@[done as int].messages@;
                            assert(exists|j: int| first_failure_at(topic@, ms, j, e@));
                            let j = choose|j: int| first_failure_at(topic@, ms, j, e@);
                            assert(topic@.spec_payload_from_bytes(ms[j].value@) == Err::<
                                T::Data,
                                Seq<char>,
                            >(e@));
                            assert(!all_decode_ok(topic@, ms));
                        }
                        PollStep::Failed(
                            NodeStreamConsumerError::PayloadDeserializeError {
                                topic: err_topic,
                                err: e,
                            },
                        )
                    },
                    Ok(mut msgs) => {
                        proof {
                            assert(spec_flat_prefix(topic@, sets@, done + 1) =~= spec_flat_prefix(
                                topic@,
                                sets@,
                                done as int,
                            ) + decoded_messages(topic@, sets@[done as int].messages@));
                        }
                        acc.append(&mut msgs);
                        let done2 = done + 1;
                        proof {
                            assert forall|i: int| 0 <= i < results@.len() implies
                                decode_result_models(
                                    topic@,
                                    sets@[done2 + i],
                                    #[trigger] results@[i],
                                ) by {
                                assert(decode_result_models(
                                    topic@,
                                    sets@[done + (i + 1)],
                                    self.results@[i + 1],
                                ));
                            }
                        }
                        if results.len() > 0 {
                            PollStep::Mark(
                                MarkPending { results, done: done2, acc, err_topic, sets, topic, epoch },
                            )
                        } else {
                            PollStep::Commit(
                                CommitPending { acc, err_topic, sets, topic, epoch },
                            )
                        }
                    },
                }
            },
        }
    }
}

impl<T: NodeStreamPerEpochTopic> CommitPending<T> {
    /// The messagesets of the run, as fetched.
    pub closed spec fn spec_sets(&self) -> Seq<RawMessageSet> {
        self.sets@
    }

    /// The messages accumulated from the whole run.
    pub closed spec fn spec_acc(&self) -> Seq<NodeStreamMessage<T::Data>> {
        self.acc@
    }

    /// The capability of the run.
    pub closed spec fn spec_topic(&self) -> T {
        self.topic@
    }

    /// The epoch of the run.
    pub closed spec fn spec_epoch(&self) -> u64 {
        self.epoch@
    }

    #[verifier::type_invariant]
    closed spec fn wf(&self) -> bool {
        &&& forall|i: int|
            0 <= i < self.sets@.len() ==> all_decode_ok(
                self.topic@,
                #[trigger] self.sets@[i].messages@,
            )
        &&& self.acc@ == spec_flat_prefix(self.topic@, self.sets@, self.sets@.len() as int)
        &&& self.err_topic@ == self.topic@.spec_topic_for_epoch(self.epoch@)
    }

    /// Consume the shell's commit outcome: on success the run's messages, in
    /// fetch order — exactly the flattened decode of every fetched
    /// messageset; on failure `UnableToCommitMessageConsumed`, with the local
    /// cursor left advanced beyond the committed offset.
    pub fn on_commit(self, outcome: Result<(), String>) -> (r: Result<
        Vec<NodeStreamMessage<T::Data>>,
        NodeStreamConsumerError,
    >)
        ensures
            match outcome {
                Ok(_) => r matches Ok(v) && v@ == self.spec_acc() && v@ == spec_flat_prefix(
                    self.spec_topic(),
                    self.spec_sets(),
                    self.spec_sets().len() as int,
                ) && (forall|i: int|
                    0 <= i < self.spec_sets().len() ==> all_decode_ok(
                        self.spec_topic(),
                        #[trigger] self.spec_sets()[i].messages@,
                    )),
                Err(e) => r matches Err(NodeStreamConsumerError::UnableToCommitMessageConsumed {
                    topic: t,
                    err: msg,
                }) && t@ == self.spec_topic().spec_topic_for_epoch(self.spec_epoch()) && msg@
                    == e@,
            },
    {
        proof {
            use_type_invariant(&self);
        }
        let CommitPending { acc, err_topic, .. } = self;
        match outcome {
            Ok(_) => Ok(acc),
            Err(e) => Err(
                NodeStreamConsumerError::UnableToCommitMessageConsumed {
                    topic: err_topic,
                    err: e,
                },
            ),
        }
    }
}

/// The broker offsets of a sequence of decoded messages, in order.
pub open spec fn spec_offsets<D>(msgs: Seq<NodeStreamMessage<D>>) -> Seq<u64> {
    msgs.map_values(|m: NodeStreamMessage<D>| m.message_offset)
}

/// The raw broker offsets of the first `n` fetched messagesets, flattened in
/// fetch order.
pub open spec fn raw_offsets_prefix(sets: Seq<RawMessageSet>, n: int) -> Seq<u64>
    decreases n,
{
    if n <= 0 {
        Seq::empty()
    } else {
        raw_offsets_prefix(sets, n - 1) + sets[n - 1].messages@.map_values(
            |m: RawMessage| m.offset,
        )
    }
}

/// The offsets are strictly increasing.
pub open spec fn strictly_increasing(s: Seq<u64>) -> bool {
    forall|i: int, j: int| 0 <= i < j < s.len() ==> s[i] < s[j]
}

/// Law: when every fetched message decodes, a poll returns exactly the
/// fetched messages, in fetch order, carrying the raw broker offsets
/// unchanged. In particular, when the fetch is offset-ordered — as it is for
/// a fresh session replaying a partition from its earliest offset — the
/// returned messages are offset-ordered too, starting at the first fetched
/// offset.
pub proof fn lemma_poll_preserves_offsets<T: NodeStreamPerEpochTopic>(
    t: T,
    sets: Seq<RawMessageSet>,
    n: int,
)
    requires
        0 <= n <= sets.len(),
        forall|i: int| 0 <= i < n ==> all_decode_ok(t, #[trigger] sets[i].messages@),
    ensures
        spec_offsets(spec_flat_prefix(t, sets, n)) == raw_offsets_prefix(sets, n),
        strictly_increasing(raw_offsets_prefix(sets, n)) ==> strictly_increasing(
            spec_offsets(spec_flat_prefix(t, sets, n)),
        ),
    decreases n,
{
    if n > 0 {
        lemma_poll_preserves_offsets(t, sets, n - 1);
        assert(spec_offsets(decoded_messages(t, sets[n - 1].messages@)) =~= sets[n
            - 1].messages@.map_values(|m: RawMessage| m.offset));
        assert(spec_offsets(spec_flat_prefix(t, sets, n)) =~= spec_offsets(
            spec_flat_prefix(t, sets, n - 1),
        ) + spec_offsets(decoded_messages(t, sets[n - 1].messages@)));
    } else {
        assert(spec_offsets(spec_flat_prefix(t, sets, n)) =~= raw_offsets_prefix(sets, n));
    }
}

} // verus!
