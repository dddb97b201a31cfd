use node_stream::NodeStreamSessionId;
use node_stream::consumer::FallbackOffset;
use node_stream::consumer::NodeStreamConsumer;
use node_stream::consumer::NodeStreamConsumerError;
use node_stream::consumer::NodeStreamMessage;
use node_stream::consumer::PollStep;
use node_stream::consumer::RawMessage;
use node_stream::consumer::RawMessageSet;
use node_stream::consumer::decode_messageset;
use node_stream::topic::KindedTopic;

fn be_bytes(v: u64) -> Vec<u8> {
    let mut out = Vec::new();
    let mut k: u32 = 8;
    while k > 0 {
        k -= 1;
        out.push(((v >> (8 * k)) & 0xff) as u8);
    }
    out
}

fn raw_set(entries: &[(u64, Vec<u8>)]) -> RawMessageSet {
    RawMessageSet {
        messages: entries
            .iter()
            .map(|(offset, value)| RawMessage {
                offset: *offset,
                value: value.clone(),
            })
            .collect(),
    }
}

fn events_consumer(epoch: u64) -> NodeStreamConsumer<KindedTopic> {
    let setup = NodeStreamConsumer::new(
        "127.0.0.1:9092".to_owned(),
        None,
        epoch,
        KindedTopic::new("events".to_owned()),
    );
    setup.on_create(Ok(())).expect("a successful connection outcome yields a consumer")
}

#[test]
fn setup_exposes_the_connection_plan() {
    let session = NodeStreamSessionId::new();
    let setup = NodeStreamConsumer::new(
        "10.0.0.5:9092".to_owned(),
        Some(session),
        7,
        KindedTopic::new("events".to_owned()),
    );
    assert_eq!(setup.host_addr(), "10.0.0.5:9092");
    assert_eq!(setup.group_id(), session.to_group_id());
    assert_eq!(setup.topic_name().to_raw(), "events-epoch-7");
    assert_eq!(setup.fallback_offset(), FallbackOffset::Earliest);
}

#[test]
fn failed_connection_surfaces_the_creation_error() {
    let setup = NodeStreamConsumer::new(
        "10.0.0.5:9092".to_owned(),
        None,
        1,
        KindedTopic::new("events".to_owned()),
    );
    match setup.on_create(Err("connection refused".to_owned())) {
        Err(NodeStreamConsumerError::UnableToCreateConsumer { err }) => {
            assert_eq!(err, "connection refused");
        }
        other => panic!("expected UnableToCreateConsumer, got {:?}", other.map(|_| ())),
    }
}

#[test]
fn explicit_session_is_kept_and_readable() {
    let session = NodeStreamSessionId::new();
    let setup = NodeStreamConsumer::new(
        "127.0.0.1:9092".to_owned(),
        Some(session),
        2,
        KindedTopic::new("events".to_owned()),
    );
    let consumer = setup.on_create(Ok(())).unwrap();
    assert_eq!(consumer.session_id(), session);
}

#[test]
fn reset_onto_the_current_session_is_rejected() {
    let consumer = events_consumer(2);
    let current = consumer.session_id();
    match consumer.reset_with_session(Some(current)) {
        Err(NodeStreamConsumerError::DuplicateSession { old, new }) => {
            assert_eq!(old, current);
            assert_eq!(new, current);
        }
        other => panic!("expected DuplicateSession, got {:?}", other.map(|_| ())),
    }
}

#[test]
fn reset_without_a_session_yields_a_distinct_one() {
    let consumer = events_consumer(2);
    let before = consumer.session_id();
    let setup = consumer.reset_with_session(None).expect("a fresh session never collides");
    let replacement = setup.on_create(Ok(())).unwrap();
    assert_ne!(replacement.session_id(), before);
    assert_ne!(replacement.session_id().to_group_id(), before.to_group_id());
}

#[test]
fn reset_onto_a_different_session_seeds_the_replacement_with_it() {
    let consumer = events_consumer(9);
    let fresh = NodeStreamSessionId::new();
    assert_ne!(fresh, consumer.session_id());
    let setup = consumer.reset_with_session(Some(fresh)).unwrap();
    assert_eq!(setup.group_id(), fresh.to_group_id());
    assert_eq!(setup.host_addr(), "127.0.0.1:9092");
    assert_eq!(setup.topic_name().to_raw(), "events-epoch-9");
    let replacement = setup.on_create(Ok(())).unwrap();
    assert_eq!(replacement.session_id(), fresh);
}

#[test]
fn decode_messageset_keeps_order_and_offsets() {
    let topic = KindedTopic::new("events".to_owned());
    let set = raw_set(&[(10, be_bytes(65)), (11, be_bytes(66)), (12, be_bytes(67))]);
    let decoded = decode_messageset(&topic, &set).unwrap();
    assert_eq!(
        decoded,
        vec![
            NodeStreamMessage { payload: 65, message_offset: 10 },
            NodeStreamMessage { payload: 66, message_offset: 11 },
            NodeStreamMessage { payload: 67, message_offset: 12 },
        ]
    );
}

#[test]
fn decode_messageset_reports_the_first_failure() {
    let topic = KindedTopic::new("events".to_owned());
    let set = raw_set(&[(10, be_bytes(65)), (11, vec![1, 2, 3]), (12, be_bytes(67))]);
    assert_eq!(
        decode_messageset(&topic, &set),
        Err("payload is not exactly eight bytes".to_owned())
    );
}

#[test]
fn first_poll_replays_from_the_lowest_offset_in_order() {
    let consumer = events_consumer(3);
    let set = raw_set(&[(10, be_bytes(65)), (11, be_bytes(66)), (12, be_bytes(67))]);
    let step = consumer.poll(Ok(vec![set]));
    let mark = match step {
        PollStep::Mark(mark) => mark,
        _ => panic!("expected a mark step first"),
    };
    assert_eq!(mark.set_index(), 0);
    let commit = match mark.on_mark(Ok(())) {
        PollStep::Commit(commit) => commit,
        _ => panic!("expected the commit step after the only set"),
    };
    let messages = commit.on_commit(Ok(())).unwrap();
    assert_eq!(
        messages,
        vec![
            NodeStreamMessage { payload: 65, message_offset: 10 },
            NodeStreamMessage { payload: 66, message_offset: 11 },
            NodeStreamMessage { payload: 67, message_offset: 12 },
        ]
    );

    let step = consumer.poll(Ok(vec![]));
    let commit = match step {
        PollStep::Commit(commit) => commit,
        _ => panic!("an empty fetch goes straight to commit"),
    };
    assert_eq!(commit.on_commit(Ok(())).unwrap(), vec![]);
}

#[test]
fn empty_fetch_returns_no_messages_and_no_error() {
    let consumer = events_consumer(4);
    match consumer.poll(Ok(vec![])) {
        PollStep::Commit(commit) => {
            assert_eq!(commit.on_commit(Ok(())).unwrap(), vec![]);
        }
        _ => panic!("an empty fetch goes straight to commit"),
    }
}

#[test]
fn several_messagesets_are_marked_in_order_and_flattened() {
    let consumer = events_consumer(3);
    let sets = vec![
        raw_set(&[(20, be_bytes(1)), (21, be_bytes(2))]),
        raw_set(&[(22, be_bytes(3))]),
        raw_set(&[(23, be_bytes(4)), (24, be_bytes(5))]),
    ];
    let mut step = consumer.poll(Ok(sets));
    let mut marked = Vec::new();
    let messages = loop {
        step = match step {
            PollStep::Mark(mark) => {
                marked.push(mark.set_index());
                mark.on_mark(Ok(()))
            }
            PollStep::Commit(commit) => break commit.on_commit(Ok(())).unwrap(),
            PollStep::Failed(e) => panic!("unexpected failure: {e:?}"),
        };
    };
    assert_eq!(marked, vec![0, 1, 2]);
    let offsets: Vec<u64> = messages.iter().map(|m| m.message_offset).collect();
    assert_eq!(offsets, vec![20, 21, 22, 23, 24]);
    let payloads: Vec<u64> = messages.iter().map(|m| m.payload).collect();
    assert_eq!(payloads, vec![1, 2, 3, 4, 5]);
}

#[test]
fn failed_fetch_aborts_with_unable_to_poll() {
    let consumer = events_consumer(3);
    match consumer.poll(Err("connection lost".to_owned())) {
        PollStep::Failed(NodeStreamConsumerError::UnableToPollMessage { topic, err }) => {
            assert_eq!(topic.to_raw(), "events-epoch-3");
            assert_eq!(err, "connection lost");
        }
        _ => panic!("expected UnableToPollMessage"),
    }
}

#[test]
fn undecodable_message_fails_the_poll_after_its_set_was_marked() {
    let consumer = events_consumer(3);
    let sets = vec![
        raw_set(&[(10, be_bytes(65)), (11, vec![9, 9]), (12, be_bytes(67))]),
        raw_set(&[(13, be_bytes(68))]),
    ];
    let step = consumer.poll(Ok(sets));
    let mark = match step {
        PollStep::Mark(mark) => mark,
        _ => panic!("the bad set still gets its mark step first"),
    };
    assert_eq!(mark.set_index(), 0);
    match mark.on_mark(Ok(())) {
        PollStep::Failed(NodeStreamConsumerError::PayloadDeserializeError { topic, err }) => {
            assert_eq!(topic.to_raw(), "events-epoch-3");
            assert_eq!(err, "payload is not exactly eight bytes");
        }
        _ => panic!("expected PayloadDeserializeError; the second set is never reached"),
    }
}

#[test]
fn failed_mark_aborts_with_unable_to_mark() {
    let consumer = events_consumer(3);
    let step = consumer.poll(Ok(vec![raw_set(&[(10, be_bytes(65))])]));
    let mark = match step {
        PollStep::Mark(mark) => mark,
        _ => panic!("expected a mark step"),
    };
    match mark.on_mark(Err("bookkeeping failed".to_owned())) {
        PollStep::Failed(NodeStreamConsumerError::UnableToMarkMessageConsumed { topic, err }) => {
            assert_eq!(topic.to_raw(), "events-epoch-3");
            assert_eq!(err, "bookkeeping failed");
        }
        _ => panic!("expected UnableToMarkMessageConsumed"),
    }
}

#[test]
fn commit_is_reached_only_after_all_sets_and_its_failure_is_surfaced() {
    let consumer = events_consumer(3);
    let sets = vec![raw_set(&[(10, be_bytes(65))]), raw_set(&[(11, be_bytes(66))])];
    let mut step = consumer.poll(Ok(sets));
    let mut marks_before_commit = 0;
    let commit = loop {
        step = match step {
            PollStep::Mark(mark) => {
                marks_before_commit += 1;
                mark.on_mark(Ok(()))
            }
            PollStep::Commit(commit) => break commit,
            PollStep::Failed(e) => panic!("unexpected failure: {e:?}"),
        };
    };
    assert_eq!(marks_before_commit, 2);
    match commit.on_commit(Err("broker unavailable".to_owned())) {
        Err(NodeStreamConsumerError::UnableToCommitMessageConsumed { topic, err }) => {
            assert_eq!(topic.to_raw(), "events-epoch-3");
            assert_eq!(err, "broker unavailable");
        }
        other => panic!("expected UnableToCommitMessageConsumed, got {:?}", other),
    }
}
