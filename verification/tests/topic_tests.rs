use node_stream::topic::KindedTopic;
use node_stream::topic::NodeStreamPerEpochTopic;

fn be_bytes(v: u64) -> Vec<u8> {
    let mut out = Vec::new();
    let mut k: u32 = 8;
    while k > 0 {
        k -= 1;
        out.push(((v >> (8 * k)) & 0xff) as u8);
    }
    out
}

#[test]
fn topic_name_is_deterministic_per_epoch() {
    let t = KindedTopic::new("events".to_owned());
    let a = t.topic_for_epoch(5).to_raw();
    let b = t.topic_for_epoch(5).to_raw();
    assert_eq!(a, b);
}

#[test]
fn distinct_epochs_get_distinct_topic_names() {
    let t = KindedTopic::new("events".to_owned());
    assert_ne!(t.topic_for_epoch(5).to_raw(), t.topic_for_epoch(6).to_raw());
    assert_ne!(t.topic_for_epoch(0).to_raw(), t.topic_for_epoch(10).to_raw());
    assert_ne!(t.topic_for_epoch(1).to_raw(), t.topic_for_epoch(11).to_raw());
}

#[test]
fn events_epoch_three_has_the_expected_name() {
    let t = KindedTopic::new("events".to_owned());
    assert_eq!(t.topic_for_epoch(3).to_raw(), "events-epoch-3");
    assert_eq!(t.topic_for_epoch(0).to_raw(), "events-epoch-0");
    assert_eq!(t.topic_for_epoch(12345).to_raw(), "events-epoch-12345");
}

#[test]
fn payload_decodes_eight_bytes_big_endian() {
    let t = KindedTopic::new("events".to_owned());
    assert_eq!(t.payload_from_bytes(&[0, 0, 0, 0, 0, 0, 1, 2]), Ok(258));
    assert_eq!(t.payload_from_bytes(&be_bytes(0)), Ok(0));
    assert_eq!(t.payload_from_bytes(&be_bytes(u64::MAX)), Ok(u64::MAX));
    assert_eq!(t.payload_from_bytes(&be_bytes(987654321)), Ok(987654321));
}

#[test]
fn payload_of_wrong_width_is_rejected() {
    let t = KindedTopic::new("events".to_owned());
    assert_eq!(
        t.payload_from_bytes(&[1, 2, 3, 4, 5, 6, 7]),
        Err("payload is not exactly eight bytes".to_owned())
    );
    assert_eq!(
        t.payload_from_bytes(&[1, 2, 3, 4, 5, 6, 7, 8, 9]),
        Err("payload is not exactly eight bytes".to_owned())
    );
    assert_eq!(
        t.payload_from_bytes(&[]),
        Err("payload is not exactly eight bytes".to_owned())
    );
}
