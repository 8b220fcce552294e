use sns_emulator::decoder::decode_request;
use sns_emulator::state::SnsRequest;

fn pairs(kvs: &[(&str, &str)]) -> Vec<(String, String)> {
    kvs.iter().map(|(k, v)| (k.to_string(), v.to_string())).collect()
}

fn decode(kvs: &[(&str, &str)]) -> SnsRequest {
    decode_request(&pairs(kvs)).expect("request should decode")
}

#[test]
fn missing_action_yields_none() {
    assert!(decode_request(&pairs(&[("Name", "t")])).is_none());
    assert!(decode_request(&pairs(&[])).is_none());
}

#[test]
fn scalar_fields_decode() {
    let r = decode(&[
        ("Action", "Subscribe"),
        ("TopicArn", "arn:aws:sns:us-east-1:000000000000:t"),
        ("Endpoint", "http://localhost:4566/queue/q"),
        ("Protocol", "sqs"),
    ]);
    assert_eq!(r.action, "Subscribe");
    assert_eq!(r.topic_arn.as_deref(), Some("arn:aws:sns:us-east-1:000000000000:t"));
    assert_eq!(r.endpoint.as_deref(), Some("http://localhost:4566/queue/q"));
    assert_eq!(r.protocol.as_deref(), Some("sqs"));
    assert!(r.name.is_none());
    assert!(r.tags_entry.is_none());
    assert!(r.attributes_entry.is_none());
    assert!(r.tag_keys_entry.is_none());
}

#[test]
fn out_of_order_tags_assemble_in_index_order() {
    let r = decode(&[
        ("Action", "TagResource"),
        ("Tags.member.2.Key", "b"),
        ("Tags.member.2.Value", "2"),
        ("Tags.member.1.Key", "a"),
        ("Tags.member.1.Value", "1"),
    ]);
    let tags = r.tags_entry.expect("tags group should be present");
    assert_eq!(tags.len(), 2);
    assert_eq!(tags[0].key, "a");
    assert_eq!(tags[0].value, "1");
    assert_eq!(tags[1].key, "b");
    assert_eq!(tags[1].value, "2");
}

#[test]
fn sparse_tag_index_pads_with_placeholders() {
    let r = decode(&[("Action", "TagResource"), ("Tags.member.3.Key", "c")]);
    let tags = r.tags_entry.expect("tags group should be present");
    assert_eq!(tags.len(), 3);
    assert_eq!(tags[0].key, "");
    assert_eq!(tags[0].value, "");
    assert_eq!(tags[1].key, "");
    assert_eq!(tags[1].value, "");
    assert_eq!(tags[2].key, "c");
    assert_eq!(tags[2].value, "");
}

#[test]
fn zero_and_non_numeric_indices_are_ignored() {
    let r = decode(&[
        ("Action", "TagResource"),
        ("Tags.member.0.Key", "zero"),
        ("Tags.member.x.Key", "letter"),
        ("Tags.member..Key", "empty"),
    ]);
    assert!(r.tags_entry.is_none());
}

#[test]
fn unknown_keys_and_malformed_group_keys_are_ignored() {
    let r = decode(&[
        ("Action", "CreateTopic"),
        ("Name", "t"),
        ("Version", "2010-03-31"),
        ("Tags.member.1.Key.extra", "x"),
        ("Tags.member.1", "y"),
    ]);
    assert_eq!(r.name.as_deref(), Some("t"));
    assert!(r.tags_entry.is_none());
}

#[test]
fn attribute_entries_use_lowercase_subfields() {
    let r = decode(&[
        ("Action", "SetTopicAttributes"),
        ("Attributes.entry.1.key", "DisplayName"),
        ("Attributes.entry.1.value", "d"),
    ]);
    let attrs = r.attributes_entry.expect("attributes group should be present");
    assert_eq!(attrs.len(), 1);
    assert_eq!(attrs[0].key, "DisplayName");
    assert_eq!(attrs[0].value, "d");
}

#[test]
fn tag_keys_group_decodes_without_subfield() {
    let r = decode(&[
        ("Action", "UntagResource"),
        ("TagKeys.member.2", "b"),
        ("TagKeys.member.1", "a"),
    ]);
    let keys = r.tag_keys_entry.expect("tag keys group should be present");
    assert_eq!(keys, vec!["a".to_string(), "b".to_string()]);
}

#[test]
fn duplicate_index_and_subfield_last_write_wins() {
    let r = decode(&[
        ("Action", "TagResource"),
        ("Tags.member.1.Key", "first"),
        ("Tags.member.1.Key", "second"),
        ("Tags.member.1.Value", "v"),
    ]);
    let tags = r.tags_entry.expect("tags group should be present");
    assert_eq!(tags.len(), 1);
    assert_eq!(tags[0].key, "second");
    assert_eq!(tags[0].value, "v");
}

#[test]
fn unrecognized_subfield_still_pads() {
    let r = decode(&[("Action", "TagResource"), ("Tags.member.2.Other", "x")]);
    let tags = r.tags_entry.expect("tags group should be present");
    assert_eq!(tags.len(), 2);
    assert_eq!(tags[0].key, "");
    assert_eq!(tags[1].key, "");
    assert_eq!(tags[1].value, "");
}

#[test]
fn duplicate_scalar_last_write_wins() {
    let r = decode(&[("Action", "CreateTopic"), ("Name", "one"), ("Name", "two")]);
    assert_eq!(r.name.as_deref(), Some("two"));
}
