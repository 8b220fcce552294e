use sns_emulator::dispatch::{
    create_topic, delete_topic, dispatch_request, error_response, get_subscription_attributes,
    get_topic_attributes, handle_aws_request, list_subscriptions_by_topic, list_tags_for_resource,
    list_topics, publish, set_topic_attributes, subscribe, tag_resource, unsubscribe,
    untag_resource,
};
use sns_emulator::fanout::DeliveryAction;
use sns_emulator::state::{AppState, SnsRequest, TagEntry};

fn blank_req(action: &str) -> SnsRequest {
    SnsRequest {
        action: action.to_string(),
        name: None,
        topic_arn: None,
        resource_arn: None,
        endpoint: None,
        protocol: None,
        subscription_arn: None,
        message: None,
        subject: None,
        attribute_name: None,
        attribute_value: None,
        attributes_entry: None,
        tags_entry: None,
        tag_keys_entry: None,
    }
}

const ARN_T: &str = "arn:aws:sns:us-east-1:000000000000:T";

fn make_topic(state: &mut AppState, name: &str) {
    let mut req = blank_req("CreateTopic");
    req.name = Some(name.to_string());
    let resp = create_topic(state, &req, "rid-create");
    assert_eq!(resp.status, 200);
}

#[test]
fn create_topic_returns_derived_arn() {
    let mut state = AppState::new();
    let mut req = blank_req("CreateTopic");
    req.name = Some("T".to_string());
    let resp = create_topic(&mut state, &req, "rid1");
    assert_eq!(resp.status, 200);
    assert!(resp.body.contains("<TopicArn>arn:aws:sns:us-east-1:000000000000:T</TopicArn>"));
    assert!(resp.body.contains("<RequestId>rid1</RequestId>"));
}

#[test]
fn create_topic_without_name_is_rejected() {
    let mut state = AppState::new();
    let resp = create_topic(&mut state, &blank_req("CreateTopic"), "rid");
    assert_eq!(resp.status, 400);
    assert!(resp.body.contains("<Code>InvalidParameter</Code>"));
    assert!(resp.body.contains("<Message>Missing Topic Name</Message>"));
}

#[test]
fn create_then_get_attributes_returns_topic_arn_entry() {
    let mut state = AppState::new();
    make_topic(&mut state, "T");
    let mut req = blank_req("GetTopicAttributes");
    req.topic_arn = Some(ARN_T.to_string());
    let resp = get_topic_attributes(&state, &req, "rid2");
    assert_eq!(resp.status, 200);
    assert!(resp.body.contains(
        "<entry><key>TopicArn</key><value>arn:aws:sns:us-east-1:000000000000:T</value></entry>"
    ));
}

#[test]
fn get_topic_attributes_renders_defaults() {
    let mut state = AppState::new();
    make_topic(&mut state, "T");
    let mut req = blank_req("GetTopicAttributes");
    req.topic_arn = Some(ARN_T.to_string());
    let resp = get_topic_attributes(&state, &req, "rid");
    // the default policy is escaped by the encoder
    assert!(resp.body.contains("<entry><key>Policy</key><value>{&quot;Version&quot;"));
    assert!(resp.body.contains(
        "<entry><key>SQSSuccessFeedbackSampleRate</key><value>0</value></entry>"
    ));
    assert!(resp.body.contains(
        "<entry><key>SubscriptionsConfirmed</key><value>0</value></entry>"
    ));
    assert!(!resp.body.contains("<key>DisplayName</key>"));
}

#[test]
fn delete_unknown_topic_is_idempotent_success() {
    let mut state = AppState::new();
    let mut req = blank_req("DeleteTopic");
    req.topic_arn = Some("arn:aws:sns:us-east-1:000000000000:never".to_string());
    let resp = delete_topic(&mut state, &req, "rid");
    assert_eq!(resp.status, 200);
    let listing = list_topics(&state, "rid2");
    assert_eq!(listing.status, 200);
    assert!(!listing.body.contains("never"));
    assert!(!listing.body.contains("<member>"));
}

#[test]
fn deleted_topic_leaves_the_listing() {
    let mut state = AppState::new();
    make_topic(&mut state, "T");
    make_topic(&mut state, "U");
    let mut req = blank_req("DeleteTopic");
    req.topic_arn = Some(ARN_T.to_string());
    let resp = delete_topic(&mut state, &req, "rid");
    assert_eq!(resp.status, 200);
    let listing = list_topics(&state, "rid2");
    assert!(!listing.body.contains(":T<"));
    assert!(listing.body.contains("<TopicArn>arn:aws:sns:us-east-1:000000000000:U</TopicArn>"));
}

#[test]
fn delete_topic_exact_body() {
    let mut state = AppState::new();
    let mut req = blank_req("DeleteTopic");
    req.topic_arn = Some(ARN_T.to_string());
    let resp = delete_topic(&mut state, &req, "rid");
    assert_eq!(
        resp.body,
        "<DeleteTopicResponse xmlns=\"https://sns.amazonaws.com/doc/2010-03-31/\">\
         <ResponseMetadata><RequestId>rid</RequestId></ResponseMetadata></DeleteTopicResponse>"
    );
}

#[test]
fn subscribe_unknown_topic_is_not_found() {
    let mut state = AppState::new();
    let mut req = blank_req("Subscribe");
    req.topic_arn = Some("arn:aws:sns:us-east-1:000000000000:missing".to_string());
    req.endpoint = Some("e".to_string());
    req.protocol = Some("sqs".to_string());
    let resp = subscribe(&mut state, &req, "tok", "rid");
    assert_eq!(resp.status, 404);
    assert!(resp.body.contains("<Code>NotFound</Code>"));
    assert!(resp.body.contains("<Message>Topic not found</Message>"));
}

#[test]
fn subscribe_returns_topic_arn_plus_token() {
    let mut state = AppState::new();
    make_topic(&mut state, "T");
    let mut req = blank_req("Subscribe");
    req.topic_arn = Some(ARN_T.to_string());
    req.endpoint = Some("http://localhost:4566/queue/Q".to_string());
    req.protocol = Some("sqs".to_string());
    let resp = subscribe(&mut state, &req, "tok-1", "rid");
    assert_eq!(resp.status, 200);
    assert!(resp.body.contains(&format!("<SubscriptionArn>{}:tok-1</SubscriptionArn>", ARN_T)));
}

#[test]
fn repeated_subscribes_yield_distinct_arns() {
    let mut state = AppState::new();
    make_topic(&mut state, "T");
    let mut req = blank_req("Subscribe");
    req.topic_arn = Some(ARN_T.to_string());
    req.endpoint = Some("e".to_string());
    req.protocol = Some("http".to_string());
    let (r1, _) = handle_aws_request(&mut state, &req);
    let (r2, _) = handle_aws_request(&mut state, &req);
    assert_eq!(r1.status, 200);
    assert_eq!(r2.status, 200);
    let arn_of = |body: &str| {
        let start = body.find("<SubscriptionArn>").unwrap() + "<SubscriptionArn>".len();
        let end = body.find("</SubscriptionArn>").unwrap();
        body[start..end].to_string()
    };
    assert_ne!(arn_of(&r1.body), arn_of(&r2.body));
}

#[test]
fn unsubscribe_never_issued_arn_is_noop_success() {
    let mut state = AppState::new();
    make_topic(&mut state, "T");
    let mut sub_req = blank_req("Subscribe");
    sub_req.topic_arn = Some(ARN_T.to_string());
    sub_req.endpoint = Some("e".to_string());
    sub_req.protocol = Some("http".to_string());
    assert_eq!(subscribe(&mut state, &sub_req, "tok-1", "rid").status, 200);

    let mut unsub = blank_req("Unsubscribe");
    unsub.subscription_arn = Some(format!("{}:never-issued", ARN_T));
    let resp = unsubscribe(&mut state, &unsub, "rid2");
    assert_eq!(resp.status, 200);

    let mut list_req = blank_req("ListSubscriptionsByTopic");
    list_req.topic_arn = Some(ARN_T.to_string());
    let listing = list_subscriptions_by_topic(&state, &list_req, "rid3");
    assert!(listing.body.contains(&format!("<SubscriptionArn>{}:tok-1</SubscriptionArn>", ARN_T)));
}

#[test]
fn unsubscribe_removes_the_subscription() {
    let mut state = AppState::new();
    make_topic(&mut state, "T");
    let mut sub_req = blank_req("Subscribe");
    sub_req.topic_arn = Some(ARN_T.to_string());
    sub_req.endpoint = Some("e".to_string());
    sub_req.protocol = Some("http".to_string());
    assert_eq!(subscribe(&mut state, &sub_req, "tok-1", "rid").status, 200);

    let mut unsub = blank_req("Unsubscribe");
    unsub.subscription_arn = Some(format!("{}:tok-1", ARN_T));
    assert_eq!(unsubscribe(&mut state, &unsub, "rid2").status, 200);

    let mut list_req = blank_req("ListSubscriptionsByTopic");
    list_req.topic_arn = Some(ARN_T.to_string());
    let listing = list_subscriptions_by_topic(&state, &list_req, "rid3");
    assert!(!listing.body.contains("tok-1"));
    assert!(listing.body.contains("<Subscriptions></Subscriptions>"));
}

#[test]
fn unsubscribe_with_underivable_topic_is_not_found() {
    let mut state = AppState::new();
    let mut unsub = blank_req("Unsubscribe");
    unsub.subscription_arn = Some("no-colons-here".to_string());
    let resp = unsubscribe(&mut state, &unsub, "rid");
    assert_eq!(resp.status, 404);
    assert!(resp.body.contains("<Message>Topic not found</Message>"));
}

#[test]
fn set_bogus_attribute_is_rejected_and_changes_nothing() {
    let mut state = AppState::new();
    make_topic(&mut state, "T");
    let mut req = blank_req("SetTopicAttributes");
    req.topic_arn = Some(ARN_T.to_string());
    req.attribute_name = Some("Bogus".to_string());
    req.attribute_value = Some("x".to_string());
    let resp = set_topic_attributes(&mut state, &req, "rid");
    assert_eq!(resp.status, 400);
    assert!(resp.body.contains("<Code>InvalidParameter</Code>"));
    assert!(resp.body.contains("<Message>Attribute not supported</Message>"));

    let mut get_req = blank_req("GetTopicAttributes");
    get_req.topic_arn = Some(ARN_T.to_string());
    let attrs = get_topic_attributes(&state, &get_req, "rid2");
    assert!(!attrs.body.contains("Bogus"));
    assert!(!attrs.body.contains("<key>DisplayName</key>"));
}

#[test]
fn set_display_name_shows_in_attributes() {
    let mut state = AppState::new();
    make_topic(&mut state, "T");
    let mut req = blank_req("SetTopicAttributes");
    req.topic_arn = Some(ARN_T.to_string());
    req.attribute_name = Some("DisplayName".to_string());
    req.attribute_value = Some("My Topic".to_string());
    assert_eq!(set_topic_attributes(&mut state, &req, "rid").status, 200);

    let mut get_req = blank_req("GetTopicAttributes");
    get_req.topic_arn = Some(ARN_T.to_string());
    let attrs = get_topic_attributes(&state, &get_req, "rid2");
    assert!(attrs.body.contains("<entry><key>DisplayName</key><value>My Topic</value></entry>"));
}

#[test]
fn publish_end_to_end_caches_one_client_per_base_endpoint() {
    let mut state = AppState::new();
    make_topic(&mut state, "T");
    let mut sub_req = blank_req("Subscribe");
    sub_req.topic_arn = Some(ARN_T.to_string());
    sub_req.endpoint = Some("http://localhost:4566/queue/Q".to_string());
    sub_req.protocol = Some("sqs".to_string());
    assert_eq!(subscribe(&mut state, &sub_req, "tok-1", "rid").status, 200);

    let mut pub_req = blank_req("Publish");
    pub_req.topic_arn = Some(ARN_T.to_string());
    pub_req.message = Some("hello".to_string());
    let (resp, actions) = publish(&mut state, &pub_req, "msg-1", "rid2", 0);
    assert_eq!(resp.status, 200);
    assert!(resp.body.contains("<MessageId>msg-1</MessageId>"));
    assert_eq!(actions.len(), 1);
    match &actions[0] {
        DeliveryAction::SqsSend { endpoint_base, queue_url, body, create_client } => {
            assert_eq!(endpoint_base, "http://localhost:4566");
            assert_eq!(queue_url, "http://localhost:4566/queue/Q");
            assert_eq!(body, "hello");
            assert!(create_client);
        },
        _ => panic!("expected a queue delivery"),
    }
    assert_eq!(state.sqs_clients.len(), 1);
    assert!(state.sqs_clients.contains("http://localhost:4566"));

    // a second publish to the same base endpoint reuses the cached client
    let (resp2, actions2) = publish(&mut state, &pub_req, "msg-2", "rid3", 0);
    assert_eq!(resp2.status, 200);
    match &actions2[0] {
        DeliveryAction::SqsSend { create_client, .. } => assert!(!create_client),
        _ => panic!("expected a queue delivery"),
    }
    assert_eq!(state.sqs_clients.len(), 1);
}

#[test]
fn publish_to_non_queue_protocol_only_logs() {
    let mut state = AppState::new();
    make_topic(&mut state, "T");
    let mut sub_req = blank_req("Subscribe");
    sub_req.topic_arn = Some(ARN_T.to_string());
    sub_req.endpoint = Some("mail@example.org".to_string());
    sub_req.protocol = Some("email".to_string());
    assert_eq!(subscribe(&mut state, &sub_req, "tok-1", "rid").status, 200);

    let mut pub_req = blank_req("Publish");
    pub_req.topic_arn = Some(ARN_T.to_string());
    pub_req.message = Some("hi".to_string());
    pub_req.subject = Some("s".to_string());
    let (resp, actions) = publish(&mut state, &pub_req, "msg-1", "rid2", 7);
    assert_eq!(resp.status, 200);
    assert_eq!(actions.len(), 1);
    match &actions[0] {
        DeliveryAction::Log { endpoint, message } => {
            assert_eq!(endpoint, "mail@example.org");
            assert_eq!(message.id, "msg-1");
            assert_eq!(message.subject.as_deref(), Some("s"));
            assert_eq!(message.body, "hi");
            assert_eq!(message.timestamp, 7);
        },
        _ => panic!("expected a log-only delivery"),
    }
    assert_eq!(state.sqs_clients.len(), 0);
}

#[test]
fn publish_with_unparsable_endpoint_uses_local_default() {
    let mut state = AppState::new();
    make_topic(&mut state, "T");
    let mut sub_req = blank_req("Subscribe");
    sub_req.topic_arn = Some(ARN_T.to_string());
    sub_req.endpoint = Some("not a url".to_string());
    sub_req.protocol = Some("sqs".to_string());
    assert_eq!(subscribe(&mut state, &sub_req, "tok-1", "rid").status, 200);

    let mut pub_req = blank_req("Publish");
    pub_req.topic_arn = Some(ARN_T.to_string());
    pub_req.message = Some("m".to_string());
    let (_, actions) = publish(&mut state, &pub_req, "msg-1", "rid2", 0);
    match &actions[0] {
        DeliveryAction::SqsSend { endpoint_base, .. } => {
            assert_eq!(endpoint_base, "http://localhost:4566");
        },
        _ => panic!("expected a queue delivery"),
    }
}

#[test]
fn publish_unknown_topic_is_not_found() {
    let mut state = AppState::new();
    let mut req = blank_req("Publish");
    req.topic_arn = Some("arn:aws:sns:us-east-1:000000000000:none".to_string());
    req.message = Some("m".to_string());
    let (resp, actions) = publish(&mut state, &req, "msg", "rid", 0);
    assert_eq!(resp.status, 404);
    assert!(resp.body.contains("<Message>Topic does not exist</Message>"));
    assert!(actions.is_empty());
}

#[test]
fn tag_round_trip_and_untag() {
    let mut state = AppState::new();
    make_topic(&mut state, "T");

    let mut tag_req = blank_req("TagResource");
    tag_req.resource_arn = Some(ARN_T.to_string());
    tag_req.tags_entry = Some(vec![TagEntry { key: "k".to_string(), value: "v".to_string() }]);
    assert_eq!(tag_resource(&mut state, &tag_req, "rid").status, 200);

    let mut list_req = blank_req("ListTagsForResource");
    list_req.resource_arn = Some(ARN_T.to_string());
    let tags = list_tags_for_resource(&state, &list_req, "rid2");
    assert_eq!(tags.status, 200);
    assert!(tags.body.contains("<Tags><member><Key>k</Key><Value>v</Value></member></Tags>"));

    let mut untag_req = blank_req("UntagResource");
    untag_req.resource_arn = Some(ARN_T.to_string());
    untag_req.tag_keys_entry = Some(vec!["k".to_string()]);
    assert_eq!(untag_resource(&mut state, &untag_req, "rid3").status, 200);

    let empty = list_tags_for_resource(&state, &list_req, "rid4");
    assert!(empty.body.contains("<Tags></Tags>"));
}

#[test]
fn tag_resource_overwrites_by_key() {
    let mut state = AppState::new();
    make_topic(&mut state, "T");
    let mut tag_req = blank_req("TagResource");
    tag_req.resource_arn = Some(ARN_T.to_string());
    tag_req.tags_entry = Some(vec![
        TagEntry { key: "k".to_string(), value: "old".to_string() },
        TagEntry { key: "k".to_string(), value: "new".to_string() },
    ]);
    assert_eq!(tag_resource(&mut state, &tag_req, "rid").status, 200);

    let mut list_req = blank_req("ListTagsForResource");
    list_req.resource_arn = Some(ARN_T.to_string());
    let tags = list_tags_for_resource(&state, &list_req, "rid2");
    assert!(tags.body.contains("<Key>k</Key><Value>new</Value>"));
    assert!(!tags.body.contains("old"));
}

#[test]
fn get_subscription_attributes_finds_the_subscription() {
    let mut state = AppState::new();
    make_topic(&mut state, "T");
    let mut sub_req = blank_req("Subscribe");
    sub_req.topic_arn = Some(ARN_T.to_string());
    sub_req.endpoint = Some("e".to_string());
    sub_req.protocol = Some("http".to_string());
    assert_eq!(subscribe(&mut state, &sub_req, "tok-1", "rid").status, 200);

    let mut req = blank_req("GetSubscriptionAttributes");
    req.subscription_arn = Some(format!("{}:tok-1", ARN_T));
    let resp = get_subscription_attributes(&state, &req, "rid2");
    assert_eq!(resp.status, 200);
    assert!(resp.body.contains(&format!(
        "<entry><key>SubscriptionArn</key><value>{}:tok-1</value></entry>",
        ARN_T
    )));
    assert!(resp.body.contains("<entry><key>Owner</key><value>000000000000</value></entry>"));
    assert!(resp.body.contains("<entry><key>PendingConfirmation</key><value>false</value></entry>"));

    let mut missing = blank_req("GetSubscriptionAttributes");
    missing.subscription_arn = Some(format!("{}:unknown", ARN_T));
    let not_found = get_subscription_attributes(&state, &missing, "rid3");
    assert_eq!(not_found.status, 404);
    assert!(not_found.body.contains("<Message>Subscription not found</Message>"));
}

#[test]
fn unknown_action_is_invalid_action() {
    let mut state = AppState::new();
    let req = blank_req("Frobnicate");
    let (resp, actions) = dispatch_request(&mut state, &req, "tok", "rid", 0);
    assert_eq!(resp.status, 400);
    assert!(resp.body.contains("<Code>InvalidAction</Code>"));
    assert!(resp.body.contains("<Message>Action not supported</Message>"));
    assert!(actions.is_empty());
}

#[test]
fn missing_parameter_messages_are_distinct() {
    let mut state = AppState::new();
    make_topic(&mut state, "T");

    let mut sub = blank_req("Subscribe");
    sub.topic_arn = Some(ARN_T.to_string());
    let r = subscribe(&mut state, &sub, "tok", "rid");
    assert_eq!(r.status, 400);
    assert!(r.body.contains("<Message>Missing endpoint</Message>"));

    sub.endpoint = Some("e".to_string());
    let r = subscribe(&mut state, &sub, "tok", "rid");
    assert!(r.body.contains("<Message>Missing protocol</Message>"));

    let r = delete_topic(&mut state, &blank_req("DeleteTopic"), "rid");
    assert!(r.body.contains("<Message>Missing Topic ARN</Message>"));

    let r = tag_resource(&mut state, &blank_req("TagResource"), "rid");
    assert!(r.body.contains("<Message>Missing Resource Arn</Message>"));

    let mut tag = blank_req("TagResource");
    tag.resource_arn = Some(ARN_T.to_string());
    let r = tag_resource(&mut state, &tag, "rid");
    assert!(r.body.contains("<Message>Missing Tags</Message>"));

    let mut untag = blank_req("UntagResource");
    untag.resource_arn = Some(ARN_T.to_string());
    let r = untag_resource(&mut state, &untag, "rid");
    assert!(r.body.contains("<Message>Missing Tag Keys</Message>"));

    let r = unsubscribe(&mut state, &blank_req("Unsubscribe"), "rid");
    assert!(r.body.contains("<Message>Missing Subscription ARN</Message>"));

    let mut publish_req = blank_req("Publish");
    publish_req.topic_arn = Some(ARN_T.to_string());
    let (r, _) = publish(&mut state, &publish_req, "msg", "rid", 0);
    assert!(r.body.contains("<Message>Missing message</Message>"));

    let mut set = blank_req("SetTopicAttributes");
    set.topic_arn = Some(ARN_T.to_string());
    let r = set_topic_attributes(&mut state, &set, "rid");
    assert!(r.body.contains("<Message>Missing Attribute Name</Message>"));

    set.attribute_name = Some("DisplayName".to_string());
    let r = set_topic_attributes(&mut state, &set, "rid");
    assert!(r.body.contains("<Message>Missing Attribute Value</Message>"));
}

#[test]
fn error_envelope_uses_http_namespace_and_escapes_text() {
    let resp = error_response("InvalidParameter", "a < b & c", 400, "rid");
    assert_eq!(resp.status, 400);
    assert_eq!(
        resp.body,
        "<ErrorResponse xmlns=\"http://sns.amazonaws.com/doc/2010-03-31/\"><Error>\
         <Type>Sender</Type><Code>InvalidParameter</Code>\
         <Message>a &lt; b &amp; c</Message></Error>\
         <RequestId>rid</RequestId></ErrorResponse>"
    );
}

#[test]
fn success_envelope_escapes_topic_names() {
    let mut state = AppState::new();
    let mut req = blank_req("CreateTopic");
    req.name = Some("A&B".to_string());
    let resp = create_topic(&mut state, &req, "rid");
    assert!(resp.body.contains(
        "<TopicArn>arn:aws:sns:us-east-1:000000000000:A&amp;B</TopicArn>"
    ));
}

#[test]
fn create_topic_overwrites_existing_topic_wholesale() {
    let mut state = AppState::new();
    make_topic(&mut state, "T");
    let mut sub_req = blank_req("Subscribe");
    sub_req.topic_arn = Some(ARN_T.to_string());
    sub_req.endpoint = Some("e".to_string());
    sub_req.protocol = Some("http".to_string());
    assert_eq!(subscribe(&mut state, &sub_req, "tok-1", "rid").status, 200);

    // re-creating the same name resets subscriptions and replaces tags
    make_topic(&mut state, "T");
    let mut list_req = blank_req("ListSubscriptionsByTopic");
    list_req.topic_arn = Some(ARN_T.to_string());
    let listing = list_subscriptions_by_topic(&state, &list_req, "rid2");
    assert!(listing.body.contains("<Subscriptions></Subscriptions>"));
}

#[test]
fn subscription_count_is_rendered_in_attributes() {
    let mut state = AppState::new();
    make_topic(&mut state, "T");
    let mut sub_req = blank_req("Subscribe");
    sub_req.topic_arn = Some(ARN_T.to_string());
    sub_req.endpoint = Some("e".to_string());
    sub_req.protocol = Some("http".to_string());
    for i in 0..12 {
        let token = format!("tok-{}", i);
        assert_eq!(subscribe(&mut state, &sub_req, &token, "rid").status, 200);
    }
    let mut get_req = blank_req("GetTopicAttributes");
    get_req.topic_arn = Some(ARN_T.to_string());
    let attrs = get_topic_attributes(&state, &get_req, "rid2");
    assert!(attrs.body.contains(
        "<entry><key>SubscriptionsConfirmed</key><value>12</value></entry>"
    ));
}

#[test]
fn handle_aws_request_routes_by_action_name() {
    let mut state = AppState::new();
    let mut req = blank_req("CreateTopic");
    req.name = Some("T".to_string());
    let (resp, actions) = handle_aws_request(&mut state, &req);
    assert_eq!(resp.status, 200);
    assert!(resp.body.contains("<TopicArn>arn:aws:sns:us-east-1:000000000000:T</TopicArn>"));
    assert!(actions.is_empty());

    let mut get_req = blank_req("GetTopicAttributes");
    get_req.topic_arn = Some(ARN_T.to_string());
    let (attrs, _) = handle_aws_request(&mut state, &get_req);
    assert_eq!(attrs.status, 200);

    // every response carries a fresh 36-character correlation identifier
    let start = attrs.body.find("<RequestId>").unwrap() + "<RequestId>".len();
    let end = attrs.body.find("</RequestId>").unwrap();
    assert_eq!(end - start, 36);
}
