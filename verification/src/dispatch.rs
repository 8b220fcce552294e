//! The action dispatcher: stateless request-to-response mapping over the
//! registry. Parameter validation proceeds in a fixed order and returns the
//! first applicable error; topic identification always takes the ARN's
//! trailing colon-delimited segment as the lookup key, with no further ARN
//! validation. Every outcome is specified exactly by a per-action spec
//! function over the state's view.

use vstd::prelude::*;
use vstd::string::*;
use crate::arn_of;
use crate::make_arn;
use crate::fanout::{fan_out, plan_fan_out, DeliveryAction, DeliveryActionV};
use crate::responses::{
    create_topic_xml, delete_topic_xml, get_subscription_attributes_xml, get_topic_attributes_xml,
    list_subscriptions_xml, list_tags_xml, list_topics_xml, publish_xml, push_entries,
    push_sub_members, push_tag_members, set_topic_attributes_xml, subscribe_xml, tag_resource_xml,
    unsubscribe_xml, untag_resource_xml, Attributes, CreateTopicResponse, CreateTopicResult,
    DeleteTopicResponse, Entry, GetTopicAttributesResponse, GetTopicAttributesResult,
    ListTopicsResponse, ListTopicsResult, Member, PublishResponse, PublishResult,
    ResponseMetadata, SubscribeResponse, SubscribeResult, Topics, UnsubscribeResponse,
};
use crate::state::{
    find_subscription, find_topic, insert_topic, remove_topic, state_wf, tags_merge,
    tags_merge_exec, tags_of_entries, tags_remove_keys, topic_wf, topic_with_attribute,
    topic_with_sub, topic_with_tags, topic_without_sub, AppState, AppStateV, Message, MessageV,
    SnsRequest, SnsRequestV, Subscription, SubscriptionV, TagEntry, Topic, TopicV,
};
use crate::strutil::{after_last, before_last, dec_str, last_segment, prefix_before_last, str_eq, u64_to_string};
use crate::xml::{
    error_xml, push_close, push_open, push_open_ns, push_response_metadata, render_error,
};

verus! {

/// One wire response: the HTTP status the caller must send, and the XML
/// body.
pub struct ApiResponse {
    pub status: u16,
    pub body: String,
}

/// Relies on uuid::Uuid::new_v4 and its hyphenated Display rendering: a
/// fresh random identifier of 36 characters. Nothing else is assumed of
/// the value; in particular not uniqueness.
#[verifier::external_body]
pub fn fresh_token() -> (r: String)
    ensures
        r@.len() == 36,
{
    uuid::Uuid::new_v4().to_string()
}

/// Relies on chrono::Utc::now and DateTime::timestamp_millis: the capture
/// time in milliseconds. Nothing is assumed of the value.
#[verifier::external_body]
pub fn now_millis() -> (r: i64)
{
    chrono::Utc::now().timestamp_millis()
}

/// What one handled request leaves behind: the state's view afterwards,
/// the wire response, and the delivery actions.
#[verifier::ext_equal]
pub ghost struct Outcome {
    pub topics: Seq<TopicV>,
    pub clients: Seq<Seq<char>>,
    pub status: u16,
    pub body: Seq<char>,
    pub actions: Seq<DeliveryActionV>,
}

/// The handler produced exactly this outcome.
pub open spec fn outcome_holds(
    o: Outcome,
    s: AppStateV,
    status: u16,
    body: Seq<char>,
    actions: Seq<DeliveryActionV>,
) -> bool {
    s.topics == o.topics && s.sqs_clients == o.clients && status == o.status && body == o.body
        && actions == o.actions
}

/// An error outcome: the state is unchanged and the body is the error
/// envelope.
pub open spec fn error_outcome(
    s: AppStateV,
    code: Seq<char>,
    message: Seq<char>,
    status: u16,
    rid: Seq<char>,
) -> Outcome {
    Outcome {
        topics: s.topics,
        clients: s.sqs_clients,
        status,
        body: error_xml(code, message, rid),
        actions: Seq::empty(),
    }
}

/// The topic a create action stores: fresh, with only the supplied tags.
pub open spec fn created_topic(
    name: Seq<char>,
    tags_entry: Option<Seq<(Seq<char>, Seq<char>)>>,
) -> TopicV {
    TopicV {
        name,
        arn: arn_of(name),
        tags: tags_of_entries(tags_entry),
        subscriptions: Seq::empty(),
        display_name: None,
        policy: None,
        delivery_policy: None,
        tracing_config: None,
        firehose_failure_feedback_role_arn: None,
        firehose_success_feedback_role_arn: None,
        firehose_success_feedback_sample_rate: None,
        http_failure_feedback_role_arn: None,
        sqs_failure_feedback_role_arn: None,
        sqs_success_feedback_role_arn: None,
        sqs_success_feedback_sample_rate: None,
        http_success_feedback_role_arn: None,
        http_success_feedback_sample_rate: None,
        application_failure_feedback_role_arn: None,
        application_success_feedback_role_arn: None,
        application_success_feedback_sample_rate: None,
        lambda_failure_feedback_role_arn: None,
        lambda_success_feedback_role_arn: None,
        lambda_success_feedback_sample_rate: None,
        kms_master_key_id: None,
        signature_version: None,
        content_based_deduplication: None,
        fifo_topic: None,
        archive_policy: None,
        fifo_throughput_scope: None,
    }
}

/// A subscription ARN: the topic ARN, a colon, and the fresh token.
pub open spec fn sub_arn_of(topic_arn: Seq<char>, token: Seq<char>) -> Seq<char> {
    topic_arn + ":"@ + token
}

/// The ARNs of all topics, in registry order.
pub open spec fn topic_arns(ts: Seq<TopicV>) -> Seq<Seq<char>> {
    Seq::new(ts.len(), |i: int| ts[i].arn)
}

pub open spec fn create_topic_outcome(s: AppStateV, req: SnsRequestV, rid: Seq<char>) -> Outcome {
    match req.name {
        Some(n) => Outcome {
            topics: insert_topic(s.topics, created_topic(n, req.tags_entry)),
            clients: s.sqs_clients,
            status: 200,
            body: create_topic_xml(arn_of(n), rid),
            actions: Seq::empty(),
        },
        None => error_outcome(s, "InvalidParameter"@, "Missing Topic Name"@, 400, rid),
    }
}

pub open spec fn delete_topic_outcome(s: AppStateV, req: SnsRequestV, rid: Seq<char>) -> Outcome {
    match req.topic_arn {
        Some(arn) => Outcome {
            topics: remove_topic(s.topics, after_last(arn, ':')),
            clients: s.sqs_clients,
            status: 200,
            body: delete_topic_xml(rid),
            actions: Seq::empty(),
        },
        None => error_outcome(s, "InvalidParameter"@, "Missing Topic ARN"@, 400, rid),
    }
}

pub open spec fn list_topics_outcome(s: AppStateV, rid: Seq<char>) -> Outcome {
    Outcome {
        topics: s.topics,
        clients: s.sqs_clients,
        status: 200,
        body: list_topics_xml(topic_arns(s.topics), rid),
        actions: Seq::empty(),
    }
}

pub open spec fn subscribe_outcome(
    s: AppStateV,
    req: SnsRequestV,
    token: Seq<char>,
    rid: Seq<char>,
) -> Outcome {
    match req.topic_arn {
        None => error_outcome(s, "InvalidParameter"@, "Missing Topic ARN"@, 400, rid),
        Some(arn) => match req.endpoint {
            None => error_outcome(s, "InvalidParameter"@, "Missing endpoint"@, 400, rid),
            Some(ep) => match req.protocol {
                None => error_outcome(s, "InvalidParameter"@, "Missing protocol"@, 400, rid),
                Some(proto) => match find_topic(s.topics, after_last(arn, ':')) {
                    None => error_outcome(s, "NotFound"@, "Topic not found"@, 404, rid),
                    Some(i) => {
                        let sarn = sub_arn_of(arn, token);
                        Outcome {
                            topics: s.topics.update(
                                i,
                                topic_with_sub(
                                    s.topics[i],
                                    SubscriptionV {
                                        endpoint: ep,
                                        protocol: proto,
                                        arn,
                                        subscription_arn: sarn,
                                    },
                                ),
                            ),
                            clients: s.sqs_clients,
                            status: 200,
                            body: subscribe_xml(sarn, rid),
                            actions: Seq::empty(),
                        }
                    },
                },
            },
        },
    }
}

pub open spec fn unsubscribe_outcome(s: AppStateV, req: SnsRequestV, rid: Seq<char>) -> Outcome {
    match req.subscription_arn {
        None => error_outcome(s, "InvalidParameter"@, "Missing Subscription ARN"@, 400, rid),
        Some(sarn) => {
            let tname = after_last(before_last(sarn, ':'), ':');
            match find_topic(s.topics, tname) {
                None => error_outcome(s, "NotFound"@, "Topic not found"@, 404, rid),
                Some(i) => Outcome {
                    topics: s.topics.update(i, topic_without_sub(s.topics[i], sarn)),
                    clients: s.sqs_clients,
                    status: 200,
                    body: unsubscribe_xml(rid),
                    actions: Seq::empty(),
                },
            }
        },
    }
}

pub open spec fn publish_outcome(
    s: AppStateV,
    req: SnsRequestV,
    message_id: Seq<char>,
    rid: Seq<char>,
    now: i64,
) -> Outcome {
    match req.topic_arn {
        None => error_outcome(s, "InvalidParameter"@, "Missing Topic ARN"@, 400, rid),
        Some(arn) => match req.message {
            None => error_outcome(s, "InvalidParameter"@, "Missing message"@, 400, rid),
            Some(body) => match find_topic(s.topics, after_last(arn, ':')) {
                None => error_outcome(s, "NotFound"@, "Topic does not exist"@, 404, rid),
                Some(i) => {
                    let m = MessageV { id: message_id, subject: req.subject, body, timestamp: now };
                    let fo = fan_out(s.topics[i].subscriptions, s.sqs_clients, m);
                    Outcome {
                        topics: s.topics,
                        clients: fo.0,
                        status: 200,
                        body: publish_xml(message_id, rid),
                        actions: fo.1,
                    }
                },
            },
        },
    }
}

/// The default policy document rendered when no policy was set.
pub open spec fn policy_default() -> Seq<char> {
    "{\"Version\":\"2012-10-17\",\"Id\":\"__default_policy_ID\",\"Statement\":[]}"@
}

/// An entry present only when the field is set.
pub open spec fn opt_entry(name: Seq<char>, v: Option<Seq<char>>) -> Seq<(Seq<char>, Seq<char>)> {
    match v {
        Some(x) => seq![(name, x)],
        None => Seq::empty(),
    }
}

/// An entry always present, with a default for an unset field.
pub open spec fn def_entry(name: Seq<char>, v: Option<Seq<char>>, d: Seq<char>) -> (
    Seq<char>,
    Seq<char>,
) {
    (
        name,
        match v {
            Some(x) => x,
            None => d,
        },
    )
}

/// The full attribute listing of a topic, in rendering order: the ARN
/// first, unset optional fields omitted, the policy and the five sample
/// rates rendered with their defaults, and the subscription counters last.
pub open spec fn topic_attribute_entries(t: TopicV) -> Seq<(Seq<char>, Seq<char>)> {
    seq![("TopicArn"@, t.arn)] + opt_entry("DisplayName"@, t.display_name) + seq![
        def_entry("Policy"@, t.policy, policy_default()),
    ] + opt_entry("DeliveryPolicy"@, t.delivery_policy) + opt_entry(
        "TracingConfig"@,
        t.tracing_config,
    ) + opt_entry("FirehoseFailureFeedbackRoleArn"@, t.firehose_failure_feedback_role_arn)
        + opt_entry("FirehoseSuccessFeedbackRoleArn"@, t.firehose_success_feedback_role_arn) + seq![
        def_entry(
            "FirehoseSuccessFeedbackSampleRate"@,
            t.firehose_success_feedback_sample_rate,
            "0"@,
        ),
    ] + opt_entry("HTTPFailureFeedbackRoleArn"@, t.http_failure_feedback_role_arn) + opt_entry(
        "SQSFailureFeedbackRoleArn"@,
        t.sqs_failure_feedback_role_arn,
    ) + opt_entry("SQSSuccessFeedbackRoleArn"@, t.sqs_success_feedback_role_arn) + seq![
        def_entry("SQSSuccessFeedbackSampleRate"@, t.sqs_success_feedback_sample_rate, "0"@),
    ] + opt_entry("HTTPSuccessFeedbackRoleArn"@, t.http_success_feedback_role_arn) + seq![
        def_entry("HTTPSuccessFeedbackSampleRate"@, t.http_success_feedback_sample_rate, "0"@),
    ] + opt_entry("ApplicationFailureFeedbackRoleArn"@, t.application_failure_feedback_role_arn)
        + opt_entry("ApplicationSuccessFeedbackRoleArn"@, t.application_success_feedback_role_arn)
        + seq![
        def_entry(
            "ApplicationSuccessFeedbackSampleRate"@,
            t.application_success_feedback_sample_rate,
            "0"@,
        ),
    ] + opt_entry("LambdaFailureFeedbackRoleArn"@, t.lambda_failure_feedback_role_arn) + opt_entry(
        "LambdaSuccessFeedbackRoleArn"@,
        t.lambda_success_feedback_role_arn,
    ) + seq![
        def_entry("LambdaSuccessFeedbackSampleRate"@, t.lambda_success_feedback_sample_rate, "0"@),
    ] + opt_entry("KmsMasterKeyId"@, t.kms_master_key_id) + opt_entry(
        "SignatureVersion"@,
        t.signature_version,
    ) + opt_entry("ContentBasedDeduplication"@, t.content_based_deduplication) + opt_entry(
        "FifoTopic"@,
        t.fifo_topic,
    ) + opt_entry("ArchivePolicy"@, t.archive_policy) + opt_entry(
        "FifoThroughputScope"@,
        t.fifo_throughput_scope,
    ) + seq![("SubscriptionsConfirmed"@, dec_str(t.subscriptions.len()))] + seq![
        ("SubscriptionsPending"@, "0"@),
    ] + seq![("SubscriptionsDeleted"@, "0"@)]
}

pub open spec fn get_topic_attributes_outcome(
    s: AppStateV,
    req: SnsRequestV,
    rid: Seq<char>,
) -> Outcome {
    match req.topic_arn {
        None => error_outcome(s, "InvalidParameter"@, "Missing Topic ARN"@, 400, rid),
        Some(arn) => match find_topic(s.topics, after_last(arn, ':')) {
            None => error_outcome(s, "NotFound"@, "Topic not found"@, 404, rid),
            Some(i) => Outcome {
                topics: s.topics,
                clients: s.sqs_clients,
                status: 200,
                body: get_topic_attributes_xml(topic_attribute_entries(s.topics[i]), rid),
                actions: Seq::empty(),
            },
        },
    }
}

pub open spec fn set_topic_attributes_outcome(
    s: AppStateV,
    req: SnsRequestV,
    rid: Seq<char>,
) -> Outcome {
    match req.topic_arn {
        None => error_outcome(s, "InvalidParameter"@, "Missing Topic ARN"@, 400, rid),
        Some(arn) => match req.attribute_name {
            None => error_outcome(s, "InvalidParameter"@, "Missing Attribute Name"@, 400, rid),
            Some(an) => match req.attribute_value {
                None => error_outcome(s, "InvalidParameter"@, "Missing Attribute Value"@, 400, rid),
                Some(av) => match find_topic(s.topics, after_last(arn, ':')) {
                    None => error_outcome(s, "NotFound"@, "Topic not found"@, 404, rid),
                    Some(i) => match topic_with_attribute(s.topics[i], an, av) {
                        Some(tv) => Outcome {
                            topics: s.topics.update(i, tv),
                            clients: s.sqs_clients,
                            status: 200,
                            body: set_topic_attributes_xml(rid),
                            actions: Seq::empty(),
                        },
                        None => error_outcome(
                            s,
                            "InvalidParameter"@,
                            "Attribute not supported"@,
                            400,
                            rid,
                        ),
                    },
                },
            },
        },
    }
}

pub open spec fn list_tags_outcome(s: AppStateV, req: SnsRequestV, rid: Seq<char>) -> Outcome {
    match req.resource_arn {
        None => error_outcome(s, "InvalidParameter"@, "Missing Resource Arn"@, 400, rid),
        Some(arn) => match find_topic(s.topics, after_last(arn, ':')) {
            None => error_outcome(s, "NotFound"@, "Resource not found"@, 404, rid),
            Some(i) => Outcome {
                topics: s.topics,
                clients: s.sqs_clients,
                status: 200,
                body: list_tags_xml(s.topics[i].tags, rid),
                actions: Seq::empty(),
            },
        },
    }
}

pub open spec fn tag_resource_outcome(s: AppStateV, req: SnsRequestV, rid: Seq<char>) -> Outcome {
    match req.resource_arn {
        None => error_outcome(s, "InvalidParameter"@, "Missing Resource Arn"@, 400, rid),
        Some(arn) => match req.tags_entry {
            None => error_outcome(s, "InvalidParameter"@, "Missing Tags"@, 400, rid),
            Some(entries) => match find_topic(s.topics, after_last(arn, ':')) {
                None => error_outcome(s, "NotFound"@, "Resource not found"@, 404, rid),
                Some(i) => Outcome {
                    topics: s.topics.update(
                        i,
                        topic_with_tags(s.topics[i], tags_merge(s.topics[i].tags, entries)),
                    ),
                    clients: s.sqs_clients,
                    status: 200,
                    body: tag_resource_xml(rid),
                    actions: Seq::empty(),
                },
            },
        },
    }
}

pub open spec fn untag_resource_outcome(s: AppStateV, req: SnsRequestV, rid: Seq<char>) -> Outcome {
    match req.resource_arn {
        None => error_outcome(s, "InvalidParameter"@, "Missing Resource Arn"@, 400, rid),
        Some(arn) => match req.tag_keys_entry {
            None => error_outcome(s, "InvalidParameter"@, "Missing Tag Keys"@, 400, rid),
            Some(keys) => match find_topic(s.topics, after_last(arn, ':')) {
                None => error_outcome(s, "NotFound"@, "Resource not found"@, 404, rid),
                Some(i) => Outcome {
                    topics: s.topics.update(
                        i,
                        topic_with_tags(s.topics[i], tags_remove_keys(s.topics[i].tags, keys)),
                    ),
                    clients: s.sqs_clients,
                    status: 200,
                    body: untag_resource_xml(rid),
                    actions: Seq::empty(),
                },
            },
        },
    }
}

pub open spec fn get_subscription_attributes_outcome(
    s: AppStateV,
    req: SnsRequestV,
    rid: Seq<char>,
) -> Outcome {
    match req.subscription_arn {
        None => error_outcome(s, "InvalidParameter"@, "Missing Subscription ARN"@, 400, rid),
        Some(sarn) => match find_subscription(s.topics, sarn) {
            None => error_outcome(s, "NotFound"@, "Subscription not found"@, 404, rid),
            Some(sub) => Outcome {
                topics: s.topics,
                clients: s.sqs_clients,
                status: 200,
                body: get_subscription_attributes_xml(sub, rid),
                actions: Seq::empty(),
            },
        },
    }
}

pub open spec fn list_subscriptions_outcome(
    s: AppStateV,
    req: SnsRequestV,
    rid: Seq<char>,
) -> Outcome {
    match req.topic_arn {
        None => error_outcome(s, "InvalidParameter"@, "Missing Topic ARN"@, 400, rid),
        Some(arn) => match find_topic(s.topics, after_last(arn, ':')) {
            None => error_outcome(s, "NotFound"@, "Topic not found"@, 404, rid),
            Some(i) => Outcome {
                topics: s.topics,
                clients: s.sqs_clients,
                status: 200,
                body: list_subscriptions_xml(s.topics[i].subscriptions, rid),
                actions: Seq::empty(),
            },
        },
    }
}

/// The whole protocol, one action step: which handler runs for the action
/// name, and what it leaves behind. `token` is the fresh identifier used
/// by subscribe (subscription token) and publish (message id); `rid` the
/// fresh request-correlation identifier; `now` the capture time.
pub open spec fn step_outcome(
    s: AppStateV,
    req: SnsRequestV,
    token: Seq<char>,
    rid: Seq<char>,
    now: i64,
) -> Outcome {
    if req.action == "CreateTopic"@ {
        create_topic_outcome(s, req, rid)
    } else if req.action == "DeleteTopic"@ {
        delete_topic_outcome(s, req, rid)
    } else if req.action == "ListTopics"@ {
        list_topics_outcome(s, rid)
    } else if req.action == "Subscribe"@ {
        subscribe_outcome(s, req, token, rid)
    } else if req.action == "Unsubscribe"@ {
        unsubscribe_outcome(s, req, rid)
    } else if req.action == "Publish"@ {
        publish_outcome(s, req, token, rid, now)
    } else if req.action == "GetTopicAttributes"@ {
        get_topic_attributes_outcome(s, req, rid)
    } else if req.action == "SetTopicAttributes"@ {
        set_topic_attributes_outcome(s, req, rid)
    } else if req.action == "ListTagsForResource"@ {
        list_tags_outcome(s, req, rid)
    } else if req.action == "TagResource"@ {
        tag_resource_outcome(s, req, rid)
    } else if req.action == "UntagResource"@ {
        untag_resource_outcome(s, req, rid)
    } else if req.action == "GetSubscriptionAttributes"@ {
        get_subscription_attributes_outcome(s, req, rid)
    } else if req.action == "ListSubscriptionsByTopic"@ {
        list_subscriptions_outcome(s, req, rid)
    } else {
        error_outcome(s, "InvalidAction"@, "Action not supported"@, 400, rid)
    }
}

/// Renders an error envelope with the given code, message, and status.
pub fn error_response(code: &str, message: &str, status: u16, request_id: &str) -> (r: ApiResponse)
    ensures
        r.status == status,
        r.body@ == error_xml(code@, message@, request_id@),
{
    ApiResponse { status, body: render_error(code, message, request_id) }
}

/// An empty delivery plan.
fn no_actions() -> (r: Vec<DeliveryAction>)
    ensures
        r.deep_view() == Seq::<DeliveryActionV>::empty(),
{
    let r: Vec<DeliveryAction> = Vec::new();
    proof {
        assert(r.deep_view() =~= Seq::<DeliveryActionV>::empty());
    }
    r
}

/// Creates (or wholesale overwrites) the named topic and returns its ARN.
pub fn create_topic(state: &mut AppState, req: &SnsRequest, request_id: &str) -> (resp: ApiResponse)
    requires
        state_wf(old(state)@),
    ensures
        state_wf(final(state)@),
        outcome_holds(
            create_topic_outcome(old(state)@, req@, request_id@),
            final(state)@,
            resp.status,
            resp.body@,
            Seq::empty(),
        ),
{
    let name = match &req.name {
        Some(n) => n.clone(),
        None => {
            return error_response("InvalidParameter", "Missing Topic Name", 400, request_id);
        },
    };
    let arn = make_arn(name.as_str());
    let mut tags: Vec<TagEntry> = Vec::new();
    proof {
        assert(tags.deep_view() =~= Seq::<(Seq<char>, Seq<char>)>::empty());
    }
    match &req.tags_entry {
        Some(es) => {
            tags_merge_exec(&mut tags, es);
        },
        None => {},
    }
    let topic = Topic {
        name,
        arn: arn.clone(),
        tags,
        subscriptions: Vec::new(),
        display_name: None,
        policy: None,
        delivery_policy: None,
        tracing_config: None,
        firehose_failure_feedback_role_arn: None,
        firehose_success_feedback_role_arn: None,
        firehose_success_feedback_sample_rate: None,
        http_failure_feedback_role_arn: None,
        sqs_failure_feedback_role_arn: None,
        sqs_success_feedback_role_arn: None,
        sqs_success_feedback_sample_rate: None,
        http_success_feedback_role_arn: None,
        http_success_feedback_sample_rate: None,
        application_failure_feedback_role_arn: None,
        application_success_feedback_role_arn: None,
        application_success_feedback_sample_rate: None,
        lambda_failure_feedback_role_arn: None,
        lambda_success_feedback_role_arn: None,
        lambda_success_feedback_sample_rate: None,
        kms_master_key_id: None,
        signature_version: None,
        content_based_deduplication: None,
        fifo_topic: None,
        archive_policy: None,
        fifo_throughput_scope: None,
    };
    proof {
        crate::state::lemma_tags_merge_wf(
            Seq::<(Seq<char>, Seq<char>)>::empty(),
            match req@.tags_entry {
                Some(es) => es,
                None => Seq::empty(),
            },
        );
        assert(topic@ =~~= created_topic(req@.name->Some_0, req@.tags_entry));
        assert(topic_wf(topic@));
    }
    state.topics.insert(topic);
    let body = CreateTopicResponse {
        create_topic_result: CreateTopicResult { topic_arn: arn },
        response_metadata: ResponseMetadata { request_id: request_id.to_owned() },
    }.to_xml();
    ApiResponse { status: 200, body }
}

/// Deletes the topic the ARN resolves to; an unknown name is a no-op
/// success.
pub fn delete_topic(state: &mut AppState, req: &SnsRequest, request_id: &str) -> (resp: ApiResponse)
    requires
        state_wf(old(state)@),
    ensures
        state_wf(final(state)@),
        outcome_holds(
            delete_topic_outcome(old(state)@, req@, request_id@),
            final(state)@,
            resp.status,
            resp.body@,
            Seq::empty(),
        ),
{
    let topic_arn = match &req.topic_arn {
        Some(a) => a,
        None => {
            return error_response("InvalidParameter", "Missing Topic ARN", 400, request_id);
        },
    };
    let topic_name = last_segment(topic_arn.as_str(), ':');
    state.topics.remove(topic_name.as_str());
    let body = DeleteTopicResponse {
        response_metadata: ResponseMetadata { request_id: request_id.to_owned() },
    }.to_xml();
    ApiResponse { status: 200, body }
}

/// Lists every topic's ARN.
pub fn list_topics(state: &AppState, request_id: &str) -> (resp: ApiResponse)
    ensures
        outcome_holds(
            list_topics_outcome(state@, request_id@),
            state@,
            resp.status,
            resp.body@,
            Seq::empty(),
        ),
{
    let mut members: Vec<Member> = Vec::new();
    let n = state.topics.topics.len();
    let mut i: usize = 0;
    while i < n
        invariant
            n == state.topics.topics.len(),
            i <= n,
            state@.topics.len() == n,
            members.deep_view().len() == i,
            forall|j: int| 0 <= j < i ==> members.deep_view()[j] == state@.topics[j].arn,
        decreases n - i,
    {
        let ghost prev = members@;
        let ghost pred = members.deep_view();
        members.push(Member { topic_arn: state.topics.topics[i].arn.clone() });
        proof {
            assert forall|j: int| 0 <= j <= i implies members.deep_view()[j] == state@.topics[j].arn by {
                assert(members.deep_view()[j] == members@[j].deep_view());
                if j < i {
                    assert(members@[j] == prev[j]);
                    assert(pred[j] == prev[j].deep_view());
                } else {
                    assert(state@.topics[i as int] == state.topics.topics@[i as int].deep_view());
                }
            }
        }
        i += 1;
    }
    proof {
        assert(members.deep_view() =~= topic_arns(state@.topics));
    }
    let body = ListTopicsResponse {
        list_topics_result: ListTopicsResult { topics: Topics { member: members }, next_token: None },
        response_metadata: ResponseMetadata { request_id: request_id.to_owned() },
    }.to_xml();
    ApiResponse { status: 200, body }
}

/// Appends a subscription with a fresh ARN to the topic the ARN resolves
/// to.
pub fn subscribe(state: &mut AppState, req: &SnsRequest, token: &str, request_id: &str) -> (resp:
    ApiResponse)
    requires
        state_wf(old(state)@),
    ensures
        state_wf(final(state)@),
        outcome_holds(
            subscribe_outcome(old(state)@, req@, token@, request_id@),
            final(state)@,
            resp.status,
            resp.body@,
            Seq::empty(),
        ),
{
    let topic_arn = match &req.topic_arn {
        Some(a) => a,
        None => {
            return error_response("InvalidParameter", "Missing Topic ARN", 400, request_id);
        },
    };
    let topic_name = last_segment(topic_arn.as_str(), ':');
    let endpoint = match &req.endpoint {
        Some(e) => e.clone(),
        None => {
            return error_response("InvalidParameter", "Missing endpoint", 400, request_id);
        },
    };
    let protocol = match &req.protocol {
        Some(p) => p.clone(),
        None => {
            return error_response("InvalidParameter", "Missing protocol", 400, request_id);
        },
    };
    let mut subscription_arn = topic_arn.clone();
    subscription_arn.append(":");
    subscription_arn.append(token);
    proof {
        assert(subscription_arn@ == sub_arn_of(topic_arn@, token@));
    }
    let subscription = Subscription {
        endpoint,
        protocol,
        arn: topic_arn.clone(),
        subscription_arn: subscription_arn.clone(),
    };
    let found = state.topics.find(topic_name.as_str());
    match found {
        Some(i) => {
            proof {
                crate::state::lemma_find_topic_props(old(state)@.topics, topic_name@);
            }
            state.topics.push_subscription(i, subscription);
            let body = SubscribeResponse {
                subscribe_result: SubscribeResult { subscription_arn },
                response_metadata: ResponseMetadata { request_id: request_id.to_owned() },
            }.to_xml();
            ApiResponse { status: 200, body }
        },
        None => error_response("NotFound", "Topic not found", 404, request_id),
    }
}

/// Removes the subscription from the topic derived from its ARN; an ARN
/// never issued is a no-op success, but an absent derived topic is an
/// error.
pub fn unsubscribe(state: &mut AppState, req: &SnsRequest, request_id: &str) -> (resp: ApiResponse)
    requires
        state_wf(old(state)@),
    ensures
        state_wf(final(state)@),
        outcome_holds(
            unsubscribe_outcome(old(state)@, req@, request_id@),
            final(state)@,
            resp.status,
            resp.body@,
            Seq::empty(),
        ),
{
    let subscription_arn = match &req.subscription_arn {
        Some(a) => a,
        None => {
            return error_response("InvalidParameter", "Missing Subscription ARN", 400, request_id);
        },
    };
    let topic_arn = prefix_before_last(subscription_arn.as_str(), ':');
    let topic_name = last_segment(topic_arn.as_str(), ':');
    let found = state.topics.find(topic_name.as_str());
    match found {
        Some(i) => {
            proof {
                crate::state::lemma_find_topic_props(old(state)@.topics, topic_name@);
            }
            state.topics.remove_subscription(i, subscription_arn.as_str());
            let body = UnsubscribeResponse {
                response_metadata: ResponseMetadata { request_id: request_id.to_owned() },
            }.to_xml();
            ApiResponse { status: 200, body }
        },
        None => error_response("NotFound", "Topic not found", 404, request_id),
    }
}

/// Fans the message out to the topic's subscriptions and returns the
/// delivery plan; the caller always sees success once the topic is found,
/// whatever later happens to the deliveries.
pub fn publish(state: &mut AppState, req: &SnsRequest, message_id: &str, request_id: &str, now: i64)
    -> (r: (ApiResponse, Vec<DeliveryAction>))
    requires
        state_wf(old(state)@),
    ensures
        state_wf(final(state)@),
        outcome_holds(
            publish_outcome(old(state)@, req@, message_id@, request_id@, now),
            final(state)@,
            r.0.status,
            r.0.body@,
            r.1.deep_view(),
        ),
{
    let topic_arn = match &req.topic_arn {
        Some(a) => a,
        None => {
            return (
                error_response("InvalidParameter", "Missing Topic ARN", 400, request_id),
                no_actions(),
            );
        },
    };
    let topic_name = last_segment(topic_arn.as_str(), ':');
    let message_body = match &req.message {
        Some(m) => m.clone(),
        None => {
            return (
                error_response("InvalidParameter", "Missing message", 400, request_id),
                no_actions(),
            );
        },
    };
    let message = Message {
        id: message_id.to_owned(),
        subject: crate::strutil::clone_opt_string(&req.subject),
        body: message_body,
        timestamp: now,
    };
    let found = state.topics.find(topic_name.as_str());
    match found {
        Some(i) => {
            proof {
                crate::state::lemma_find_topic_props(old(state)@.topics, topic_name@);
                assert(state@.topics[i as int] == state.topics.topics@[i as int].deep_view());
            }
            let acts = plan_fan_out(
                &state.topics.topics[i].subscriptions,
                &mut state.sqs_clients,
                &message,
            );
            let body = PublishResponse {
                publish_result: PublishResult { message_id: message_id.to_owned() },
                response_metadata: ResponseMetadata { request_id: request_id.to_owned() },
            }.to_xml();
            (ApiResponse { status: 200, body }, acts)
        },
        None => (error_response("NotFound", "Topic does not exist", 404, request_id), no_actions()),
    }
}

/// Appends one entry with the given key and value.
fn push_plain_entry(es: &mut Vec<Entry>, name: &str, value: String)
    ensures
        final(es).deep_view() == old(es).deep_view() + seq![(name@, value@)],
{
    let ghost pre = es.deep_view();
    es.push(Entry { key: name.to_owned(), value });
    proof {
        assert(es.deep_view() =~~= pre + seq![(name@, value@)]);
    }
}

/// Appends an entry only when the optional field is set.
fn push_opt_entry(es: &mut Vec<Entry>, name: &str, v: &Option<String>)
    ensures
        final(es).deep_view() == old(es).deep_view() + opt_entry(name@, v.deep_view()),
{
    match v {
        Some(x) => {
            push_plain_entry(es, name, x.clone());
        },
        None => {
            proof {
                assert(es.deep_view() =~= es.deep_view() + opt_entry(name@, v.deep_view()));
            }
        },
    }
}

/// Appends an entry, falling back to `d` when the field is unset.
fn push_def_entry(es: &mut Vec<Entry>, name: &str, v: &Option<String>, d: &str)
    ensures
        final(es).deep_view() == old(es).deep_view() + seq![def_entry(name@, v.deep_view(), d@)],
{
    match v {
        Some(x) => {
            push_plain_entry(es, name, x.clone());
        },
        None => {
            push_plain_entry(es, name, d.to_owned());
        },
    }
}

/// Builds the full attribute listing of a topic, in rendering order.
#[verifier::rlimit(100)]
fn build_topic_attribute_entries(t: &Topic) -> (es: Vec<Entry>)
    ensures
        es.deep_view() == topic_attribute_entries(t@),
{
    let mut es: Vec<Entry> = Vec::new();
    proof {
        assert(es.deep_view() =~= Seq::<(Seq<char>, Seq<char>)>::empty());
    }
    push_plain_entry(&mut es, "TopicArn", t.arn.clone());
    push_opt_entry(&mut es, "DisplayName", &t.display_name);
    push_def_entry(
        &mut es,
        "Policy",
        &t.policy,
        "{\"Version\":\"2012-10-17\",\"Id\":\"__default_policy_ID\",\"Statement\":[]}",
    );
    push_opt_entry(&mut es, "DeliveryPolicy", &t.delivery_policy);
    push_opt_entry(&mut es, "TracingConfig", &t.tracing_config);
    push_opt_entry(&mut es, "FirehoseFailureFeedbackRoleArn", &t.firehose_failure_feedback_role_arn);
    push_opt_entry(&mut es, "FirehoseSuccessFeedbackRoleArn", &t.firehose_success_feedback_role_arn);
    push_def_entry(
        &mut es,
        "FirehoseSuccessFeedbackSampleRate",
        &t.firehose_success_feedback_sample_rate,
        "0",
    );
    push_opt_entry(&mut es, "HTTPFailureFeedbackRoleArn", &t.http_failure_feedback_role_arn);
    push_opt_entry(&mut es, "SQSFailureFeedbackRoleArn", &t.sqs_failure_feedback_role_arn);
    push_opt_entry(&mut es, "SQSSuccessFeedbackRoleArn", &t.sqs_success_feedback_role_arn);
    push_def_entry(
        &mut es,
        "SQSSuccessFeedbackSampleRate",
        &t.sqs_success_feedback_sample_rate,
        "0",
    );
    push_opt_entry(&mut es, "HTTPSuccessFeedbackRoleArn", &t.http_success_feedback_role_arn);
    push_def_entry(
        &mut es,
        "HTTPSuccessFeedbackSampleRate",
        &t.http_success_feedback_sample_rate,
        "0",
    );
    push_opt_entry(
        &mut es,
        "ApplicationFailureFeedbackRoleArn",
        &t.application_failure_feedback_role_arn,
    );
    push_opt_entry(
        &mut es,
        "ApplicationSuccessFeedbackRoleArn",
        &t.application_success_feedback_role_arn,
    );
    push_def_entry(
        &mut es,
        "ApplicationSuccessFeedbackSampleRate",
        &t.application_success_feedback_sample_rate,
        "0",
    );
    push_opt_entry(&mut es, "LambdaFailureFeedbackRoleArn", &t.lambda_failure_feedback_role_arn);
    push_opt_entry(&mut es, "LambdaSuccessFeedbackRoleArn", &t.lambda_success_feedback_role_arn);
    push_def_entry(
        &mut es,
        "LambdaSuccessFeedbackSampleRate",
        &t.lambda_success_feedback_sample_rate,
        "0",
    );
    push_opt_entry(&mut es, "KmsMasterKeyId", &t.kms_master_key_id);
    push_opt_entry(&mut es, "SignatureVersion", &t.signature_version);
    push_opt_entry(&mut es, "ContentBasedDeduplication", &t.content_based_deduplication);
    push_opt_entry(&mut es, "FifoTopic", &t.fifo_topic);
    push_opt_entry(&mut es, "ArchivePolicy", &t.archive_policy);
    push_opt_entry(&mut es, "FifoThroughputScope", &t.fifo_throughput_scope);
    let count = usize_to_string(t.subscriptions.len());
    push_plain_entry(&mut es, "SubscriptionsConfirmed", count);
    push_plain_entry(&mut es, "SubscriptionsPending", String::from_str("0"));
    push_plain_entry(&mut es, "SubscriptionsDeleted", String::from_str("0"));
    proof {
        assert(Seq::<(Seq<char>, Seq<char>)>::empty() + seq![("TopicArn"@, t.arn@)] =~= seq![
            ("TopicArn"@, t@.arn),
        ]);
        assert(es.deep_view() == topic_attribute_entries(t@));
    }
    es
}

/// Renders `n` in decimal.
fn usize_to_string(n: usize) -> (r: String)
    ensures
        r@ == dec_str(n as nat),
{
    u64_to_string(n as u64)
}

/// Renders the full attribute map of the topic the ARN resolves to, with
/// the documented defaults.
#[verifier::rlimit(100)]
pub fn get_topic_attributes(state: &AppState, req: &SnsRequest, request_id: &str) -> (resp:
    ApiResponse)
    ensures
        outcome_holds(
            get_topic_attributes_outcome(state@, req@, request_id@),
            state@,
            resp.status,
            resp.body@,
            Seq::empty(),
        ),
{
    let topic_arn = match &req.topic_arn {
        Some(a) => a,
        None => {
            return error_response("InvalidParameter", "Missing Topic ARN", 400, request_id);
        },
    };
    let topic_name = last_segment(topic_arn.as_str(), ':');
    let found = state.topics.find(topic_name.as_str());
    match found {
        Some(i) => {
            proof {
                crate::state::lemma_find_topic_props(state@.topics, topic_name@);
                assert(state@.topics[i as int] == state.topics.topics@[i as int].deep_view());
            }
            let es = build_topic_attribute_entries(&state.topics.topics[i]);
            let body = GetTopicAttributesResponse {
                get_topic_attributes_result: GetTopicAttributesResult {
                    attributes: Attributes { entry: es },
                },
                response_metadata: ResponseMetadata { request_id: request_id.to_owned() },
            }.to_xml();
            ApiResponse { status: 200, body }
        },
        None => error_response("NotFound", "Topic not found", 404, request_id),
    }
}

/// Sets one whitelisted attribute on the topic the ARN resolves to; an
/// unknown attribute name is rejected and changes nothing.
#[verifier::rlimit(100)]
pub fn set_topic_attributes(state: &mut AppState, req: &SnsRequest, request_id: &str) -> (resp:
    ApiResponse)
    requires
        state_wf(old(state)@),
    ensures
        state_wf(final(state)@),
        outcome_holds(
            set_topic_attributes_outcome(old(state)@, req@, request_id@),
            final(state)@,
            resp.status,
            resp.body@,
            Seq::empty(),
        ),
{
    let topic_arn = match &req.topic_arn {
        Some(a) => a,
        None => {
            return error_response("InvalidParameter", "Missing Topic ARN", 400, request_id);
        },
    };
    let attribute_name = match &req.attribute_name {
        Some(a) => a,
        None => {
            return error_response("InvalidParameter", "Missing Attribute Name", 400, request_id);
        },
    };
    let attribute_value = match &req.attribute_value {
        Some(a) => a.clone(),
        None => {
            return error_response("InvalidParameter", "Missing Attribute Value", 400, request_id);
        },
    };
    let topic_name = last_segment(topic_arn.as_str(), ':');
    let found = state.topics.find(topic_name.as_str());
    match found {
        Some(i) => {
            proof {
                crate::state::lemma_find_topic_props(old(state)@.topics, topic_name@);
            }
            let ok = state.topics.set_attribute_at(i, attribute_name.as_str(), attribute_value);
            if ok {
                let mut out = String::new();
                push_open_ns(
                    &mut out,
                    "SetTopicAttributesResponse",
                    "https://sns.amazonaws.com/doc/2010-03-31/",
                );
                push_response_metadata(&mut out, request_id);
                push_close(&mut out, "SetTopicAttributesResponse");
                proof {
                    assert(out@ =~= set_topic_attributes_xml(request_id@));
                }
                ApiResponse { status: 200, body: out }
            } else {
                error_response("InvalidParameter", "Attribute not supported", 400, request_id)
            }
        },
        None => error_response("NotFound", "Topic not found", 404, request_id),
    }
}

/// Renders the tag map of the topic the resource ARN resolves to.
#[verifier::rlimit(100)]
pub fn list_tags_for_resource(state: &AppState, req: &SnsRequest, request_id: &str) -> (resp:
    ApiResponse)
    ensures
        outcome_holds(
            list_tags_outcome(state@, req@, request_id@),
            state@,
            resp.status,
            resp.body@,
            Seq::empty(),
        ),
{
    let resource_arn = match &req.resource_arn {
        Some(a) => a,
        None => {
            return error_response("InvalidParameter", "Missing Resource Arn", 400, request_id);
        },
    };
    let topic_name = last_segment(resource_arn.as_str(), ':');
    let found = state.topics.find(topic_name.as_str());
    match found {
        Some(i) => {
            proof {
                crate::state::lemma_find_topic_props(state@.topics, topic_name@);
                assert(state@.topics[i as int] == state.topics.topics@[i as int].deep_view());
            }
            let mut out = String::new();
            push_open_ns(
                &mut out,
                "ListTagsForResourceResponse",
                "https://sns.amazonaws.com/doc/2010-03-31/",
            );
            push_open(&mut out, "ListTagsForResourceResult");
            push_open(&mut out, "Tags");
            push_tag_members(&mut out, &state.topics.topics[i].tags);
            push_close(&mut out, "Tags");
            push_close(&mut out, "ListTagsForResourceResult");
            push_response_metadata(&mut out, request_id);
            push_close(&mut out, "ListTagsForResourceResponse");
            proof {
                assert(out@ =~= list_tags_xml(state@.topics[i as int].tags, request_id@));
            }
            ApiResponse { status: 200, body: out }
        },
        None => error_response("NotFound", "Resource not found", 404, request_id),
    }
}

/// Merges the supplied tags into the topic the resource ARN resolves to,
/// overwriting by key.
#[verifier::rlimit(100)]
pub fn tag_resource(state: &mut AppState, req: &SnsRequest, request_id: &str) -> (resp: ApiResponse)
    requires
        state_wf(old(state)@),
    ensures
        state_wf(final(state)@),
        outcome_holds(
            tag_resource_outcome(old(state)@, req@, request_id@),
            final(state)@,
            resp.status,
            resp.body@,
            Seq::empty(),
        ),
{
    let resource_arn = match &req.resource_arn {
        Some(a) => a,
        None => {
            return error_response("InvalidParameter", "Missing Resource Arn", 400, request_id);
        },
    };
    let entries = match &req.tags_entry {
        Some(es) => es,
        None => {
            return error_response("InvalidParameter", "Missing Tags", 400, request_id);
        },
    };
    let topic_name = last_segment(resource_arn.as_str(), ':');
    let found = state.topics.find(topic_name.as_str());
    match found {
        Some(i) => {
            proof {
                crate::state::lemma_find_topic_props(old(state)@.topics, topic_name@);
            }
            state.topics.merge_tags_at(i, entries);
            let mut out = String::new();
            push_open_ns(&mut out, "TagResourceResponse", "https://sns.amazonaws.com/doc/2010-03-31/");
            push_open(&mut out, "TagResourceResult");
            push_close(&mut out, "TagResourceResult");
            push_response_metadata(&mut out, request_id);
            push_close(&mut out, "TagResourceResponse");
            proof {
                assert(out@ =~= tag_resource_xml(request_id@));
            }
            ApiResponse { status: 200, body: out }
        },
        None => error_response("NotFound", "Resource not found", 404, request_id),
    }
}

/// Removes the supplied tag keys from the topic the resource ARN resolves
/// to; absent keys are ignored.
#[verifier::rlimit(100)]
pub fn untag_resource(state: &mut AppState, req: &SnsRequest, request_id: &str) -> (resp:
    ApiResponse)
    requires
        state_wf(old(state)@),
    ensures
        state_wf(final(state)@),
        outcome_holds(
            untag_resource_outcome(old(state)@, req@, request_id@),
            final(state)@,
            resp.status,
            resp.body@,
            Seq::empty(),
        ),
{
    let resource_arn = match &req.resource_arn {
        Some(a) => a,
        None => {
            return error_response("InvalidParameter", "Missing Resource Arn", 400, request_id);
        },
    };
    let keys = match &req.tag_keys_entry {
        Some(ks) => ks,
        None => {
            return error_response("InvalidParameter", "Missing Tag Keys", 400, request_id);
        },
    };
    let topic_name = last_segment(resource_arn.as_str(), ':');
    let found = state.topics.find(topic_name.as_str());
    match found {
        Some(i) => {
            proof {
                crate::state::lemma_find_topic_props(old(state)@.topics, topic_name@);
            }
            state.topics.remove_tag_keys_at(i, keys);
            let mut out = String::new();
            push_open_ns(
                &mut out,
                "UntagResourceResponse",
                "https://sns.amazonaws.com/doc/2010-03-31/",
            );
            push_open(&mut out, "UntagResourceResult");
            push_close(&mut out, "UntagResourceResult");
            push_response_metadata(&mut out, request_id);
            push_close(&mut out, "UntagResourceResponse");
            proof {
                assert(out@ =~= untag_resource_xml(request_id@));
            }
            ApiResponse { status: 200, body: out }
        },
        None => error_response("NotFound", "Resource not found", 404, request_id),
    }
}

/// Builds the fixed attribute listing of one subscription.
fn build_subscription_attribute_entries(sub: &Subscription) -> (es: Vec<Entry>)
    ensures
        es.deep_view() == crate::responses::subscription_attribute_entries(sub@),
{
    let mut es: Vec<Entry> = Vec::new();
    proof {
        assert(es.deep_view() =~= Seq::<(Seq<char>, Seq<char>)>::empty());
    }
    push_plain_entry(&mut es, "SubscriptionArn", sub.subscription_arn.clone());
    push_plain_entry(&mut es, "TopicArn", sub.arn.clone());
    push_plain_entry(&mut es, "Owner", String::from_str("000000000000"));
    push_plain_entry(&mut es, "ConfirmationWasAuthenticated", String::from_str("true"));
    push_plain_entry(&mut es, "PendingConfirmation", String::from_str("false"));
    push_plain_entry(&mut es, "Protocol", sub.protocol.clone());
    push_plain_entry(&mut es, "Endpoint", sub.endpoint.clone());
    proof {
        assert(es.deep_view() =~~= crate::responses::subscription_attribute_entries(sub@));
    }
    es
}

/// Renders the success body for one found subscription.
fn render_subscription_attributes(sub: &Subscription, request_id: &str) -> (r: String)
    ensures
        r@ == get_subscription_attributes_xml(sub@, request_id@),
{
    let es = build_subscription_attribute_entries(sub);
    let mut out = String::new();
    push_open_ns(
        &mut out,
        "GetSubscriptionAttributesResponse",
        "https://sns.amazonaws.com/doc/2010-03-31/",
    );
    push_open(&mut out, "GetSubscriptionAttributesResult");
    push_open(&mut out, "Attributes");
    push_entries(&mut out, &es);
    push_close(&mut out, "Attributes");
    push_close(&mut out, "GetSubscriptionAttributesResult");
    push_response_metadata(&mut out, request_id);
    push_close(&mut out, "GetSubscriptionAttributesResponse");
    proof {
        assert(out@ =~= get_subscription_attributes_xml(sub@, request_id@));
    }
    out
}

/// Renders the fixed attribute set of the subscription with the given ARN,
/// wherever in the registry it lives.
pub fn get_subscription_attributes(state: &AppState, req: &SnsRequest, request_id: &str) -> (resp:
    ApiResponse)
    ensures
        outcome_holds(
            get_subscription_attributes_outcome(state@, req@, request_id@),
            state@,
            resp.status,
            resp.body@,
            Seq::empty(),
        ),
{
    let subscription_arn = match &req.subscription_arn {
        Some(a) => a,
        None => {
            return error_response("InvalidParameter", "Missing Subscription ARN", 400, request_id);
        },
    };
    let found = state.topics.lookup_subscription(subscription_arn.as_str());
    match found {
        Some(sub) => {
            let body = render_subscription_attributes(&sub, request_id);
            ApiResponse { status: 200, body }
        },
        None => error_response("NotFound", "Subscription not found", 404, request_id),
    }
}

/// Renders every subscription of the topic the ARN resolves to.
#[verifier::rlimit(100)]
pub fn list_subscriptions_by_topic(state: &AppState, req: &SnsRequest, request_id: &str) -> (resp:
    ApiResponse)
    ensures
        outcome_holds(
            list_subscriptions_outcome(state@, req@, request_id@),
            state@,
            resp.status,
            resp.body@,
            Seq::empty(),
        ),
{
    let topic_arn = match &req.topic_arn {
        Some(a) => a,
        None => {
            return error_response("InvalidParameter", "Missing Topic ARN", 400, request_id);
        },
    };
    let topic_name = last_segment(topic_arn.as_str(), ':');
    let found = state.topics.find(topic_name.as_str());
    match found {
        Some(i) => {
            proof {
                crate::state::lemma_find_topic_props(state@.topics, topic_name@);
                assert(state@.topics[i as int] == state.topics.topics@[i as int].deep_view());
            }
            let mut out = String::new();
            push_open_ns(
                &mut out,
                "ListSubscriptionsByTopicResponse",
                "https://sns.amazonaws.com/doc/2010-03-31/",
            );
            push_open(&mut out, "ListSubscriptionsByTopicResult");
            push_open(&mut out, "Subscriptions");
            push_sub_members(&mut out, &state.topics.topics[i].subscriptions);
            push_close(&mut out, "Subscriptions");
            push_close(&mut out, "ListSubscriptionsByTopicResult");
            push_response_metadata(&mut out, request_id);
            push_close(&mut out, "ListSubscriptionsByTopicResponse");
            proof {
                assert(out@ =~= list_subscriptions_xml(
                    state@.topics[i as int].subscriptions,
                    request_id@,
                ));
            }
            ApiResponse { status: 200, body: out }
        },
        None => error_response("NotFound", "Topic not found", 404, request_id),
    }
}

/// Maps the action name to its handler and runs it, with the fresh
/// identifiers supplied by the caller: fully deterministic, and specified
/// exactly by `step_outcome`.
pub fn dispatch_request(
    state: &mut AppState,
    req: &SnsRequest,
    token: &str,
    request_id: &str,
    now: i64,
) -> (r: (ApiResponse, Vec<DeliveryAction>))
    requires
        state_wf(old(state)@),
    ensures
        state_wf(final(state)@),
        outcome_holds(
            step_outcome(old(state)@, req@, token@, request_id@, now),
            final(state)@,
            r.0.status,
            r.0.body@,
            r.1.deep_view(),
        ),
{
    let action = req.action.as_str();
    if str_eq(action, "CreateTopic") {
        (create_topic(state, req, request_id), no_actions())
    } else if str_eq(action, "DeleteTopic") {
        (delete_topic(state, req, request_id), no_actions())
    } else if str_eq(action, "ListTopics") {
        (list_topics(state, request_id), no_actions())
    } else if str_eq(action, "Subscribe") {
        (subscribe(state, req, token, request_id), no_actions())
    } else if str_eq(action, "Unsubscribe") {
        (unsubscribe(state, req, request_id), no_actions())
    } else if str_eq(action, "Publish") {
        publish(state, req, token, request_id, now)
    } else if str_eq(action, "GetTopicAttributes") {
        (get_topic_attributes(state, req, request_id), no_actions())
    } else if str_eq(action, "SetTopicAttributes") {
        (set_topic_attributes(state, req, request_id), no_actions())
    } else if str_eq(action, "ListTagsForResource") {
        (list_tags_for_resource(state, req, request_id), no_actions())
    } else if str_eq(action, "TagResource") {
        (tag_resource(state, req, request_id), no_actions())
    } else if str_eq(action, "UntagResource") {
        (untag_resource(state, req, request_id), no_actions())
    } else if str_eq(action, "GetSubscriptionAttributes") {
        (get_subscription_attributes(state, req, request_id), no_actions())
    } else if str_eq(action, "ListSubscriptionsByTopic") {
        (list_subscriptions_by_topic(state, req, request_id), no_actions())
    } else {
        (error_response("InvalidAction", "Action not supported", 400, request_id), no_actions())
    }
}

/// Handles one request end to end: draws the fresh identifiers and the
/// capture time, then dispatches. Whatever those values came back as, the
/// result is exactly one protocol step with them.
pub fn handle_aws_request(state: &mut AppState, req: &SnsRequest) -> (r: (
    ApiResponse,
    Vec<DeliveryAction>,
))
    requires
        state_wf(old(state)@),
    ensures
        state_wf(final(state)@),
        exists|token: Seq<char>, rid: Seq<char>, now: i64|
            outcome_holds(
                #[trigger] step_outcome(old(state)@, req@, token, rid, now),
                final(state)@,
                r.0.status,
                r.0.body@,
                r.1.deep_view(),
            ),
{
    let token = fresh_token();
    let request_id = fresh_token();
    let now = now_millis();
    let r = dispatch_request(state, req, token.as_str(), request_id.as_str(), now);
    proof {
        assert(outcome_holds(
            step_outcome(old(state)@, req@, token@, request_id@, now),
            state@,
            r.0.status,
            r.0.body@,
            r.1.deep_view(),
        ));
    }
    r
}

} // verus!
