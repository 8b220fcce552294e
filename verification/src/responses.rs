//! Typed success results and their renderers. Every renderer produces the
//! full wire body and is specified exactly over the crate's XML spec
//! functions.

use vstd::prelude::*;
use vstd::string::*;
use crate::xml::{
    elem, entry_xml, escape_seq, push_close, push_entry, push_open, push_open_ns,
    push_response_metadata, push_text_elem, success_xml,
};
use crate::state::SubscriptionV;

verus! {

pub struct ResponseMetadata {
    pub request_id: String,
}

pub struct CreateTopicResult {
    pub topic_arn: String,
}

pub struct CreateTopicResponse {
    pub create_topic_result: CreateTopicResult,
    pub response_metadata: ResponseMetadata,
}

pub struct DeleteTopicResponse {
    pub response_metadata: ResponseMetadata,
}

pub struct Member {
    pub topic_arn: String,
}

impl View for Member {
    type V = Seq<char>;

    open spec fn view(&self) -> Seq<char> {
        self.topic_arn@
    }
}

impl DeepView for Member {
    type V = Seq<char>;

    open spec fn deep_view(&self) -> Seq<char> {
        self.view()
    }
}

pub struct Topics {
    pub member: Vec<Member>,
}

pub struct ListTopicsResult {
    pub topics: Topics,
    pub next_token: Option<String>,
}

pub struct ListTopicsResponse {
    pub list_topics_result: ListTopicsResult,
    pub response_metadata: ResponseMetadata,
}

pub struct SubscribeResult {
    pub subscription_arn: String,
}

pub struct SubscribeResponse {
    pub subscribe_result: SubscribeResult,
    pub response_metadata: ResponseMetadata,
}

pub struct UnsubscribeResponse {
    pub response_metadata: ResponseMetadata,
}

pub struct PublishResult {
    pub message_id: String,
}

pub struct PublishResponse {
    pub publish_result: PublishResult,
    pub response_metadata: ResponseMetadata,
}

pub struct Entry {
    pub key: String,
    pub value: String,
}

impl View for Entry {
    type V = (Seq<char>, Seq<char>);

    open spec fn view(&self) -> (Seq<char>, Seq<char>) {
        (self.key@, self.value@)
    }
}

impl DeepView for Entry {
    type V = (Seq<char>, Seq<char>);

    open spec fn deep_view(&self) -> (Seq<char>, Seq<char>) {
        self.view()
    }
}

pub struct Attributes {
    pub entry: Vec<Entry>,
}

pub struct GetTopicAttributesResult {
    pub attributes: Attributes,
}

pub struct GetTopicAttributesResponse {
    pub get_topic_attributes_result: GetTopicAttributesResult,
    pub response_metadata: ResponseMetadata,
}

// ---------------------------------------------------------------------------
// Render specs.
// ---------------------------------------------------------------------------

/// The rendered body of a CreateTopic success.
pub open spec fn create_topic_xml(arn: Seq<char>, rid: Seq<char>) -> Seq<char> {
    success_xml(
        "CreateTopicResponse"@,
        elem("CreateTopicResult"@, elem("TopicArn"@, escape_seq(arn))),
        rid,
    )
}

/// The rendered body of a DeleteTopic success (no result element).
pub open spec fn delete_topic_xml(rid: Seq<char>) -> Seq<char> {
    success_xml("DeleteTopicResponse"@, Seq::empty(), rid)
}

/// The member elements of a topic-ARN listing, in order.
pub open spec fn arn_members_xml(arns: Seq<Seq<char>>) -> Seq<char>
    decreases arns.len(),
{
    if arns.len() == 0 {
        Seq::empty()
    } else {
        arn_members_xml(arns.drop_last()) + elem(
            "member"@,
            elem("TopicArn"@, escape_seq(arns.last())),
        )
    }
}

/// The rendered body of a ListTopics success; the next-token element is
/// always present and always empty, since listing is not paginated.
pub open spec fn list_topics_xml(arns: Seq<Seq<char>>, rid: Seq<char>) -> Seq<char> {
    success_xml(
        "ListTopicsResponse"@,
        elem(
            "ListTopicsResult"@,
            elem("Topics"@, arn_members_xml(arns)) + elem("NextToken"@, Seq::empty()),
        ),
        rid,
    )
}

/// The rendered body of a Subscribe success.
pub open spec fn subscribe_xml(subscription_arn: Seq<char>, rid: Seq<char>) -> Seq<char> {
    success_xml(
        "SubscribeResponse"@,
        elem("SubscribeResult"@, elem("SubscriptionArn"@, escape_seq(subscription_arn))),
        rid,
    )
}

/// The rendered body of an Unsubscribe success (no result element).
pub open spec fn unsubscribe_xml(rid: Seq<char>) -> Seq<char> {
    success_xml("UnsubscribeResponse"@, Seq::empty(), rid)
}

/// The rendered body of a Publish success.
pub open spec fn publish_xml(message_id: Seq<char>, rid: Seq<char>) -> Seq<char> {
    success_xml(
        "PublishResponse"@,
        elem("PublishResult"@, elem("MessageId"@, escape_seq(message_id))),
        rid,
    )
}

/// The key/value entry elements of an attribute listing, in order.
pub open spec fn entries_xml(es: Seq<(Seq<char>, Seq<char>)>) -> Seq<char>
    decreases es.len(),
{
    if es.len() == 0 {
        Seq::empty()
    } else {
        entries_xml(es.drop_last()) + entry_xml(es.last().0, es.last().1)
    }
}

/// The rendered body of a GetTopicAttributes success.
pub open spec fn get_topic_attributes_xml(es: Seq<(Seq<char>, Seq<char>)>, rid: Seq<char>) -> Seq<
    char,
> {
    success_xml(
        "GetTopicAttributesResponse"@,
        elem("GetTopicAttributesResult"@, elem("Attributes"@, entries_xml(es))),
        rid,
    )
}

/// The rendered body of a SetTopicAttributes success (no result element).
pub open spec fn set_topic_attributes_xml(rid: Seq<char>) -> Seq<char> {
    success_xml("SetTopicAttributesResponse"@, Seq::empty(), rid)
}

/// The member elements of a tag listing, in order.
pub open spec fn tag_members_xml(tags: Seq<(Seq<char>, Seq<char>)>) -> Seq<char>
    decreases tags.len(),
{
    if tags.len() == 0 {
        Seq::empty()
    } else {
        tag_members_xml(tags.drop_last()) + elem(
            "member"@,
            elem("Key"@, escape_seq(tags.last().0)) + elem("Value"@, escape_seq(tags.last().1)),
        )
    }
}

/// The rendered body of a ListTagsForResource success.
pub open spec fn list_tags_xml(tags: Seq<(Seq<char>, Seq<char>)>, rid: Seq<char>) -> Seq<char> {
    success_xml(
        "ListTagsForResourceResponse"@,
        elem("ListTagsForResourceResult"@, elem("Tags"@, tag_members_xml(tags))),
        rid,
    )
}

/// The rendered body of a TagResource success (empty result element).
pub open spec fn tag_resource_xml(rid: Seq<char>) -> Seq<char> {
    success_xml("TagResourceResponse"@, elem("TagResourceResult"@, Seq::empty()), rid)
}

/// The rendered body of an UntagResource success (empty result element).
pub open spec fn untag_resource_xml(rid: Seq<char>) -> Seq<char> {
    success_xml("UntagResourceResponse"@, elem("UntagResourceResult"@, Seq::empty()), rid)
}

/// The fixed attribute set rendered for one subscription.
pub open spec fn subscription_attribute_entries(s: SubscriptionV) -> Seq<(Seq<char>, Seq<char>)> {
    seq![
        ("SubscriptionArn"@, s.subscription_arn),
        ("TopicArn"@, s.arn),
        ("Owner"@, "000000000000"@),
        ("ConfirmationWasAuthenticated"@, "true"@),
        ("PendingConfirmation"@, "false"@),
        ("Protocol"@, s.protocol),
        ("Endpoint"@, s.endpoint),
    ]
}

/// The rendered body of a GetSubscriptionAttributes success.
pub open spec fn get_subscription_attributes_xml(s: SubscriptionV, rid: Seq<char>) -> Seq<char> {
    success_xml(
        "GetSubscriptionAttributesResponse"@,
        elem(
            "GetSubscriptionAttributesResult"@,
            elem("Attributes"@, entries_xml(subscription_attribute_entries(s))),
        ),
        rid,
    )
}

/// One member element of a subscription listing.
pub open spec fn sub_member_xml(s: SubscriptionV) -> Seq<char> {
    elem(
        "member"@,
        elem("TopicArn"@, escape_seq(s.arn)) + elem("Protocol"@, escape_seq(s.protocol)) + elem(
            "SubscriptionArn"@,
            escape_seq(s.subscription_arn),
        ) + elem("Owner"@, escape_seq("000000000000"@)) + elem("Endpoint"@, escape_seq(s.endpoint)),
    )
}

/// The member elements of a subscription listing, in order.
pub open spec fn sub_members_xml(ss: Seq<SubscriptionV>) -> Seq<char>
    decreases ss.len(),
{
    if ss.len() == 0 {
        Seq::empty()
    } else {
        sub_members_xml(ss.drop_last()) + sub_member_xml(ss.last())
    }
}

/// The rendered body of a ListSubscriptionsByTopic success.
pub open spec fn list_subscriptions_xml(ss: Seq<SubscriptionV>, rid: Seq<char>) -> Seq<char> {
    success_xml(
        "ListSubscriptionsByTopicResponse"@,
        elem("ListSubscriptionsByTopicResult"@, elem("Subscriptions"@, sub_members_xml(ss))),
        rid,
    )
}

// ---------------------------------------------------------------------------
// Renderers.
// ---------------------------------------------------------------------------

impl CreateTopicResponse {
    /// Renders the full response body.
    pub fn to_xml(&self) -> (r: String)
        ensures
            r@ == create_topic_xml(self.create_topic_result.topic_arn@, self.response_metadata.request_id@),
    {
        let mut out = String::new();
        push_open_ns(&mut out, "CreateTopicResponse", "https://sns.amazonaws.com/doc/2010-03-31/");
        push_open(&mut out, "CreateTopicResult");
        push_text_elem(&mut out, "TopicArn", self.create_topic_result.topic_arn.as_str());
        push_close(&mut out, "CreateTopicResult");
        push_response_metadata(&mut out, self.response_metadata.request_id.as_str());
        push_close(&mut out, "CreateTopicResponse");
        proof {
            assert(out@ =~= create_topic_xml(
                self.create_topic_result.topic_arn@,
                self.response_metadata.request_id@,
            ));
        }
        out
    }
}

impl DeleteTopicResponse {
    /// Renders the full response body.
    pub fn to_xml(&self) -> (r: String)
        ensures
            r@ == delete_topic_xml(self.response_metadata.request_id@),
    {
        let mut out = String::new();
        push_open_ns(&mut out, "DeleteTopicResponse", "https://sns.amazonaws.com/doc/2010-03-31/");
        push_response_metadata(&mut out, self.response_metadata.request_id.as_str());
        push_close(&mut out, "DeleteTopicResponse");
        proof {
            assert(out@ =~= delete_topic_xml(self.response_metadata.request_id@));
        }
        out
    }
}

impl ListTopicsResponse {
    /// Renders the full response body; the next-token element is always
    /// rendered empty.
    #[verifier::rlimit(60)]
    pub fn to_xml(&self) -> (r: String)
        ensures
            r@ == list_topics_xml(
                self.list_topics_result.topics.member.deep_view(),
                self.response_metadata.request_id@,
            ),
    {
        let mut out = String::new();
        push_open_ns(&mut out, "ListTopicsResponse", "https://sns.amazonaws.com/doc/2010-03-31/");
        push_open(&mut out, "ListTopicsResult");
        push_open(&mut out, "Topics");
        let ms = &self.list_topics_result.topics.member;
        let n = ms.len();
        let mut i: usize = 0;
        let ghost base = out@;
        proof {
            assert(out@ =~= base + arn_members_xml(ms.deep_view().subrange(0, 0)));
        }
        while i < n
            invariant
                n == ms.len(),
                i <= n,
                ms.deep_view().len() == n,
                out@ == base + arn_members_xml(ms.deep_view().subrange(0, i as int)),
            decreases n - i,
        {
            push_open(&mut out, "member");
            push_text_elem(&mut out, "TopicArn", ms[i].topic_arn.as_str());
            push_close(&mut out, "member");
            proof {
                let mv = ms.deep_view();
                assert(mv.subrange(0, (i + 1) as int).drop_last() =~= mv.subrange(0, i as int));
                assert(mv.subrange(0, (i + 1) as int).last() == mv[i as int]);
                assert(mv[i as int] == ms@[i as int].deep_view());
                assert(out@ =~= base + arn_members_xml(mv.subrange(0, (i + 1) as int)));
            }
            i += 1;
        }
        proof {
            assert(ms.deep_view().subrange(0, n as int) =~= ms.deep_view());
        }
        push_close(&mut out, "Topics");
        push_open(&mut out, "NextToken");
        push_close(&mut out, "NextToken");
        push_close(&mut out, "ListTopicsResult");
        push_response_metadata(&mut out, self.response_metadata.request_id.as_str());
        push_close(&mut out, "ListTopicsResponse");
        proof {
            assert(out@ =~= list_topics_xml(
                self.list_topics_result.topics.member.deep_view(),
                self.response_metadata.request_id@,
            ));
        }
        out
    }
}

impl SubscribeResponse {
    /// Renders the full response body.
    pub fn to_xml(&self) -> (r: String)
        ensures
            r@ == subscribe_xml(
                self.subscribe_result.subscription_arn@,
                self.response_metadata.request_id@,
            ),
    {
        let mut out = String::new();
        push_open_ns(&mut out, "SubscribeResponse", "https://sns.amazonaws.com/doc/2010-03-31/");
        push_open(&mut out, "SubscribeResult");
        push_text_elem(&mut out, "SubscriptionArn", self.subscribe_result.subscription_arn.as_str());
        push_close(&mut out, "SubscribeResult");
        push_response_metadata(&mut out, self.response_metadata.request_id.as_str());
        push_close(&mut out, "SubscribeResponse");
        proof {
            assert(out@ =~= subscribe_xml(
                self.subscribe_result.subscription_arn@,
                self.response_metadata.request_id@,
            ));
        }
        out
    }
}

impl UnsubscribeResponse {
    /// Renders the full response body.
    pub fn to_xml(&self) -> (r: String)
        ensures
            r@ == unsubscribe_xml(self.response_metadata.request_id@),
    {
        let mut out = String::new();
        push_open_ns(&mut out, "UnsubscribeResponse", "https://sns.amazonaws.com/doc/2010-03-31/");
        push_response_metadata(&mut out, self.response_metadata.request_id.as_str());
        push_close(&mut out, "UnsubscribeResponse");
        proof {
            assert(out@ =~= unsubscribe_xml(self.response_metadata.request_id@));
        }
        out
    }
}

impl PublishResponse {
    /// Renders the full response body.
    pub fn to_xml(&self) -> (r: String)
        ensures
            r@ == publish_xml(self.publish_result.message_id@, self.response_metadata.request_id@),
    {
        let mut out = String::new();
        push_open_ns(&mut out, "PublishResponse", "https://sns.amazonaws.com/doc/2010-03-31/");
        push_open(&mut out, "PublishResult");
        push_text_elem(&mut out, "MessageId", self.publish_result.message_id.as_str());
        push_close(&mut out, "PublishResult");
        push_response_metadata(&mut out, self.response_metadata.request_id.as_str());
        push_close(&mut out, "PublishResponse");
        proof {
            assert(out@ =~= publish_xml(
                self.publish_result.message_id@,
                self.response_metadata.request_id@,
            ));
        }
        out
    }
}

/// Appends every entry element of `es` to `out`, in order.
pub fn push_entries(out: &mut String, es: &Vec<Entry>)
    ensures
        final(out)@ == old(out)@ + entries_xml(es.deep_view()),
{
    let n = es.len();
    let mut i: usize = 0;
    let ghost base = old(out)@;
    proof {
        assert(out@ =~= base + entries_xml(es.deep_view().subrange(0, 0)));
    }
    while i < n
        invariant
            n == es.len(),
            i <= n,
            es.deep_view().len() == n,
            out@ == base + entries_xml(es.deep_view().subrange(0, i as int)),
        decreases n - i,
    {
        push_entry(out, es[i].key.as_str(), es[i].value.as_str());
        proof {
            let ev = es.deep_view();
            assert(ev.subrange(0, (i + 1) as int).drop_last() =~= ev.subrange(0, i as int));
            assert(ev.subrange(0, (i + 1) as int).last() == ev[i as int]);
            assert(ev[i as int] == es@[i as int].deep_view());
            assert(out@ =~= base + entries_xml(ev.subrange(0, (i + 1) as int)));
        }
        i += 1;
    }
    proof {
        assert(es.deep_view().subrange(0, n as int) =~= es.deep_view());
    }
}

/// Appends every tag member element of `tags` to `out`, in order.
pub fn push_tag_members(out: &mut String, tags: &Vec<crate::state::TagEntry>)
    ensures
        final(out)@ == old(out)@ + tag_members_xml(tags.deep_view()),
{
    let n = tags.len();
    let mut i: usize = 0;
    let ghost base = old(out)@;
    proof {
        assert(out@ =~= base + tag_members_xml(tags.deep_view().subrange(0, 0)));
    }
    while i < n
        invariant
            n == tags.len(),
            i <= n,
            tags.deep_view().len() == n,
            out@ == base + tag_members_xml(tags.deep_view().subrange(0, i as int)),
        decreases n - i,
    {
        push_open(out, "member");
        push_text_elem(out, "Key", tags[i].key.as_str());
        push_text_elem(out, "Value", tags[i].value.as_str());
        push_close(out, "member");
        proof {
            let tv = tags.deep_view();
            assert(tv.subrange(0, (i + 1) as int).drop_last() =~= tv.subrange(0, i as int));
            assert(tv.subrange(0, (i + 1) as int).last() == tv[i as int]);
            assert(tv[i as int] == tags@[i as int].deep_view());
            assert(out@ =~= base + tag_members_xml(tv.subrange(0, (i + 1) as int)));
        }
        i += 1;
    }
    proof {
        assert(tags.deep_view().subrange(0, n as int) =~= tags.deep_view());
    }
}

/// Appends one subscription member element to `out`.
fn push_one_sub_member(out: &mut String, s: &crate::state::Subscription)
    ensures
        final(out)@ == old(out)@ + sub_member_xml(s@),
{
    push_open(out, "member");
    push_text_elem(out, "TopicArn", s.arn.as_str());
    push_text_elem(out, "Protocol", s.protocol.as_str());
    push_text_elem(out, "SubscriptionArn", s.subscription_arn.as_str());
    push_text_elem(out, "Owner", "000000000000");
    push_text_elem(out, "Endpoint", s.endpoint.as_str());
    push_close(out, "member");
    proof {
        assert(final(out)@ =~= old(out)@ + sub_member_xml(s@));
    }
}

/// Appends every subscription member element of `ss` to `out`, in order.
pub fn push_sub_members(out: &mut String, ss: &Vec<crate::state::Subscription>)
    ensures
        final(out)@ == old(out)@ + sub_members_xml(ss.deep_view()),
{
    let n = ss.len();
    let mut i: usize = 0;
    let ghost base = old(out)@;
    proof {
        assert(out@ =~= base + sub_members_xml(ss.deep_view().subrange(0, 0)));
    }
    while i < n
        invariant
            n == ss.len(),
            i <= n,
            ss.deep_view().len() == n,
            out@ == base + sub_members_xml(ss.deep_view().subrange(0, i as int)),
        decreases n - i,
    {
        push_one_sub_member(out, &ss[i]);
        proof {
            let sv = ss.deep_view();
            assert(sv.subrange(0, (i + 1) as int).drop_last() =~= sv.subrange(0, i as int));
            assert(sv.subrange(0, (i + 1) as int).last() == sv[i as int]);
            assert(sv[i as int] == ss@[i as int].deep_view());
            assert(out@ =~= base + sub_members_xml(sv.subrange(0, (i + 1) as int)));
        }
        i += 1;
    }
    proof {
        assert(ss.deep_view().subrange(0, n as int) =~= ss.deep_view());
    }
}

impl GetTopicAttributesResponse {
    /// Renders the full response body.
    #[verifier::rlimit(60)]
    pub fn to_xml(&self) -> (r: String)
        ensures
            r@ == get_topic_attributes_xml(
                self.get_topic_attributes_result.attributes.entry.deep_view(),
                self.response_metadata.request_id@,
            ),
    {
        let mut out = String::new();
        push_open_ns(
            &mut out,
            "GetTopicAttributesResponse",
            "https://sns.amazonaws.com/doc/2010-03-31/",
        );
        push_open(&mut out, "GetTopicAttributesResult");
        push_open(&mut out, "Attributes");
        push_entries(&mut out, &self.get_topic_attributes_result.attributes.entry);
        push_close(&mut out, "Attributes");
        push_close(&mut out, "GetTopicAttributesResult");
        push_response_metadata(&mut out, self.response_metadata.request_id.as_str());
        push_close(&mut out, "GetTopicAttributesResponse");
        proof {
            assert(out@ =~= get_topic_attributes_xml(
                self.get_topic_attributes_result.attributes.entry.deep_view(),
                self.response_metadata.request_id@,
            ));
        }
        out
    }
}

} // verus!
