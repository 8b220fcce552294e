//! The data model: topics, subscriptions, tags, decoded requests, and the
//! in-memory registry that owns them. Each executable type has a ghost view,
//! and the registry's operations are specified over those views.

use vstd::prelude::*;
use crate::arn_of;

verus! {

/// One binding of a delivery endpoint and protocol to a topic.
pub struct Subscription {
    pub endpoint: String,
    pub protocol: String,
    pub arn: String,
    pub subscription_arn: String,
}

#[verifier::ext_equal]
pub ghost struct SubscriptionV {
    pub endpoint: Seq<char>,
    pub protocol: Seq<char>,
    pub arn: Seq<char>,
    pub subscription_arn: Seq<char>,
}

impl View for Subscription {
    type V = SubscriptionV;

    open spec fn view(&self) -> SubscriptionV {
        SubscriptionV {
            endpoint: self.endpoint@,
            protocol: self.protocol@,
            arn: self.arn@,
            subscription_arn: self.subscription_arn@,
        }
    }
}

impl DeepView for Subscription {
    type V = SubscriptionV;

    open spec fn deep_view(&self) -> SubscriptionV {
        self.view()
    }
}

/// One tag: a key/value pair of strings.
pub struct TagEntry {
    pub key: String,
    pub value: String,
}

impl View for TagEntry {
    type V = (Seq<char>, Seq<char>);

    open spec fn view(&self) -> (Seq<char>, Seq<char>) {
        (self.key@, self.value@)
    }
}

impl DeepView for TagEntry {
    type V = (Seq<char>, Seq<char>);

    open spec fn deep_view(&self) -> (Seq<char>, Seq<char>) {
        self.view()
    }
}

/// One attribute entry of a decoded `Attributes.entry.<n>.<field>` group.
pub struct AttributeEntry {
    pub key: String,
    pub value: String,
}

impl View for AttributeEntry {
    type V = (Seq<char>, Seq<char>);

    open spec fn view(&self) -> (Seq<char>, Seq<char>) {
        (self.key@, self.value@)
    }
}

impl DeepView for AttributeEntry {
    type V = (Seq<char>, Seq<char>);

    open spec fn deep_view(&self) -> (Seq<char>, Seq<char>) {
        self.view()
    }
}

/// A named, addressable notification channel with its mutable attributes,
/// tags, and subscriptions.
pub struct Topic {
    pub name: String,
    pub arn: String,
    pub tags: Vec<TagEntry>,
    pub subscriptions: Vec<Subscription>,
    pub display_name: Option<String>,
    pub policy: Option<String>,
    pub delivery_policy: Option<String>,
    pub tracing_config: Option<String>,
    pub firehose_failure_feedback_role_arn: Option<String>,
    pub firehose_success_feedback_role_arn: Option<String>,
    pub firehose_success_feedback_sample_rate: Option<String>,
    pub http_failure_feedback_role_arn: Option<String>,
    pub sqs_failure_feedback_role_arn: Option<String>,
    pub sqs_success_feedback_role_arn: Option<String>,
    pub sqs_success_feedback_sample_rate: Option<String>,
    pub http_success_feedback_role_arn: Option<String>,
    pub http_success_feedback_sample_rate: Option<String>,
    pub application_failure_feedback_role_arn: Option<String>,
    pub application_success_feedback_role_arn: Option<String>,
    pub application_success_feedback_sample_rate: Option<String>,
    pub lambda_failure_feedback_role_arn: Option<String>,
    pub lambda_success_feedback_role_arn: Option<String>,
    pub lambda_success_feedback_sample_rate: Option<String>,
    pub kms_master_key_id: Option<String>,
    pub signature_version: Option<String>,
    pub content_based_deduplication: Option<String>,
    pub fifo_topic: Option<String>,
    pub archive_policy: Option<String>,
    pub fifo_throughput_scope: Option<String>,
}

#[verifier::ext_equal]
pub ghost struct TopicV {
    pub name: Seq<char>,
    pub arn: Seq<char>,
    pub tags: Seq<(Seq<char>, Seq<char>)>,
    pub subscriptions: Seq<SubscriptionV>,
    pub display_name: Option<Seq<char>>,
    pub policy: Option<Seq<char>>,
    pub delivery_policy: Option<Seq<char>>,
    pub tracing_config: Option<Seq<char>>,
    pub firehose_failure_feedback_role_arn: Option<Seq<char>>,
    pub firehose_success_feedback_role_arn: Option<Seq<char>>,
    pub firehose_success_feedback_sample_rate: Option<Seq<char>>,
    pub http_failure_feedback_role_arn: Option<Seq<char>>,
    pub sqs_failure_feedback_role_arn: Option<Seq<char>>,
    pub sqs_success_feedback_role_arn: Option<Seq<char>>,
    pub sqs_success_feedback_sample_rate: Option<Seq<char>>,
    pub http_success_feedback_role_arn: Option<Seq<char>>,
    pub http_success_feedback_sample_rate: Option<Seq<char>>,
    pub application_failure_feedback_role_arn: Option<Seq<char>>,
    pub application_success_feedback_role_arn: Option<Seq<char>>,
    pub application_success_feedback_sample_rate: Option<Seq<char>>,
    pub lambda_failure_feedback_role_arn: Option<Seq<char>>,
    pub lambda_success_feedback_role_arn: Option<Seq<char>>,
    pub lambda_success_feedback_sample_rate: Option<Seq<char>>,
    pub kms_master_key_id: Option<Seq<char>>,
    pub signature_version: Option<Seq<char>>,
    pub content_based_deduplication: Option<Seq<char>>,
    pub fifo_topic: Option<Seq<char>>,
    pub archive_policy: Option<Seq<char>>,
    pub fifo_throughput_scope: Option<Seq<char>>,
}

impl View for Topic {
    type V = TopicV;

    open spec fn view(&self) -> TopicV {
        TopicV {
            name: self.name@,
            arn: self.arn@,
            tags: self.tags.deep_view(),
            subscriptions: self.subscriptions.deep_view(),
            display_name: self.display_name.deep_view(),
            policy: self.policy.deep_view(),
            delivery_policy: self.delivery_policy.deep_view(),
            tracing_config: self.tracing_config.deep_view(),
            firehose_failure_feedback_role_arn: self.firehose_failure_feedback_role_arn.deep_view(),
            firehose_success_feedback_role_arn: self.firehose_success_feedback_role_arn.deep_view(),
            firehose_success_feedback_sample_rate: self.firehose_success_feedback_sample_rate.deep_view(),
            http_failure_feedback_role_arn: self.http_failure_feedback_role_arn.deep_view(),
            sqs_failure_feedback_role_arn: self.sqs_failure_feedback_role_arn.deep_view(),
            sqs_success_feedback_role_arn: self.sqs_success_feedback_role_arn.deep_view(),
            sqs_success_feedback_sample_rate: self.sqs_success_feedback_sample_rate.deep_view(),
            http_success_feedback_role_arn: self.http_success_feedback_role_arn.deep_view(),
            http_success_feedback_sample_rate: self.http_success_feedback_sample_rate.deep_view(),
            application_failure_feedback_role_arn: self.application_failure_feedback_role_arn.deep_view(),
            application_success_feedback_role_arn: self.application_success_feedback_role_arn.deep_view(),
            application_success_feedback_sample_rate: self.application_success_feedback_sample_rate.deep_view(),
            lambda_failure_feedback_role_arn: self.lambda_failure_feedback_role_arn.deep_view(),
            lambda_success_feedback_role_arn: self.lambda_success_feedback_role_arn.deep_view(),
            lambda_success_feedback_sample_rate: self.lambda_success_feedback_sample_rate.deep_view(),
            kms_master_key_id: self.kms_master_key_id.deep_view(),
            signature_version: self.signature_version.deep_view(),
            content_based_deduplication: self.content_based_deduplication.deep_view(),
            fifo_topic: self.fifo_topic.deep_view(),
            archive_policy: self.archive_policy.deep_view(),
            fifo_throughput_scope: self.fifo_throughput_scope.deep_view(),
        }
    }
}

impl DeepView for Topic {
    type V = TopicV;

    open spec fn deep_view(&self) -> TopicV {
        self.view()
    }
}

/// An ephemeral published message; it exists only for the duration of one
/// publish call and is never stored.
pub struct Message {
    pub id: String,
    pub subject: Option<String>,
    pub body: String,
    pub timestamp: i64,
}

#[verifier::ext_equal]
pub ghost struct MessageV {
    pub id: Seq<char>,
    pub subject: Option<Seq<char>>,
    pub body: Seq<char>,
    pub timestamp: i64,
}

impl View for Message {
    type V = MessageV;

    open spec fn view(&self) -> MessageV {
        MessageV {
            id: self.id@,
            subject: self.subject.deep_view(),
            body: self.body@,
            timestamp: self.timestamp,
        }
    }
}

impl DeepView for Message {
    type V = MessageV;

    open spec fn deep_view(&self) -> MessageV {
        self.view()
    }
}

/// A decoded request: the action name, the flat scalar fields, and the three
/// repeating groups (each absent when no key of the group matched).
pub struct SnsRequest {
    pub action: String,
    pub name: Option<String>,
    pub topic_arn: Option<String>,
    pub resource_arn: Option<String>,
    pub endpoint: Option<String>,
    pub protocol: Option<String>,
    pub subscription_arn: Option<String>,
    pub message: Option<String>,
    pub subject: Option<String>,
    pub attribute_name: Option<String>,
    pub attribute_value: Option<String>,
    pub attributes_entry: Option<Vec<AttributeEntry>>,
    pub tags_entry: Option<Vec<TagEntry>>,
    pub tag_keys_entry: Option<Vec<String>>,
}

#[verifier::ext_equal]
pub ghost struct SnsRequestV {
    pub action: Seq<char>,
    pub name: Option<Seq<char>>,
    pub topic_arn: Option<Seq<char>>,
    pub resource_arn: Option<Seq<char>>,
    pub endpoint: Option<Seq<char>>,
    pub protocol: Option<Seq<char>>,
    pub subscription_arn: Option<Seq<char>>,
    pub message: Option<Seq<char>>,
    pub subject: Option<Seq<char>>,
    pub attribute_name: Option<Seq<char>>,
    pub attribute_value: Option<Seq<char>>,
    pub attributes_entry: Option<Seq<(Seq<char>, Seq<char>)>>,
    pub tags_entry: Option<Seq<(Seq<char>, Seq<char>)>>,
    pub tag_keys_entry: Option<Seq<Seq<char>>>,
}

impl View for SnsRequest {
    type V = SnsRequestV;

    open spec fn view(&self) -> SnsRequestV {
        SnsRequestV {
            action: self.action@,
            name: self.name.deep_view(),
            topic_arn: self.topic_arn.deep_view(),
            resource_arn: self.resource_arn.deep_view(),
            endpoint: self.endpoint.deep_view(),
            protocol: self.protocol.deep_view(),
            subscription_arn: self.subscription_arn.deep_view(),
            message: self.message.deep_view(),
            subject: self.subject.deep_view(),
            attribute_name: self.attribute_name.deep_view(),
            attribute_value: self.attribute_value.deep_view(),
            attributes_entry: self.attributes_entry.deep_view(),
            tags_entry: self.tags_entry.deep_view(),
            tag_keys_entry: self.tag_keys_entry.deep_view(),
        }
    }
}

impl DeepView for SnsRequest {
    type V = SnsRequestV;

    open spec fn deep_view(&self) -> SnsRequestV {
        self.view()
    }
}

// ---------------------------------------------------------------------------
// Tag maps, modelled as key-unique sequences of pairs.
// ---------------------------------------------------------------------------

/// The keys of `tags` are pairwise distinct.
pub open spec fn tags_wf(tags: Seq<(Seq<char>, Seq<char>)>) -> bool {
    forall|i: int, j: int| 0 <= i < j < tags.len() ==> tags[i].0 != tags[j].0
}

/// The first index holding key `k`, if any.
pub open spec fn find_tag(tags: Seq<(Seq<char>, Seq<char>)>, k: Seq<char>) -> Option<int>
    decreases tags.len(),
{
    if tags.len() == 0 {
        None
    } else if tags[0].0 == k {
        Some(0)
    } else {
        match find_tag(tags.drop_first(), k) {
            Some(i) => Some(i + 1),
            None => None,
        }
    }
}

/// The value stored under key `k`, if any.
pub open spec fn tag_lookup(tags: Seq<(Seq<char>, Seq<char>)>, k: Seq<char>) -> Option<Seq<char>> {
    match find_tag(tags, k) {
        Some(i) => Some(tags[i].1),
        None => None,
    }
}

/// Inserting `(k, v)`: overwrite in place when the key exists, append
/// otherwise.
pub open spec fn tags_insert(
    tags: Seq<(Seq<char>, Seq<char>)>,
    k: Seq<char>,
    v: Seq<char>,
) -> Seq<(Seq<char>, Seq<char>)> {
    match find_tag(tags, k) {
        Some(i) => tags.update(i, (k, v)),
        None => tags.push((k, v)),
    }
}

/// Removing key `k`: a no-op when the key is absent.
pub open spec fn tags_remove(tags: Seq<(Seq<char>, Seq<char>)>, k: Seq<char>) -> Seq<
    (Seq<char>, Seq<char>),
> {
    match find_tag(tags, k) {
        Some(i) => tags.remove(i),
        None => tags,
    }
}

/// Merging a list of entries into a tag map, first to last, overwriting by
/// key.
pub open spec fn tags_merge(
    tags: Seq<(Seq<char>, Seq<char>)>,
    entries: Seq<(Seq<char>, Seq<char>)>,
) -> Seq<(Seq<char>, Seq<char>)>
    decreases entries.len(),
{
    if entries.len() == 0 {
        tags
    } else {
        tags_insert(tags_merge(tags, entries.drop_last()), entries.last().0, entries.last().1)
    }
}

/// Removing a list of keys from a tag map, first to last.
pub open spec fn tags_remove_keys(
    tags: Seq<(Seq<char>, Seq<char>)>,
    keys: Seq<Seq<char>>,
) -> Seq<(Seq<char>, Seq<char>)>
    decreases keys.len(),
{
    if keys.len() == 0 {
        tags
    } else {
        tags_remove(tags_remove_keys(tags, keys.drop_last()), keys.last())
    }
}

/// The tag map built from a request's tag entries (empty when the group is
/// absent).
pub open spec fn tags_of_entries(entries: Option<Seq<(Seq<char>, Seq<char>)>>) -> Seq<
    (Seq<char>, Seq<char>),
> {
    match entries {
        Some(es) => tags_merge(Seq::empty(), es),
        None => Seq::empty(),
    }
}

pub broadcast proof fn lemma_find_tag_props(tags: Seq<(Seq<char>, Seq<char>)>, k: Seq<char>)
    ensures
        match #[trigger] find_tag(tags, k) {
            Some(i) => 0 <= i < tags.len() && tags[i].0 == k && forall|j: int|
                0 <= j < i ==> tags[j].0 != k,
            None => forall|j: int| 0 <= j < tags.len() ==> tags[j].0 != k,
        },
    decreases tags.len(),
{
    if tags.len() > 0 && tags[0].0 != k {
        let d = tags.drop_first();
        lemma_find_tag_props(d, k);
        match find_tag(d, k) {
            Some(i) => {
                assert(tags[i + 1] == d[i]);
                assert forall|j: int| 0 <= j < i + 1 implies tags[j].0 != k by {
                    if j > 0 {
                        assert(tags[j] == d[j - 1]);
                    }
                }
            },
            None => {
                assert forall|j: int| 0 <= j < tags.len() implies tags[j].0 != k by {
                    if j > 0 {
                        assert(tags[j] == d[j - 1]);
                    }
                }
            },
        }
    }
}

pub proof fn lemma_tags_insert_wf(tags: Seq<(Seq<char>, Seq<char>)>, k: Seq<char>, v: Seq<char>)
    requires
        tags_wf(tags),
    ensures
        tags_wf(tags_insert(tags, k, v)),
        tag_lookup(tags_insert(tags, k, v), k) == Some(v),
{
    lemma_find_tag_props(tags, k);
    let r = tags_insert(tags, k, v);
    match find_tag(tags, k) {
        Some(i) => {
            assert forall|a: int, b: int| 0 <= a < b < r.len() implies r[a].0 != r[b].0 by {}
            lemma_find_tag_props(r, k);
            assert(r[i].0 == k);
            match find_tag(r, k) {
                Some(ri) => {
                    if ri < i {
                        assert(r[ri] == tags[ri]);
                        assert(false);
                    } else if ri > i {
                        assert(r[i].0 != k);
                        assert(false);
                    }
                    assert(r[ri] == (k, v));
                },
                None => {
                    assert(false);
                },
            }
        },
        None => {
            assert forall|a: int, b: int| 0 <= a < b < r.len() implies r[a].0 != r[b].0 by {
                if b == r.len() - 1 {
                    assert(tags[a].0 != k);
                }
            }
            lemma_find_tag_props(r, k);
            assert(r[tags.len() as int].0 == k);
            match find_tag(r, k) {
                Some(ri) => {
                    if ri < tags.len() {
                        assert(r[ri] == tags[ri]);
                        assert(false);
                    }
                    assert(r[ri] == (k, v));
                },
                None => {
                    assert(false);
                },
            }
        },
    }
}

pub proof fn lemma_tags_remove_wf(tags: Seq<(Seq<char>, Seq<char>)>, k: Seq<char>)
    requires
        tags_wf(tags),
    ensures
        tags_wf(tags_remove(tags, k)),
        tag_lookup(tags_remove(tags, k), k) is None,
{
    lemma_find_tag_props(tags, k);
    let r = tags_remove(tags, k);
    match find_tag(tags, k) {
        Some(i) => {
            assert forall|a: int, b: int| 0 <= a < b < r.len() implies r[a].0 != r[b].0 by {
                let a0 = if a < i { a } else { a + 1 };
                let b0 = if b < i { b } else { b + 1 };
                assert(r[a] == tags[a0] && r[b] == tags[b0]);
            }
            lemma_find_tag_props(r, k);
            match find_tag(r, k) {
                Some(ri) => {
                    let o = if ri < i { ri } else { ri + 1 };
                    assert(r[ri] == tags[o]);
                    assert(tags[o].0 == k && tags[i].0 == k && o != i);
                    if o < i {
                        assert(tags[o].0 != tags[i].0);
                    } else {
                        assert(tags[i].0 != tags[o].0);
                    }
                    assert(false);
                },
                None => {},
            }
        },
        None => {},
    }
}

pub proof fn lemma_tags_merge_wf(
    tags: Seq<(Seq<char>, Seq<char>)>,
    entries: Seq<(Seq<char>, Seq<char>)>,
)
    requires
        tags_wf(tags),
    ensures
        tags_wf(tags_merge(tags, entries)),
    decreases entries.len(),
{
    if entries.len() > 0 {
        lemma_tags_merge_wf(tags, entries.drop_last());
        lemma_tags_insert_wf(
            tags_merge(tags, entries.drop_last()),
            entries.last().0,
            entries.last().1,
        );
    }
}

pub proof fn lemma_tags_remove_keys_wf(
    tags: Seq<(Seq<char>, Seq<char>)>,
    keys: Seq<Seq<char>>,
)
    requires
        tags_wf(tags),
    ensures
        tags_wf(tags_remove_keys(tags, keys)),
    decreases keys.len(),
{
    if keys.len() > 0 {
        lemma_tags_remove_keys_wf(tags, keys.drop_last());
        lemma_tags_remove_wf(tags_remove_keys(tags, keys.drop_last()), keys.last());
    }
}

/// The position of key `k` in `tags`, if present.
pub fn tags_find(tags: &Vec<TagEntry>, k: &str) -> (r: Option<usize>)
    ensures
        match r {
            Some(i) => find_tag(tags.deep_view(), k@) == Some(i as int),
            None => find_tag(tags.deep_view(), k@) is None,
        },
{
    proof {
        lemma_find_tag_props(tags.deep_view(), k@);
    }
    let n = tags.len();
    let mut i: usize = 0;
    while i < n
        invariant
            n == tags.len(),
            i <= n,
            tags.deep_view().len() == n,
            forall|j: int| 0 <= j < i ==> tags.deep_view()[j].0 != k@,
        decreases n - i,
    {
        if crate::strutil::str_eq(tags[i].key.as_str(), k) {
            proof {
                lemma_find_tag_props(tags.deep_view(), k@);
                assert(tags.deep_view()[i as int] == tags@[i as int].deep_view());
                assert(tags.deep_view()[i as int].0 == k@);
                match find_tag(tags.deep_view(), k@) {
                    Some(fi) => {
                        assert(fi >= i);
                        assert(fi <= i);
                    },
                    None => {
                        assert(tags.deep_view()[i as int].0 == k@);
                        assert(false);
                    },
                }
            }
            return Some(i);
        }
        i += 1;
    }
    proof {
        lemma_find_tag_props(tags.deep_view(), k@);
        if find_tag(tags.deep_view(), k@) is Some {
            let fi = find_tag(tags.deep_view(), k@)->Some_0;
            assert(tags.deep_view()[fi].0 == k@);
            assert(false);
        }
    }
    None
}

/// Inserts one tag, overwriting in place when the key exists.
pub fn tags_insert_exec(tags: &mut Vec<TagEntry>, k: String, v: String)
    ensures
        final(tags).deep_view() == tags_insert(old(tags).deep_view(), k@, v@),
{
    proof {
        lemma_find_tag_props(tags.deep_view(), k@);
    }
    let found = tags_find(tags, k.as_str());
    match found {
        Some(i) => {
            let _ = tags.remove(i);
            tags.insert(i, TagEntry { key: k, value: v });
            proof {
                assert(final(tags).deep_view() =~= tags_insert(old(tags).deep_view(), k@, v@));
            }
        },
        None => {
            tags.push(TagEntry { key: k, value: v });
            proof {
                assert(final(tags).deep_view() =~= tags_insert(old(tags).deep_view(), k@, v@));
            }
        },
    }
}

/// Removes one tag by key; absent keys are a no-op.
pub fn tags_remove_exec(tags: &mut Vec<TagEntry>, k: &str)
    ensures
        final(tags).deep_view() == tags_remove(old(tags).deep_view(), k@),
{
    proof {
        lemma_find_tag_props(tags.deep_view(), k@);
    }
    let found = tags_find(tags, k);
    match found {
        Some(i) => {
            let _ = tags.remove(i);
            proof {
                assert(final(tags).deep_view() =~= tags_remove(old(tags).deep_view(), k@));
            }
        },
        None => {},
    }
}

/// Merges a list of entries into a tag map, overwriting by key.
pub fn tags_merge_exec(tags: &mut Vec<TagEntry>, entries: &Vec<TagEntry>)
    ensures
        final(tags).deep_view() == tags_merge(old(tags).deep_view(), entries.deep_view()),
{
    let n = entries.len();
    let mut i: usize = 0;
    while i < n
        invariant
            n == entries.len(),
            i <= n,
            entries.deep_view().len() == n,
            tags.deep_view() == tags_merge(
                old(tags).deep_view(),
                entries.deep_view().subrange(0, i as int),
            ),
        decreases n - i,
    {
        tags_insert_exec(tags, entries[i].key.clone(), entries[i].value.clone());
        proof {
            let ev = entries.deep_view();
            assert(ev.subrange(0, (i + 1) as int).drop_last() =~= ev.subrange(0, i as int));
            assert(ev.subrange(0, (i + 1) as int).last() == ev[i as int]);
        }
        i += 1;
    }
    proof {
        assert(entries.deep_view().subrange(0, n as int) =~= entries.deep_view());
    }
}

/// Removes a list of keys from a tag map; absent keys are ignored.
pub fn tags_remove_keys_exec(tags: &mut Vec<TagEntry>, keys: &Vec<String>)
    ensures
        final(tags).deep_view() == tags_remove_keys(old(tags).deep_view(), keys.deep_view()),
{
    let n = keys.len();
    let mut i: usize = 0;
    while i < n
        invariant
            n == keys.len(),
            i <= n,
            keys.deep_view().len() == n,
            tags.deep_view() == tags_remove_keys(
                old(tags).deep_view(),
                keys.deep_view().subrange(0, i as int),
            ),
        decreases n - i,
    {
        tags_remove_exec(tags, keys[i].as_str());
        proof {
            let kv = keys.deep_view();
            assert(kv.subrange(0, (i + 1) as int).drop_last() =~= kv.subrange(0, i as int));
            assert(kv.subrange(0, (i + 1) as int).last() == kv[i as int]);
        }
        i += 1;
    }
    proof {
        assert(keys.deep_view().subrange(0, n as int) =~= keys.deep_view());
    }
}

// ---------------------------------------------------------------------------
// Topic well-formedness and the registry.
// ---------------------------------------------------------------------------

/// A topic's internal invariant: its ARN is derived from its name, and its
/// tag keys are unique.
pub open spec fn topic_wf(t: TopicV) -> bool {
    t.arn == arn_of(t.name) && tags_wf(t.tags)
}

/// The first index of the topic named `name`, if any.
pub open spec fn find_topic(ts: Seq<TopicV>, name: Seq<char>) -> Option<int>
    decreases ts.len(),
{
    if ts.len() == 0 {
        None
    } else if ts[0].name == name {
        Some(0)
    } else {
        match find_topic(ts.drop_first(), name) {
            Some(i) => Some(i + 1),
            None => None,
        }
    }
}

/// Inserting a topic under its name: overwrite in place when the name
/// exists, append otherwise.
pub open spec fn insert_topic(ts: Seq<TopicV>, t: TopicV) -> Seq<TopicV> {
    match find_topic(ts, t.name) {
        Some(i) => ts.update(i, t),
        None => ts.push(t),
    }
}

/// Removing the topic named `name`: a no-op when the name is absent.
pub open spec fn remove_topic(ts: Seq<TopicV>, name: Seq<char>) -> Seq<TopicV> {
    match find_topic(ts, name) {
        Some(i) => ts.remove(i),
        None => ts,
    }
}

/// Registry well-formedness: topic names are unique and every topic is
/// well-formed.
pub open spec fn registry_wf(ts: Seq<TopicV>) -> bool {
    &&& forall|i: int, j: int| 0 <= i < j < ts.len() ==> ts[i].name != ts[j].name
    &&& forall|i: int| 0 <= i < ts.len() ==> topic_wf(#[trigger] ts[i])
}

pub broadcast proof fn lemma_find_topic_props(ts: Seq<TopicV>, name: Seq<char>)
    ensures
        match #[trigger] find_topic(ts, name) {
            Some(i) => 0 <= i < ts.len() && ts[i].name == name && forall|j: int|
                0 <= j < i ==> ts[j].name != name,
            None => forall|j: int| 0 <= j < ts.len() ==> ts[j].name != name,
        },
    decreases ts.len(),
{
    if ts.len() > 0 && ts[0].name != name {
        let d = ts.drop_first();
        lemma_find_topic_props(d, name);
        match find_topic(d, name) {
            Some(i) => {
                assert(ts[i + 1] == d[i]);
                assert forall|j: int| 0 <= j < i + 1 implies ts[j].name != name by {
                    if j > 0 {
                        assert(ts[j] == d[j - 1]);
                    }
                }
            },
            None => {
                assert forall|j: int| 0 <= j < ts.len() implies ts[j].name != name by {
                    if j > 0 {
                        assert(ts[j] == d[j - 1]);
                    }
                }
            },
        }
    }
}

pub proof fn lemma_insert_topic_wf(ts: Seq<TopicV>, t: TopicV)
    requires
        registry_wf(ts),
        topic_wf(t),
    ensures
        registry_wf(insert_topic(ts, t)),
        find_topic(insert_topic(ts, t), t.name) is Some,
        insert_topic(ts, t)[find_topic(insert_topic(ts, t), t.name)->Some_0] == t,
{
    lemma_find_topic_props(ts, t.name);
    let r = insert_topic(ts, t);
    match find_topic(ts, t.name) {
        Some(i) => {
            assert forall|a: int, b: int| 0 <= a < b < r.len() implies r[a].name != r[b].name by {}
            lemma_find_topic_props(r, t.name);
            assert(r[i].name == t.name);
            match find_topic(r, t.name) {
                Some(ri) => {
                    if ri < i {
                        assert(r[ri] == ts[ri]);
                        assert(false);
                    } else if ri > i {
                        assert(r[i].name != t.name);
                        assert(false);
                    }
                    assert(r[ri] == t);
                },
                None => {
                    assert(false);
                },
            }
        },
        None => {
            assert forall|a: int, b: int| 0 <= a < b < r.len() implies r[a].name != r[b].name by {
                if b == r.len() - 1 {
                    assert(ts[a].name != t.name);
                }
            }
            lemma_find_topic_props(r, t.name);
            assert(r[ts.len() as int].name == t.name);
            match find_topic(r, t.name) {
                Some(ri) => {
                    if ri < ts.len() {
                        assert(r[ri] == ts[ri]);
                        assert(false);
                    }
                    assert(r[ri] == t);
                },
                None => {
                    assert(false);
                },
            }
        },
    }
}

pub proof fn lemma_remove_topic_wf(ts: Seq<TopicV>, name: Seq<char>)
    requires
        registry_wf(ts),
    ensures
        registry_wf(remove_topic(ts, name)),
        find_topic(remove_topic(ts, name), name) is None,
{
    lemma_find_topic_props(ts, name);
    let r = remove_topic(ts, name);
    match find_topic(ts, name) {
        Some(i) => {
            assert forall|a: int, b: int| 0 <= a < b < r.len() implies r[a].name != r[b].name by {
                let a0 = if a < i { a } else { a + 1 };
                let b0 = if b < i { b } else { b + 1 };
                assert(r[a] == ts[a0] && r[b] == ts[b0]);
            }
            assert(forall|a: int| 0 <= a < r.len() ==> topic_wf(#[trigger] r[a])) by {
                assert forall|a: int| 0 <= a < r.len() implies topic_wf(#[trigger] r[a]) by {
                    let a0 = if a < i { a } else { a + 1 };
                    assert(r[a] == ts[a0]);
                }
            }
            lemma_find_topic_props(r, name);
            match find_topic(r, name) {
                Some(ri) => {
                    let o = if ri < i { ri } else { ri + 1 };
                    assert(r[ri] == ts[o]);
                    assert(ts[o].name == name);
                    assert(o == i ==> false);
                    if o < i {
                        assert(ts[o].name != ts[i].name);
                    } else if o > i {
                        assert(ts[i].name != ts[o].name);
                    }
                    assert(false);
                },
                None => {},
            }
        },
        None => {},
    }
}

/// `t` with one subscription appended.
pub open spec fn topic_with_sub(t: TopicV, s: SubscriptionV) -> TopicV {
    TopicV { subscriptions: t.subscriptions.push(s), ..t }
}

/// The subscriptions of `t` without those whose ARN is `arn`, in order.
pub open spec fn subs_without(ss: Seq<SubscriptionV>, arn: Seq<char>) -> Seq<SubscriptionV>
    decreases ss.len(),
{
    if ss.len() == 0 {
        Seq::empty()
    } else {
        let p = subs_without(ss.drop_last(), arn);
        if ss.last().subscription_arn == arn {
            p
        } else {
            p.push(ss.last())
        }
    }
}

/// `t` with every subscription whose ARN is `arn` removed.
pub open spec fn topic_without_sub(t: TopicV, arn: Seq<char>) -> TopicV {
    TopicV { subscriptions: subs_without(t.subscriptions, arn), ..t }
}

/// `t` with its tag map replaced.
pub open spec fn topic_with_tags(t: TopicV, tags: Seq<(Seq<char>, Seq<char>)>) -> TopicV {
    TopicV { tags, ..t }
}

/// The attribute whitelist: `t` with the named stored field set, or `None`
/// for a name outside the whitelist.
pub open spec fn topic_with_attribute(t: TopicV, name: Seq<char>, value: Seq<char>) -> Option<
    TopicV,
> {
    if name == "DisplayName"@ {
        Some(TopicV { display_name: Some(value), ..t })
    } else if name == "Policy"@ {
        Some(TopicV { policy: Some(value), ..t })
    } else if name == "DeliveryPolicy"@ {
        Some(TopicV { delivery_policy: Some(value), ..t })
    } else if name == "TracingConfig"@ {
        Some(TopicV { tracing_config: Some(value), ..t })
    } else if name == "FirehoseSuccessFeedbackSampleRate"@ {
        Some(TopicV { firehose_success_feedback_sample_rate: Some(value), ..t })
    } else if name == "FirehoseFailureFeedbackRoleArn"@ {
        Some(TopicV { firehose_failure_feedback_role_arn: Some(value), ..t })
    } else if name == "FirehoseSuccessFeedbackRoleArn"@ {
        Some(TopicV { firehose_success_feedback_role_arn: Some(value), ..t })
    } else if name == "HTTPFailureFeedbackRoleArn"@ {
        Some(TopicV { http_failure_feedback_role_arn: Some(value), ..t })
    } else if name == "SQSSuccessFeedbackSampleRate"@ {
        Some(TopicV { sqs_success_feedback_sample_rate: Some(value), ..t })
    } else if name == "SQSFailureFeedbackRoleArn"@ {
        Some(TopicV { sqs_failure_feedback_role_arn: Some(value), ..t })
    } else if name == "SQSSuccessFeedbackRoleArn"@ {
        Some(TopicV { sqs_success_feedback_role_arn: Some(value), ..t })
    } else if name == "HTTPSuccessFeedbackSampleRate"@ {
        Some(TopicV { http_success_feedback_sample_rate: Some(value), ..t })
    } else if name == "HTTPSuccessFeedbackRoleArn"@ {
        Some(TopicV { http_success_feedback_role_arn: Some(value), ..t })
    } else if name == "ApplicationSuccessFeedbackSampleRate"@ {
        Some(TopicV { application_success_feedback_sample_rate: Some(value), ..t })
    } else if name == "ApplicationFailureFeedbackRoleArn"@ {
        Some(TopicV { application_failure_feedback_role_arn: Some(value), ..t })
    } else if name == "ApplicationSuccessFeedbackRoleArn"@ {
        Some(TopicV { application_success_feedback_role_arn: Some(value), ..t })
    } else if name == "LambdaSuccessFeedbackSampleRate"@ {
        Some(TopicV { lambda_success_feedback_sample_rate: Some(value), ..t })
    } else if name == "LambdaFailureFeedbackRoleArn"@ {
        Some(TopicV { lambda_failure_feedback_role_arn: Some(value), ..t })
    } else if name == "LambdaSuccessFeedbackRoleArn"@ {
        Some(TopicV { lambda_success_feedback_role_arn: Some(value), ..t })
    } else if name == "KmsMasterKeyId"@ {
        Some(TopicV { kms_master_key_id: Some(value), ..t })
    } else if name == "SignatureVersion"@ {
        Some(TopicV { signature_version: Some(value), ..t })
    } else if name == "ContentBasedDeduplication"@ {
        Some(TopicV { content_based_deduplication: Some(value), ..t })
    } else if name == "FifoTopic"@ {
        Some(TopicV { fifo_topic: Some(value), ..t })
    } else if name == "ArchivePolicy"@ {
        Some(TopicV { archive_policy: Some(value), ..t })
    } else if name == "FifoThroughputScope"@ {
        Some(TopicV { fifo_throughput_scope: Some(value), ..t })
    } else {
        None
    }
}

impl Topic {
    /// Sets one whitelisted attribute field; returns false and leaves the
    /// topic unchanged for a name outside the whitelist.
    pub fn set_attribute(&mut self, name: &str, value: String) -> (r: bool)
        ensures
            match topic_with_attribute(old(self)@, name@, value@) {
                Some(t) => r == true && final(self)@ == t,
                None => r == false && final(self)@ == old(self)@,
            },
    {
        if crate::strutil::str_eq(name, "DisplayName") {
            self.display_name = Some(value);
            true
        } else if crate::strutil::str_eq(name, "Policy") {
            self.policy = Some(value);
            true
        } else if crate::strutil::str_eq(name, "DeliveryPolicy") {
            self.delivery_policy = Some(value);
            true
        } else if crate::strutil::str_eq(name, "TracingConfig") {
            self.tracing_config = Some(value);
            true
        } else if crate::strutil::str_eq(name, "FirehoseSuccessFeedbackSampleRate") {
            self.firehose_success_feedback_sample_rate = Some(value);
            true
        } else if crate::strutil::str_eq(name, "FirehoseFailureFeedbackRoleArn") {
            self.firehose_failure_feedback_role_arn = Some(value);
            true
        } else if crate::strutil::str_eq(name, "FirehoseSuccessFeedbackRoleArn") {
            self.firehose_success_feedback_role_arn = Some(value);
            true
        } else if crate::strutil::str_eq(name, "HTTPFailureFeedbackRoleArn") {
            self.http_failure_feedback_role_arn = Some(value);
            true
        } else if crate::strutil::str_eq(name, "SQSSuccessFeedbackSampleRate") {
            self.sqs_success_feedback_sample_rate = Some(value);
            true
        } else if crate::strutil::str_eq(name, "SQSFailureFeedbackRoleArn") {
            self.sqs_failure_feedback_role_arn = Some(value);
            true
        } else if crate::strutil::str_eq(name, "SQSSuccessFeedbackRoleArn") {
            self.sqs_success_feedback_role_arn = Some(value);
            true
        } else if crate::strutil::str_eq(name, "HTTPSuccessFeedbackSampleRate") {
            self.http_success_feedback_sample_rate = Some(value);
            true
        } else if crate::strutil::str_eq(name, "HTTPSuccessFeedbackRoleArn") {
            self.http_success_feedback_role_arn = Some(value);
            true
        } else if crate::strutil::str_eq(name, "ApplicationSuccessFeedbackSampleRate") {
            self.application_success_feedback_sample_rate = Some(value);
            true
        } else if crate::strutil::str_eq(name, "ApplicationFailureFeedbackRoleArn") {
            self.application_failure_feedback_role_arn = Some(value);
            true
        } else if crate::strutil::str_eq(name, "ApplicationSuccessFeedbackRoleArn") {
            self.application_success_feedback_role_arn = Some(value);
            true
        } else if crate::strutil::str_eq(name, "LambdaSuccessFeedbackSampleRate") {
            self.lambda_success_feedback_sample_rate = Some(value);
            true
        } else if crate::strutil::str_eq(name, "LambdaFailureFeedbackRoleArn") {
            self.lambda_failure_feedback_role_arn = Some(value);
            true
        } else if crate::strutil::str_eq(name, "LambdaSuccessFeedbackRoleArn") {
            self.lambda_success_feedback_role_arn = Some(value);
            true
        } else if crate::strutil::str_eq(name, "KmsMasterKeyId") {
            self.kms_master_key_id = Some(value);
            true
        } else if crate::strutil::str_eq(name, "SignatureVersion") {
            self.signature_version = Some(value);
            true
        } else if crate::strutil::str_eq(name, "ContentBasedDeduplication") {
            self.content_based_deduplication = Some(value);
            true
        } else if crate::strutil::str_eq(name, "FifoTopic") {
            self.fifo_topic = Some(value);
            true
        } else if crate::strutil::str_eq(name, "ArchivePolicy") {
            self.archive_policy = Some(value);
            true
        } else if crate::strutil::str_eq(name, "FifoThroughputScope") {
            self.fifo_throughput_scope = Some(value);
            true
        } else {
            false
        }
    }
}

/// An owned copy of a subscription.
pub fn clone_subscription(s: &Subscription) -> (r: Subscription)
    ensures
        r@ == s@,
{
    Subscription {
        endpoint: s.endpoint.clone(),
        protocol: s.protocol.clone(),
        arn: s.arn.clone(),
        subscription_arn: s.subscription_arn.clone(),
    }
}

/// An owned copy of a message.
pub fn clone_message(m: &Message) -> (r: Message)
    ensures
        r@ == m@,
{
    Message {
        id: m.id.clone(),
        subject: crate::strutil::clone_opt_string(&m.subject),
        body: m.body.clone(),
        timestamp: m.timestamp,
    }
}

/// The first index in `ss` holding the subscription ARN `arn`, if any.
pub open spec fn find_sub_in(ss: Seq<SubscriptionV>, arn: Seq<char>) -> Option<int>
    decreases ss.len(),
{
    if ss.len() == 0 {
        None
    } else if ss[0].subscription_arn == arn {
        Some(0)
    } else {
        match find_sub_in(ss.drop_first(), arn) {
            Some(i) => Some(i + 1),
            None => None,
        }
    }
}

pub proof fn lemma_find_sub_in_props(ss: Seq<SubscriptionV>, arn: Seq<char>)
    ensures
        match find_sub_in(ss, arn) {
            Some(i) => 0 <= i < ss.len() && ss[i].subscription_arn == arn && forall|j: int|
                0 <= j < i ==> ss[j].subscription_arn != arn,
            None => forall|j: int| 0 <= j < ss.len() ==> ss[j].subscription_arn != arn,
        },
    decreases ss.len(),
{
    if ss.len() > 0 && ss[0].subscription_arn != arn {
        let d = ss.drop_first();
        lemma_find_sub_in_props(d, arn);
        match find_sub_in(d, arn) {
            Some(i) => {
                assert(ss[i + 1] == d[i]);
                assert forall|j: int| 0 <= j < i + 1 implies ss[j].subscription_arn != arn by {
                    if j > 0 {
                        assert(ss[j] == d[j - 1]);
                    }
                }
            },
            None => {
                assert forall|j: int| 0 <= j < ss.len() implies ss[j].subscription_arn != arn by {
                    if j > 0 {
                        assert(ss[j] == d[j - 1]);
                    }
                }
            },
        }
    }
}

/// The first subscription with ARN `arn`, scanning topics in registry
/// order and subscriptions in registration order.
pub open spec fn find_subscription(ts: Seq<TopicV>, arn: Seq<char>) -> Option<SubscriptionV>
    decreases ts.len(),
{
    if ts.len() == 0 {
        None
    } else {
        match find_sub_in(ts[0].subscriptions, arn) {
            Some(j) => Some(ts[0].subscriptions[j]),
            None => find_subscription(ts.drop_first(), arn),
        }
    }
}

/// The registry: the authoritative in-memory store of topics, keyed by
/// topic name. A single handler owns it exclusively for the duration of one
/// operation; the surrounding server serialises access.
pub struct Registry {
    pub topics: Vec<Topic>,
}

impl View for Registry {
    type V = Seq<TopicV>;

    open spec fn view(&self) -> Seq<TopicV> {
        self.topics.deep_view()
    }
}

impl Registry {
    /// A fresh, empty registry.
    pub fn new() -> (r: Registry)
        ensures
            r@ =~= Seq::<TopicV>::empty(),
            registry_wf(r@),
    {
        Registry { topics: Vec::new() }
    }

    /// The position of the topic named `name`, if present.
    pub fn find(&self, name: &str) -> (r: Option<usize>)
        ensures
            match r {
                Some(i) => find_topic(self@, name@) == Some(i as int),
                None => find_topic(self@, name@) is None,
            },
    {
        proof {
            lemma_find_topic_props(self@, name@);
        }
        let n = self.topics.len();
        let mut i: usize = 0;
        while i < n
            invariant
                n == self.topics.len(),
                i <= n,
                self@.len() == n,
                forall|j: int| 0 <= j < i ==> self@[j].name != name@,
            decreases n - i,
        {
            if crate::strutil::str_eq(self.topics[i].name.as_str(), name) {
                proof {
                    lemma_find_topic_props(self@, name@);
                    match find_topic(self@, name@) {
                        Some(fi) => {
                            assert(fi >= i);
                            assert(fi <= i);
                        },
                        None => {
                            assert(self@[i as int].name == name@);
                            assert(false);
                        },
                    }
                }
                return Some(i);
            }
            i += 1;
        }
        proof {
            lemma_find_topic_props(self@, name@);
            if find_topic(self@, name@) is Some {
                let fi = find_topic(self@, name@)->Some_0;
                assert(self@[fi].name == name@);
                assert(false);
            }
        }
        None
    }

    /// Inserts `t` under its name, overwriting any topic of the same name
    /// in place.
    pub fn insert(&mut self, t: Topic)
        requires
            registry_wf(old(self)@),
            topic_wf(t@),
        ensures
            final(self)@ == insert_topic(old(self)@, t@),
            registry_wf(final(self)@),
    {
        proof {
            lemma_insert_topic_wf(self@, t@);
            lemma_find_topic_props(self@, t@.name);
        }
        let found = self.find(t.name.as_str());
        match found {
            Some(i) => {
                let _ = self.topics.remove(i);
                self.topics.insert(i, t);
                proof {
                    assert(final(self)@ =~= insert_topic(old(self)@, t@));
                }
            },
            None => {
                self.topics.push(t);
                proof {
                    assert(final(self)@ =~= insert_topic(old(self)@, t@));
                }
            },
        }
    }

    /// Removes the topic named `name`; absent names are a no-op.
    pub fn remove(&mut self, name: &str)
        requires
            registry_wf(old(self)@),
        ensures
            final(self)@ == remove_topic(old(self)@, name@),
            registry_wf(final(self)@),
    {
        proof {
            lemma_remove_topic_wf(self@, name@);
            lemma_find_topic_props(self@, name@);
        }
        let found = self.find(name);
        match found {
            Some(i) => {
                let _ = self.topics.remove(i);
                proof {
                    assert(final(self)@ =~= remove_topic(old(self)@, name@));
                }
            },
            None => {
                proof {
                    assert(final(self)@ =~= remove_topic(old(self)@, name@));
                }
            },
        }
    }

    /// Appends a subscription to the topic at position `i`.
    pub fn push_subscription(&mut self, i: usize, sub: Subscription)
        requires
            registry_wf(old(self)@),
            i < old(self)@.len(),
        ensures
            final(self)@ == old(self)@.update(
                i as int,
                topic_with_sub(old(self)@[i as int], sub@),
            ),
            registry_wf(final(self)@),
    {
        let mut t = self.topics.remove(i);
        t.subscriptions.push(sub);
        self.topics.insert(i, t);
        proof {
            let nv = topic_with_sub(old(self)@[i as int], sub@);
            assert(final(self)@ =~~= old(self)@.update(i as int, nv));
            lemma_update_same_name_wf(old(self)@, i as int, nv);
        }
    }

    /// Removes every subscription whose ARN is `arn` from the topic at
    /// position `i`.
    pub fn remove_subscription(&mut self, i: usize, arn: &str)
        requires
            registry_wf(old(self)@),
            i < old(self)@.len(),
        ensures
            final(self)@ == old(self)@.update(
                i as int,
                topic_without_sub(old(self)@[i as int], arn@),
            ),
            registry_wf(final(self)@),
    {
        let mut t = self.topics.remove(i);
        let mut kept: Vec<Subscription> = Vec::new();
        let n = t.subscriptions.len();
        let mut j: usize = 0;
        proof {
            assert(kept.deep_view() =~= subs_without(
                t.subscriptions.deep_view().subrange(0, 0),
                arn@,
            ));
        }
        while j < n
            invariant
                n == t.subscriptions.len(),
                j <= n,
                t.subscriptions.deep_view().len() == n,
                kept.deep_view() == subs_without(
                    t.subscriptions.deep_view().subrange(0, j as int),
                    arn@,
                ),
            decreases n - j,
        {
            if !crate::strutil::str_eq(t.subscriptions[j].subscription_arn.as_str(), arn) {
                kept.push(clone_subscription(&t.subscriptions[j]));
            }
            proof {
                let sv = t.subscriptions.deep_view();
                assert(sv.subrange(0, (j + 1) as int).drop_last() =~= sv.subrange(0, j as int));
                assert(sv.subrange(0, (j + 1) as int).last() == sv[j as int]);
                assert(sv[j as int] == t.subscriptions@[j as int].deep_view());
                assert(kept.deep_view() =~~= subs_without(sv.subrange(0, (j + 1) as int), arn@));
            }
            j += 1;
        }
        proof {
            assert(t.subscriptions.deep_view().subrange(0, n as int) =~= t.subscriptions.deep_view());
        }
        t.subscriptions = kept;
        self.topics.insert(i, t);
        proof {
            let nv = topic_without_sub(old(self)@[i as int], arn@);
            assert(final(self)@ =~~= old(self)@.update(i as int, nv));
            lemma_update_same_name_wf(old(self)@, i as int, nv);
        }
    }

    /// Sets one whitelisted attribute on the topic at position `i`; returns
    /// false and changes nothing for a name outside the whitelist.
    pub fn set_attribute_at(&mut self, i: usize, name: &str, value: String) -> (r: bool)
        requires
            registry_wf(old(self)@),
            i < old(self)@.len(),
        ensures
            match topic_with_attribute(old(self)@[i as int], name@, value@) {
                Some(tv) => r == true && final(self)@ == old(self)@.update(i as int, tv),
                None => r == false && final(self)@ == old(self)@,
            },
            registry_wf(final(self)@),
    {
        let mut t = self.topics.remove(i);
        let ok = t.set_attribute(name, value);
        self.topics.insert(i, t);
        proof {
            match topic_with_attribute(old(self)@[i as int], name@, value@) {
                Some(tv) => {
                    assert(final(self)@ =~~= old(self)@.update(i as int, tv));
                    lemma_update_same_name_wf(old(self)@, i as int, tv);
                },
                None => {
                    assert(final(self)@ =~~= old(self)@);
                },
            }
        }
        ok
    }

    /// Merges tag entries into the topic at position `i`, overwriting by
    /// key.
    pub fn merge_tags_at(&mut self, i: usize, entries: &Vec<TagEntry>)
        requires
            registry_wf(old(self)@),
            i < old(self)@.len(),
        ensures
            final(self)@ == old(self)@.update(
                i as int,
                topic_with_tags(
                    old(self)@[i as int],
                    tags_merge(old(self)@[i as int].tags, entries.deep_view()),
                ),
            ),
            registry_wf(final(self)@),
    {
        let mut t = self.topics.remove(i);
        tags_merge_exec(&mut t.tags, entries);
        self.topics.insert(i, t);
        proof {
            let nv = topic_with_tags(
                old(self)@[i as int],
                tags_merge(old(self)@[i as int].tags, entries.deep_view()),
            );
            assert(final(self)@ =~~= old(self)@.update(i as int, nv));
            lemma_tags_merge_wf(old(self)@[i as int].tags, entries.deep_view());
            lemma_update_same_name_wf(old(self)@, i as int, nv);
        }
    }

    /// Removes tag keys from the topic at position `i`; absent keys are
    /// ignored.
    pub fn remove_tag_keys_at(&mut self, i: usize, keys: &Vec<String>)
        requires
            registry_wf(old(self)@),
            i < old(self)@.len(),
        ensures
            final(self)@ == old(self)@.update(
                i as int,
                topic_with_tags(
                    old(self)@[i as int],
                    tags_remove_keys(old(self)@[i as int].tags, keys.deep_view()),
                ),
            ),
            registry_wf(final(self)@),
    {
        let mut t = self.topics.remove(i);
        tags_remove_keys_exec(&mut t.tags, keys);
        self.topics.insert(i, t);
        proof {
            let nv = topic_with_tags(
                old(self)@[i as int],
                tags_remove_keys(old(self)@[i as int].tags, keys.deep_view()),
            );
            assert(final(self)@ =~~= old(self)@.update(i as int, nv));
            lemma_tags_remove_keys_wf(old(self)@[i as int].tags, keys.deep_view());
            lemma_update_same_name_wf(old(self)@, i as int, nv);
        }
    }

    /// Finds the subscription with the given ARN anywhere in the registry,
    /// scanning topics in order.
    pub fn lookup_subscription(&self, arn: &str) -> (r: Option<Subscription>)
        ensures
            match r {
                Some(s) => find_subscription(self@, arn@) == Some(s@),
                None => find_subscription(self@, arn@) is None,
            },
    {
        let n = self.topics.len();
        let mut i: usize = 0;
        proof {
            assert(self@.skip(0) =~= self@);
        }
        while i < n
            invariant
                n == self.topics.len(),
                i <= n,
                self@.len() == n,
                find_subscription(self@, arn@) == find_subscription(self@.skip(i as int), arn@),
            decreases n - i,
        {
            let subs = &self.topics[i].subscriptions;
            proof {
                assert(self@.skip(i as int)[0] == self@[i as int]);
                assert(self@.skip(i as int).drop_first() =~= self@.skip((i + 1) as int));
                assert(self@[i as int] == self.topics@[i as int].deep_view());
            }
            let found = find_sub_index(subs, arn);
            match found {
                Some(j) => {
                    proof {
                        lemma_find_sub_in_props(subs.deep_view(), arn@);
                        assert(subs.deep_view() == self@[i as int].subscriptions);
                        assert(subs.deep_view()[j as int] == subs@[j as int].deep_view());
                        assert(find_subscription(self@.skip(i as int), arn@) == Some(
                            subs.deep_view()[j as int],
                        ));
                    }
                    return Some(clone_subscription(&subs[j]));
                },
                None => {},
            }
            i += 1;
        }
        proof {
            assert(self@.skip(n as int) =~= Seq::<TopicV>::empty());
        }
        None
    }
}

/// The position of the first subscription with ARN `arn` in `subs`, if any.
pub fn find_sub_index(subs: &Vec<Subscription>, arn: &str) -> (r: Option<usize>)
    ensures
        match r {
            Some(j) => find_sub_in(subs.deep_view(), arn@) == Some(j as int),
            None => find_sub_in(subs.deep_view(), arn@) is None,
        },
{
    proof {
        lemma_find_sub_in_props(subs.deep_view(), arn@);
    }
    let n = subs.len();
    let mut j: usize = 0;
    while j < n
        invariant
            n == subs.len(),
            j <= n,
            subs.deep_view().len() == n,
            forall|k: int| 0 <= k < j ==> subs.deep_view()[k].subscription_arn != arn@,
        decreases n - j,
    {
        if crate::strutil::str_eq(subs[j].subscription_arn.as_str(), arn) {
            proof {
                lemma_find_sub_in_props(subs.deep_view(), arn@);
                assert(subs.deep_view()[j as int] == subs@[j as int].deep_view());
                assert(subs.deep_view()[j as int].subscription_arn == arn@);
                match find_sub_in(subs.deep_view(), arn@) {
                    Some(fj) => {
                        assert(fj >= j);
                        assert(fj <= j);
                    },
                    None => {
                        assert(false);
                    },
                }
            }
            return Some(j);
        }
        j += 1;
    }
    proof {
        lemma_find_sub_in_props(subs.deep_view(), arn@);
        if find_sub_in(subs.deep_view(), arn@) is Some {
            let fj = find_sub_in(subs.deep_view(), arn@)->Some_0;
            assert(subs.deep_view()[fj].subscription_arn == arn@);
            assert(false);
        }
    }
    None
}

/// Replacing a topic with one of the same name, ARN, and well-formed tags
/// keeps the registry well-formed.
pub proof fn lemma_update_same_name_wf(ts: Seq<TopicV>, i: int, t: TopicV)
    requires
        registry_wf(ts),
        0 <= i < ts.len(),
        t.name == ts[i].name,
        topic_wf(t),
    ensures
        registry_wf(ts.update(i, t)),
{
    let r = ts.update(i, t);
    assert forall|a: int, b: int| 0 <= a < b < r.len() implies r[a].name != r[b].name by {
        assert(ts[a].name != ts[b].name);
    }
    assert forall|a: int| 0 <= a < r.len() implies topic_wf(#[trigger] r[a]) by {
        if a != i {
            assert(r[a] == ts[a]);
        }
    }
}

// ---------------------------------------------------------------------------
// The delivery-client cache and the whole application state.
// ---------------------------------------------------------------------------

/// Cache keys are pairwise distinct.
pub open spec fn cache_wf(ks: Seq<Seq<char>>) -> bool {
    forall|i: int, j: int| 0 <= i < j < ks.len() ==> ks[i] != ks[j]
}

/// The keys of the per-endpoint delivery-client cache. The clients
/// themselves live outside the verified state, keyed by exactly these
/// strings; repeated publishes to the same downstream host reuse one
/// client.
pub struct ClientCache {
    pub keys: Vec<String>,
}

impl View for ClientCache {
    type V = Seq<Seq<char>>;

    open spec fn view(&self) -> Seq<Seq<char>> {
        self.keys.deep_view()
    }
}

impl ClientCache {
    /// A fresh, empty cache.
    pub fn new() -> (r: ClientCache)
        ensures
            r@ =~= Seq::<Seq<char>>::empty(),
            cache_wf(r@),
    {
        ClientCache { keys: Vec::new() }
    }

    /// The number of cached clients.
    pub fn len(&self) -> (n: usize)
        ensures
            n == self@.len(),
    {
        self.keys.len()
    }

    /// Whether a client for `key` is cached.
    pub fn contains(&self, key: &str) -> (r: bool)
        ensures
            r == self@.contains(key@),
    {
        let n = self.keys.len();
        let mut i: usize = 0;
        while i < n
            invariant
                n == self.keys.len(),
                i <= n,
                self@.len() == n,
                forall|j: int| 0 <= j < i ==> self@[j] != key@,
            decreases n - i,
        {
            if crate::strutil::str_eq(self.keys[i].as_str(), key) {
                proof {
                    assert(self@[i as int] == self.keys@[i as int].deep_view());
                    assert(self@[i as int] == key@);
                }
                return true;
            }
            i += 1;
        }
        proof {
            if self@.contains(key@) {
                let w = choose|w: int| 0 <= w < self@.len() && self@[w] == key@;
                assert(false);
            }
        }
        false
    }

    /// Create-on-miss: records `key`, returning whether a new client must
    /// be created for it.
    pub fn ensure(&mut self, key: &str) -> (created: bool)
        requires
            cache_wf(old(self)@),
        ensures
            cache_wf(final(self)@),
            created == !old(self)@.contains(key@),
            final(self)@ == (if old(self)@.contains(key@) {
                old(self)@
            } else {
                old(self)@.push(key@)
            }),
    {
        if self.contains(key) {
            false
        } else {
            self.keys.push(key.to_owned());
            proof {
                assert(final(self)@ =~= old(self)@.push(key@));
                assert forall|a: int, b: int|
                    0 <= a < b < final(self)@.len() implies final(self)@[a] != final(self)@[b] by {
                    if b == final(self)@.len() - 1 {
                        assert(!old(self)@.contains(key@));
                        assert(old(self)@[a] != key@);
                    }
                }
            }
            true
        }
    }
}

/// The whole in-memory application state: the topic registry and the
/// delivery-client cache. It is owned by the server and handed exclusively
/// to one handler at a time.
pub struct AppState {
    pub topics: Registry,
    pub sqs_clients: ClientCache,
}

#[verifier::ext_equal]
pub ghost struct AppStateV {
    pub topics: Seq<TopicV>,
    pub sqs_clients: Seq<Seq<char>>,
}

impl View for AppState {
    type V = AppStateV;

    open spec fn view(&self) -> AppStateV {
        AppStateV { topics: self.topics@, sqs_clients: self.sqs_clients@ }
    }
}

/// Application-state well-formedness.
pub open spec fn state_wf(s: AppStateV) -> bool {
    registry_wf(s.topics) && cache_wf(s.sqs_clients)
}

impl AppState {
    /// A fresh, empty state.
    pub fn new() -> (r: AppState)
        ensures
            r@.topics =~= Seq::<TopicV>::empty(),
            r@.sqs_clients =~= Seq::<Seq<char>>::empty(),
            state_wf(r@),
    {
        AppState { topics: Registry::new(), sqs_clients: ClientCache::new() }
    }
}

} // verus!
