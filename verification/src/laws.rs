//! Protocol laws: properties that relate several actions, stated over the
//! same outcome specs the handlers are verified against.

use vstd::prelude::*;
use crate::arn_of;
use crate::arn_prefix;
use crate::dispatch::{
    create_topic_outcome, created_topic, delete_topic_outcome, get_topic_attributes_outcome,
    list_tags_outcome, subscribe_outcome, sub_arn_of, tag_resource_outcome, topic_arns,
    topic_attribute_entries, unsubscribe_outcome, untag_resource_outcome,
};
use crate::responses::{list_tags_xml, subscribe_xml};
use crate::state::{
    find_topic, lemma_find_topic_props, lemma_insert_topic_wf, lemma_remove_topic_wf,
    lemma_tags_merge_wf, state_wf, subs_without, tags_insert, tags_merge, tags_remove,
    tags_remove_keys, topic_wf, topic_with_tags, topic_without_sub, AppStateV, SnsRequestV,
    SubscriptionV, TopicV,
};
use crate::strutil::{after_last, before_last, lemma_after_last_found};

verus! {

/// The first matching position determines the topic lookup.
proof fn lemma_find_topic_first(ts: Seq<TopicV>, name: Seq<char>, i: int)
    requires
        0 <= i < ts.len(),
        ts[i].name == name,
        forall|j: int| 0 <= j < i ==> ts[j].name != name,
    ensures
        find_topic(ts, name) == Some(i),
    decreases i,
{
    if i == 0 {
    } else {
        let d = ts.drop_first();
        assert(d[i - 1] == ts[i]);
        assert forall|j: int| 0 <= j < i - 1 implies d[j].name != name by {
            assert(d[j] == ts[j + 1]);
        }
        lemma_find_topic_first(d, name, i - 1);
    }
}

/// The trailing colon-delimited segment of a derived topic ARN is the
/// topic name again, provided the name itself holds no colon.
pub proof fn lemma_topic_name_of_arn(n: Seq<char>)
    requires
        forall|j: int| 0 <= j < n.len() ==> n[j] != ':',
    ensures
        after_last(arn_of(n), ':') == n,
{
    reveal_strlit("arn:aws:sns:us-east-1:000000000000:");
    let p = arn_prefix();
    let s = arn_of(n);
    assert(p.len() == 35);
    assert(p[34] == ':');
    assert(s[34] == ':');
    assert forall|j: int| 34 < j < s.len() implies s[j] != ':' by {
        if j >= 35 {
            assert(s[j] == n[j - 35]);
        }
    }
    lemma_after_last_found(s, ':', 34);
    assert(s.subrange(35, s.len() as int) =~= n);
}

/// Distinct names derive distinct ARNs.
pub proof fn lemma_arn_of_injective(a: Seq<char>, b: Seq<char>)
    requires
        arn_of(a) == arn_of(b),
    ensures
        a == b,
{
    let p = arn_prefix();
    assert(a =~= arn_of(a).subrange(p.len() as int, arn_of(a).len() as int));
    assert(b =~= arn_of(b).subrange(p.len() as int, arn_of(b).len() as int));
}

/// Creating a topic named `n` and then fetching the attributes of
/// `arn(n)` succeeds, and the first rendered attribute is a TopicArn entry
/// equal to the fixed prefix plus `n`. This fails for a name holding a
/// colon, whose derived ARN resolves to a different lookup key, so such
/// names are excluded.
pub proof fn lemma_create_then_get_attributes(
    s: AppStateV,
    req_create: SnsRequestV,
    req_get: SnsRequestV,
    n: Seq<char>,
    rid1: Seq<char>,
    rid2: Seq<char>,
)
    requires
        state_wf(s),
        req_create.name == Some(n),
        forall|j: int| 0 <= j < n.len() ==> n[j] != ':',
        req_get.topic_arn == Some(arn_of(n)),
    ensures
        ({
            let o1 = create_topic_outcome(s, req_create, rid1);
            let s1 = AppStateV { topics: o1.topics, sqs_clients: o1.clients };
            let o2 = get_topic_attributes_outcome(s1, req_get, rid2);
            &&& o1.status == 200
            &&& o2.status == 200
            &&& find_topic(s1.topics, n) is Some
            &&& topic_attribute_entries(s1.topics[find_topic(s1.topics, n)->Some_0])[0] == (
                "TopicArn"@,
                arn_of(n),
            )
        }),
{
    lemma_topic_name_of_arn(n);
    let t = created_topic(n, req_create.tags_entry);
    lemma_tags_merge_wf(
        Seq::<(Seq<char>, Seq<char>)>::empty(),
        match req_create.tags_entry {
            Some(es) => es,
            None => Seq::empty(),
        },
    );
    assert(topic_wf(t));
    lemma_insert_topic_wf(s.topics, t);
    let o1 = create_topic_outcome(s, req_create, rid1);
    let s1 = AppStateV { topics: o1.topics, sqs_clients: o1.clients };
    let i = find_topic(s1.topics, n)->Some_0;
    assert(s1.topics[i] == t);
    assert(topic_attribute_entries(t)[0] == ("TopicArn"@, arn_of(n)));
}

/// Deleting any topic ARN reports success; deleting an unknown one
/// changes nothing; and after the delete no topic of the derived name
/// remains, so a topic listing never contains the derived ARN again.
pub proof fn lemma_delete_topic_idempotent(
    s: AppStateV,
    req: SnsRequestV,
    arn: Seq<char>,
    rid: Seq<char>,
)
    requires
        state_wf(s),
        req.topic_arn == Some(arn),
    ensures
        ({
            let o = delete_topic_outcome(s, req, rid);
            let tname = after_last(arn, ':');
            &&& o.status == 200
            &&& (find_topic(s.topics, tname) is None ==> o.topics == s.topics)
            &&& forall|j: int| 0 <= j < o.topics.len() ==> o.topics[j].name != tname
            &&& forall|j: int|
                0 <= j < topic_arns(o.topics).len() ==> topic_arns(o.topics)[j] != arn_of(tname)
        }),
{
    let tname = after_last(arn, ':');
    let o = delete_topic_outcome(s, req, rid);
    lemma_remove_topic_wf(s.topics, tname);
    lemma_find_topic_props(o.topics, tname);
    lemma_find_topic_props(s.topics, tname);
    assert forall|j: int| 0 <= j < topic_arns(o.topics).len() implies topic_arns(o.topics)[j]
        != arn_of(tname) by {
        assert(topic_wf(o.topics[j]));
        if o.topics[j].arn == arn_of(tname) {
            lemma_arn_of_injective(o.topics[j].name, tname);
        }
    }
}

/// Subscribing to an unknown topic ARN reports not-found and changes
/// nothing; on a known topic the returned subscription ARN has the form
/// `topicArn:token`, and the new subscription is appended to exactly that
/// topic.
pub proof fn lemma_subscribe_shape(
    s: AppStateV,
    req: SnsRequestV,
    arn: Seq<char>,
    token: Seq<char>,
    rid: Seq<char>,
)
    requires
        state_wf(s),
        req.topic_arn == Some(arn),
        req.endpoint is Some,
        req.protocol is Some,
    ensures
        ({
            let o = subscribe_outcome(s, req, token, rid);
            let tname = after_last(arn, ':');
            &&& (find_topic(s.topics, tname) is None ==> o.status == 404 && o.topics == s.topics)
            &&& (find_topic(s.topics, tname) matches Some(i) ==> {
                &&& o.status == 200
                &&& o.body == subscribe_xml(sub_arn_of(arn, token), rid)
                &&& o.topics[i].subscriptions == s.topics[i].subscriptions.push(
                    SubscriptionV {
                        endpoint: req.endpoint->Some_0,
                        protocol: req.protocol->Some_0,
                        arn,
                        subscription_arn: sub_arn_of(arn, token),
                    },
                )
                &&& forall|j: int|
                    0 <= j < o.topics.len() && j != i ==> o.topics[j] == s.topics[j]
            })
        }),
{
    let tname = after_last(arn, ':');
    lemma_find_topic_props(s.topics, tname);
}

/// Subscription ARNs issued for the same topic with distinct fresh tokens
/// are distinct.
pub proof fn lemma_sub_arns_distinct(arn: Seq<char>, t1: Seq<char>, t2: Seq<char>)
    requires
        t1 != t2,
    ensures
        sub_arn_of(arn, t1) != sub_arn_of(arn, t2),
{
    if sub_arn_of(arn, t1) == sub_arn_of(arn, t2) {
        let base = (arn + ":"@).len() as int;
        assert(t1 =~= sub_arn_of(arn, t1).subrange(base, sub_arn_of(arn, t1).len() as int));
        assert(t2 =~= sub_arn_of(arn, t2).subrange(base, sub_arn_of(arn, t2).len() as int));
    }
}

/// Subscription ARNs are pairwise distinct across the whole registry.
pub open spec fn sub_arns_unique(ts: Seq<TopicV>) -> bool {
    forall|i1: int, j1: int, i2: int, j2: int|
        0 <= i1 < ts.len() && 0 <= j1 < ts[i1].subscriptions.len() && 0 <= i2 < ts.len() && 0 <= j2
            < ts[i2].subscriptions.len() && (i1 != i2 || j1 != j2)
            ==> ts[i1].subscriptions[j1].subscription_arn
            != ts[i2].subscriptions[j2].subscription_arn
}

/// A subscribe whose fresh token derives an ARN not yet present anywhere
/// keeps subscription ARNs unique across the whole registry. (Freshness
/// itself comes from the random token source and cannot be proved here.)
pub proof fn lemma_subscribe_keeps_arns_unique(
    s: AppStateV,
    req: SnsRequestV,
    arn: Seq<char>,
    token: Seq<char>,
    rid: Seq<char>,
)
    requires
        state_wf(s),
        req.topic_arn == Some(arn),
        req.endpoint is Some,
        req.protocol is Some,
        sub_arns_unique(s.topics),
        forall|i: int, j: int|
            0 <= i < s.topics.len() && 0 <= j < s.topics[i].subscriptions.len()
                ==> s.topics[i].subscriptions[j].subscription_arn != sub_arn_of(arn, token),
    ensures
        sub_arns_unique(subscribe_outcome(s, req, token, rid).topics),
{
    let tname = after_last(arn, ':');
    lemma_find_topic_props(s.topics, tname);
    let o = subscribe_outcome(s, req, token, rid);
    match find_topic(s.topics, tname) {
        None => {},
        Some(t) => {
            let sarn = sub_arn_of(arn, token);
            let n = s.topics[t].subscriptions.len() as int;
            assert forall|i1: int, j1: int, i2: int, j2: int|
                0 <= i1 < o.topics.len() && 0 <= j1 < o.topics[i1].subscriptions.len() && 0 <= i2
                    < o.topics.len() && 0 <= j2 < o.topics[i2].subscriptions.len() && (i1 != i2
                    || j1 != j2) implies o.topics[i1].subscriptions[j1].subscription_arn
                != o.topics[i2].subscriptions[j2].subscription_arn by {
                let a1 = o.topics[i1].subscriptions[j1];
                let a2 = o.topics[i2].subscriptions[j2];
                if i1 == t && j1 == n {
                    assert(a1.subscription_arn == sarn);
                    assert(a2 == s.topics[i2].subscriptions[j2]);
                } else if i2 == t && j2 == n {
                    assert(a2.subscription_arn == sarn);
                    assert(a1 == s.topics[i1].subscriptions[j1]);
                } else {
                    assert(a1 == s.topics[i1].subscriptions[j1]);
                    assert(a2 == s.topics[i2].subscriptions[j2]);
                }
            }
        },
    }
}

/// Removing an ARN that no subscription of the list holds leaves the list
/// as it is.
proof fn lemma_subs_without_absent(ss: Seq<SubscriptionV>, arn: Seq<char>)
    requires
        forall|j: int| 0 <= j < ss.len() ==> ss[j].subscription_arn != arn,
    ensures
        subs_without(ss, arn) == ss,
    decreases ss.len(),
{
    if ss.len() > 0 {
        lemma_subs_without_absent(ss.drop_last(), arn);
        assert(subs_without(ss, arn) =~= ss);
    }
}

/// Unsubscribing with an ARN that was never issued reports success and
/// changes no topic's subscription list, provided the topic name derived
/// from the ARN exists; an absent derived topic is reported as not found
/// instead, so such ARNs are excluded here.
pub proof fn lemma_unsubscribe_unknown_arn(
    s: AppStateV,
    req: SnsRequestV,
    sarn: Seq<char>,
    rid: Seq<char>,
)
    requires
        state_wf(s),
        req.subscription_arn == Some(sarn),
        find_topic(s.topics, after_last(before_last(sarn, ':'), ':')) is Some,
        forall|i: int, j: int|
            0 <= i < s.topics.len() && 0 <= j < s.topics[i].subscriptions.len()
                ==> s.topics[i].subscriptions[j].subscription_arn != sarn,
    ensures
        ({
            let o = unsubscribe_outcome(s, req, rid);
            o.status == 200 && o.topics == s.topics
        }),
{
    let tname = after_last(before_last(sarn, ':'), ':');
    let i = find_topic(s.topics, tname)->Some_0;
    lemma_find_topic_props(s.topics, tname);
    lemma_subs_without_absent(s.topics[i].subscriptions, sarn);
    let o = unsubscribe_outcome(s, req, rid);
    assert(topic_without_sub(s.topics[i], sarn) =~~= s.topics[i]);
    assert(o.topics =~= s.topics);
}

/// The tag round trip: merging one tag `{k: v}` into a topic with no tags
/// and listing yields exactly that one tag; then removing `k` and listing
/// yields the empty tag set. Both intermediate actions report success.
pub proof fn lemma_tag_round_trip(
    s: AppStateV,
    req_tag: SnsRequestV,
    req_list: SnsRequestV,
    req_untag: SnsRequestV,
    arn: Seq<char>,
    k: Seq<char>,
    v: Seq<char>,
    rid1: Seq<char>,
    rid2: Seq<char>,
    rid3: Seq<char>,
    rid4: Seq<char>,
)
    requires
        state_wf(s),
        req_tag.resource_arn == Some(arn),
        req_tag.tags_entry == Some(seq![(k, v)]),
        req_list.resource_arn == Some(arn),
        req_untag.resource_arn == Some(arn),
        req_untag.tag_keys_entry == Some(seq![k]),
        find_topic(s.topics, after_last(arn, ':')) is Some,
        s.topics[find_topic(s.topics, after_last(arn, ':'))->Some_0].tags == Seq::<
            (Seq<char>, Seq<char>),
        >::empty(),
    ensures
        ({
            let tname = after_last(arn, ':');
            let o1 = tag_resource_outcome(s, req_tag, rid1);
            let s1 = AppStateV { topics: o1.topics, sqs_clients: o1.clients };
            let o2 = list_tags_outcome(s1, req_list, rid2);
            let o3 = untag_resource_outcome(s1, req_untag, rid3);
            let s2 = AppStateV { topics: o3.topics, sqs_clients: o3.clients };
            let o4 = list_tags_outcome(s2, req_list, rid4);
            &&& o1.status == 200
            &&& o2.status == 200
            &&& o2.body == list_tags_xml(seq![(k, v)], rid2)
            &&& o3.status == 200
            &&& o4.status == 200
            &&& o4.body == list_tags_xml(Seq::<(Seq<char>, Seq<char>)>::empty(), rid4)
        }),
{
    let tname = after_last(arn, ':');
    let i = find_topic(s.topics, tname)->Some_0;
    lemma_find_topic_props(s.topics, tname);
    let t0 = s.topics[i];

    let entries: Seq<(Seq<char>, Seq<char>)> = seq![(k, v)];
    assert(entries.drop_last() =~= Seq::<(Seq<char>, Seq<char>)>::empty());
    assert(entries.last() == (k, v));
    assert(tags_merge(t0.tags, entries.drop_last()) == t0.tags);
    assert(tags_merge(t0.tags, entries) == tags_insert(t0.tags, k, v));
    assert(tags_insert(t0.tags, k, v) =~= seq![(k, v)]);

    let o1 = tag_resource_outcome(s, req_tag, rid1);
    let s1 = AppStateV { topics: o1.topics, sqs_clients: o1.clients };
    let t1 = topic_with_tags(t0, tags_merge(t0.tags, entries));
    assert(s1.topics == s.topics.update(i, t1));
    assert forall|j: int| 0 <= j < i implies s1.topics[j].name != tname by {
        assert(s1.topics[j] == s.topics[j]);
    }
    lemma_find_topic_first(s1.topics, tname, i);
    assert(s1.topics[i].tags =~= seq![(k, v)]);

    let o2 = list_tags_outcome(s1, req_list, rid2);
    assert(o2.body == list_tags_xml(seq![(k, v)], rid2));

    let keys: Seq<Seq<char>> = seq![k];
    assert(keys.drop_last() =~= Seq::<Seq<char>>::empty());
    assert(keys.last() == k);
    assert(tags_remove_keys(s1.topics[i].tags, keys.drop_last()) == s1.topics[i].tags);
    assert(tags_remove_keys(s1.topics[i].tags, keys) == tags_remove(s1.topics[i].tags, k));
    assert(s1.topics[i].tags[0].0 == k);
    assert(tags_remove(s1.topics[i].tags, k) =~= Seq::<(Seq<char>, Seq<char>)>::empty());

    let o3 = untag_resource_outcome(s1, req_untag, rid3);
    let s2 = AppStateV { topics: o3.topics, sqs_clients: o3.clients };
    assert forall|j: int| 0 <= j < i implies s2.topics[j].name != tname by {
        assert(s2.topics[j] == s.topics[j]);
    }
    assert(s2.topics[i].name == tname);
    lemma_find_topic_first(s2.topics, tname, i);
    assert(s2.topics[i].tags =~= Seq::<(Seq<char>, Seq<char>)>::empty());

    let o4 = list_tags_outcome(s2, req_list, rid4);
    assert(o4.body == list_tags_xml(Seq::<(Seq<char>, Seq<char>)>::empty(), rid4));
}

} // verus!
