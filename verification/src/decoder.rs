//! The field-group decoder: turns the flat multimap of submitted form
//! fields into a typed request, resolving indexed repeating-group keys
//! (`Prefix.entry.<n>.<field>`) into ordered, 1-based, gap-filled lists.
//!
//! Keys arrive in submission order; for scalars and for a repeated
//! `(index, field)` pair the last write wins. An index of 0, a non-numeric
//! index, and any key matching no known field are silently ignored.

use vstd::prelude::*;
use vstd::string::*;
use crate::state::{AttributeEntry, SnsRequest, SnsRequestV, TagEntry};
use crate::strutil::{
    is_prefix_of, count_char, before_last, after_last, index_val, str_eq, starts_with, copy_range,
    find_char_from, rfind_char, parse_index, lemma_count_char_absent, lemma_count_char_one,
    lemma_count_char_two, lemma_count_char_at, lemma_after_last_found,
};

verus! {

/// The value of the last pair named `name`, if any.
pub open spec fn scalar_of(ps: Seq<(Seq<char>, Seq<char>)>, name: Seq<char>) -> Option<Seq<char>>
    decreases ps.len(),
{
    if ps.len() == 0 {
        None
    } else if ps.last().0 == name {
        Some(ps.last().1)
    } else {
        scalar_of(ps.drop_last(), name)
    }
}

/// Decomposes a `<prefix><index>.<field>` key: defined when `key` starts
/// with `prefix` and the remainder holds exactly one dot. The index is 0
/// for any unusable index string.
pub open spec fn group_field_key(key: Seq<char>, prefix: Seq<char>) -> Option<(nat, Seq<char>)> {
    if is_prefix_of(prefix, key) {
        let rem = key.subrange(prefix.len() as int, key.len() as int);
        if count_char(rem, '.') == 1 {
            Some((index_val(before_last(rem, '.')), after_last(rem, '.')))
        } else {
            None
        }
    } else {
        None
    }
}

/// Decomposes a `<prefix><index>` key: defined when `key` starts with
/// `prefix` and the remainder holds no dot.
pub open spec fn group_item_key(key: Seq<char>, prefix: Seq<char>) -> Option<nat> {
    if is_prefix_of(prefix, key) {
        let rem = key.subrange(prefix.len() as int, key.len() as int);
        if count_char(rem, '.') == 0 {
            Some(index_val(rem))
        } else {
            None
        }
    } else {
        None
    }
}

/// Pads a pair list with empty-string placeholders up to length `n`.
pub open spec fn pad_pairs(s: Seq<(Seq<char>, Seq<char>)>, n: nat) -> Seq<(Seq<char>, Seq<char>)> {
    if s.len() >= n {
        s
    } else {
        s + Seq::new((n - s.len()) as nat, |i: int| (Seq::<char>::empty(), Seq::<char>::empty()))
    }
}

/// Pads a string list with empty-string placeholders up to length `n`.
pub open spec fn pad_items(s: Seq<Seq<char>>, n: nat) -> Seq<Seq<char>> {
    if s.len() >= n {
        s
    } else {
        s + Seq::new((n - s.len()) as nat, |i: int| Seq::<char>::empty())
    }
}

/// One step of assembling a two-field group: pad to the index, then write
/// the addressed subfield; unrecognized subfields still pad.
pub open spec fn group2_step(
    acc: Seq<(Seq<char>, Seq<char>)>,
    key: Seq<char>,
    val: Seq<char>,
    prefix: Seq<char>,
    key_field: Seq<char>,
    val_field: Seq<char>,
) -> Seq<(Seq<char>, Seq<char>)> {
    match group_field_key(key, prefix) {
        Some((idx, field)) => {
            if idx == 0 {
                acc
            } else {
                let p = pad_pairs(acc, idx);
                if field == key_field {
                    p.update(idx - 1, (val, p[idx - 1].1))
                } else if field == val_field {
                    p.update(idx - 1, (p[idx - 1].0, val))
                } else {
                    p
                }
            }
        },
        None => acc,
    }
}

/// The two-field group assembled from all pairs, in submission order.
pub open spec fn group2_of(
    ps: Seq<(Seq<char>, Seq<char>)>,
    prefix: Seq<char>,
    key_field: Seq<char>,
    val_field: Seq<char>,
) -> Seq<(Seq<char>, Seq<char>)>
    decreases ps.len(),
{
    if ps.len() == 0 {
        Seq::empty()
    } else {
        group2_step(
            group2_of(ps.drop_last(), prefix, key_field, val_field),
            ps.last().0,
            ps.last().1,
            prefix,
            key_field,
            val_field,
        )
    }
}

/// One step of assembling a single-value group.
pub open spec fn group1_step(
    acc: Seq<Seq<char>>,
    key: Seq<char>,
    val: Seq<char>,
    prefix: Seq<char>,
) -> Seq<Seq<char>> {
    match group_item_key(key, prefix) {
        Some(idx) => {
            if idx == 0 {
                acc
            } else {
                pad_items(acc, idx).update(idx - 1, val)
            }
        },
        None => acc,
    }
}

/// The single-value group assembled from all pairs, in submission order.
pub open spec fn group1_of(ps: Seq<(Seq<char>, Seq<char>)>, prefix: Seq<char>) -> Seq<Seq<char>>
    decreases ps.len(),
{
    if ps.len() == 0 {
        Seq::empty()
    } else {
        group1_step(group1_of(ps.drop_last(), prefix), ps.last().0, ps.last().1, prefix)
    }
}

/// A group with no matched entry yields an absent result, so handlers can
/// tell "no list supplied" from "empty list supplied".
pub open spec fn opt_group<T>(s: Seq<T>) -> Option<Seq<T>> {
    if s.len() == 0 {
        None
    } else {
        Some(s)
    }
}

/// The attribute-entry group of a request.
pub open spec fn attributes_group(ps: Seq<(Seq<char>, Seq<char>)>) -> Seq<(Seq<char>, Seq<char>)> {
    group2_of(ps, "Attributes.entry."@, "key"@, "value"@)
}

/// The tag-entry group of a request.
pub open spec fn tags_group(ps: Seq<(Seq<char>, Seq<char>)>) -> Seq<(Seq<char>, Seq<char>)> {
    group2_of(ps, "Tags.member."@, "Key"@, "Value"@)
}

/// The tag-key group of a request.
pub open spec fn tag_keys_group(ps: Seq<(Seq<char>, Seq<char>)>) -> Seq<Seq<char>> {
    group1_of(ps, "TagKeys.member."@)
}

/// The request decoded from the submitted pairs; meaningful only when an
/// `Action` field is present.
pub open spec fn request_of(ps: Seq<(Seq<char>, Seq<char>)>) -> SnsRequestV {
    SnsRequestV {
        action: scalar_of(ps, "Action"@)->Some_0,
        name: scalar_of(ps, "Name"@),
        topic_arn: scalar_of(ps, "TopicArn"@),
        resource_arn: scalar_of(ps, "ResourceArn"@),
        endpoint: scalar_of(ps, "Endpoint"@),
        protocol: scalar_of(ps, "Protocol"@),
        subscription_arn: scalar_of(ps, "SubscriptionArn"@),
        message: scalar_of(ps, "Message"@),
        subject: scalar_of(ps, "Subject"@),
        attribute_name: scalar_of(ps, "AttributeName"@),
        attribute_value: scalar_of(ps, "AttributeValue"@),
        attributes_entry: opt_group(attributes_group(ps)),
        tags_entry: opt_group(tags_group(ps)),
        tag_keys_entry: opt_group(tag_keys_group(ps)),
    }
}

/// Overwrites `slot` when `key` names this scalar field.
fn apply_scalar(slot: &mut Option<String>, name: &str, key: &str, val: &str)
    ensures
        final(slot).deep_view() == (if key@ == name@ {
            Some(val@)
        } else {
            old(slot).deep_view()
        }),
{
    if str_eq(key, name) {
        *slot = Some(val.to_owned());
    }
}

/// A matched two-segment group suffix: the positive index before the
/// unique dot, and the subfield name after it.
struct GroupSuffix {
    index: usize,
    field: String,
}

/// Splits a group key's remainder `<index>.<field>` when it has exactly
/// that shape; `None` otherwise.
fn split_group_suffix(key: &str, prefix: &str) -> (r: Option<GroupSuffix>)
    ensures
        match r {
            Some(g) => g.index > 0 && group_field_key(key@, prefix@) == Some(
                (g.index as nat, g.field@),
            ),
            None => group_field_key(key@, prefix@) is None || group_field_key(
                key@,
                prefix@,
            )->Some_0.0 == 0,
        },
{
    if !starts_with(key, prefix) {
        return None;
    }
    let plen = prefix.unicode_len();
    let klen = key.unicode_len();
    let rem = copy_range(key, plen, klen);
    let ghost remv = key@.subrange(prefix@.len() as int, key@.len() as int);
    let rlen = rem.unicode_len();
    let first = find_char_from(rem.as_str(), 0, '.');
    match first {
        None => {
            proof {
                lemma_count_char_absent(remv, '.');
            }
            None
        },
        Some(d) => {
            let last = rfind_char(rem.as_str(), '.');
            match last {
                None => {
                    proof {
                        assert(false);
                    }
                    None
                },
                Some(b) => {
                    if d != b {
                        proof {
                            lemma_count_char_two(remv, '.', d as int, b as int);
                        }
                        return None;
                    }
                    proof {
                        lemma_count_char_one(remv, '.', d as int);
                        lemma_after_last_found(remv, '.', d as int);
                    }
                    let idx_str = copy_range(rem.as_str(), 0, d);
                    let field = copy_range(rem.as_str(), d + 1, rlen);
                    let index = parse_index(idx_str.as_str());
                    if index == 0 {
                        return None;
                    }
                    Some(GroupSuffix { index, field })
                },
            }
        },
    }
}

/// Splits a group key's remainder when it is a bare `<index>`.
fn split_item_suffix(key: &str, prefix: &str) -> (r: Option<usize>)
    ensures
        match r {
            Some(i) => group_item_key(key@, prefix@) == Some(i as nat) && i > 0,
            None => group_item_key(key@, prefix@) is None || group_item_key(
                key@,
                prefix@,
            )->Some_0 == 0,
        },
{
    if !starts_with(key, prefix) {
        return None;
    }
    let plen = prefix.unicode_len();
    let klen = key.unicode_len();
    let rem = copy_range(key, plen, klen);
    let ghost remv = key@.subrange(prefix@.len() as int, key@.len() as int);
    let first = find_char_from(rem.as_str(), 0, '.');
    match first {
        None => {
            proof {
                lemma_count_char_absent(remv, '.');
            }
            let index = parse_index(rem.as_str());
            if index == 0 {
                return None;
            }
            Some(index)
        },
        Some(d) => {
            proof {
                lemma_count_char_at(remv, '.', d as int);
            }
            None
        },
    }
}

/// Pads `list` with default entries up to length `n`.
fn pad_tag_entries(list: &mut Vec<TagEntry>, n: usize)
    ensures
        final(list).deep_view() == pad_pairs(old(list).deep_view(), n as nat),
        final(list).len() >= n,
        final(list).len() >= old(list).len(),
{
    while list.len() < n
        invariant
            list.len() >= old(list).len(),
            list.len() == old(list).len() || list.len() <= n,
            list.deep_view() == pad_pairs(old(list).deep_view(), list.deep_view().len()),
        decreases n - list.len(),
    {
        list.push(TagEntry { key: String::new(), value: String::new() });
        proof {
            let od = old(list).deep_view();
            let l = (list.deep_view().len() - 1) as nat;
            assert(pad_pairs(od, l + 1) =~~= pad_pairs(od, l).push(
                (Seq::<char>::empty(), Seq::<char>::empty()),
            ));
            assert(list.deep_view() =~~= pad_pairs(od, list.deep_view().len()));
        }
    }
    proof {
        if list.len() > n {
            assert(list.len() == old(list).len());
            assert(old(list).deep_view().len() >= n);
            assert(pad_pairs(old(list).deep_view(), n as nat) == old(list).deep_view());
        }
    }
}

/// Pads `list` with default entries up to length `n`.
fn pad_attr_entries(list: &mut Vec<AttributeEntry>, n: usize)
    ensures
        final(list).deep_view() == pad_pairs(old(list).deep_view(), n as nat),
        final(list).len() >= n,
        final(list).len() >= old(list).len(),
{
    while list.len() < n
        invariant
            list.len() >= old(list).len(),
            list.len() == old(list).len() || list.len() <= n,
            list.deep_view() == pad_pairs(old(list).deep_view(), list.deep_view().len()),
        decreases n - list.len(),
    {
        list.push(AttributeEntry { key: String::new(), value: String::new() });
        proof {
            let od = old(list).deep_view();
            let l = (list.deep_view().len() - 1) as nat;
            assert(pad_pairs(od, l + 1) =~~= pad_pairs(od, l).push(
                (Seq::<char>::empty(), Seq::<char>::empty()),
            ));
            assert(list.deep_view() =~~= pad_pairs(od, list.deep_view().len()));
        }
    }
    proof {
        if list.len() > n {
            assert(list.len() == old(list).len());
            assert(old(list).deep_view().len() >= n);
            assert(pad_pairs(old(list).deep_view(), n as nat) == old(list).deep_view());
        }
    }
}

/// Pads `list` with empty strings up to length `n`.
fn pad_item_entries(list: &mut Vec<String>, n: usize)
    ensures
        final(list).deep_view() == pad_items(old(list).deep_view(), n as nat),
        final(list).len() >= n,
        final(list).len() >= old(list).len(),
{
    while list.len() < n
        invariant
            list.len() >= old(list).len(),
            list.len() == old(list).len() || list.len() <= n,
            list.deep_view() == pad_items(old(list).deep_view(), list.deep_view().len()),
        decreases n - list.len(),
    {
        list.push(String::new());
        proof {
            let od = old(list).deep_view();
            let l = (list.deep_view().len() - 1) as nat;
            assert(pad_items(od, l + 1) =~~= pad_items(od, l).push(Seq::<char>::empty()));
            assert(list.deep_view() =~~= pad_items(od, list.deep_view().len()));
        }
    }
    proof {
        if list.len() > n {
            assert(list.len() == old(list).len());
            assert(old(list).deep_view().len() >= n);
            assert(pad_items(old(list).deep_view(), n as nat) == old(list).deep_view());
        }
    }
}

/// Feeds one form pair into the tag-entry group.
fn apply_tags_key(list: &mut Vec<TagEntry>, key: &str, val: &str)
    ensures
        final(list).deep_view() == group2_step(
            old(list).deep_view(),
            key@,
            val@,
            "Tags.member."@,
            "Key"@,
            "Value"@,
        ),
{
    let g = match split_group_suffix(key, "Tags.member.") {
        Some(g) => g,
        None => {
            return;
        },
    };
    let idx = g.index;
    pad_tag_entries(list, idx);
    if str_eq(g.field.as_str(), "Key") {
        let e = list.remove(idx - 1);
        list.insert(idx - 1, TagEntry { key: val.to_owned(), value: e.value });
        proof {
            assert(final(list).deep_view() =~~= group2_step(
                old(list).deep_view(),
                key@,
                val@,
                "Tags.member."@,
                "Key"@,
                "Value"@,
            ));
        }
    } else if str_eq(g.field.as_str(), "Value") {
        let e = list.remove(idx - 1);
        list.insert(idx - 1, TagEntry { key: e.key, value: val.to_owned() });
        proof {
            assert(final(list).deep_view() =~~= group2_step(
                old(list).deep_view(),
                key@,
                val@,
                "Tags.member."@,
                "Key"@,
                "Value"@,
            ));
        }
    }
}

/// Feeds one form pair into the attribute-entry group.
fn apply_attrs_key(list: &mut Vec<AttributeEntry>, key: &str, val: &str)
    ensures
        final(list).deep_view() == group2_step(
            old(list).deep_view(),
            key@,
            val@,
            "Attributes.entry."@,
            "key"@,
            "value"@,
        ),
{
    let g = match split_group_suffix(key, "Attributes.entry.") {
        Some(g) => g,
        None => {
            return;
        },
    };
    let idx = g.index;
    pad_attr_entries(list, idx);
    if str_eq(g.field.as_str(), "key") {
        let e = list.remove(idx - 1);
        list.insert(idx - 1, AttributeEntry { key: val.to_owned(), value: e.value });
        proof {
            assert(final(list).deep_view() =~~= group2_step(
                old(list).deep_view(),
                key@,
                val@,
                "Attributes.entry."@,
                "key"@,
                "value"@,
            ));
        }
    } else if str_eq(g.field.as_str(), "value") {
        let e = list.remove(idx - 1);
        list.insert(idx - 1, AttributeEntry { key: e.key, value: val.to_owned() });
        proof {
            assert(final(list).deep_view() =~~= group2_step(
                old(list).deep_view(),
                key@,
                val@,
                "Attributes.entry."@,
                "key"@,
                "value"@,
            ));
        }
    }
}

/// Feeds one form pair into the tag-key group.
fn apply_tag_keys_key(list: &mut Vec<String>, key: &str, val: &str)
    ensures
        final(list).deep_view() == group1_step(
            old(list).deep_view(),
            key@,
            val@,
            "TagKeys.member."@,
        ),
{
    let idx = match split_item_suffix(key, "TagKeys.member.") {
        Some(i) => i,
        None => {
            return;
        },
    };
    pad_item_entries(list, idx);
    let _ = list.remove(idx - 1);
    list.insert(idx - 1, val.to_owned());
    proof {
        assert(final(list).deep_view() =~~= group1_step(
            old(list).deep_view(),
            key@,
            val@,
            "TagKeys.member."@,
        ));
    }
}

/// Decodes the submitted form pairs into a typed request. Returns `None`
/// exactly when no `Action` field was submitted.
pub fn decode_request(pairs: &Vec<(String, String)>) -> (r: Option<SnsRequest>)
    ensures
        match r {
            Some(req) => scalar_of(pairs.deep_view(), "Action"@) is Some && req@ == request_of(
                pairs.deep_view(),
            ),
            None => scalar_of(pairs.deep_view(), "Action"@) is None,
        },
{
    let ghost pv = pairs.deep_view();
    let mut action: Option<String> = None;
    let mut name: Option<String> = None;
    let mut topic_arn: Option<String> = None;
    let mut resource_arn: Option<String> = None;
    let mut endpoint: Option<String> = None;
    let mut protocol: Option<String> = None;
    let mut subscription_arn: Option<String> = None;
    let mut message: Option<String> = None;
    let mut subject: Option<String> = None;
    let mut attribute_name: Option<String> = None;
    let mut attribute_value: Option<String> = None;
    let mut attrs: Vec<AttributeEntry> = Vec::new();
    let mut tags: Vec<TagEntry> = Vec::new();
    let mut tag_keys: Vec<String> = Vec::new();

    let n = pairs.len();
    let mut i: usize = 0;
    proof {
        assert(attrs.deep_view() =~= attributes_group(pv.subrange(0, 0)));
        assert(tags.deep_view() =~= tags_group(pv.subrange(0, 0)));
        assert(tag_keys.deep_view() =~= tag_keys_group(pv.subrange(0, 0)));
    }
    while i < n
        invariant
            n == pairs.len(),
            i <= n,
            pv == pairs.deep_view(),
            pv.len() == n,
            action.deep_view() == scalar_of(pv.subrange(0, i as int), "Action"@),
            name.deep_view() == scalar_of(pv.subrange(0, i as int), "Name"@),
            topic_arn.deep_view() == scalar_of(pv.subrange(0, i as int), "TopicArn"@),
            resource_arn.deep_view() == scalar_of(pv.subrange(0, i as int), "ResourceArn"@),
            endpoint.deep_view() == scalar_of(pv.subrange(0, i as int), "Endpoint"@),
            protocol.deep_view() == scalar_of(pv.subrange(0, i as int), "Protocol"@),
            subscription_arn.deep_view() == scalar_of(pv.subrange(0, i as int), "SubscriptionArn"@),
            message.deep_view() == scalar_of(pv.subrange(0, i as int), "Message"@),
            subject.deep_view() == scalar_of(pv.subrange(0, i as int), "Subject"@),
            attribute_name.deep_view() == scalar_of(pv.subrange(0, i as int), "AttributeName"@),
            attribute_value.deep_view() == scalar_of(pv.subrange(0, i as int), "AttributeValue"@),
            attrs.deep_view() == attributes_group(pv.subrange(0, i as int)),
            tags.deep_view() == tags_group(pv.subrange(0, i as int)),
            tag_keys.deep_view() == tag_keys_group(pv.subrange(0, i as int)),
        decreases n - i,
    {
        let key: &str = pairs[i].0.as_str();
        let val: &str = pairs[i].1.as_str();
        proof {
            assert(pv[i as int] == pairs@[i as int].deep_view());
            assert(pv[i as int].0 == key@ && pv[i as int].1 == val@);
        }
        apply_scalar(&mut action, "Action", key, val);
        apply_scalar(&mut name, "Name", key, val);
        apply_scalar(&mut topic_arn, "TopicArn", key, val);
        apply_scalar(&mut resource_arn, "ResourceArn", key, val);
        apply_scalar(&mut endpoint, "Endpoint", key, val);
        apply_scalar(&mut protocol, "Protocol", key, val);
        apply_scalar(&mut subscription_arn, "SubscriptionArn", key, val);
        apply_scalar(&mut message, "Message", key, val);
        apply_scalar(&mut subject, "Subject", key, val);
        apply_scalar(&mut attribute_name, "AttributeName", key, val);
        apply_scalar(&mut attribute_value, "AttributeValue", key, val);
        apply_attrs_key(&mut attrs, key, val);
        apply_tags_key(&mut tags, key, val);
        apply_tag_keys_key(&mut tag_keys, key, val);
        proof {
            let pre = pv.subrange(0, i as int);
            let post = pv.subrange(0, (i + 1) as int);
            assert(post.drop_last() =~= pre);
            assert(post.last() == pv[i as int]);
        }
        i += 1;
    }
    proof {
        assert(pv.subrange(0, n as int) =~= pv);
    }
    let action = match action {
        Some(a) => a,
        None => {
            return None;
        },
    };
    let req = SnsRequest {
        action,
        name,
        topic_arn,
        resource_arn,
        endpoint,
        protocol,
        subscription_arn,
        message,
        subject,
        attribute_name,
        attribute_value,
        attributes_entry: if attrs.len() == 0 {
            None
        } else {
            Some(attrs)
        },
        tags_entry: if tags.len() == 0 {
            None
        } else {
            Some(tags)
        },
        tag_keys_entry: if tag_keys.len() == 0 {
            None
        } else {
            Some(tag_keys)
        },
    };
    proof {
        assert(req@ =~~= request_of(pv));
    }
    Some(req)
}

} // verus!
