//! A local emulator for a publish/subscribe notification service's
//! query-string / XML wire protocol: an in-memory topic and subscription
//! registry, a decoder for indexed repeating-group form parameters, an XML
//! response and error encoder, an action dispatcher, and a publish fan-out
//! planner.

pub mod strutil;
pub mod decoder;
pub mod dispatch;
pub mod fanout;
pub mod laws;
pub mod responses;
pub mod state;
pub mod xml;

use vstd::prelude::*;

verus! {

/// The fixed pseudo-account ARN prefix every topic ARN starts with.
pub open spec fn arn_prefix() -> Seq<char> {
    "arn:aws:sns:us-east-1:000000000000:"@
}

/// The ARN of a topic is the fixed prefix followed by the topic name.
pub open spec fn arn_of(name: Seq<char>) -> Seq<char> {
    arn_prefix() + name
}

/// Derives a topic ARN from a topic name.
pub fn make_arn(name: &str) -> (r: String)
    ensures
        r@ == arn_of(name@),
{
    let mut s = String::from_str("arn:aws:sns:us-east-1:000000000000:");
    s.append(name);
    s
}

} // verus!
