//! Model of the point store's untyped key/value payload for one card.

use vstd::prelude::*;

verus! {

/// One value stored under a key of a card's payload.
///
/// The point store keeps untyped metadata with runtime type tags; the codec
/// models it as this closed set of variants and pattern-matches exhaustively.
/// `Other` stands for every tag the codec has no use for (doubles, lists,
/// nested maps): a required field carrying such a value is mistyped, never
/// silently coerced.
#[derive(Debug, PartialEq, Eq)]
pub enum PayloadValue {
    Text(String),
    Integer(i64),
    Bool(bool),
    Null,
    Other,
}

/// The payload of one stored card, restricted to the fixed field vocabulary
/// the repository reads and writes. `None` means the key is absent from the
/// stored map.
#[derive(Debug, PartialEq, Eq)]
pub struct Payload {
    pub content: Option<PayloadValue>,
    pub topic: Option<PayloadValue>,
    pub side: Option<PayloadValue>,
    pub user_id: Option<PayloadValue>,
    pub link: Option<PayloadValue>,
    pub upvotes: Option<PayloadValue>,
    pub downvotes: Option<PayloadValue>,
    pub created_at: Option<PayloadValue>,
}

/// The field is present and string-typed.
pub open spec fn is_text(v: Option<PayloadValue>) -> bool {
    v matches Some(PayloadValue::Text(_))
}

/// The string held by a present, string-typed field.
pub open spec fn text_val(v: Option<PayloadValue>) -> String
    recommends
        is_text(v),
{
    match v {
        Some(PayloadValue::Text(s)) => s,
        _ => arbitrary(),
    }
}

/// The field is present and integer-typed.
pub open spec fn is_integer(v: Option<PayloadValue>) -> bool {
    v matches Some(PayloadValue::Integer(_))
}

/// The integer held by a present, integer-typed field.
pub open spec fn int_val(v: Option<PayloadValue>) -> i64
    recommends
        is_integer(v),
{
    match v {
        Some(PayloadValue::Integer(n)) => n,
        _ => arbitrary(),
    }
}

/// Both vote counters are present and integer-typed.
pub open spec fn counters_typed(p: Payload) -> bool {
    is_integer(p.upvotes) && is_integer(p.downvotes)
}

/// The upvote counter as the vote protocol reads it: the stored value when
/// both counters are integer-typed, the defensive default 0 otherwise.
pub open spec fn read_upvotes(p: Payload) -> i64 {
    if counters_typed(p) {
        int_val(p.upvotes)
    } else {
        0
    }
}

/// The downvote counter as the vote protocol reads it, with the same
/// defensive default as `read_upvotes`.
pub open spec fn read_downvotes(p: Payload) -> i64 {
    if counters_typed(p) {
        int_val(p.downvotes)
    } else {
        0
    }
}

/// An optional field read leniently: a present string is kept, anything else
/// (absent, null, mistyped) is treated as absent.
pub open spec fn lenient_text(v: Option<PayloadValue>) -> Option<String> {
    match v {
        Some(PayloadValue::Text(s)) => Some(s),
        _ => None,
    }
}

} // verus!
