//! Codec between a card's domain representation and its stored payload.
//!
//! Required fields (`content`, `side`, `topic`, `upvotes`, `downvotes`) are
//! strict: a payload missing or mistyping any of them is corrupt and decodes
//! to nothing, never to a partially filled record. The optional `link` field
//! is lenient: anything but a present string is read as absent. The net vote
//! count is derived at decode time as `upvotes - downvotes`; a corrupt pair
//! of counters whose difference does not fit the counter type is likewise
//! treated as unreadable rather than wrapped.

use vstd::prelude::*;

use crate::ids::{point_ident_to_string, spec_ident_chars, PointIdent};
use crate::payload::{
    counters_typed, int_val, is_text, lenient_text, text_val, Payload, PayloadValue,
};

verus! {

/// A card as returned by direct lookup by id: the stored required fields,
/// the lenient optional link, and the derived net vote count.
#[derive(Debug, PartialEq, Eq)]
pub struct RetrievedCardDTO {
    pub content: String,
    pub side: String,
    pub topic: String,
    pub votes: i64,
    pub link: Option<String>,
}

/// Every required field is present and carries the required type.
pub open spec fn required_fields_typed(p: Payload) -> bool {
    &&& is_text(p.content)
    &&& is_text(p.side)
    &&& is_text(p.topic)
    &&& counters_typed(p)
}

/// The net vote count of a payload with typed counters, as an unbounded
/// integer.
pub open spec fn spec_votes(p: Payload) -> int
    recommends
        counters_typed(p),
{
    int_val(p.upvotes) - int_val(p.downvotes)
}

/// The derived net vote count fits the counter type.
pub open spec fn votes_representable(p: Payload) -> bool {
    i64::MIN <= spec_votes(p) <= i64::MAX
}

/// A payload decodes to a card record exactly when every required field is
/// typed and the derived vote count is representable.
pub open spec fn decodable(p: Payload) -> bool {
    required_fields_typed(p) && votes_representable(p)
}

/// What decoding a payload into a retrieved card yields.
pub open spec fn spec_decode(p: Payload) -> Option<RetrievedCardDTO> {
    if decodable(p) {
        Some(
            (RetrievedCardDTO {
                content: text_val(p.content),
                side: text_val(p.side),
                topic: text_val(p.topic),
                votes: spec_votes(p) as i64,
                link: lenient_text(p.link),
            }),
        )
    } else {
        None
    }
}

/// Decodes a stored payload into a retrieved card, failing on any missing or
/// mistyped required field.
pub fn retrieved_point_to_card_dto(p: &Payload) -> (r: Option<RetrievedCardDTO>)
    ensures
        r == spec_decode(*p),
{
    match (&p.content, &p.side, &p.topic, &p.upvotes, &p.downvotes) {
        (
            Some(PayloadValue::Text(content)),
            Some(PayloadValue::Text(side)),
            Some(PayloadValue::Text(topic)),
            Some(PayloadValue::Integer(upvotes)),
            Some(PayloadValue::Integer(downvotes)),
        ) => match upvotes.checked_sub(*downvotes) {
            Some(votes) => {
                let link = match &p.link {
                    Some(PayloadValue::Text(s)) => Some(s.clone()),
                    _ => None,
                };
                Some(
                    RetrievedCardDTO {
                        content: content.clone(),
                        side: side.clone(),
                        topic: topic.clone(),
                        votes,
                        link,
                    },
                )
            },
            None => None,
        },
        _ => None,
    }
}

/// The payload written for a freshly created card: required fields from the
/// submitted card, owner and creation timestamp as given, an absent link
/// stored as an explicit null, and both vote counters at zero.
pub open spec fn spec_encode(
    content: String,
    topic: String,
    side: String,
    link: Option<String>,
    owner_id: String,
    created_at: String,
) -> Payload {
    Payload {
        content: Some(PayloadValue::Text(content)),
        topic: Some(PayloadValue::Text(topic)),
        side: Some(PayloadValue::Text(side)),
        user_id: Some(PayloadValue::Text(owner_id)),
        link: match link {
            Some(l) => Some(PayloadValue::Text(l)),
            None => Some(PayloadValue::Null),
        },
        upvotes: Some(PayloadValue::Integer(0)),
        downvotes: Some(PayloadValue::Integer(0)),
        created_at: Some(PayloadValue::Text(created_at)),
    }
}

/// Builds the payload for a freshly created card, counters zeroed.
pub fn encode_card_payload(
    content: String,
    topic: String,
    side: String,
    link: Option<String>,
    owner_id: String,
    created_at: String,
) -> (r: Payload)
    ensures
        r == spec_encode(content, topic, side, link, owner_id, created_at),
{
    let link_value = match link {
        Some(l) => Some(PayloadValue::Text(l)),
        None => Some(PayloadValue::Null),
    };
    Payload {
        content: Some(PayloadValue::Text(content)),
        topic: Some(PayloadValue::Text(topic)),
        side: Some(PayloadValue::Text(side)),
        user_id: Some(PayloadValue::Text(owner_id)),
        link: link_value,
        upvotes: Some(PayloadValue::Integer(0)),
        downvotes: Some(PayloadValue::Integer(0)),
        created_at: Some(PayloadValue::Text(created_at)),
    }
}

/// Round-trip law: a freshly encoded payload always decodes, and the decoded
/// record returns the encoded content, side, topic and link unchanged, with a
/// net vote count of zero.
pub proof fn lemma_encode_decode_roundtrip(
    content: String,
    topic: String,
    side: String,
    link: Option<String>,
    owner_id: String,
    created_at: String,
)
    ensures
        decodable(spec_encode(content, topic, side, link, owner_id, created_at)),
        spec_decode(spec_encode(content, topic, side, link, owner_id, created_at)) == Some(
            (RetrievedCardDTO { content, side, topic, votes: 0, link }),
        ),
{
}

/// Strictness law: a payload whose upvote counter is absent never decodes,
/// whatever the rest of the payload holds.
pub proof fn lemma_decode_rejects_missing_upvotes(p: Payload)
    requires
        p.upvotes is None,
    ensures
        spec_decode(p) is None,
{
}

/// A card as returned by similarity search: the stored fields plus the point
/// id rendered as a string and the store-reported similarity score. The
/// score is opaque to the repository, which never reads or re-orders by it;
/// it is carried through as the type parameter `S`.
#[derive(Debug, PartialEq)]
pub struct ScoredCardDTO<S> {
    pub id: String,
    pub content: String,
    pub side: String,
    pub topic: String,
    pub score: S,
    pub votes: i64,
    pub link: Option<String>,
}

/// One raw hit of a nearest-neighbour search: the store-reported similarity
/// score, the point identifier if the store supplied one, and the payload.
#[derive(Debug, PartialEq)]
pub struct SearchHit<S> {
    pub score: S,
    pub id: Option<PointIdent>,
    pub payload: Payload,
}

/// A search hit decodes exactly when the store supplied an identifier and
/// the payload decodes.
pub open spec fn hit_decodable<S>(h: SearchHit<S>) -> bool {
    h.id is Some && decodable(h.payload)
}

/// The rendered identifier of a search hit.
pub open spec fn hit_id_chars<S>(h: SearchHit<S>) -> Seq<char>
    recommends
        h.id is Some,
{
    match h.id {
        Some(pid) => spec_ident_chars(pid),
        None => Seq::empty(),
    }
}

/// The projection of one decodable search hit matches the raw hit field for
/// field: same identifier rendering, same stored strings, the score carried
/// through untouched, and the derived net vote count.
pub open spec fn scored_matches<S>(r: ScoredCardDTO<S>, h: SearchHit<S>) -> bool {
    &&& hit_decodable(h)
    &&& r.id@ == hit_id_chars(h)
    &&& r.content == text_val(h.payload.content)
    &&& r.side == text_val(h.payload.side)
    &&& r.topic == text_val(h.payload.topic)
    &&& r.score == h.score
    &&& r.votes == spec_votes(h.payload)
    &&& r.link == lenient_text(h.payload.link)
}

/// Decodes one search hit, failing on a missing identifier or on any missing
/// or mistyped required payload field.
pub fn decode_search_hit<S>(h: SearchHit<S>) -> (r: Option<ScoredCardDTO<S>>)
    ensures
        r is Some <==> hit_decodable(h),
        r matches Some(c) ==> scored_matches(c, h),
{
    let SearchHit { score, id, payload } = h;
    let pid = match id {
        Some(pid) => pid,
        None => {
            return None;
        },
    };
    let id_string = point_ident_to_string(pid);
    match (
        &payload.content,
        &payload.side,
        &payload.topic,
        &payload.upvotes,
        &payload.downvotes,
    ) {
        (
            Some(PayloadValue::Text(content)),
            Some(PayloadValue::Text(side)),
            Some(PayloadValue::Text(topic)),
            Some(PayloadValue::Integer(upvotes)),
            Some(PayloadValue::Integer(downvotes)),
        ) => match upvotes.checked_sub(*downvotes) {
            Some(votes) => {
                let link = match &payload.link {
                    Some(PayloadValue::Text(s)) => Some(s.clone()),
                    _ => None,
                };
                Some(
                    ScoredCardDTO {
                        id: id_string,
                        content: content.clone(),
                        side: side.clone(),
                        topic: topic.clone(),
                        score,
                        votes,
                        link,
                    },
                )
            },
            None => None,
        },
        _ => None,
    }
}

/// The decodable hits of a search page, in the store's ranking order.
pub open spec fn decodable_hits<S>(hits: Seq<SearchHit<S>>) -> Seq<SearchHit<S>>
    decreases hits.len(),
{
    if hits.len() == 0 {
        Seq::empty()
    } else {
        let rest = decodable_hits(hits.drop_last());
        if hit_decodable(hits.last()) {
            rest.push(hits.last())
        } else {
            rest
        }
    }
}

/// Projects one page of raw search hits into scored cards: every hit that
/// fails to decode is dropped silently, every hit that decodes appears, and
/// the store's ranking order is kept. An all-undecodable page yields an
/// empty sequence, not a failure.
pub fn decode_search_page<S>(hits: Vec<SearchHit<S>>) -> (r: Vec<ScoredCardDTO<S>>)
    ensures
        r@.len() == decodable_hits(hits@).len(),
        forall|i: int|
            0 <= i < r@.len() ==> scored_matches(#[trigger] r@[i], decodable_hits(hits@)[i]),
{
    let ghost orig = hits@;
    let mut hits = hits;
    let mut out: Vec<ScoredCardDTO<S>> = Vec::new();
    let ghost mut processed: int = 0;
    while hits.len() > 0
        invariant
            0 <= processed <= orig.len(),
            hits@ == orig.skip(processed),
            out@.len() == decodable_hits(orig.take(processed)).len(),
            forall|k: int|
                0 <= k < out@.len() ==> scored_matches(
                    #[trigger] out@[k],
                    decodable_hits(orig.take(processed))[k],
                ),
        decreases hits.len(),
    {
        let h = hits.remove(0);
        proof {
            assert(h == orig[processed]);
            assert(hits@ =~= orig.skip(processed + 1));
        }
        if let Some(card) = decode_search_hit(h) {
            out.push(card);
        }
        proof {
            processed = processed + 1;
            assert(orig.take(processed).drop_last() =~= orig.take(processed - 1));
            assert(orig.take(processed).last() == orig[processed - 1]);
        }
    }
    proof {
        assert(orig.take(processed) =~= orig);
    }
    out
}

/// Strictness law for the search projection: a hit whose payload misses its
/// upvote counter never decodes, whatever the rest of the hit holds.
pub proof fn lemma_hit_rejects_missing_upvotes<S>(h: SearchHit<S>)
    requires
        h.payload.upvotes is None,
    ensures
        !hit_decodable(h),
{
}

} // verus!
