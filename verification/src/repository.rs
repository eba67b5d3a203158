//! Repository decisions for create, search, get and vote.
//!
//! Every network call (embedding provider, point store) happens outside the
//! verified code; the functions here take the plain values such a call
//! produced or will consume, and make every decision in between: pagination,
//! id validation, payload interpretation, and the read-modify-write vote
//! protocol. The vote protocol is not linearizable: two concurrent votes on
//! one id can read the same base counters and lose one increment; callers
//! wanting exact counts under concurrency must serialize votes per id.

use vstd::prelude::*;

use crate::codec::{
    decodable, encode_card_payload, retrieved_point_to_card_dto, spec_decode, spec_encode,
    spec_votes, RetrievedCardDTO,
};
use crate::ids::{generate_card_id, uuid_normalized, valid_card_id, validate_card_id};
use crate::payload::{
    counters_typed, int_val, is_text, read_downvotes, read_upvotes, text_val, Payload,
    PayloadValue,
};

verus! {

/// The failures the repository surfaces to its callers. Collaborator
/// failures are non-retryable within a request; decode failures and missing
/// records are reported through the lookup outcomes, not through this type.
#[derive(Clone, Copy, Debug, PartialEq, Eq, Structural)]
pub enum CardError {
    /// The embedding provider call failed; the request cannot proceed.
    EmbeddingError,
    /// The point store could not be reached.
    StorageConnectionError,
    /// The point store rejected a write.
    StorageWriteError,
    /// The point store rejected a read.
    StorageReadError,
    /// The caller supplied a syntactically invalid card id; checked before
    /// any store call and distinct from a missing record.
    MalformedIdentifier,
}

impl CardError {
    /// A short label describing the failure.
    pub fn message(&self) -> (r: &'static str)
        ensures
            match *self {
                CardError::EmbeddingError => r@ == "embedding provider call failed"@,
                CardError::StorageConnectionError => r@ == "failed to connect to the point store"@,
                CardError::StorageWriteError => r@ == "the point store rejected the write"@,
                CardError::StorageReadError => r@ == "the point store rejected the read"@,
                CardError::MalformedIdentifier => r@ == "invalid card id"@,
            },
    {
        match *self {
            CardError::EmbeddingError => "embedding provider call failed",
            CardError::StorageConnectionError => "failed to connect to the point store",
            CardError::StorageWriteError => "the point store rejected the write",
            CardError::StorageReadError => "the point store rejected the read",
            CardError::MalformedIdentifier => "invalid card id",
        }
    }
}

/// A submitted card, as the HTTP surface hands it over.
pub struct CreateCardData {
    pub content: String,
    pub side: String,
    pub topic: String,
    pub link: Option<String>,
}

/// A search request body.
pub struct SearchCardData {
    pub content: String,
}

/// A vote request: the candidate card id as supplied by the caller, still to
/// be validated, and the vote direction, true for an upvote.
pub struct VoteCardData {
    pub card_id: String,
    pub vote: bool,
}

/// Validates a vote request's card id before any store call: the canonical
/// id exactly when the candidate is syntactically well-formed, the
/// malformed-identifier error otherwise — a client input error distinct
/// from a missing record.
pub fn validate_vote_request(data: &VoteCardData) -> (r: Result<String, CardError>)
    ensures
        r matches Ok(c) ==> valid_card_id(data.card_id@) && Some(c@) == uuid_normalized(
            data.card_id@,
        ),
        r matches Err(e) ==> !valid_card_id(data.card_id@) && e == CardError::MalformedIdentifier,
{
    match validate_card_id(data.card_id.as_str()) {
        Some(c) => Ok(c),
        None => Err(CardError::MalformedIdentifier),
    }
}

/// Number of results in one search page.
pub const PAGE_SIZE: u64 = 25;

/// The result offset of a 1-based search page: defined exactly for the
/// positive pages whose offset fits the offset type.
pub open spec fn spec_page_offset(page: u64) -> Option<u64> {
    if 1 <= page && (page - 1) * (PAGE_SIZE as int) <= u64::MAX {
        Some((((page - 1) * (PAGE_SIZE as int)) as u64))
    } else {
        None
    }
}

/// Computes the store offset of a search page, refusing page 0 and pages
/// whose offset would not fit.
pub fn page_offset(page: u64) -> (r: Option<u64>)
    ensures
        r == spec_page_offset(page),
{
    if page < 1 {
        return None;
    }
    (page - 1).checked_mul(PAGE_SIZE)
}

/// Pagination law: the offset advances by exactly one page size from one
/// page to the next.
pub proof fn lemma_page_offset_step(page: u64)
    requires
        page < u64::MAX,
        spec_page_offset(page) is Some,
        spec_page_offset((page + 1) as u64) is Some,
    ensures
        match (spec_page_offset(page), spec_page_offset((page + 1) as u64)) {
            (Some(o1), Some(o2)) => o2 == o1 + PAGE_SIZE,
            _ => false,
        },
{
}

/// Pagination law: two distinct valid pages address disjoint ranking
/// windows; their offsets lie at least one full page size apart.
pub proof fn lemma_pages_disjoint(p1: u64, p2: u64)
    requires
        p1 != p2,
        spec_page_offset(p1) is Some,
        spec_page_offset(p2) is Some,
    ensures
        match (spec_page_offset(p1), spec_page_offset(p2)) {
            (Some(o1), Some(o2)) => o1 + PAGE_SIZE <= o2 || o2 + PAGE_SIZE <= o1,
            _ => false,
        },
{
}

/// The counter chosen by the vote can be incremented without overflowing
/// the counter type.
pub open spec fn can_count_vote(p: Payload, is_upvote: bool) -> bool {
    if is_upvote {
        read_upvotes(p) < i64::MAX
    } else {
        read_downvotes(p) < i64::MAX
    }
}

/// The payload written back by one accepted vote: the counters are read
/// with the defensive default, the chosen counter is stored incremented by
/// one, and every other field is kept untouched.
pub open spec fn spec_apply_vote(p: Payload, is_upvote: bool) -> Payload
    recommends
        can_count_vote(p, is_upvote),
{
    if is_upvote {
        Payload { upvotes: Some(PayloadValue::Integer((read_upvotes(p) + 1) as i64)), ..p }
    } else {
        Payload { downvotes: Some(PayloadValue::Integer((read_downvotes(p) + 1) as i64)), ..p }
    }
}

/// Applies one vote to a fetched payload: reads both counters, defaulting
/// both to zero when either is missing or mistyped, and increments exactly
/// the chosen one. Fails only when that increment would overflow.
pub fn apply_vote(p: Payload, is_upvote: bool) -> (r: Option<Payload>)
    ensures
        r is Some <==> can_count_vote(p, is_upvote),
        r matches Some(q) ==> q == spec_apply_vote(p, is_upvote),
{
    let (upvotes, downvotes) = match (&p.upvotes, &p.downvotes) {
        (Some(PayloadValue::Integer(u)), Some(PayloadValue::Integer(d))) => (*u, *d),
        _ => (0, 0),
    };
    if is_upvote {
        if upvotes == i64::MAX {
            return None;
        }
        Some(Payload { upvotes: Some(PayloadValue::Integer(upvotes + 1)), ..p })
    } else {
        if downvotes == i64::MAX {
            return None;
        }
        Some(Payload { downvotes: Some(PayloadValue::Integer(downvotes + 1)), ..p })
    }
}

/// What one vote request decides once the point was fetched.
#[derive(Debug, PartialEq, Eq)]
pub enum VoteDecision {
    /// No point with the requested id exists.
    NotFound,
    /// The chosen counter cannot be incremented without overflow.
    CounterOverflow,
    /// The payload to write back, under the fetched point's id and vector.
    Write(Payload),
}

/// Decides one vote from the fetch result: a missing point is reported as
/// not found, otherwise the vote is applied to the fetched payload and the
/// result is written back unchanged except for the one counter.
pub fn vote_decision(found: Option<Payload>, is_upvote: bool) -> (r: VoteDecision)
    ensures
        match found {
            None => r is NotFound,
            Some(p) => if can_count_vote(p, is_upvote) {
                r == VoteDecision::Write(spec_apply_vote(p, is_upvote))
            } else {
                r is CounterOverflow
            },
        },
{
    match found {
        None => VoteDecision::NotFound,
        Some(p) => match apply_vote(p, is_upvote) {
            Some(q) => VoteDecision::Write(q),
            None => VoteDecision::CounterOverflow,
        },
    }
}

/// One accepted vote changes exactly the chosen counter, incremented by
/// one over its defensively read value, and no other payload field.
pub proof fn lemma_vote_affects_one_counter(p: Payload, is_upvote: bool)
    requires
        can_count_vote(p, is_upvote),
    ensures
        ({
            let q = spec_apply_vote(p, is_upvote);
            &&& is_upvote ==> int_val(q.upvotes) == read_upvotes(p) + 1 && q.downvotes
                == p.downvotes
            &&& !is_upvote ==> int_val(q.downvotes) == read_downvotes(p) + 1 && q.upvotes
                == p.upvotes
            &&& q.content == p.content
            &&& q.topic == p.topic
            &&& q.side == p.side
            &&& q.user_id == p.user_id
            &&& q.link == p.link
            &&& q.created_at == p.created_at
        }),
{
}

/// The payload after a strictly sequential run of votes, first vote first.
pub open spec fn spec_apply_votes(p: Payload, votes: Seq<bool>) -> Payload
    decreases votes.len(),
{
    if votes.len() == 0 {
        p
    } else {
        spec_apply_votes(spec_apply_vote(p, votes.first()), votes.drop_first())
    }
}

/// Every vote of the run is accepted: each increment in turn stays within
/// the counter type.
pub open spec fn votes_countable(p: Payload, votes: Seq<bool>) -> bool
    decreases votes.len(),
{
    votes.len() == 0 || (can_count_vote(p, votes.first()) && votes_countable(
        spec_apply_vote(p, votes.first()),
        votes.drop_first(),
    ))
}

/// Vote monotonicity law: starting from integer-typed counters, a strictly
/// sequential run of N accepted votes keeps the counters integer-typed and
/// raises their sum by exactly N.
pub proof fn lemma_vote_monotonic(p: Payload, votes: Seq<bool>)
    requires
        counters_typed(p),
        votes_countable(p, votes),
    ensures
        counters_typed(spec_apply_votes(p, votes)),
        int_val(spec_apply_votes(p, votes).upvotes) + int_val(spec_apply_votes(p, votes).downvotes)
            == int_val(p.upvotes) + int_val(p.downvotes) + votes.len(),
    decreases votes.len(),
{
    if votes.len() > 0 {
        let q = spec_apply_vote(p, votes.first());
        lemma_vote_monotonic(q, votes.drop_first());
    }
}

/// The outcome of a lookup by id, once the point store was consulted with a
/// validated id.
#[derive(Debug, PartialEq, Eq)]
pub enum CardLookup {
    /// No point with the id exists; distinct from every other outcome.
    NotFound,
    /// A point exists but its payload fails to decode: surfaced, not
    /// dropped, since a single-record lookup cannot degrade the way a
    /// search page can.
    Unreadable,
    /// The decoded record.
    Found(RetrievedCardDTO),
}

/// Interprets a single-point fetch: a missing point is not found, an
/// undecodable payload is unreadable, and a decodable one yields its record.
pub fn lookup_decision(found: Option<Payload>) -> (r: CardLookup)
    ensures
        match found {
            None => r is NotFound,
            Some(p) => match spec_decode(p) {
                Some(card) => r == CardLookup::Found(card),
                None => r is Unreadable,
            },
        },
{
    match found {
        None => CardLookup::NotFound,
        Some(p) => match retrieved_point_to_card_dto(&p) {
            Some(card) => CardLookup::Found(card),
            None => CardLookup::Unreadable,
        },
    }
}

/// Relies on chrono's Utc::now().to_rfc3339(): the current instant rendered
/// as an RFC 3339 date-and-time string. The result depends on the clock, so
/// only its non-emptiness is stated.
#[verifier::external_body]
fn current_timestamp_rfc3339() -> (r: String)
    ensures
        r@.len() > 0,
{
    chrono::Utc::now().to_rfc3339()
}

/// A fresh card ready for insertion: the generated point id and the encoded
/// payload. The caller pairs them with the embedding vector and inserts the
/// triple as one acknowledged write; any store failure aborts the creation
/// whole.
#[derive(Debug)]
pub struct NewCardPoint {
    pub id: String,
    pub payload: Payload,
}

/// Prepares a fresh card for insertion: draws a new id and encodes the
/// payload with both counters at zero, the owner as given (empty when
/// anonymous), an absent link stored as null, and the current timestamp.
pub fn prepare_card_point(card: CreateCardData, owner_id: String) -> (r: NewCardPoint)
    ensures
        valid_card_id(r.id@),
        r.id@.len() == 36,
        is_text(r.payload.created_at),
        text_val(r.payload.created_at)@.len() > 0,
        r.payload == spec_encode(
            card.content,
            card.topic,
            card.side,
            card.link,
            owner_id,
            text_val(r.payload.created_at),
        ),
        decodable(r.payload),
        spec_votes(r.payload) == 0,
{
    let id = generate_card_id();
    let created_at = current_timestamp_rfc3339();
    let payload = encode_card_payload(
        card.content,
        card.topic,
        card.side,
        card.link,
        owner_id,
        created_at,
    );
    NewCardPoint { id, payload }
}

} // verus!
