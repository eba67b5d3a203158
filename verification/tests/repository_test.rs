use debate_cards::codec::{encode_card_payload, retrieved_point_to_card_dto};
use debate_cards::ids::validate_card_id;
use debate_cards::payload::{Payload, PayloadValue};
use debate_cards::repository::{
    lookup_decision, page_offset, prepare_card_point, validate_vote_request, vote_decision,
    CardError, CardLookup, CreateCardData, VoteCardData, VoteDecision, PAGE_SIZE,
};

fn fresh_payload(content: &str, topic: &str, side: &str) -> Payload {
    encode_card_payload(
        content.to_string(),
        topic.to_string(),
        side.to_string(),
        None,
        String::new(),
        "2023-01-01T00:00:00+00:00".to_string(),
    )
}

fn written(decision: VoteDecision) -> Payload {
    match decision {
        VoteDecision::Write(p) => p,
        other => panic!("expected a write-back payload, got {:?}", other),
    }
}

#[test]
fn two_upvotes_then_get_returns_two() {
    let p0 = fresh_payload("Climate policy reduces emissions", "climate", "pro");
    let p1 = written(vote_decision(Some(p0), true));
    let p2 = written(vote_decision(Some(p1), true));
    assert_eq!(p2.upvotes, Some(PayloadValue::Integer(2)));
    assert_eq!(p2.downvotes, Some(PayloadValue::Integer(0)));
    match lookup_decision(Some(p2)) {
        CardLookup::Found(card) => {
            assert_eq!(card.votes, 2);
            assert_eq!(card.content, "Climate policy reduces emissions");
            assert_eq!(card.topic, "climate");
            assert_eq!(card.side, "pro");
        }
        other => panic!("expected the decoded card, got {:?}", other),
    }
}

#[test]
fn downvote_increments_only_downvotes() {
    let p0 = fresh_payload("c", "t", "s");
    let p1 = written(vote_decision(Some(p0), false));
    assert_eq!(p1.upvotes, Some(PayloadValue::Integer(0)));
    assert_eq!(p1.downvotes, Some(PayloadValue::Integer(1)));
    let card = retrieved_point_to_card_dto(&p1).unwrap();
    assert_eq!(card.votes, -1);
}

#[test]
fn vote_on_missing_point_is_not_found() {
    assert_eq!(vote_decision(None, true), VoteDecision::NotFound);
    assert_eq!(vote_decision(None, false), VoteDecision::NotFound);
}

#[test]
fn vote_with_corrupt_counters_defaults_to_zero() {
    let mut p = fresh_payload("c", "t", "s");
    p.upvotes = None;
    p.downvotes = Some(PayloadValue::Integer(7));
    let q = written(vote_decision(Some(p), true));
    assert_eq!(q.upvotes, Some(PayloadValue::Integer(1)));
    assert_eq!(q.downvotes, Some(PayloadValue::Integer(7)));
}

#[test]
fn vote_overflow_is_rejected() {
    let mut p = fresh_payload("c", "t", "s");
    p.upvotes = Some(PayloadValue::Integer(i64::MAX));
    p.downvotes = Some(PayloadValue::Integer(0));
    assert_eq!(vote_decision(Some(p), true), VoteDecision::CounterOverflow);
}

#[test]
fn vote_leaves_other_fields_unchanged() {
    let p0 = fresh_payload("content stays", "topic stays", "side stays");
    let q = written(vote_decision(Some(p0), true));
    assert_eq!(q.content, Some(PayloadValue::Text("content stays".to_string())));
    assert_eq!(q.topic, Some(PayloadValue::Text("topic stays".to_string())));
    assert_eq!(q.side, Some(PayloadValue::Text("side stays".to_string())));
    assert_eq!(q.user_id, Some(PayloadValue::Text(String::new())));
    assert_eq!(q.link, Some(PayloadValue::Null));
    assert_eq!(
        q.created_at,
        Some(PayloadValue::Text("2023-01-01T00:00:00+00:00".to_string()))
    );
}

#[test]
fn page_offsets_advance_by_page_size() {
    assert_eq!(page_offset(1), Some(0));
    assert_eq!(page_offset(2), Some(25));
    assert_eq!(page_offset(3), Some(50));
    assert_eq!(PAGE_SIZE, 25);
}

#[test]
fn page_zero_and_overflowing_pages_are_refused() {
    assert_eq!(page_offset(0), None);
    assert_eq!(page_offset(u64::MAX), None);
}

#[test]
fn lookup_distinguishes_missing_corrupt_and_readable() {
    assert_eq!(lookup_decision(None), CardLookup::NotFound);

    let mut corrupt = fresh_payload("c", "t", "s");
    corrupt.downvotes = None;
    assert_eq!(lookup_decision(Some(corrupt)), CardLookup::Unreadable);

    let good = fresh_payload("c", "t", "s");
    assert!(matches!(lookup_decision(Some(good)), CardLookup::Found(_)));
}

#[test]
fn malformed_id_and_missing_record_are_distinct_outcomes() {
    // A syntactically invalid id is rejected before any store call.
    assert_eq!(validate_card_id("not-a-uuid"), None);
    let client_error = CardError::MalformedIdentifier;

    // A well-formed id that no point carries reaches the store and comes
    // back as not found: a different outcome than the client error above.
    let id = validate_card_id("00000000-0000-0000-0000-000000000000")
        .expect("a syntactically valid id must pass validation");
    assert_eq!(id, "00000000-0000-0000-0000-000000000000");
    assert_eq!(lookup_decision(None), CardLookup::NotFound);
    assert_eq!(client_error, CardError::MalformedIdentifier);
}

#[test]
fn vote_request_validation_checks_the_id_first() {
    let bad = VoteCardData { card_id: "not-a-uuid".to_string(), vote: true };
    assert_eq!(validate_vote_request(&bad), Err(CardError::MalformedIdentifier));

    let good = VoteCardData {
        card_id: "550E8400-E29B-41D4-A716-446655440000".to_string(),
        vote: false,
    };
    assert_eq!(
        validate_vote_request(&good),
        Ok("550e8400-e29b-41d4-a716-446655440000".to_string())
    );
}

#[test]
fn prepared_card_has_valid_id_and_zeroed_counters() {
    let card = CreateCardData {
        content: "c".to_string(),
        side: "pro".to_string(),
        topic: "t".to_string(),
        link: Some("https://example.org".to_string()),
    };
    let point = prepare_card_point(card, "owner-7".to_string());
    let normalized = validate_card_id(&point.id).expect("generated id must be valid");
    assert_eq!(normalized, point.id);
    assert_eq!(point.id.len(), 36);
    assert_eq!(point.payload.upvotes, Some(PayloadValue::Integer(0)));
    assert_eq!(point.payload.downvotes, Some(PayloadValue::Integer(0)));
    assert_eq!(point.payload.user_id, Some(PayloadValue::Text("owner-7".to_string())));
    match &point.payload.created_at {
        Some(PayloadValue::Text(ts)) => assert!(!ts.is_empty()),
        other => panic!("created_at must be a text field, got {:?}", other),
    }
    let decoded = retrieved_point_to_card_dto(&point.payload).unwrap();
    assert_eq!(decoded.votes, 0);
    assert_eq!(decoded.content, "c");
    assert_eq!(decoded.link, Some("https://example.org".to_string()));
}

#[test]
fn distinct_ids_for_distinct_creations() {
    let make = || CreateCardData {
        content: "c".to_string(),
        side: "s".to_string(),
        topic: "t".to_string(),
        link: None,
    };
    let a = prepare_card_point(make(), String::new());
    let b = prepare_card_point(make(), String::new());
    assert_ne!(a.id, b.id);
}

#[test]
fn error_messages_name_each_failure() {
    assert_eq!(CardError::EmbeddingError.message(), "embedding provider call failed");
    assert_eq!(
        CardError::StorageConnectionError.message(),
        "failed to connect to the point store"
    );
    assert_eq!(CardError::StorageWriteError.message(), "the point store rejected the write");
    assert_eq!(CardError::StorageReadError.message(), "the point store rejected the read");
    assert_eq!(CardError::MalformedIdentifier.message(), "invalid card id");
}
