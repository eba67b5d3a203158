//! Card and point identifiers.
//!
//! A card id is a UUID in canonical hyphenated form. Candidate ids supplied
//! by callers are validated and normalized before any store call; the point
//! store may also hand back purely numeric point ids, which are rendered in
//! decimal when a search result is projected.

use vstd::prelude::*;
use vstd::string::StringExecFns;

verus! {

/// The decimal digit character of one digit value.
pub open spec fn spec_digit_char(d: int) -> char
    recommends
        0 <= d < 10,
{
    if d == 0 {
        '0'
    } else if d == 1 {
        '1'
    } else if d == 2 {
        '2'
    } else if d == 3 {
        '3'
    } else if d == 4 {
        '4'
    } else if d == 5 {
        '5'
    } else if d == 6 {
        '6'
    } else if d == 7 {
        '7'
    } else if d == 8 {
        '8'
    } else {
        '9'
    }
}

/// The decimal rendering of a non-negative integer, most significant digit
/// first, with no leading zeros except for the number zero itself.
pub open spec fn spec_u64_decimal(n: int) -> Seq<char>
    recommends
        n >= 0,
    decreases n,
{
    if n < 10 {
        seq![spec_digit_char(n)]
    } else {
        spec_u64_decimal(n / 10).push(spec_digit_char(n % 10))
    }
}

/// The one-character string of one decimal digit.
fn digit_str(d: u64) -> (r: &'static str)
    requires
        d < 10,
    ensures
        r@ == seq![spec_digit_char(d as int)],
{
    let r: &'static str = if d == 0 {
        "0"
    } else if d == 1 {
        "1"
    } else if d == 2 {
        "2"
    } else if d == 3 {
        "3"
    } else if d == 4 {
        "4"
    } else if d == 5 {
        "5"
    } else if d == 6 {
        "6"
    } else if d == 7 {
        "7"
    } else if d == 8 {
        "8"
    } else {
        "9"
    };
    proof {
        reveal_strlit("0");
        reveal_strlit("1");
        reveal_strlit("2");
        reveal_strlit("3");
        reveal_strlit("4");
        reveal_strlit("5");
        reveal_strlit("6");
        reveal_strlit("7");
        reveal_strlit("8");
        reveal_strlit("9");
        assert(r@ =~= seq![spec_digit_char(d as int)]);
    }
    r
}

/// Renders an unsigned integer in decimal.
pub fn u64_to_decimal(n: u64) -> (r: String)
    ensures
        r@ == spec_u64_decimal(n as int),
    decreases n,
{
    if n < 10 {
        digit_str(n).to_owned()
    } else {
        proof {
            assert(n as int / 10 < n as int) by (nonlinear_arith)
                requires
                    n >= 10,
            ;
        }
        let mut s = u64_to_decimal(n / 10);
        s.append(digit_str(n % 10));
        proof {
            assert(s@ =~= spec_u64_decimal(n as int));
        }
        s
    }
}

/// The point store's identifier for one stored point: either a plain number
/// or a UUID string.
#[derive(Debug, PartialEq, Eq)]
pub enum PointIdent {
    Num(u64),
    Uuid(String),
}

/// The character rendering of a point identifier: numeric ids in decimal,
/// UUID ids as given.
pub open spec fn spec_ident_chars(id: PointIdent) -> Seq<char> {
    match id {
        PointIdent::Num(n) => spec_u64_decimal(n as int),
        PointIdent::Uuid(s) => s@,
    }
}

/// Renders a point identifier as the id string of a search result.
pub fn point_ident_to_string(id: PointIdent) -> (r: String)
    ensures
        r@ == spec_ident_chars(id),
{
    match id {
        PointIdent::Num(n) => u64_to_decimal(n),
        PointIdent::Uuid(s) => s,
    }
}

/// The result of parsing a candidate card id as a UUID and re-printing it
/// canonically: the canonical lower-case hyphenated rendering when the
/// candidate is syntactically valid, nothing otherwise. A function of the
/// candidate's characters alone.
pub uninterp spec fn uuid_normalized(s: Seq<char>) -> Option<Seq<char>>;

/// The candidate is a syntactically well-formed card id.
pub open spec fn valid_card_id(s: Seq<char>) -> bool {
    uuid_normalized(s) is Some
}

/// The views of an optional string.
pub open spec fn opt_string_view(o: Option<String>) -> Option<Seq<char>> {
    match o {
        Some(s) => Some(s@),
        None => None,
    }
}

/// Relies on uuid::Uuid::parse_str and uuid's Display impl: parse_str
/// accepts exactly the UUID renderings it documents, as a function of the
/// characters alone, and Display prints the parsed UUID as 36 lower-case
/// hyphenated characters, a form parse_str accepts and re-prints unchanged.
#[verifier::external_body]
fn normalize_uuid(s: &str) -> (r: Option<String>)
    ensures
        opt_string_view(r) == uuid_normalized(s@),
        r matches Some(c) ==> c@.len() == 36 && uuid_normalized(c@) == Some(c@),
{
    uuid::Uuid::parse_str(s).ok().map(|u| u.to_string())
}

/// Relies on uuid::Uuid::new_v4 and uuid's Display impl: a freshly drawn
/// random identifier, printed as 36 lower-case hyphenated characters that
/// parse_str accepts and re-prints unchanged. Nothing relates two draws.
#[verifier::external_body]
pub(crate) fn generate_card_id() -> (r: String)
    ensures
        r@.len() == 36,
        uuid_normalized(r@) == Some(r@),
{
    uuid::Uuid::new_v4().to_string()
}

/// Validates a candidate card id, returning its canonical form exactly when
/// it is syntactically well-formed.
pub fn validate_card_id(id: &str) -> (r: Option<String>)
    ensures
        r is Some <==> valid_card_id(id@),
        r matches Some(c) ==> Some(c@) == uuid_normalized(id@) && c@.len() == 36
            && valid_card_id(c@),
{
    normalize_uuid(id)
}

} // verus!
