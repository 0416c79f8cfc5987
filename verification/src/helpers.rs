//! Checks and computations shared by the contract's requests.

use vstd::prelude::*;
use vstd::string::*;
use vstd::utf8::encode_utf8;
use crate::error::{ContractError, ContractErrorView};
use crate::decimal::{
    dec_checked_add, dec_checked_div, dec_checked_mul, dec_from_str, dec_product, dec_quotient,
    dec_round_dp, dec_sum, dec_text, dec_to_string, decimal_parse, rounded,
};
use crate::state::{Coin, Rating, RatingView, MarketView, Marketplace};
use crate::text::{decimal_text, u64_text};

verus! {

pub const MIN_NAME_LENGTH: u64 = 3;
pub const MAX_NAME_LENGTH: u64 = 64;

/// Whether `c` is refused in a name: names hold decimal digits, lower case
/// ASCII letters, `.`, `-` and `_` only.
pub open spec fn is_invalid_char(c: char) -> bool {
    !(('0' <= c && c <= '9') || ('a' <= c && c <= 'z') || c == '.' || c == '-' || c == '_')
}

/// The length of a text in bytes of UTF-8.
pub open spec fn byte_len(s: Seq<char>) -> nat {
    encode_utf8(s).len()
}

/// `i` is the position of the first refused character of `s`.
pub open spec fn is_first_invalid(s: Seq<char>, i: int) -> bool {
    &&& 0 <= i < s.len()
    &&& is_invalid_char(s[i])
    &&& forall|j: int| 0 <= j < i ==> !is_invalid_char(#[trigger] s[j])
}

/// The first refused character of `s`, where there is one.
pub open spec fn first_invalid_char(s: Seq<char>) -> char {
    s[choose|i: int| is_first_invalid(s, i)]
}

/// What is wrong with a name, if anything: too short, too long (both in
/// bytes), or the first character that names may not hold.
pub open spec fn name_fault(s: Seq<char>) -> Option<ContractErrorView> {
    if byte_len(s) < MIN_NAME_LENGTH {
        Some(ContractErrorView::NameTooShort(byte_len(s) as u64, MIN_NAME_LENGTH))
    } else if byte_len(s) > MAX_NAME_LENGTH {
        Some(ContractErrorView::NameTooLong(byte_len(s) as u64, MAX_NAME_LENGTH))
    } else if exists|i: int| 0 <= i < s.len() && is_invalid_char(#[trigger] s[i]) {
        Some(ContractErrorView::InvalidCharacter(first_invalid_char(s)))
    } else {
        None
    }
}

/// Whether a character is refused in a name.
pub fn invalid_char(c: char) -> (r: bool)
    ensures
        r == is_invalid_char(c),
{
    let is_valid = ('0' <= c && c <= '9') || ('a' <= c && c <= 'z') || (c == '.' || c == '-'
        || c == '_');
    !is_valid
}

/// Checks a name: 3 to 64 bytes long, of allowed characters only.
pub fn validate_name(name: &str) -> (r: Result<(), ContractError>)
    ensures
        match name_fault(name@) {
            None => r is Ok,
            Some(ev) => r matches Err(e) && e@ == ev,
        },
{
    let length = name.as_bytes().len() as u64;
    if length < MIN_NAME_LENGTH {
        Err(ContractError::NameTooShort { length, min_length: MIN_NAME_LENGTH })
    } else if length > MAX_NAME_LENGTH {
        Err(ContractError::NameTooLong { length, max_length: MAX_NAME_LENGTH })
    } else {
        let n = name.unicode_len();
        let mut i: usize = 0;
        while i < n
            invariant
                n == name@.len(),
                i <= n,
                MIN_NAME_LENGTH <= byte_len(name@) <= MAX_NAME_LENGTH,
                forall|j: int| 0 <= j < i ==> !is_invalid_char(#[trigger] name@[j]),
            decreases n - i,
        {
            let c = name.get_char(i);
            if invalid_char(c) {
                proof {
                    assert(is_first_invalid(name@, i as int));
                    let k = choose|k: int| is_first_invalid(name@, k);
                    assert(k == i) by {
                        if k < i {
                            assert(!is_invalid_char(name@[k]));
                        } else if k > i {
                            assert(!is_invalid_char(name@[i as int]));
                        }
                    }
                }
                return Err(ContractError::InvalidCharacter { c });
            }
            i = i + 1;
        }
        Ok(())
    }
}


/// The id that the listing counter hands out next: one past the last, or 1
/// when none was handed out yet.
pub open spec fn next_id(counter: Option<u64>) -> int {
    match counter {
        Some(c) => c + 1,
        None => 1,
    }
}

/// The counter can hand out one more id without overflowing.
pub open spec fn counter_can_advance(s: MarketView) -> bool {
    next_id(s.item_counter) <= u64::MAX
}

/// Advances the listing counter and returns the id it hands out.
pub fn update_counter(deps: &mut Marketplace) -> (id: u64)
    requires
        old(deps).wf(),
        counter_can_advance(old(deps)@),
    ensures
        final(deps).wf(),
        id == next_id(old(deps)@.item_counter),
        final(deps)@ == (MarketView { item_counter: Some(id), ..old(deps)@ }),
{
    let current = match deps.load_counter() {
        Some(c) => c,
        None => 0,
    };
    let id: u64 = current + 1;
    deps.save_counter(id);
    id
}

/// Checks that a payment or a price is in the required denomination.
pub fn check_for_valid_coin(sent: &Coin, required: String) -> (r: Result<(), ContractError>)
    ensures
        sent.denom@ == required@ ==> r is Ok,
        sent.denom@ != required@ ==> (r matches Err(e) && e@ == ContractErrorView::InvalidDenom(
            required@,
            sent.denom@,
        )),
{
    if sent.denom != required {
        Err(ContractError::InvalidDenom { exp: required, rec: sent.denom.clone() })
    } else {
        Ok(())
    }
}

/// Why a rating could not be computed.
#[derive(Debug, Clone, Copy, PartialEq, Eq, Structural)]
pub enum RatingError {
    /// The new rating is not between 1 and 5.
    InvalidRating,
    /// A stored rating or vote count is no decimal.
    InvalidNumber,
    /// The decimal arithmetic overflowed or divided by zero.
    Overflow,
}

/// The text of a new rating as a decimal with two zero fractional digits.
pub open spec fn rating_text(new_rating: u16) -> Seq<char> {
    decimal_text(new_rating as nat) + ".00"@
}

/// The rating that results from adding the vote `new_rating` to `cur`: with
/// `n` votes so far and average `a`, the new average is
/// `a * (n / (n + 1)) + new_rating / (n + 1)`, rounded to two fractional
/// digits, over `n + 1` votes. All arithmetic is that of `rust_decimal`.
pub open spec fn rating_outcome(cur: RatingView, new_rating: u16) -> Result<RatingView, RatingError> {
    if new_rating > 5 || new_rating < 1 {
        Err(RatingError::InvalidRating)
    } else {
        match decimal_parse(cur.rating) {
            None => Err(RatingError::InvalidNumber),
            Some(old_avg) => match decimal_parse(cur.votes) {
                None => Err(RatingError::InvalidNumber),
                Some(old_votes) => match decimal_parse("1.00"@) {
                    None => Err(RatingError::InvalidNumber),
                    Some(one) => match dec_sum(old_votes, one) {
                        None => Err(RatingError::Overflow),
                        Some(new_votes) => match dec_quotient(old_votes, new_votes) {
                            None => Err(RatingError::Overflow),
                            Some(inner) => match dec_product(old_avg, inner) {
                                None => Err(RatingError::Overflow),
                                Some(weighted) => match decimal_parse(rating_text(new_rating)) {
                                    None => Err(RatingError::InvalidNumber),
                                    Some(converted) => match dec_quotient(converted, new_votes) {
                                        None => Err(RatingError::Overflow),
                                        Some(share) => match dec_sum(weighted, share) {
                                            None => Err(RatingError::Overflow),
                                            Some(avg) => Ok(
                                                RatingView {
                                                    rating: dec_text(rounded(avg.0, avg.1, 2)),
                                                    votes: dec_text(new_votes),
                                                },
                                            ),
                                        },
                                    },
                                },
                            },
                        },
                    },
                },
            },
        }
    }
}

/// Adds the vote `new_rating` (1 to 5) to a rating; see [`rating_outcome`].
pub fn calculate_rating(new_rating: u16, cur: &Rating) -> (r: Result<Rating, RatingError>)
    ensures
        match rating_outcome(cur@, new_rating) {
            Ok(v) => r matches Ok(upd) && upd@ == v,
            Err(e) => r == Err::<Rating, RatingError>(e),
        },
{
    if new_rating > 5 || new_rating < 1 {
        return Err(RatingError::InvalidRating);
    }
    let old_avg = match dec_from_str(cur.rating.as_str()) {
        Ok(d) => d,
        Err(_) => return Err(RatingError::InvalidNumber),
    };
    let old_votes = match dec_from_str(cur.votes.as_str()) {
        Ok(d) => d,
        Err(_) => return Err(RatingError::InvalidNumber),
    };
    let one = match dec_from_str("1.00") {
        Ok(d) => d,
        Err(_) => return Err(RatingError::InvalidNumber),
    };
    let new_votes = match dec_checked_add(old_votes, one) {
        Some(d) => d,
        None => return Err(RatingError::Overflow),
    };
    let mut converted = u64_text(new_rating as u64);
    converted.append(".00");
    let inner = match dec_checked_div(old_votes, new_votes) {
        Some(d) => d,
        None => return Err(RatingError::Overflow),
    };
    let weighted = match dec_checked_mul(old_avg, inner) {
        Some(d) => d,
        None => return Err(RatingError::Overflow),
    };
    let converted_dec = match dec_from_str(converted.as_str()) {
        Ok(d) => d,
        Err(_) => return Err(RatingError::InvalidNumber),
    };
    let share = match dec_checked_div(converted_dec, new_votes) {
        Some(d) => d,
        None => return Err(RatingError::Overflow),
    };
    let calculated = match dec_checked_add(weighted, share) {
        Some(d) => d,
        None => return Err(RatingError::Overflow),
    };
    let rounded_avg = dec_round_dp(calculated, 2);
    Ok(Rating { rating: dec_to_string(rounded_avg), votes: dec_to_string(new_votes) })
}

} // verus!
