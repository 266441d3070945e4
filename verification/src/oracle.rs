use vstd::prelude::*;

verus! {

/// Exactly the strings [`feed_id_is_valid`] accepts: a 32-byte identifier,
/// hex-encoded, so 64 ASCII hex digits.
pub open spec fn is_hex_digit(c: char) -> bool {
    ('0' <= c && c <= '9') || ('a' <= c && c <= 'f') || ('A' <= c && c <= 'F')
}

/// A well-formed price-feed identifier: 64 hex digits.
pub open spec fn valid_feed_id(s: Seq<char>) -> bool {
    s.len() == 64 && forall|i: int| 0 <= i < s.len() ==> is_hex_digit(#[trigger] s[i])
}

/// Relies on pyth_sdk_cw::PriceIdentifier::from_hex: it decodes exactly 32
/// bytes from the input with hex::decode_to_slice, so it accepts exactly the
/// strings of 64 ASCII hex digits.
#[verifier::external_body]
pub fn feed_id_is_valid(s: &str) -> (r: bool)
    ensures
        r == valid_feed_id(s@),
{
    pyth_sdk_cw::PriceIdentifier::from_hex(s).is_ok()
}

/// A fixed stand-in price reading, for hosts that run without an oracle.
pub fn get_mock_btc_price() -> (r: i128)
    ensures
        r == 90000,
{
    90000i128
}

/// A stand-in price reading whose direction the caller chooses, for tests.
pub fn get_deterministic_mock_btc_price_for_testing(is_up: bool) -> (r: i128)
    ensures
        r == if is_up {
            51000int
        } else {
            49000int
        },
{
    let base_price = 50000i128;
    let price_change: i128 = if is_up {
        1000i128
    } else {
        -1000i128
    };
    base_price + price_change
}

} // verus!
