//! Identifiers, and the time of the clock.
use vstd::prelude::*;
use vstd::string::*;

verus! {

/// A hexadecimal digit in lower case.
pub open spec fn hex_char(digit: u128) -> char {
    if digit < 10 {
        (48 + digit) as char
    } else {
        (87 + digit) as char
    }
}

/// The `k`th hexadecimal digit of an identifier, the highest first.
pub open spec fn digit(id: u128, k: int) -> u128 {
    (id >> ((31 - k) * 4) as u128) & 0xf
}

/// How many digits stand in front of a place of the written form.
pub open spec fn digits_before(place: int) -> int {
    if place < 8 {
        place
    } else if place < 13 {
        place - 1
    } else if place < 18 {
        place - 2
    } else if place < 23 {
        place - 3
    } else {
        place - 4
    }
}

/// The written form of an identifier: 32 hexadecimal digits in groups of 8, 4,
/// 4, 4 and 12, with hyphens between the groups.
pub open spec fn hyphenated(id: u128) -> Seq<char> {
    Seq::new(
        36,
        |i: int|
            if i == 8 || i == 13 || i == 18 || i == 23 {
                '-'
            } else {
                hex_char(digit(id, digits_before(i)))
            },
    )
}

/// `uuid::Uuid::to_string` on `uuid::Uuid::from_u128`: the hyphenated form in
/// lower case.
#[verifier::external_body]
pub(crate) fn uuid_text(id: u128) -> (text: String)
    ensures
        text@ == hyphenated(id),
{
    uuid::Uuid::from_u128(id).to_string()
}

/// `uuid::Uuid::new_v4`: a random identifier whose version digit is 4 and whose
/// variant bits are those of RFC 4122; its other bits are left open.
#[verifier::external_body]
pub(crate) fn new_id() -> (id: u128)
    ensures
        (id >> 76u128) & 0xf == 4,
        (id >> 62u128) & 0x3 == 2,
{
    uuid::Uuid::new_v4().as_u128()
}

/// `std::time::SystemTime::now`, in whole seconds since the epoch, and zero for
/// a clock that stands before it. Nothing is claimed of the value.
#[verifier::external_body]
pub(crate) fn unix_now() -> (seconds: u64) {
    std::time::SystemTime::now().duration_since(std::time::UNIX_EPOCH).unwrap_or_default().as_secs()
}

/// The written form of an identifier.
pub fn id_text(id: u128) -> (text: String)
    ensures
        text@ == hyphenated(id),
{
    uuid_text(id)
}

/// An identifier is written with 32 digits in five groups, in lower case.
pub proof fn law_identifiers_are_written_in_groups(id: u128, at: int)
    requires
        0 <= at < 36,
    ensures
        hyphenated(id).len() == 36,
        at == 8 || at == 13 || at == 18 || at == 23 ==> hyphenated(id)[at] == '-',
        at != 8 && at != 13 && at != 18 && at != 23 ==> ('0' <= hyphenated(id)[at] <= '9' || 'a'
            <= hyphenated(id)[at] <= 'f'),
{
    let k = digits_before(at);
    let value = digit(id, k);
    let shift = ((31 - k) * 4) as u128;
    assert((id >> shift) & 0xf <= 15) by (bit_vector);
}

proof fn lemma_same_digit(one: u128, other: u128, k: int, at: int)
    requires
        hyphenated(one) == hyphenated(other),
        0 <= at < 36,
        at != 8 && at != 13 && at != 18 && at != 23,
        k == digits_before(at),
        0 <= k < 32,
    ensures
        (one >> ((31 - k) * 4) as u128) & 0xf == (other >> ((31 - k) * 4) as u128) & 0xf,
{
    assert(hyphenated(one)[at] == hyphenated(other)[at]);
    let shift = ((31 - k) * 4) as u128;
    assert((one >> shift) & 0xf <= 15) by (bit_vector);
    assert((other >> shift) & 0xf <= 15) by (bit_vector);
    let (a, b) = (digit(one, k), digit(other, k));
    assert(a == (one >> shift) & 0xf && b == (other >> shift) & 0xf);
    assert(hyphenated(one)[at] == hex_char(a) && hyphenated(other)[at] == hex_char(b));
    assert(hex_char(a) as u32 == if a < 10 {
        48 + a
    } else {
        87 + a
    });
    assert(hex_char(b) as u32 == if b < 10 {
        48 + b
    } else {
        87 + b
    });
}

/// No two identifiers are written alike.
pub proof fn law_identifiers_are_told_apart(one: u128, other: u128)
    ensures
        hyphenated(one) == hyphenated(other) <==> one == other,
{
    if hyphenated(one) == hyphenated(other) {
        lemma_same_digit(one, other, 0, 0);
        assert(((31 - 0) * 4) as u128 == 124u128);
        lemma_same_digit(one, other, 1, 1);
        assert(((31 - 1) * 4) as u128 == 120u128);
        lemma_same_digit(one, other, 2, 2);
        assert(((31 - 2) * 4) as u128 == 116u128);
        lemma_same_digit(one, other, 3, 3);
        assert(((31 - 3) * 4) as u128 == 112u128);
        lemma_same_digit(one, other, 4, 4);
        assert(((31 - 4) * 4) as u128 == 108u128);
        lemma_same_digit(one, other, 5, 5);
        assert(((31 - 5) * 4) as u128 == 104u128);
        lemma_same_digit(one, other, 6, 6);
        assert(((31 - 6) * 4) as u128 == 100u128);
        lemma_same_digit(one, other, 7, 7);
        assert(((31 - 7) * 4) as u128 == 96u128);
        lemma_same_digit(one, other, 8, 9);
        assert(((31 - 8) * 4) as u128 == 92u128);
        lemma_same_digit(one, other, 9, 10);
        assert(((31 - 9) * 4) as u128 == 88u128);
        lemma_same_digit(one, other, 10, 11);
        assert(((31 - 10) * 4) as u128 == 84u128);
        lemma_same_digit(one, other, 11, 12);
        assert(((31 - 11) * 4) as u128 == 80u128);
        lemma_same_digit(one, other, 12, 14);
        assert(((31 - 12) * 4) as u128 == 76u128);
        lemma_same_digit(one, other, 13, 15);
        assert(((31 - 13) * 4) as u128 == 72u128);
        lemma_same_digit(one, other, 14, 16);
        assert(((31 - 14) * 4) as u128 == 68u128);
        lemma_same_digit(one, other, 15, 17);
        assert(((31 - 15) * 4) as u128 == 64u128);
        lemma_same_digit(one, other, 16, 19);
        assert(((31 - 16) * 4) as u128 == 60u128);
        lemma_same_digit(one, other, 17, 20);
        assert(((31 - 17) * 4) as u128 == 56u128);
        lemma_same_digit(one, other, 18, 21);
        assert(((31 - 18) * 4) as u128 == 52u128);
        lemma_same_digit(one, other, 19, 22);
        assert(((31 - 19) * 4) as u128 == 48u128);
        lemma_same_digit(one, other, 20, 24);
        assert(((31 - 20) * 4) as u128 == 44u128);
        lemma_same_digit(one, other, 21, 25);
        assert(((31 - 21) * 4) as u128 == 40u128);
        lemma_same_digit(one, other, 22, 26);
        assert(((31 - 22) * 4) as u128 == 36u128);
        lemma_same_digit(one, other, 23, 27);
        assert(((31 - 23) * 4) as u128 == 32u128);
        lemma_same_digit(one, other, 24, 28);
        assert(((31 - 24) * 4) as u128 == 28u128);
        lemma_same_digit(one, other, 25, 29);
        assert(((31 - 25) * 4) as u128 == 24u128);
        lemma_same_digit(one, other, 26, 30);
        assert(((31 - 26) * 4) as u128 == 20u128);
        lemma_same_digit(one, other, 27, 31);
        assert(((31 - 27) * 4) as u128 == 16u128);
        lemma_same_digit(one, other, 28, 32);
        assert(((31 - 28) * 4) as u128 == 12u128);
        lemma_same_digit(one, other, 29, 33);
        assert(((31 - 29) * 4) as u128 == 8u128);
        lemma_same_digit(one, other, 30, 34);
        assert(((31 - 30) * 4) as u128 == 4u128);
        lemma_same_digit(one, other, 31, 35);
        assert(((31 - 31) * 4) as u128 == 0u128);
        assert(one == other) by (bit_vector)
            requires
                (one >> 124u128) & 0xf == (other >> 124u128) & 0xf,
                (one >> 120u128) & 0xf == (other >> 120u128) & 0xf,
                (one >> 116u128) & 0xf == (other >> 116u128) & 0xf,
                (one >> 112u128) & 0xf == (other >> 112u128) & 0xf,
                (one >> 108u128) & 0xf == (other >> 108u128) & 0xf,
                (one >> 104u128) & 0xf == (other >> 104u128) & 0xf,
                (one >> 100u128) & 0xf == (other >> 100u128) & 0xf,
                (one >> 96u128) & 0xf == (other >> 96u128) & 0xf,
                (one >> 92u128) & 0xf == (other >> 92u128) & 0xf,
                (one >> 88u128) & 0xf == (other >> 88u128) & 0xf,
                (one >> 84u128) & 0xf == (other >> 84u128) & 0xf,
                (one >> 80u128) & 0xf == (other >> 80u128) & 0xf,
                (one >> 76u128) & 0xf == (other >> 76u128) & 0xf,
                (one >> 72u128) & 0xf == (other >> 72u128) & 0xf,
                (one >> 68u128) & 0xf == (other >> 68u128) & 0xf,
                (one >> 64u128) & 0xf == (other >> 64u128) & 0xf,
                (one >> 60u128) & 0xf == (other >> 60u128) & 0xf,
                (one >> 56u128) & 0xf == (other >> 56u128) & 0xf,
                (one >> 52u128) & 0xf == (other >> 52u128) & 0xf,
                (one >> 48u128) & 0xf == (other >> 48u128) & 0xf,
                (one >> 44u128) & 0xf == (other >> 44u128) & 0xf,
                (one >> 40u128) & 0xf == (other >> 40u128) & 0xf,
                (one >> 36u128) & 0xf == (other >> 36u128) & 0xf,
                (one >> 32u128) & 0xf == (other >> 32u128) & 0xf,
                (one >> 28u128) & 0xf == (other >> 28u128) & 0xf,
                (one >> 24u128) & 0xf == (other >> 24u128) & 0xf,
                (one >> 20u128) & 0xf == (other >> 20u128) & 0xf,
                (one >> 16u128) & 0xf == (other >> 16u128) & 0xf,
                (one >> 12u128) & 0xf == (other >> 12u128) & 0xf,
                (one >> 8u128) & 0xf == (other >> 8u128) & 0xf,
                (one >> 4u128) & 0xf == (other >> 4u128) & 0xf,
                (one >> 0u128) & 0xf == (other >> 0u128) & 0xf,
        ;
    }
}

/// The digits of an identifier are written from the highest to the lowest.
pub proof fn law_digits_are_written_in_order(id: u128)
    ensures
        hyphenated(id)[0] == hex_char((id >> 124u128) & 0xf),
        hyphenated(id)[7] == hex_char((id >> 96u128) & 0xf),
        hyphenated(id)[9] == hex_char((id >> 92u128) & 0xf),
        hyphenated(id)[12] == hex_char((id >> 80u128) & 0xf),
        hyphenated(id)[14] == hex_char((id >> 76u128) & 0xf),
        hyphenated(id)[17] == hex_char((id >> 64u128) & 0xf),
        hyphenated(id)[19] == hex_char((id >> 60u128) & 0xf),
        hyphenated(id)[22] == hex_char((id >> 48u128) & 0xf),
        hyphenated(id)[24] == hex_char((id >> 44u128) & 0xf),
        hyphenated(id)[35] == hex_char((id >> 0u128) & 0xf),
        hex_char(0) == '0' && hex_char(9) == '9' && hex_char(10) == 'a' && hex_char(15) == 'f',
{
}

} // verus!
