//! Universally unique identifiers, as numbers and as text.

use crate::encoding::{ascii_lower, ascii_lowercase};
use vstd::prelude::*;

verus! {

/// `uuid::Error`, why a text is no UUID.
#[verifier::external_type_specification]
#[verifier::external_body]
pub struct ExError(uuid::Error);

/// The hexadecimal digit that writes `d`, in lower case.
pub open spec fn hex_digit(d: u128) -> char {
    if d < 10 {
        (48 + d) as char
    } else {
        (87 + d) as char
    }
}

/// The 32 hexadecimal digits of `id`, the most significant one first.
pub open spec fn hex_digits(id: u128) -> Seq<char> {
    Seq::new(32, |k: int| hex_digit((id >> ((4 * (31 - k)) as u128)) & 0xf))
}

/// The digits of `id` in groups of 8, 4, 4, 4 and 12, with hyphens between them.
pub open spec fn hyphenated(id: u128) -> Seq<char> {
    let digits = hex_digits(id);
    digits.subrange(0, 8) + seq!['-'] + digits.subrange(8, 12) + seq!['-'] + digits.subrange(12, 16)
        + seq!['-'] + digits.subrange(16, 20) + seq!['-'] + digits.subrange(20, 32)
}

/// Whether `text` writes `id`: as bare digits, with hyphens, with hyphens in braces, or
/// with hyphens as a URN, in any letter case.
pub open spec fn writes_uuid(text: Seq<char>, id: u128) -> bool {
    let lower = ascii_lower(text);
    ||| lower == hex_digits(id)
    ||| lower == hyphenated(id)
    ||| lower == seq!['{'] + hyphenated(id) + seq!['}']
    ||| lower == "urn:uuid:"@ + hyphenated(id)
}

/// Whether `text` writes some UUID.
pub open spec fn is_uuid(text: Seq<char>) -> bool {
    exists|id: u128| #[trigger] writes_uuid(text, id)
}

/// `uuid::Uuid::parse_str`: gives the UUID that a text writes, as a number, and fails
/// exactly where the text writes none.
#[verifier::external_body]
pub(crate) fn parse_uuid(text: &str) -> (result: Result<u128, uuid::Error>)
    ensures
        match result {
            Ok(id) => writes_uuid(text@, id),
            Err(_) => !is_uuid(text@),
        },
{
    uuid::Uuid::parse_str(text).map(|id| id.as_u128())
}

/// `uuid::Uuid`'s `to_string`: the hyphenated form, in lower case.
#[verifier::external_body]
pub(crate) fn uuid_text(id: u128) -> (text: String)
    ensures
        text@ == hyphenated(id),
{
    uuid::Uuid::from_u128(id).to_string()
}

/// Whether `id` is marked as a random UUID: it is of version 4 and of the variant of
/// RFC 4122.
pub open spec fn is_random_uuid(id: u128) -> bool {
    &&& (id >> 76) & 0xf == 4
    &&& (id >> 62) & 0x3 == 2
}

/// Whether `text` is the 32 hexadecimal digits, in lower case, of some UUID that is
/// marked as random.
pub open spec fn is_nonce(text: Seq<char>) -> bool {
    exists|id: u128| is_random_uuid(id) && text == #[trigger] hex_digits(id)
}

/// `uuid::Uuid::new_v4`, as its `simple` form writes it: the 32 hexadecimal digits, in
/// lower case, of some UUID that is marked as random. Which one is left to chance.
#[verifier::external_body]
pub(crate) fn random_nonce() -> (text: String)
    ensures
        is_nonce(text@),
{
    uuid::Uuid::new_v4().simple().to_string()
}

spec fn nibble(id: u128, k: int) -> u128 {
    (id >> ((4 * (31 - k)) as u128)) & 0xf
}

proof fn lemma_hex_digit_injective(a: u128, b: u128)
    requires
        a < 16,
        b < 16,
        hex_digit(a) == hex_digit(b),
    ensures
        a == b,
{
}

proof fn lemma_nibbles_determine(a: u128, b: u128)
    requires
        forall|k: int| 0 <= k < 32 ==> #[trigger] nibble(a, k) == nibble(b, k),
    ensures
        a == b,
{
    assert(nibble(a, 0) == nibble(b, 0) && nibble(a, 1) == nibble(b, 1) && nibble(a, 2) == nibble(
        b,
        2,
    ) && nibble(a, 3) == nibble(b, 3) && nibble(a, 4) == nibble(b, 4) && nibble(a, 5) == nibble(
        b,
        5,
    ) && nibble(a, 6) == nibble(b, 6) && nibble(a, 7) == nibble(b, 7));
    assert(nibble(a, 8) == nibble(b, 8) && nibble(a, 9) == nibble(b, 9) && nibble(a, 10) == nibble(
        b,
        10,
    ) && nibble(a, 11) == nibble(b, 11) && nibble(a, 12) == nibble(b, 12) && nibble(a, 13)
        == nibble(b, 13) && nibble(a, 14) == nibble(b, 14) && nibble(a, 15) == nibble(b, 15));
    assert(nibble(a, 16) == nibble(b, 16) && nibble(a, 17) == nibble(b, 17) && nibble(a, 18)
        == nibble(b, 18) && nibble(a, 19) == nibble(b, 19) && nibble(a, 20) == nibble(b, 20)
        && nibble(a, 21) == nibble(b, 21) && nibble(a, 22) == nibble(b, 22) && nibble(a, 23)
        == nibble(b, 23));
    assert(nibble(a, 24) == nibble(b, 24) && nibble(a, 25) == nibble(b, 25) && nibble(a, 26)
        == nibble(b, 26) && nibble(a, 27) == nibble(b, 27) && nibble(a, 28) == nibble(b, 28)
        && nibble(a, 29) == nibble(b, 29) && nibble(a, 30) == nibble(b, 30) && nibble(a, 31)
        == nibble(b, 31));
    assert(a == b) by (bit_vector)
        requires
            (a >> 124) & 0xf == (b >> 124) & 0xf,
            (a >> 120) & 0xf == (b >> 120) & 0xf,
            (a >> 116) & 0xf == (b >> 116) & 0xf,
            (a >> 112) & 0xf == (b >> 112) & 0xf,
            (a >> 108) & 0xf == (b >> 108) & 0xf,
            (a >> 104) & 0xf == (b >> 104) & 0xf,
            (a >> 100) & 0xf == (b >> 100) & 0xf,
            (a >> 96) & 0xf == (b >> 96) & 0xf,
            (a >> 92) & 0xf == (b >> 92) & 0xf,
            (a >> 88) & 0xf == (b >> 88) & 0xf,
            (a >> 84) & 0xf == (b >> 84) & 0xf,
            (a >> 80) & 0xf == (b >> 80) & 0xf,
            (a >> 76) & 0xf == (b >> 76) & 0xf,
            (a >> 72) & 0xf == (b >> 72) & 0xf,
            (a >> 68) & 0xf == (b >> 68) & 0xf,
            (a >> 64) & 0xf == (b >> 64) & 0xf,
            (a >> 60) & 0xf == (b >> 60) & 0xf,
            (a >> 56) & 0xf == (b >> 56) & 0xf,
            (a >> 52) & 0xf == (b >> 52) & 0xf,
            (a >> 48) & 0xf == (b >> 48) & 0xf,
            (a >> 44) & 0xf == (b >> 44) & 0xf,
            (a >> 40) & 0xf == (b >> 40) & 0xf,
            (a >> 36) & 0xf == (b >> 36) & 0xf,
            (a >> 32) & 0xf == (b >> 32) & 0xf,
            (a >> 28) & 0xf == (b >> 28) & 0xf,
            (a >> 24) & 0xf == (b >> 24) & 0xf,
            (a >> 20) & 0xf == (b >> 20) & 0xf,
            (a >> 16) & 0xf == (b >> 16) & 0xf,
            (a >> 12) & 0xf == (b >> 12) & 0xf,
            (a >> 8) & 0xf == (b >> 8) & 0xf,
            (a >> 4) & 0xf == (b >> 4) & 0xf,
            (a >> 0) & 0xf == (b >> 0) & 0xf,
    ;
}

proof fn lemma_hyphenated_has_digits(id: u128)
    ensures
        hyphenated(id).len() == 36,
        ({
            let h = hyphenated(id);
            hex_digits(id) == h.subrange(0, 8) + h.subrange(9, 13) + h.subrange(14, 18)
                + h.subrange(19, 23) + h.subrange(24, 36)
        }),
{
    let h = hyphenated(id);
    assert(hex_digits(id) =~= h.subrange(0, 8) + h.subrange(9, 13) + h.subrange(14, 18)
        + h.subrange(19, 23) + h.subrange(24, 36));
}

proof fn lemma_hex_digits_differ(a: u128, b: u128)
    requires
        hex_digits(a) == hex_digits(b),
    ensures
        a == b,
{
    assert forall|k: int| 0 <= k < 32 implies #[trigger] nibble(a, k) == nibble(b, k) by {
        assert(hex_digits(a)[k] == hex_digit(nibble(a, k)));
        assert(hex_digits(b)[k] == hex_digit(nibble(b, k)));
        lemma_nibble_bound(a, k);
        lemma_nibble_bound(b, k);
        lemma_hex_digit_injective(nibble(a, k), nibble(b, k));
    }
    lemma_nibbles_determine(a, b);
}

proof fn lemma_nibble_bound(id: u128, k: int)
    requires
        0 <= k < 32,
    ensures
        nibble(id, k) < 16,
{
    let s = (4 * (31 - k)) as u128;
    assert((id >> s) & 0xf < 16) by (bit_vector);
}

proof fn lemma_digits_are_lower(id: u128)
    ensures
        ascii_lower(hex_digits(id)) == hex_digits(id),
        ascii_lower(hyphenated(id)) == hyphenated(id),
{
    assert forall|k: int| 0 <= k < 32 implies ascii_lowercase(#[trigger] hex_digits(id)[k])
        == hex_digits(id)[k] by {
        assert(hex_digits(id)[k] == hex_digit(nibble(id, k)));
        lemma_nibble_bound(id, k);
    }
    let digits = hex_digits(id);
    assert(ascii_lower(digits) =~= digits);
    let h = hyphenated(id);
    assert forall|k: int| 0 <= k < 36 implies ascii_lowercase(#[trigger] h[k]) == h[k] by {
        if k < 8 {
            assert(h[k] == digits[k]);
        } else if 8 < k && k < 13 {
            assert(h[k] == digits[k - 1]);
        } else if 13 < k && k < 18 {
            assert(h[k] == digits[k - 2]);
        } else if 18 < k && k < 23 {
            assert(h[k] == digits[k - 3]);
        } else if 23 < k {
            assert(h[k] == digits[k - 4]);
        }
    }
    assert(ascii_lower(h) =~= h);
}

/// A UUID's hyphenated form, and its bare digits, write that UUID.
pub proof fn law_uuid_is_read_back(id: u128)
    ensures
        writes_uuid(hyphenated(id), id),
        writes_uuid(hex_digits(id), id),
{
    lemma_digits_are_lower(id);
}

/// Two UUIDs never share a hyphenated form.
pub proof fn law_hyphenated_forms_differ(a: u128, b: u128)
    requires
        hyphenated(a) == hyphenated(b),
    ensures
        a == b,
{
    lemma_hyphenated_has_digits(a);
    lemma_hyphenated_has_digits(b);
    lemma_hex_digits_differ(a, b);
}

/// A text writes at most one UUID.
pub proof fn law_text_writes_one_uuid(text: Seq<char>, a: u128, b: u128)
    requires
        writes_uuid(text, a),
        writes_uuid(text, b),
    ensures
        a == b,
{
    reveal_strlit("urn:uuid:");
    lemma_hyphenated_has_digits(a);
    lemma_hyphenated_has_digits(b);
    let lower = ascii_lower(text);
    let urn = "urn:uuid:"@;
    assert(urn.len() == 9);
    assert(hex_digits(a).len() == 32 && hex_digits(b).len() == 32);
    assert((seq!['{'] + hyphenated(a) + seq!['}']).len() == 38);
    assert((seq!['{'] + hyphenated(b) + seq!['}']).len() == 38);
    assert((urn + hyphenated(a)).len() == 45);
    assert((urn + hyphenated(b)).len() == 45);
    if lower == hex_digits(a) {
        lemma_hex_digits_differ(a, b);
    } else if lower == hyphenated(a) {
        law_hyphenated_forms_differ(a, b);
    } else if lower == seq!['{'] + hyphenated(a) + seq!['}'] {
        assert(hyphenated(a) =~= lower.subrange(1, 37));
        assert(hyphenated(b) =~= lower.subrange(1, 37));
        law_hyphenated_forms_differ(a, b);
    } else {
        assert(hyphenated(a) =~= lower.subrange(9, 45));
        assert(hyphenated(b) =~= lower.subrange(9, 45));
        law_hyphenated_forms_differ(a, b);
    }
}

/// The hyphenated form has 36 characters: digits, with hyphens behind the 8th, 12th, 16th
/// and 20th of them; without these it is the bare digits.
pub proof fn law_hyphens_group_the_digits(id: u128)
    ensures
        ({
            let h = hyphenated(id);
            let digits = hex_digits(id);
            &&& h.len() == 36
            &&& digits.len() == 32
            &&& h[8] == '-' && h[13] == '-' && h[18] == '-' && h[23] == '-'
            &&& digits == h.subrange(0, 8) + h.subrange(9, 13) + h.subrange(14, 18) + h.subrange(
                19,
                23,
            ) + h.subrange(24, 36)
            &&& forall|k: int|
                0 <= k < 32 ==> ('0' <= #[trigger] digits[k] <= '9' || 'a' <= digits[k] <= 'f')
        }),
{
    lemma_hyphenated_has_digits(id);
    let digits = hex_digits(id);
    assert forall|k: int| 0 <= k < 32 implies ('0' <= #[trigger] digits[k] <= '9' || 'a'
        <= digits[k] <= 'f') by {
        assert(digits[k] == hex_digit(nibble(id, k)));
        lemma_nibble_bound(id, k);
    }
}

} // verus!
