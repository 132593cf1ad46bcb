//! The 128-bit identifiers of services and characteristics, the ones the
//! device under test is expected to expose, and their canonical text.

use vstd::arithmetic::power::pow;
use vstd::prelude::*;

use crate::text::digit_char;

verus! {

/// The service the device advertises; the scan is filtered by it.
pub const ADVERTISING_SERVICE: u128 = 0x46548881_E7D9_4DE1_BBB7_DB016F1C657D;

/// The second service of the device.
pub const OTHER_SERVICE: u128 = 0x2BC08F60_17EB_431B_BEE7_329518164CD1;

/// Read-only characteristic of the advertising service.
pub const STATIC_CHARACTERISTIC: u128 = 0xAF679F91_7239_402A_813D_55B5367E4A29;

/// Characteristic of the advertising service that takes writes without response.
pub const WRITABLE_CHARACTERISTIC: u128 = 0x22E32A0E_1D8D_4300_B0DF_F996E44E65D3;

/// Notifying characteristic of the other service.
pub const NOTIFYING_CHARACTERISTIC: u128 = 0x6482DF69_A273_4F69_BADC_18583BA9A523;

/// Indicating characteristic of the other service.
pub const INDICATING_CHARACTERISTIC: u128 = 0xB0D2A14A_8205_4E07_9317_DC7D61951473;

/// The `k`-th of the 32 hexadecimal digits of `id`, most significant first.
pub open spec fn hex_digit(id: u128, k: int) -> int {
    (id as int / pow(16, (31 - k) as nat)) % 16
}

/// The character of one hexadecimal digit, in the chosen letter case.
pub open spec fn hex_char(d: int, upper: bool) -> char {
    if d < 10 {
        digit_char(d)
    } else if d == 10 {
        if upper { 'A' } else { 'a' }
    } else if d == 11 {
        if upper { 'B' } else { 'b' }
    } else if d == 12 {
        if upper { 'C' } else { 'c' }
    } else if d == 13 {
        if upper { 'D' } else { 'd' }
    } else if d == 14 {
        if upper { 'E' } else { 'e' }
    } else {
        if upper { 'F' } else { 'f' }
    }
}

/// How many hyphens stand before position `i` of the hyphenated form.
pub open spec fn hyphens_before(i: int) -> int {
    if i > 23 {
        4
    } else if i > 18 {
        3
    } else if i > 13 {
        2
    } else if i > 8 {
        1
    } else {
        0
    }
}

/// The hyphenated form of an identifier: 32 hexadecimal digits in groups of
/// 8, 4, 4, 4 and 12, most significant first, with a hyphen between groups.
pub open spec fn hyphenated(id: u128, upper: bool) -> Seq<char> {
    Seq::new(
        36,
        |i: int|
            if i == 8 || i == 13 || i == 18 || i == 23 {
                '-'
            } else {
                hex_char(hex_digit(id, i - hyphens_before(i)), upper)
            },
    )
}

/// The identifiers of a list in hyphenated lower case, separated by a comma and a space.
pub open spec fn joined(ids: Seq<u128>) -> Seq<char>
    decreases ids.len(),
{
    if ids.len() == 0 {
        Seq::empty()
    } else if ids.len() == 1 {
        hyphenated(ids[0], false)
    } else {
        joined(ids.drop_last()) + seq![',', ' '] + hyphenated(ids.last(), false)
    }
}

/// A list of identifiers as a diagnostic shows it: in square brackets, in the order given.
pub open spec fn identifier_list(ids: Seq<u128>) -> Seq<char> {
    seq!['['] + joined(ids) + seq![']']
}

/// Trusted, not proved. The body calls `uuid::Uuid::from_u128` and renders
/// the result with `{:?}`, that is through the `Debug` implementation of
/// `uuid::Uuid`. The contract claims that this text is the hyphenated form in
/// lower case: the 32 hexadecimal digits of the number, most significant
/// first, with a hyphen after the 8th, the 12th, the 16th and the 20th.
#[verifier::external_body]
pub(crate) fn lower_hyphenated(id: u128) -> (s: String)
    ensures
        s@ == hyphenated(id, false),
{
    format!("{:?}", uuid::Uuid::from_u128(id))
}

/// Trusted, not proved. The body calls `uuid::Uuid::from_u128` and renders
/// the result with `{:X}`, that is through the `UpperHex` implementation of
/// `uuid::Uuid`. The contract claims that this text is the hyphenated form in
/// upper case.
#[verifier::external_body]
pub(crate) fn upper_hyphenated(id: u128) -> (s: String)
    ensures
        s@ == hyphenated(id, true),
{
    format!("{:X}", uuid::Uuid::from_u128(id))
}

/// Renders a list of identifiers that were found.
pub fn identifier_list_string(ids: &Vec<u128>) -> (s: String)
    ensures
        s@ == identifier_list(ids@),
{
    let mut s = String::from_str("[");
    proof {
        reveal_strlit("[");
        reveal_strlit("]");
        reveal_strlit(", ");
        assert(ids@.take(0) =~= Seq::<u128>::empty());
        assert(s@ =~= seq!['['] + joined(ids@.take(0)));
    }
    let mut i: usize = 0;
    while i < ids.len()
        invariant
            i <= ids.len(),
            s@ == seq!['['] + joined(ids@.take(i as int)),
            ", "@ == seq![',', ' '],
        decreases ids.len() - i,
    {
        if i > 0 {
            s.append(", ");
        }
        let item = lower_hyphenated(ids[i]);
        s.append(item.as_str());
        proof {
            let before = ids@.take(i as int);
            let after = ids@.take(i + 1);
            assert(after.drop_last() =~= before);
            assert(after.last() == ids@[i as int]);
            if i == 0 {
                assert(joined(before) =~= Seq::<char>::empty());
                assert(s@ =~= seq!['['] + joined(after));
            } else {
                assert(s@ =~= seq!['['] + joined(after));
            }
        }
        i += 1;
    }
    proof {
        assert(ids@.take(i as int) =~= ids@);
    }
    s.append("]");
    s
}

/// Sixteen to the `k`, by repeated multiplication.
spec fn sixteen_to(k: nat) -> int
    decreases k,
{
    if k == 0 {
        1
    } else {
        16 * sixteen_to((k - 1) as nat)
    }
}

/// The `k`-th digit of `id` is `digit`, given the power of sixteen that places it.
proof fn lemma_hex_digit(id: u128, k: int, power: int, digit: int)
    requires
        0 <= k < 32,
        power == sixteen_to((31 - k) as nat),
        (id as int / power) % 16 == digit,
    ensures
        hex_digit(id, k) == digit,
{
    lemma_power_of_sixteen((31 - k) as nat);
}

proof fn lemma_power_of_sixteen(k: nat)
    ensures
        pow(16, k) == sixteen_to(k),
    decreases k,
{
    reveal(pow);
    if k > 0 {
        lemma_power_of_sixteen((k - 1) as nat);
    }
}

/// The hyphenated form at work: the advertising service in upper case is
/// the text under which the device documents it.
pub proof fn lemma_advertising_service_text()
    ensures
        hyphenated(ADVERTISING_SERVICE, true) == "46548881-E7D9-4DE1-BBB7-DB016F1C657D"@,
{
    reveal_strlit("46548881-E7D9-4DE1-BBB7-DB016F1C657D");
    reveal_with_fuel(sixteen_to, 33);
    lemma_hex_digit(ADVERTISING_SERVICE, 0, 0x10000000000000000000000000000000, 4);
    lemma_hex_digit(ADVERTISING_SERVICE, 1, 0x1000000000000000000000000000000, 6);
    lemma_hex_digit(ADVERTISING_SERVICE, 2, 0x100000000000000000000000000000, 5);
    lemma_hex_digit(ADVERTISING_SERVICE, 3, 0x10000000000000000000000000000, 4);
    lemma_hex_digit(ADVERTISING_SERVICE, 4, 0x1000000000000000000000000000, 8);
    lemma_hex_digit(ADVERTISING_SERVICE, 5, 0x100000000000000000000000000, 8);
    lemma_hex_digit(ADVERTISING_SERVICE, 6, 0x10000000000000000000000000, 8);
    lemma_hex_digit(ADVERTISING_SERVICE, 7, 0x1000000000000000000000000, 1);
    lemma_hex_digit(ADVERTISING_SERVICE, 8, 0x100000000000000000000000, 14);
    lemma_hex_digit(ADVERTISING_SERVICE, 9, 0x10000000000000000000000, 7);
    lemma_hex_digit(ADVERTISING_SERVICE, 10, 0x1000000000000000000000, 13);
    lemma_hex_digit(ADVERTISING_SERVICE, 11, 0x100000000000000000000, 9);
    lemma_hex_digit(ADVERTISING_SERVICE, 12, 0x10000000000000000000, 4);
    lemma_hex_digit(ADVERTISING_SERVICE, 13, 0x1000000000000000000, 13);
    lemma_hex_digit(ADVERTISING_SERVICE, 14, 0x100000000000000000, 14);
    lemma_hex_digit(ADVERTISING_SERVICE, 15, 0x10000000000000000, 1);
    lemma_hex_digit(ADVERTISING_SERVICE, 16, 0x1000000000000000, 11);
    lemma_hex_digit(ADVERTISING_SERVICE, 17, 0x100000000000000, 11);
    lemma_hex_digit(ADVERTISING_SERVICE, 18, 0x10000000000000, 11);
    lemma_hex_digit(ADVERTISING_SERVICE, 19, 0x1000000000000, 7);
    lemma_hex_digit(ADVERTISING_SERVICE, 20, 0x100000000000, 13);
    lemma_hex_digit(ADVERTISING_SERVICE, 21, 0x10000000000, 11);
    lemma_hex_digit(ADVERTISING_SERVICE, 22, 0x1000000000, 0);
    lemma_hex_digit(ADVERTISING_SERVICE, 23, 0x100000000, 1);
    lemma_hex_digit(ADVERTISING_SERVICE, 24, 0x10000000, 6);
    lemma_hex_digit(ADVERTISING_SERVICE, 25, 0x1000000, 15);
    lemma_hex_digit(ADVERTISING_SERVICE, 26, 0x100000, 1);
    lemma_hex_digit(ADVERTISING_SERVICE, 27, 0x10000, 12);
    lemma_hex_digit(ADVERTISING_SERVICE, 28, 0x1000, 6);
    lemma_hex_digit(ADVERTISING_SERVICE, 29, 0x100, 5);
    lemma_hex_digit(ADVERTISING_SERVICE, 30, 0x10, 7);
    lemma_hex_digit(ADVERTISING_SERVICE, 31, 0x1, 13);
    let text = hyphenated(ADVERTISING_SERVICE, true);
    let wanted = "46548881-E7D9-4DE1-BBB7-DB016F1C657D"@;
    assert forall|i: int| 0 <= i < 36 implies text[i] == wanted[i] by {
        assert(
            i == 0 || i == 1 || i == 2 || i == 3 || i == 4 || i == 5
                || i == 6 || i == 7 || i == 8 || i == 9 || i == 10 || i == 11
                || i == 12 || i == 13 || i == 14 || i == 15 || i == 16 || i == 17
                || i == 18 || i == 19 || i == 20 || i == 21 || i == 22 || i == 23
                || i == 24 || i == 25 || i == 26 || i == 27 || i == 28 || i == 29
                || i == 30 || i == 31 || i == 32 || i == 33 || i == 34 || i == 35
        );
    }
    assert(text =~= wanted);
}

} // verus!
