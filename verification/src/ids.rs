//! Session identifiers: the 128 bits of a UUID, their text, and the log tag cut from it.

use vstd::prelude::*;

verus! {

/// The hexadecimal digit for `n`, which is less than sixteen.
pub open spec fn hex_digit(n: u128, upper: bool) -> char {
    if n < 10 {
        (0x30 + n) as char
    } else if upper {
        (0x37 + n) as char
    } else {
        (0x57 + n) as char
    }
}

/// The four bits of `bits` that its hexadecimal digit number `i` shows, counted from the left.
pub open spec fn nibble(bits: u128, i: int) -> u128 {
    (bits >> ((124 - 4 * i) as u128)) & 0xf
}

/// The 32 hexadecimal digits of `bits`.
pub open spec fn hex32(bits: u128, upper: bool) -> Seq<char> {
    Seq::new(32, |i: int| hex_digit(nibble(bits, i), upper))
}

/// The text of a UUID: its digits in groups of 8, 4, 4, 4 and 12, with hyphens between them.
pub open spec fn hyphenated(bits: u128, upper: bool) -> Seq<char> {
    let digits = hex32(bits, upper);
    digits.subrange(0, 8).push('-') + digits.subrange(8, 12).push('-') + digits.subrange(
        12,
        16,
    ).push('-') + digits.subrange(16, 20).push('-') + digits.subrange(20, 32)
}

/// `Uuid::simple` of the uuid crate, with its `Display`, writes the 32 digits in lower case.
#[verifier::external_body]
fn simple_text(bits: u128) -> (r: String)
    ensures
        r@ == hex32(bits, false),
{
    uuid::Uuid::from_u128(bits).simple().to_string()
}

/// `Uuid`'s `Display` of the uuid crate writes the hyphenated digits in lower case.
#[verifier::external_body]
fn uuid_text(bits: u128) -> (r: String)
    ensures
        r@ == hyphenated(bits, false),
{
    uuid::Uuid::from_u128(bits).to_string()
}

/// `Uuid::new_v4` of the uuid crate makes a random UUID: version 4, in the RFC's variant. Its other
/// bits are left to chance.
#[verifier::external_body]
pub(crate) fn random_uuid() -> (r: u128)
    ensures
        nibble(r, 12) == 4,
        8 <= nibble(r, 16) <= 11,
{
    uuid::Uuid::new_v4().as_u128()
}

/// `rand::random` of the rand crate; nothing is promised of the number.
#[verifier::external_body]
pub(crate) fn random_number() -> (r: u128) {
    rand::random::<u128>()
}

/// The identifier as the API hands it out.
pub fn session_id_text(id: u128) -> (r: String)
    ensures
        r@ == hyphenated(id, false),
{
    uuid_text(id)
}

/// The short form of a session identifier, which both the pipeline's log lines and the server's
/// carry: its first eight digits.
pub fn tag(id: u128) -> (r: String)
    ensures
        r@ == hex32(id, false).take(8),
{
    let digits = simple_text(id);
    let chars = crate::text::chars_of(digits.as_str());
    let mut out = String::new();
    for i in 0..8
        invariant
            chars@ == hex32(id, false),
            out@ == chars@.take(i as int),
    {
        out.push(chars[i]);
        assert(out@ =~= chars@.take(i + 1));
    }
    out
}

/// The 32 digits of `bits` in upper case.
pub fn upper_hex(bits: u128) -> (r: String)
    ensures
        r@ == hex32(bits, true),
{
    let mut out = String::new();
    for i in 0..32
        invariant
            out@ == hex32(bits, true).take(i as int),
    {
        let shift: u128 = (124 - 4 * i) as u128;
        let n: u128 = (bits >> shift) & 0xf;
        assert(n < 16) by (bit_vector)
            requires
                n == (bits >> shift) & 0xf,
        ;
        let c: char = if n < 10 {
            (0x30 + n as u8) as char
        } else {
            (0x37 + n as u8) as char
        };
        out.push(c);
        assert(c == hex_digit(nibble(bits, i as int), true));
        assert(out@ =~= hex32(bits, true).take(i + 1));
    }
    assert(hex32(bits, true).take(32) =~= hex32(bits, true));
    out
}

/// The text of a UUID in upper case.
pub fn upper_uuid(bits: u128) -> (r: String)
    ensures
        r@ == hyphenated(bits, true),
{
    let digits = upper_hex(bits);
    let chars = crate::text::chars_of(digits.as_str());
    let mut out = String::new();
    let ghost spread = hyphenated(bits, true);
    let mut i: usize = 0;
    assert(spread.take(0) =~= Seq::empty());
    while i < 32
        invariant
            i <= 32,
            chars@ == hex32(bits, true),
            spread == hyphenated(bits, true),
            out@ == spread.take(place(i as int)),
        decreases 32 - i,
    {
        if i == 8 || i == 12 || i == 16 || i == 20 {
            out.push('-');
        }
        out.push(chars[i]);
        i += 1;
        assert(out@ =~= spread.take(place(i as int)));
    }
    assert(spread.take(36) =~= spread);
    out
}

/// How many characters of a hyphenated text stand for its first `i` digits.
spec fn place(i: int) -> int {
    if i <= 8 {
        i
    } else if i <= 12 {
        i + 1
    } else if i <= 16 {
        i + 2
    } else if i <= 20 {
        i + 3
    } else {
        i + 4
    }
}

/// The log tag is a prefix of the session identifier that the caller gets, so the lines of both
/// sides can be joined on it.
pub proof fn law_tag_is_a_prefix_of_the_session_id(id: u128)
    ensures
        hex32(id, false).take(8).is_prefix_of(hyphenated(id, false)),
        hex32(id, false).take(8).len() == 8,
{
    assert(hyphenated(id, false).subrange(0, 8) =~= hex32(id, false).take(8));
}

/// The number that a hexadecimal digit stands for.
pub open spec fn hex_value(c: char) -> int {
    let n = c as int;
    if 0x30 <= n <= 0x39 {
        n - 0x30
    } else if 0x41 <= n <= 0x46 {
        n - 0x41 + 10
    } else {
        n - 0x61 + 10
    }
}

/// The number that hexadecimal digits stand for.
pub open spec fn hex_number(s: Seq<char>) -> int
    decreases s.len(),
{
    if s.len() == 0 {
        0
    } else {
        16 * hex_number(s.drop_last()) + hex_value(s.last())
    }
}

proof fn lemma_hex_prefix(bits: u128, upper: bool, n: int)
    requires
        0 <= n <= 32,
    ensures
        n > 0 ==> hex_number(hex32(bits, upper).take(n)) == bits >> ((128 - 4 * n) as u128),
        n == 0 ==> hex_number(hex32(bits, upper).take(n)) == 0,
    decreases n,
{
    if n > 0 {
        lemma_hex_prefix(bits, upper, n - 1);
        let digits = hex32(bits, upper);
        assert(digits.take(n).drop_last() =~= digits.take(n - 1));
        let shift = (128 - 4 * n) as u128;
        let v = bits >> shift;
        let low = v & 0xf;
        assert(nibble(bits, n - 1) == low);
        assert(low < 16) by (bit_vector)
            requires
                low == v & 0xf,
        ;
        assert(hex_value(hex_digit(low, upper)) == low);
        assert(v == 16 * (v >> 4u128) + low) by (bit_vector)
            requires
                low == v & 0xf,
        ;
        if n == 1 {
            assert(v >> 4u128 == 0) by (bit_vector)
                requires
                    v == bits >> 124u128,
            ;
        } else {
            let more = (128 - 4 * (n - 1)) as u128;
            assert(v >> 4u128 == bits >> more) by (bit_vector)
                requires
                    v == bits >> shift,
                    more == shift + 4,
                    shift <= 120,
            ;
        }
    }
}

/// The digits of an identifier stand for its bits: there are 32 of them, none of them is a letter
/// of the other case, and read as one number they are the identifier. With hyphens, the same
/// digits stand in groups of 8, 4, 4, 4 and 12.
pub proof fn law_identifiers_can_be_read_back(bits: u128, upper: bool)
    ensures
        hex32(bits, upper).len() == 32,
        hex_number(hex32(bits, upper)) == bits,
        forall|i: int|
            0 <= i < 32 ==> {
                let n = #[trigger] hex32(bits, upper)[i] as int;
                0x30 <= n <= 0x39 || (upper && 0x41 <= n <= 0x46) || (!upper && 0x61 <= n <= 0x66)
            },
        hyphenated(bits, upper).len() == 36,
        forall|i: int|
            0 <= i < 36 ==> #[trigger] hyphenated(bits, upper)[i] == (if i < 8 {
                hex32(bits, upper)[i]
            } else if i == 8 || i == 13 || i == 18 || i == 23 {
                '-'
            } else if i < 13 {
                hex32(bits, upper)[i - 1]
            } else if i < 18 {
                hex32(bits, upper)[i - 2]
            } else if i < 23 {
                hex32(bits, upper)[i - 3]
            } else {
                hex32(bits, upper)[i - 4]
            }),
{
    lemma_hex_prefix(bits, upper, 32);
    assert(hex32(bits, upper).take(32) =~= hex32(bits, upper));
    assert(bits >> 0u128 == bits) by (bit_vector);
    assert forall|i: int| 0 <= i < 32 implies {
        let n = #[trigger] hex32(bits, upper)[i] as int;
        0x30 <= n <= 0x39 || (upper && 0x41 <= n <= 0x46) || (!upper && 0x61 <= n <= 0x66)
    } by {
        let v = bits >> ((124 - 4 * i) as u128);
        assert(v & 0xf < 16) by (bit_vector);
    }
}

} // verus!
