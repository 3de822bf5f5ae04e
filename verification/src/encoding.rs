//! Base64 text and SHA-256 digests.

use base64::Engine;
use sha2::Digest;
use vstd::prelude::*;

verus! {

/// The six bits of `bytes` that the Base64 digit number `k` stands for; bits past the end are zero.
pub open spec fn sextet(bytes: Seq<u8>, k: int) -> int {
    let group = 3 * (k / 4);
    let a = byte_or_zero(bytes, group);
    let b = byte_or_zero(bytes, group + 1);
    let c = byte_or_zero(bytes, group + 2);
    if k % 4 == 0 {
        a / 4
    } else if k % 4 == 1 {
        (a % 4) * 16 + b / 16
    } else if k % 4 == 2 {
        (b % 16) * 4 + c / 64
    } else {
        c % 64
    }
}

/// The byte at position `i`, or zero past the end.
pub open spec fn byte_or_zero(bytes: Seq<u8>, i: int) -> int {
    if 0 <= i < bytes.len() {
        bytes[i] as int
    } else {
        0
    }
}

/// The digit of the standard Base64 alphabet for `n`, which is less than 64.
pub open spec fn base64_digit(n: int) -> char {
    if n < 26 {
        (0x41 + n) as char
    } else if n < 52 {
        (0x61 + (n - 26)) as char
    } else if n < 62 {
        (0x30 + (n - 52)) as char
    } else if n == 62 {
        '+'
    } else {
        '/'
    }
}

/// How many characters the Base64 text of `n` bytes has.
pub open spec fn base64_len(n: nat) -> nat {
    ((n + 2) / 3) * 4
}

/// The Base64 text of `bytes`: the standard alphabet, filled up with `=` to groups of four.
pub open spec fn base64_text(bytes: Seq<u8>) -> Seq<char> {
    Seq::new(
        base64_len(bytes.len()),
        |k: int|
            if k % 4 >= 2 && 3 * (k / 4) + k % 4 - 1 >= bytes.len() {
                '='
            } else {
                base64_digit(sextet(bytes, k))
            },
    )
}

/// Whether the Base64 text of `n` bytes fits in a string on this machine.
pub open spec fn base64_fits(n: nat) -> bool {
    base64_len(n) <= isize::MAX
}

/// `Engine::encode` of the base64 crate with its `STANDARD` engine writes the bytes in the standard
/// alphabet, with padding. It panics where the text is too long for a string.
#[verifier::external_body]
pub(crate) fn base64_encode(bytes: &Vec<u8>) -> (r: String)
    requires
        base64_fits(bytes@.len()),
    ensures
        r@ == base64_text(bytes@),
{
    base64::engine::general_purpose::STANDARD.encode(bytes)
}

/// The SHA-256 digest of a sequence of bytes.
pub uninterp spec fn sha256(bytes: Seq<u8>) -> Seq<u8>;

/// `Sha256::digest` of the sha2 crate gives the 32 bytes of the SHA-256 digest.
#[verifier::external_body]
pub(crate) fn sha256_digest(bytes: &[u8]) -> (r: Vec<u8>)
    ensures
        r@ == sha256(bytes@),
        r@.len() == 32,
{
    sha2::Sha256::digest(bytes).to_vec()
}

/// The number that a character of the Base64 alphabet stands for.
pub open spec fn digit_value(c: char) -> int {
    let n = c as u32;
    if 0x41 <= n <= 0x5a {
        n - 0x41
    } else if 0x61 <= n <= 0x7a {
        n - 0x61 + 26
    } else if 0x30 <= n <= 0x39 {
        n - 0x30 + 52
    } else if c == '+' {
        62
    } else {
        63
    }
}

proof fn lemma_digit(n: int)
    requires
        0 <= n < 64,
    ensures
        digit_value(base64_digit(n)) == n,
        base64_digit(n) != '=',
{
}

proof fn lemma_sextet_range(bytes: Seq<u8>, k: int)
    requires
        0 <= k,
    ensures
        0 <= sextet(bytes, k) < 64,
{
}

/// The digits of two equal texts stand for the same bits wherever both show a digit.
proof fn lemma_same_sextet(x: Seq<u8>, y: Seq<u8>, k: int)
    requires
        base64_text(x) == base64_text(y),
        0 <= k < base64_len(x.len()),
    ensures
        base64_len(x.len()) == base64_len(y.len()),
        (k % 4 >= 2 && 3 * (k / 4) + k % 4 - 1 >= x.len()) == (k % 4 >= 2 && 3 * (k / 4) + k % 4 - 1
            >= y.len()),
        !(k % 4 >= 2 && 3 * (k / 4) + k % 4 - 1 >= x.len()) ==> sextet(x, k) == sextet(y, k),
{
    assert(base64_text(x).len() == base64_len(x.len()));
    assert(base64_text(y).len() == base64_len(y.len()));
    let c = base64_text(x)[k];
    assert(c == base64_text(y)[k]);
    lemma_sextet_range(x, k);
    lemma_sextet_range(y, k);
    lemma_digit(sextet(x, k));
    lemma_digit(sextet(y, k));
}

/// No two byte sequences have the same Base64 text: what the API hands out determines the key.
pub proof fn law_base64_is_injective(x: Seq<u8>, y: Seq<u8>)
    ensures
        base64_text(x) == base64_text(y) ==> x == y,
{
    if base64_text(x) == base64_text(y) {
        assert(base64_text(x).len() == base64_len(x.len()));
        assert(base64_text(y).len() == base64_len(y.len()));
        let n = base64_len(x.len()) as int;
        assert(x.len() == y.len()) by {
            if n > 0 {
                lemma_same_sextet(x, y, n - 1);
                lemma_same_sextet(x, y, n - 2);
            }
        }
        assert forall|i: int| 0 <= i < x.len() implies x[i] == y[i] by {
            let k = 4 * (i / 3);
            lemma_same_sextet(x, y, k);
            lemma_same_sextet(x, y, k + 1);
            if i % 3 >= 1 {
                lemma_same_sextet(x, y, k + 2);
            }
            if i % 3 == 2 {
                lemma_same_sextet(x, y, k + 3);
            }
        }
        assert(x =~= y);
    }
}

/// Three bytes take four characters, and what is left takes four more; a text fits in a string
/// where its length does.
pub proof fn law_base64_takes_four_for_three(bytes: Seq<u8>)
    ensures
        base64_text(bytes).len() % 4 == 0,
        3 * base64_text(bytes).len() >= 4 * bytes.len(),
        3 * base64_text(bytes).len() < 4 * bytes.len() + 12,
        base64_fits(bytes.len()) <==> base64_text(bytes).len() <= isize::MAX,
{
}

/// The digits are those of the standard alphabet, in its order, and each stands for its place.
pub proof fn law_base64_uses_the_standard_alphabet(n: int)
    requires
        0 <= n < 64,
    ensures
        ({
            let alphabet = "ABCDEFGHIJKLMNOPQRSTUVWXYZabcdefghijklmnopqrstuvwxyz0123456789+/"@;
            &&& alphabet.len() == 64
            &&& base64_digit(n) == alphabet[n]
            &&& digit_value(alphabet[n]) == n
        }),
{
    reveal_strlit("ABCDEFGHIJKLMNOPQRSTUVWXYZabcdefghijklmnopqrstuvwxyz0123456789+/");
    lemma_digit(n);
}

/// The bytes can be read back from the text, six bits from each digit: the digits come first, as
/// many as the bytes need, and what is left of the last four is filled with the equals sign.
pub proof fn law_base64_can_be_read_back(bytes: Seq<u8>)
    ensures
        forall|k: int|
            0 <= k < base64_text(bytes).len() ==> (#[trigger] base64_text(bytes)[k] == '=' <==> 3
                * k >= 4 * bytes.len()),
        forall|i: int|
            0 <= i < bytes.len() ==> {
                let v = |k: int| digit_value(base64_text(bytes)[k]);
                let k = 4 * (i / 3) + i % 3;
                (#[trigger] bytes[i]) as int == (if i % 3 == 0 {
                    v(k) * 4 + v(k + 1) / 16
                } else if i % 3 == 1 {
                    (v(k) % 16) * 16 + v(k + 1) / 4
                } else {
                    (v(k) % 4) * 64 + v(k + 1)
                })
            },
{
    let text = base64_text(bytes);
    assert forall|k: int| 0 <= k < text.len() implies (#[trigger] text[k] == '=' <==> 3 * k >= 4
        * bytes.len()) by {
        lemma_sextet_range(bytes, k);
        lemma_digit(sextet(bytes, k));
    }
    assert forall|i: int| 0 <= i < bytes.len() implies {
        let v = |k: int| digit_value(text[k]);
        let k = 4 * (i / 3) + i % 3;
        (#[trigger] bytes[i]) as int == (if i % 3 == 0 {
            v(k) * 4 + v(k + 1) / 16
        } else if i % 3 == 1 {
            (v(k) % 16) * 16 + v(k + 1) / 4
        } else {
            (v(k) % 4) * 64 + v(k + 1)
        })
    } by {
        let k = 4 * (i / 3) + i % 3;
        lemma_sextet_range(bytes, k);
        lemma_sextet_range(bytes, k + 1);
        lemma_digit(sextet(bytes, k));
        lemma_digit(sextet(bytes, k + 1));
        assert(digit_value(text[k]) == sextet(bytes, k));
        assert(digit_value(text[k + 1]) == sextet(bytes, k + 1));
    }
}

} // verus!
