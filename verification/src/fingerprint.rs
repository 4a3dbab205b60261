//! The identity of a finding: the SHA-1 of its message, path and line.

use crate::decimal::{
    decimal, decimal_string, is_digit, lemma_decimal_is_digits, lemma_decimal_is_injective,
    lemma_decimal_len,
};
use crate::digest::{is_sha1_hex, sha1_hex, sha1_hex_digest, SHA1_LIMIT};
use vstd::prelude::*;
use vstd::utf8::{encode_utf8, encode_utf8_decode_utf8};

verus! {

/// The text that is digested: message, path and line number, joined by
/// hyphens, the line in decimal.
pub open spec fn fingerprint_text(message: Seq<char>, path: Seq<char>, line: nat) -> Seq<char> {
    message + seq!['-'] + path + seq!['-'] + decimal(line)
}

/// The bytes that are digested: the text in UTF-8.
pub open spec fn fingerprint_input(message: Seq<char>, path: Seq<char>, line: nat) -> Seq<u8> {
    encode_utf8(fingerprint_text(message, path, line))
}

/// Whether the text of a finding is short enough to be digested.
pub open spec fn can_fingerprint(message: Seq<char>, path: Seq<char>, line: nat) -> bool {
    fingerprint_input(message, path, line).len() < SHA1_LIMIT
}

/// The fingerprint of a finding: the SHA-1 of its text, in hexadecimal.
pub open spec fn fingerprint_of(message: Seq<char>, path: Seq<char>, line: nat) -> Seq<char> {
    sha1_hex(fingerprint_input(message, path, line))
}

/// Whether a text holds no hyphen.
pub open spec fn hyphen_free(text: Seq<char>) -> bool {
    forall|i: int| 0 <= i < text.len() ==> #[trigger] text[i] != '-'
}

/// The UTF-8 of two texts in a row is the UTF-8 of the first followed by
/// that of the second.
pub proof fn lemma_encode_utf8_concat(a: Seq<char>, b: Seq<char>)
    ensures
        encode_utf8(a + b) == encode_utf8(a) + encode_utf8(b),
    decreases a.len(),
{
    if a.len() == 0 {
        assert(a + b =~= b);
        assert(encode_utf8(a) + encode_utf8(b) =~= encode_utf8(b));
    } else {
        lemma_encode_utf8_concat(a.drop_first(), b);
        assert((a + b).drop_first() =~= a.drop_first() + b);
        assert(encode_utf8(a + b) =~= encode_utf8(a) + encode_utf8(b));
    }
}

/// A text of digits takes one byte for each digit.
pub proof fn lemma_encode_digits_len(digits: Seq<char>)
    requires
        forall|i: int| 0 <= i < digits.len() ==> is_digit(#[trigger] digits[i]),
    ensures
        encode_utf8(digits).len() == digits.len(),
    decreases digits.len(),
{
    if digits.len() > 0 {
        assert(is_digit(digits[0]));
        lemma_encode_digits_len(digits.drop_first());
    }
}

/// The number of bytes that are digested: those of the message and of the
/// path, one for each digit of the line, and the two hyphens.
pub proof fn lemma_fingerprint_input_len(message: Seq<char>, path: Seq<char>, line: nat)
    ensures
        fingerprint_input(message, path, line).len() == encode_utf8(message).len() + encode_utf8(
            path,
        ).len() + decimal(line).len() + 2,
        encode_utf8(decimal(line)).len() == decimal(line).len(),
{
    let hyphen = seq!['-'];
    lemma_encode_utf8_concat(message, hyphen);
    lemma_encode_utf8_concat(message + hyphen, path);
    lemma_encode_utf8_concat(message + hyphen + path, hyphen);
    lemma_encode_utf8_concat(message + hyphen + path + hyphen, decimal(line));
    lemma_decimal_is_digits(line);
    lemma_encode_digits_len(decimal(line));
    assert(encode_utf8(hyphen).len() == 1) by {
        assert(hyphen.drop_first() =~= Seq::<char>::empty());
        assert(encode_utf8(hyphen.drop_first()).len() == 0);
    }
}

/// No character takes more than four bytes in UTF-8.
pub proof fn lemma_encode_utf8_len(chars: Seq<char>)
    ensures
        chars.len() <= encode_utf8(chars).len() <= 4 * chars.len(),
    decreases chars.len(),
{
    if chars.len() > 0 {
        lemma_encode_utf8_len(chars.drop_first());
    }
}

/// A finding can be fingerprinted unless its message and path are longer
/// than any text that a machine holds: below 2^58 characters for the two
/// together, on a machine of up to 64 bits, it always can.
pub proof fn lemma_ordinary_texts_fit(message: Seq<char>, path: Seq<char>, line: nat)
    requires
        message.len() + path.len() < 0x0400_0000_0000_0000,
        line <= u64::MAX,
    ensures
        can_fingerprint(message, path, line),
{
    lemma_fingerprint_input_len(message, path, line);
    lemma_encode_utf8_len(message);
    lemma_encode_utf8_len(path);
    lemma_decimal_len(line);
}

/// Where the characters of the digested text come from.
proof fn lemma_fingerprint_text_index(message: Seq<char>, path: Seq<char>, line: nat)
    ensures
        ({
            let text = fingerprint_text(message, path, line);
            let first = message.len() as int;
            let second = first + 1 + path.len();
            &&& text.len() == second + 1 + decimal(line).len()
            &&& text[first] == '-'
            &&& text[second] == '-'
            &&& forall|i: int| 0 <= i < first ==> #[trigger] text[i] == message[i]
            &&& forall|i: int| first < i < second ==> #[trigger] text[i] == path[i - first - 1]
            &&& forall|i: int|
                second < i < text.len() ==> #[trigger] text[i] == decimal(line)[i - second - 1]
        }),
{
}

/// The digested text tells its line, and what stands before the line: both
/// end at the last hyphen, since a numeral holds none.
pub proof fn lemma_fingerprint_text_tells_line(
    message1: Seq<char>,
    path1: Seq<char>,
    line1: nat,
    message2: Seq<char>,
    path2: Seq<char>,
    line2: nat,
)
    requires
        fingerprint_text(message1, path1, line1) == fingerprint_text(message2, path2, line2),
    ensures
        line1 == line2,
        message1.len() + path1.len() == message2.len() + path2.len(),
        message1 + seq!['-'] + path1 == message2 + seq!['-'] + path2,
{
    let text = fingerprint_text(message1, path1, line1);
    let second1 = message1.len() as int + 1 + path1.len();
    let second2 = message2.len() as int + 1 + path2.len();
    lemma_fingerprint_text_index(message1, path1, line1);
    lemma_fingerprint_text_index(message2, path2, line2);
    lemma_decimal_is_digits(line1);
    lemma_decimal_is_digits(line2);
    if second1 < second2 {
        assert(text[second2] == decimal(line1)[second2 - second1 - 1]);
        assert(is_digit(decimal(line1)[second2 - second1 - 1]));
    }
    if second2 < second1 {
        assert(text[second1] == decimal(line2)[second1 - second2 - 1]);
        assert(is_digit(decimal(line2)[second1 - second2 - 1]));
    }
    assert(second1 == second2);
    assert(decimal(line1) =~= decimal(line2)) by {
        assert forall|i: int| 0 <= i < decimal(line1).len() implies decimal(line1)[i] == decimal(
            line2,
        )[i] by {
            assert(text[second1 + 1 + i] == decimal(line1)[i]);
            assert(text[second2 + 1 + i] == decimal(line2)[i]);
        }
    }
    lemma_decimal_is_injective(line1, line2);
    assert(message1 + seq!['-'] + path1 =~= text.take(second1));
    assert(message2 + seq!['-'] + path2 =~= text.take(second2));
}

/// The digested text tells its parts, as long as the two paths hold no
/// hyphen, or the two messages hold none: the line is what follows the last
/// hyphen; the path is what stands between the last two, or the message
/// what stands before the first.
pub proof fn lemma_fingerprint_text_is_injective(
    message1: Seq<char>,
    path1: Seq<char>,
    line1: nat,
    message2: Seq<char>,
    path2: Seq<char>,
    line2: nat,
)
    requires
        (hyphen_free(path1) && hyphen_free(path2)) || (hyphen_free(message1) && hyphen_free(
            message2,
        )),
        fingerprint_text(message1, path1, line1) == fingerprint_text(message2, path2, line2),
    ensures
        message1 == message2,
        path1 == path2,
        line1 == line2,
{
    let text = fingerprint_text(message1, path1, line1);
    let first1 = message1.len() as int;
    let first2 = message2.len() as int;
    lemma_fingerprint_text_tells_line(message1, path1, line1, message2, path2, line2);
    lemma_fingerprint_text_index(message1, path1, line1);
    lemma_fingerprint_text_index(message2, path2, line2);
    if hyphen_free(path1) && hyphen_free(path2) {
        if first1 < first2 {
            assert(text[first2] == path1[first2 - first1 - 1]);
        }
        if first2 < first1 {
            assert(text[first1] == path2[first1 - first2 - 1]);
        }
    } else {
        if first1 < first2 {
            assert(text[first1] == message2[first1]);
        }
        if first2 < first1 {
            assert(text[first2] == message1[first2]);
        }
    }
    assert(first1 == first2);
    assert(message1 =~= message2) by {
        assert forall|i: int| 0 <= i < message1.len() implies message1[i] == message2[i] by {
            assert(text[i] == message1[i]);
            assert(text[i] == message2[i]);
        }
    }
    assert(path1 =~= path2) by {
        assert forall|i: int| 0 <= i < path1.len() implies path1[i] == path2[i] by {
            assert(text[first1 + 1 + i] == path1[i]);
            assert(text[first2 + 1 + i] == path2[i]);
        }
    }
}

/// Two findings that differ in message, path or line are digested from
/// different bytes, as long as their paths hold no hyphen, or their messages
/// hold none. (With a hyphen in both the join is ambiguous: `a-b` at `c` and
/// `a` at `b-c` are digested from the same bytes. And the digests of
/// different bytes may still collide: that two fingerprints differ is not
/// claimed.)
pub proof fn lemma_fingerprint_input_is_injective(
    message1: Seq<char>,
    path1: Seq<char>,
    line1: nat,
    message2: Seq<char>,
    path2: Seq<char>,
    line2: nat,
)
    requires
        (hyphen_free(path1) && hyphen_free(path2)) || (hyphen_free(message1) && hyphen_free(
            message2,
        )),
        fingerprint_input(message1, path1, line1) == fingerprint_input(message2, path2, line2),
    ensures
        message1 == message2,
        path1 == path2,
        line1 == line2,
{
    encode_utf8_decode_utf8(fingerprint_text(message1, path1, line1));
    encode_utf8_decode_utf8(fingerprint_text(message2, path2, line2));
    lemma_fingerprint_text_is_injective(message1, path1, line1, message2, path2, line2);
}

/// The fingerprint depends on message, path and line alone: the same three
/// give the same fingerprint, whenever and wherever it is computed.
pub proof fn lemma_fingerprint_is_deterministic(
    message1: Seq<char>,
    path1: Seq<char>,
    line1: nat,
    message2: Seq<char>,
    path2: Seq<char>,
    line2: nat,
)
    requires
        message1 == message2,
        path1 == path2,
        line1 == line2,
    ensures
        fingerprint_of(message1, path1, line1) == fingerprint_of(message2, path2, line2),
{
}

/// Writes out the text that is digested.
pub fn text(message: &str, path: &str, line: usize) -> (text: String)
    ensures
        text@ == fingerprint_text(message@, path@, line as nat),
{
    let mut text = String::from_str(message);
    text.append("-");
    text.append(path);
    text.append("-");
    let digits = decimal_string(line);
    text.append(digits.as_str());
    proof {
        reveal_strlit("-");
        assert("-"@ =~= seq!['-']);
    }
    text
}

/// Tells whether the text of a finding is short enough to be digested.
pub fn fits(message: &str, path: &str, line: usize) -> (fits: bool)
    ensures
        fits == can_fingerprint(message@, path@, line as nat),
{
    let digits = decimal_string(line);
    let message_len: usize = message.as_bytes().len();
    let path_len: usize = path.as_bytes().len();
    let digits_len: usize = digits.as_str().as_bytes().len();
    proof {
        lemma_fingerprint_input_len(message@, path@, line as nat);
    }
    let total: u128 = message_len as u128 + path_len as u128 + digits_len as u128 + 2;
    total < SHA1_LIMIT as u128
}

/// Digests a text that was written out by [`text`].
pub fn digest_text(text: &str) -> (fingerprint: String)
    requires
        encode_utf8(text@).len() < SHA1_LIMIT,
    ensures
        fingerprint@ == sha1_hex(encode_utf8(text@)),
        is_sha1_hex(fingerprint@),
{
    sha1_hex_digest(text.as_bytes())
}

} // verus!
