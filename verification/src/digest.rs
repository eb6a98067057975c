//! SHA-256 digests, written as `sha256:` and lower-case hexadecimal: of one identifier's bytes, or
//! of several parts, each behind its length.
use sha2::{Digest, Sha256};
use vstd::prelude::*;
use vstd::string::*;
use vstd::utf8::encode_utf8;

use crate::text::utf8_is_injective;

verus! {

/// What every digest starts with.
pub const DIGEST_PREFIX: &'static str = "sha256:";

/// The `width` low-order base-256 digits of `value`, most significant first.
pub open spec fn be_bytes(value: nat, width: nat) -> Seq<u8>
    decreases width,
{
    if width == 0 {
        Seq::empty()
    } else {
        be_bytes(value / 256, (width - 1) as nat).push((value % 256) as u8)
    }
}

/// The byte string that stands for `parts`: each part behind its length in eight bytes.
pub open spec fn frame(parts: Seq<Seq<u8>>) -> Seq<u8>
    decreases parts.len(),
{
    if parts.len() == 0 {
        Seq::empty()
    } else {
        frame(parts.drop_last()) + be_bytes(parts.last().len(), 8) + parts.last()
    }
}

/// The bytes that each slice of `parts` holds.
pub open spec fn part_bytes(parts: Seq<&[u8]>) -> Seq<Seq<u8>> {
    parts.map_values(|part: &[u8]| part@)
}

/// The lower-case hexadecimal digit for `value`.
pub open spec fn hex_digit(value: int) -> char {
    if value < 10 {
        (value + '0' as int) as char
    } else {
        (value - 10 + 'a' as int) as char
    }
}

/// Two lower-case hexadecimal digits for each byte, the high half first.
pub open spec fn hex_text(data: Seq<u8>) -> Seq<char> {
    Seq::new(
        data.len() * 2,
        |i: int|
            if i % 2 == 0 {
                hex_digit(data[i / 2] as int / 16)
            } else {
                hex_digit(data[i / 2] as int % 16)
            },
    )
}

pub open spec fn is_hex_digit(c: char) -> bool {
    '0' <= c <= '9' || 'a' <= c <= 'f'
}

/// `sha256:` and sixty-four lower-case hexadecimal digits.
pub open spec fn is_digest(text: Seq<char>) -> bool {
    &&& text.len() == 71
    &&& text.take(7) == DIGEST_PREFIX@
    &&& forall|i: int| 7 <= i < text.len() ==> is_hex_digit(#[trigger] text[i])
}

/// The SHA-256 hash of `data`, as `sha2::Sha256::digest` computes it.
pub uninterp spec fn sha256_of(data: Seq<u8>) -> Seq<u8>;

/// The digest of `parts`.
pub open spec fn digest_of(parts: Seq<Seq<u8>>) -> Seq<char> {
    DIGEST_PREFIX@ + hex_text(sha256_of(frame(parts)))
}

/// The digest by which an identifier is known: SHA-256 over its bytes and nothing else.
pub open spec fn identity_digest_of(value: Seq<char>) -> Seq<char> {
    DIGEST_PREFIX@ + hex_text(sha256_of(encode_utf8(value)))
}

/// The digest of one text.
pub open spec fn text_digest_of(value: Seq<char>) -> Seq<char> {
    digest_of(seq![encode_utf8(value)])
}

/// `sha2::Sha256::digest`: the hash depends on the bytes alone, and is thirty-two bytes long.
#[verifier::external_body]
fn sha256(data: &[u8]) -> (hash: Vec<u8>)
    ensures
        hash@ == sha256_of(data@),
        hash@.len() == 32,
{
    Sha256::digest(data).to_vec()
}

/// `hex::encode`: two lower-case hexadecimal digits for each byte.
#[verifier::external_body]
fn hex_encode(data: &[u8]) -> (text: String)
    ensures
        text@ == hex_text(data@),
{
    hex::encode(data)
}

/// The length of a part, as eight bytes, most significant first.
fn length_bytes(length: usize) -> (bytes: Vec<u8>)
    ensures
        bytes@ == be_bytes(length as nat, 8),
{
    let mut bytes: Vec<u8> = vec![0, 0, 0, 0, 0, 0, 0, 0];
    let mut rest: u64 = length as u64;
    let mut i: usize = 8;
    assert(bytes@.skip(8) =~= Seq::empty());
    assert(be_bytes(length as nat, 8) =~= be_bytes(rest as nat, i as nat) + bytes@.skip(i as int));
    while i > 0
        invariant
            i <= 8,
            bytes@.len() == 8,
            be_bytes(length as nat, 8) == be_bytes(rest as nat, i as nat) + bytes@.skip(i as int),
        decreases i,
    {
        let ghost before = bytes@.skip(i as int);
        let ghost old_rest = rest;
        let ghost old_i = i;
        i -= 1;
        bytes.set(i, (rest % 256) as u8);
        rest = rest / 256;
        proof {
            assert(bytes@.skip(i as int) =~= seq![(old_rest % 256) as u8] + before);
            assert(be_bytes(old_rest as nat, old_i as nat) == be_bytes(
                rest as nat,
                i as nat,
            ).push((old_rest as nat % 256) as u8));
            assert(be_bytes(old_rest as nat, old_i as nat) + before =~= be_bytes(
                rest as nat,
                i as nat,
            ) + bytes@.skip(i as int));
        }
    }
    assert(bytes@.skip(0) =~= bytes@);
    assert(be_bytes(rest as nat, 0) + bytes@ =~= bytes@);
    bytes
}

fn spell_digest(hash: Vec<u8>) -> (digest: String)
    requires
        hash@.len() == 32,
    ensures
        digest@ == DIGEST_PREFIX@ + hex_text(hash@),
        is_digest(digest@),
{
    let mut digest = String::from_str(DIGEST_PREFIX);
    digest.append(hex_encode(hash.as_slice()).as_str());
    proof {
        reveal_strlit("sha256:");
        assert(digest@.take(7) =~= DIGEST_PREFIX@);
    }
    digest
}

/// The digest of `parts`: SHA-256 over each part behind its length.
pub fn digest_parts(parts: &[&[u8]]) -> (digest: String)
    ensures
        digest@ == digest_of(part_bytes(parts@)),
        is_digest(digest@),
{
    let mut framed: Vec<u8> = Vec::new();
    let mut i: usize = 0;
    let ghost all = part_bytes(parts@);
    assert(all.take(0) =~= Seq::empty());
    while i < parts.len()
        invariant
            i <= parts.len(),
            all == part_bytes(parts@),
            framed@ == frame(all.take(i as int)),
        decreases parts.len() - i,
    {
        let part: &[u8] = parts[i];
        let length = length_bytes(part.len());
        framed.extend_from_slice(length.as_slice());
        framed.extend_from_slice(part);
        proof {
            assert(all.take(i + 1).drop_last() =~= all.take(i as int));
            assert(all.take(i + 1).last() == part@);
            assert(framed@ =~= frame(all.take(i + 1)));
        }
        i += 1;
    }
    assert(all.take(all.len() as int) =~= all);
    spell_digest(sha256(framed.as_slice()))
}

/// The digest of an identifier: SHA-256 over its bytes.
pub fn digest_identity(value: &str) -> (digest: String)
    ensures
        digest@ == identity_digest_of(value@),
        is_digest(digest@),
{
    spell_digest(sha256(value.as_bytes()))
}

/// The digest of one text.
pub fn digest_text(value: &str) -> (digest: String)
    ensures
        digest@ == text_digest_of(value@),
        is_digest(digest@),
{
    let parts = [value.as_bytes()];
    let digest = digest_parts(&parts);
    assert(part_bytes(parts@) =~= seq![encode_utf8(value@)]);
    digest
}

/// Every part is short enough for its length to fit in eight bytes.
pub open spec fn framable(parts: Seq<Seq<u8>>) -> bool {
    forall|i: int| 0 <= i < parts.len() ==> (#[trigger] parts[i]).len() <= u64::MAX
}

proof fn be_bytes_len(value: nat, width: nat)
    ensures
        be_bytes(value, width).len() == width,
    decreases width,
{
    if width > 0 {
        be_bytes_len(value / 256, (width - 1) as nat);
    }
}

/// Values below `256^width` (`bound`) that have the same digits are equal.
proof fn be_bytes_injective(left: nat, right: nat, width: nat)
    requires
        left < vstd::arithmetic::power::pow(256, width),
        right < vstd::arithmetic::power::pow(256, width),
        be_bytes(left, width) == be_bytes(right, width),
    ensures
        left == right,
    decreases width,
{
    vstd::arithmetic::power::lemma_pow0(256);
    if width > 0 {
        let narrower = (width - 1) as nat;
        let bound = vstd::arithmetic::power::pow(256, narrower);
        reveal(vstd::arithmetic::power::pow);
        assert(vstd::arithmetic::power::pow(256, width) == 256 * bound);
        let a = be_bytes(left / 256, narrower);
        let b = be_bytes(right / 256, narrower);
        assert(a.push((left % 256) as u8).drop_last() =~= a);
        assert(b.push((right % 256) as u8).drop_last() =~= b);
        assert(a.push((left % 256) as u8).last() == (left % 256) as u8);
        assert(b.push((right % 256) as u8).last() == (right % 256) as u8);
        be_bytes_injective(left / 256, right / 256, narrower);
    }
}

proof fn frame_unfolds_from_the_front(parts: Seq<Seq<u8>>)
    requires
        parts.len() > 0,
    ensures
        frame(parts) == be_bytes(parts[0].len(), 8) + parts[0] + frame(parts.drop_first()),
    decreases parts.len(),
{
    if parts.len() == 1 {
        assert(parts.drop_last() =~= Seq::empty());
        assert(parts.drop_first() =~= Seq::empty());
        assert(frame(parts) =~= be_bytes(parts[0].len(), 8) + parts[0] + frame(parts.drop_first()));
    } else {
        let front = parts.drop_last();
        frame_unfolds_from_the_front(front);
        assert(front.drop_first() =~= parts.drop_first().drop_last());
        assert(parts.drop_first().last() == parts.last());
        assert(frame(parts) =~= be_bytes(parts[0].len(), 8) + parts[0] + frame(parts.drop_first()));
    }
}

/// Framing loses nothing: two lists of parts with the same framed bytes are the same list.
pub proof fn framing_is_injective(left: Seq<Seq<u8>>, right: Seq<Seq<u8>>)
    requires
        framable(left),
        framable(right),
        frame(left) == frame(right),
    ensures
        left == right,
    decreases left.len(),
{
    if left.len() > 0 {
        frame_unfolds_from_the_front(left);
        be_bytes_len(left[0].len(), 8);
    }
    if right.len() > 0 {
        frame_unfolds_from_the_front(right);
        be_bytes_len(right[0].len(), 8);
    }
    if left.len() == 0 || right.len() == 0 {
        assert(frame(left).len() == 0 || frame(right).len() == 0);
        assert(left =~= right);
    } else {
        let a = be_bytes(left[0].len(), 8);
        let b = be_bytes(right[0].len(), 8);
        assert(a =~= frame(left).take(8));
        assert(b =~= frame(right).take(8));
        assert(vstd::arithmetic::power::pow(256, 8) == 0x1_0000_0000_0000_0000) by {
            reveal_with_fuel(vstd::arithmetic::power::pow, 9);
        }
        be_bytes_injective(left[0].len(), right[0].len(), 8);
        let end = 8 + left[0].len() as int;
        assert(left[0] =~= frame(left).subrange(8, end));
        assert(right[0] =~= frame(right).subrange(8, end));
        assert(frame(left.drop_first()) =~= frame(left).skip(end));
        assert(frame(right.drop_first()) =~= frame(right).skip(end));
        assert forall|i: int| 0 <= i < left.drop_first().len() implies (
        #[trigger] left.drop_first()[i]).len() <= u64::MAX by {
            assert(left.drop_first()[i] == left[i + 1]);
        }
        assert forall|i: int| 0 <= i < right.drop_first().len() implies (
        #[trigger] right.drop_first()[i]).len() <= u64::MAX by {
            assert(right.drop_first()[i] == right[i + 1]);
        }
        framing_is_injective(left.drop_first(), right.drop_first());
        assert(left =~= seq![left[0]] + left.drop_first());
        assert(right =~= seq![right[0]] + right.drop_first());
    }
}

proof fn hex_digit_is_injective(left: int, right: int)
    requires
        0 <= left < 16,
        0 <= right < 16,
        hex_digit(left) == hex_digit(right),
    ensures
        left == right,
{
    assert(hex_digit(left) as int == if left < 10 { left + 48 } else { left + 87 });
    assert(hex_digit(right) as int == if right < 10 { right + 48 } else { right + 87 });
}

/// Hexadecimal text is made of hexadecimal digits.
pub proof fn hex_text_holds_hex_digits(data: Seq<u8>, index: int)
    requires
        0 <= index < hex_text(data).len(),
    ensures
        is_hex_digit(hex_text(data)[index]),
{
    let high = data[index / 2] as int / 16;
    let low = data[index / 2] as int % 16;
    assert(hex_digit(high) as int == if high < 10 { high + 48 } else { high + 87 });
    assert(hex_digit(low) as int == if low < 10 { low + 48 } else { low + 87 });
}

/// Hexadecimal text stands for one byte string only.
pub proof fn hex_text_is_injective(left: Seq<u8>, right: Seq<u8>)
    requires
        hex_text(left) == hex_text(right),
    ensures
        left == right,
{
    assert(hex_text(left).len() == left.len() * 2);
    assert(hex_text(right).len() == right.len() * 2);
    assert forall|i: int| 0 <= i < left.len() implies left[i] == right[i] by {
        let even = 2 * i;
        let odd = 2 * i + 1;
        assert(even / 2 == i && odd / 2 == i && even % 2 == 0 && odd % 2 == 1);
        assert(hex_text(left)[even] == hex_digit(left[i] as int / 16));
        assert(hex_text(right)[even] == hex_digit(right[i] as int / 16));
        assert(hex_text(left)[odd] == hex_digit(left[i] as int % 16));
        assert(hex_text(right)[odd] == hex_digit(right[i] as int % 16));
        hex_digit_is_injective(left[i] as int / 16, right[i] as int / 16);
        hex_digit_is_injective(left[i] as int % 16, right[i] as int % 16);
    }
    assert(left =~= right);
}

/// SHA-256 maps the two framed byte strings, which differ, to one hash.
pub open spec fn is_collision(left: Seq<Seq<u8>>, right: Seq<Seq<u8>>) -> bool {
    frame(left) != frame(right) && sha256_of(frame(left)) == sha256_of(frame(right))
}

/// Parts with the same digest are the same parts, unless they are a collision.
pub proof fn equal_digests_mean_equal_parts_or_a_collision(
    left: Seq<Seq<u8>>,
    right: Seq<Seq<u8>>,
)
    requires
        framable(left),
        framable(right),
        digest_of(left) == digest_of(right),
    ensures
        left == right || is_collision(left, right),
{
    let a = sha256_of(frame(left));
    let b = sha256_of(frame(right));
    assert(hex_text(a) =~= digest_of(left).skip(DIGEST_PREFIX@.len() as int));
    assert(hex_text(b) =~= digest_of(right).skip(DIGEST_PREFIX@.len() as int));
    hex_text_is_injective(a, b);
    if frame(left) == frame(right) {
        framing_is_injective(left, right);
    }
}

/// SHA-256 maps the bytes of the two identifiers, which differ, to one hash.
pub open spec fn is_identity_collision(left: Seq<char>, right: Seq<char>) -> bool {
    encode_utf8(left) != encode_utf8(right) && sha256_of(encode_utf8(left)) == sha256_of(
        encode_utf8(right),
    )
}

/// Identifiers with the same digest are the same identifier, unless their bytes are a collision.
pub proof fn equal_identities_mean_equal_identifiers_or_a_collision(
    left: Seq<char>,
    right: Seq<char>,
)
    requires
        identity_digest_of(left) == identity_digest_of(right),
    ensures
        left == right || is_identity_collision(left, right),
{
    let a = sha256_of(encode_utf8(left));
    let b = sha256_of(encode_utf8(right));
    assert(hex_text(a) =~= identity_digest_of(left).skip(DIGEST_PREFIX@.len() as int));
    assert(hex_text(b) =~= identity_digest_of(right).skip(DIGEST_PREFIX@.len() as int));
    hex_text_is_injective(a, b);
    if encode_utf8(left) == encode_utf8(right) {
        utf8_is_injective(left, right);
    }
}

/// A part's length stands before it as an eight-byte number, the most significant byte first.
pub proof fn a_length_is_eight_bytes_most_significant_first(length: nat)
    requires
        length <= u64::MAX,
    ensures
        ({
            let bytes = be_bytes(length, 8);
            &&& bytes.len() == 8
            &&& length == bytes[0] * 0x100_0000_0000_0000 + bytes[1] * 0x1_0000_0000_0000 + bytes[2]
                * 0x100_0000_0000 + bytes[3] * 0x1_0000_0000 + bytes[4] * 0x100_0000 + bytes[5]
                * 0x1_0000 + bytes[6] * 0x100 + bytes[7]
        }),
{
    reveal_with_fuel(be_bytes, 9);
    let v1 = length / 256;
    let v2 = v1 / 256;
    let v3 = v2 / 256;
    let v4 = v3 / 256;
    let v5 = v4 / 256;
    let v6 = v5 / 256;
    let v7 = v6 / 256;
    let bytes = be_bytes(length, 8);
    assert(bytes =~= seq![
        (v7 % 256) as u8,
        (v6 % 256) as u8,
        (v5 % 256) as u8,
        (v4 % 256) as u8,
        (v3 % 256) as u8,
        (v2 % 256) as u8,
        (v1 % 256) as u8,
        (length % 256) as u8,
    ]);
    assert(v7 < 256);
}

/// Parts are framed one after the other, each as its length and its bytes.
pub proof fn parts_are_framed_one_after_the_other(
    first: Seq<Seq<u8>>,
    second: Seq<Seq<u8>>,
    part: Seq<u8>,
)
    ensures
        frame(Seq::empty()) == Seq::<u8>::empty(),
        frame(seq![part]) == be_bytes(part.len(), 8) + part,
        frame(first + second) == frame(first) + frame(second),
    decreases second.len(),
{
    reveal_with_fuel(frame, 2);
    assert(seq![part].drop_last() =~= Seq::empty());
    assert(seq![part].last() == part);
    assert(frame(seq![part]) =~= be_bytes(part.len(), 8) + part);
    if second.len() == 0 {
        assert(first + second =~= first);
        assert(frame(first) + frame(second) =~= frame(first));
    } else {
        let all = first + second;
        assert(all.drop_last() =~= first + second.drop_last());
        assert(all.last() == second.last());
        parts_are_framed_one_after_the_other(first, second.drop_last(), part);
        assert(frame(all) =~= frame(first) + frame(second));
    }
}

/// Every digest is `sha256:` and the hexadecimal SHA-256 hash of what it covers: of the framed
/// parts, of a text as the only part, or of an identifier's own bytes. So a text whose bytes are
/// the framed parts is known by their digest.
pub proof fn a_digest_is_the_hash_of_what_it_covers(parts: Seq<Seq<u8>>, text: Seq<char>)
    ensures
        digest_of(parts) == seq!['s', 'h', 'a', '2', '5', '6', ':'] + hex_text(
            sha256_of(frame(parts)),
        ),
        identity_digest_of(text) == seq!['s', 'h', 'a', '2', '5', '6', ':'] + hex_text(
            sha256_of(encode_utf8(text)),
        ),
        text_digest_of(text) == digest_of(seq![encode_utf8(text)]),
        encode_utf8(text) == frame(parts) ==> identity_digest_of(text) == digest_of(parts),
{
    reveal_strlit("sha256:");
    assert(DIGEST_PREFIX@ =~= seq!['s', 'h', 'a', '2', '5', '6', ':']);
}

/// Each byte is written as two hexadecimal digits in lower case, its sixteens first.
pub proof fn each_byte_is_two_hexadecimal_digits(data: Seq<u8>, index: int)
    requires
        0 <= index < data.len(),
    ensures
        hex_text(data).len() == 2 * data.len(),
        ({
            let digits = seq![
                '0',
                '1',
                '2',
                '3',
                '4',
                '5',
                '6',
                '7',
                '8',
                '9',
                'a',
                'b',
                'c',
                'd',
                'e',
                'f',
            ];
            &&& hex_text(data)[2 * index] == digits[data[index] as int / 16]
            &&& hex_text(data)[2 * index + 1] == digits[data[index] as int % 16]
        }),
{
    let digits = seq![
        '0',
        '1',
        '2',
        '3',
        '4',
        '5',
        '6',
        '7',
        '8',
        '9',
        'a',
        'b',
        'c',
        'd',
        'e',
        'f',
    ];
    assert forall|value: int| 0 <= value < 16 implies #[trigger] digits[value] == hex_digit(
        value,
    ) by {
        assert(digits[0] == '0' && digits[1] == '1' && digits[2] == '2' && digits[3] == '3');
        assert(digits[4] == '4' && digits[5] == '5' && digits[6] == '6' && digits[7] == '7');
        assert(digits[8] == '8' && digits[9] == '9' && digits[10] == 'a' && digits[11] == 'b');
        assert(digits[12] == 'c' && digits[13] == 'd' && digits[14] == 'e' && digits[15] == 'f');
    }
    let byte = data[index] as int;
    assert(0 <= byte / 16 < 16 && 0 <= byte % 16 < 16);
    assert((2 * index) % 2 == 0 && (2 * index) / 2 == index);
    assert((2 * index + 1) % 2 == 1 && (2 * index + 1) / 2 == index);
    assert(digits[byte / 16] == hex_digit(byte / 16));
    assert(digits[byte % 16] == hex_digit(byte % 16));
}

/// Parts are taken as they are, each in its place.
pub proof fn parts_are_taken_in_their_order(parts: Seq<&[u8]>, index: int)
    requires
        0 <= index < parts.len(),
    ensures
        part_bytes(parts).len() == parts.len(),
        part_bytes(parts)[index] == parts[index]@,
{
}

} // verus!
