//! Predicates and small builders on text.
use vstd::prelude::*;
use vstd::string::*;
use vstd::utf8::{encode_utf8, encode_utf8_decode_utf8};

verus! {

/// Carriage return or line feed: the characters that end a header line.
pub open spec fn is_line_break(c: char) -> bool {
    c == '\r' || c == '\n'
}

pub open spec fn has_line_break(s: Seq<char>) -> bool {
    exists|i: int| 0 <= i < s.len() && is_line_break(#[trigger] s[i])
}

/// Whether `value` holds a carriage return or a line feed.
pub fn contains_line_break(value: &str) -> (found: bool)
    ensures
        found == has_line_break(value@),
{
    for c in it: value.chars()
        invariant
            it.seq() == value@,
            forall|i: int| 0 <= i < it.index() ==> !is_line_break(#[trigger] value@[i]),
    {
        if c == '\r' || c == '\n' {
            assert(is_line_break(value@[it.index()]));
            return true;
        }
    }
    false
}

/// The characters with the Unicode property `White_Space`.
pub open spec fn is_white_space(c: char) -> bool {
    ||| '\u{9}' <= c <= '\u{d}'
    ||| c == '\u{20}'
    ||| c == '\u{85}'
    ||| c == '\u{a0}'
    ||| c == '\u{1680}'
    ||| '\u{2000}' <= c <= '\u{200a}'
    ||| c == '\u{2028}'
    ||| c == '\u{2029}'
    ||| c == '\u{202f}'
    ||| c == '\u{205f}'
    ||| c == '\u{3000}'
}

pub open spec fn has_white_space(s: Seq<char>) -> bool {
    exists|i: int| 0 <= i < s.len() && is_white_space(#[trigger] s[i])
}

/// Nothing but white space.
pub open spec fn is_blank(s: Seq<char>) -> bool {
    forall|i: int| 0 <= i < s.len() ==> is_white_space(#[trigger] s[i])
}

/// Whether `value` holds white space.
pub fn contains_white_space(value: &str) -> (found: bool)
    ensures
        found == has_white_space(value@),
{
    for c in it: value.chars()
        invariant
            it.seq() == value@,
            forall|i: int| 0 <= i < it.index() ==> !is_white_space(#[trigger] value@[i]),
    {
        if ('\u{9}' <= c && c <= '\u{d}') || c == '\u{20}' || c == '\u{85}' || c == '\u{a0}' || c
            == '\u{1680}' || ('\u{2000}' <= c && c <= '\u{200a}') || c == '\u{2028}' || c
            == '\u{2029}' || c == '\u{202f}' || c == '\u{205f}' || c == '\u{3000}' {
            assert(is_white_space(value@[it.index()]));
            return true;
        }
    }
    false
}

/// Each character takes at least one byte.
pub proof fn utf8_is_no_shorter(chars: Seq<char>)
    ensures
        chars.len() <= encode_utf8(chars).len(),
    decreases chars.len(),
{
    if chars.len() > 0 {
        utf8_is_no_shorter(chars.drop_first());
    }
}

/// UTF-8 tells any two texts apart.
pub proof fn utf8_is_injective(left: Seq<char>, right: Seq<char>)
    requires
        encode_utf8(left) == encode_utf8(right),
    ensures
        left == right,
{
    encode_utf8_decode_utf8(left);
    encode_utf8_decode_utf8(right);
}

/// Whether the two texts are the same characters.
pub fn same_text(left: &str, right: &str) -> (same: bool)
    ensures
        same == (left@ == right@),
{
    let a = left.as_bytes();
    let b = right.as_bytes();
    proof {
        vstd::utf8::encode_utf8_decode_utf8(left@);
        vstd::utf8::encode_utf8_decode_utf8(right@);
    }
    if a.len() != b.len() {
        return false;
    }
    let mut i: usize = 0;
    while i < a.len()
        invariant
            i <= a.len(),
            a.len() == b.len(),
            a@ == left.spec_bytes(),
            b@ == right.spec_bytes(),
            forall|k: int| 0 <= k < i ==> a@[k] == b@[k],
        decreases a.len() - i,
    {
        if a[i] != b[i] {
            assert(a@[i as int] != b@[i as int]);
            return false;
        }
        i += 1;
    }
    assert(a@ =~= b@);
    true
}

pub open spec fn text_views(texts: Seq<String>) -> Seq<Seq<char>> {
    texts.map_values(|text: String| text@)
}

/// `lines` with a line feed between each and the next.
pub open spec fn joined_lines(lines: Seq<Seq<char>>) -> Seq<char>
    decreases lines.len(),
{
    if lines.len() == 0 {
        Seq::empty()
    } else if lines.len() == 1 {
        lines[0]
    } else {
        joined_lines(lines.drop_last()).push('\n') + lines.last()
    }
}

/// `lines` as one text, with a line feed between each and the next.
pub fn join_lines(lines: &Vec<String>) -> (text: String)
    ensures
        text@ == joined_lines(text_views(lines@)),
{
    let ghost all = text_views(lines@);
    let mut text = String::new();
    let mut i: usize = 0;
    assert(all.take(0) =~= Seq::empty());
    while i < lines.len()
        invariant
            i <= lines.len(),
            all == text_views(lines@),
            text@ == joined_lines(all.take(i as int)),
        decreases lines.len() - i,
    {
        proof {
            reveal_strlit("\n");
            assert(all.take(i + 1).drop_last() =~= all.take(i as int));
            assert(all.take(i + 1).last() == lines@[i as int]@);
        }
        if i > 0 {
            text.append("\n");
            text.append(lines[i].as_str());
            assert(text@ =~= joined_lines(all.take(i + 1)));
        } else {
            text.append(lines[i].as_str());
            assert(text@ =~= joined_lines(all.take(i + 1)));
        }
        i += 1;
    }
    assert(all.take(all.len() as int) =~= all);
    text
}

/// A text has a line break exactly when one of its pieces has; a single character is one exactly
/// when it is a line feed or a carriage return.
pub proof fn line_breaks_are_line_feeds_and_carriage_returns(
    left: Seq<char>,
    right: Seq<char>,
    c: char,
)
    ensures
        !has_line_break(Seq::empty()),
        has_line_break(seq![c]) <==> (c as u32 == 10 || c as u32 == 13),
        has_line_break(left + right) <==> has_line_break(left) || has_line_break(right),
{
    assert(seq![c][0] == c);
    if has_line_break(left) {
        let i = choose|i: int| 0 <= i < left.len() && is_line_break(#[trigger] left[i]);
        assert(is_line_break((left + right)[i]));
    }
    if has_line_break(right) {
        let i = choose|i: int| 0 <= i < right.len() && is_line_break(#[trigger] right[i]);
        assert(is_line_break((left + right)[left.len() + i]));
    }
}

/// A text has white space exactly when one of its pieces has.
pub proof fn white_space_is_found_in_the_pieces(left: Seq<char>, right: Seq<char>)
    ensures
        !has_white_space(Seq::empty()),
        has_white_space(left + right) <==> has_white_space(left) || has_white_space(right),
{
    if has_white_space(left) {
        let i = choose|i: int| 0 <= i < left.len() && is_white_space(#[trigger] left[i]);
        assert(is_white_space((left + right)[i]));
    }
    if has_white_space(right) {
        let i = choose|i: int| 0 <= i < right.len() && is_white_space(#[trigger] right[i]);
        assert(is_white_space((left + right)[left.len() + i]));
    }
}

/// Among the ASCII characters, white space is the space and the five controls from tab to carriage
/// return, and the characters beyond ASCII that are white space are those that Unicode lists.
pub proof fn white_space_is_what_unicode_lists(c: char)
    ensures
        c as u32 <= 127 ==> (has_white_space(seq![c]) <==> c as u32 == 32 || 9 <= c as u32 <= 13),
        c as u32 > 127 ==> (has_white_space(seq![c]) <==> seq![
            0x85int,
            0xa0,
            0x1680,
            0x2000,
            0x2001,
            0x2002,
            0x2003,
            0x2004,
            0x2005,
            0x2006,
            0x2007,
            0x2008,
            0x2009,
            0x200a,
            0x2028,
            0x2029,
            0x202f,
            0x205f,
            0x3000,
        ].contains(c as int)),
{
    assert(seq![c][0] == c);
    let listed = seq![
        0x85int,
        0xa0,
        0x1680,
        0x2000,
        0x2001,
        0x2002,
        0x2003,
        0x2004,
        0x2005,
        0x2006,
        0x2007,
        0x2008,
        0x2009,
        0x200a,
        0x2028,
        0x2029,
        0x202f,
        0x205f,
        0x3000,
    ];
    if c as u32 > 127 && is_white_space(c) {
        let i: int = if c as int == 0x85 {
            0
        } else if c as int == 0xa0 {
            1
        } else if c as int == 0x1680 {
            2
        } else if 0x2000 <= c as int <= 0x200a {
            c as int - 0x2000 + 3
        } else if c as int == 0x2028 {
            14
        } else if c as int == 0x2029 {
            15
        } else if c as int == 0x202f {
            16
        } else if c as int == 0x205f {
            17
        } else {
            18
        };
        assert(listed[i] == c as int);
    }
}

/// Two runs of lines are joined by one line feed between them, a single line is left as it is, and
/// no line is lost.
pub proof fn lines_are_joined_by_one_line_feed(first: Seq<Seq<char>>, second: Seq<Seq<char>>)
    ensures
        joined_lines(Seq::empty()) == Seq::<char>::empty(),
        first.len() == 1 ==> joined_lines(first) == first[0],
        first.len() > 0 && second.len() > 0 ==> joined_lines(first + second) == joined_lines(first)
            + seq!['\n'] + joined_lines(second),
    decreases second.len(),
{
    if first.len() > 0 && second.len() > 0 {
        let all = first + second;
        let front = second.drop_last();
        assert(all.drop_last() =~= first + front);
        assert(all.last() == second.last());
        if second.len() == 1 {
            assert(first + front =~= first);
            assert(joined_lines(all) =~= joined_lines(first) + seq!['\n'] + joined_lines(second));
        } else {
            lines_are_joined_by_one_line_feed(first, front);
            assert(joined_lines(all) =~= joined_lines(first) + seq!['\n'] + joined_lines(second));
        }
    }
}

/// A list of texts is taken text by text, in its order.
pub proof fn texts_are_taken_in_their_order(texts: Seq<String>, index: int)
    requires
        0 <= index < texts.len(),
    ensures
        text_views(texts).len() == texts.len(),
        text_views(texts)[index] == texts[index]@,
{
}

} // verus!
