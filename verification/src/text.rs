//! Text helpers: white space, trimming and byte-bounded previews.

use vstd::prelude::*;
use vstd::string::*;
use vstd::utf8::*;

verus! {

/// The characters with the Unicode property `White_Space`.
pub open spec fn white_space(c: char) -> bool {
    ||| '\u{9}' <= c <= '\u{d}'
    ||| c == '\u{20}'
    ||| c == '\u{85}'
    ||| c == '\u{a0}'
    ||| c == '\u{1680}'
    ||| '\u{2000}' <= c <= '\u{200a}'
    ||| c == '\u{2028}'
    ||| c == '\u{2029}'
    ||| c == '\u{202f}'
    ||| c == '\u{205f}'
    ||| c == '\u{3000}'
}

/// Nothing but white space.
pub open spec fn blank(s: Seq<char>) -> bool {
    forall|i: int| 0 <= i < s.len() ==> white_space(#[trigger] s[i])
}

/// `s` without its leading white space.
pub open spec fn trimmed_front(s: Seq<char>) -> Seq<char>
    decreases s.len(),
{
    if s.len() > 0 && white_space(s.first()) {
        trimmed_front(s.drop_first())
    } else {
        s
    }
}

/// `s` without its trailing white space.
pub open spec fn trimmed_back(s: Seq<char>) -> Seq<char>
    decreases s.len(),
{
    if s.len() > 0 && white_space(s.last()) {
        trimmed_back(s.drop_last())
    } else {
        s
    }
}

/// `s` without white space at either end.
pub open spec fn trimmed(s: Seq<char>) -> Seq<char> {
    trimmed_back(trimmed_front(s))
}

/// Tests for the Unicode property `White_Space`.
pub fn is_white_space(c: char) -> (r: bool)
    ensures
        r == white_space(c),
{
    ('\u{9}' <= c && c <= '\u{d}') || c == '\u{20}' || c == '\u{85}' || c == '\u{a0}' || c
        == '\u{1680}' || ('\u{2000}' <= c && c <= '\u{200a}') || c == '\u{2028}' || c == '\u{2029}'
        || c == '\u{202f}' || c == '\u{205f}' || c == '\u{3000}'
}

/// The characters of `text`, in order.
pub fn chars_of(text: &str) -> (r: Vec<char>)
    ensures
        r@ == text@,
{
    let mut out: Vec<char> = Vec::new();
    for c in it: text.chars()
        invariant
            it.seq() == text@,
            out@ == it.seq().take(it.index() as int),
    {
        out.push(c);
    }
    out
}

/// Compares two strings character by character.
pub fn same_text(a: &str, b: &str) -> (r: bool)
    ensures
        r == (a@ == b@),
{
    a.to_owned() == b.to_owned()
}

/// Narrows `from..to` to the range without white space at either end.
pub fn trim_range(chars: &Vec<char>, from: usize, to: usize) -> (r: (usize, usize))
    requires
        from <= to <= chars.len(),
    ensures
        from <= r.0 <= r.1 <= to,
        chars@.subrange(r.0 as int, r.1 as int) == trimmed(
            chars@.subrange(from as int, to as int),
        ),
{
    let mut a: usize = from;
    let mut b: usize = to;
    while a < to && is_white_space(chars[a])
        invariant
            from <= a <= to <= chars.len(),
            trimmed_front(chars@.subrange(a as int, to as int)) == trimmed_front(
                chars@.subrange(from as int, to as int),
            ),
        decreases to - a,
    {
        assert(chars@.subrange(a as int, to as int).drop_first() =~= chars@.subrange(
            a + 1,
            to as int,
        ));
        a += 1;
    }
    let ghost front = chars@.subrange(a as int, to as int);
    assert(front == trimmed_front(chars@.subrange(from as int, to as int)));
    while b > a && is_white_space(chars[b - 1])
        invariant
            a <= b <= to <= chars.len(),
            trimmed_back(chars@.subrange(a as int, b as int)) == trimmed_back(front),
        decreases b,
    {
        assert(chars@.subrange(a as int, b as int).drop_last() =~= chars@.subrange(
            a as int,
            b - 1,
        ));
        b -= 1;
    }
    assert(chars@.subrange(a as int, b as int) == trimmed_back(front));
    (a, b)
}

proof fn lemma_trimmed_front_empty(s: Seq<char>)
    ensures
        trimmed_front(s).len() == 0 <==> blank(s),
        trimmed_front(s).len() > 0 ==> !white_space(trimmed_front(s).first()),
    decreases s.len(),
{
    if s.len() > 0 && white_space(s.first()) {
        lemma_trimmed_front_empty(s.drop_first());
        assert(forall|i: int| 0 < i < s.len() ==> s[i] == #[trigger] s.drop_first()[i - 1]);
        if blank(s.drop_first()) {
            assert forall|i: int| 0 <= i < s.len() implies white_space(#[trigger] s[i]) by {
                if i > 0 {
                    assert(s[i] == s.drop_first()[i - 1]);
                }
            }
        }
    }
}

proof fn lemma_trimmed_back_keeps(s: Seq<char>)
    ensures
        s.len() > 0 && !white_space(s.first()) ==> trimmed_back(s).len() > 0,
    decreases s.len(),
{
    if s.len() > 0 && white_space(s.last()) {
        lemma_trimmed_back_keeps(s.drop_last());
    }
}

/// Trimming leaves nothing exactly when there is nothing but white space.
pub proof fn trimmed_is_empty_iff_blank(s: Seq<char>)
    ensures
        trimmed(s).len() == 0 <==> blank(s),
{
    lemma_trimmed_front_empty(s);
    lemma_trimmed_back_keeps(trimmed_front(s));
}

/// Tells whether `text` is empty once trimmed.
pub fn is_blank(text: &str) -> (r: bool)
    ensures
        r == blank(text@),
{
    let chars = chars_of(text);
    let range = trim_range(&chars, 0, chars.len());
    proof {
        assert(chars@.subrange(0, chars.len() as int) =~= text@);
        trimmed_is_empty_iff_blank(text@);
    }
    range.0 == range.1
}

/// The first `n` bytes of the UTF-8 form of `s`, read as text again.
pub open spec fn byte_prefix(s: Seq<char>, n: int) -> Seq<char> {
    decode_utf8(encode_utf8(s).take(n))
}

/// A text can be cut to `max_len` bytes: it is short enough as it stands, or the cut falls between
/// two characters.
pub open spec fn can_truncate(s: Seq<char>, max_len: int) -> bool {
    encode_utf8(s).len() <= max_len || is_char_boundary(encode_utf8(s), max_len)
}

/// `s` cut to `max_len` bytes and marked with an ellipsis, or `s` itself where it is no longer.
pub open spec fn truncated(s: Seq<char>, max_len: int) -> Seq<char> {
    if encode_utf8(s).len() <= max_len {
        s
    } else {
        byte_prefix(s, max_len) + "..."@
    }
}

/// Tells whether [`truncate_text`] can cut `text` at `max_len` bytes.
pub fn can_truncate_text(text: &str, max_len: usize) -> (r: bool)
    ensures
        r == can_truncate(text@, max_len as int),
{
    text.as_bytes().len() <= max_len || text.is_char_boundary(max_len)
}

/// Cuts `text` to `max_len` bytes and appends `...`; a text that fits comes back whole.
///
/// The cut has to fall between two characters.
pub fn truncate_text(text: &str, max_len: usize) -> (r: String)
    requires
        can_truncate(text@, max_len as int),
    ensures
        r@ == truncated(text@, max_len as int),
{
    if text.as_bytes().len() <= max_len {
        return text.to_owned();
    }
    let head = text.split_at(max_len).0;
    proof {
        encode_utf8_decode_utf8(head@);
        assert(encode_utf8(text@).take(max_len as int) =~= encode_utf8(text@).subrange(
            0,
            max_len as int,
        ));
    }
    let mut out = head.to_owned();
    out.append("...");
    out
}

/// A text that fits is not changed.
pub proof fn short_text_is_kept(s: Seq<char>, max_len: int)
    requires
        encode_utf8(s).len() <= max_len,
    ensures
        can_truncate(s, max_len),
        truncated(s, max_len) == s,
{
}

/// Of an ASCII text that does not fit, the first `max_len` characters are kept, and any length
/// will do for the cut.
pub proof fn ascii_text_is_cut_by_characters(s: Seq<char>, max_len: int)
    requires
        is_ascii_chars(s),
        0 <= max_len < s.len(),
    ensures
        can_truncate(s, max_len),
        truncated(s, max_len) == s.take(max_len) + "..."@,
{
    is_ascii_chars_encode_utf8(s);
    is_ascii_chars_encode_utf8(s.take(max_len));
    encode_utf8_valid_utf8(s);
    let bytes = encode_utf8(s);
    assert(bytes.take(max_len) =~= encode_utf8(s.take(max_len)));
    encode_utf8_decode_utf8(s.take(max_len));
    is_char_boundary_iff_not_is_continuation_byte(bytes, max_len);
    assert(bytes[max_len] == s[max_len] as u8);
}

/// What is left of a text is never more than `max_len` bytes long, the ellipsis not counted.
pub proof fn truncated_length(s: Seq<char>, max_len: int)
    requires
        can_truncate(s, max_len),
        0 <= max_len,
    ensures
        encode_utf8(s).len() <= max_len ==> encode_utf8(truncated(s, max_len)).len() <= max_len,
        encode_utf8(s).len() > max_len ==> {
            &&& encode_utf8(byte_prefix(s, max_len)) == encode_utf8(s).take(max_len)
            &&& truncated(s, max_len) == byte_prefix(s, max_len) + "..."@
        },
{
    encode_utf8_valid_utf8(s);
    if encode_utf8(s).len() > max_len {
        valid_utf8_split(encode_utf8(s), max_len);
        decode_utf8_encode_utf8(encode_utf8(s).take(max_len));
        assert(encode_utf8(s).take(max_len) =~= encode_utf8(s).subrange(0, max_len));
    }
}

/// The white space characters by number: tab to carriage return, space, next line, no-break space,
/// and the separators of Unicode.
pub proof fn white_space_by_number(c: char)
    ensures
        white_space(c) <==> {
            let n = c as int;
            ||| 0x9 <= n <= 0xd
            ||| n == 0x20 || n == 0x85 || n == 0xa0 || n == 0x1680
            ||| 0x2000 <= n <= 0x200a
            ||| n == 0x2028 || n == 0x2029 || n == 0x202f || n == 0x205f || n == 0x3000
        },
{
}

/// A text is blank exactly when both of its parts are, and one character is where it is white space.
pub proof fn blank_goes_by_parts(a: Seq<char>, b: Seq<char>, c: char)
    ensures
        blank(Seq::empty()),
        blank(seq![c]) <==> white_space(c),
        blank(a + b) <==> blank(a) && blank(b),
{
    if blank(seq![c]) {
        assert(white_space(seq![c][0]));
    }
    if blank(a + b) {
        assert forall|i: int| 0 <= i < a.len() implies white_space(#[trigger] a[i]) by {
            assert((a + b)[i] == a[i]);
        }
        assert forall|i: int| 0 <= i < b.len() implies white_space(#[trigger] b[i]) by {
            assert((a + b)[i + a.len()] == b[i]);
        }
    }
}

proof fn lemma_front_cut(s: Seq<char>) -> (i: int)
    ensures
        0 <= i <= s.len(),
        trimmed_front(s) == s.skip(i),
        blank(s.take(i)),
        i < s.len() ==> !white_space(s[i]),
    decreases s.len(),
{
    if s.len() > 0 && white_space(s.first()) {
        let k = lemma_front_cut(s.drop_first());
        assert(s.drop_first().skip(k) =~= s.skip(k + 1));
        assert forall|j: int| 0 <= j < k + 1 implies white_space(#[trigger] s.take(k + 1)[j]) by {
            if j > 0 {
                assert(s.drop_first().take(k)[j - 1] == s[j]);
            }
        }
        k + 1
    } else {
        assert(s.skip(0) =~= s);
        0
    }
}

proof fn lemma_back_cut(s: Seq<char>) -> (j: int)
    ensures
        0 <= j <= s.len(),
        trimmed_back(s) == s.take(j),
        blank(s.skip(j)),
        j > 0 ==> !white_space(s[j - 1]),
    decreases s.len(),
{
    if s.len() > 0 && white_space(s.last()) {
        let k = lemma_back_cut(s.drop_last());
        assert(s.drop_last().take(k) =~= s.take(k));
        assert forall|i: int| 0 <= i < s.len() - k implies white_space(#[trigger] s.skip(k)[i]) by {
            if i < s.len() - k - 1 {
                assert(s.drop_last().skip(k)[i] == s[k + i]);
            }
        }
        k
    } else {
        assert(s.take(s.len() as int) =~= s);
        s.len() as int
    }
}

/// Trimming cuts off nothing but white space, from the two ends only, and leaves none there.
pub proof fn trimming_cuts_white_space_off_the_ends(s: Seq<char>)
    ensures
        exists|i: int, j: int|
            {
                &&& 0 <= i <= j <= s.len()
                &&& trimmed(s) == #[trigger] s.subrange(i, j)
                &&& blank(s.take(i))
                &&& blank(s.skip(j))
            },
        trimmed(s).len() > 0 ==> !white_space(trimmed(s).first()) && !white_space(
            trimmed(s).last(),
        ),
{
    let i = lemma_front_cut(s);
    let front = s.skip(i);
    let k = lemma_back_cut(front);
    assert(front.take(k) =~= s.subrange(i, i + k));
    assert(front.skip(k) =~= s.skip(i + k));
}

/// A cut needs no more than to leave the text whole or to fall on a character's edge.
pub proof fn cuts_fall_between_characters(s: Seq<char>, max_len: int)
    ensures
        can_truncate(s, max_len) <==> encode_utf8(s).len() <= max_len || is_char_boundary(
            encode_utf8(s),
            max_len,
        ),
{
}

} // verus!
