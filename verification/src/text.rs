//! Character classes, string comparison and whitespace splitting on `&str`,
//! stated over the view of a string as a sequence of `char`s.

use vstd::prelude::*;
use vstd::string::*;
use vstd::utf8::*;

verus! {

broadcast use vstd::utf8::group_utf8_lib;

/// What `char::is_numeric` answers for a character: whether it has one of
/// the Unicode general categories for numbers.
pub uninterp spec fn char_is_numeric(c: char) -> bool;

/// Whether a character has the Unicode `White_Space` property, which
/// `char::is_whitespace` tests: the ASCII tab, line feed, vertical tab, form
/// feed, carriage return and space, and U+0085, U+00A0, U+1680,
/// U+2000 to U+200A, U+2028, U+2029, U+202F, U+205F and U+3000.
pub open spec fn char_is_whitespace(c: char) -> bool {
    ||| '\u{9}' <= c <= '\u{d}'
    ||| c == ' '
    ||| c == '\u{85}'
    ||| c == '\u{a0}'
    ||| c == '\u{1680}'
    ||| '\u{2000}' <= c <= '\u{200a}'
    ||| c == '\u{2028}'
    ||| c == '\u{2029}'
    ||| c == '\u{202f}'
    ||| c == '\u{205f}'
    ||| c == '\u{3000}'
}

/// Calls `char::is_numeric`; the answer is named `char_is_numeric`, which
/// depends on the character alone. Of it, the claim is what the
/// documentation shows for ASCII: an ASCII character is numeric exactly when
/// it is one of the digits `0` to `9`.
#[verifier::external_body]
pub(crate) fn is_numeric_char(c: char) -> (b: bool)
    ensures
        b == char_is_numeric(c),
        c <= '\u{7f}' ==> (b <==> '0' <= c <= '9'),
{
    c.is_numeric()
}

/// Whether a character is whitespace, as `char::is_whitespace` answers.
pub fn is_whitespace_char(c: char) -> (b: bool)
    ensures
        b == char_is_whitespace(c),
{
    ('\u{9}' <= c && c <= '\u{d}') || c == ' ' || c == '\u{85}' || c == '\u{a0}' || c
        == '\u{1680}' || ('\u{2000}' <= c && c <= '\u{200a}') || c == '\u{2028}' || c
        == '\u{2029}' || c == '\u{202f}' || c == '\u{205f}' || c == '\u{3000}'
}

/// The number of bytes of the UTF-8 encoding of a character sequence: what
/// `str::len` returns.
pub open spec fn utf8_len(s: Seq<char>) -> nat {
    encode_utf8(s).len()
}

/// A character is ASCII exactly when its code is below 0x80.
pub proof fn lemma_char_ascii_code(c: char)
    ensures
        '\0' <= c,
        (c as u32) <= 0x7f <==> c <= '\u{7f}',
{
}

/// A character sequence is never longer than its encoding, an encoding takes
/// at most four bytes a character, and an encoding as long as the sequence
/// is made of ASCII characters only.
pub proof fn lemma_utf8_len_bounds(s: Seq<char>)
    ensures
        s.len() <= utf8_len(s) <= 4 * s.len(),
        utf8_len(s) == s.len() ==> is_ascii_chars(s),
        is_ascii_chars(s) ==> utf8_len(s) == s.len(),
    decreases s.len(),
{
    if s.len() > 0 {
        let rest = s.drop_first();
        lemma_utf8_len_bounds(rest);
        char_is_scalar(s[0]);
        let c = s[0] as u32;
        assert(encode_utf8(s) == encode_scalar(c) + encode_utf8(rest));
        let w = encode_scalar(c).len();
        assert(1 <= w <= 4);
        assert(w == 1 <==> c <= 0x7f);
        if utf8_len(s) == s.len() {
            assert(w == 1);
            assert(c <= 0x7f);
            lemma_char_ascii_code(s[0]);
            assert forall|i| 0 <= i < s.len() implies '\0' <= #[trigger] s[i] <= '\u{7f}' by {
                if i > 0 {
                    assert(s[i] == rest[i - 1]);
                }
            }
        }
        if is_ascii_chars(s) {
            assert forall|i| 0 <= i < rest.len() implies '\0' <= #[trigger] rest[i] <= '\u{7f}' by {
                assert(rest[i] == s[i + 1]);
            }
        }
    }
}

/// Whether two strings hold the same characters.
pub fn str_eq(a: &str, b: &str) -> (r: bool)
    ensures
        r == (a@ == b@),
{
    let x = a.as_bytes();
    let y = b.as_bytes();
    proof {
        encode_utf8_decode_utf8(a@);
        encode_utf8_decode_utf8(b@);
    }
    if x.len() != y.len() {
        return false;
    }
    let mut i: usize = 0;
    while i < x.len()
        invariant
            i <= x@.len(),
            x@.len() == y@.len(),
            x@ == encode_utf8(a@),
            y@ == encode_utf8(b@),
            forall|j| 0 <= j < i ==> x@[j] == y@[j],
        decreases x@.len() - i,
    {
        if x[i] != y[i] {
            return false;
        }
        i = i + 1;
    }
    assert(x@ =~= y@);
    true
}

/// The whitespace-separated words of a character sequence, in order: the
/// maximal runs of characters that are not whitespace.
pub open spec fn words(s: Seq<char>) -> Seq<Seq<char>>
    decreases s.len(),
{
    if s.len() == 0 {
        seq![]
    } else {
        let prev = words(s.drop_last());
        let c = s.last();
        if char_is_whitespace(c) {
            prev
        } else if s.len() >= 2 && !char_is_whitespace(s[s.len() - 2]) {
            prev.update(prev.len() - 1, prev.last().push(c))
        } else {
            prev.push(seq![c])
        }
    }
}

/// The views of a sequence of string slices.
pub open spec fn str_views<'a>(v: Seq<&'a str>) -> Seq<Seq<char>> {
    v.map_values(|w: &'a str| w@)
}

/// Splits a string at whitespace, as `str::split_whitespace` does: the
/// result holds the words of the string, in order, and no empty slice.
pub fn split_whitespace<'a>(input: &'a str) -> (r: Vec<&'a str>)
    ensures
        str_views(r@) == words(input@),
{
    let n = input.unicode_len();
    let mut out: Vec<&'a str> = Vec::new();
    let mut start: usize = 0;
    let mut in_word = false;
    let mut i: usize = 0;
    while i < n
        invariant
            n == input@.len(),
            i <= n,
            start <= i,
            in_word == (i > 0 && !char_is_whitespace(input@[i - 1])),
            in_word ==> start < i,
            in_word ==> words(input@.take(i as int)) == str_views(out@).push(
                input@.subrange(start as int, i as int),
            ),
            !in_word ==> words(input@.take(i as int)) == str_views(out@),
        decreases n - i,
    {
        let c = input.get_char(i);
        let ws = is_whitespace_char(c);
        let ghost s = input@.take(i + 1);
        let ghost prev_out = str_views(out@);
        proof {
            assert(s.drop_last() =~= input@.take(i as int));
            assert(s.last() == c);
            if i > 0 {
                assert(s[s.len() - 2] == input@[i - 1]);
            }
        }
        if ws {
            if in_word {
                let w = input.substring_char(start, i);
                out.push(w);
                proof {
                    assert(str_views(out@) =~= prev_out.push(w@));
                }
                in_word = false;
            }
        } else {
            if !in_word {
                start = i;
                in_word = true;
                proof {
                    assert(input@.subrange(start as int, i + 1) =~= seq![c]);
                }
            } else {
                proof {
                    let prev = words(input@.take(i as int));
                    assert(prev.last() == input@.subrange(start as int, i as int));
                    assert(input@.subrange(start as int, i + 1) =~= prev.last().push(c));
                    assert(prev.update(prev.len() - 1, prev.last().push(c)) =~= prev_out.push(
                        input@.subrange(start as int, i + 1),
                    ));
                }
            }
        }
        i = i + 1;
    }
    proof {
        assert(input@.take(n as int) =~= input@);
    }
    if in_word {
        let ghost prev_out = str_views(out@);
        let w = input.substring_char(start, n);
        out.push(w);
        proof {
            assert(str_views(out@) =~= prev_out.push(w@));
        }
    }
    out
}

/// A word: a non-empty run of characters none of which is whitespace.
pub open spec fn is_word(w: Seq<char>) -> bool {
    w.len() > 0 && forall|j| 0 <= j < w.len() ==> !char_is_whitespace(#[trigger] w[j])
}

/// The law of whitespace splitting: every word of a text is non-empty and
/// holds no whitespace, and there are no more words than characters.
pub proof fn law_words_are_nonempty_without_whitespace(s: Seq<char>)
    ensures
        forall|i| 0 <= i < words(s).len() ==> is_word(#[trigger] words(s)[i]),
        words(s).len() <= s.len(),
    decreases s.len(),
{
    if s.len() > 0 {
        let prev = words(s.drop_last());
        law_words_are_nonempty_without_whitespace(s.drop_last());
        let c = s.last();
        if char_is_whitespace(c) {
        } else if s.len() >= 2 && !char_is_whitespace(s[s.len() - 2]) {
            lemma_words_end_in_last_run(s.drop_last());
            let w = prev.last().push(c);
            assert(is_word(w)) by {
                assert forall|j| 0 <= j < w.len() implies !char_is_whitespace(#[trigger] w[j]) by {
                    if j < w.len() - 1 {
                        assert(w[j] == prev.last()[j]);
                    }
                }
            }
            assert forall|i| 0 <= i < words(s).len() implies is_word(#[trigger] words(s)[i]) by {
                if i < prev.len() - 1 {
                    assert(words(s)[i] == prev[i]);
                }
            }
        } else {
            let w = seq![c];
            assert(is_word(w));
            assert forall|i| 0 <= i < words(s).len() implies is_word(#[trigger] words(s)[i]) by {
                if i < prev.len() {
                    assert(words(s)[i] == prev[i]);
                }
            }
        }
    }
}

/// A text that ends in a character other than whitespace has a last word.
proof fn lemma_words_end_in_last_run(s: Seq<char>)
    requires
        s.len() > 0,
        !char_is_whitespace(s.last()),
    ensures
        words(s).len() > 0,
    decreases s.len(),
{
    if s.len() >= 2 && !char_is_whitespace(s[s.len() - 2]) {
        assert(s.drop_last().last() == s[s.len() - 2]);
        lemma_words_end_in_last_run(s.drop_last());
    }
}

/// The law of joined texts: the words of `s`, a whitespace character and
/// `t` are the words of `s` followed by those of `t`.
pub proof fn law_words_of_joined_text(s: Seq<char>, c: char, t: Seq<char>)
    requires
        char_is_whitespace(c),
    ensures
        words(s + seq![c] + t) == words(s) + words(t),
    decreases t.len(),
{
    let u = s + seq![c] + t;
    if t.len() == 0 {
        assert(u.drop_last() =~= s);
        assert(words(t) =~= Seq::<Seq<char>>::empty());
        assert(words(s) + words(t) =~= words(s));
    } else {
        let t0 = t.drop_last();
        let d = t.last();
        law_words_of_joined_text(s, c, t0);
        assert(u.drop_last() =~= s + seq![c] + t0);
        assert(u.last() == d);
        let prev = words(s) + words(t0);
        if char_is_whitespace(d) {
        } else if t.len() >= 2 && !char_is_whitespace(t[t.len() - 2]) {
            assert(u[u.len() - 2] == t[t.len() - 2]);
            assert(t0.last() == t[t.len() - 2]);
            lemma_words_end_in_last_run(t0);
            let w0 = words(t0);
            assert(prev.update(prev.len() - 1, prev.last().push(d)) =~= words(s) + w0.update(
                w0.len() - 1,
                w0.last().push(d),
            ));
        } else {
            if t.len() >= 2 {
                assert(u[u.len() - 2] == t[t.len() - 2]);
            } else {
                assert(u[u.len() - 2] == c);
            }
            assert(prev.push(seq![d]) =~= words(s) + words(t0).push(seq![d]));
        }
    }
}

/// The law of a single word: the words of a word are that word alone.
pub proof fn law_words_of_a_word(w: Seq<char>)
    requires
        is_word(w),
    ensures
        words(w) == seq![w],
    decreases w.len(),
{
    let w0 = w.drop_last();
    if w0.len() == 0 {
        assert(w0 =~= Seq::<char>::empty());
        assert(w =~= seq![w[0]]);
        assert(!char_is_whitespace(w[0]));
        assert(words(w0) =~= Seq::<Seq<char>>::empty());
        assert(w.last() == w[0]);
        assert(words(w0).push(seq![w.last()]) =~= seq![w]);
    } else {
        assert forall|j| 0 <= j < w0.len() implies !char_is_whitespace(#[trigger] w0[j]) by {
            assert(w0[j] == w[j]);
        }
        law_words_of_a_word(w0);
        assert(!char_is_whitespace(w[w.len() - 2]));
        assert(!char_is_whitespace(w.last()));
        assert(w0.push(w.last()) =~= w);
        assert(seq![w0].update(0, w0.push(w.last())) =~= seq![w]);
    }
}

/// The law of the whitespace class: the ASCII space, tab, line feed,
/// vertical tab, form feed and carriage return are whitespace, as are the
/// no-break space and the ideographic space; letters, digits and the
/// characters of CSS values such as `.`, `#`, `-` and `+` are not.
pub proof fn law_whitespace_characters(c: char)
    ensures
        char_is_whitespace(' '),
        char_is_whitespace('\t'),
        char_is_whitespace('\n'),
        char_is_whitespace('\u{b}'),
        char_is_whitespace('\u{c}'),
        char_is_whitespace('\r'),
        char_is_whitespace('\u{a0}'),
        char_is_whitespace('\u{3000}'),
        ('0' <= c <= '9' || 'a' <= c <= 'z' || 'A' <= c <= 'Z' || c == '.' || c == '#' || c == '-'
            || c == '+') ==> !char_is_whitespace(c),
{
}

/// The law of blank texts: a text made only of whitespace has no words.
pub proof fn law_blank_text_has_no_words(s: Seq<char>)
    requires
        forall|i| 0 <= i < s.len() ==> char_is_whitespace(#[trigger] s[i]),
    ensures
        words(s).len() == 0,
    decreases s.len(),
{
    if s.len() > 0 {
        let s0 = s.drop_last();
        assert forall|i| 0 <= i < s0.len() implies char_is_whitespace(#[trigger] s0[i]) by {
            assert(s0[i] == s[i]);
        }
        law_blank_text_has_no_words(s0);
        assert(char_is_whitespace(s[s.len() - 1]));
    }
}

/// The words of an ASCII text are ASCII.
pub proof fn lemma_words_of_ascii_text(s: Seq<char>)
    requires
        forall|i| 0 <= i < s.len() ==> #[trigger] s[i] <= '\u{7f}',
    ensures
        forall|i, j|
            0 <= i < words(s).len() && 0 <= j < words(s)[i].len() ==> #[trigger] words(s)[i][j]
                <= '\u{7f}',
    decreases s.len(),
{
    if s.len() > 0 {
        let s0 = s.drop_last();
        assert forall|i| 0 <= i < s0.len() implies #[trigger] s0[i] <= '\u{7f}' by {
            assert(s0[i] == s[i]);
        }
        lemma_words_of_ascii_text(s0);
        let prev = words(s0);
        let c = s.last();
        assert(c <= '\u{7f}') by {
            assert(s[s.len() - 1] <= '\u{7f}');
        }
        if char_is_whitespace(c) {
        } else if s.len() >= 2 && !char_is_whitespace(s[s.len() - 2]) {
            lemma_words_end_in_last_run(s0);
            let w = prev.last().push(c);
            assert forall|i, j| 0 <= i < words(s).len() && 0 <= j < words(s)[i].len() implies #[trigger] words(s)[i][j] <= '\u{7f}' by {
                if i < prev.len() - 1 {
                    assert(words(s)[i] == prev[i]);
                } else {
                    assert(words(s)[i] == w);
                    if j < w.len() - 1 {
                        assert(w[j] == prev[prev.len() - 1][j]);
                    }
                }
            }
        } else {
            assert forall|i, j| 0 <= i < words(s).len() && 0 <= j < words(s)[i].len() implies #[trigger] words(s)[i][j] <= '\u{7f}' by {
                if i < prev.len() {
                    assert(words(s)[i] == prev[i]);
                }
            }
        }
    }
}

} // verus!
