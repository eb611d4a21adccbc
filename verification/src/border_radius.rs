//! The parts of `border-radius` parsing that need no floating point: the
//! split of a value such as `15px` into its number and its unit, the split of
//! the property into its values, and which corner each value applies to.

use vstd::prelude::*;
use vstd::string::*;

use crate::text::{
    char_is_numeric, char_is_whitespace, is_numeric_char, is_word,
    law_words_are_nonempty_without_whitespace, law_words_of_a_word, law_words_of_joined_text,
    lemma_words_of_ascii_text, split_whitespace, str_eq, str_views, words,
};

verus! {

/// `std::num::ParseFloatError`, the error of parsing a number of a value.
#[verifier::external_type_specification]
#[verifier::external_body]
pub struct ExParseFloatError(std::num::ParseFloatError);

/// Why a `border-radius` property could not be parsed.
#[derive(Debug, PartialEq, Eq)]
pub enum CssBorderRadiusParseError<'a> {
    /// The property holds no value or more than four: the whole property.
    TooManyValues(&'a str),
    /// A value's unit is neither `px` nor `em`: the value from its last digit on.
    InvalidComponent(&'a str),
    /// A value's number is not a number.
    ValueParseErr(std::num::ParseFloatError),
}

/// The unit of a length.
#[derive(Debug, Clone, Copy, PartialEq, Eq, Structural)]
pub enum CssMetric {
    Px,
    Em,
}

/// A length split into its unit and the text of its number.
#[derive(Debug, Clone, Copy, PartialEq, Eq)]
pub struct PixelValueText<'a> {
    pub metric: CssMetric,
    pub number: &'a str,
}

/// The characters that end the number of a value: numeric ones and `.`.
/// Among ASCII characters the numeric ones are the digits `0` to `9`.
pub open spec fn is_number_char(c: char) -> bool {
    if c <= '\u{7f}' {
        ('0' <= c <= '9') || c == '.'
    } else {
        char_is_numeric(c)
    }
}

/// The index of the last number character of `s`, or -1 if there is none.
pub open spec fn last_number_char(s: Seq<char>) -> int
    decreases s.len(),
{
    if s.len() == 0 {
        -1
    } else if is_number_char(s.last()) {
        s.len() - 1
    } else {
        last_number_char(s.drop_last())
    }
}

/// Where the unit of a value starts: after its last number character, or
/// after its first character if it has no number character.
pub open spec fn unit_start(s: Seq<char>) -> int {
    let k = last_number_char(s);
    if k >= 0 {
        k + 1
    } else {
        1
    }
}

/// The unit starts on a character boundary of the string: the character
/// before it exists and takes one byte. Where this fails the value cannot be
/// sliced at that place.
pub open spec fn unit_start_is_boundary(s: Seq<char>) -> bool {
    let p = unit_start(s);
    p <= s.len() && s[p - 1] <= '\u{7f}'
}

/// What splitting a value gives: `px` and `em` units with the number before
/// them, or the error that holds the value from its last number character on.
pub open spec fn split_agrees<'a>(
    r: Result<PixelValueText<'a>, CssBorderRadiusParseError<'a>>,
    s: Seq<char>,
) -> bool {
    let p = unit_start(s);
    let unit = s.subrange(p, s.len() as int);
    let number = s.subrange(0, p);
    if unit == seq!['p', 'x'] {
        r matches Ok(v) && v.metric == CssMetric::Px && v.number@ == number
    } else if unit == seq!['e', 'm'] {
        r matches Ok(v) && v.metric == CssMetric::Em && v.number@ == number
    } else {
        r matches Err(CssBorderRadiusParseError::InvalidComponent(t)) && t@ == s.subrange(
            p - 1,
            s.len() as int,
        )
    }
}

/// Finds where the unit of a value starts.
fn find_unit_start(input: &str) -> (p: usize)
    ensures
        p == unit_start(input@),
{
    let n = input.unicode_len();
    let mut split_pos: usize = 0;
    let mut found = false;
    let mut i: usize = 0;
    while i < n
        invariant
            n == input@.len(),
            i <= n,
            found ==> split_pos < i && split_pos == last_number_char(input@.take(i as int)),
            !found ==> split_pos == 0 && last_number_char(input@.take(i as int)) == -1,
        decreases n - i,
    {
        let ch = input.get_char(i);
        proof {
            assert(input@.take(i + 1).drop_last() =~= input@.take(i as int));
            assert(input@.take(i + 1).last() == ch);
        }
        if is_numeric_char(ch) || ch == '.' {
            split_pos = i;
            found = true;
        }
        i = i + 1;
    }
    proof {
        assert(input@.take(n as int) =~= input@);
    }
    split_pos + 1
}

/// Splits a single value such as `15px` or `1.2em` into its unit and the
/// text of its number. The unit starts after the last numeric character or
/// `.`; it must be `px` or `em`.
pub fn split_single_css_value<'a>(input: &'a str) -> (r: Result<
    PixelValueText<'a>,
    CssBorderRadiusParseError<'a>,
>)
    requires
        unit_start_is_boundary(input@),
    ensures
        split_agrees(r, input@),
{
    let split_pos = find_unit_start(input);
    let n = input.unicode_len();
    let unit = input.substring_char(split_pos, n);
    proof {
        reveal_strlit("px");
        reveal_strlit("em");
        assert("px"@ =~= seq!['p', 'x']);
        assert("em"@ =~= seq!['e', 'm']);
    }
    let metric = if str_eq(unit, "px") {
        CssMetric::Px
    } else if str_eq(unit, "em") {
        CssMetric::Em
    } else {
        return Err(CssBorderRadiusParseError::InvalidComponent(
            input.substring_char(split_pos - 1, n),
        ));
    };
    let number = input.substring_char(0, split_pos);
    Ok(PixelValueText { metric, number })
}

/// Splits a single value as `split_single_css_value` does where the unit
/// starts on a character boundary, and gives `None` where it does not.
pub fn try_split_single_css_value<'a>(input: &'a str) -> (r: Option<
    Result<PixelValueText<'a>, CssBorderRadiusParseError<'a>>,
>)
    ensures
        r is None <==> !unit_start_is_boundary(input@),
        r matches Some(res) ==> split_agrees(res, input@),
{
    let split_pos = find_unit_start(input);
    let n = input.unicode_len();
    if split_pos <= n && input.get_char(split_pos - 1) <= '\u{7f}' {
        Some(split_single_css_value(input))
    } else {
        None
    }
}

/// The text of a unit.
pub open spec fn unit_text(m: CssMetric) -> Seq<char> {
    match m {
        CssMetric::Px => seq!['p', 'x'],
        CssMetric::Em => seq!['e', 'm'],
    }
}

/// The law of value splitting: a value that splits is the text of its
/// number followed by the text of its unit.
pub proof fn law_split_value_reassembles<'a>(
    r: Result<PixelValueText<'a>, CssBorderRadiusParseError<'a>>,
    s: Seq<char>,
)
    requires
        unit_start_is_boundary(s),
        split_agrees(r, s),
        r is Ok,
    ensures
        r->Ok_0.number@ + unit_text(r->Ok_0.metric) == s,
{
    let p = unit_start(s);
    assert(s.subrange(0, p) + s.subrange(p, s.len() as int) =~= s);
}

/// Whether a `border-radius` property holds between one and four values.
pub open spec fn value_count_ok(s: Seq<char>) -> bool {
    1 <= words(s).len() <= 4
}

/// Splits a `border-radius` property into its whitespace-separated values,
/// which must be one to four; otherwise the error holds the whole property.
pub fn border_radius_components<'a>(input: &'a str) -> (r: Result<
    Vec<&'a str>,
    CssBorderRadiusParseError<'a>,
>)
    ensures
        value_count_ok(input@) ==> (r matches Ok(v) && str_views(v@) == words(input@)),
        !value_count_ok(input@) ==> (r matches Err(CssBorderRadiusParseError::TooManyValues(t))
            && t@ == input@),
{
    let components = split_whitespace(input);
    let len = components.len();
    proof {
        assert(str_views(components@).len() == components@.len());
    }
    if 1 <= len && len <= 4 {
        Ok(components)
    } else {
        Err(CssBorderRadiusParseError::TooManyValues(input))
    }
}

/// The radii of the four corners of a box.
#[derive(Debug, PartialEq)]
pub struct BorderCorners<T> {
    pub top_left: T,
    pub top_right: T,
    pub bottom_right: T,
    pub bottom_left: T,
}

/// Which value each corner takes, for one to four values:
/// one value applies to all four corners; two values to top-left and
/// bottom-right, then top-right and bottom-left; three values to top-left,
/// then top-right and bottom-left, then bottom-right; four values to
/// top-left, top-right, bottom-right and bottom-left.
pub open spec fn corners_of<T>(v: Seq<T>) -> BorderCorners<T> {
    if v.len() == 1 {
        BorderCorners { top_left: v[0], top_right: v[0], bottom_right: v[0], bottom_left: v[0] }
    } else if v.len() == 2 {
        BorderCorners { top_left: v[0], top_right: v[1], bottom_right: v[0], bottom_left: v[1] }
    } else if v.len() == 3 {
        BorderCorners { top_left: v[0], top_right: v[1], bottom_right: v[2], bottom_left: v[1] }
    } else {
        BorderCorners { top_left: v[0], top_right: v[1], bottom_right: v[2], bottom_left: v[3] }
    }
}

/// Assigns one to four values to the corners of a box, by the rules of
/// `border-radius`.
pub fn assign_corners<T: Copy>(values: &[T]) -> (c: BorderCorners<T>)
    requires
        1 <= values@.len() <= 4,
    ensures
        c == corners_of(values@),
{
    if values.len() == 1 {
        let v = values[0];
        BorderCorners { top_left: v, top_right: v, bottom_right: v, bottom_left: v }
    } else if values.len() == 2 {
        let top_left_bottom_right = values[0];
        let top_right_bottom_left = values[1];
        BorderCorners {
            top_left: top_left_bottom_right,
            top_right: top_right_bottom_left,
            bottom_right: top_left_bottom_right,
            bottom_left: top_right_bottom_left,
        }
    } else if values.len() == 3 {
        let top_right_bottom_left = values[1];
        BorderCorners {
            top_left: values[0],
            top_right: top_right_bottom_left,
            bottom_right: values[2],
            bottom_left: top_right_bottom_left,
        }
    } else {
        BorderCorners {
            top_left: values[0],
            top_right: values[1],
            bottom_right: values[2],
            bottom_left: values[3],
        }
    }
}

/// What reading one value of a `border-radius` property gives: `None`
/// where the value cannot be sliced at the start of its unit, otherwise its
/// number (of any type the caller parses it to) or the error.
pub open spec fn reading_value<T, E>(x: Option<Result<T, E>>) -> T {
    match x {
        Some(Ok(t)) => t,
        _ => arbitrary(),
    }
}

/// Whether a reading holds a number.
pub open spec fn is_read<T, E>(x: Option<Result<T, E>>) -> bool {
    x matches Some(Ok(_))
}

/// The index of the first reading that holds no number, or the number of
/// readings if all hold one.
pub open spec fn first_unread<T, E>(v: Seq<Option<Result<T, E>>>) -> int
    decreases v.len(),
{
    if v.len() == 0 {
        0
    } else if is_read(v[0]) {
        1 + first_unread(v.drop_first())
    } else {
        0
    }
}

/// What the readings of the values of a `border-radius` property give: the
/// first reading that holds no number decides (`None` where a value cannot
/// be sliced, or its error); if all hold numbers, the corners they apply to.
pub open spec fn composed_border_radius<T, E>(v: Seq<Option<Result<T, E>>>) -> Option<
    Result<BorderCorners<T>, E>,
> {
    let k = first_unread(v);
    if k < v.len() {
        match v[k] {
            Some(Err(e)) => Some(Err(e)),
            _ => None,
        }
    } else {
        Some(Ok(corners_of(v.map_values(|x: Option<Result<T, E>>| reading_value(x)))))
    }
}

/// `first_unread` is the first index that holds no number.
proof fn lemma_first_unread<T, E>(v: Seq<Option<Result<T, E>>>, i: int)
    requires
        0 <= i <= v.len(),
        forall|j| 0 <= j < i ==> is_read(#[trigger] v[j]),
    ensures
        i <= first_unread(v) <= v.len(),
        i < v.len() && !is_read(v[i]) ==> first_unread(v) == i,
    decreases i,
{
    if v.len() > 0 {
        if i > 0 {
            assert(is_read(v[0]));
            let rest = v.drop_first();
            assert forall|j| 0 <= j < i - 1 implies is_read(#[trigger] rest[j]) by {
                assert(rest[j] == v[j + 1]);
            }
            lemma_first_unread(rest, i - 1);
            if i < v.len() {
                assert(rest[i - 1] == v[i]);
            }
        } else {
            lemma_first_unread_bound(v);
        }
    }
}

/// `first_unread` is at most the number of readings.
proof fn lemma_first_unread_bound<T, E>(v: Seq<Option<Result<T, E>>>)
    ensures
        0 <= first_unread(v) <= v.len(),
    decreases v.len(),
{
    if v.len() > 0 {
        lemma_first_unread_bound(v.drop_first());
    }
}

/// Combines the readings of the one to four values of a `border-radius`
/// property: the first reading without a number decides the result, in the
/// order of the values; otherwise the numbers go to the corners.
pub fn compose_border_radius<T: Copy, E>(readings: Vec<Option<Result<T, E>>>) -> (r: Option<
    Result<BorderCorners<T>, E>,
>)
    requires
        1 <= readings@.len() <= 4,
    ensures
        r == composed_border_radius(readings@),
{
    let ghost all = readings@;
    let mut pending = readings;
    let n = pending.len();
    let mut values: Vec<T> = Vec::new();
    let mut i: usize = 0;
    while i < n
        invariant
            n == pending@.len(),
            pending@ == all,
            readings@ == all,
            i <= n,
            values@.len() == i,
            forall|j| 0 <= j < i ==> is_read(#[trigger] all[j]),
            forall|j| 0 <= j < i ==> values@[j] == reading_value(#[trigger] all[j]),
        decreases n - i,
    {
        let read = match &pending[i] {
            Some(Ok(t)) => Some(*t),
            _ => None,
        };
        match read {
            Some(t) => {
                values.push(t);
            },
            None => {
                assert(!is_read(all[i as int]));
                proof {
                    lemma_first_unread(all, i as int);
                }
                let unread = pending.remove(i);
                assert(unread == all[i as int]);
                let r: Option<Result<BorderCorners<T>, E>> = match unread {
                    Some(Err(e)) => Some(Err(e)),
                    _ => None,
                };
                return r;
            },
        }
        i = i + 1;
    }
    proof {
        lemma_first_unread(all, n as int);
        assert(values@ =~= all.map_values(|x: Option<Result<T, E>>| reading_value(x)));
    }
    Some(Ok(assign_corners(values.as_slice())))
}

/// Whether the reading of one value is the one its text gives: `None`
/// exactly where the value cannot be sliced at the start of its unit.
pub open spec fn reading_agrees<'a>(
    x: Option<Result<PixelValueText<'a>, CssBorderRadiusParseError<'a>>>,
    s: Seq<char>,
) -> bool {
    match x {
        None => !unit_start_is_boundary(s),
        Some(res) => unit_start_is_boundary(s) && split_agrees(res, s),
    }
}

/// Whether the readings of a `border-radius` property are the ones its text
/// gives: one for each of its one to four words, or the error that holds the
/// whole property.
pub open spec fn readings_agree<'a>(
    r: Result<
        Vec<Option<Result<PixelValueText<'a>, CssBorderRadiusParseError<'a>>>>,
        CssBorderRadiusParseError<'a>,
    >,
    s: Seq<char>,
) -> bool {
    &&& value_count_ok(s) ==> (r matches Ok(v) && v@.len() == words(s).len() && forall|i|
        0 <= i < v@.len() ==> reading_agrees(#[trigger] v@[i], words(s)[i]))
    &&& !value_count_ok(s) ==> (r matches Err(CssBorderRadiusParseError::TooManyValues(t)) && t@
        == s)
}

/// Splits a `border-radius` property into its one to four values, each one
/// split into its unit and the text of its number where it can be sliced
/// there; otherwise the error that holds the whole property.
pub fn read_border_radius_values<'a>(input: &'a str) -> (r: Result<
    Vec<Option<Result<PixelValueText<'a>, CssBorderRadiusParseError<'a>>>>,
    CssBorderRadiusParseError<'a>,
>)
    ensures
        readings_agree(r, input@),
{
    let components = border_radius_components(input)?;
    let ghost ws = words(input@);
    let mut readings: Vec<Option<Result<PixelValueText<'a>, CssBorderRadiusParseError<'a>>>> =
        Vec::new();
    let n = components.len();
    let mut i: usize = 0;
    while i < n
        invariant
            n == components@.len(),
            str_views(components@) == ws,
            i <= n,
            readings@.len() == i,
            forall|j| 0 <= j < i ==> reading_agrees(#[trigger] readings@[j], ws[j]),
        decreases n - i,
    {
        assert(components@[i as int]@ == ws[i as int]);
        readings.push(try_split_single_css_value(components[i]));
        i = i + 1;
    }
    Ok(readings)
}

/// `first_unread` of one to four readings, one reading at a time.
proof fn lemma_first_unread_short<T, E>(v: Seq<Option<Result<T, E>>>)
    requires
        1 <= v.len() <= 4,
    ensures
        first_unread(v) == if !is_read(v[0]) {
            0int
        } else if v.len() == 1 || !is_read(v[1]) {
            1
        } else if v.len() == 2 || !is_read(v[2]) {
            2
        } else if v.len() == 3 || !is_read(v[3]) {
            3
        } else {
            4
        },
{
    reveal_with_fuel(first_unread, 5);
    let v1 = v.drop_first();
    if v.len() >= 2 {
        assert(v1[0] == v[1]);
        let v2 = v1.drop_first();
        if v.len() >= 3 {
            assert(v2[0] == v[2]);
            let v3 = v2.drop_first();
            if v.len() >= 4 {
                assert(v3[0] == v[3]);
                assert(v3.drop_first().len() == 0);
            } else {
                assert(v3.len() == 0);
            }
        } else {
            assert(v2.len() == 0);
        }
    } else {
        assert(v1.len() == 0);
    }
}

/// The law of repeated values: a value given once reads as the same
/// corners as the same value given twice or four times; `a b` as `a b a b`;
/// and `a b c` as `a b c b`.
pub proof fn law_repeated_values_give_same_corners<T, E>(
    a: Option<Result<T, E>>,
    b: Option<Result<T, E>>,
    c: Option<Result<T, E>>,
)
    ensures
        composed_border_radius(seq![a]) == composed_border_radius(seq![a, a]),
        composed_border_radius(seq![a]) == composed_border_radius(seq![a, a, a, a]),
        composed_border_radius(seq![a, b]) == composed_border_radius(seq![a, b, a, b]),
        composed_border_radius(seq![a, b, c]) == composed_border_radius(seq![a, b, c, b]),
{
    lemma_first_unread_short(seq![a]);
    lemma_first_unread_short(seq![a, a]);
    lemma_first_unread_short(seq![a, a, a, a]);
    lemma_first_unread_short(seq![a, b]);
    lemma_first_unread_short(seq![a, b, a, b]);
    lemma_first_unread_short(seq![a, b, c]);
    lemma_first_unread_short(seq![a, b, c, b]);
    let f = |x: Option<Result<T, E>>| reading_value(x);
    assert(seq![a].map_values(f)[0] == reading_value(a));
    assert(seq![a, a].map_values(f) =~= seq![reading_value(a), reading_value(a)]);
    assert(seq![a, a, a, a].map_values(f) =~= seq![
        reading_value(a),
        reading_value(a),
        reading_value(a),
        reading_value(a),
    ]);
    assert(seq![a, b].map_values(f) =~= seq![reading_value(a), reading_value(b)]);
    assert(seq![a, b, a, b].map_values(f) =~= seq![
        reading_value(a),
        reading_value(b),
        reading_value(a),
        reading_value(b),
    ]);
    assert(seq![a, b, c].map_values(f) =~= seq![
        reading_value(a),
        reading_value(b),
        reading_value(c),
    ]);
    assert(seq![a, b, c, b].map_values(f) =~= seq![
        reading_value(a),
        reading_value(b),
        reading_value(c),
        reading_value(b),
    ]);
}

/// The law of repeated words: words joined by a whitespace character are
/// read as those words, in order, so that `a a`, `a a a a`, `a b a b` and
/// `a b c b` give their values as written.
pub proof fn law_words_joined_by_whitespace(a: Seq<char>, b: Seq<char>, c: Seq<char>, sp: char)
    requires
        is_word(a),
        is_word(b),
        is_word(c),
        char_is_whitespace(sp),
    ensures
        words(a) == seq![a],
        words(a + seq![sp] + a) == seq![a, a],
        words(a + seq![sp] + a + seq![sp] + a + seq![sp] + a) == seq![a, a, a, a],
        words(a + seq![sp] + b) == seq![a, b],
        words(a + seq![sp] + b + seq![sp] + a + seq![sp] + b) == seq![a, b, a, b],
        words(a + seq![sp] + b + seq![sp] + c) == seq![a, b, c],
        words(a + seq![sp] + b + seq![sp] + c + seq![sp] + b) == seq![a, b, c, b],
{
    let s = seq![sp];
    law_words_of_a_word(a);
    law_words_of_a_word(b);
    law_words_of_a_word(c);
    law_words_of_joined_text(a, sp, a);
    assert(seq![a] + seq![a] =~= seq![a, a]);
    law_words_of_joined_text(a + s + a, sp, a);
    law_words_of_joined_text(a + s + a + s + a, sp, a);
    assert(seq![a, a] + seq![a] =~= seq![a, a, a]);
    assert(seq![a, a, a] + seq![a] =~= seq![a, a, a, a]);
    law_words_of_joined_text(a, sp, b);
    assert(seq![a] + seq![b] =~= seq![a, b]);
    law_words_of_joined_text(a + s + b, sp, a);
    law_words_of_joined_text(a + s + b + s + a, sp, b);
    assert(seq![a, b] + seq![a] =~= seq![a, b, a]);
    assert(seq![a, b, a] + seq![b] =~= seq![a, b, a, b]);
    law_words_of_joined_text(a + s + b, sp, c);
    law_words_of_joined_text(a + s + b + s + c, sp, b);
    assert(seq![a, b] + seq![c] =~= seq![a, b, c]);
    assert(seq![a, b, c] + seq![b] =~= seq![a, b, c, b]);
}

/// Two readings of values are equal as `==` compares them, the texts by
/// their characters.
pub open spec fn same_reading<'a, 'b>(
    x: Option<Result<PixelValueText<'a>, CssBorderRadiusParseError<'a>>>,
    y: Option<Result<PixelValueText<'b>, CssBorderRadiusParseError<'b>>>,
) -> bool {
    match (x, y) {
        (None, None) => true,
        (Some(Ok(p)), Some(Ok(q))) => p.metric == q.metric && p.number@ == q.number@,
        (
            Some(Err(CssBorderRadiusParseError::InvalidComponent(t))),
            Some(Err(CssBorderRadiusParseError::InvalidComponent(u))),
        ) => t@ == u@,
        _ => false,
    }
}

/// The law of whitespace for `border-radius`: only the values matter, not
/// the whitespace between them. Two properties with the same words read
/// alike: both fail with too many values, or give readings that are equal
/// value by value.
pub proof fn law_only_the_values_matter<'a, 'b>(
    s1: Seq<char>,
    s2: Seq<char>,
    r1: Result<
        Vec<Option<Result<PixelValueText<'a>, CssBorderRadiusParseError<'a>>>>,
        CssBorderRadiusParseError<'a>,
    >,
    r2: Result<
        Vec<Option<Result<PixelValueText<'b>, CssBorderRadiusParseError<'b>>>>,
        CssBorderRadiusParseError<'b>,
    >,
)
    requires
        words(s1) == words(s2),
        readings_agree(r1, s1),
        readings_agree(r2, s2),
    ensures
        r1 is Ok <==> r2 is Ok,
        r1 is Err ==> (r1 matches Err(CssBorderRadiusParseError::TooManyValues(_))),
        r2 is Err ==> (r2 matches Err(CssBorderRadiusParseError::TooManyValues(_))),
        r1 is Ok ==> r1->Ok_0@.len() == r2->Ok_0@.len() && forall|i|
            0 <= i < r1->Ok_0@.len() ==> same_reading(
                #[trigger] r1->Ok_0@[i],
                r2->Ok_0@[i],
            ),
{
    if value_count_ok(s1) {
        let v1 = r1->Ok_0@;
        let v2 = r2->Ok_0@;
        assert forall|i| 0 <= i < v1.len() implies same_reading(#[trigger] v1[i], v2[i]) by {
            assert(reading_agrees(v1[i], words(s1)[i]));
            assert(reading_agrees(v2[i], words(s2)[i]));
        }
    }
}

/// The law of the corners: one value rounds all four corners; two values
/// go to top-left and bottom-right, then to top-right and bottom-left; three
/// values to top-left, to top-right and bottom-left, and to bottom-right;
/// four values to top-left, top-right, bottom-right and bottom-left, in that
/// order.
pub proof fn law_values_go_to_corners_in_css_order<T>(a: T, b: T, c: T, d: T)
    ensures
        corners_of(seq![a]) == (BorderCorners {
            top_left: a,
            top_right: a,
            bottom_right: a,
            bottom_left: a,
        }),
        corners_of(seq![a, b]) == (BorderCorners {
            top_left: a,
            top_right: b,
            bottom_right: a,
            bottom_left: b,
        }),
        corners_of(seq![a, b, c]) == (BorderCorners {
            top_left: a,
            top_right: b,
            bottom_right: c,
            bottom_left: b,
        }),
        corners_of(seq![a, b, c, d]) == (BorderCorners {
            top_left: a,
            top_right: b,
            bottom_right: c,
            bottom_left: d,
        }),
{
}

/// The law of composing read values: when every value of a property holds a
/// number, the result is the corners those numbers go to, in CSS order.
pub proof fn law_read_values_go_to_corners<T, E>(a: T, b: T, c: T, d: T)
    ensures
        composed_border_radius(seq![Some(Ok::<T, E>(a))]) == Some(
            Ok::<BorderCorners<T>, E>(
                BorderCorners { top_left: a, top_right: a, bottom_right: a, bottom_left: a },
            ),
        ),
        composed_border_radius(seq![Some(Ok::<T, E>(a)), Some(Ok::<T, E>(b))]) == Some(
            Ok::<BorderCorners<T>, E>(
                BorderCorners { top_left: a, top_right: b, bottom_right: a, bottom_left: b },
            ),
        ),
        composed_border_radius(
            seq![Some(Ok::<T, E>(a)), Some(Ok::<T, E>(b)), Some(Ok::<T, E>(c))],
        ) == Some(
            Ok::<BorderCorners<T>, E>(
                BorderCorners { top_left: a, top_right: b, bottom_right: c, bottom_left: b },
            ),
        ),
        composed_border_radius(
            seq![Some(Ok::<T, E>(a)), Some(Ok::<T, E>(b)), Some(Ok::<T, E>(c)), Some(Ok::<T, E>(d))],
        ) == Some(
            Ok::<BorderCorners<T>, E>(
                BorderCorners { top_left: a, top_right: b, bottom_right: c, bottom_left: d },
            ),
        ),
{
    let v1 = seq![Some(Ok::<T, E>(a))];
    let v2 = seq![Some(Ok::<T, E>(a)), Some(Ok::<T, E>(b))];
    let v3 = seq![Some(Ok::<T, E>(a)), Some(Ok::<T, E>(b)), Some(Ok::<T, E>(c))];
    let v4 = seq![Some(Ok::<T, E>(a)), Some(Ok::<T, E>(b)), Some(Ok::<T, E>(c)), Some(Ok::<T, E>(d))];
    lemma_first_unread_short(v1);
    lemma_first_unread_short(v2);
    lemma_first_unread_short(v3);
    lemma_first_unread_short(v4);
    let f = |x: Option<Result<T, E>>| reading_value(x);
    assert(v1.map_values(f) =~= seq![a]);
    assert(v2.map_values(f) =~= seq![a, b]);
    assert(v3.map_values(f) =~= seq![a, b, c]);
    assert(v4.map_values(f) =~= seq![a, b, c, d]);
    law_values_go_to_corners_in_css_order(a, b, c, d);
}

/// The law of the first failure: the values are read in order, and the first
/// one that holds no number decides: its error, or no result where it cannot
/// be sliced.
pub proof fn law_first_failing_value_decides<T, E>(v: Seq<Option<Result<T, E>>>, k: int)
    requires
        0 <= k < v.len(),
        forall|j| 0 <= j < k ==> (#[trigger] v[j] matches Some(Ok(_))),
        !(v[k] matches Some(Ok(_))),
    ensures
        v[k] is None ==> composed_border_radius(v) is None,
        v[k] matches Some(Err(e)) ==> composed_border_radius(v) == Some(Err::<BorderCorners<T>, E>(e)),
{
    assert forall|j| 0 <= j < k implies is_read(#[trigger] v[j]) by {
        assert(v[j] matches Some(Ok(_)));
    }
    lemma_first_unread(v, k);
}

/// The law of the value count: a property is accepted exactly when it has
/// one, two, three or four whitespace-separated values.
pub proof fn law_one_to_four_values_are_accepted(s: Seq<char>)
    ensures
        value_count_ok(s) <==> (words(s).len() == 1 || words(s).len() == 2 || words(s).len() == 3
            || words(s).len() == 4),
{
}

/// The law of the value count, by example of its shape: one to four words
/// joined by whitespace are accepted, as those words; five are not, and
/// neither is a property without words.
pub proof fn law_joined_values_are_counted(
    a: Seq<char>,
    b: Seq<char>,
    c: Seq<char>,
    d: Seq<char>,
    e: Seq<char>,
    sp: char,
)
    requires
        is_word(a),
        is_word(b),
        is_word(c),
        is_word(d),
        is_word(e),
        char_is_whitespace(sp),
    ensures
        value_count_ok(a),
        value_count_ok(a + seq![sp] + b),
        value_count_ok(a + seq![sp] + b + seq![sp] + c),
        value_count_ok(a + seq![sp] + b + seq![sp] + c + seq![sp] + d),
        !value_count_ok(a + seq![sp] + b + seq![sp] + c + seq![sp] + d + seq![sp] + e),
        !value_count_ok(Seq::<char>::empty()),
        !value_count_ok(seq![sp]),
{
    let t = seq![sp];
    law_words_of_a_word(a);
    law_words_of_a_word(b);
    law_words_of_a_word(c);
    law_words_of_a_word(d);
    law_words_of_a_word(e);
    law_words_of_joined_text(a, sp, b);
    law_words_of_joined_text(a + t + b, sp, c);
    law_words_of_joined_text(a + t + b + t + c, sp, d);
    law_words_of_joined_text(a + t + b + t + c + t + d, sp, e);
    assert(words(Seq::<char>::empty()).len() == 0);
    assert(seq![sp].drop_last() =~= Seq::<char>::empty());
    assert(words(seq![sp]) == words(Seq::<char>::empty()));
}

/// The law of number characters: the digits `0` to `9` and `.` end the
/// number of a value, and no other ASCII character does.
pub proof fn law_digits_and_dot_are_number_chars(c: char)
    ensures
        ('0' <= c <= '9' || c == '.') ==> is_number_char(c),
        (c <= '\u{7f}' && !('0' <= c <= '9' || c == '.')) ==> !is_number_char(c),
{
}

/// The last number character of a value lies within it.
proof fn lemma_last_number_char_range(s: Seq<char>)
    ensures
        -1 <= last_number_char(s) < s.len(),
        last_number_char(s) >= 0 ==> is_number_char(s[last_number_char(s)]),
    decreases s.len(),
{
    if s.len() > 0 && !is_number_char(s.last()) {
        lemma_last_number_char_range(s.drop_last());
        let k = last_number_char(s.drop_last());
        if k >= 0 {
            assert(s.drop_last()[k] == s[k]);
        }
    }
}

/// Characters after the last number character do not move it.
proof fn lemma_last_number_char_append(d: Seq<char>, u: Seq<char>)
    requires
        forall|i| 0 <= i < u.len() ==> !is_number_char(#[trigger] u[i]),
    ensures
        last_number_char(d + u) == last_number_char(d),
    decreases u.len(),
{
    if u.len() > 0 {
        let u0 = u.drop_last();
        assert forall|i| 0 <= i < u0.len() implies !is_number_char(#[trigger] u0[i]) by {
            assert(u0[i] == u[i]);
        }
        lemma_last_number_char_append(d, u0);
        assert((d + u).drop_last() =~= d + u0);
        assert((d + u).last() == u.last());
        assert(!is_number_char(u[u.len() - 1]));
    } else {
        assert(d + u =~= d);
    }
}

/// The law of a number followed by a unit: a number made of digits and dots
/// followed by `px` or `em` splits into that number and that unit.
pub proof fn law_number_followed_by_unit<'a>(
    d: Seq<char>,
    px: Result<PixelValueText<'a>, CssBorderRadiusParseError<'a>>,
    em: Result<PixelValueText<'a>, CssBorderRadiusParseError<'a>>,
)
    requires
        d.len() > 0,
        forall|i| 0 <= i < d.len() ==> ('0' <= #[trigger] d[i] <= '9' || d[i] == '.'),
        split_agrees(px, d + seq!['p', 'x']),
        split_agrees(em, d + seq!['e', 'm']),
    ensures
        unit_start_is_boundary(d + seq!['p', 'x']),
        unit_start_is_boundary(d + seq!['e', 'm']),
        px matches Ok(v) && v.metric == CssMetric::Px && v.number@ == d,
        em matches Ok(v) && v.metric == CssMetric::Em && v.number@ == d,
{
    let last = d[d.len() - 1];
    assert('0' <= last <= '9' || last == '.');
    assert(last_number_char(d) == d.len() - 1);
    lemma_last_number_char_append(d, seq!['p', 'x']);
    lemma_last_number_char_append(d, seq!['e', 'm']);
    let s1 = d + seq!['p', 'x'];
    let s2 = d + seq!['e', 'm'];
    assert(s1[d.len() - 1] == last);
    assert(s2[d.len() - 1] == last);
    assert(s1.subrange(d.len() as int, s1.len() as int) =~= seq!['p', 'x']);
    assert(s2.subrange(d.len() as int, s2.len() as int) =~= seq!['e', 'm']);
    assert(s1.subrange(0, d.len() as int) =~= d);
    assert(s2.subrange(0, d.len() as int) =~= d);
    assert(seq!['p', 'x'] != seq!['e', 'm']) by {
        assert(seq!['p', 'x'][0] != seq!['e', 'm'][0]);
    }
}

/// The law of slicing: every non-empty ASCII value can be sliced at the start
/// of its unit, so only a value with a character of several bytes there can
/// fail to be split.
pub proof fn law_ascii_values_can_be_split(s: Seq<char>)
    requires
        s.len() > 0,
        forall|i| 0 <= i < s.len() ==> #[trigger] s[i] <= '\u{7f}',
    ensures
        unit_start_is_boundary(s),
{
    lemma_last_number_char_range(s);
}

/// The law of a value without a number: a non-empty ASCII value with no
/// digit and no `.` whose text after its first character is neither `px` nor
/// `em` is refused, with the whole value in the error.
pub proof fn law_value_without_number_is_refused<'a>(
    s: Seq<char>,
    r: Result<PixelValueText<'a>, CssBorderRadiusParseError<'a>>,
)
    requires
        s.len() > 0,
        forall|i| 0 <= i < s.len() ==> #[trigger] s[i] <= '\u{7f}' && !('0' <= s[i] <= '9' || s[i]
            == '.'),
        s.drop_first() != seq!['p', 'x'],
        s.drop_first() != seq!['e', 'm'],
        split_agrees(r, s),
    ensures
        unit_start_is_boundary(s),
        r matches Err(CssBorderRadiusParseError::InvalidComponent(t)) && t@ == s,
{
    assert forall|i| 0 <= i < s.len() implies !is_number_char(#[trigger] s[i]) by {
        assert(s[i] <= '\u{7f}');
    }
    lemma_last_number_char_append(Seq::<char>::empty(), s);
    assert(Seq::<char>::empty() + s =~= s);
    assert(s.subrange(1, s.len() as int) =~= s.drop_first());
    assert(s.subrange(0, s.len() as int) =~= s);
}

/// The law of a bad unit: a number made of digits and dots followed by a
/// unit of ASCII letters other than `px` and `em` is refused, with the error
/// holding the last character of the number and the unit.
pub proof fn law_bad_unit_is_refused<'a>(
    d: Seq<char>,
    u: Seq<char>,
    r: Result<PixelValueText<'a>, CssBorderRadiusParseError<'a>>,
)
    requires
        d.len() > 0,
        forall|i| 0 <= i < d.len() ==> ('0' <= #[trigger] d[i] <= '9' || d[i] == '.'),
        forall|i| 0 <= i < u.len() ==> ('a' <= #[trigger] u[i] <= 'z' || 'A' <= u[i] <= 'Z'),
        u != seq!['p', 'x'],
        u != seq!['e', 'm'],
        split_agrees(r, d + u),
    ensures
        unit_start_is_boundary(d + u),
        r matches Err(CssBorderRadiusParseError::InvalidComponent(t)) && t@ == seq![d.last()] + u,
{
    let last = d[d.len() - 1];
    assert('0' <= last <= '9' || last == '.');
    assert(last_number_char(d) == d.len() - 1);
    assert forall|i| 0 <= i < u.len() implies !is_number_char(#[trigger] u[i]) by {
        assert('a' <= u[i] <= 'z' || 'A' <= u[i] <= 'Z');
    }
    lemma_last_number_char_append(d, u);
    let s = d + u;
    assert(s[d.len() - 1] == last);
    assert(s.subrange(d.len() as int, s.len() as int) =~= u);
    assert(s.subrange(d.len() - 1, s.len() as int) =~= seq![d.last()] + u);
}

/// The law of reading ASCII values: every value of a property whose values
/// are ASCII is read, none is refused for being unsliceable.
pub proof fn law_ascii_values_are_read<'a>(
    s: Seq<char>,
    r: Result<
        Vec<Option<Result<PixelValueText<'a>, CssBorderRadiusParseError<'a>>>>,
        CssBorderRadiusParseError<'a>,
    >,
)
    requires
        readings_agree(r, s),
        forall|i| 0 <= i < s.len() ==> #[trigger] s[i] <= '\u{7f}',
    ensures
        r matches Ok(v) ==> forall|i| 0 <= i < v@.len() ==> (#[trigger] v@[i] is Some),
{
    if r is Ok {
        let v = r->Ok_0@;
        assert forall|i| 0 <= i < v.len() implies (#[trigger] v[i] is Some) by {
            let w = words(s)[i];
            law_words_are_nonempty_without_whitespace(s);
            lemma_words_of_ascii_text(s);
            assert(is_word(words(s)[i]));
            assert forall|j| 0 <= j < w.len() implies #[trigger] w[j] <= '\u{7f}' by {
                assert(words(s)[i][j] <= '\u{7f}');
            }
            law_ascii_values_can_be_split(w);
        }
    }
}

} // verus!
