//! Text primitives shared by the parsers: strings as character sequences,
//! decimal numbers, separators and whitespace normalization.
//!
//! All functions work on `Seq<char>` in contracts and on `Vec<char>` in code;
//! [`chars_of`] and [`string_of`] convert at the edges.

use vstd::prelude::*;

verus! {

broadcast use vstd::string::group_string_axioms;

/// The characters of a text that may be missing.
pub open spec fn text_of(text: Option<String>) -> Option<Seq<char>> {
    match text {
        Some(t) => Some(t@),
        None => None,
    }
}

/// `String::push`: appends one character to the end of the string.
#[verifier::external_body]
fn push_char(s: &mut String, c: char)
    ensures
        final(s)@ == old(s)@.push(c),
{
    s.push(c)
}

/// The characters of `s`, in order.
pub fn chars_of(s: &str) -> (v: Vec<char>)
    ensures
        v@ == s@,
{
    let mut v: Vec<char> = Vec::new();
    for c in it: s.chars()
        invariant
            it.seq() == s@,
            v@ == it.seq().take(it.index() as int),
    {
        v.push(c);
        assert(it.seq().take(it.index() + 1) =~= it.seq().take(it.index() as int).push(c));
    }
    assert(s@.take(s@.len() as int) =~= s@);
    v
}

/// The string made of the characters of `v`, in order.
pub fn string_of(v: &Vec<char>) -> (s: String)
    ensures
        s@ == v@,
{
    let mut s = String::new();
    let mut i: usize = 0;
    while i < v.len()
        invariant
            i <= v.len(),
            s@ == v@.take(i as int),
        decreases v.len() - i,
    {
        push_char(&mut s, v[i]);
        i += 1;
        assert(v@.take(i as int) =~= v@.take(i - 1).push(v@[i - 1]));
    }
    assert(v@.take(v.len() as int) =~= v@);
    s
}

/// Appends the characters of `s` to `out`.
pub fn push_str(out: &mut Vec<char>, s: &str)
    ensures
        final(out)@ == old(out)@ + s@,
{
    let ghost before = out@;
    for c in it: s.chars()
        invariant
            it.seq() == s@,
            out@ == before + it.seq().take(it.index() as int),
    {
        out.push(c);
        assert(before + it.seq().take(it.index() + 1) =~= (before + it.seq().take(
            it.index() as int,
        )).push(c));
    }
    assert(s@.take(s@.len() as int) =~= s@);
}

/// Appends `src[from..to]` to `out`.
pub fn push_range(out: &mut Vec<char>, src: &Vec<char>, from: usize, to: usize)
    requires
        from <= to <= src.len(),
    ensures
        final(out)@ == old(out)@ + src@.subrange(from as int, to as int),
{
    let ghost before = out@;
    let mut i: usize = from;
    while i < to
        invariant
            from <= i <= to <= src.len(),
            out@ == before + src@.subrange(from as int, i as int),
        decreases to - i,
    {
        out.push(src[i]);
        i += 1;
        assert(before + src@.subrange(from as int, i as int) =~= (before + src@.subrange(
            from as int,
            i - 1,
        )).push(src@[i - 1]));
    }
}

// ---------------------------------------------------------------------
// Decimal numbers
// ---------------------------------------------------------------------

/// Whether `c` is one of the ten ASCII decimal digits.
pub open spec fn is_digit(c: char) -> bool {
    '0' as int <= c as int <= '9' as int
}

/// The value of the digit `c`; zero for any other character.
pub open spec fn digit_value(c: char) -> nat {
    if is_digit(c) {
        (c as int - '0' as int) as nat
    } else {
        0
    }
}

/// The character that writes the digit `d`, for `0 <= d <= 9`.
pub open spec fn digit_char(d: int) -> char {
    ('0' as int + d) as char
}

/// The decimal numeral of `n`, without leading zeros.
pub open spec fn decimal_digits(n: nat) -> Seq<char>
    decreases n,
{
    if n < 10 {
        seq![digit_char(n as int)]
    } else {
        decimal_digits(n / 10).push(digit_char((n % 10) as int))
    }
}

/// The decimal numeral of `n`, with a leading minus sign when `n` is negative.
pub open spec fn decimal(n: int) -> Seq<char> {
    if n < 0 {
        seq!['-'] + decimal_digits((-n) as nat)
    } else {
        decimal_digits(n as nat)
    }
}

/// The number that the characters of `s` write in base ten, a character that
/// is no digit counting as zero.
pub open spec fn digits_value(s: Seq<char>) -> nat
    decreases s.len(),
{
    if s.len() == 0 {
        0
    } else {
        digits_value(s.drop_last()) * 10 + digit_value(s.last())
    }
}

/// Whether every character of `s` is a decimal digit.
pub open spec fn all_digits(s: Seq<char>) -> bool {
    forall|i: int| 0 <= i < s.len() ==> is_digit(#[trigger] s[i])
}

/// What `s` denotes as a signed 64-bit decimal integer: an optional `+` or `-`
/// followed by at least one digit, the value within the range of `i64`.
pub open spec fn parse_i64_spec(s: Seq<char>) -> Option<i64> {
    let negative = s.len() > 0 && s[0] == '-';
    let signed = s.len() > 0 && (s[0] == '-' || s[0] == '+');
    let body = if signed {
        s.skip(1)
    } else {
        s
    };
    let magnitude = digits_value(body) as int;
    if body.len() == 0 || !all_digits(body) {
        None
    } else if negative {
        if magnitude <= 0x8000_0000_0000_0000 {
            Some((-magnitude) as i64)
        } else {
            None
        }
    } else {
        if magnitude <= 0x7fff_ffff_ffff_ffff {
            Some(magnitude as i64)
        } else {
            None
        }
    }
}

fn digit_of(d: u64) -> (c: char)
    requires
        d < 10,
    ensures
        c == digit_char(d as int),
{
    if d == 0 {
        '0'
    } else if d == 1 {
        '1'
    } else if d == 2 {
        '2'
    } else if d == 3 {
        '3'
    } else if d == 4 {
        '4'
    } else if d == 5 {
        '5'
    } else if d == 6 {
        '6'
    } else if d == 7 {
        '7'
    } else if d == 8 {
        '8'
    } else {
        '9'
    }
}

fn push_digits(out: &mut Vec<char>, n: u64)
    ensures
        final(out)@ == old(out)@ + decimal_digits(n as nat),
    decreases n,
{
    let ghost before = out@;
    if n >= 10 {
        push_digits(out, n / 10);
    }
    out.push(digit_of(n % 10));
    assert(out@ =~= before + decimal_digits(n as nat));
}

/// Appends the decimal numeral of `n` to `out`.
pub fn push_decimal(out: &mut Vec<char>, n: i64)
    ensures
        final(out)@ == old(out)@ + decimal(n as int),
{
    let ghost before = out@;
    if n < 0 {
        out.push('-');
        let magnitude: u64 = (-(n + 1)) as u64 + 1;
        push_digits(out, magnitude);
        assert(out@ =~= before + decimal(n as int));
    } else {
        push_digits(out, n as u64);
    }
}

/// The decimal numeral of `n` as a string.
pub fn decimal_string(n: i64) -> (s: String)
    ensures
        s@ == decimal(n as int),
{
    let mut out: Vec<char> = Vec::new();
    push_decimal(&mut out, n);
    assert(out@ =~= decimal(n as int));
    string_of(&out)
}

/// A longer numeral is worth at least as much as any of its prefixes.
pub proof fn lemma_digits_value_grows(s: Seq<char>, k: int)
    requires
        0 <= k <= s.len(),
    ensures
        digits_value(s.take(k)) <= digits_value(s),
    decreases s.len(),
{
    if k == s.len() {
        assert(s.take(k) =~= s);
    } else {
        assert(s.drop_last().take(k) =~= s.take(k));
        lemma_digits_value_grows(s.drop_last(), k);
    }
}

fn digit_to_value(c: char) -> (d: Option<u64>)
    ensures
        d is Some <==> is_digit(c),
        d is Some ==> d->0 == digit_value(c),
{
    let u: u32 = c as u32;
    if 48 <= u && u <= 57 {
        Some((u - 48) as u64)
    } else {
        None
    }
}

/// Reads `src[from..to]` as a signed 64-bit decimal integer.
#[verifier::loop_isolation(false)]
pub fn parse_i64(src: &Vec<char>, from: usize, to: usize) -> (r: Option<i64>)
    requires
        from <= to <= src.len(),
    ensures
        r == parse_i64_spec(src@.subrange(from as int, to as int)),
{
    let ghost s = src@.subrange(from as int, to as int);
    if from == to {
        return None;
    }
    let negative = src[from] == '-';
    let signed = negative || src[from] == '+';
    let start: usize = if signed {
        from + 1
    } else {
        from
    };
    let ghost body = src@.subrange(start as int, to as int);
    assert(body =~= if signed {
        s.skip(1)
    } else {
        s
    });
    if start == to {
        return None;
    }
    let limit: u64 = if negative {
        0x8000_0000_0000_0000
    } else {
        0x7fff_ffff_ffff_ffff
    };
    let mut acc: u64 = 0;
    let mut i: usize = start;
    while i < to
        invariant
            start <= i <= to <= src.len(),
            body == src@.subrange(start as int, to as int),
            acc == digits_value(body.take(i - start)),
            acc <= limit,
            forall|k: int| 0 <= k < i - start ==> is_digit(#[trigger] body[k]),
        decreases to - i,
    {
        let ghost prefix = body.take(i - start + 1);
        assert(prefix.drop_last() =~= body.take(i - start));
        assert(prefix.last() == src@[i as int]);
        match digit_to_value(src[i]) {
            None => {
                assert(!is_digit(body[i - start]));
                return None;
            },
            Some(d) => {
                if acc > (limit - d) / 10 {
                    proof {
                        assert(digits_value(prefix) > limit);
                        lemma_digits_value_grows(body, i - start + 1);
                    }
                    return None;
                }
                acc = acc * 10 + d;
            },
        }
        i += 1;
    }
    assert(body.take(to - start) =~= body);
    if negative {
        if acc == 0x8000_0000_0000_0000 {
            Some(i64::MIN)
        } else {
            Some(-(acc as i64))
        }
    } else {
        Some(acc as i64)
    }
}

// ---------------------------------------------------------------------
// Separators
// ---------------------------------------------------------------------

/// `s` without its trailing run of `c`.
pub open spec fn trim_end(s: Seq<char>, c: char) -> Seq<char>
    decreases s.len(),
{
    if s.len() > 0 && s.last() == c {
        trim_end(s.drop_last(), c)
    } else {
        s
    }
}

/// `s` without its leading run of `c`.
pub open spec fn trim_start(s: Seq<char>, c: char) -> Seq<char>
    decreases s.len(),
{
    if s.len() > 0 && s[0] == c {
        trim_start(s.drop_first(), c)
    } else {
        s
    }
}

/// What follows the last `sep` in `s`; all of `s` when it holds none.
pub open spec fn last_segment(s: Seq<char>, sep: char) -> Seq<char>
    decreases s.len(),
{
    if s.len() == 0 || s.last() == sep {
        Seq::empty()
    } else {
        last_segment(s.drop_last(), sep).push(s.last())
    }
}

/// The parts, each two neighbours separated by `sep`.
pub open spec fn join(parts: Seq<Seq<char>>, sep: Seq<char>) -> Seq<char>
    decreases parts.len(),
{
    if parts.len() == 0 {
        Seq::empty()
    } else if parts.len() == 1 {
        parts[0]
    } else {
        join(parts.drop_last(), sep) + sep + parts.last()
    }
}

/// The length that is left of `src` once its trailing run of `c` is cut off.
pub fn trimmed_end(src: &Vec<char>, c: char) -> (end: usize)
    ensures
        end <= src.len(),
        src@.take(end as int) == trim_end(src@, c),
{
    let mut end: usize = src.len();
    assert(src@.take(end as int) =~= src@);
    while end > 0 && src[end - 1] == c
        invariant
            end <= src.len(),
            trim_end(src@, c) == trim_end(src@.take(end as int), c),
        decreases end,
    {
        assert(src@.take(end as int).drop_last() =~= src@.take(end - 1));
        end -= 1;
    }
    end
}

/// The index at which `src` begins once its leading run of `c` is cut off.
pub fn trimmed_start(src: &Vec<char>, c: char) -> (start: usize)
    ensures
        start <= src.len(),
        src@.skip(start as int) == trim_start(src@, c),
{
    let mut start: usize = 0;
    assert(src@.skip(0) =~= src@);
    while start < src.len() && src[start] == c
        invariant
            start <= src.len(),
            trim_start(src@, c) == trim_start(src@.skip(start as int), c),
        decreases src.len() - start,
    {
        assert(src@.skip(start as int).drop_first() =~= src@.skip(start + 1));
        start += 1;
    }
    start
}

/// A text whose tail from `start` on holds no `sep`, and which is cut by a
/// `sep` just before `start`, has that tail as its last segment.
pub proof fn lemma_last_segment(s: Seq<char>, sep: char, start: int)
    requires
        0 <= start <= s.len(),
        forall|k: int| start <= k < s.len() ==> s[k] != sep,
        start == 0 || s[start - 1] == sep,
    ensures
        last_segment(s, sep) == s.skip(start),
    decreases s.len(),
{
    if start == s.len() {
        assert(s.skip(start) =~= Seq::<char>::empty());
    } else {
        lemma_last_segment(s.drop_last(), sep, start);
        assert(s.drop_last().skip(start).push(s.last()) =~= s.skip(start));
    }
}

/// The index at which the last segment of `src[..end]` begins.
pub fn last_segment_start(src: &Vec<char>, end: usize, sep: char) -> (start: usize)
    requires
        end <= src.len(),
    ensures
        start <= end,
        src@.subrange(start as int, end as int) == last_segment(src@.take(end as int), sep),
{
    let mut start: usize = end;
    while start > 0 && src[start - 1] != sep
        invariant
            start <= end <= src.len(),
            forall|k: int| start <= k < end ==> src@[k] != sep,
        decreases start,
    {
        start -= 1;
    }
    proof {
        lemma_last_segment(src@.take(end as int), sep, start as int);
        assert(src@.take(end as int).skip(start as int) =~= src@.subrange(
            start as int,
            end as int,
        ));
    }
    start
}

// ---------------------------------------------------------------------
// Whitespace
// ---------------------------------------------------------------------

/// Whether `c` is a Unicode white-space character.
pub open spec fn is_whitespace_spec(c: char) -> bool {
    let u = c as int;
    ||| 0x09 <= u <= 0x0d
    ||| u == 0x20
    ||| u == 0x85
    ||| u == 0xa0
    ||| u == 0x1680
    ||| 0x2000 <= u <= 0x200a
    ||| u == 0x2028
    ||| u == 0x2029
    ||| u == 0x202f
    ||| u == 0x205f
    ||| u == 0x3000
}

/// Whether `c` is a Unicode white-space character.
pub fn is_whitespace(c: char) -> (r: bool)
    ensures
        r == is_whitespace_spec(c),
{
    let u: u32 = c as u32;
    (0x09 <= u && u <= 0x0d) || u == 0x20 || u == 0x85 || u == 0xa0 || u == 0x1680 || (0x2000
        <= u && u <= 0x200a) || u == 0x2028 || u == 0x2029 || u == 0x202f || u == 0x205f || u
        == 0x3000
}

/// The length of the longest prefix of `s` that holds no white space.
pub open spec fn word_len(s: Seq<char>) -> nat
    decreases s.len(),
{
    if s.len() == 0 || is_whitespace_spec(s[0]) {
        0
    } else {
        1 + word_len(s.drop_first())
    }
}

/// The first word is never longer than the text, and it is not empty when
/// the text begins with a character that is no white space.
pub proof fn lemma_word_len_bounds(s: Seq<char>)
    ensures
        word_len(s) <= s.len(),
        s.len() > 0 && !is_whitespace_spec(s[0]) ==> word_len(s) >= 1,
    decreases s.len(),
{
    if s.len() > 0 && !is_whitespace_spec(s[0]) {
        lemma_word_len_bounds(s.drop_first());
    }
}

/// The words of `s`: its maximal runs of characters that are no white space,
/// in order.
pub open spec fn words(s: Seq<char>) -> Seq<Seq<char>>
    decreases s.len(),
    via words_decreases
{
    if s.len() == 0 {
        Seq::empty()
    } else if is_whitespace_spec(s[0]) {
        words(s.drop_first())
    } else {
        seq![s.take(word_len(s) as int)] + words(s.skip(word_len(s) as int))
    }
}

#[via_fn]
proof fn words_decreases(s: Seq<char>) {
    lemma_word_len_bounds(s);
}

/// The words of `s` separated by single spaces.
pub open spec fn collapse_whitespace(s: Seq<char>) -> Seq<char> {
    join(words(s), seq![' '])
}

/// A prefix without white space that ends the text, or is followed by white
/// space, is the first word.
pub proof fn lemma_word_len(s: Seq<char>, n: int)
    requires
        0 <= n <= s.len(),
        forall|k: int| 0 <= k < n ==> !is_whitespace_spec(s[k]),
        n == s.len() || is_whitespace_spec(s[n]),
    ensures
        word_len(s) == n,
    decreases n,
{
    if n > 0 {
        lemma_word_len(s.drop_first(), n - 1);
    }
}

/// The index just behind the word that begins at `from`.
fn word_end(src: &Vec<char>, from: usize) -> (to: usize)
    requires
        from < src.len(),
        !is_whitespace_spec(src@[from as int]),
    ensures
        from < to <= src.len(),
        to - from == word_len(src@.skip(from as int)),
{
    let mut to: usize = from + 1;
    while to < src.len() && !is_whitespace(src[to])
        invariant
            from < to <= src.len(),
            forall|k: int| from <= k < to ==> !is_whitespace_spec(src@[k]),
        decreases src.len() - to,
    {
        to += 1;
    }
    proof {
        lemma_word_len(src@.skip(from as int), to - from);
    }
    to
}

/// Joining one more part: the separator comes first unless the part is the
/// first one.
pub proof fn lemma_join_push(parts: Seq<Seq<char>>, sep: Seq<char>, part: Seq<char>)
    ensures
        join(parts.push(part), sep) == if parts.len() == 0 {
            part
        } else {
            join(parts, sep) + sep + part
        },
{
    assert(parts.push(part).drop_last() =~= parts);
}

/// Appends to `out` the words of `src`, separated by single spaces.
pub fn push_collapsed(out: &mut Vec<char>, src: &Vec<char>)
    ensures
        final(out)@ == old(out)@ + collapse_whitespace(src@),
{
    let ghost before = out@;
    let ghost space = seq![' '];
    let ghost mut done: Seq<Seq<char>> = Seq::empty();
    let mut any: bool = false;
    let mut i: usize = 0;
    assert(src@.skip(0) =~= src@);
    assert(before + join(done, space) =~= before);
    assert(done + words(src@) =~= words(src@));
    while i < src.len()
        invariant
            i <= src.len(),
            space == seq![' '],
            any == (done.len() > 0),
            words(src@) == done + words(src@.skip(i as int)),
            out@ == before + join(done, space),
        decreases src.len() - i,
    {
        let ghost rest = src@.skip(i as int);
        if is_whitespace(src[i]) {
            assert(rest.drop_first() =~= src@.skip(i + 1));
            i += 1;
        } else {
            let j = word_end(src, i);
            let ghost word = src@.subrange(i as int, j as int);
            let ghost joined = join(done, space);
            proof {
                assert(rest.take(j - i) =~= word);
                assert(rest.skip(j - i) =~= src@.skip(j as int));
                assert(done + (seq![word] + words(src@.skip(j as int))) =~= done.push(word)
                    + words(src@.skip(j as int)));
                lemma_join_push(done, space, word);
            }
            if any {
                out.push(' ');
                assert(out@ =~= before + (joined + space));
            }
            push_range(out, src, i, j);
            proof {
                assert(out@ =~= before + join(done.push(word), space));
                done = done.push(word);
            }
            any = true;
            i = j;
        }
    }
    assert(src@.skip(src@.len() as int) =~= Seq::<char>::empty());
    assert(done + Seq::<Seq<char>>::empty() =~= done);
}

} // verus!
