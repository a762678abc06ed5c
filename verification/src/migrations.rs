//! Schema migrations as text: the statements that a script holds, and which
//! of them may fail without harm.

use crate::text::{
    chars_of, is_whitespace, is_whitespace_spec, join, lemma_join_push, push_range, string_of,
};
use vstd::prelude::*;

verus! {

/// The parts of `s` between the occurrences of `sep`: one more part than
/// there are occurrences.
pub open spec fn split_on(s: Seq<char>, sep: char) -> Seq<Seq<char>>
    decreases s.len(),
{
    if s.len() == 0 {
        seq![Seq::empty()]
    } else {
        let before = split_on(s.drop_last(), sep);
        if s.last() == sep {
            before.push(Seq::empty())
        } else {
            before.drop_last().push(before.last().push(s.last()))
        }
    }
}

/// `line` without the carriage return that it ends with, if it ends with
/// one.
pub open spec fn without_return(line: Seq<char>) -> Seq<char> {
    if line.len() > 0 && line.last() == '\r' {
        line.drop_last()
    } else {
        line
    }
}

/// The lines of `s`: what stands before each line feed, without the carriage
/// return that may precede it, and what follows the last line feed unless
/// nothing does.
pub open spec fn lines_of(s: Seq<char>) -> Seq<Seq<char>> {
    let parts = split_on(s, '\n');
    let ended = parts.drop_last().map_values(|line: Seq<char>| without_return(line));
    if parts.last().len() == 0 {
        ended
    } else {
        ended.push(parts.last())
    }
}

/// `s` without its leading white space.
pub open spec fn trim_start_spec(s: Seq<char>) -> Seq<char>
    decreases s.len(),
{
    if s.len() > 0 && is_whitespace_spec(s[0]) {
        trim_start_spec(s.drop_first())
    } else {
        s
    }
}

/// `s` without its trailing white space.
pub open spec fn trim_end_spec(s: Seq<char>) -> Seq<char>
    decreases s.len(),
{
    if s.len() > 0 && is_whitespace_spec(s.last()) {
        trim_end_spec(s.drop_last())
    } else {
        s
    }
}

/// `s` without its leading and trailing white space.
pub open spec fn trim_spec(s: Seq<char>) -> Seq<char> {
    trim_end_spec(trim_start_spec(s))
}

/// Whether a line is a comment: after its leading white space come two
/// hyphens.
pub open spec fn is_comment(line: Seq<char>) -> bool {
    let text = trim_start_spec(line);
    text.len() >= 2 && text[0] == '-' && text[1] == '-'
}

/// The lines among `lines` that are no comments, in order.
pub open spec fn without_comments(lines: Seq<Seq<char>>) -> Seq<Seq<char>>
    decreases lines.len(),
{
    if lines.len() == 0 {
        Seq::empty()
    } else if is_comment(lines.last()) {
        without_comments(lines.drop_last())
    } else {
        without_comments(lines.drop_last()).push(lines.last())
    }
}

/// The statement that a part of a script holds: its lines that are no
/// comments, joined by line feeds, without white space around them.
pub open spec fn statement_of(part: Seq<char>) -> Seq<char> {
    trim_spec(join(without_comments(lines_of(part)), seq!['\n']))
}

/// The statements of the parts that hold one, in order.
pub open spec fn statements_of(parts: Seq<Seq<char>>) -> Seq<Seq<char>>
    decreases parts.len(),
{
    if parts.len() == 0 {
        Seq::empty()
    } else if statement_of(parts.last()).len() == 0 {
        statements_of(parts.drop_last())
    } else {
        statements_of(parts.drop_last()).push(statement_of(parts.last()))
    }
}

/// The statements of a script: the script is cut at its semicolons, and each
/// part that holds more than comments and white space gives one statement.
pub open spec fn statements_spec(script: Seq<char>) -> Seq<Seq<char>> {
    statements_of(split_on(script, ';'))
}

/// Whether `needle` occurs in `hay`.
pub open spec fn occurs_in(needle: Seq<char>, hay: Seq<char>) -> bool {
    exists|i: int| 0 <= i <= hay.len() - needle.len() && #[trigger] hay.subrange(
        i,
        i + needle.len(),
    ) == needle
}

/// What `str::to_uppercase` returns for a text with these characters.
pub uninterp spec fn uppercase(text: Seq<char>) -> Seq<char>;

/// Whether a statement may fail without harm: one that alters a table fails
/// when it has been applied before.
pub open spec fn may_fail_spec(statement: Seq<char>) -> bool {
    occurs_in("ALTER TABLE"@, uppercase(statement))
}

/// `str::to_uppercase`: the text in upper case.
#[verifier::external_body]
fn to_uppercase(text: &str) -> (upper: String)
    ensures
        upper@ == uppercase(text@),
{
    text.to_uppercase()
}

/// The parts of a text that is cut once more at its end.
proof fn lemma_split_whole(s: Seq<char>, sep: char, from: int)
    requires
        0 <= from <= s.len(),
        forall|k: int| from <= k < s.len() ==> s[k] != sep,
        from == 0 || s[from - 1] == sep,
    ensures
        split_on(s, sep).len() >= 1,
        split_on(s, sep).last() == s.skip(from),
        from > 0 ==> split_on(s, sep).drop_last() == split_on(s.take(from - 1), sep),
        from == 0 ==> split_on(s, sep).len() == 1,
    decreases s.len(),
{
    if s.len() == 0 {
        assert(s.skip(0) =~= Seq::<char>::empty());
    } else if from == s.len() {
        let before = split_on(s.drop_last(), sep);
        assert(s.skip(from) =~= Seq::<char>::empty());
        assert(before.push(Seq::<char>::empty()).drop_last() =~= before);
        assert(s.take(from - 1) =~= s.drop_last());
    } else {
        lemma_split_whole(s.drop_last(), sep, from);
        let before = split_on(s.drop_last(), sep);
        assert(s.drop_last().skip(from).push(s.last()) =~= s.skip(from));
        assert(before.drop_last().push(before.last().push(s.last())).drop_last()
            =~= before.drop_last());
        if from > 0 {
            assert(s.drop_last().take(from - 1) =~= s.take(from - 1));
        }
    }
}

fn trimmed_start(src: &Vec<char>, from: usize, to: usize) -> (start: usize)
    requires
        from <= to <= src.len(),
    ensures
        from <= start <= to,
        src@.subrange(start as int, to as int) == trim_start_spec(
            src@.subrange(from as int, to as int),
        ),
{
    let mut start: usize = from;
    while start < to && is_whitespace(src[start])
        invariant
            from <= start <= to <= src.len(),
            trim_start_spec(src@.subrange(from as int, to as int)) == trim_start_spec(
                src@.subrange(start as int, to as int),
            ),
        decreases to - start,
    {
        assert(src@.subrange(start as int, to as int).drop_first() =~= src@.subrange(
            start + 1,
            to as int,
        ));
        start += 1;
    }
    start
}

fn trimmed_end(src: &Vec<char>, from: usize, to: usize) -> (end: usize)
    requires
        from <= to <= src.len(),
    ensures
        from <= end <= to,
        src@.subrange(from as int, end as int) == trim_end_spec(
            src@.subrange(from as int, to as int),
        ),
{
    let mut end: usize = to;
    while end > from && is_whitespace(src[end - 1])
        invariant
            from <= end <= to <= src.len(),
            trim_end_spec(src@.subrange(from as int, to as int)) == trim_end_spec(
                src@.subrange(from as int, end as int),
            ),
        decreases end - from,
    {
        assert(src@.subrange(from as int, end as int).drop_last() =~= src@.subrange(
            from as int,
            end - 1,
        ));
        end -= 1;
    }
    end
}

fn comment_at(src: &Vec<char>, from: usize, to: usize) -> (comment: bool)
    requires
        from <= to <= src.len(),
    ensures
        comment == is_comment(src@.subrange(from as int, to as int)),
{
    let start = trimmed_start(src, from, to);
    let ghost text = src@.subrange(start as int, to as int);
    if to - start >= 2 {
        assert(text[0] == src@[start as int]);
        assert(text[1] == src@[start + 1]);
        src[start] == '-' && src[start + 1] == '-'
    } else {
        false
    }
}

/// The text that a part of a script holds once its comment lines are left
/// out: the other lines, joined by line feeds.
fn push_without_comments(out: &mut Vec<char>, src: &Vec<char>, from: usize, to: usize)
    requires
        from <= to <= src.len(),
    ensures
        final(out)@ == old(out)@ + join(
            without_comments(lines_of(src@.subrange(from as int, to as int))),
            seq!['\n'],
        ),
{
    let ghost before = out@;
    let ghost part = src@.subrange(from as int, to as int);
    let ghost feed = seq!['\n'];
    let ghost mut ended: Seq<Seq<char>> = Seq::empty();
    let ghost mut kept: Seq<Seq<char>> = Seq::empty();
    let mut any: bool = false;
    let mut start: usize = from;
    let mut i: usize = from;
    proof {
        assert(part.take(0) =~= Seq::<char>::empty());
        assert(split_on(part.take(0), '\n') =~= seq![Seq::<char>::empty()]);
        assert(src@.subrange(from as int, from as int) =~= Seq::<char>::empty());
        assert(before + join(kept, feed) =~= before);
    }
    while i < to
        invariant
            from <= start <= i <= to <= src.len(),
            part == src@.subrange(from as int, to as int),
            feed == seq!['\n'],
            forall|k: int| start <= k < i ==> src@[k] != '\n',
            start == from || src@[start - 1] == '\n',
            start > from ==> ended == split_on(part.take(start - from - 1), '\n').map_values(
                |line: Seq<char>| without_return(line),
            ),
            start == from ==> ended == Seq::<Seq<char>>::empty(),
            ended.len() == 0 <==> start == from,
            kept == without_comments(ended),
            any == (kept.len() > 0),
            out@ == before + join(kept, feed),
        decreases to - i,
    {
        if src[i] == '\n' {
            let end: usize = if i > start && src[i - 1] == '\r' {
                i - 1
            } else {
                i
            };
            let ghost raw = src@.subrange(start as int, i as int);
            let ghost line = src@.subrange(start as int, end as int);
            proof {
                assert(line =~= without_return(raw));
                let prefix = part.take(i - from);
                assert forall|k: int| start - from <= k < prefix.len() implies prefix[k]
                    != '\n' by {
                    assert(prefix[k] == src@[from + k]);
                }
                if start > from {
                    assert(prefix[start - from - 1] == src@[start - 1]);
                }
                lemma_split_whole(prefix, '\n', start - from);
                assert(prefix.skip(start - from) =~= raw);
                let parts = split_on(prefix, '\n');
                if start > from {
                    assert(prefix.take(start - from - 1) =~= part.take(start - from - 1));
                }
                assert(parts =~= parts.drop_last().push(raw));
                assert(parts.map_values(|line: Seq<char>| without_return(line)) =~= ended.push(
                    line,
                ));
                assert(ended.push(line).drop_last() =~= ended);
                assert(part.take(i + 1 - from - 1) =~= prefix);
            }
            if !comment_at(src, start, end) {
                let ghost joined = join(kept, feed);
                proof {
                    lemma_join_push(kept, feed, line);
                }
                if any {
                    out.push('\n');
                    assert(out@ =~= before + (joined + feed));
                }
                push_range(out, src, start, end);
                proof {
                    assert(out@ =~= before + join(kept.push(line), feed));
                    kept = kept.push(line);
                }
                any = true;
            }
            proof {
                ended = ended.push(line);
            }
            start = i + 1;
        }
        i += 1;
    }
    let ghost last = src@.subrange(start as int, to as int);
    proof {
        assert forall|k: int| start - from <= k < part.len() implies part[k] != '\n' by {
            assert(part[k] == src@[from + k]);
        }
        if start > from {
            assert(part[start - from - 1] == src@[start - 1]);
        }
        lemma_split_whole(part, '\n', start - from);
        assert(part.skip(start - from) =~= last);
        let parts = split_on(part, '\n');
        if start == from {
            assert(parts.drop_last() =~= Seq::<Seq<char>>::empty());
        }
        assert(parts.drop_last().map_values(|line: Seq<char>| without_return(line)) =~= ended);
    }
    if start < to {
        proof {
            assert(lines_of(part) =~= ended.push(last));
            assert(ended.push(last).drop_last() =~= ended);
        }
        if !comment_at(src, start, to) {
            let ghost joined = join(kept, feed);
            proof {
                lemma_join_push(kept, feed, last);
            }
            if any {
                out.push('\n');
                assert(out@ =~= before + (joined + feed));
            }
            push_range(out, src, start, to);
            assert(out@ =~= before + join(kept.push(last), feed));
        }
    } else {
        assert(lines_of(part) =~= ended);
    }
}

/// The statements of a migration script, in order.
pub fn statements(script: &str) -> (found: Vec<String>)
    ensures
        found@.len() == statements_spec(script@).len(),
        forall|i: int| 0 <= i < found@.len() ==> (#[trigger] found@[i])@ == statements_spec(
            script@,
        )[i],
{
    let src = chars_of(script);
    let mut found: Vec<String> = Vec::new();
    let ghost mut parts: Seq<Seq<char>> = Seq::empty();
    let mut start: usize = 0;
    let mut i: usize = 0;
    loop
        invariant
            start <= i <= src.len(),
            src@ == script@,
            forall|k: int| start <= k < i ==> src@[k] != ';',
            start == 0 || src@[start - 1] == ';',
            start > 0 ==> parts == split_on(src@.take(start - 1), ';'),
            start == 0 ==> parts == Seq::<Seq<char>>::empty(),
            found@.len() == statements_of(parts).len(),
            forall|k: int| 0 <= k < found@.len() ==> (#[trigger] found@[k])@ == statements_of(
                parts,
            )[k],
        decreases src.len() - i + 1, src.len() - i,
    {
        if i == src.len() || src[i] == ';' {
            let ghost part = src@.subrange(start as int, i as int);
            let mut cleaned: Vec<char> = Vec::new();
            push_without_comments(&mut cleaned, &src, start, i);
            let from = trimmed_start(&cleaned, 0, cleaned.len());
            let to = trimmed_end(&cleaned, from, cleaned.len());
            let mut text: Vec<char> = Vec::new();
            push_range(&mut text, &cleaned, from, to);
            proof {
                assert(cleaned@ =~= join(without_comments(lines_of(part)), seq!['\n']));
                assert(cleaned@.subrange(0, cleaned@.len() as int) =~= cleaned@);
                assert(text@ =~= statement_of(part));
                let prefix = src@.take(i as int);
                lemma_split_whole(prefix, ';', start as int);
                assert(prefix.skip(start as int) =~= part);
                if start > 0 {
                    assert(prefix.take(start - 1) =~= src@.take(start - 1));
                } else {
                    assert(split_on(prefix, ';').drop_last() =~= Seq::<Seq<char>>::empty());
                }
                assert(split_on(prefix, ';') =~= parts.push(part));
                assert(parts.push(part).drop_last() =~= parts);
            }
            if text.len() > 0 {
                found.push(string_of(&text));
            }
            proof {
                parts = parts.push(part);
            }
            if i == src.len() {
                assert(src@.take(src@.len() as int) =~= src@);
                return found;
            }
            start = i + 1;
            proof {
                assert(src@.take(start - 1) =~= src@.take(i as int));
            }
        }
        i += 1;
    }
}

fn occurs(needle: &Vec<char>, hay: &Vec<char>) -> (found: bool)
    ensures
        found == occurs_in(needle@, hay@),
{
    if needle.len() > hay.len() {
        return false;
    }
    let last: usize = hay.len() - needle.len();
    let mut i: usize = 0;
    while i <= last
        invariant
            needle.len() <= hay.len(),
            last == hay.len() - needle.len(),
            i <= last + 1,
            forall|k: int| 0 <= k < i ==> #[trigger] hay@.subrange(k, k + needle.len()) != needle@,
        decreases last + 1 - i,
    {
        let mut j: usize = 0;
        while j < needle.len() && hay[i + j] == needle[j]
            invariant
                i <= last,
                last == hay.len() - needle.len(),
                needle.len() <= hay.len(),
                j <= needle.len(),
                forall|k: int| 0 <= k < j ==> hay@[i + k] == needle@[k],
            decreases needle.len() - j,
        {
            j += 1;
        }
        if j == needle.len() {
            assert(hay@.subrange(i as int, i + needle.len()) =~= needle@);
            return true;
        }
        assert(hay@.subrange(i as int, i + needle.len())[j as int] != needle@[j as int]);
        i += 1;
    }
    false
}

/// Whether the statement holds `ALTER TABLE` once it is put in upper case.
pub fn alters_table(upper: &str) -> (alters: bool)
    ensures
        alters == occurs_in("ALTER TABLE"@, upper@),
{
    let needle = chars_of("ALTER TABLE");
    let hay = chars_of(upper);
    occurs(&needle, &hay)
}

/// Whether a statement may fail without harm: one that alters a table fails
/// when it has been applied before.
pub fn may_fail(statement: &str) -> (tolerated: bool)
    ensures
        tolerated == may_fail_spec(statement@),
{
    let upper = to_uppercase(statement);
    alters_table(upper.as_str())
}

} // verus!
