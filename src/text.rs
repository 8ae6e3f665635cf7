//! Character-level helpers: splitting text into pieces and removing padding.
use vstd::prelude::*;

verus! {

/// The pieces of `s` between occurrences of `sep`, in order. Text without
/// `sep` is a single piece, and two adjacent separators give an empty piece.
pub open spec fn split_on(s: Seq<char>, sep: char) -> Seq<Seq<char>>
    decreases s.len(),
{
    if s.len() == 0 {
        seq![Seq::<char>::empty()]
    } else {
        let prev = split_on(s.drop_last(), sep);
        if s.last() == sep {
            prev.push(Seq::<char>::empty())
        } else {
            prev.update(prev.len() - 1, prev.last().push(s.last()))
        }
    }
}

/// A token that padding removal throws away: empty, or a lone carriage return.
pub open spec fn is_padding(token: Seq<char>) -> bool {
    token.len() == 0 || token == seq!['\r']
}

/// The tokens that are not padding, concatenated in order with no separator.
pub open spec fn join_kept(tokens: Seq<Seq<char>>) -> Seq<char>
    decreases tokens.len(),
{
    if tokens.len() == 0 {
        Seq::<char>::empty()
    } else if is_padding(tokens.last()) {
        join_kept(tokens.drop_last())
    } else {
        join_kept(tokens.drop_last()) + tokens.last()
    }
}

/// A value with its padding removed: it is split at every space, the empty
/// and carriage-return tokens are dropped, and the rest are joined. Every
/// space goes, interior ones included.
pub open spec fn strip_padding(value: Seq<char>) -> Seq<char> {
    join_kept(split_on(value, ' '))
}

/// Splitting always gives at least one piece.
pub proof fn lemma_split_nonempty(s: Seq<char>, sep: char)
    ensures
        split_on(s, sep).len() >= 1,
    decreases s.len(),
{
    if s.len() > 0 {
        lemma_split_nonempty(s.drop_last(), sep);
    }
}

/// Relies on `str::chars` collected into a `Vec`: the characters of `s`, in order.
#[verifier::external_body]
pub(crate) fn chars_of(s: &str) -> (r: Vec<char>)
    ensures
        r@ == s@,
{
    s.chars().collect()
}

/// Relies on collecting an iterator of `char` into a `String`: the same characters, in order.
#[verifier::external_body]
pub(crate) fn string_of(cs: &[char]) -> (r: String)
    ensures
        r@ == cs@,
{
    cs.iter().collect()
}

/// Splits `text` at every line feed. The line feeds themselves are dropped;
/// a trailing line feed leaves an empty last line.
pub fn split_lines(text: &str) -> (lines: Vec<String>)
    ensures
        lines.deep_view() == split_on(text@, '\n'),
{
    let cs = chars_of(text);
    let mut lines: Vec<String> = Vec::new();
    let mut start: usize = 0;
    let mut i: usize = 0;
    proof {
        assert(cs@.take(0) =~= Seq::<char>::empty());
        assert(lines.deep_view() =~= split_on(cs@.take(0), '\n').drop_last());
        assert(cs@.subrange(0, 0) =~= split_on(cs@.take(0), '\n').last());
    }
    while i < cs.len()
        invariant
            start <= i <= cs.len(),
            cs@ == text@,
            lines.deep_view() == split_on(cs@.take(i as int), '\n').drop_last(),
            cs@.subrange(start as int, i as int) == split_on(cs@.take(i as int), '\n').last(),
        decreases cs.len() - i,
    {
        let c = cs[i];
        proof {
            assert(cs@.take(i + 1).drop_last() =~= cs@.take(i as int));
            lemma_split_nonempty(cs@.take(i as int), '\n');
        }
        let ghost prev = split_on(cs@.take(i as int), '\n');
        if c == '\n' {
            let line = string_of(&cs[start..i]);
            let ghost before = lines.deep_view();
            lines.push(line);
            start = i + 1;
            proof {
                assert(lines.deep_view() =~= before.push(line@));
                assert(prev.drop_last().push(prev.last()) =~= prev);
                assert(split_on(cs@.take(i + 1), '\n').drop_last() =~= prev);
                assert(cs@.subrange(start as int, i + 1) =~= Seq::<char>::empty());
            }
        } else {
            proof {
                let next = split_on(cs@.take(i + 1), '\n');
                assert(next.drop_last() =~= prev.drop_last());
                assert(cs@.subrange(start as int, i + 1) =~= cs@.subrange(start as int, i as int).push(c));
            }
        }
        i = i + 1;
    }
    let last = string_of(&cs[start..i]);
    let ghost before = lines.deep_view();
    lines.push(last);
    proof {
        assert(cs@.take(i as int) =~= cs@);
        lemma_split_nonempty(cs@, '\n');
        let all = split_on(cs@, '\n');
        assert(lines.deep_view() =~= before.push(last@));
        assert(all.drop_last().push(all.last()) =~= all);
    }
    lines
}

/// Removes padding from an element value: every space character, and any
/// token (between spaces) that is a lone carriage return.
pub fn remove_padding(value: String) -> (r: String)
    ensures
        r@ == strip_padding(value@),
{
    let cs = chars_of(value.as_str());
    let mut kept: Vec<char> = Vec::new();
    let mut token: Vec<char> = Vec::new();
    let mut i: usize = 0;
    proof {
        assert(cs@.take(0) =~= Seq::<char>::empty());
        assert(token@ =~= split_on(cs@.take(0), ' ').last());
        assert(split_on(cs@.take(0), ' ').drop_last() =~= Seq::<Seq<char>>::empty());
    }
    while i < cs.len()
        invariant
            i <= cs.len(),
            cs@ == value@,
            kept@ == join_kept(split_on(cs@.take(i as int), ' ').drop_last()),
            token@ == split_on(cs@.take(i as int), ' ').last(),
        decreases cs.len() - i,
    {
        let c = cs[i];
        proof {
            assert(cs@.take(i + 1).drop_last() =~= cs@.take(i as int));
            lemma_split_nonempty(cs@.take(i as int), ' ');
        }
        let ghost prev = split_on(cs@.take(i as int), ' ');
        if c == ' ' {
            let padding = token.len() == 0 || (token.len() == 1 && token[0] == '\r');
            proof {
                assert(padding == is_padding(token@)) by {
                    if token@.len() == 1 && token@[0] == '\r' {
                        assert(token@ =~= seq!['\r']);
                    }
                }
                assert(prev.drop_last().push(prev.last()) =~= prev);
                assert(split_on(cs@.take(i + 1), ' ').drop_last() =~= prev);
            }
            if !padding {
                kept.append(&mut token);
            }
            token = Vec::new();
        } else {
            proof {
                let next = split_on(cs@.take(i + 1), ' ');
                assert(next.drop_last() =~= prev.drop_last());
            }
            token.push(c);
        }
        i = i + 1;
    }
    let padding = token.len() == 0 || (token.len() == 1 && token[0] == '\r');
    proof {
        assert(padding == is_padding(token@)) by {
            if token@.len() == 1 && token@[0] == '\r' {
                assert(token@ =~= seq!['\r']);
            }
        }
        assert(cs@.take(i as int) =~= cs@);
        lemma_split_nonempty(cs@, ' ');
    }
    if !padding {
        kept.append(&mut token);
    }
    string_of(kept.as_slice())
}

} // verus!
