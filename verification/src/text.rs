//! Splitting text into lines and words, and writing numbers as text.

use vstd::prelude::*;

verus! {

/// The lines of `s`, as `str::split('\n')` produces them: the pieces between newline
/// characters. A text with `k` newlines has `k + 1` lines, some of which may be empty.
pub open spec fn spec_lines(s: Seq<char>) -> Seq<Seq<char>>
    decreases s.len(),
{
    if s.len() == 0 {
        seq![Seq::<char>::empty()]
    } else {
        let prev = spec_lines(s.drop_last());
        if s.last() == '\n' {
            prev.push(Seq::<char>::empty())
        } else {
            prev.update(prev.len() - 1, prev.last().push(s.last()))
        }
    }
}

/// The words of `s`: its maximal runs of characters other than the space `' '`, in order.
/// This is what `s.split(' ').filter(|t| !t.is_empty())` produces.
pub open spec fn spec_words(s: Seq<char>) -> Seq<Seq<char>>
    decreases s.len(),
{
    if s.len() == 0 {
        Seq::<Seq<char>>::empty()
    } else {
        let prev = spec_words(s.drop_last());
        let c = s.last();
        if c == ' ' {
            prev
        } else if s.len() == 1 || s[s.len() - 2] == ' ' {
            prev.push(seq![c])
        } else {
            prev.update(prev.len() - 1, prev.last().push(c))
        }
    }
}

/// Splits `chars` into lines; each line is given by the range of its characters.
pub fn line_ranges(chars: &Vec<char>) -> (r: Vec<(usize, usize)>)
    ensures
        r@.len() == spec_lines(chars@).len(),
        forall|k: int|
            #![trigger r@[k]]
            0 <= k < r@.len() ==> r@[k].0 <= r@[k].1 <= chars.len() && chars@.subrange(
                r@[k].0 as int,
                r@[k].1 as int,
            ) == spec_lines(chars@)[k],
{
    let mut done: Vec<(usize, usize)> = Vec::new();
    let mut line_start: usize = 0;
    let mut i: usize = 0;
    assert(chars@.take(0) =~= Seq::<char>::empty());
    while i < chars.len()
        invariant
            line_start <= i <= chars.len(),
            spec_lines(chars@.take(i as int)).len() == done@.len() + 1,
            spec_lines(chars@.take(i as int)).last() == chars@.subrange(
                line_start as int,
                i as int,
            ),
            forall|k: int|
                #![trigger done@[k]]
                0 <= k < done@.len() ==> done@[k].0 <= done@[k].1 <= chars.len() && chars@.subrange(
                    done@[k].0 as int,
                    done@[k].1 as int,
                ) == spec_lines(chars@.take(i as int))[k],
        decreases chars.len() - i,
    {
        let ghost prev = spec_lines(chars@.take(i as int));
        assert(chars@.take(i + 1).drop_last() =~= chars@.take(i as int));
        if chars[i] == '\n' {
            done.push((line_start, i));
            line_start = i + 1;
            assert(chars@.subrange(line_start as int, (i + 1) as int) =~= Seq::<char>::empty());
        } else {
            assert(chars@.subrange(line_start as int, (i + 1) as int) =~= chars@.subrange(
                line_start as int,
                i as int,
            ).push(chars@[i as int]));
        }
        i = i + 1;
    }
    done.push((line_start, i));
    assert(chars@.take(i as int) =~= chars@);
    done
}

/// Splits `chars[start..end]` into words; each word is given by the range of its characters.
pub fn word_ranges(chars: &Vec<char>, start: usize, end: usize) -> (r: Vec<(usize, usize)>)
    requires
        start <= end <= chars.len(),
    ensures
        r@.len() == spec_words(chars@.subrange(start as int, end as int)).len(),
        forall|k: int|
            #![trigger r@[k]]
            0 <= k < r@.len() ==> start <= r@[k].0 <= r@[k].1 <= end && chars@.subrange(
                r@[k].0 as int,
                r@[k].1 as int,
            ) == spec_words(chars@.subrange(start as int, end as int))[k],
{
    let mut words: Vec<(usize, usize)> = Vec::new();
    let mut j: usize = start;
    assert(chars@.subrange(start as int, start as int) =~= Seq::<char>::empty());
    while j < end
        invariant
            start <= j <= end <= chars.len(),
            words@.len() == spec_words(chars@.subrange(start as int, j as int)).len(),
            forall|k: int|
                #![trigger words@[k]]
                0 <= k < words@.len() ==> start <= words@[k].0 <= words@[k].1 <= j
                    && chars@.subrange(words@[k].0 as int, words@[k].1 as int) == spec_words(
                    chars@.subrange(start as int, j as int),
                )[k],
            j > start && chars@[j - 1] != ' ' ==> words@.len() >= 1 && words@.last().1 == j,
        decreases end - j,
    {
        let ghost pre = chars@.subrange(start as int, j as int);
        let ghost cur = chars@.subrange(start as int, (j + 1) as int);
        assert(cur.drop_last() =~= pre);
        assert(cur.last() == chars@[j as int]);
        let c = chars[j];
        if c == ' ' {
        } else if j == start || chars[j - 1] == ' ' {
            assert(cur.len() == 1 || cur[cur.len() - 2] == chars@[j - 1]);
            words.push((j, j + 1));
            assert(chars@.subrange(j as int, (j + 1) as int) =~= seq![c]);
        } else {
            assert(cur[cur.len() - 2] == chars@[j - 1]);
            let last = words.pop().unwrap();
            assert(chars@.subrange(last.0 as int, (j + 1) as int) =~= chars@.subrange(
                last.0 as int,
                j as int,
            ).push(c));
            words.push((last.0, j + 1));
        }
        j = j + 1;
    }
    words
}

/// The pieces joined in order, with the separator `sep` between two consecutive pieces
pub open spec fn spec_joined(pieces: Seq<Seq<char>>, sep: char) -> Seq<char>
    decreases pieces.len(),
{
    if pieces.len() == 0 {
        Seq::<char>::empty()
    } else if pieces.len() == 1 {
        pieces[0]
    } else {
        spec_joined(pieces.drop_last(), sep).push(sep) + pieces.last()
    }
}

/// `c` does not occur in `s`
pub open spec fn lacks(s: Seq<char>, c: char) -> bool {
    forall|i: int| 0 <= i < s.len() ==> #[trigger] s[i] != c
}

/// A word written right after a space (or at the start of the text) is one more word
proof fn lemma_words_of_word_after_space(s: Seq<char>, w: Seq<char>)
    requires
        s.len() == 0 || s.last() == ' ',
        w.len() > 0,
        lacks(w, ' '),
    ensures
        spec_words(s + w) == spec_words(s).push(w),
    decreases w.len(),
{
    let c = w.last();
    let rest = w.drop_last();
    assert((s + w).drop_last() =~= s + rest);
    assert((s + w).last() == c);
    if rest.len() == 0 {
        assert(s + rest =~= s);
        assert(w =~= seq![c]);
    } else {
        assert(rest[rest.len() - 1] == w[w.len() - 2]);
        lemma_words_of_word_after_space(s, rest);
        assert((s + w)[(s + w).len() - 2] == rest.last());
        assert(rest.push(c) =~= w);
    }
}

/// Words joined by single spaces are split back into the same words
pub proof fn lemma_words_of_joined(words: Seq<Seq<char>>)
    requires
        forall|k: int| 0 <= k < words.len() ==> #[trigger] words[k].len() > 0 && lacks(words[k], ' '),
    ensures
        spec_words(spec_joined(words, ' ')) == words,
    decreases words.len(),
{
    if words.len() == 0 {
    } else if words.len() == 1 {
        let w = words[0];
        assert(Seq::<char>::empty() + w =~= w);
        lemma_words_of_word_after_space(Seq::<char>::empty(), w);
        assert(seq![w] =~= words);
    } else {
        let front = words.drop_last();
        assert forall|k: int| 0 <= k < front.len() implies #[trigger] front[k].len() > 0 && lacks(front[k], ' ') by {
            assert(front[k] == words[k]);
        }
        lemma_words_of_joined(front);
        let s = spec_joined(front, ' ').push(' ');
        assert(s.drop_last() =~= spec_joined(front, ' '));
        assert(spec_words(s) == front);
        assert(words.last() == words[words.len() - 1]);
        lemma_words_of_word_after_space(s, words.last());
        assert(front.push(words.last()) =~= words);
    }
}

/// A text always has at least one line
proof fn lemma_lines_nonempty(s: Seq<char>)
    ensures
        spec_lines(s).len() >= 1,
    decreases s.len(),
{
    if s.len() > 0 {
        lemma_lines_nonempty(s.drop_last());
    }
}

/// Characters other than newlines extend the last line
proof fn lemma_lines_of_line(s: Seq<char>, l: Seq<char>)
    requires
        lacks(l, '\n'),
    ensures
        spec_lines(s + l) == spec_lines(s).update(
            spec_lines(s).len() - 1,
            spec_lines(s).last() + l,
        ),
    decreases l.len(),
{
    lemma_lines_nonempty(s);
    let lines = spec_lines(s);
    if l.len() == 0 {
        assert(s + l =~= s);
        assert(lines.last() + l =~= lines.last());
        assert(lines.update(lines.len() - 1, lines.last()) =~= lines);
    } else {
        let c = l.last();
        let rest = l.drop_last();
        assert(c == l[l.len() - 1]);
        lemma_lines_of_line(s, rest);
        assert((s + l).drop_last() =~= s + rest);
        assert((s + l).last() == c);
        let prev = spec_lines(s + rest);
        assert(prev.last() == lines.last() + rest);
        assert((lines.last() + rest).push(c) =~= lines.last() + l);
        assert(prev.update(prev.len() - 1, prev.last().push(c)) =~= lines.update(
            lines.len() - 1,
            lines.last() + l,
        ));
    }
}

/// Lines joined by newlines are split back into the same lines
pub proof fn lemma_lines_of_joined(lines: Seq<Seq<char>>)
    requires
        lines.len() > 0,
        forall|k: int| 0 <= k < lines.len() ==> lacks(#[trigger] lines[k], '\n'),
    ensures
        spec_lines(spec_joined(lines, '\n')) == lines,
    decreases lines.len(),
{
    if lines.len() == 1 {
        let l = lines[0];
        assert(Seq::<char>::empty() + l =~= l);
        lemma_lines_of_line(Seq::<char>::empty(), l);
        assert(Seq::<char>::empty() + l =~= l);
        assert(seq![Seq::<char>::empty()].update(0, Seq::<char>::empty() + l) =~= lines);
    } else {
        let front = lines.drop_last();
        assert forall|k: int| 0 <= k < front.len() implies lacks(#[trigger] front[k], '\n') by {
            assert(front[k] == lines[k]);
        }
        lemma_lines_of_joined(front);
        let s = spec_joined(front, '\n').push('\n');
        assert(s.drop_last() =~= spec_joined(front, '\n'));
        assert(spec_lines(s) == front.push(Seq::<char>::empty()));
        assert(lines.last() == lines[lines.len() - 1]);
        lemma_lines_of_line(s, lines.last());
        assert(Seq::<char>::empty() + lines.last() =~= lines.last());
        assert(front.push(Seq::<char>::empty()).update(front.len() as int, lines.last()) =~= lines);
    }
}

/// Joining pieces that lack `c` with a separator other than `c` gives a text that lacks `c`
pub proof fn lemma_joined_lacks(pieces: Seq<Seq<char>>, sep: char, c: char)
    requires
        sep != c,
        forall|k: int| 0 <= k < pieces.len() ==> lacks(#[trigger] pieces[k], c),
    ensures
        lacks(spec_joined(pieces, sep), c),
    decreases pieces.len(),
{
    if pieces.len() > 1 {
        let front = pieces.drop_last();
        assert forall|k: int| 0 <= k < front.len() implies lacks(#[trigger] front[k], c) by {
            assert(front[k] == pieces[k]);
        }
        lemma_joined_lacks(front, sep, c);
        assert(lacks(pieces[pieces.len() - 1], c));
        let joined = spec_joined(pieces, sep);
        let head = spec_joined(front, sep).push(sep);
        assert forall|i: int| 0 <= i < joined.len() implies #[trigger] joined[i] != c by {
            if i < head.len() {
                assert(joined[i] == head[i]);
                if i < head.len() - 1 {
                    assert(head[i] == spec_joined(front, sep)[i]);
                }
            } else {
                assert(joined[i] == pieces.last()[i - head.len()]);
            }
        }
    } else if pieces.len() == 1 {
        assert(lacks(pieces[0], c));
    }
}

} // verus!
