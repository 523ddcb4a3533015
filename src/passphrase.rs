use vstd::prelude::*;

use crate::error::GeneratorError;
use crate::random::choose_one;
use vstd::string::StringExecFns;

verus! {

/// The built-in word list that passphrases are drawn from.
pub const WORDS: [&'static str; 64] = [
    "acid", "acorn", "acre", "album", "amber", "anchor", "apple", "arena",
    "badge", "bagel", "banjo", "basil", "beach", "berry", "bison", "blade",
    "cabin", "cactus", "camel", "candle", "canoe", "cedar", "chalk", "cider",
    "daisy", "delta", "denim", "diner", "dolphin", "donut", "dragon", "drum",
    "eagle", "easel", "ember", "engine", "falcon", "fern", "fiddle", "flint",
    "garlic", "gecko", "ginger", "glacier", "harbor", "hazel", "helmet", "honey",
    "igloo", "island", "jacket", "jungle", "kettle", "koala", "ladder", "lemon",
    "maple", "meadow", "nectar", "oasis", "pebble", "quartz", "raven", "zebra",
];

/// The words of `ws` with `sep` between each two, and none before the first
/// or after the last.
pub open spec fn joined(ws: Seq<Seq<char>>, sep: Seq<char>) -> Seq<char>
    decreases ws.len(),
{
    if ws.len() == 0 {
        Seq::empty()
    } else if ws.len() == 1 {
        ws[0]
    } else {
        joined(ws.drop_last(), sep) + sep + ws.last()
    }
}

/// Each word of `picks` is one of `words`.
pub open spec fn drawn_from(picks: Seq<Seq<char>>, words: Seq<&str>) -> bool {
    forall|i: int|
        0 <= i < picks.len() ==> exists|j: int| 0 <= j < words.len() && #[trigger] picks[i] == words[j]@
}

/// A passphrase of at least one word begins with its first word and ends with
/// its last: no separator leads or trails.
pub proof fn lemma_joined_ends(ws: Seq<Seq<char>>, sep: Seq<char>)
    requires
        ws.len() > 0,
    ensures
        joined(ws, sep).len() >= ws[0].len(),
        joined(ws, sep).subrange(0, ws[0].len() as int) == ws[0],
        joined(ws, sep).len() >= ws.last().len(),
        joined(ws, sep).subrange(
            joined(ws, sep).len() - ws.last().len(),
            joined(ws, sep).len() as int,
        ) == ws.last(),
    decreases ws.len(),
{
    let j = joined(ws, sep);
    if ws.len() == 1 {
        assert(j.subrange(0, ws[0].len() as int) =~= ws[0]);
        assert(j.subrange(j.len() - ws.last().len(), j.len() as int) =~= ws.last());
    } else {
        let rest = ws.drop_last();
        lemma_joined_ends(rest, sep);
        let jr = joined(rest, sep);
        assert(j == jr + sep + ws.last());
        assert(rest[0] == ws[0]);
        assert(j.subrange(0, ws[0].len() as int) =~= jr.subrange(0, ws[0].len() as int));
        assert(j.subrange(j.len() - ws.last().len(), j.len() as int) =~= ws.last());
    }
}

/// The pieces of `s` between occurrences of `c`, as splitting a string at a
/// character gives them (an empty string is one empty piece).
pub open spec fn split_on(s: Seq<char>, c: char) -> Seq<Seq<char>>
    decreases s.len(),
{
    if s.len() == 0 {
        seq![Seq::empty()]
    } else if s.last() == c {
        split_on(s.drop_last(), c).push(Seq::empty())
    } else {
        let pieces = split_on(s.drop_last(), c);
        pieces.update(pieces.len() - 1, pieces.last().push(s.last()))
    }
}

proof fn lemma_split_tail(x: Seq<char>, c: char, w: Seq<char>)
    requires
        !w.contains(c),
    ensures
        split_on(x + seq![c] + w, c) == split_on(x, c).push(w),
    decreases w.len(),
{
    let s = x + seq![c] + w;
    if w.len() == 0 {
        assert(s.drop_last() =~= x);
        assert(s.last() == c);
        assert(w =~= Seq::<char>::empty());
    } else {
        let w0 = w.drop_last();
        assert(!w0.contains(c)) by {
            if w0.contains(c) {
                let i = choose|i: int| 0 <= i < w0.len() && w0[i] == c;
                assert(w[i] == c);
            }
        }
        lemma_split_tail(x, c, w0);
        assert(s.drop_last() =~= x + seq![c] + w0);
        assert(s.last() == w.last());
        assert(w[w.len() - 1] != c);
        let p = split_on(x, c).push(w0);
        assert(p.update(p.len() - 1, p.last().push(w.last())) =~= split_on(x, c).push(w)) by {
            assert(w0.push(w.last()) =~= w);
        }
    }
}

proof fn lemma_split_plain(w: Seq<char>, c: char)
    requires
        !w.contains(c),
    ensures
        split_on(w, c) == seq![w],
    decreases w.len(),
{
    if w.len() > 0 {
        let w0 = w.drop_last();
        assert(!w0.contains(c)) by {
            if w0.contains(c) {
                let i = choose|i: int| 0 <= i < w0.len() && w0[i] == c;
                assert(w[i] == c);
            }
        }
        lemma_split_plain(w0, c);
        assert(w[w.len() - 1] != c);
        assert(w0.push(w.last()) =~= w);
        assert(seq![w0].update(0, w0.push(w.last())) =~= seq![w]);
    } else {
        assert(w =~= Seq::<char>::empty());
    }
}

/// Words that do not hold a one-character separator come back, in order and
/// all of them, when their join is split at that separator.
pub proof fn lemma_split_joined(ws: Seq<Seq<char>>, c: char)
    requires
        ws.len() > 0,
        forall|i: int| 0 <= i < ws.len() ==> !(#[trigger] ws[i]).contains(c),
    ensures
        split_on(joined(ws, seq![c]), c) == ws,
    decreases ws.len(),
{
    if ws.len() == 1 {
        lemma_split_plain(ws[0], c);
        assert(seq![ws[0]] =~= ws);
    } else {
        let rest = ws.drop_last();
        assert forall|i: int| 0 <= i < rest.len() implies !(#[trigger] rest[i]).contains(c) by {
            assert(rest[i] == ws[i]);
        }
        lemma_split_joined(rest, c);
        assert(!ws[ws.len() - 1].contains(c));
        lemma_split_tail(joined(rest, seq![c]), c, ws.last());
        assert(rest.push(ws.last()) =~= ws);
    }
}

/// Draws `word_count` words independently and uniformly, with replacement,
/// from `words` and joins them with `separator`. An empty list is an error.
pub fn generate_passphrase_from(words: &[&str], word_count: usize, separator: &str) -> (r: Result<
    String,
    GeneratorError,
>)
    ensures
        words@.len() == 0 <==> r is Err,
        r is Err ==> r->Err_0 == GeneratorError::EmptyWordList,
        r is Ok ==> exists|picks: Seq<Seq<char>>|
            picks.len() == word_count && drawn_from(picks, words@) && r->Ok_0@ == #[trigger] joined(
                picks,
                separator@,
            ),
{
    if words.len() == 0 {
        return Err(GeneratorError::EmptyWordList);
    }
    let mut phrase = String::new();
    let ghost mut picks: Seq<Seq<char>> = Seq::empty();
    let mut n: usize = 0;
    while n < word_count
        invariant
            n <= word_count,
            words@.len() > 0,
            picks.len() == n,
            drawn_from(picks, words@),
            phrase@ == joined(picks, separator@),
        decreases word_count - n,
    {
        let word: &str = *choose_one(words);
        if n > 0 {
            phrase.append(separator);
        }
        phrase.append(word);
        let ghost next = picks.push(word@);
        proof {
            assert(next.drop_last() =~= picks);
            let j = choose|j: int| 0 <= j < words@.len() && words@[j] == word;
            assert(next[n as int] == words@[j]@);
            assert(drawn_from(next, words@));
            if n == 0 {
                assert(phrase@ =~= joined(next, separator@));
            }
        }
        proof {
            picks = next;
        }
        n = n + 1;
    }
    Ok(phrase)
}

/// Draws `word_count` words from the built-in word list and joins them with
/// `separator`.
pub fn generate_passphrase(word_count: usize, separator: String) -> (r: Result<
    String,
    GeneratorError,
>)
    ensures
        r is Ok,
        exists|picks: Seq<Seq<char>>|
            picks.len() == word_count && drawn_from(picks, WORDS@) && r->Ok_0@ == #[trigger] joined(
                picks,
                separator@,
            ),
{
    generate_passphrase_from(WORDS.as_slice(), word_count, separator.as_str())
}

} // verus!
