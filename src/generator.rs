use vstd::prelude::*;

use crate::error::GeneratorError;
use crate::random::choose_one;
use crate::text::{chars_of, push_char};

verus! {

/// Letters that every password may use.
pub const LOWERCASE: &'static str = "abcdefghijklmnopqrstuvwxyz";

/// Letters added on request.
pub const UPPERCASE: &'static str = "ABCDEFGHIJKLMNOPQRSTUVWXYZ";

/// Digits added on request.
pub const DIGITS: &'static str = "0123456789";

/// Symbols added on request.
pub const SYMBOLS: &'static str = "!@#$%^&*()_+-=[]{}";

/// The candidate characters before exclusion: lowercase letters, then the
/// classes that were asked for.
pub open spec fn candidate_chars(use_uppercase: bool, use_numbers: bool, use_symbols: bool) -> Seq<
    char,
> {
    LOWERCASE@ + (if use_uppercase {
        UPPERCASE@
    } else {
        Seq::empty()
    }) + (if use_numbers {
        DIGITS@
    } else {
        Seq::empty()
    }) + (if use_symbols {
        SYMBOLS@
    } else {
        Seq::empty()
    })
}

/// The characters of `s` that are not in `excluded`, in order.
pub open spec fn without(s: Seq<char>, excluded: Seq<char>) -> Seq<char>
    decreases s.len(),
{
    if s.len() == 0 {
        Seq::empty()
    } else if excluded.contains(s.last()) {
        without(s.drop_last(), excluded)
    } else {
        without(s.drop_last(), excluded).push(s.last())
    }
}

/// The characters a generated password is drawn from.
pub open spec fn password_alphabet(
    use_uppercase: bool,
    use_numbers: bool,
    use_symbols: bool,
    excluded: Seq<char>,
) -> Seq<char> {
    without(candidate_chars(use_uppercase, use_numbers, use_symbols), excluded)
}

/// What is kept is exactly what was there and not excluded.
pub proof fn lemma_without_members(s: Seq<char>, excluded: Seq<char>, c: char)
    ensures
        without(s, excluded).contains(c) <==> (s.contains(c) && !excluded.contains(c)),
    decreases s.len(),
{
    if s.len() > 0 {
        lemma_without_members(s.drop_last(), excluded, c);
        if s.contains(c) && c != s.last() {
            let i = choose|i: int| 0 <= i < s.len() && s[i] == c;
            assert(s.drop_last()[i] == c);
        }
        if s.drop_last().contains(c) {
            let i = choose|i: int| 0 <= i < s.drop_last().len() && s.drop_last()[i] == c;
            assert(s[i] == c);
        }
        if without(s.drop_last(), excluded).contains(c) {
            let w = without(s.drop_last(), excluded);
            let i = choose|i: int| 0 <= i < w.len() && w[i] == c;
            assert(w.push(s.last())[i] == c);
        }
        if !excluded.contains(s.last()) {
            let w = without(s.drop_last(), excluded);
            assert(w.push(s.last())[w.len() as int] == s.last());
            if w.push(s.last()).contains(c) && c != s.last() {
                let i = choose|i: int| 0 <= i < w.len() + 1 && w.push(s.last())[i] == c;
                assert(w[i] == c);
            }
        }
        if s.last() == c {
            assert(s[s.len() - 1] == c);
        }
    }
}

fn contains_char(s: &Vec<char>, c: char) -> (r: bool)
    ensures
        r == s@.contains(c),
{
    let mut i: usize = 0;
    while i < s.len()
        invariant
            i <= s.len(),
            forall|j: int| 0 <= j < i ==> s@[j] != c,
        decreases s.len() - i,
    {
        if s[i] == c {
            return true;
        }
        i = i + 1;
    }
    false
}

fn push_class(charset: &mut Vec<char>, class: &str)
    ensures
        final(charset)@ == old(charset)@ + class@,
{
    let chars = chars_of(class);
    let mut i: usize = 0;
    while i < chars.len()
        invariant
            i <= chars.len(),
            chars@ == class@,
            charset@ == old(charset)@ + class@.subrange(0, i as int),
        decreases chars.len() - i,
    {
        charset.push(chars[i]);
        i = i + 1;
        assert(charset@ =~= old(charset)@ + class@.subrange(0, i as int));
    }
    assert(class@.subrange(0, chars.len() as int) =~= class@);
}

/// The alphabet for the given options: candidate classes, less every excluded
/// character, order kept.
pub fn build_charset(
    use_uppercase: bool,
    use_numbers: bool,
    use_symbols: bool,
    exclude_chars: &str,
) -> (r: Vec<char>)
    ensures
        r@ == password_alphabet(use_uppercase, use_numbers, use_symbols, exclude_chars@),
{
    let mut candidates: Vec<char> = Vec::new();
    push_class(&mut candidates, LOWERCASE);
    if use_uppercase {
        push_class(&mut candidates, UPPERCASE);
    }
    if use_numbers {
        push_class(&mut candidates, DIGITS);
    }
    if use_symbols {
        push_class(&mut candidates, SYMBOLS);
    }
    assert(candidates@ =~= candidate_chars(use_uppercase, use_numbers, use_symbols));
    let excluded = chars_of(exclude_chars);
    let mut charset: Vec<char> = Vec::new();
    let mut i: usize = 0;
    while i < candidates.len()
        invariant
            i <= candidates.len(),
            excluded@ == exclude_chars@,
            charset@ == without(candidates@.subrange(0, i as int), excluded@),
        decreases candidates.len() - i,
    {
        let c = candidates[i];
        let ghost prefix = candidates@.subrange(0, i as int + 1);
        assert(prefix.drop_last() =~= candidates@.subrange(0, i as int));
        assert(prefix.last() == c);
        if !contains_char(&excluded, c) {
            charset.push(c);
        }
        i = i + 1;
    }
    assert(candidates@.subrange(0, candidates.len() as int) =~= candidates@);
    charset
}

/// Draws a password of `length` characters, each independently and uniformly
/// from the alphabet that the options leave. When every candidate is excluded
/// there is no alphabet and the result is an error.
pub fn generate_password(
    length: usize,
    use_uppercase: bool,
    use_numbers: bool,
    use_symbols: bool,
    exclude_chars: String,
) -> (r: Result<String, GeneratorError>)
    ensures
        password_alphabet(use_uppercase, use_numbers, use_symbols, exclude_chars@).len() == 0
            <==> r is Err,
        r is Err ==> r->Err_0 == GeneratorError::EmptyCharset,
        r is Ok ==> r->Ok_0@.len() == length,
        r is Ok ==> forall|i: int|
            0 <= i < length ==> password_alphabet(
                use_uppercase,
                use_numbers,
                use_symbols,
                exclude_chars@,
            ).contains(#[trigger] r->Ok_0@[i]),
{
    let charset = build_charset(use_uppercase, use_numbers, use_symbols, exclude_chars.as_str());
    if charset.len() == 0 {
        return Err(GeneratorError::EmptyCharset);
    }
    let mut password = String::new();
    let mut n: usize = 0;
    while n < length
        invariant
            n <= length,
            charset.len() > 0,
            password@.len() == n,
            forall|i: int| 0 <= i < n ==> charset@.contains(#[trigger] password@[i]),
        decreases length - n,
    {
        let c = *choose_one(charset.as_slice());
        let ghost before = password@;
        push_char(&mut password, c);
        assert(forall|i: int| 0 <= i < n ==> password@[i] == before[i]);
        n = n + 1;
    }
    Ok(password)
}

/// A generated password holds no excluded character and only candidates of
/// the classes asked for.
pub proof fn lemma_generated_chars_allowed(
    use_uppercase: bool,
    use_numbers: bool,
    use_symbols: bool,
    excluded: Seq<char>,
    c: char,
)
    requires
        password_alphabet(use_uppercase, use_numbers, use_symbols, excluded).contains(c),
    ensures
        !excluded.contains(c),
        candidate_chars(use_uppercase, use_numbers, use_symbols).contains(c),
{
    lemma_without_members(candidate_chars(use_uppercase, use_numbers, use_symbols), excluded, c);
}

} // verus!
