//! Small text utilities: whitespace-separated words, as the console and the
//! command line read them.

use vstd::prelude::*;
use vstd::string::*;

verus! {

/// A character with the Unicode `White_Space` property
/// (the set that `char::is_whitespace` documents, from the Unicode PropList).
pub open spec fn is_space(c: char) -> bool {
    ||| ('\u{9}' <= c && c <= '\u{d}')
    ||| c == ' '
    ||| c == '\u{85}'
    ||| c == '\u{a0}'
    ||| c == '\u{1680}'
    ||| ('\u{2000}' <= c && c <= '\u{200a}')
    ||| c == '\u{2028}'
    ||| c == '\u{2029}'
    ||| c == '\u{202f}'
    ||| c == '\u{205f}'
    ||| c == '\u{3000}'
}

/// Executable form of [`is_space`].
pub fn char_is_space(c: char) -> (b: bool)
    ensures
        b == is_space(c),
{
    ('\u{9}' <= c && c <= '\u{d}') || c == ' ' || c == '\u{85}' || c == '\u{a0}' || c == '\u{1680}'
        || ('\u{2000}' <= c && c <= '\u{200a}') || c == '\u{2028}' || c == '\u{2029}' || c
        == '\u{202f}' || c == '\u{205f}' || c == '\u{3000}'
}

/// The index just past the word that starts at `i`
/// (the first whitespace at or after `i`, or the end of `s`).
pub open spec fn word_end(s: Seq<char>, i: nat) -> nat
    decreases s.len() - i,
{
    if i < s.len() && !is_space(s[i as int]) {
        word_end(s, i + 1)
    } else {
        i
    }
}

pub proof fn lemma_word_end_bounds(s: Seq<char>, i: nat)
    requires
        i <= s.len(),
    ensures
        i <= word_end(s, i) <= s.len(),
        i < s.len() && !is_space(s[i as int]) ==> i < word_end(s, i),
        forall|k: int| i <= k < word_end(s, i) ==> !is_space(#[trigger] s[k]),
        word_end(s, i) < s.len() ==> is_space(s[word_end(s, i) as int]),
    decreases s.len() - i,
{
    if i < s.len() && !is_space(s[i as int]) {
        lemma_word_end_bounds(s, i + 1);
    }
}

/// The whitespace-separated words of `s` from index `i` on, in order:
/// the maximal runs of non-whitespace characters.
pub open spec fn words_from(s: Seq<char>, i: nat) -> Seq<Seq<char>>
    decreases s.len() - i,
{
    if i >= s.len() {
        Seq::empty()
    } else if is_space(s[i as int]) {
        words_from(s, i + 1)
    } else {
        let e = word_end(s, i);
        proof {
            lemma_word_end_bounds(s, i);
        }
        seq![s.subrange(i as int, e as int)] + words_from(s, e)
    }
}

/// The whitespace-separated words of `s` (what `str::split_whitespace` yields).
pub open spec fn words(s: Seq<char>) -> Seq<Seq<char>> {
    words_from(s, 0)
}

/// Whether every character of `s` is whitespace.
pub open spec fn all_space(s: Seq<char>) -> bool {
    forall|k: int| 0 <= k < s.len() ==> is_space(#[trigger] s[k])
}

/// Where a word ends only depends on what follows its start.
proof fn lemma_word_end_suffix(x: Seq<char>, y: Seq<char>, i: nat, j: nat)
    requires
        i <= x.len(),
        j <= y.len(),
        x.skip(i as int) == y.skip(j as int),
    ensures
        word_end(x, i) - i == word_end(y, j) - j,
    decreases x.len() - i,
{
    assert(x.skip(i as int).len() == x.len() - i);
    assert(y.skip(j as int).len() == y.len() - j);
    assert(y.len() - j == x.len() - i);
    if i < x.len() {
        assert(x[i as int] == x.skip(i as int)[0]);
        assert(y[j as int] == y.skip(j as int)[0]);
        if !is_space(x[i as int]) {
            assert(x.skip(i + 1 as int) =~= x.skip(i as int).skip(1));
            assert(y.skip(j + 1 as int) =~= y.skip(j as int).skip(1));
            lemma_word_end_suffix(x, y, i + 1, j + 1);
        }
    }
}

/// The words from a position on only depend on what follows it.
proof fn lemma_words_from_suffix(x: Seq<char>, y: Seq<char>, i: nat, j: nat)
    requires
        i <= x.len(),
        j <= y.len(),
        x.skip(i as int) == y.skip(j as int),
    ensures
        words_from(x, i) == words_from(y, j),
    decreases x.len() - i,
{
    assert(x.skip(i as int).len() == x.len() - i);
    assert(y.skip(j as int).len() == y.len() - j);
    assert(y.len() - j == x.len() - i);
    if i < x.len() {
        assert(x[i as int] == x.skip(i as int)[0]);
        assert(y[j as int] == y.skip(j as int)[0]);
        if is_space(x[i as int]) {
            assert(x.skip(i + 1 as int) =~= x.skip(i as int).skip(1));
            assert(y.skip(j + 1 as int) =~= y.skip(j as int).skip(1));
            lemma_words_from_suffix(x, y, i + 1, j + 1);
        } else {
            lemma_word_end_bounds(x, i);
            lemma_word_end_bounds(y, j);
            lemma_word_end_suffix(x, y, i, j);
            let e = word_end(x, i);
            let f = word_end(y, j);
            let d = e - i;
            assert forall|k: int| 0 <= k < d implies x.subrange(i as int, e as int)[k]
                == y.subrange(j as int, f as int)[k] by {
                assert(x[i + k] == x.skip(i as int)[k]);
                assert(y[j + k] == y.skip(j as int)[k]);
            }
            assert(x.subrange(i as int, e as int) =~= y.subrange(j as int, f as int));
            assert(x.skip(e as int) =~= x.skip(i as int).skip(d));
            assert(y.skip(f as int) =~= y.skip(j as int).skip(d));
            lemma_words_from_suffix(x, y, e, f);
        }
    }
}

/// Whitespace before position `k` doesn't add words.
proof fn lemma_words_skip_space(x: Seq<char>, i: nat, k: nat)
    requires
        i <= k <= x.len(),
        forall|m: int| i <= m < k ==> is_space(#[trigger] x[m]),
    ensures
        words_from(x, i) == words_from(x, k),
    decreases k - i,
{
    if i < k {
        lemma_words_skip_space(x, i + 1, k);
    }
}

/// Trailing whitespace doesn't end words differently.
proof fn lemma_word_end_trailing(s: Seq<char>, q: Seq<char>, i: nat)
    requires
        i <= s.len(),
        all_space(q),
    ensures
        word_end(s + q, i) == word_end(s, i),
    decreases s.len() - i,
{
    let x = s + q;
    if i < s.len() {
        assert(x[i as int] == s[i as int]);
        if !is_space(s[i as int]) {
            lemma_word_end_trailing(s, q, i + 1);
        }
    } else if q.len() > 0 {
        assert(x[i as int] == q[0]);
    }
}

/// Trailing whitespace doesn't add words.
proof fn lemma_words_trailing(s: Seq<char>, q: Seq<char>, i: nat)
    requires
        i <= s.len(),
        all_space(q),
    ensures
        words_from(s + q, i) == words_from(s, i),
    decreases s.len() - i,
{
    let x = s + q;
    if i == s.len() {
        assert forall|m: int| i <= m < x.len() implies is_space(#[trigger] x[m]) by {
            assert(x[m] == q[m - s.len()]);
        }
        lemma_words_skip_space(x, i, x.len());
    } else {
        assert(x[i as int] == s[i as int]);
        if is_space(s[i as int]) {
            lemma_words_trailing(s, q, i + 1);
        } else {
            lemma_word_end_trailing(s, q, i);
            lemma_word_end_bounds(s, i);
            let e = word_end(s, i);
            assert(x.subrange(i as int, e as int) =~= s.subrange(i as int, e as int));
            lemma_words_trailing(s, q, e);
        }
    }
}

/// Whitespace around a text doesn't change its words
/// (splitting on whitespace in effect trims the text).
pub proof fn law_words_ignore_surrounding_space(p: Seq<char>, s: Seq<char>, q: Seq<char>)
    requires
        all_space(p),
        all_space(q),
    ensures
        words(p + s + q) == words(s),
{
    let x = p + s + q;
    assert forall|m: int| 0 <= m < p.len() implies is_space(#[trigger] x[m]) by {
        assert(x[m] == p[m]);
    }
    lemma_words_skip_space(x, 0, p.len());
    assert(x.skip(p.len() as int) =~= (s + q).skip(0));
    lemma_words_from_suffix(x, s + q, p.len(), 0);
    lemma_words_trailing(s, q, 0);
}

/// The characters of `s`, in order.
pub fn chars_of(s: &str) -> (v: Vec<char>)
    ensures
        v@ == s@,
{
    let mut v: Vec<char> = Vec::new();
    for c in it: s.chars()
        invariant
            v@ == it.seq().take(it.index()),
            it.seq() == s@,
    {
        v.push(c);
    }
    v
}

/// Finds the next word of `chars` at or after `from`.
///
/// Returns its start and end index, or `None` when only whitespace is left.
pub fn next_word(chars: &Vec<char>, from: usize) -> (r: Option<(usize, usize)>)
    requires
        from <= chars@.len(),
    ensures
        match r {
            None => words_from(chars@, from as nat) == Seq::<Seq<char>>::empty(),
            Some((a, b)) => {
                &&& from <= a < b <= chars@.len()
                &&& words_from(chars@, from as nat) == seq![chars@.subrange(a as int, b as int)]
                    + words_from(chars@, b as nat)
            },
        },
{
    let len = chars.len();
    let mut i = from;
    while i < len && char_is_space(chars[i])
        invariant
            from <= i <= len,
            len == chars@.len(),
            words_from(chars@, from as nat) == words_from(chars@, i as nat),
        decreases len - i,
    {
        i = i + 1;
    }
    if i == len {
        return None;
    }
    let mut j = i;
    while j < len && !char_is_space(chars[j])
        invariant
            i <= j <= len,
            len == chars@.len(),
            word_end(chars@, i as nat) == word_end(chars@, j as nat),
        decreases len - j,
    {
        j = j + 1;
    }
    proof {
        lemma_word_end_bounds(chars@, i as nat);
    }
    Some((i, j))
}

/// Whether the characters `chars[a..b]` spell `word`.
pub fn span_is(chars: &Vec<char>, a: usize, b: usize, word: &str) -> (r: bool)
    requires
        a <= b <= chars@.len(),
    ensures
        r == (chars@.subrange(a as int, b as int) == word@),
{
    let n = word.unicode_len();
    if b - a != n {
        proof {
            assert(chars@.subrange(a as int, b as int).len() != word@.len());
        }
        return false;
    }
    let mut k: usize = 0;
    while k < n
        invariant
            k <= n,
            n == word@.len(),
            b - a == n,
            a <= b <= chars@.len(),
            forall|m: int| 0 <= m < k ==> chars@[a + m] == word@[m],
        decreases n - k,
    {
        if chars[a + k] != word.get_char(k) {
            proof {
                assert(chars@.subrange(a as int, b as int)[k as int] != word@[k as int]);
            }
            return false;
        }
        k = k + 1;
    }
    proof {
        assert(chars@.subrange(a as int, b as int) =~= word@);
    }
    true
}

/// Whether two strings hold the same characters.
pub fn str_eq(a: &str, b: &str) -> (r: bool)
    ensures
        r == (a@ == b@),
{
    let n = a.unicode_len();
    if n != b.unicode_len() {
        return false;
    }
    let mut k: usize = 0;
    while k < n
        invariant
            k <= n,
            n == a@.len(),
            n == b@.len(),
            forall|m: int| 0 <= m < k ==> a@[m] == b@[m],
        decreases n - k,
    {
        if a.get_char(k) != b.get_char(k) {
            return false;
        }
        k = k + 1;
    }
    proof {
        assert(a@ =~= b@);
    }
    true
}

/// Whether `s` starts with the character `c`.
pub fn starts_with_char(s: &str, c: char) -> (r: bool)
    ensures
        r == (s@.len() > 0 && s@[0] == c),
{
    s.unicode_len() > 0 && s.get_char(0) == c
}

/// `s` without its first character.
pub fn skip_first_char(s: &str) -> (r: String)
    requires
        s@.len() > 0,
    ensures
        r@ == s@.skip(1),
{
    let n = s.unicode_len();
    let r = s.substring_char(1, n).to_owned();
    proof {
        assert(r@ =~= s@.skip(1));
    }
    r
}

/// The digit character for `d` (below ten).
pub open spec fn digit_char(d: nat) -> char {
    if d == 0 { '0' } else if d == 1 { '1' } else if d == 2 { '2' } else if d == 3 { '3' }
    else if d == 4 { '4' } else if d == 5 { '5' } else if d == 6 { '6' } else if d == 7 { '7' }
    else if d == 8 { '8' } else { '9' }
}

/// The decimal digits of `n`, most significant first, without leading zeros.
pub open spec fn decimal(n: nat) -> Seq<char>
    decreases n,
{
    if n < 10 {
        seq![digit_char(n)]
    } else {
        decimal(n / 10).push(digit_char(n % 10))
    }
}

fn digit_str(d: u32) -> (s: &'static str)
    requires
        d < 10,
    ensures
        s@ == seq![digit_char(d as nat)],
{
    proof {
        reveal_strlit("0");
        reveal_strlit("1");
        reveal_strlit("2");
        reveal_strlit("3");
        reveal_strlit("4");
        reveal_strlit("5");
        reveal_strlit("6");
        reveal_strlit("7");
        reveal_strlit("8");
        reveal_strlit("9");
    }
    let s = if d == 0 { "0" } else if d == 1 { "1" } else if d == 2 { "2" } else if d == 3 { "3" }
    else if d == 4 { "4" } else if d == 5 { "5" } else if d == 6 { "6" } else if d == 7 { "7" }
    else if d == 8 { "8" } else { "9" };
    assert(s@ =~= seq![digit_char(d as nat)]);
    s
}

/// `n` written in decimal.
pub fn decimal_string(n: u32) -> (s: String)
    ensures
        s@ == decimal(n as nat),
    decreases n,
{
    if n < 10 {
        digit_str(n).to_owned()
    } else {
        let s = decimal_string(n / 10).concat(digit_str(n % 10));
        proof {
            assert(s@ =~= decimal((n / 10) as nat).push(digit_char((n % 10) as nat)));
        }
        s
    }
}

} // verus!
