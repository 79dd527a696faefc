//! Splitting a formula into its tokens.
//!
//! A token is a maximal run of characters that are not whitespace. The tokens
//! of a formula are those runs in reading order; whitespace only separates
//! them and never yields an empty token.

use vstd::prelude::*;

verus! {

/// Whether `c` is whitespace: a character with the Unicode property
/// `White_Space`.
pub open spec fn is_space(c: char) -> bool {
    let u = c as u32;
    ||| 0x09 <= u <= 0x0D
    ||| u == 0x20
    ||| u == 0x85
    ||| u == 0xA0
    ||| u == 0x1680
    ||| 0x2000 <= u <= 0x200A
    ||| u == 0x2028
    ||| u == 0x2029
    ||| u == 0x202F
    ||| u == 0x205F
    ||| u == 0x3000
}

/// The number of characters before the first whitespace of `s`, or the whole
/// length of `s` where it holds none.
pub open spec fn word_len(s: Seq<char>) -> nat
    decreases s.len(),
{
    if s.len() == 0 || is_space(s[0]) {
        0
    } else {
        1 + word_len(s.drop_first())
    }
}

/// A word is no longer than the text it starts, and is not empty where that
/// text starts with a character that is not whitespace.
pub proof fn lemma_word_len_bounds(s: Seq<char>)
    ensures
        word_len(s) <= s.len(),
        s.len() > 0 && !is_space(s[0]) ==> word_len(s) >= 1,
    decreases s.len(),
{
    if s.len() > 0 && !is_space(s[0]) {
        lemma_word_len_bounds(s.drop_first());
    }
}

/// The tokens of `s`, in reading order.
pub open spec fn split(s: Seq<char>) -> Seq<Seq<char>>
    decreases s.len(),
    via split_decreases
{
    if s.len() == 0 {
        Seq::empty()
    } else if is_space(s[0]) {
        split(s.drop_first())
    } else {
        let n = word_len(s) as int;
        seq![s.take(n)] + split(s.skip(n))
    }
}

#[via_fn]
proof fn split_decreases(s: Seq<char>) {
    lemma_word_len_bounds(s);
}

/// The texts that a vector of strings holds.
pub open spec fn texts(v: Seq<String>) -> Seq<Seq<char>> {
    Seq::new(v.len(), |i: int| v[i]@)
}

/// Whether `s` holds no whitespace.
pub open spec fn no_space(s: Seq<char>) -> bool {
    forall|i: int| 0 <= i < s.len() ==> !is_space(#[trigger] s[i])
}

/// Whether `s` holds nothing but whitespace.
pub open spec fn all_space(s: Seq<char>) -> bool {
    forall|i: int| 0 <= i < s.len() ==> is_space(#[trigger] s[i])
}

/// The word at the start of `s` holds no whitespace, and whitespace or the
/// end of `s` follows it.
pub proof fn lemma_word_is_maximal(s: Seq<char>)
    ensures
        no_space(s.take(word_len(s) as int)),
        word_len(s) < s.len() ==> is_space(s[word_len(s) as int]),
    decreases s.len(),
{
    lemma_word_len_bounds(s);
    if s.len() > 0 && !is_space(s[0]) {
        let rest = s.drop_first();
        lemma_word_is_maximal(rest);
        lemma_word_len_bounds(rest);
        let n = word_len(s) as int;
        assert forall|i: int| 0 <= i < n implies !is_space(#[trigger] s.take(n)[i]) by {
            if i > 0 {
                assert(s.take(n)[i] == rest.take(n - 1)[i - 1]);
            }
        }
        if n < s.len() {
            assert(s[n] == rest[n - 1]);
        }
    }
}

/// A text without whitespace is one word.
pub proof fn lemma_word_len_without_space(s: Seq<char>)
    requires
        no_space(s),
    ensures
        word_len(s) == s.len(),
    decreases s.len(),
{
    if s.len() > 0 {
        let rest = s.drop_first();
        assert(!is_space(s[0]));
        assert forall|i: int| 0 <= i < rest.len() implies !is_space(#[trigger] rest[i]) by {
            assert(rest[i] == s[i + 1]);
        }
        lemma_word_len_without_space(rest);
    }
}

/// A text that is not empty and holds no whitespace is its own single token.
pub proof fn lemma_split_single_word(s: Seq<char>)
    requires
        s.len() > 0,
        no_space(s),
    ensures
        split(s) == seq![s],
{
    lemma_word_len_without_space(s);
    assert(!is_space(s[0]));
    let n = s.len() as int;
    assert(s.take(n) == s);
    assert(s.skip(n).len() == 0);
    assert(split(s.skip(n)) == Seq::<Seq<char>>::empty());
    assert(seq![s] + Seq::<Seq<char>>::empty() =~= seq![s]);
}

/// A text that holds nothing but whitespace has no token.
pub proof fn lemma_split_blank(s: Seq<char>)
    requires
        all_space(s),
    ensures
        split(s).len() == 0,
    decreases s.len(),
{
    if s.len() > 0 {
        let rest = s.drop_first();
        assert(is_space(s[0]));
        assert forall|i: int| 0 <= i < rest.len() implies is_space(#[trigger] rest[i]) by {
            assert(rest[i] == s[i + 1]);
        }
        lemma_split_blank(rest);
    }
}

/// Every token is a word: it is not empty and holds no whitespace.
pub proof fn lemma_tokens_are_words(s: Seq<char>, i: int)
    requires
        0 <= i < split(s).len(),
    ensures
        split(s)[i].len() > 0,
        no_space(split(s)[i]),
    decreases s.len(),
{
    if s.len() == 0 {
    } else if is_space(s[0]) {
        lemma_tokens_are_words(s.drop_first(), i);
    } else {
        lemma_word_len_bounds(s);
        lemma_word_is_maximal(s);
        let n = word_len(s) as int;
        if i > 0 {
            lemma_tokens_are_words(s.skip(n), i - 1);
        }
    }
}

/// Tells whether `c` is whitespace.
pub fn is_whitespace(c: char) -> (b: bool)
    ensures
        b == is_space(c),
{
    let u: u32 = c as u32;
    (0x09 <= u && u <= 0x0D) || u == 0x20 || u == 0x85 || u == 0xA0 || u == 0x1680 || (0x2000 <= u
        && u <= 0x200A) || u == 0x2028 || u == 0x2029 || u == 0x202F || u == 0x205F || u == 0x3000
}

/// The characters of `s`, one by one.
pub fn to_chars(s: &str) -> (v: Vec<char>)
    ensures
        v@ == s@,
{
    let mut v: Vec<char> = Vec::new();
    for c in it: s.chars()
        invariant
            v@ == it.seq().take(it.index() as int),
            it.seq() == s@,
    {
        v.push(c);
    }
    v
}

/// Splits `formula` into its tokens, in reading order.
pub fn tokenize(formula: &str) -> (tokens: Vec<String>)
    ensures
        texts(tokens@) == split(formula@),
{
    let chars = to_chars(formula);
    let n = chars.len();
    let ghost s = formula@;
    let mut tokens: Vec<String> = Vec::new();
    let mut i: usize = 0;
    assert(s.skip(0) == s);
    while i < n
        invariant
            chars@ == s,
            s == formula@,
            n == s.len(),
            i <= n,
            split(s) == texts(tokens@) + split(s.skip(i as int)),
        decreases n - i,
    {
        let start = i;
        let ghost rest = s.skip(start as int);
        if is_whitespace(chars[i]) {
            assert(rest.drop_first() == s.skip(start + 1));
            i += 1;
        } else {
            i += 1;
            assert(rest.drop_first() == s.skip(start + 1));
            while i < n && !is_whitespace(chars[i])
                invariant
                    chars@ == s,
                    n == s.len(),
                    start < i <= n,
                    word_len(rest) == (i - start) + word_len(s.skip(i as int)),
                decreases n - i,
            {
                assert(s.skip(i as int).drop_first() == s.skip(i + 1));
                i += 1;
            }
            let text = formula.substring_char(start, i).to_owned();
            proof {
                let len = (i - start) as int;
                assert(word_len(rest) == len);
                assert(rest.take(len) == s.subrange(start as int, i as int));
                assert(rest.skip(len) == s.skip(i as int));
                assert(texts(tokens@.push(text)) == texts(tokens@) + seq![text@]);
            }
            tokens.push(text);
        }
    }
    tokens
}

} // verus!
