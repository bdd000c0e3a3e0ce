//! Comparisons of strings by their characters.

use vstd::prelude::*;
use vstd::string::*;

verus! {

/// Whether two strings hold the same characters.
pub fn str_eq(a: &str, b: &str) -> (r: bool)
    ensures
        r == (a@ == b@),
{
    let n = a.unicode_len();
    if n != b.unicode_len() {
        return false;
    }
    let mut i: usize = 0;
    while i < n
        invariant
            n == a@.len(),
            n == b@.len(),
            i <= n,
            forall|j: int| 0 <= j < i ==> a@[j] == b@[j],
        decreases n - i,
    {
        if a.get_char(i) != b.get_char(i) {
            return false;
        }
        i = i + 1;
    }
    assert(a@ =~= b@);
    true
}

/// Whether a character has the Unicode `White_Space` property (what `char::is_whitespace` tests).
pub open spec fn spec_is_whitespace(c: char) -> bool {
    let u = c as u32;
    ||| 0x09 <= u <= 0x0D
    ||| u == 0x20
    ||| u == 0x85
    ||| u == 0xA0
    ||| u == 0x1680
    ||| 0x2000 <= u <= 0x200A
    ||| u == 0x2028
    ||| u == 0x2029
    ||| u == 0x202F
    ||| u == 0x205F
    ||| u == 0x3000
}

/// The string without its leading whitespace.
pub open spec fn spec_trim_start(s: Seq<char>) -> Seq<char>
    decreases s.len(),
{
    if s.len() > 0 && spec_is_whitespace(s[0]) {
        spec_trim_start(s.drop_first())
    } else {
        s
    }
}

/// The string without its trailing whitespace.
pub open spec fn spec_trim_end(s: Seq<char>) -> Seq<char>
    decreases s.len(),
{
    if s.len() > 0 && spec_is_whitespace(s.last()) {
        spec_trim_end(s.drop_last())
    } else {
        s
    }
}

/// The string without leading and trailing whitespace (what `str::trim` gives).
pub open spec fn spec_trim(s: Seq<char>) -> Seq<char> {
    spec_trim_end(spec_trim_start(s))
}

/// The complete words of a string and the word still being read at its end: words are the
/// maximal runs of characters that are not whitespace.
pub open spec fn spec_split_words(s: Seq<char>) -> (Seq<Seq<char>>, Seq<char>)
    decreases s.len(),
{
    if s.len() == 0 {
        (Seq::empty(), Seq::empty())
    } else {
        let (words, cur) = spec_split_words(s.drop_last());
        if spec_is_whitespace(s.last()) {
            if cur.len() > 0 {
                (words.push(cur), Seq::empty())
            } else {
                (words, Seq::empty())
            }
        } else {
            (words, cur.push(s.last()))
        }
    }
}

/// The words of a string, in order (what `str::split_whitespace` gives).
pub open spec fn spec_words(s: Seq<char>) -> Seq<Seq<char>> {
    let (words, cur) = spec_split_words(s);
    if cur.len() > 0 {
        words.push(cur)
    } else {
        words
    }
}

/// A string of whitespace only has no words.
pub proof fn lemma_blank_has_no_words(s: Seq<char>)
    requires
        forall|i: int| 0 <= i < s.len() ==> spec_is_whitespace(#[trigger] s[i]),
    ensures
        spec_split_words(s) == (Seq::<Seq<char>>::empty(), Seq::<char>::empty()),
        spec_words(s) == Seq::<Seq<char>>::empty(),
    decreases s.len(),
{
    if s.len() > 0 {
        let rest = s.drop_last();
        assert(forall|i: int| 0 <= i < rest.len() ==> #[trigger] rest[i] == s[i]);
        lemma_blank_has_no_words(rest);
        assert(spec_is_whitespace(s[s.len() - 1]));
    }
}

/// A string without whitespace, after any whitespace, is one word being read.
proof fn lemma_word_tail(pre: Seq<char>, w: Seq<char>)
    requires
        forall|i: int| 0 <= i < pre.len() ==> spec_is_whitespace(#[trigger] pre[i]),
        forall|i: int| 0 <= i < w.len() ==> !spec_is_whitespace(#[trigger] w[i]),
    ensures
        spec_split_words(pre + w) == (Seq::<Seq<char>>::empty(), w),
    decreases w.len(),
{
    if w.len() == 0 {
        assert(pre + w =~= pre);
        lemma_blank_has_no_words(pre);
    } else {
        let w0 = w.drop_last();
        assert(forall|i: int| 0 <= i < w0.len() ==> #[trigger] w0[i] == w[i]);
        lemma_word_tail(pre, w0);
        assert((pre + w).drop_last() =~= pre + w0);
        assert((pre + w).last() == w.last());
        assert(w0.push(w.last()) =~= w);
    }
}

/// A string made of whitespace and then one run of other characters has that run as its only
/// word.
pub proof fn lemma_single_word(pre: Seq<char>, w: Seq<char>)
    requires
        w.len() > 0,
        forall|i: int| 0 <= i < pre.len() ==> spec_is_whitespace(#[trigger] pre[i]),
        forall|i: int| 0 <= i < w.len() ==> !spec_is_whitespace(#[trigger] w[i]),
    ensures
        spec_words(pre + w) == seq![w],
{
    lemma_word_tail(pre, w);
    assert(Seq::<Seq<char>>::empty().push(w) =~= seq![w]);
}

} // verus!
