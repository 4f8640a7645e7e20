use vstd::prelude::*;
use vstd::std_specs::iter::IteratorSpec;
use vstd::string::*;

verus! {

/// Whether `c` separates words: the code points that Unicode gives the
/// property White_Space.
pub open spec fn is_whitespace(c: char) -> bool {
    let u = c as u32;
    ||| 0x09 <= u <= 0x0D
    ||| u == 0x20
    ||| u == 0x85
    ||| u == 0xA0
    ||| u == 0x1680
    ||| 0x2000 <= u <= 0x200A
    ||| u == 0x2028
    ||| u == 0x2029
    ||| u == 0x202F
    ||| u == 0x205F
    ||| u == 0x3000
}

/// Decides [`is_whitespace`].
pub fn char_is_whitespace(c: char) -> (b: bool)
    ensures
        b == is_whitespace(c),
{
    let u: u32 = c as u32;
    (0x09 <= u && u <= 0x0D) || u == 0x20 || u == 0x85 || u == 0xA0 || u == 0x1680 || (0x2000 <= u
        && u <= 0x200A) || u == 0x2028 || u == 0x2029 || u == 0x202F || u == 0x205F || u == 0x3000
}

/// How many characters at the front of `s` are whitespace (`blank`) or are
/// not (`!blank`): the length of the longest such run.
pub open spec fn run_len(s: Seq<char>, blank: bool) -> nat
    decreases s.len(),
{
    if s.len() > 0 && is_whitespace(s[0]) == blank {
        1 + run_len(s.skip(1), blank)
    } else {
        0
    }
}

/// The words of `s`: its maximal runs of characters that are not
/// whitespace, from left to right.
pub open spec fn words(s: Seq<char>) -> Seq<Seq<char>>
    decreases s.len(),
    via words_terminates
{
    let rest = s.skip(run_len(s, true) as int);
    let n = run_len(rest, false);
    if n == 0 {
        Seq::empty()
    } else {
        seq![rest.take(n as int)] + words(rest.skip(n as int))
    }
}

#[via_fn]
proof fn words_terminates(s: Seq<char>) {
    lemma_run_len_bound(s, true);
    lemma_run_len_bound(s.skip(run_len(s, true) as int), false);
}

/// A run ends inside `s`, holds characters of one kind only, and is
/// followed by the end of `s` or by a character of the other kind.
pub proof fn lemma_run_len_bound(s: Seq<char>, blank: bool)
    ensures
        run_len(s, blank) <= s.len(),
        forall|i: int| 0 <= i < run_len(s, blank) ==> is_whitespace(#[trigger] s[i]) == blank,
        run_len(s, blank) < s.len() ==> is_whitespace(s[run_len(s, blank) as int]) != blank,
    decreases s.len(),
{
    if s.len() > 0 && is_whitespace(s[0]) == blank {
        let t = s.skip(1);
        lemma_run_len_bound(t, blank);
        assert forall|i: int| 0 <= i < run_len(s, blank) implies is_whitespace(#[trigger] s[i])
            == blank by {
            if i > 0 {
                assert(s[i] == t[i - 1]);
            }
        }
        if run_len(s, blank) < s.len() {
            assert(s[run_len(s, blank) as int] == t[run_len(t, blank) as int]);
        }
    }
}

/// A run is known by its end: `k` characters of one kind, then the end of
/// `s` or a character of the other kind.
pub proof fn lemma_run_len_is(s: Seq<char>, blank: bool, k: nat)
    requires
        k <= s.len(),
        forall|i: int| 0 <= i < k ==> is_whitespace(#[trigger] s[i]) == blank,
        k < s.len() ==> is_whitespace(s[k as int]) != blank,
    ensures
        run_len(s, blank) == k,
    decreases k,
{
    if k > 0 {
        let t = s.skip(1);
        assert forall|i: int| 0 <= i < k - 1 implies is_whitespace(#[trigger] t[i]) == blank by {
            assert(t[i] == s[i + 1]);
        }
        lemma_run_len_is(t, blank, (k - 1) as nat);
    }
}

/// Splits `s` into its words. The text is read once; each word is then
/// cut out of it.
pub fn split_whitespace(s: &str) -> (out: Vec<String>)
    ensures
        out.deep_view() == words(s@),
{
    broadcast use vstd::string::group_string_axioms;

    let n: usize = s.unicode_len();
    let mut out: Vec<String> = Vec::new();
    let mut it = s.chars();
    let mut i: usize = 0;
    // where the word that is being read began, if one is
    let mut start: Option<usize> = None;
    proof {
        assert(s@.skip(0) =~= s@);
        assert(out.deep_view() + words(s@) =~= words(s@));
    }
    loop
        invariant
            n == s@.len(),
            i <= n,
            it.remaining() == s@.skip(i as int),
            it.obeys_prophetic_iter_laws(),
            match start {
                Some(b) => {
                    &&& b < i
                    &&& forall|j: int| b <= j < i ==> !is_whitespace(#[trigger] s@[j])
                    &&& words(s@) == out.deep_view() + words(s@.skip(b as int))
                },
                None => words(s@) == out.deep_view() + words(s@.skip(i as int)),
            },
        ensures
            i == n,
        decreases n - i,
    {
        match it.next() {
            None => {
                break ;
            },
            Some(c) => {
                assert(c == s@[i as int]);
                assert(it.remaining() == s@.skip(i + 1)) by {
                    assert(s@.skip(i as int).drop_first() =~= s@.skip(i + 1));
                }
                if char_is_whitespace(c) {
                    proof {
                        lemma_blank_at(s@, i as int);
                    }
                    match start {
                        Some(b) => {
                            let word = s.substring_char(b, i).to_owned();
                            proof {
                                lemma_word_at(s@, b as int, i as int);
                                lemma_push_word(out.deep_view(), word@, words(s@.skip(i + 1)));
                            }
                            out.push(word);
                            start = None;
                        },
                        None => {},
                    }
                } else {
                    if start.is_none() {
                        start = Some(i);
                    }
                }
                i = i + 1;
            },
        }
    }
    proof {
        lemma_words_of_blank(s@.skip(n as int));
    }
    match start {
        Some(b) => {
            let word = s.substring_char(b, n).to_owned();
            proof {
                lemma_word_at(s@, b as int, n as int);
                lemma_push_word(out.deep_view(), word@, Seq::empty());
            }
            out.push(word);
        },
        None => {},
    }
    assert(out.deep_view() + Seq::<Seq<char>>::empty() =~= out.deep_view());
    out
}

/// Appending a word to the words read so far takes it from the front of
/// the words still to come.
proof fn lemma_push_word(read: Seq<Seq<char>>, word: Seq<char>, rest: Seq<Seq<char>>)
    ensures
        read + (seq![word] + rest) == read.push(word) + rest,
{
    assert(read + (seq![word] + rest) =~= read.push(word) + rest);
}

/// Every word holds a character, and no word holds whitespace.
pub proof fn lemma_words_hold_no_whitespace(s: Seq<char>)
    ensures
        forall|k: int|
            0 <= k < words(s).len() ==> (#[trigger] words(s)[k]).len() > 0 && forall|j: int|
                0 <= j < words(s)[k].len() ==> !is_whitespace(#[trigger] words(s)[k][j]),
    decreases s.len(),
{
    lemma_run_len_bound(s, true);
    let rest = s.skip(run_len(s, true) as int);
    let n = run_len(rest, false);
    lemma_run_len_bound(rest, false);
    if n > 0 {
        let first = rest.take(n as int);
        let more = words(rest.skip(n as int));
        lemma_words_hold_no_whitespace(rest.skip(n as int));
        assert forall|k: int| 0 <= k < words(s).len() implies (#[trigger] words(s)[k]).len() > 0
            && forall|j: int|
            0 <= j < words(s)[k].len() ==> !is_whitespace(#[trigger] words(s)[k][j]) by {
            if k == 0 {
                assert(words(s)[0] == first);
                assert forall|j: int| 0 <= j < first.len() implies !is_whitespace(
                    #[trigger] first[j],
                ) by {
                    assert(first[j] == rest[j]);
                }
            } else {
                assert(words(s)[k] == more[k - 1]);
            }
        }
    }
}

/// Text that holds nothing but whitespace has no words.
pub proof fn lemma_words_of_blank(s: Seq<char>)
    requires
        forall|i: int| 0 <= i < s.len() ==> is_whitespace(#[trigger] s[i]),
    ensures
        words(s) == Seq::<Seq<char>>::empty(),
{
    lemma_run_len_is(s, true, s.len());
    let rest = s.skip(s.len() as int);
    assert(rest.len() == 0);
}

/// Whitespace at the front of a text does not change its words.
proof fn lemma_blank_at(s: Seq<char>, i: int)
    requires
        0 <= i < s.len(),
        is_whitespace(s[i]),
    ensures
        words(s.skip(i)) == words(s.skip(i + 1)),
{
    let a = s.skip(i);
    let b = s.skip(i + 1);
    assert(a.skip(1) =~= b);
    assert(a[0] == s[i]);
    assert(run_len(a, true) == 1 + run_len(b, true));
    lemma_run_len_bound(b, true);
    assert(a.skip(run_len(a, true) as int) =~= b.skip(run_len(b, true) as int));
}

/// A word that begins at `b` and ends before the whitespace at `e`, or at
/// the end of the text, is the first word of what begins at `b`.
proof fn lemma_word_at(s: Seq<char>, b: int, e: int)
    requires
        0 <= b < e <= s.len(),
        forall|j: int| b <= j < e ==> !is_whitespace(#[trigger] s[j]),
        e < s.len() ==> is_whitespace(s[e]),
    ensures
        words(s.skip(b)) == seq![s.subrange(b, e)] + words(s.skip(e)),
{
    let a = s.skip(b);
    assert(!is_whitespace(a[0])) by {
        assert(a[0] == s[b]);
    }
    assert(run_len(a, true) == 0);
    assert(a.skip(0) =~= a);
    assert forall|j: int| 0 <= j < e - b implies !is_whitespace(#[trigger] a[j]) by {
        assert(a[j] == s[b + j]);
    }
    if e < s.len() {
        assert(a[e - b] == s[e]);
    }
    lemma_run_len_is(a, false, (e - b) as nat);
    assert(a.take(e - b) =~= s.subrange(b, e));
    assert(a.skip(e - b) =~= s.skip(e));
}

/// The character that writes the digit `d`.
pub open spec fn digit(d: nat) -> char
    recommends
        d < 10,
{
    if d == 0 {
        '0'
    } else if d == 1 {
        '1'
    } else if d == 2 {
        '2'
    } else if d == 3 {
        '3'
    } else if d == 4 {
        '4'
    } else if d == 5 {
        '5'
    } else if d == 6 {
        '6'
    } else if d == 7 {
        '7'
    } else if d == 8 {
        '8'
    } else {
        '9'
    }
}

/// `n` written in base ten, without leading zeros.
pub open spec fn decimal(n: nat) -> Seq<char>
    decreases n,
{
    if n < 10 {
        seq![digit(n)]
    } else {
        decimal(n / 10).push(digit(n % 10))
    }
}

fn digit_str(d: u64) -> (s: &'static str)
    requires
        d < 10,
    ensures
        s@ == seq![digit(d as nat)],
{
    proof {
        reveal_strlit("0");
        reveal_strlit("1");
        reveal_strlit("2");
        reveal_strlit("3");
        reveal_strlit("4");
        reveal_strlit("5");
        reveal_strlit("6");
        reveal_strlit("7");
        reveal_strlit("8");
        reveal_strlit("9");
    }
    let s = if d == 0 {
        "0"
    } else if d == 1 {
        "1"
    } else if d == 2 {
        "2"
    } else if d == 3 {
        "3"
    } else if d == 4 {
        "4"
    } else if d == 5 {
        "5"
    } else if d == 6 {
        "6"
    } else if d == 7 {
        "7"
    } else if d == 8 {
        "8"
    } else {
        "9"
    };
    assert(s@ =~= seq![digit(d as nat)]);
    s
}

/// Writes `n` in base ten at the end of `out`.
pub fn push_decimal(out: &mut String, n: u64)
    ensures
        final(out)@ == old(out)@ + decimal(n as nat),
    decreases n,
{
    if n >= 10 {
        push_decimal(out, n / 10);
    }
    out.append(digit_str(n % 10));
    assert(out@ =~= old(out)@ + decimal(n as nat));
}

} // verus!
