//! Text helpers: decimal rendering of integers and splitting on whitespace.

use vstd::prelude::*;
use vstd::string::*;

verus! {

/// The ten decimal digits, in order.
pub open spec fn digits() -> Seq<char> {
    seq!['0', '1', '2', '3', '4', '5', '6', '7', '8', '9']
}

/// Decimal digits of a natural number, most significant first, without
/// leading zeros (`0` itself is the single digit `0`).
pub open spec fn natural_digits(n: nat) -> Seq<char>
    decreases n,
{
    if n < 10 {
        seq![digits()[n as int]]
    } else {
        natural_digits(n / 10).push(digits()[(n % 10) as int])
    }
}

/// Decimal rendering of an integer: a minus sign for negative numbers,
/// then the digits of the magnitude.
pub open spec fn decimal(n: int) -> Seq<char> {
    if n < 0 {
        seq!['-'] + natural_digits((-n) as nat)
    } else {
        natural_digits(n as nat)
    }
}

/// The one-character text of a decimal digit.
fn digit_text(d: u8) -> (s: &'static str)
    requires
        d < 10,
    ensures
        s@ == seq![digits()[d as int]],
{
    proof {
        reveal_strlit("0");
        reveal_strlit("1");
        reveal_strlit("2");
        reveal_strlit("3");
        reveal_strlit("4");
        reveal_strlit("5");
        reveal_strlit("6");
        reveal_strlit("7");
        reveal_strlit("8");
        reveal_strlit("9");
    }
    let s = match d {
        0 => "0",
        1 => "1",
        2 => "2",
        3 => "3",
        4 => "4",
        5 => "5",
        6 => "6",
        7 => "7",
        8 => "8",
        _ => "9",
    };
    assert(s@ =~= seq![digits()[d as int]]);
    s
}

/// Renders a natural number in decimal.
pub fn natural_to_string(n: u128) -> (s: String)
    ensures
        s@ == natural_digits(n as nat),
    decreases n,
{
    if n < 10 {
        digit_text(n as u8).to_owned()
    } else {
        let mut s = natural_to_string(n / 10);
        s.append(digit_text((n % 10) as u8));
        s
    }
}

/// Renders an integer in decimal.
pub fn integer_to_string(n: i128) -> (s: String)
    ensures
        s@ == decimal(n as int),
{
    if n < 0 {
        let magnitude: u128 = ((-(n + 1)) as u128) + 1;
        let digits = natural_to_string(magnitude);
        let s = String::from_str("-").concat(digits.as_str());
        proof {
            reveal_strlit("-");
            assert(s@ =~= seq!['-'] + natural_digits((-n) as nat));
        }
        s
    } else {
        natural_to_string(n as u128)
    }
}

/// The characters of each text of a list, in order.
pub open spec fn texts(list: Seq<String>) -> Seq<Seq<char>> {
    list.map_values(|t: String| t@)
}

/// Whether a character is white space: one of the code points with the
/// Unicode property `White_Space`.
pub open spec fn white_space(c: char) -> bool {
    let n = c as u32;
    ||| 0x09 <= n <= 0x0D
    ||| n == 0x20
    ||| n == 0x85
    ||| n == 0xA0
    ||| n == 0x1680
    ||| 0x2000 <= n <= 0x200A
    ||| n == 0x2028
    ||| n == 0x2029
    ||| n == 0x202F
    ||| n == 0x205F
    ||| n == 0x3000
}

/// Whether a character is white space.
pub fn is_white_space(c: char) -> (r: bool)
    ensures
        r == white_space(c),
{
    let n = c as u32;
    (0x09 <= n && n <= 0x0D) || n == 0x20 || n == 0x85 || n == 0xA0 || n == 0x1680 || (0x2000 <= n
        && n <= 0x200A) || n == 0x2028 || n == 0x2029 || n == 0x202F || n == 0x205F || n == 0x3000
}

/// The length of the longest prefix of `s` that holds no white space.
pub open spec fn word_len(s: Seq<char>) -> nat
    decreases s.len(),
{
    if s.len() == 0 || white_space(s[0]) {
        0
    } else {
        1 + word_len(s.drop_first())
    }
}

/// The words of a text: its maximal runs of characters that are not white
/// space, from left to right.
pub open spec fn words(s: Seq<char>) -> Seq<Seq<char>>
    decreases s.len(),
{
    if s.len() == 0 {
        Seq::empty()
    } else if white_space(s[0]) {
        words(s.drop_first())
    } else {
        let n = word_len(s) as int;
        if 0 < n <= s.len() {
            seq![s.take(n)] + words(s.skip(n))
        } else {
            Seq::empty()
        }
    }
}

/// A word that starts a text ends at the first white space or at the end
/// of the text, and holds no white space.
pub proof fn lemma_word_len(s: Seq<char>)
    ensures
        word_len(s) <= s.len(),
        forall|k: int| 0 <= k < word_len(s) ==> !white_space(#[trigger] s[k]),
        word_len(s) < s.len() ==> white_space(s[word_len(s) as int]),
    decreases s.len(),
{
    if s.len() == 0 || white_space(s[0]) {
    } else {
        let t = s.drop_first();
        lemma_word_len(t);
        assert forall|k: int| 0 <= k < word_len(s) implies !white_space(#[trigger] s[k]) by {
            if k > 0 {
                assert(s[k] == t[k - 1]);
            }
        }
        if word_len(s) < s.len() {
            assert(s[word_len(s) as int] == t[word_len(t) as int]);
        }
    }
}

/// A run of `n` characters without white space that ends at a white space
/// or at the end of the text is the word that starts the text.
pub proof fn lemma_word_len_is(s: Seq<char>, n: int)
    requires
        0 <= n <= s.len(),
        forall|k: int| 0 <= k < n ==> !white_space(#[trigger] s[k]),
        n < s.len() ==> white_space(s[n]),
    ensures
        word_len(s) == n,
    decreases n,
{
    if n == 0 {
    } else {
        let t = s.drop_first();
        assert forall|k: int| 0 <= k < n - 1 implies !white_space(#[trigger] t[k]) by {
            assert(t[k] == s[k + 1]);
        }
        if n - 1 < t.len() {
            assert(t[n - 1] == s[n]);
        }
        lemma_word_len_is(t, n - 1);
    }
}

/// Whether a text is one word: non-empty and without white space.
pub open spec fn is_word(w: Seq<char>) -> bool {
    &&& w.len() > 0
    &&& forall|k: int| 0 <= k < w.len() ==> !white_space(#[trigger] w[k])
}

/// Every element of `words(s)` is a word.
pub proof fn lemma_words_are_words(s: Seq<char>)
    ensures
        forall|i: int| 0 <= i < words(s).len() ==> is_word(#[trigger] words(s)[i]),
    decreases s.len(),
{
    if s.len() == 0 {
        assert(words(s).len() == 0);
    } else if white_space(s[0]) {
        lemma_words_are_words(s.drop_first());
        assert(words(s) == words(s.drop_first()));
    } else {
        let n = word_len(s) as int;
        lemma_word_len(s);
        lemma_words_are_words(s.skip(n));
        let rest = words(s.skip(n));
        let first = s.take(n);
        assert(words(s) == seq![first] + rest);
        assert(is_word(first)) by {
            assert forall|k: int| 0 <= k < first.len() implies !white_space(#[trigger] first[k]) by {
                assert(first[k] == s[k]);
            }
        }
        assert forall|i: int| 0 <= i < words(s).len() implies is_word(#[trigger] words(s)[i]) by {
            if i > 0 {
                assert(words(s)[i] == rest[i - 1]);
            }
        }
    }
}

/// Splits a text into its words.
pub fn split_whitespace(s: &str) -> (r: Vec<String>)
    ensures
        texts(r@) == words(s@),
{
    let n = s.unicode_len();
    let mut out: Vec<String> = Vec::new();
    let mut i: usize = 0;
    assert(s@.skip(0) =~= s@);
    assert(texts(out@) =~= Seq::empty());
    while i < n
        invariant
            i <= n,
            n == s@.len(),
            texts(out@) + words(s@.skip(i as int)) == words(s@),
        decreases n - i,
    {
        let ghost tail = s@.skip(i as int);
        if is_white_space(s.get_char(i)) {
            assert(tail.drop_first() =~= s@.skip(i + 1));
            i += 1;
        } else {
            let start = i;
            while i < n && !is_white_space(s.get_char(i))
                invariant
                    start <= i <= n,
                    n == s@.len(),
                    forall|k: int| start <= k < i ==> !white_space(#[trigger] s@[k]),
                decreases n - i,
            {
                i += 1;
            }
            let word = s.substring_char(start, i).to_owned();
            proof {
                let len = i - start;
                assert forall|k: int| 0 <= k < len implies !white_space(#[trigger] tail[k]) by {
                    assert(tail[k] == s@[start + k]);
                }
                lemma_word_len_is(tail, len);
                assert(tail.take(len) =~= s@.subrange(start as int, i as int));
                assert(tail.skip(len) =~= s@.skip(i as int));
                assert(words(tail) == seq![word@] + words(s@.skip(i as int)));
                assert(texts(out@.push(word)) =~= texts(out@).push(word@));
                assert(texts(out@).push(word@) + words(s@.skip(i as int)) =~= texts(out@) + words(
                    tail,
                ));
            }
            out.push(word);
        }
    }
    assert(words(s@.skip(n as int)) =~= Seq::empty());
    assert(texts(out@) + Seq::<Seq<char>>::empty() =~= texts(out@));
    out
}

} // verus!
