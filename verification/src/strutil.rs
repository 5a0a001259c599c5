//! Verified string utilities: substring search, line splitting, decimal
//! rendering and padding, shared by the formatter and the reporter.

use vstd::prelude::*;
use vstd::string::*;

verus! {

/// `needle` occurs in `hay` starting at index `i`.
pub open spec fn is_match_at(hay: Seq<char>, needle: Seq<char>, i: int) -> bool {
    &&& 0 <= i
    &&& i + needle.len() <= hay.len()
    &&& hay.subrange(i, i + needle.len() as int) == needle
}

/// Index of the first occurrence of a nonempty `needle` in `hay` at or after
/// `from` (an empty needle never counts as found).
pub open spec fn first_match_from(hay: Seq<char>, needle: Seq<char>, from: int) -> Option<int>
    decreases hay.len() - from,
{
    if from < 0 || needle.len() == 0 || from + needle.len() > hay.len() {
        None
    } else if is_match_at(hay, needle, from) {
        Some(from)
    } else {
        first_match_from(hay, needle, from + 1)
    }
}

/// What a `Some` answer of `first_match_from` means: a match there, and no
/// earlier match at or after `from`.
pub proof fn lemma_first_match_some(hay: Seq<char>, needle: Seq<char>, from: int, i: int)
    requires
        first_match_from(hay, needle, from) == Some(i),
    ensures
        from <= i,
        is_match_at(hay, needle, i),
        forall|j: int| from <= j < i ==> !is_match_at(hay, needle, j),
    decreases hay.len() - from,
{
    if from < 0 || from + needle.len() > hay.len() {
    } else if is_match_at(hay, needle, from) {
    } else {
        lemma_first_match_some(hay, needle, from + 1, i);
    }
}

/// Whether `needle` occurs in `hay` at index `at`.
pub fn match_at(hay: &str, needle: &str, at: usize) -> (r: bool)
    ensures
        r == is_match_at(hay@, needle@, at as int),
{
    let hay_len = hay.unicode_len();
    let needle_len = needle.unicode_len();
    if at > hay_len || needle_len > hay_len - at {
        proof {
            if is_match_at(hay@, needle@, at as int) {
                assert(at + needle@.len() <= hay@.len());
            }
        }
        return false;
    }
    let mut k: usize = 0;
    while k < needle_len
        invariant
            at + needle_len <= hay_len,
            hay_len == hay@.len(),
            needle_len == needle@.len(),
            k <= needle_len,
            forall|t: int| 0 <= t < k ==> hay@[at + t] == needle@[t],
        decreases needle_len - k,
    {
        if hay.get_char(at + k) != needle.get_char(k) {
            proof {
                assert(hay@.subrange(at as int, at + needle@.len() as int)[k as int]
                    == hay@[at + k]);
            }
            return false;
        }
        k += 1;
    }
    proof {
        assert(hay@.subrange(at as int, at + needle@.len() as int) =~= needle@);
    }
    true
}

/// Index of the first occurrence of `needle` in `hay` at or after `from`.
pub fn find_from(hay: &str, needle: &str, from: usize) -> (r: Option<usize>)
    ensures
        r is Some <==> first_match_from(hay@, needle@, from as int) is Some,
        r is Some ==> first_match_from(hay@, needle@, from as int) == Some(r->0 as int),
        r is Some ==> is_match_at(hay@, needle@, r->0 as int),
{
    let hay_len = hay.unicode_len();
    let needle_len = needle.unicode_len();
    if needle_len == 0 || needle_len > hay_len || from > hay_len - needle_len {
        return None;
    }
    let mut i: usize = from;
    loop
        invariant
            hay_len == hay@.len(),
            needle_len == needle@.len(),
            needle_len >= 1,
            from <= i,
            i + needle_len <= hay_len,
            first_match_from(hay@, needle@, from as int) == first_match_from(
                hay@,
                needle@,
                i as int,
            ),
        decreases hay_len - i,
    {
        if match_at(hay, needle, i) {
            proof {
                assert(first_match_from(hay@, needle@, i as int) == Some(i as int));
            }
            return Some(i);
        }
        if i + needle_len >= hay_len {
            proof {
                if i + needle@.len() <= hay@.len() {
                    assert(first_match_from(hay@, needle@, i as int) == first_match_from(
                        hay@,
                        needle@,
                        i as int + 1,
                    ));
                    assert(first_match_from(hay@, needle@, i as int + 1) is None);
                }
            }
            return None;
        }
        i += 1;
    }
}

/// The lines of a text: the maximal newline-free runs, so a text with `n`
/// newline characters has `n + 1` lines (a trailing newline yields a final
/// empty line).
pub open spec fn spec_lines_of(s: Seq<char>) -> Seq<Seq<char>>
    decreases s.len(),
{
    let m = first_match_from(s, seq!['\n'], 0);
    if m is Some && 0 <= m->0 < s.len() {
        seq![s.subrange(0, m->0)] + spec_lines_of(s.subrange(m->0 + 1, s.len() as int))
    } else {
        seq![s]
    }
}

/// Splits a text into its lines.
pub fn split_lines(content: &str) -> (r: Vec<String>)
    ensures
        r.deep_view() == spec_lines_of(content@),
        r.len() >= 1,
{
    let newline: &str = "\n";
    proof {
        reveal_strlit("\n");
        assert(newline@ =~= seq!['\n']);
    }
    let mut acc: Vec<String> = Vec::new();
    let mut rest: &str = content;
    loop
        invariant
            newline@ == seq!['\n'],
            spec_lines_of(content@) =~= acc.deep_view() + spec_lines_of(rest@),
        decreases rest@.len(),
    {
        let rest_len = rest.unicode_len();
        match find_from(rest, newline, 0) {
            None => {
                let ghost old_acc = acc.deep_view();
                acc.push(String::from_str(rest));
                proof {
                    assert(acc.deep_view() =~= old_acc + seq![rest@]);
                    assert(spec_lines_of(rest@) =~= seq![rest@]);
                }
                return acc;
            },
            Some(i) => {
                proof {
                    lemma_first_match_some(rest@, newline@, 0, i as int);
                    assert(i + 1 <= rest@.len());
                }
                let ghost old_acc = acc.deep_view();
                let ghost old_rest = rest@;
                let line = rest.substring_char(0, i);
                acc.push(String::from_str(line));
                rest = rest.substring_char(i + 1, rest_len);
                proof {
                    assert(acc.deep_view() =~= old_acc + seq![old_rest.subrange(0, i as int)]);
                    assert(spec_lines_of(old_rest) =~= seq![old_rest.subrange(0, i as int)]
                        + spec_lines_of(rest@));
                    assert(spec_lines_of(content@) =~= acc.deep_view() + spec_lines_of(rest@));
                }
            },
        }
    }
}

/// The character for a decimal digit.
pub open spec fn spec_digit(d: int) -> char {
    if d == 0 {
        '0'
    } else if d == 1 {
        '1'
    } else if d == 2 {
        '2'
    } else if d == 3 {
        '3'
    } else if d == 4 {
        '4'
    } else if d == 5 {
        '5'
    } else if d == 6 {
        '6'
    } else if d == 7 {
        '7'
    } else if d == 8 {
        '8'
    } else {
        '9'
    }
}

/// The usual decimal rendering of a natural number.
pub open spec fn spec_dec(n: nat) -> Seq<char>
    decreases n,
{
    if n < 10 {
        seq![spec_digit(n as int)]
    } else {
        spec_dec(n / 10) + seq![spec_digit((n % 10) as int)]
    }
}

pub proof fn lemma_dec_len_positive(n: nat)
    ensures
        spec_dec(n).len() >= 1,
    decreases n,
{
    if n >= 10 {
        lemma_dec_len_positive(n / 10);
    }
}

/// A longer number never has a shorter decimal rendering.
pub proof fn lemma_dec_len_mono(m: nat, n: nat)
    requires
        m <= n,
    ensures
        spec_dec(m).len() <= spec_dec(n).len(),
    decreases n,
{
    if m >= 10 {
        lemma_dec_len_mono(m / 10, n / 10);
    } else if n >= 10 {
        lemma_dec_len_positive(n / 10);
    }
}

/// The decimal digit characters of a single digit.
fn digit_str(d: usize) -> (r: &'static str)
    requires
        d < 10,
    ensures
        r@ =~= seq![spec_digit(d as int)],
{
    proof {
        reveal_strlit("0");
        reveal_strlit("1");
        reveal_strlit("2");
        reveal_strlit("3");
        reveal_strlit("4");
        reveal_strlit("5");
        reveal_strlit("6");
        reveal_strlit("7");
        reveal_strlit("8");
        reveal_strlit("9");
    }
    if d == 0 {
        "0"
    } else if d == 1 {
        "1"
    } else if d == 2 {
        "2"
    } else if d == 3 {
        "3"
    } else if d == 4 {
        "4"
    } else if d == 5 {
        "5"
    } else if d == 6 {
        "6"
    } else if d == 7 {
        "7"
    } else if d == 8 {
        "8"
    } else {
        "9"
    }
}

/// Renders a number in decimal.
pub fn dec_string(n: usize) -> (r: String)
    ensures
        r@ == spec_dec(n as nat),
    decreases n,
{
    if n < 10 {
        String::from_str(digit_str(n))
    } else {
        let mut s = dec_string(n / 10);
        s.append(digit_str(n % 10));
        s
    }
}

/// The decimal rendering of `n` is never longer than `n + 1` characters.
pub proof fn lemma_dec_len_small(n: nat)
    ensures
        spec_dec(n).len() <= n + 1,
    decreases n,
{
    if n >= 10 {
        lemma_dec_len_small(n / 10);
    }
}

/// The number of digits of the decimal rendering.
pub fn dec_len(n: usize) -> (r: usize)
    ensures
        r == spec_dec(n as nat).len(),
        r >= 1,
    decreases n,
{
    proof {
        lemma_dec_len_positive(n as nat);
    }
    if n < 10 {
        1
    } else {
        let inner = dec_len(n / 10);
        proof {
            lemma_dec_len_small((n / 10) as nat);
            assert(spec_dec(n as nat).len() == spec_dec((n / 10) as nat).len() + 1);
        }
        inner + 1
    }
}

/// `k` space characters.
pub open spec fn spec_spaces(k: nat) -> Seq<char>
    decreases k,
{
    if k == 0 {
        Seq::empty()
    } else {
        spec_spaces((k - 1) as nat) + seq![' ']
    }
}

/// A run of `k` spaces.
pub fn spaces(k: usize) -> (r: String)
    ensures
        r@ == spec_spaces(k as nat),
    decreases k,
{
    proof {
        reveal_strlit("");
        reveal_strlit(" ");
    }
    if k == 0 {
        let r = String::from_str("");
        proof {
            assert(r@ =~= spec_spaces(0));
        }
        r
    } else {
        let mut s = spaces(k - 1);
        let one: &str = " ";
        proof {
            assert(one@ =~= seq![' ']);
        }
        s.append(one);
        s
    }
}

} // verus!
