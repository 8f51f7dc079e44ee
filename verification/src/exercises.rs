//! Two classic exercises: converting text to pig latin, and the mean,
//! median and mode of a list of numbers.

use vstd::prelude::*;
use vstd::string::StrSliceExecFns;
use vstd::string::StringExecFns;

use crate::push_char;

verus! {

/// Whether `c` is a whitespace character, as Unicode defines it.
pub uninterp spec fn is_whitespace_char(c: char) -> bool;

/// Relies on char::is_whitespace: the result depends on the character alone.
#[verifier::external_body]
fn char_is_whitespace(c: char) -> (b: bool)
    ensures
        b == is_whitespace_char(c),
{
    c.is_whitespace()
}

/// The position of the first whitespace character in `s`, if any.
pub open spec fn first_ws(s: Seq<char>) -> Option<int>
    decreases s.len(),
{
    if s.len() == 0 {
        None
    } else if is_whitespace_char(s[0]) {
        Some(0)
    } else {
        match first_ws(s.skip(1)) {
            Some(j) => Some(j + 1),
            None => None,
        }
    }
}

/// `first_ws` finds exactly the first whitespace character.
pub proof fn lemma_first_ws(s: Seq<char>)
    ensures
        first_ws(s) matches Some(j) ==> 0 <= j < s.len() && is_whitespace_char(s[j]) && (forall|
            k: int,
        |
            0 <= k < j ==> !is_whitespace_char(s[k])),
        first_ws(s) is None ==> forall|k: int| 0 <= k < s.len() ==> !is_whitespace_char(s[k]),
    decreases s.len(),
{
    if s.len() > 0 && !is_whitespace_char(s[0]) {
        lemma_first_ws(s.skip(1));
        match first_ws(s.skip(1)) {
            Some(j1) => {
                assert(s[j1 + 1] == s.skip(1)[j1]);
                assert forall|k: int| 0 <= k < j1 + 1 implies !is_whitespace_char(s[k]) by {
                    if k >= 1 {
                        assert(s[k] == s.skip(1)[k - 1]);
                    }
                }
            },
            None => {
                assert forall|k: int| 0 <= k < s.len() implies !is_whitespace_char(s[k]) by {
                    if k >= 1 {
                        assert(s[k] == s.skip(1)[k - 1]);
                    }
                }
            },
        }
    }
}

/// The first whitespace of a string known to have it at position `j`.
pub proof fn lemma_first_ws_at(s: Seq<char>, j: int)
    requires
        0 <= j < s.len(),
        is_whitespace_char(s[j]),
        forall|k: int| 0 <= k < j ==> !is_whitespace_char(s[k]),
    ensures
        first_ws(s) == Some(j),
    decreases j,
{
    if j > 0 {
        assert(forall|k: int| 0 <= k < j - 1 ==> s.skip(1)[k] == s[k + 1]);
        lemma_first_ws_at(s.skip(1), j - 1);
    }
}

/// The whitespace-separated words of `s`: maximal nonempty runs of
/// non-whitespace characters, in order.
pub open spec fn split_ws(s: Seq<char>) -> Seq<Seq<char>>
    decreases s.len(),
{
    if s.len() == 0 {
        Seq::empty()
    } else if is_whitespace_char(s[0]) {
        split_ws(s.skip(1))
    } else {
        match first_ws(s) {
            Some(j) => if 0 < j < s.len() {
                seq![s.take(j)] + split_ws(s.skip(j))
            } else {
                seq![s]
            },
            None => seq![s],
        }
    }
}

/// Whether the character of `text` at position `j` is not whitespace.
fn non_ws_at(text: &str, j: usize) -> (b: bool)
    requires
        j < text@.len(),
    ensures
        b == !is_whitespace_char(text@[j as int]),
{
    let c = text.get_char(j);
    !char_is_whitespace(c)
}

/// The whitespace-separated words of `text`, as slices of it, in order.
#[verifier::loop_isolation(false)]
pub fn split_whitespace_of<'a>(text: &'a str) -> (r: Vec<&'a str>)
    ensures
        r.deep_view() == split_ws(text@),
{
    let ghost chars = text@;
    let n = text.unicode_len();
    let mut r: Vec<&'a str> = Vec::new();
    let mut i: usize = 0;
    proof {
        assert(chars.skip(0) =~= chars);
        assert(r.deep_view() + split_ws(chars) =~~= split_ws(chars));
    }
    while i < n
        invariant
            i <= n,
            split_ws(chars) == r.deep_view() + split_ws(chars.skip(i as int)),
        decreases n - i,
    {
        let c = text.get_char(i);
        if char_is_whitespace(c) {
            proof {
                assert(chars.skip(i as int).skip(1) =~= chars.skip(i + 1));
            }
            i += 1;
        } else {
            let mut j: usize = i + 1;
            while j < n && non_ws_at(text, j)
                invariant
                    i < j <= n,
                    forall|k: int| i <= k < j ==> !is_whitespace_char(chars[k]),
                decreases n - j,
            {
                j += 1;
            }
            let word = text.substring_char(i, j);
            proof {
                let suffix = chars.skip(i as int);
                assert(forall|k: int| 0 <= k < j - i ==> suffix[k] == chars[k + i]);
                if j < n {
                    lemma_first_ws_at(suffix, j - i);
                    assert(suffix.take(j - i) =~= word@);
                    assert(suffix.skip(j - i) =~= chars.skip(j as int));
                    assert(split_ws(suffix) == seq![word@] + split_ws(chars.skip(j as int)));
                } else {
                    lemma_first_ws(suffix);
                    assert(suffix =~= word@);
                    assert(chars.skip(j as int) =~= Seq::<char>::empty());
                    assert(split_ws(suffix) == seq![word@]);
                    assert(split_ws(suffix) =~~= seq![word@] + split_ws(chars.skip(j as int)));
                }
                let ghost r_before = r.deep_view();
                assert(r_before + split_ws(suffix) =~~= r_before.push(word@) + split_ws(
                    chars.skip(j as int),
                ));
            }
            let ghost r_before = r.deep_view();
            r.push(word);
            proof {
                assert(r.deep_view() =~~= r_before.push(word@));
            }
            i = j;
        }
    }
    proof {
        assert(chars.skip(n as int) =~= Seq::<char>::empty());
        assert(r.deep_view() + split_ws(chars.skip(n as int)) =~~= r.deep_view());
    }
    r
}

/// Whether `c` is one of the five lowercase vowels.
pub open spec fn is_vowel(c: char) -> bool {
    c == 'a' || c == 'e' || c == 'i' || c == 'o' || c == 'u'
}

/// The pig-latin form of one word: a word starting with a vowel gets
/// "-hay" appended; otherwise its first letter moves to the end after a
/// hyphen, followed by "ay"; a single consonant keeps no hyphen.
pub open spec fn pig_word(w: Seq<char>) -> Seq<char> {
    if w.len() == 0 {
        w
    } else if is_vowel(w[0]) {
        w + seq!['-', 'h', 'a', 'y']
    } else if w.len() > 1 {
        w.skip(1) + seq!['-', w[0], 'a', 'y']
    } else {
        seq![w[0], 'a', 'y']
    }
}

/// The pig-latin forms of the words, joined by single spaces.
pub open spec fn pig_join(ws: Seq<Seq<char>>) -> Seq<char>
    decreases ws.len(),
{
    if ws.len() == 0 {
        Seq::empty()
    } else if ws.len() == 1 {
        pig_word(ws[0])
    } else {
        pig_join(ws.drop_last()) + seq![' '] + pig_word(ws.last())
    }
}

/// Whether `c` is one of the five lowercase vowels.
fn is_vowel_char(c: char) -> (b: bool)
    ensures
        b == is_vowel(c),
{
    c == 'a' || c == 'e' || c == 'i' || c == 'o' || c == 'u'
}

/// Converts `text` to pig latin, word by word, joining the words with
/// single spaces.
#[verifier::loop_isolation(false)]
pub fn pig_latin(text: &str) -> (r: String)
    ensures
        r@ == pig_join(split_ws(text@)),
{
    let words = split_whitespace_of(text);
    let ghost ws = words.deep_view();
    let mut result = String::new();
    let mut k: usize = 0;
    while k < words.len()
        invariant
            k <= words.len(),
            ws.len() == words.len(),
            ws == words.deep_view(),
            result@ == pig_join(ws.take(k as int)),
        decreases words.len() - k,
    {
        let w = words[k];
        proof {
            assert(ws[k as int] == w@);
            assert(ws.take(k + 1).drop_last() =~= ws.take(k as int));
            assert(ws.take(k + 1).last() == w@);
        }
        if k > 0 {
            push_char(&mut result, ' ');
        }
        let n = w.unicode_len();
        if n > 0 {
            let c0 = w.get_char(0);
            if is_vowel_char(c0) {
                result.append(w);
                result.append("-hay");
                proof {
                    reveal_strlit("-hay");
                    assert("-hay"@ =~= seq!['-', 'h', 'a', 'y']);
                    assert(result@ =~= pig_join(ws.take(k as int)) + (if k > 0 {
                        seq![' ']
                    } else {
                        Seq::<char>::empty()
                    }) + pig_word(w@));
                }
            } else if n > 1 {
                let rest = w.substring_char(1, n);
                result.append(rest);
                result.append("-");
                push_char(&mut result, c0);
                result.append("ay");
                proof {
                    reveal_strlit("-");
                    reveal_strlit("ay");
                    assert("-"@ =~= seq!['-']);
                    assert("ay"@ =~= seq!['a', 'y']);
                    assert(rest@ =~= w@.skip(1));
                    assert(result@ =~= pig_join(ws.take(k as int)) + (if k > 0 {
                        seq![' ']
                    } else {
                        Seq::<char>::empty()
                    }) + pig_word(w@));
                }
            } else {
                push_char(&mut result, c0);
                result.append("ay");
                proof {
                    reveal_strlit("ay");
                    assert("ay"@ =~= seq!['a', 'y']);
                    assert(result@ =~= pig_join(ws.take(k as int)) + (if k > 0 {
                        seq![' ']
                    } else {
                        Seq::<char>::empty()
                    }) + pig_word(w@));
                }
            }
        } else {
            proof {
                assert(result@ =~= pig_join(ws.take(k as int)) + (if k > 0 {
                    seq![' ']
                } else {
                    Seq::<char>::empty()
                }) + pig_word(w@));
            }
        }
        proof {
            if k == 0 {
                assert(ws.take(1).len() == 1);
                assert(pig_join(ws.take(1)) == pig_word(ws.take(1)[0]));
                assert(result@ =~= pig_join(ws.take(k + 1)));
            } else {
                assert(pig_join(ws.take(k + 1)) == pig_join(ws.take(k as int)) + seq![' ']
                    + pig_word(w@));
                assert(result@ =~= pig_join(ws.take(k + 1)));
            }
        }
        k += 1;
    }
    proof {
        assert(ws.take(words.len() as int) =~= ws);
    }
    result
}

/// Whether `s` is sorted in nondecreasing order.
pub open spec fn sorted(s: Seq<i32>) -> bool {
    forall|p: int, q: int| 0 <= p < q < s.len() ==> s[p] <= s[q]
}

/// How often `x` occurs in `s`.
pub open spec fn count_in(s: Seq<i32>, x: i32) -> nat
    decreases s.len(),
{
    if s.len() == 0 {
        0
    } else {
        (if s.last() == x {
            1nat
        } else {
            0nat
        }) + count_in(s.drop_last(), x)
    }
}

/// The sum of the numbers in `s`.
pub open spec fn sum_of(s: Seq<i32>) -> int
    decreases s.len(),
{
    if s.len() == 0 {
        0
    } else {
        sum_of(s.drop_last()) + s.last()
    }
}

/// A sorted copy of `numbers`, holding exactly the same values.
#[verifier::loop_isolation(false)]
pub fn sort_numbers(numbers: &Vec<i32>) -> (r: Vec<i32>)
    ensures
        sorted(r@),
        r@.to_multiset() == numbers@.to_multiset(),
        r@.len() == numbers@.len(),
{
    broadcast use vstd::seq_lib::group_to_multiset_ensures;
    broadcast use vstd::seq_lib::to_multiset_insert;

    let mut r: Vec<i32> = Vec::new();
    let mut k: usize = 0;
    proof {
        assert(numbers@.take(0) =~= r@);
    }
    while k < numbers.len()
        invariant
            k <= numbers@.len(),
            r@.len() == k,
            sorted(r@),
            r@.to_multiset() == numbers@.take(k as int).to_multiset(),
        decreases numbers@.len() - k,
    {
        let x = numbers[k];
        let mut idx: usize = 0;
        while idx < r.len() && r[idx] <= x
            invariant
                idx <= r@.len(),
                forall|p: int| 0 <= p < idx ==> r@[p] <= x,
            decreases r@.len() - idx,
        {
            idx += 1;
        }
        proof {
            assert forall|q: int| idx <= q < r@.len() implies r@[q] > x by {
                assert(r@[idx as int] <= r@[q]);
            }
        }
        let ghost r_old = r@;
        r.insert(idx, x);
        proof {
            r_old.insert_ensures(idx as int, x);
            assert forall|p: int, q: int| 0 <= p < q < r@.len() implies r@[p] <= r@[q] by {
                if q < idx {
                } else if p < idx && q == idx {
                    assert(r@[p] == r_old[p]);
                } else if p < idx {
                    assert(r@[q] == r_old[q - 1] && r_old[q - 1] > x);
                } else if p == idx {
                    assert(r@[q] == r_old[q - 1] && r_old[q - 1] > x);
                } else {
                    assert(r@[p] == r_old[p - 1] && r@[q] == r_old[q - 1]);
                }
            }
            assert(numbers@.take(k + 1) =~= numbers@.take(k as int).push(x));
            assert(r@.to_multiset() == numbers@.take(k + 1).to_multiset());
        }
        k += 1;
    }
    proof {
        assert(numbers@.take(numbers@.len() as int) =~= numbers@);
    }
    r
}

/// The sum of the numbers, as a wide integer that cannot overflow.
#[verifier::loop_isolation(false)]
pub fn sum_numbers(numbers: &Vec<i32>) -> (r: i128)
    ensures
        r == sum_of(numbers@),
{
    let mut acc: i128 = 0;
    let mut k: usize = 0;
    while k < numbers.len()
        invariant
            k <= numbers@.len(),
            acc == sum_of(numbers@.take(k as int)),
            -2147483648 * (k as int) <= acc <= 2147483647 * (k as int),
        decreases numbers@.len() - k,
    {
        let x = numbers[k];
        proof {
            assert(numbers@.take(k + 1).drop_last() =~= numbers@.take(k as int));
            assert(numbers@.take(k + 1).last() == numbers@[k as int]);
        }
        acc = acc + (x as i128);
        k += 1;
    }
    proof {
        assert(numbers@.take(numbers@.len() as int) =~= numbers@);
    }
    acc
}

/// How often `x` occurs in `numbers`.
#[verifier::loop_isolation(false)]
pub fn count_occurrences(numbers: &Vec<i32>, x: i32) -> (r: usize)
    ensures
        r == count_in(numbers@, x),
{
    let mut c: usize = 0;
    let mut k: usize = 0;
    while k < numbers.len()
        invariant
            k <= numbers@.len(),
            c == count_in(numbers@.take(k as int), x),
            c <= k,
        decreases numbers@.len() - k,
    {
        let y = numbers[k];
        proof {
            assert(numbers@.take(k + 1).drop_last() =~= numbers@.take(k as int));
            assert(numbers@.take(k + 1).last() == y);
        }
        if y == x {
            c += 1;
        }
        k += 1;
    }
    proof {
        assert(numbers@.take(numbers@.len() as int) =~= numbers@);
    }
    c
}

/// A value of `numbers` that occurs at least as often as every other:
/// the mode.
#[verifier::loop_isolation(false)]
pub fn mode(numbers: &Vec<i32>) -> (r: i32)
    requires
        numbers@.len() > 0,
    ensures
        exists|i: int| 0 <= i < numbers@.len() && numbers@[i] == r,
        forall|j: int|
            0 <= j < numbers@.len() ==> count_in(numbers@, numbers@[j]) <= count_in(numbers@, r),
{
    let mut best = numbers[0];
    let mut best_count = count_occurrences(numbers, best);
    let mut k: usize = 1;
    while k < numbers.len()
        invariant
            1 <= k <= numbers@.len(),
            exists|i: int| 0 <= i < numbers@.len() && numbers@[i] == best,
            best_count == count_in(numbers@, best),
            forall|j: int| 0 <= j < k ==> count_in(numbers@, numbers@[j]) <= best_count,
        decreases numbers@.len() - k,
    {
        let y = numbers[k];
        let c = count_occurrences(numbers, y);
        if c > best_count {
            best = y;
            best_count = c;
        }
        k += 1;
    }
    best
}

/// The summary statistics of a list of numbers: the list sorted, its
/// sum, its mode, and the one or two middle values of the sorted order
/// (equal when the list's length is odd). The mean is the sum divided
/// by the length; the median is the average of the two middle values.
pub struct Mmm {
    pub numbers: Vec<i32>,
    pub sum: i128,
    pub mode: i32,
    pub median_low: i32,
    pub median_high: i32,
}

/// Computes the summary statistics of a nonempty list of numbers.
pub fn mmm_calc(numbers: &Vec<i32>) -> (r: Mmm)
    requires
        numbers@.len() > 0,
    ensures
        sorted(r.numbers@),
        r.numbers@.to_multiset() == numbers@.to_multiset(),
        r.numbers@.len() == numbers@.len(),
        r.sum == sum_of(numbers@),
        exists|i: int| 0 <= i < numbers@.len() && numbers@[i] == r.mode,
        forall|j: int|
            0 <= j < numbers@.len() ==> count_in(numbers@, numbers@[j]) <= count_in(
                numbers@,
                r.mode,
            ),
        numbers@.len() % 2 == 1 ==> r.median_low == r.numbers@[(numbers@.len() - 1) as int / 2]
            && r.median_high == r.median_low,
        numbers@.len() % 2 == 0 ==> r.median_low == r.numbers@[numbers@.len() as int / 2 - 1]
            && r.median_high == r.numbers@[numbers@.len() as int / 2],
{
    let sorted_numbers = sort_numbers(numbers);
    let sum = sum_numbers(numbers);
    let mode_value = mode(numbers);
    let len = sorted_numbers.len();
    let median_low: i32;
    let median_high: i32;
    if len % 2 == 1 {
        median_low = sorted_numbers[(len - 1) / 2];
        median_high = median_low;
    } else {
        median_low = sorted_numbers[len / 2 - 1];
        median_high = sorted_numbers[len / 2];
    }
    Mmm { numbers: sorted_numbers, sum, mode: mode_value, median_low, median_high }
}

} // verus!
