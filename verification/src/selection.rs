//! What the user chose to evaluate.
//!
//! The choice is one line of text: nothing or `0` to leave, `a` for every
//! course, or numbers separated by white space, each the position of a
//! course in the list, counted from one. Words that are no numbers are
//! passed over.

use vstd::prelude::*;
use crate::text::chars_of;

verus! {

/// What a line of input asks for.
pub enum Selection {
    /// Leave without submitting anything.
    Quit,
    /// Every course of the list, in its order.
    All,
    /// The courses at these positions, counted from one, in this order.
    Numbers(Vec<usize>),
}

/// What a `Selection` holds.
pub enum SelectionView {
    Quit,
    All,
    Numbers(Seq<usize>),
}

impl View for Selection {
    type V = SelectionView;

    open spec fn view(&self) -> SelectionView {
        match self {
            Selection::Quit => SelectionView::Quit,
            Selection::All => SelectionView::All,
            Selection::Numbers(numbers) => SelectionView::Numbers(numbers@),
        }
    }
}

/// One step of a batch.
#[derive(Debug, Clone, Copy, PartialEq, Eq, Structural)]
pub enum Step {
    /// Submit the course at this position of the list, counted from zero.
    Submit(usize),
    /// Report this number as naming no course.
    Invalid(usize),
}

/// White space, as Unicode defines it.
pub open spec fn is_space(c: char) -> bool {
    let code = c as u32;
    ||| 0x09 <= code <= 0x0D
    ||| code == 0x20
    ||| code == 0x85
    ||| code == 0xA0
    ||| code == 0x1680
    ||| 0x2000 <= code <= 0x200A
    ||| code == 0x2028
    ||| code == 0x2029
    ||| code == 0x202F
    ||| code == 0x205F
    ||| code == 0x3000
}

/// The end of the word that begins at `i`: the next white space, or the end
/// of the line.
pub open spec fn word_end(line: Seq<char>, i: int) -> int
    decreases line.len() - i,
{
    if i < 0 || i >= line.len() || is_space(line[i]) {
        i
    } else {
        word_end(line, i + 1)
    }
}

/// The words of a line from position `i` on: the longest stretches without
/// white space, from left to right.
pub open spec fn words_from(line: Seq<char>, i: int) -> Seq<Seq<char>>
    decreases line.len() - i,
{
    if i < 0 || i >= line.len() {
        Seq::empty()
    } else if is_space(line[i]) {
        words_from(line, i + 1)
    } else {
        let end = word_end(line, i);
        if i < end <= line.len() {
            seq![line.subrange(i, end)] + words_from(line, end)
        } else {
            Seq::empty()
        }
    }
}

/// The words of a line.
pub open spec fn words_of(line: Seq<char>) -> Seq<Seq<char>> {
    words_from(line, 0)
}

/// A decimal digit.
pub open spec fn is_digit(c: char) -> bool {
    '0' <= c <= '9'
}

/// The value of a decimal digit.
pub open spec fn digit_value(c: char) -> nat {
    if is_digit(c) {
        (c as u32 - '0' as u32) as nat
    } else {
        0
    }
}

/// The value of a run of decimal digits.
pub open spec fn digits_value(digits: Seq<char>) -> nat
    decreases digits.len(),
{
    if digits.len() == 0 {
        0
    } else {
        digits_value(digits.drop_last()) * 10 + digit_value(digits.last())
    }
}

/// The digits of a word: the word itself, without a plus sign in front.
pub open spec fn digits_of(word: Seq<char>) -> Seq<char> {
    if word.len() > 0 && word[0] == '+' {
        word.drop_first()
    } else {
        word
    }
}

/// The number that a word is: digits, at least one, with or without a plus
/// sign in front, of a value that a `usize` holds.
pub open spec fn number_of(word: Seq<char>) -> Option<usize> {
    let digits = digits_of(word);
    if digits.len() > 0 && (forall|k: int| 0 <= k < digits.len() ==> is_digit(#[trigger] digits[k]))
        && digits_value(digits) <= usize::MAX {
        Some(digits_value(digits) as usize)
    } else {
        None
    }
}

/// The numbers among `words`, in their order.
pub open spec fn numbers_of(words: Seq<Seq<char>>) -> Seq<usize>
    decreases words.len(),
{
    if words.len() == 0 {
        Seq::empty()
    } else {
        match number_of(words.last()) {
            Some(n) => numbers_of(words.drop_last()).push(n),
            None => numbers_of(words.drop_last()),
        }
    }
}

/// What a line asks for.
pub open spec fn selection_of(line: Seq<char>) -> SelectionView {
    let words = words_of(line);
    if words.len() == 0 || words == seq![seq!['0']] {
        SelectionView::Quit
    } else if words == seq![seq!['a']] {
        SelectionView::All
    } else {
        SelectionView::Numbers(numbers_of(words))
    }
}

/// What a number asks for in a list of `count` courses.
pub open spec fn step_for(number: usize, count: usize) -> Step {
    if 1 <= number <= count {
        Step::Submit((number - 1) as usize)
    } else {
        Step::Invalid(number)
    }
}

/// The steps of a batch over a list of `count` courses.
pub open spec fn plan_of(selection: SelectionView, count: usize) -> Seq<Step> {
    match selection {
        SelectionView::Quit => Seq::empty(),
        SelectionView::All => Seq::new(count as nat, |k: int| Step::Submit(k as usize)),
        SelectionView::Numbers(numbers) => Seq::new(
            numbers.len(),
            |k: int| step_for(numbers[k], count),
        ),
    }
}

/// The value of the first digits of a run is at most the value of the run.
pub proof fn lemma_digits_prefix(digits: Seq<char>, k: int)
    requires
        0 <= k <= digits.len(),
    ensures
        digits_value(digits.take(k)) <= digits_value(digits),
    decreases digits.len() - k,
{
    if k == digits.len() {
        assert(digits.take(k) =~= digits);
    } else {
        lemma_digits_prefix(digits, k + 1);
        assert(digits.take(k + 1).drop_last() =~= digits.take(k));
    }
}

/// A word ends at or behind its beginning and within the line, on white
/// space or at the end of the line, and holds no white space.
pub proof fn lemma_word_end(line: Seq<char>, i: int)
    requires
        0 <= i <= line.len(),
    ensures
        i <= word_end(line, i) <= line.len(),
        word_end(line, i) < line.len() ==> is_space(line[word_end(line, i)]),
        forall|k: int| i <= k < word_end(line, i) ==> !is_space(#[trigger] line[k]),
        i < line.len() && !is_space(line[i]) ==> i < word_end(line, i),
    decreases line.len() - i,
{
    if i < line.len() && !is_space(line[i]) {
        lemma_word_end(line, i + 1);
    }
}

/// Tells whether a character is white space.
pub fn is_space_char(c: char) -> (b: bool)
    ensures
        b == is_space(c),
{
    let code: u32 = c as u32;
    (0x09 <= code && code <= 0x0D) || code == 0x20 || code == 0x85 || code == 0xA0 || code
        == 0x1680 || (0x2000 <= code && code <= 0x200A) || code == 0x2028 || code == 0x2029
        || code == 0x202F || code == 0x205F || code == 0x3000
}

/// The words of a line, each as the positions where it begins and ends.
pub fn split_words(line: &Vec<char>) -> (spans: Vec<(usize, usize)>)
    ensures
        spans@.len() == words_of(line@).len(),
        forall|k: int|
            0 <= k < spans@.len() ==> {
                &&& (#[trigger] spans@[k]).0 < spans@[k].1 <= line@.len()
                &&& line@.subrange(spans@[k].0 as int, spans@[k].1 as int) == words_of(line@)[k]
            },
{
    let mut spans: Vec<(usize, usize)> = Vec::new();
    let ghost mut done: Seq<Seq<char>> = Seq::empty();
    let mut i: usize = 0;
    assert(done + words_from(line@, 0) =~= words_of(line@));
    while i < line.len()
        invariant
            i <= line.len(),
            words_of(line@) == done + words_from(line@, i as int),
            spans@.len() == done.len(),
            forall|k: int|
                0 <= k < spans@.len() ==> {
                    &&& (#[trigger] spans@[k]).0 < spans@[k].1 <= line@.len()
                    &&& line@.subrange(spans@[k].0 as int, spans@[k].1 as int) == done[k]
                },
        decreases line.len() - i,
    {
        if is_space_char(line[i]) {
            i += 1;
        } else {
            let begin = i;
            proof {
                lemma_word_end(line@, begin as int);
            }
            while i < line.len() && !is_space_char(line[i])
                invariant
                    begin <= i <= line.len(),
                    word_end(line@, begin as int) == word_end(line@, i as int),
                decreases line.len() - i,
            {
                i += 1;
            }
            assert(word_end(line@, begin as int) == i);
            let ghost word = line@.subrange(begin as int, i as int);
            assert(words_from(line@, begin as int) == seq![word] + words_from(line@, i as int));
            spans.push((begin, i));
            proof {
                assert(done.push(word) + words_from(line@, i as int) =~= done + (seq![word]
                    + words_from(line@, i as int)));
                done = done.push(word);
            }
        }
    }
    assert(done + words_from(line@, i as int) =~= done);
    spans
}

/// Reads the number that stands in `line` from `from` up to `to`.
pub fn parse_number(line: &Vec<char>, from: usize, to: usize) -> (r: Option<usize>)
    requires
        from <= to <= line@.len(),
    ensures
        r == number_of(line@.subrange(from as int, to as int)),
{
    let ghost word = line@.subrange(from as int, to as int);
    let mut begin = from;
    if begin < to && line[begin] == '+' {
        begin += 1;
    }
    let ghost digits = line@.subrange(begin as int, to as int);
    assert(digits =~= digits_of(word));
    if begin == to {
        return None;
    }
    let mut value: usize = 0;
    let mut k: usize = begin;
    assert(digits.take(0) =~= Seq::empty());
    while k < to
        invariant
            begin <= k <= to <= line@.len(),
            word == line@.subrange(from as int, to as int),
            digits == line@.subrange(begin as int, to as int),
            digits == digits_of(word),
            digits.len() > 0,
            value == digits_value(digits.take(k - begin)),
            forall|m: int| 0 <= m < k - begin ==> is_digit(#[trigger] digits[m]),
        decreases to - k,
    {
        let c = line[k];
        assert(c == digits[k - begin]);
        if !('0' <= c && c <= '9') {
            assert(!is_digit(digits[k - begin]));
            return None;
        }
        let d: usize = (c as u32 - '0' as u32) as usize;
        proof {
            assert(digits.take(k - begin + 1).drop_last() =~= digits.take(k - begin));
            assert(digits.take(k - begin + 1).last() == c);
            assert(d == digit_value(c));
            assert(digits_value(digits.take(k - begin + 1)) == value * 10 + d);
            lemma_digits_prefix(digits, k - begin + 1);
        }
        let scaled = match value.checked_mul(10) {
            Some(v) => v,
            None => {
                return None;
            },
        };
        value = match scaled.checked_add(d) {
            Some(v) => v,
            None => {
                return None;
            },
        };
        k += 1;
    }
    assert(digits.take(k - begin) =~= digits);
    Some(value)
}

/// Reads what a line of input asks for.
pub fn parse_selection(input: &str) -> (selection: Selection)
    ensures
        selection@ == selection_of(input@),
{
    let line = chars_of(input);
    let spans = split_words(&line);
    let ghost words = words_of(line@);
    if spans.len() == 0 {
        return Selection::Quit;
    }
    if spans.len() == 1 {
        let (begin, end) = spans[0];
        assert(line@.subrange(begin as int, end as int) == words[0]);
        if end - begin == 1 {
            let c = line[begin];
            assert(words[0] =~= seq![c]);
            assert(words =~= seq![seq![c]]);
            if c == '0' {
                return Selection::Quit;
            }
            if c == 'a' {
                assert(seq![seq![c]] != seq![seq!['0']]) by {
                    assert(seq![seq![c]][0][0] != seq![seq!['0']][0][0]);
                }
                return Selection::All;
            }
            assert(seq![seq![c]] != seq![seq!['0']]) by {
                assert(seq![seq![c]][0][0] != seq![seq!['0']][0][0]);
            }
            assert(seq![seq![c]] != seq![seq!['a']]) by {
                assert(seq![seq![c]][0][0] != seq![seq!['a']][0][0]);
            }
        } else {
            assert(words[0].len() != 1);
            assert(seq![seq!['0']][0].len() == 1);
            assert(seq![seq!['a']][0].len() == 1);
        }
    } else {
        assert(seq![seq!['0']].len() == 1);
        assert(seq![seq!['a']].len() == 1);
    }
    let mut numbers: Vec<usize> = Vec::new();
    let mut k: usize = 0;
    assert(words.take(0) =~= Seq::empty());
    while k < spans.len()
        invariant
            k <= spans.len(),
            words == words_of(line@),
            spans@.len() == words.len(),
            forall|m: int|
                0 <= m < spans@.len() ==> {
                    &&& (#[trigger] spans@[m]).0 < spans@[m].1 <= line@.len()
                    &&& line@.subrange(spans@[m].0 as int, spans@[m].1 as int) == words[m]
                },
            numbers@ == numbers_of(words.take(k as int)),
        decreases spans.len() - k,
    {
        let (begin, end) = spans[k];
        proof {
            assert(words.take(k + 1).drop_last() =~= words.take(k as int));
            assert(words.take(k + 1).last() == words[k as int]);
        }
        match parse_number(&line, begin, end) {
            Some(n) => {
                numbers.push(n);
            },
            None => {},
        }
        k += 1;
    }
    assert(words.take(k as int) =~= words);
    Selection::Numbers(numbers)
}

/// Lays out the steps of a batch over a list of `count` courses.
pub fn plan(selection: &Selection, count: usize) -> (steps: Vec<Step>)
    ensures
        steps@ == plan_of(selection@, count),
{
    let mut steps: Vec<Step> = Vec::new();
    match selection {
        Selection::Quit => {
            assert(steps@ =~= plan_of(selection@, count));
        },
        Selection::All => {
            let mut k: usize = 0;
            while k < count
                invariant
                    k <= count,
                    steps@.len() == k,
                    forall|m: int| 0 <= m < k ==> #[trigger] steps@[m] == Step::Submit(m as usize),
                decreases count - k,
            {
                steps.push(Step::Submit(k));
                k += 1;
            }
            assert(steps@ =~= plan_of(selection@, count));
        },
        Selection::Numbers(numbers) => {
            let mut k: usize = 0;
            while k < numbers.len()
                invariant
                    k <= numbers.len(),
                    steps@.len() == k,
                    forall|m: int| 0 <= m < k ==> #[trigger] steps@[m] == step_for(numbers@[m], count),
                decreases numbers.len() - k,
            {
                let n = numbers[k];
                if 1 <= n && n <= count {
                    steps.push(Step::Submit(n - 1));
                } else {
                    steps.push(Step::Invalid(n));
                }
                k += 1;
            }
            assert(steps@ =~= plan_of(selection@, count));
        },
    }
    steps
}

} // verus!
