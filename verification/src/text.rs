//! Character-level text primitives shared by the page and input scanners.
//!
//! Text is modelled as `Seq<char>`. A delimited field is a stretch of text
//! between an opening and a closing marker that stays on one line; fields are
//! looked for from left to right and the content of each is as short as it
//! can be.

use vstd::prelude::*;
use vstd::string::*;

verus! {

/// `needle` stands in `hay` at position `i`.
pub open spec fn occurs_at(hay: Seq<char>, needle: Seq<char>, i: int) -> bool {
    &&& 0 <= i
    &&& i + needle.len() <= hay.len()
    &&& hay.subrange(i, i + needle.len()) == needle
}

/// `needle` stands somewhere in `hay`.
pub open spec fn occurs_in(hay: Seq<char>, needle: Seq<char>) -> bool {
    exists|i: int| occurs_at(hay, needle, i)
}

/// `i` is the leftmost position at or after `from` where `needle` stands.
pub open spec fn is_first_occurrence(hay: Seq<char>, needle: Seq<char>, from: int, i: int) -> bool {
    &&& from <= i
    &&& occurs_at(hay, needle, i)
    &&& forall|j: int| from <= j < i ==> !occurs_at(hay, needle, j)
}

/// `needle` stands nowhere at or after `from`.
pub open spec fn absent_from(hay: Seq<char>, needle: Seq<char>, from: int) -> bool {
    forall|j: int| from <= j ==> !occurs_at(hay, needle, j)
}

/// Content that begins at `start` ends at `j`: `close` stands at `j`, and
/// between `start` and `j` there is neither a line feed nor an earlier `close`.
pub open spec fn closes_at(hay: Seq<char>, close: Seq<char>, start: int, j: int) -> bool {
    &&& start <= j
    &&& occurs_at(hay, close, j)
    &&& forall|k: int|
        #![trigger hay[k]]
        #![trigger occurs_at(hay, close, k)]
        start <= k < j ==> hay[k] != '\n' && !occurs_at(hay, close, k)
}

/// A field opens at `i` and its content runs from `i + open.len()` up to `j`.
pub open spec fn field_at(hay: Seq<char>, open: Seq<char>, close: Seq<char>, i: int, j: int) -> bool {
    &&& occurs_at(hay, open, i)
    &&& closes_at(hay, close, i + open.len(), j)
}

/// No field opens at or after `from`.
pub open spec fn no_field_from(hay: Seq<char>, open: Seq<char>, close: Seq<char>, from: int) -> bool {
    forall|a: int, b: int| from <= a ==> !field_at(hay, open, close, a, b)
}

/// The field at `(i, j)` is the leftmost one that opens at or after `from`.
pub open spec fn is_first_field(
    hay: Seq<char>,
    open: Seq<char>,
    close: Seq<char>,
    from: int,
    i: int,
    j: int,
) -> bool {
    &&& from <= i
    &&& field_at(hay, open, close, i, j)
    &&& forall|a: int, b: int| from <= a < i ==> !field_at(hay, open, close, a, b)
}

/// The content of the field at `(i, j)`.
pub open spec fn field_content(hay: Seq<char>, open: Seq<char>, i: int, j: int) -> Seq<char> {
    hay.subrange(i + open.len(), j)
}

/// The leftmost field that opens at or after `from`, as the positions of its
/// opening and closing markers.
pub open spec fn first_field(hay: Seq<char>, open: Seq<char>, close: Seq<char>, from: int) -> Option<
    (int, int),
> {
    if exists|i: int, j: int| is_first_field(hay, open, close, from, i, j) {
        Some(choose|i: int, j: int| is_first_field(hay, open, close, from, i, j))
    } else {
        None
    }
}

/// The content of the leftmost field that opens at or after `from`.
pub open spec fn first_field_text(hay: Seq<char>, open: Seq<char>, close: Seq<char>, from: int) -> Option<
    Seq<char>,
> {
    match first_field(hay, open, close, from) {
        Some((i, j)) => Some(field_content(hay, open, i, j)),
        None => None,
    }
}

/// Every field that opens at or after `from`, from left to right: each is
/// looked for behind the closing marker of the one before it.
pub open spec fn field_spans(hay: Seq<char>, open: Seq<char>, close: Seq<char>, from: int) -> Seq<
    (int, int),
>
    decreases hay.len() - from,
{
    match first_field(hay, open, close, from) {
        Some((i, j)) => if from < j + close.len() <= hay.len() {
            seq![(i, j)] + field_spans(hay, open, close, j + close.len())
        } else {
            seq![(i, j)]
        },
        None => Seq::empty(),
    }
}

/// The contents of the fields in `spans`.
pub open spec fn span_texts(hay: Seq<char>, open: Seq<char>, spans: Seq<(int, int)>) -> Seq<Seq<char>> {
    Seq::new(spans.len(), |k: int| field_content(hay, open, spans[k].0, spans[k].1))
}

/// The contents of every field that opens at or after `from`, from left to
/// right.
pub open spec fn field_texts(hay: Seq<char>, open: Seq<char>, close: Seq<char>, from: int) -> Seq<
    Seq<char>,
> {
    span_texts(hay, open, field_spans(hay, open, close, from))
}

/// The texts that a list of strings holds.
pub open spec fn string_views(strings: Seq<String>) -> Seq<Seq<char>> {
    Seq::new(strings.len(), |k: int| strings[k]@)
}

/// Positions as mathematical integers.
pub open spec fn span_positions(spans: Seq<(usize, usize)>) -> Seq<(int, int)> {
    Seq::new(spans.len(), |k: int| (spans[k].0 as int, spans[k].1 as int))
}

/// The leftmost field is determined by the text and the two markers.
pub proof fn lemma_first_field_unique(
    hay: Seq<char>,
    open: Seq<char>,
    close: Seq<char>,
    from: int,
    i: int,
    j: int,
    a: int,
    b: int,
)
    requires
        is_first_field(hay, open, close, from, i, j),
        is_first_field(hay, open, close, from, a, b),
    ensures
        i == a,
        j == b,
{
    assert(field_at(hay, open, close, i, j));
    assert(field_at(hay, open, close, a, b));
    assert(i == a);
    assert(occurs_at(hay, close, j));
    assert(occurs_at(hay, close, b));
}

/// A field that is the leftmost one is what `first_field` names.
pub proof fn lemma_first_field_found(
    hay: Seq<char>,
    open: Seq<char>,
    close: Seq<char>,
    from: int,
    i: int,
    j: int,
)
    requires
        is_first_field(hay, open, close, from, i, j),
    ensures
        first_field(hay, open, close, from) == Some((i, j)),
{
    let (a, b) = choose|a: int, b: int| is_first_field(hay, open, close, from, a, b);
    lemma_first_field_unique(hay, open, close, from, i, j, a, b);
}

/// Where no field opens, `first_field` names none.
pub proof fn lemma_first_field_absent(hay: Seq<char>, open: Seq<char>, close: Seq<char>, from: int)
    requires
        no_field_from(hay, open, close, from),
    ensures
        first_field(hay, open, close, from) == None::<(int, int)>,
{
    assert forall|i: int, j: int| !is_first_field(hay, open, close, from, i, j) by {
        if from <= i {
            assert(!field_at(hay, open, close, i, j));
        }
    }
}

/// Where a field opens at or after `from`, there is a leftmost one, and the
/// list of fields is not empty.
pub proof fn lemma_some_field_is_first(
    hay: Seq<char>,
    open: Seq<char>,
    close: Seq<char>,
    from: int,
    a: int,
    b: int,
)
    requires
        from <= a,
        field_at(hay, open, close, a, b),
    ensures
        first_field(hay, open, close, from) is Some,
        field_texts(hay, open, close, from).len() > 0,
    decreases a - from,
{
    if exists|e: int| field_at(hay, open, close, from, e) {
        let e = choose|e: int| field_at(hay, open, close, from, e);
        assert(is_first_field(hay, open, close, from, from, e));
    } else {
        assert(!field_at(hay, open, close, from, b));
        let next = from + 1;
        lemma_some_field_is_first(hay, open, close, next, a, b);
        let (i, j) = choose|i: int, j: int| is_first_field(hay, open, close, next, i, j);
        assert forall|x: int, y: int| from <= x < i implies !field_at(hay, open, close, x, y) by {
            if x == from {
                assert(!field_at(hay, open, close, from, y));
            }
        }
        assert(is_first_field(hay, open, close, from, i, j));
    }
}

/// In a text made of `before`, `open`, `content`, `close` and `after`, where
/// `open` stands nowhere earlier and `content` holds neither a line feed nor
/// the first character of `close`, the leftmost field holds `content`.
pub proof fn lemma_first_field_of_parts(
    before: Seq<char>,
    open: Seq<char>,
    content: Seq<char>,
    close: Seq<char>,
    after: Seq<char>,
)
    requires
        close.len() > 0,
        forall|k: int| 0 <= k < content.len() ==> content[k] != '\n' && content[k] != close[0],
        forall|a: int|
            0 <= a < before.len() ==> !occurs_at(
                before + open + content + close + after,
                open,
                a,
            ),
    ensures
        first_field_text(before + open + content + close + after, open, close, 0) == Some(
            content,
        ),
{
    let page = before + open + content + close + after;
    let i = before.len() as int;
    let start = i + open.len();
    let j = start + content.len();
    assert(page.subrange(i, i + open.len()) =~= open);
    assert(page.subrange(j, j + close.len()) =~= close);
    assert(page.subrange(start, j) =~= content);
    assert forall|k: int| start <= k < j implies page[k] != '\n' && !occurs_at(
        page,
        close,
        k,
    ) by {
        assert(page[k] == content[k - start]);
        if occurs_at(page, close, k) {
            assert(page.subrange(k, k + close.len())[0] == close[0]);
        }
    }
    assert(closes_at(page, close, start, j));
    assert(field_at(page, open, close, i, j));
    lemma_first_field_found(page, open, close, 0, i, j);
}

/// The characters of `s`, one element per Unicode scalar value.
pub fn chars_of(s: &str) -> (v: Vec<char>)
    ensures
        v@ == s@,
{
    let mut v: Vec<char> = Vec::new();
    for c in it: s.chars()
        invariant
            v@ == it.seq().take(it.index() as int),
            it.seq() == s@,
    {
        v.push(c);
    }
    v
}

/// Tells whether `needle` stands in `hay` at position `at`.
pub fn matches_at(hay: &Vec<char>, needle: &Vec<char>, at: usize) -> (b: bool)
    ensures
        b == occurs_at(hay@, needle@, at as int),
{
    let n = needle.len();
    if at > hay.len() || n > hay.len() - at {
        return false;
    }
    let mut k: usize = 0;
    while k < n
        invariant
            k <= n,
            n == needle@.len(),
            at + n <= hay.len(),
            forall|j: int| 0 <= j < k ==> hay@[at + j] == #[trigger] needle@[j],
        decreases n - k,
    {
        if hay[at + k] != needle[k] {
            assert(hay@.subrange(at as int, at + n)[k as int] != needle@[k as int]);
            return false;
        }
        k += 1;
    }
    assert(hay@.subrange(at as int, at + n) =~= needle@);
    true
}

/// The leftmost position at or after `from` where `needle` stands in `hay`.
pub fn find_from(hay: &Vec<char>, needle: &Vec<char>, from: usize) -> (r: Option<usize>)
    ensures
        match r {
            Some(i) => is_first_occurrence(hay@, needle@, from as int, i as int),
            None => absent_from(hay@, needle@, from as int),
        },
{
    if needle.len() > hay.len() {
        return None;
    }
    let last = hay.len() - needle.len();
    let mut i = from;
    while i <= last
        invariant
            from <= i,
            last == hay@.len() - needle@.len(),
            forall|j: int| from <= j < i ==> !occurs_at(hay@, needle@, j),
        decreases last + 1 - i,
    {
        if matches_at(hay, needle, i) {
            return Some(i);
        }
        if i == last {
            return None;
        }
        i += 1;
    }
    None
}

/// Tells whether `needle` stands somewhere in `hay`.
pub fn contains(hay: &Vec<char>, needle: &Vec<char>) -> (b: bool)
    ensures
        b == occurs_in(hay@, needle@),
{
    match find_from(hay, needle, 0) {
        Some(i) => {
            assert(occurs_at(hay@, needle@, i as int));
            true
        },
        None => false,
    }
}

/// Where the content that begins at `start` ends, if it ends on its line.
pub fn find_close(hay: &Vec<char>, close: &Vec<char>, start: usize) -> (r: Option<usize>)
    ensures
        match r {
            Some(j) => closes_at(hay@, close@, start as int, j as int),
            None => forall|j: int| !closes_at(hay@, close@, start as int, j),
        },
{
    if start > hay.len() {
        return None;
    }
    let mut k = start;
    loop
        invariant
            start <= k <= hay@.len(),
            forall|m: int|
                #![trigger hay@[m]]
                #![trigger occurs_at(hay@, close@, m)]
                start <= m < k ==> hay@[m] != '\n' && !occurs_at(hay@, close@, m),
        decreases hay@.len() - k,
    {
        if matches_at(hay, close, k) {
            return Some(k);
        }
        if k == hay.len() {
            return None;
        }
        if hay[k] == '\n' {
            assert(hay@[k as int] == '\n');
            return None;
        }
        k += 1;
    }
}

/// The leftmost field that opens at or after `from`, as the positions of its
/// opening and closing markers.
pub fn find_field(hay: &Vec<char>, open: &Vec<char>, close: &Vec<char>, from: usize) -> (r: Option<
    (usize, usize),
>)
    ensures
        match r {
            Some((i, j)) => is_first_field(hay@, open@, close@, from as int, i as int, j as int),
            None => no_field_from(hay@, open@, close@, from as int),
        },
{
    let len = hay.len();
    let mut pos = from;
    loop
        invariant
            from <= pos,
            len == hay@.len(),
            forall|a: int, b: int| from <= a < pos ==> !field_at(hay@, open@, close@, a, b),
        decreases len + 1 - pos,
    {
        match find_from(hay, open, pos) {
            None => {
                return None;
            },
            Some(i) => {
                assert(occurs_at(hay@, open@, i as int));
                match find_close(hay, close, i + open.len()) {
                    Some(j) => {
                        return Some((i, j));
                    },
                    None => {
                        assert forall|a: int, b: int| from <= a <= i implies !field_at(
                            hay@,
                            open@,
                            close@,
                            a,
                            b,
                        ) by {
                            if pos <= a < i {
                                assert(!occurs_at(hay@, open@, a));
                            }
                        }
                        if i == len {
                            assert forall|a: int, b: int| from <= a implies !field_at(
                                hay@,
                                open@,
                                close@,
                                a,
                                b,
                            ) by {
                                if a > i {
                                    assert(!occurs_at(hay@, open@, a));
                                }
                            }
                            return None;
                        }
                        pos = i + 1;
                    },
                }
            },
        }
    }
}

/// Every field of `hay`, from left to right, as the positions of its
/// opening and closing markers.
pub fn find_fields(hay: &Vec<char>, open: &Vec<char>, close: &Vec<char>) -> (spans: Vec<
    (usize, usize),
>)
    requires
        open@.len() > 0,
    ensures
        span_positions(spans@) == field_spans(hay@, open@, close@, 0),
        forall|k: int|
            0 <= k < spans@.len() ==> (#[trigger] spans@[k]).0 + open@.len() <= spans@[k].1
                <= hay@.len(),
{
    let mut spans: Vec<(usize, usize)> = Vec::new();
    let mut pos: usize = 0;
    assert(span_positions(spans@) + field_spans(hay@, open@, close@, 0) =~= field_spans(
        hay@,
        open@,
        close@,
        0,
    ));
    loop
        invariant
            open@.len() > 0,
            pos <= hay.len(),
            field_spans(hay@, open@, close@, 0) == span_positions(spans@) + field_spans(
                hay@,
                open@,
                close@,
                pos as int,
            ),
            forall|k: int|
                0 <= k < spans@.len() ==> (#[trigger] spans@[k]).0 + open@.len() <= spans@[k].1
                    <= hay@.len(),
        decreases hay@.len() - pos,
    {
        match find_field(hay, open, close, pos) {
            None => {
                proof {
                    lemma_first_field_absent(hay@, open@, close@, pos as int);
                    assert(span_positions(spans@) + Seq::<(int, int)>::empty() =~= span_positions(
                        spans@,
                    ));
                }
                return spans;
            },
            Some((i, j)) => {
                let ghost before = spans@;
                let ghost old_pos = pos as int;
                assert(occurs_at(hay@, close@, j as int));
                assert(occurs_at(hay@, open@, i as int));
                proof {
                    lemma_first_field_found(hay@, open@, close@, old_pos, i as int, j as int);
                }
                spans.push((i, j));
                pos = j + close.len();
                assert(field_spans(hay@, open@, close@, old_pos) == seq![(i as int, j as int)]
                    + field_spans(hay@, open@, close@, pos as int));
                assert(span_positions(spans@) =~= span_positions(before) + seq![
                    (i as int, j as int),
                ]);
                assert(span_positions(spans@) + field_spans(hay@, open@, close@, pos as int)
                    =~= span_positions(before) + (seq![(i as int, j as int)] + field_spans(
                    hay@,
                    open@,
                    close@,
                    pos as int,
                )));
            },
        }
    }
}

/// The content of the leftmost field of `text`, if it has one.
pub fn first_field_of(text: &str, open: &str, close: &str) -> (r: Option<String>)
    ensures
        match r {
            Some(s) => first_field_text(text@, open@, close@, 0) == Some(s@),
            None => first_field_text(text@, open@, close@, 0) == None::<Seq<char>>,
        },
{
    let hay = chars_of(text);
    let open_chars = chars_of(open);
    let close_chars = chars_of(close);
    match find_field(&hay, &open_chars, &close_chars, 0) {
        Some((i, j)) => {
            proof {
                lemma_first_field_found(text@, open@, close@, 0, i as int, j as int);
            }
            assert(occurs_at(text@, open@, i as int));
            assert(occurs_at(text@, close@, j as int));
            Some(slice_of(text, i + open_chars.len(), j))
        },
        None => {
            proof {
                lemma_first_field_absent(text@, open@, close@, 0);
            }
            None
        },
    }
}

/// The contents of every field of `text`, from left to right.
pub fn all_fields_of(text: &str, open: &str, close: &str) -> (r: Vec<String>)
    requires
        open@.len() > 0,
    ensures
        string_views(r@) == field_texts(text@, open@, close@, 0),
{
    let hay = chars_of(text);
    let open_chars = chars_of(open);
    let close_chars = chars_of(close);
    let spans = find_fields(&hay, &open_chars, &close_chars);
    let ghost wanted = field_texts(text@, open@, close@, 0);
    let mut out: Vec<String> = Vec::new();
    let mut k: usize = 0;
    while k < spans.len()
        invariant
            k <= spans.len(),
            hay@ == text@,
            open_chars@ == open@,
            wanted == span_texts(text@, open@, span_positions(spans@)),
            forall|m: int|
                0 <= m < spans@.len() ==> (#[trigger] spans@[m]).0 + open@.len() <= spans@[m].1
                    <= hay@.len(),
            out@.len() == k,
            forall|m: int| 0 <= m < k ==> (#[trigger] out@[m])@ == wanted[m],
        decreases spans.len() - k,
    {
        let (i, j) = spans[k];
        assert(spans@[k as int].0 + open@.len() <= spans@[k as int].1);
        let piece = slice_of(text, i + open_chars.len(), j);
        out.push(piece);
        k += 1;
    }
    assert(string_views(out@) =~= wanted);
    out
}

/// The text of `s` between the character positions `from` and `to`.
pub fn slice_of(s: &str, from: usize, to: usize) -> (r: String)
    requires
        from <= to <= s@.len(),
    ensures
        r@ == s@.subrange(from as int, to as int),
{
    String::from_str(s.substring_char(from, to))
}

} // verus!
