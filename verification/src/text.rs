//! Text as sequences of characters.
//!
//! Every report this crate reads is modelled as a `Seq<char>`. The executable
//! functions work on `Vec<char>` and are specified by the spec functions next
//! to them, which describe trimming, splitting and searching directly on
//! sequences.

use vstd::prelude::*;

verus! {

/// `String::push` of the standard library appends one character to the end of
/// the string and changes nothing else.
pub assume_specification[ String::push ](s: &mut String, ch: char)
    ensures
        final(s)@ == old(s)@.push(ch),
;

/// The characters of a string slice, in order.
pub fn chars_of(s: &str) -> (out: Vec<char>)
    ensures
        out@ == s@,
{
    let mut out: Vec<char> = Vec::new();
    for c in it: s.chars()
        invariant
            out@ == it.seq().take(it.index() as int),
            it.seq() == s@,
    {
        out.push(c);
    }
    out
}

/// The string made of the given characters.
pub fn string_of(v: &Vec<char>) -> (out: String)
    ensures
        out@ == v@,
{
    let mut out = String::new();
    let mut i: usize = 0;
    while i < v.len()
        invariant
            i <= v.len(),
            out@ == v@.take(i as int),
        decreases v.len() - i,
    {
        out.push(v[i]);
        i += 1;
    }
    out
}

/// A copy of the characters of `v` from `from` up to `to`.
pub fn slice_of(v: &Vec<char>, from: usize, to: usize) -> (out: Vec<char>)
    requires
        from <= to <= v.len(),
    ensures
        out@ == v@.subrange(from as int, to as int),
{
    let mut out: Vec<char> = Vec::new();
    let mut i: usize = from;
    while i < to
        invariant
            from <= i <= to <= v.len(),
            out@ == v@.subrange(from as int, i as int),
        decreases to - i,
    {
        out.push(v[i]);
        i += 1;
    }
    out
}

/// Whether two character vectors hold the same text.
pub fn same_chars(a: &Vec<char>, b: &Vec<char>) -> (r: bool)
    ensures
        r == (a@ == b@),
{
    if a.len() != b.len() {
        return false;
    }
    let mut i: usize = 0;
    while i < a.len()
        invariant
            i <= a.len(),
            a.len() == b.len(),
            forall|j: int| 0 <= j < i ==> a@[j] == b@[j],
        decreases a.len() - i,
    {
        if a[i] != b[i] {
            return false;
        }
        i += 1;
    }
    assert(a@ =~= b@);
    true
}

/// Whether two string slices hold the same text.
pub fn same_text(a: &str, b: &str) -> (r: bool)
    ensures
        r == (a@ == b@),
{
    let x = chars_of(a);
    let y = chars_of(b);
    same_chars(&x, &y)
}

/// The characters with the Unicode property `White_Space`.
pub open spec fn is_space(c: char) -> bool {
    let n = c as u32;
    ||| 0x09 <= n <= 0x0D
    ||| n == 0x20
    ||| n == 0x85
    ||| n == 0xA0
    ||| n == 0x1680
    ||| 0x2000 <= n <= 0x200A
    ||| n == 0x2028
    ||| n == 0x2029
    ||| n == 0x202F
    ||| n == 0x205F
    ||| n == 0x3000
}

/// Whether `c` is white space.
pub fn is_whitespace(c: char) -> (r: bool)
    ensures
        r == is_space(c),
{
    let n: u32 = c as u32;
    (0x09 <= n && n <= 0x0D) || n == 0x20 || n == 0x85 || n == 0xA0 || n == 0x1680 || (0x2000 <= n
        && n <= 0x200A) || n == 0x2028 || n == 0x2029 || n == 0x202F || n == 0x205F || n == 0x3000
}

/// A class of characters, by which text is cut into runs.
#[derive(Clone, Copy, PartialEq, Eq, Structural, Debug)]
pub enum CharClass {
    /// White space.
    Space,
    /// Anything but white space.
    Word,
    /// Anything but the line feed.
    Line,
    /// The decimal digits `0` to `9`.
    Digit,
    /// Anything but the blank and the letter `m`, which end a number that is
    /// followed by a unit of time.
    Reading,
}

/// Whether `c` belongs to the class `k`.
pub open spec fn in_class(k: CharClass, c: char) -> bool {
    match k {
        CharClass::Space => is_space(c),
        CharClass::Word => !is_space(c),
        CharClass::Line => c != '\n',
        CharClass::Digit => '0' <= c <= '9',
        CharClass::Reading => c != ' ' && c != 'm',
    }
}

/// Whether `c` belongs to the class `k`.
pub fn class_has(k: CharClass, c: char) -> (r: bool)
    ensures
        r == in_class(k, c),
{
    match k {
        CharClass::Space => is_whitespace(c),
        CharClass::Word => !is_whitespace(c),
        CharClass::Line => c != '\n',
        CharClass::Digit => '0' <= c && c <= '9',
        CharClass::Reading => c != ' ' && c != 'm',
    }
}

/// The length of the longest prefix of `s` whose characters all belong to `k`.
pub open spec fn run_len(s: Seq<char>, k: CharClass) -> nat
    decreases s.len(),
{
    if s.len() > 0 && in_class(k, s[0]) {
        1 + run_len(s.drop_first(), k)
    } else {
        0
    }
}

/// The length of the longest suffix of `s` that is white space.
pub open spec fn trailing_spaces(s: Seq<char>) -> nat
    decreases s.len(),
{
    if s.len() > 0 && is_space(s.last()) {
        1 + trailing_spaces(s.drop_last())
    } else {
        0
    }
}

/// `s` without the white space at its start.
pub open spec fn trimmed_start(s: Seq<char>) -> Seq<char> {
    s.skip(run_len(s, CharClass::Space) as int)
}

/// `s` without the white space at its end.
pub open spec fn trimmed_end(s: Seq<char>) -> Seq<char> {
    s.take(s.len() - trailing_spaces(s))
}

/// `s` without the white space at either end.
pub open spec fn trimmed(s: Seq<char>) -> Seq<char> {
    trimmed_end(trimmed_start(s))
}

/// `run_len` stops at the first character outside the class, or at the end.
pub proof fn lemma_run_len(s: Seq<char>, k: CharClass)
    ensures
        run_len(s, k) <= s.len(),
        forall|i: int| 0 <= i < run_len(s, k) ==> in_class(k, #[trigger] s[i]),
        run_len(s, k) < s.len() ==> !in_class(k, s[run_len(s, k) as int]),
    decreases s.len(),
{
    if s.len() > 0 && in_class(k, s[0]) {
        let t = s.drop_first();
        lemma_run_len(t, k);
        assert forall|i: int| 0 <= i < run_len(s, k) implies in_class(k, #[trigger] s[i]) by {
            if i > 0 {
                assert(s[i] == t[i - 1]);
            }
        }
    }
}

/// A length that has only characters of the class before it and none at it
/// is `run_len`.
pub proof fn lemma_run_len_is(s: Seq<char>, k: CharClass, n: int)
    requires
        0 <= n <= s.len(),
        forall|i: int| 0 <= i < n ==> in_class(k, #[trigger] s[i]),
        n < s.len() ==> !in_class(k, s[n]),
    ensures
        run_len(s, k) == n,
    decreases s.len(),
{
    if n > 0 {
        let t = s.drop_first();
        lemma_run_len_is(t, k, n - 1);
    }
}

/// A length that has only white space after it and none just before it is
/// `trailing_spaces`.
pub proof fn lemma_trailing_spaces_is(s: Seq<char>, n: int)
    requires
        0 <= n <= s.len(),
        forall|i: int| s.len() - n <= i < s.len() ==> is_space(#[trigger] s[i]),
        n < s.len() ==> !is_space(s[s.len() - n - 1]),
    ensures
        trailing_spaces(s) == n,
    decreases s.len(),
{
    if n > 0 {
        let t = s.drop_last();
        lemma_trailing_spaces_is(t, n - 1);
    }
}

/// The end of the run of characters of class `k` that starts at `from`.
pub fn run_end(v: &Vec<char>, from: usize, k: CharClass) -> (to: usize)
    requires
        from <= v.len(),
    ensures
        from <= to <= v.len(),
        to == from + run_len(v@.skip(from as int), k),
{
    let mut to: usize = from;
    while to < v.len() && class_has(k, v[to])
        invariant
            from <= to <= v.len(),
            forall|i: int| from <= i < to ==> in_class(k, #[trigger] v@[i]),
        decreases v.len() - to,
    {
        to += 1;
    }
    proof {
        let t = v@.skip(from as int);
        lemma_run_len_is(t, k, to - from);
    }
    to
}

/// `v` without the white space at either end.
pub fn trim(v: &Vec<char>) -> (out: Vec<char>)
    ensures
        out@ == trimmed(v@),
{
    let a = run_end(v, 0, CharClass::Space);
    let mut b: usize = v.len();
    while b > a && is_whitespace(v[b - 1])
        invariant
            a <= b <= v.len(),
            forall|i: int| b <= i < v.len() ==> is_space(#[trigger] v@[i]),
        decreases b,
    {
        b -= 1;
    }
    proof {
        assert(v@.skip(0) =~= v@);
        let t = trimmed_start(v@);
        lemma_trailing_spaces_is(t, v.len() - b);
    }
    slice_of(v, a, b)
}

/// The words of `s`: its longest runs of characters that are not white space,
/// in order.
pub open spec fn words_of(s: Seq<char>) -> Seq<Seq<char>>
    decreases s.len(),
{
    let t = trimmed_start(s);
    let n = run_len(t, CharClass::Word);
    if t.len() == 0 || n == 0 {
        Seq::empty()
    } else {
        proof {
            lemma_run_len(s, CharClass::Space);
            lemma_run_len(t, CharClass::Word);
        }
        seq![t.take(n as int)] + words_of(t.skip(n as int))
    }
}

/// The views of the vectors in `v`.
pub open spec fn texts(v: Seq<Vec<char>>) -> Seq<Seq<char>> {
    Seq::new(v.len(), |i: int| v[i]@)
}

/// The words of `v` (see `words_of`).
pub fn words(v: &Vec<char>) -> (out: Vec<Vec<char>>)
    ensures
        texts(out@) == words_of(v@),
{
    let mut out: Vec<Vec<char>> = Vec::new();
    let mut i: usize = 0;
    proof {
        assert(v@.skip(0) =~= v@);
    }
    loop
        invariant
            i <= v.len(),
            words_of(v@) == texts(out@) + words_of(v@.skip(i as int)),
        ensures
            texts(out@) == words_of(v@),
        decreases v.len() - i,
    {
        let a = run_end(v, i, CharClass::Space);
        let b = run_end(v, a, CharClass::Word);
        proof {
            let s = v@.skip(i as int);
            let t = trimmed_start(s);
            assert(t =~= v@.skip(a as int));
        }
        if a == b {
            break;
        }
        let w = slice_of(v, a, b);
        proof {
            let t = v@.skip(a as int);
            assert(t.take(b - a) =~= w@);
            assert(t.skip(b - a) =~= v@.skip(b as int));
        }
        out.push(w);
        i = b;
    }
    out
}

/// `s` without one carriage return at its end, if it ends with one.
pub open spec fn without_cr(s: Seq<char>) -> Seq<char> {
    if s.len() > 0 && s.last() == '\r' {
        s.drop_last()
    } else {
        s
    }
}

/// The lines of `s`. A line ends before a line feed, and a carriage return
/// just before that line feed is not part of the line. What follows the last
/// line feed is a line too, unless it is empty; it keeps a carriage return at
/// its end.
pub open spec fn lines_of(s: Seq<char>) -> Seq<Seq<char>>
    decreases s.len(),
{
    let n = run_len(s, CharClass::Line);
    if s.len() == 0 {
        Seq::empty()
    } else if n >= s.len() {
        seq![s]
    } else {
        seq![without_cr(s.take(n as int))] + lines_of(s.skip(n as int + 1))
    }
}

/// The lines of `v` (see `lines_of`).
pub fn lines(v: &Vec<char>) -> (out: Vec<Vec<char>>)
    ensures
        texts(out@) == lines_of(v@),
{
    let mut out: Vec<Vec<char>> = Vec::new();
    let mut i: usize = 0;
    proof {
        assert(v@.skip(0) =~= v@);
    }
    while i < v.len()
        invariant
            i <= v.len(),
            lines_of(v@) == texts(out@) + lines_of(v@.skip(i as int)),
        decreases v.len() - i,
    {
        let ghost s = v@.skip(i as int);
        let b = run_end(v, i, CharClass::Line);
        if b == v.len() {
            let w = slice_of(v, i, b);
            out.push(w);
            i = b;
        } else {
            let e = if b > i && v[b - 1] == '\r' {
                b - 1
            } else {
                b
            };
            let w = slice_of(v, i, e);
            proof {
                let first = s.take(b - i);
                assert(w@ =~= without_cr(first));
                assert(s.skip(b - i + 1) =~= v@.skip(b + 1));
            }
            out.push(w);
            i = b + 1;
        }
    }
    out
}

/// Whether `needle` stands in `hay` at position `i`.
pub open spec fn occurs_at(hay: Seq<char>, needle: Seq<char>, i: int) -> bool {
    0 <= i && i + needle.len() <= hay.len() && hay.subrange(i, i + needle.len()) == needle
}

/// Whether `needle` stands somewhere in `hay`.
pub open spec fn has(hay: Seq<char>, needle: Seq<char>) -> bool {
    exists|i: int| occurs_at(hay, needle, i)
}

/// The first position at or after `from` at which `needle` stands in `hay`.
pub open spec fn first_at(hay: Seq<char>, needle: Seq<char>, from: int) -> Option<int>
    decreases hay.len() - from + 1,
{
    if from < 0 || from + needle.len() > hay.len() {
        None
    } else if occurs_at(hay, needle, from) {
        Some(from)
    } else {
        first_at(hay, needle, from + 1)
    }
}

/// `first_at` gives the least position of `needle` that is not before
/// `from`, and `None` exactly when there is none.
pub proof fn lemma_first_at(hay: Seq<char>, needle: Seq<char>, from: int)
    requires
        0 <= from,
    ensures
        match first_at(hay, needle, from) {
            Some(i) => from <= i && occurs_at(hay, needle, i) && forall|j: int|
                from <= j < i ==> !occurs_at(hay, needle, j),
            None => forall|j: int| from <= j ==> !occurs_at(hay, needle, j),
        },
    decreases hay.len() - from + 1,
{
    if from + needle.len() <= hay.len() && !occurs_at(hay, needle, from) {
        lemma_first_at(hay, needle, from + 1);
    }
}

/// `needle` stands in `hay` exactly when `first_at` finds it from the start.
pub proof fn lemma_has_iff_first(hay: Seq<char>, needle: Seq<char>)
    ensures
        has(hay, needle) <==> first_at(hay, needle, 0) is Some,
{
    lemma_first_at(hay, needle, 0);
}

/// Whether `needle` stands in `hay` at position `i`.
pub fn occurs(hay: &Vec<char>, needle: &Vec<char>, i: usize) -> (r: bool)
    ensures
        r == occurs_at(hay@, needle@, i as int),
{
    if needle.len() > hay.len() || i > hay.len() - needle.len() {
        return false;
    }
    let mut k: usize = 0;
    while k < needle.len()
        invariant
            k <= needle.len(),
            i + needle.len() <= hay.len(),
            forall|j: int| 0 <= j < k ==> hay@[i + j] == needle@[j],
        decreases needle.len() - k,
    {
        if hay[i + k] != needle[k] {
            return false;
        }
        k += 1;
    }
    assert(hay@.subrange(i as int, i + needle.len()) =~= needle@);
    true
}

/// The first position at which `needle` stands in `hay`.
pub fn find(hay: &Vec<char>, needle: &Vec<char>) -> (r: Option<usize>)
    ensures
        match r {
            Some(i) => first_at(hay@, needle@, 0) == Some(i as int),
            None => first_at(hay@, needle@, 0) is None,
        },
{
    if needle.len() > hay.len() {
        return None;
    }
    let last: usize = hay.len() - needle.len();
    let mut i: usize = 0;
    loop
        invariant
            i <= last,
            last == hay.len() - needle.len(),
            first_at(hay@, needle@, 0) == first_at(hay@, needle@, i as int),
        decreases last - i,
    {
        if occurs(hay, needle, i) {
            return Some(i);
        }
        if i == last {
            assert(first_at(hay@, needle@, i + 1) is None);
            return None;
        }
        i += 1;
    }
}

/// Whether `needle` stands somewhere in `hay`.
pub fn contains(hay: &Vec<char>, needle: &Vec<char>) -> (r: bool)
    ensures
        r == has(hay@, needle@),
{
    proof {
        lemma_has_iff_first(hay@, needle@);
    }
    find(hay, needle).is_some()
}

/// Whether `v` begins with `prefix`.
pub fn begins_with(v: &Vec<char>, prefix: &Vec<char>) -> (r: bool)
    ensures
        r == prefix@.is_prefix_of(v@),
{
    let r = occurs(v, prefix, 0);
    r
}

/// Appends the characters of `more` to `out`.
pub fn extend(out: &mut Vec<char>, more: &Vec<char>)
    ensures
        final(out)@ == old(out)@ + more@,
{
    let mut i: usize = 0;
    while i < more.len()
        invariant
            i <= more.len(),
            out@ == old(out)@ + more@.take(i as int),
        decreases more.len() - i,
    {
        out.push(more[i]);
        i += 1;
    }
}

/// Appends the characters of the string slice `more` to `out`.
pub fn extend_str(out: &mut Vec<char>, more: &str)
    ensures
        final(out)@ == old(out)@ + more@,
{
    let more = chars_of(more);
    extend(out, &more);
}

/// `n` blanks.
pub open spec fn blanks(n: nat) -> Seq<char> {
    Seq::new(n, |i: int| ' ')
}

/// `s` with blanks before it, as many as it takes to make it `width`
/// characters long; `s` itself where it is that long already.
pub open spec fn padded_left(s: Seq<char>, width: nat) -> Seq<char> {
    if s.len() >= width {
        s
    } else {
        blanks((width - s.len()) as nat) + s
    }
}

/// `s` with blanks after it, as many as it takes to make it `width`
/// characters long; `s` itself where it is that long already.
pub open spec fn padded_right(s: Seq<char>, width: nat) -> Seq<char> {
    if s.len() >= width {
        s
    } else {
        s + blanks((width - s.len()) as nat)
    }
}

/// Appends `n` blanks to `out`.
pub fn extend_blanks(out: &mut Vec<char>, n: usize)
    ensures
        final(out)@ == old(out)@ + blanks(n as nat),
{
    let mut i: usize = 0;
    while i < n
        invariant
            i <= n,
            out@ == old(out)@ + blanks(i as nat),
        decreases n - i,
    {
        out.push(' ');
        i += 1;
    }
}

/// Appends `s` to `out`, with blanks before it up to `width` characters
/// (see `padded_left`).
pub fn extend_padded_left(out: &mut Vec<char>, s: &Vec<char>, width: usize)
    ensures
        final(out)@ == old(out)@ + padded_left(s@, width as nat),
{
    if s.len() < width {
        extend_blanks(out, width - s.len());
    }
    extend(out, s);
}

/// Appends `s` to `out`, with blanks after it up to `width` characters (see
/// `padded_right`).
pub fn extend_padded_right(out: &mut Vec<char>, s: &Vec<char>, width: usize)
    ensures
        final(out)@ == old(out)@ + padded_right(s@, width as nat),
{
    extend(out, s);
    if s.len() < width {
        extend_blanks(out, width - s.len());
    }
}

} // verus!
