//! Character-level text handling shared by the telemetry parsers.
//!
//! Every parser works on a sequence of characters.  This module says what a
//! line, a whitespace-separated field and a trimmed text are, as functions on
//! `Seq<char>`, and provides executable code proved against those statements.

use vstd::prelude::*;
use vstd::string::StringExecFns;

verus! {

/// A class of characters, used to measure runs of similar characters.
#[derive(Clone, Copy, Debug)]
pub enum CharClass {
    /// White space.
    Space,
    /// Anything but white space.
    Word,
    /// Anything but the given character.
    Except(char),
    /// The given character only.
    Only(char),
    /// One of the characters `0` to `9`.
    Digit,
}

/// White space: the characters with the Unicode property `White_Space`.
pub open spec fn is_space(c: char) -> bool {
    let n = c as u32;
    ||| 0x09 <= n <= 0x0D
    ||| n == 0x20
    ||| n == 0x85
    ||| n == 0xA0
    ||| n == 0x1680
    ||| 0x2000 <= n <= 0x200A
    ||| n == 0x2028
    ||| n == 0x2029
    ||| n == 0x202F
    ||| n == 0x205F
    ||| n == 0x3000
}

/// Tells whether a character is white space.
pub fn is_space_char(c: char) -> (b: bool)
    ensures
        b == is_space(c),
{
    let n: u32 = c as u32;
    (0x09 <= n && n <= 0x0D) || n == 0x20 || n == 0x85 || n == 0xA0 || n == 0x1680 || (0x2000 <= n
        && n <= 0x200A) || n == 0x2028 || n == 0x2029 || n == 0x202F || n == 0x205F || n == 0x3000
}

impl CharClass {
    /// Membership of a character in the class.
    pub open spec fn has(self, c: char) -> bool {
        match self {
            CharClass::Space => is_space(c),
            CharClass::Word => !is_space(c),
            CharClass::Except(x) => c != x,
            CharClass::Only(x) => c == x,
            CharClass::Digit => 0x30 <= c as u32 <= 0x39,
        }
    }

    /// Tells whether the class holds the character.
    pub fn contains(&self, c: char) -> (b: bool)
        ensures
            b == self.has(c),
    {
        match self {
            CharClass::Space => is_space_char(c),
            CharClass::Word => !is_space_char(c),
            CharClass::Except(x) => c != *x,
            CharClass::Only(x) => c == *x,
            CharClass::Digit => {
                let n: u32 = c as u32;
                0x30 <= n && n <= 0x39
            },
        }
    }
}

/// Length of the longest prefix of `s` made of characters of `class`.
pub open spec fn run_len(s: Seq<char>, class: CharClass) -> int
    decreases s.len(),
{
    if s.len() == 0 || !class.has(s[0]) {
        0
    } else {
        1 + run_len(s.drop_first(), class)
    }
}

/// Length of the longest suffix of `s` made of characters of `class`.
pub open spec fn tail_run_len(s: Seq<char>, class: CharClass) -> int
    decreases s.len(),
{
    if s.len() == 0 || !class.has(s.last()) {
        0
    } else {
        1 + tail_run_len(s.drop_last(), class)
    }
}

/// A run is within the text.
pub proof fn lemma_run_len_bounds(s: Seq<char>, class: CharClass)
    ensures
        0 <= run_len(s, class) <= s.len(),
        forall|k: int| 0 <= k < run_len(s, class) ==> class.has(#[trigger] s[k]),
        run_len(s, class) < s.len() ==> !class.has(s[run_len(s, class)]),
    decreases s.len(),
{
    if s.len() == 0 || !class.has(s[0]) {
    } else {
        let t = s.drop_first();
        lemma_run_len_bounds(t, class);
        assert forall|k: int| 0 <= k < run_len(s, class) implies class.has(#[trigger] s[k]) by {
            if k > 0 {
                assert(s[k] == t[k - 1]);
            }
        }
        if run_len(s, class) < s.len() {
            assert(s[run_len(s, class)] == t[run_len(t, class)]);
        }
    }
}

/// A prefix of class members that ends the text, or is followed by a
/// non-member, is the run.
pub proof fn lemma_run_len_is(s: Seq<char>, class: CharClass, n: int)
    requires
        0 <= n <= s.len(),
        forall|k: int| 0 <= k < n ==> class.has(#[trigger] s[k]),
        n == s.len() || !class.has(s[n]),
    ensures
        run_len(s, class) == n,
    decreases s.len(),
{
    if n == 0 {
    } else {
        let t = s.drop_first();
        assert forall|k: int| 0 <= k < n - 1 implies class.has(#[trigger] t[k]) by {
            assert(t[k] == s[k + 1]);
        }
        if n - 1 < t.len() {
            assert(t[n - 1] == s[n]);
        }
        lemma_run_len_is(t, class, n - 1);
    }
}

/// A suffix of class members that starts the text, or is preceded by a
/// non-member, is the trailing run.
pub proof fn lemma_tail_run_len_is(s: Seq<char>, class: CharClass, n: int)
    requires
        0 <= n <= s.len(),
        forall|k: int| s.len() - n <= k < s.len() ==> class.has(#[trigger] s[k]),
        n == s.len() || !class.has(s[s.len() - n - 1]),
    ensures
        tail_run_len(s, class) == n,
    decreases s.len(),
{
    if n == 0 {
    } else {
        let t = s.drop_last();
        assert forall|k: int| t.len() - (n - 1) <= k < t.len() implies class.has(
            #[trigger] t[k],
        ) by {
            assert(t[k] == s[k]);
        }
        if n - 1 < t.len() {
            assert(t[t.len() - (n - 1) - 1] == s[s.len() - n - 1]);
        }
        lemma_tail_run_len_is(t, class, n - 1);
    }
}

/// Measures the run of `class` that starts at `from`.
pub fn scan_run(s: &[char], from: usize, class: CharClass) -> (to: usize)
    requires
        from <= s@.len(),
    ensures
        from <= to <= s@.len(),
        to - from == run_len(s@.skip(from as int), class),
{
    let mut to: usize = from;
    while to < s.len() && class.contains(s[to])
        invariant
            from <= to <= s@.len(),
            forall|k: int| from <= k < to ==> class.has(#[trigger] s@[k]),
        decreases s@.len() - to,
    {
        to = to + 1;
    }
    proof {
        let t = s@.skip(from as int);
        assert forall|k: int| 0 <= k < to - from implies class.has(#[trigger] t[k]) by {
            assert(t[k] == s@[from + k]);
        }
        lemma_run_len_is(t, class, to - from);
    }
    to
}

/// Measures, backwards, the run of `class` that ends at `to`, within
/// `from..to`.
pub fn scan_run_back(s: &[char], from: usize, to: usize, class: CharClass) -> (start: usize)
    requires
        from <= to <= s@.len(),
    ensures
        from <= start <= to,
        to - start == tail_run_len(s@.subrange(from as int, to as int), class),
{
    let mut start: usize = to;
    while start > from && class.contains(s[start - 1])
        invariant
            from <= start <= to <= s@.len(),
            forall|k: int| start <= k < to ==> class.has(#[trigger] s@[k]),
        decreases start,
    {
        start = start - 1;
    }
    proof {
        let t = s@.subrange(from as int, to as int);
        assert forall|k: int| t.len() - (to - start) <= k < t.len() implies class.has(
            #[trigger] t[k],
        ) by {
            assert(t[k] == s@[from + k]);
        }
        lemma_tail_run_len_is(t, class, to - start);
    }
    start
}

/// Copies the characters at `from..to`.
pub fn copy_range(s: &[char], from: usize, to: usize) -> (out: Vec<char>)
    requires
        from <= to <= s@.len(),
    ensures
        out@ == s@.subrange(from as int, to as int),
{
    let mut out: Vec<char> = Vec::new();
    let mut i: usize = from;
    while i < to
        invariant
            from <= i <= to <= s@.len(),
            out@ == s@.subrange(from as int, i as int),
        decreases to - i,
    {
        out.push(s[i]);
        i = i + 1;
        assert(out@ =~= s@.subrange(from as int, i as int));
    }
    out
}

/// Collects the characters of a string slice.
pub fn chars_of(s: &str) -> (out: Vec<char>)
    ensures
        out@ == s@,
{
    let mut out: Vec<char> = Vec::new();
    for c in it: s.chars()
        invariant
            out@ == it.seq().take(it.index() as int),
    {
        out.push(c);
    }
    out
}

/// Builds a string from characters.
///
/// Trusted: calls `String::from_iter` of std on the characters in order; the
/// contract claims that the string holds exactly these characters.
#[verifier::external_body]
pub(crate) fn string_of(chars: &[char]) -> (out: String)
    ensures
        out@ == chars@,
{
    String::from_iter(chars.iter())
}

/// Writes a fixed label in front of a text.
pub fn label(prefix: &str, body: &[char]) -> (out: String)
    ensures
        out@ == prefix@ + body@,
{
    let tail = string_of(body);
    prefix.to_owned().concat(tail.as_str())
}

/// Joins two texts.
pub fn join(head: &str, tail: &str) -> (out: String)
    ensures
        out@ == head@ + tail@,
{
    head.to_owned().concat(tail)
}

/// Two texts hold the same characters.
pub fn same_text(a: &[char], b: &[char]) -> (eq: bool)
    ensures
        eq == (a@ == b@),
{
    if a.len() != b.len() {
        return false;
    }
    let mut i: usize = 0;
    while i < a.len()
        invariant
            a@.len() == b@.len(),
            0 <= i <= a@.len(),
            forall|k: int| 0 <= k < i ==> a@[k] == b@[k],
        decreases a@.len() - i,
    {
        if a[i] != b[i] {
            return false;
        }
        i = i + 1;
    }
    assert(a@ =~= b@);
    true
}

/// The text has `prefix` at its start.
pub open spec fn has_prefix(s: Seq<char>, prefix: Seq<char>) -> bool {
    prefix.len() <= s.len() && s.take(prefix.len() as int) == prefix
}

/// Tells whether the text starts with `prefix`.
pub fn starts_with(s: &[char], prefix: &[char]) -> (b: bool)
    ensures
        b == has_prefix(s@, prefix@),
{
    if prefix.len() > s.len() {
        return false;
    }
    let mut i: usize = 0;
    while i < prefix.len()
        invariant
            prefix@.len() <= s@.len(),
            0 <= i <= prefix@.len(),
            forall|k: int| 0 <= k < i ==> s@[k] == prefix@[k],
        decreases prefix@.len() - i,
    {
        if s[i] != prefix[i] {
            assert(s@.take(prefix@.len() as int)[i as int] != prefix@[i as int]);
            return false;
        }
        i = i + 1;
    }
    assert(s@.take(prefix@.len() as int) =~= prefix@);
    true
}

/// The text holds white space only (or nothing).
pub open spec fn is_blank(s: Seq<char>) -> bool {
    run_len(s, CharClass::Space) == s.len()
}

/// Tells whether the text is blank.
pub fn blank(s: &[char]) -> (b: bool)
    ensures
        b == is_blank(s@),
{
    let end = scan_run(s, 0, CharClass::Space);
    assert(s@.skip(0) =~= s@);
    end == s.len()
}

/// The text without its leading and trailing white space.
pub open spec fn trim_of(s: Seq<char>) -> Seq<char> {
    let rest = s.skip(run_len(s, CharClass::Space));
    rest.take(rest.len() - tail_run_len(rest, CharClass::Space))
}

/// Removes leading and trailing white space.
pub fn trim(s: &[char]) -> (out: Vec<char>)
    ensures
        out@ == trim_of(s@),
{
    let from = scan_run(s, 0, CharClass::Space);
    let to = scan_run_back(s, from, s.len(), CharClass::Space);
    proof {
        assert(s@.skip(0) =~= s@);
        let rest = s@.skip(from as int);
        assert(rest =~= s@.subrange(from as int, s@.len() as int));
        assert(rest.take(rest.len() - (s@.len() - to)) =~= s@.subrange(from as int, to as int));
    }
    copy_range(s, from, to)
}

/// The text without a trailing `\r`, if it has one.
pub open spec fn strip_cr(s: Seq<char>) -> Seq<char> {
    if s.len() > 0 && s.last() == '\r' {
        s.drop_last()
    } else {
        s
    }
}

/// The lines of a text.  A line ends at `\n`, which is not part of it, nor is
/// a `\r` just before it.  What follows the last `\n` is a line unless it is
/// empty.
pub open spec fn lines_of(s: Seq<char>) -> Seq<Seq<char>>
    decreases s.len(),
{
    if s.len() == 0 {
        Seq::empty()
    } else {
        let n = run_len(s, CharClass::Except('\n'));
        if 0 <= n < s.len() {
            seq![strip_cr(s.take(n))] + lines_of(s.skip(n + 1))
        } else {
            seq![s]
        }
    }
}

/// The white-space separated fields of a text: its maximal runs of
/// characters that are not white space, in order.
pub open spec fn fields_of(s: Seq<char>) -> Seq<Seq<char>>
    decreases s.len(),
{
    let rest = s.skip(run_len(s, CharClass::Space));
    let w = run_len(rest, CharClass::Word);
    if 0 < w <= rest.len() <= s.len() {
        seq![rest.take(w)] + fields_of(rest.skip(w))
    } else {
        Seq::empty()
    }
}

/// Index of the first item that is `bad`; the number of items if none is.
pub open spec fn first_where<T>(items: Seq<T>, bad: spec_fn(T) -> bool) -> int
    decreases items.len(),
{
    if items.len() == 0 {
        0
    } else {
        let k = first_where(items.drop_last(), bad);
        if k < items.len() - 1 {
            k
        } else if bad(items.last()) {
            items.len() - 1
        } else {
            items.len() as int
        }
    }
}

/// A bad item found in a prefix is the first of the whole.
pub proof fn lemma_first_where_prefix<T>(items: Seq<T>, bad: spec_fn(T) -> bool, n: int)
    requires
        0 <= n <= items.len(),
        first_where(items.take(n), bad) < n,
    ensures
        first_where(items, bad) == first_where(items.take(n), bad),
    decreases items.len() - n,
{
    if n < items.len() {
        assert(items.take(n + 1).drop_last() =~= items.take(n));
        lemma_first_where_prefix(items, bad, n + 1);
    } else {
        assert(items.take(n) =~= items);
    }
}

/// What one more item adds to the search for the first bad one.
pub proof fn lemma_first_where_step<T>(items: Seq<T>, bad: spec_fn(T) -> bool, i: int)
    requires
        0 <= i < items.len(),
        first_where(items.take(i), bad) == i,
    ensures
        !bad(items[i]) ==> first_where(items.take(i + 1), bad) == i + 1,
        bad(items[i]) ==> first_where(items, bad) == i,
{
    assert(items.take(i + 1).drop_last() =~= items.take(i));
    assert(items.take(i + 1).last() == items[i]);
    if bad(items[i]) {
        lemma_first_where_prefix(items, bad, i + 1);
    }
}

/// Builds one string from each text.
pub fn strings_of(texts: &Vec<Vec<char>>) -> (out: Vec<String>)
    ensures
        out@.len() == texts@.len(),
        forall|i: int| 0 <= i < out@.len() ==> (#[trigger] out@[i])@ == texts@[i]@,
{
    let mut out: Vec<String> = Vec::new();
    let mut i: usize = 0;
    while i < texts.len()
        invariant
            0 <= i <= texts@.len(),
            out@.len() == i,
            forall|k: int| 0 <= k < i ==> (#[trigger] out@[k])@ == texts@[k]@,
        decreases texts@.len() - i,
    {
        out.push(string_of(texts[i].as_slice()));
        i = i + 1;
    }
    out
}

/// The models of the records in a vector.
pub open spec fn views<T: View>(v: Seq<T>) -> Seq<T::V> {
    Seq::new(v.len(), |i: int| v[i]@)
}

/// The texts held by a vector of character vectors.
pub open spec fn rows(v: Seq<Vec<char>>) -> Seq<Seq<char>> {
    Seq::new(v.len(), |i: int| v[i]@)
}

/// Splits a text into its lines.
pub fn split_lines(s: &[char]) -> (out: Vec<Vec<char>>)
    ensures
        rows(out@) == lines_of(s@),
{
    let mut out: Vec<Vec<char>> = Vec::new();
    let mut pos: usize = 0;
    assert(s@.skip(0) =~= s@);
    assert(rows(out@) + lines_of(s@.skip(0)) =~= lines_of(s@));
    while pos < s.len()
        invariant
            0 <= pos <= s@.len(),
            rows(out@) + lines_of(s@.skip(pos as int)) == lines_of(s@),
        decreases s@.len() - pos,
    {
        let ghost rest = s@.skip(pos as int);
        let ghost before = rows(out@);
        let end = scan_run(s, pos, CharClass::Except('\n'));
        if end < s.len() {
            let stop: usize = if end > pos && s[end - 1] == '\r' {
                end - 1
            } else {
                end
            };
            let line = copy_range(s, pos, stop);
            proof {
                let n = end - pos;
                assert(rest.take(n) =~= s@.subrange(pos as int, end as int));
                assert(strip_cr(rest.take(n)) =~= line@);
                assert(rest.skip(n + 1) =~= s@.skip(end + 1));
            }
            out.push(line);
            pos = end + 1;
            proof {
                assert(rows(out@) =~= before + seq![line@]);
                assert(rows(out@) + lines_of(s@.skip(pos as int)) =~= before + lines_of(rest));
            }
        } else {
            let line = copy_range(s, pos, end);
            proof {
                assert(rest =~= line@);
                assert(lines_of(rest) =~= seq![rest]);
            }
            out.push(line);
            pos = end;
            proof {
                assert(rows(out@) =~= before + seq![line@]);
                assert(s@.skip(pos as int).len() == 0);
                assert(rows(out@) + lines_of(s@.skip(pos as int)) =~= before + lines_of(rest));
            }
        }
    }
    proof {
        assert(s@.skip(pos as int).len() == 0);
        assert(rows(out@) + lines_of(s@.skip(pos as int)) =~= rows(out@));
    }
    out
}

/// Splits a text into its white-space separated fields.
pub fn split_fields(s: &[char]) -> (out: Vec<Vec<char>>)
    ensures
        rows(out@) == fields_of(s@),
{
    let mut out: Vec<Vec<char>> = Vec::new();
    let mut pos: usize = 0;
    assert(s@.skip(0) =~= s@);
    assert(rows(out@) + fields_of(s@.skip(0)) =~= fields_of(s@));
    loop
        invariant
            0 <= pos <= s@.len(),
            rows(out@) + fields_of(s@.skip(pos as int)) == fields_of(s@),
        ensures
            rows(out@) == fields_of(s@),
        decreases s@.len() - pos,
    {
        let ghost cur = s@.skip(pos as int);
        let ghost before = rows(out@);
        let start = scan_run(s, pos, CharClass::Space);
        let end = scan_run(s, start, CharClass::Word);
        proof {
            assert(cur.skip(start - pos) =~= s@.skip(start as int));
        }
        if end == start {
            proof {
                assert(fields_of(cur) =~= Seq::<Seq<char>>::empty());
                assert(before + fields_of(cur) =~= before);
            }
            break ;
        }
        let word = copy_range(s, start, end);
        proof {
            let rest = s@.skip(start as int);
            assert(rest.take(end - start) =~= word@);
            assert(rest.skip(end - start) =~= s@.skip(end as int));
        }
        out.push(word);
        pos = end;
        proof {
            assert(rows(out@) =~= before + seq![word@]);
            assert(rows(out@) + fields_of(s@.skip(pos as int)) =~= before + fields_of(cur));
        }
    }
    out
}

} // verus!
