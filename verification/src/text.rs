//! Character-level text utilities: the string work the build logic needs,
//! each one stated over the `Seq<char>` view of its arguments.
use vstd::prelude::*;
use vstd::string::StringExecFns;
use vstd::string::StringSliceAdditionalSpecFns;

verus! {

// ---------------------------------------------------------------------------
// Specifications
// ---------------------------------------------------------------------------

/// The position of the first `c` in `s`, if `s` holds one.
pub open spec fn find_char(s: Seq<char>, c: char) -> Option<int>
    decreases s.len(),
{
    if s.len() == 0 {
        None
    } else if s[0] == c {
        Some(0)
    } else {
        match find_char(s.drop_first(), c) {
            Some(i) => Some(i + 1),
            None => None,
        }
    }
}

/// `i` is the position of the first `c` in `s`.
pub open spec fn is_first_index(s: Seq<char>, c: char, i: int) -> bool {
    &&& 0 <= i < s.len()
    &&& s[i] == c
    &&& forall|j: int| 0 <= j < i ==> s[j] != c
}

/// `s` with every `from` replaced by `to`.
pub open spec fn replace_char(s: Seq<char>, from: char, to: char) -> Seq<char> {
    s.map_values(|x: char| if x == from { to } else { x })
}

/// `p` is a prefix of `s`.
pub open spec fn has_prefix(s: Seq<char>, p: Seq<char>) -> bool {
    p.len() <= s.len() && s.take(p.len() as int) == p
}

/// `p` occurs in `s` at position `k`.
pub open spec fn occurs_at(s: Seq<char>, p: Seq<char>, k: int) -> bool {
    0 <= k && k + p.len() <= s.len() && s.subrange(k, k + p.len()) == p
}

/// `p` occurs somewhere in `s`.
pub open spec fn contains_seq(s: Seq<char>, p: Seq<char>) -> bool {
    exists|k: int| occurs_at(s, p, k)
}

/// A line without the carriage return that ends it, if it has one.
pub open spec fn strip_cr(line: Seq<char>) -> Seq<char> {
    if line.len() > 0 && line.last() == '\r' {
        line.drop_last()
    } else {
        line
    }
}

/// The lines of `s`, as `str::lines` reads them: split at each `\n`, each
/// line without its `\r\n` or `\n` ending, and no empty line after a final
/// line ending.
pub open spec fn lines(s: Seq<char>) -> Seq<Seq<char>>
    decreases s.len(),
{
    if s.len() == 0 {
        seq![]
    } else {
        match find_char(s, '\n') {
            Some(i) => {
                proof {
                    lemma_find_char(s, '\n');
                }
                seq![strip_cr(s.take(i))] + lines(s.skip(i + 1))
            },
            None => seq![s],
        }
    }
}

// ---------------------------------------------------------------------------
// Lemmas
// ---------------------------------------------------------------------------

/// `find_char` finds the first occurrence, and finds nothing only where
/// there is none.
pub proof fn lemma_find_char(s: Seq<char>, c: char)
    ensures
        find_char(s, c) matches Some(i) ==> is_first_index(s, c, i),
        find_char(s, c) is None ==> forall|j: int| 0 <= j < s.len() ==> s[j] != c,
    decreases s.len(),
{
    if s.len() > 0 && s[0] != c {
        lemma_find_char(s.drop_first(), c);
        if let Some(i) = find_char(s.drop_first(), c) {
            assert forall|j: int| 0 <= j < i + 1 implies s[j] != c by {
                if j > 0 {
                    assert(s[j] == s.drop_first()[j - 1]);
                }
            }
        } else {
            assert forall|j: int| 0 <= j < s.len() implies s[j] != c by {
                if j > 0 {
                    assert(s[j] == s.drop_first()[j - 1]);
                }
            }
        }
    }
}

/// The first occurrence of a character is unique, and `find_char` finds it.
pub proof fn lemma_first_index_found(s: Seq<char>, c: char, i: int)
    requires
        is_first_index(s, c, i),
    ensures
        find_char(s, c) == Some(i),
{
    lemma_find_char(s, c);
    match find_char(s, c) {
        Some(k) => {
            if k < i {
                assert(s[k] != c);
            } else if i < k {
                assert(s[i] != c);
            }
        },
        None => {
            assert(s[i] != c);
        },
    }
}

/// A text without `c` has no first `c`.
pub proof fn lemma_find_char_none(s: Seq<char>, c: char)
    requires
        forall|j: int| 0 <= j < s.len() ==> s[j] != c,
    ensures
        find_char(s, c) is None,
{
    lemma_find_char(s, c);
    if let Some(i) = find_char(s, c) {
        assert(s[i] != c);
    }
}

/// No line holds a line feed.
pub proof fn lemma_lines_have_no_newline(s: Seq<char>)
    ensures
        forall|k: int, j: int|
            0 <= k < lines(s).len() && 0 <= j < lines(s)[k].len() ==> lines(s)[k][j] != '\n',
    decreases s.len(),
{
    if s.len() > 0 {
        lemma_find_char(s, '\n');
        match find_char(s, '\n') {
            Some(i) => {
                lemma_lines_have_no_newline(s.skip(i + 1));
                let first = strip_cr(s.take(i));
                assert forall|k: int, j: int|
                    0 <= k < lines(s).len() && 0 <= j < lines(s)[k].len() implies lines(s)[k][j]
                    != '\n' by {
                    if k == 0 {
                        assert(lines(s)[k] == first);
                        assert(first[j] == s[j]);
                    } else {
                        assert(lines(s)[k] == lines(s.skip(i + 1))[k - 1]);
                    }
                }
            },
            None => {},
        }
    }
}

/// The lines of a text that follow a line feed are lines of the whole
/// text, whatever precedes that line feed.
pub proof fn lemma_lines_after_line_feed(before: Seq<char>, rest: Seq<char>, k: int)
    requires
        0 <= k < lines(rest).len(),
    ensures
        exists|m: int|
            0 <= m < lines(before + seq!['\n'] + rest).len() && #[trigger] lines(
                before + seq!['\n'] + rest,
            )[m] == lines(rest)[k],
    decreases before.len(),
{
    let s = before + seq!['\n'] + rest;
    lemma_find_char(before, '\n');
    match find_char(before, '\n') {
        Some(i) => {
            assert(is_first_index(s, '\n', i));
            lemma_first_index_found(s, '\n', i);
            let tail = before.skip(i + 1);
            assert(s.skip(i + 1) =~= tail + seq!['\n'] + rest);
            lemma_lines_after_line_feed(tail, rest, k);
            let m = choose|m: int|
                0 <= m < lines(tail + seq!['\n'] + rest).len() && #[trigger] lines(
                    tail + seq!['\n'] + rest,
                )[m] == lines(rest)[k];
            assert(lines(s) == seq![strip_cr(s.take(i))] + lines(s.skip(i + 1)));
            assert(lines(s)[m + 1] == lines(rest)[k]);
        },
        None => {
            let n = before.len() as int;
            assert(is_first_index(s, '\n', n));
            lemma_first_index_found(s, '\n', n);
            assert(s.skip(n + 1) =~= rest);
            assert(lines(s) == seq![strip_cr(s.take(n))] + lines(rest));
            assert(lines(s)[k + 1] == lines(rest)[k]);
        },
    }
}

/// A line ended by a line feed is the first line of what it starts.
pub proof fn lemma_first_line(line: Seq<char>, after: Seq<char>)
    requires
        forall|j: int| 0 <= j < line.len() ==> line[j] != '\n',
    ensures
        lines(line + seq!['\n'] + after).len() > 0,
        lines(line + seq!['\n'] + after)[0] == strip_cr(line),
{
    let s = line + seq!['\n'] + after;
    assert(is_first_index(s, '\n', line.len() as int));
    lemma_first_index_found(s, '\n', line.len() as int);
    assert(s.take(line.len() as int) =~= line);
    assert(lines(s) == seq![strip_cr(s.take(line.len() as int))] + lines(
        s.skip(line.len() as int + 1),
    ));
}

/// A text of one unended line is that line.
pub proof fn lemma_single_line(line: Seq<char>)
    requires
        line.len() > 0,
        forall|j: int| 0 <= j < line.len() ==> line[j] != '\n',
    ensures
        lines(line) == seq![line],
{
    lemma_find_char_none(line, '\n');
}

// ---------------------------------------------------------------------------
// Executable functions
// ---------------------------------------------------------------------------

/// Appends one character to a string.
///
/// Trusted: calls `String::push`, which std documents as appending the
/// given `char` to the end of the string.
#[verifier::external_body]
fn push_char(s: &mut String, c: char)
    ensures
        final(s)@ == old(s)@.push(c),
{
    s.push(c);
}

/// The characters of `s`, in order.
pub fn chars_of(s: &str) -> (r: Vec<char>)
    ensures
        r@ == s@,
{
    let mut r: Vec<char> = Vec::new();
    for c in it: s.chars()
        invariant
            r@ == it.seq().take(it.index() as int),
            it.seq() == s@,
    {
        r.push(c);
    }
    r
}

/// A string holding the characters of `cs`.
pub fn string_of(cs: &[char]) -> (r: String)
    ensures
        r@ == cs@,
{
    let mut r = String::new();
    let mut i: usize = 0;
    while i < cs.len()
        invariant
            i <= cs.len(),
            r@ == cs@.take(i as int),
        decreases cs.len() - i,
    {
        push_char(&mut r, cs[i]);
        assert(cs@.take(i as int).push(cs@[i as int]) =~= cs@.take(i + 1));
        i = i + 1;
    }
    assert(cs@.take(cs.len() as int) =~= cs@);
    r
}

/// Whether `a` and `b` hold the same characters.
pub fn str_eq(a: &str, b: &str) -> (r: bool)
    ensures
        r == (a@ == b@),
{
    let x = a.as_bytes();
    let y = b.as_bytes();
    proof {
        vstd::utf8::encode_utf8_decode_utf8(a@);
        vstd::utf8::encode_utf8_decode_utf8(b@);
    }
    if x.len() != y.len() {
        return false;
    }
    let mut i: usize = 0;
    while i < x.len()
        invariant
            x.len() == y.len(),
            i <= x.len(),
            x@ == a.spec_bytes(),
            y@ == b.spec_bytes(),
            forall|j: int| 0 <= j < i ==> x@[j] == y@[j],
        decreases x.len() - i,
    {
        if x[i] != y[i] {
            return false;
        }
        i = i + 1;
    }
    assert(x@ =~= y@);
    true
}

/// The concatenation of `a` and `b`.
pub fn concat_strs(a: &str, b: &str) -> (r: String)
    ensures
        r@ == a@ + b@,
{
    let mut r = a.to_owned();
    r.append(b);
    r
}

/// `s` with every `from` replaced by `to`.
pub fn replace_char_in(s: &str, from: char, to: char) -> (r: String)
    ensures
        r@ == replace_char(s@, from, to),
{
    let cs = chars_of(s);
    let mut out: Vec<char> = Vec::new();
    let mut i: usize = 0;
    while i < cs.len()
        invariant
            i <= cs.len(),
            cs@ == s@,
            out@ == replace_char(s@, from, to).take(i as int),
        decreases cs.len() - i,
    {
        let c = cs[i];
        if c == from {
            out.push(to);
        } else {
            out.push(c);
        }
        assert(out@ =~= replace_char(s@, from, to).take(i + 1));
        i = i + 1;
    }
    assert(replace_char(s@, from, to).take(cs.len() as int) =~= replace_char(s@, from, to));
    string_of(out.as_slice())
}

/// The position of the first `c` in `s`, as `find_char` states it.
pub fn find_char_in(s: &[char], c: char) -> (r: Option<usize>)
    ensures
        r matches Some(i) ==> find_char(s@, c) == Some(i as int) && is_first_index(s@, c, i as int),
        r is None ==> find_char(s@, c) is None,
{
    let mut i: usize = 0;
    while i < s.len()
        invariant
            i <= s.len(),
            forall|j: int| 0 <= j < i ==> s@[j] != c,
        decreases s.len() - i,
    {
        if s[i] == c {
            proof {
                lemma_first_index_found(s@, c, i as int);
            }
            return Some(i);
        }
        i = i + 1;
    }
    proof {
        lemma_find_char_none(s@, c);
    }
    None
}

/// Whether `p` is a prefix of `s`.
pub fn starts_with(s: &[char], p: &[char]) -> (r: bool)
    ensures
        r == has_prefix(s@, p@),
{
    if p.len() > s.len() {
        return false;
    }
    let mut i: usize = 0;
    while i < p.len()
        invariant
            p.len() <= s.len(),
            i <= p.len(),
            forall|j: int| 0 <= j < i ==> s@[j] == p@[j],
        decreases p.len() - i,
    {
        if s[i] != p[i] {
            assert(s@.take(p.len() as int)[i as int] != p@[i as int]);
            return false;
        }
        i = i + 1;
    }
    assert(s@.take(p.len() as int) =~= p@);
    true
}

/// Whether `p` occurs in `s` at position `k`.
fn matches_at(s: &[char], p: &[char], k: usize) -> (r: bool)
    requires
        k + p.len() <= s.len(),
    ensures
        r == occurs_at(s@, p@, k as int),
{
    let mut i: usize = 0;
    while i < p.len()
        invariant
            k + p.len() <= s.len(),
            i <= p.len(),
            forall|j: int| 0 <= j < i ==> s@[k + j] == p@[j],
        decreases p.len() - i,
    {
        if s[k + i] != p[i] {
            assert(s@.subrange(k as int, k + p.len())[i as int] != p@[i as int]);
            return false;
        }
        i = i + 1;
    }
    assert(s@.subrange(k as int, k + p.len()) =~= p@);
    true
}

/// Whether `p` occurs anywhere in `s`.
pub fn contains(s: &[char], p: &[char]) -> (r: bool)
    ensures
        r == contains_seq(s@, p@),
{
    if p.len() > s.len() {
        assert forall|k: int| !occurs_at(s@, p@, k) by {}
        return false;
    }
    let last = s.len() - p.len();
    let mut k: usize = 0;
    loop
        invariant_except_break
            last == s.len() - p.len(),
            p.len() <= s.len(),
            k <= last,
            forall|j: int| 0 <= j < k ==> !occurs_at(s@, p@, j),
        ensures
            forall|j: int| 0 <= j <= last ==> !occurs_at(s@, p@, j),
        decreases last - k,
    {
        if matches_at(s, p, k) {
            return true;
        }
        if k == last {
            break;
        }
        k = k + 1;
    }
    assert forall|j: int| !occurs_at(s@, p@, j) by {}
    false
}

/// `line` without the carriage return that ends it, if it has one.
fn strip_cr_of(line: Vec<char>) -> (r: Vec<char>)
    ensures
        r@ == strip_cr(line@),
{
    let mut line = line;
    if line.len() > 0 && line[line.len() - 1] == '\r' {
        line.pop();
    }
    line
}

/// The characters of `s` from `from` up to `to`.
fn slice_chars(s: &[char], from: usize, to: usize) -> (r: Vec<char>)
    requires
        from <= to <= s.len(),
    ensures
        r@ == s@.subrange(from as int, to as int),
{
    let mut r: Vec<char> = Vec::new();
    let mut i = from;
    while i < to
        invariant
            from <= i <= to <= s.len(),
            r@ == s@.subrange(from as int, i as int),
        decreases to - i,
    {
        r.push(s[i]);
        assert(r@ =~= s@.subrange(from as int, i + 1));
        i = i + 1;
    }
    r
}

/// The lines of `s`, as `lines` states them.
pub fn lines_of(s: &[char]) -> (r: Vec<Vec<char>>)
    ensures
        r.deep_view() == lines(s@),
{
    let mut out: Vec<Vec<char>> = Vec::new();
    let mut start: usize = 0;
    let mut i: usize = 0;
    assert(out.deep_view() =~= Seq::<Seq<char>>::empty());
    assert(s@.skip(0) =~= s@);
    while i < s.len()
        invariant
            start <= i <= s.len(),
            lines(s@) == out.deep_view() + lines(s@.skip(start as int)),
            forall|j: int| start <= j < i ==> s@[j] != '\n',
        decreases s.len() - i,
    {
        if s[i] == '\n' {
            let ghost rest = s@.skip(start as int);
            proof {
                assert(is_first_index(rest, '\n', i - start));
                lemma_first_index_found(rest, '\n', i - start);
                assert(rest.take(i - start) =~= s@.subrange(start as int, i as int));
                assert(rest.skip(i - start + 1) =~= s@.skip(i + 1));
            }
            let line = strip_cr_of(slice_chars(s, start, i));
            let ghost before = out.deep_view();
            assert(line.deep_view() =~= line@);
            out.push(line);
            assert(out.deep_view() =~= before.push(line@));
            start = i + 1;
        }
        i = i + 1;
    }
    if start < s.len() {
        let ghost rest = s@.skip(start as int);
        proof {
            lemma_find_char_none(rest, '\n');
        }
        let line = slice_chars(s, start, s.len());
        assert(line@ =~= rest);
        let ghost before = out.deep_view();
        assert(line.deep_view() =~= line@);
        out.push(line);
        assert(out.deep_view() =~= before.push(line@));
    } else {
        assert(s@.skip(start as int) =~= Seq::<char>::empty());
        assert(out.deep_view() + Seq::<Seq<char>>::empty() =~= out.deep_view());
    }
    out
}

} // verus!
