//! Character-level text operations with their mathematical meaning: the
//! pieces of `git` output handling (lines, trimming, replacing, splitting)
//! and the formatting of numbers.
use vstd::prelude::*;

verus! {

// ---------------------------------------------------------------------------
// Specifications
// ---------------------------------------------------------------------------

/// Unicode `White_Space`, the property that `char::is_whitespace` tests.
pub open spec fn is_white_space(c: char) -> bool {
    let u = c as u32;
    ||| 0x09 <= u <= 0x0d
    ||| u == 0x20
    ||| u == 0x85
    ||| u == 0xa0
    ||| u == 0x1680
    ||| 0x2000 <= u <= 0x200a
    ||| u == 0x2028
    ||| u == 0x2029
    ||| u == 0x202f
    ||| u == 0x205f
    ||| u == 0x3000
}

/// `s` without its leading white space.
pub open spec fn trim_start(s: Seq<char>) -> Seq<char>
    decreases s.len(),
{
    if s.len() > 0 && is_white_space(s[0]) {
        trim_start(s.drop_first())
    } else {
        s
    }
}

/// `s` without its trailing white space.
pub open spec fn trim_end(s: Seq<char>) -> Seq<char>
    decreases s.len(),
{
    if s.len() > 0 && is_white_space(s.last()) {
        trim_end(s.drop_last())
    } else {
        s
    }
}

/// `s` without leading and trailing white space (`str::trim`).
pub open spec fn trim(s: Seq<char>) -> Seq<char> {
    trim_end(trim_start(s))
}

/// `s` without the occurrences of `c` at its start (`str::trim_start_matches`
/// with a character).
pub open spec fn trim_start_char(s: Seq<char>, c: char) -> Seq<char>
    decreases s.len(),
{
    if s.len() > 0 && s[0] == c {
        trim_start_char(s.drop_first(), c)
    } else {
        s
    }
}

/// The pieces of `s` between the occurrences of `sep` (`str::split`): one
/// more piece than there are separators.
pub open spec fn split(s: Seq<char>, sep: char) -> Seq<Seq<char>>
    decreases s.len(),
{
    if s.len() == 0 {
        seq![Seq::empty()]
    } else {
        let prev = split(s.drop_last(), sep);
        if s.last() == sep {
            prev.push(Seq::empty())
        } else {
            prev.update(prev.len() - 1, prev.last().push(s.last()))
        }
    }
}

/// A line that was ended by a newline loses one carriage return before it.
pub open spec fn strip_carriage_return(l: Seq<char>) -> Seq<char> {
    if l.len() > 0 && l.last() == '\r' {
        l.drop_last()
    } else {
        l
    }
}

/// The lines of `s` (`str::lines`): the pieces between newlines, where a
/// newline ends a line (`\r\n` too) and a final newline opens no new line.
pub open spec fn lines(s: Seq<char>) -> Seq<Seq<char>> {
    let pieces = split(s, '\n');
    let ended = pieces.take(pieces.len() - 1).map_values(|l: Seq<char>| strip_carriage_return(l));
    if pieces.last().len() == 0 {
        ended
    } else {
        ended.push(pieces.last())
    }
}

/// `s` with each occurrence of the non-empty `pat` replaced by `rep`,
/// matching from left to right without overlap (`str::replace`).
pub open spec fn replace(s: Seq<char>, pat: Seq<char>, rep: Seq<char>) -> Seq<char>
    decreases s.len(),
{
    if pat.len() == 0 || s.len() < pat.len() {
        s
    } else if s.take(pat.len() as int) == pat {
        rep + replace(s.skip(pat.len() as int), pat, rep)
    } else {
        seq![s[0]] + replace(s.drop_first(), pat, rep)
    }
}

/// The text before and after the first `sep` in `s` (`str::split_once`).
pub open spec fn split_once(s: Seq<char>, sep: char) -> Option<(Seq<char>, Seq<char>)>
    decreases s.len(),
{
    if s.len() == 0 {
        None
    } else if s[0] == sep {
        Some((Seq::empty(), s.drop_first()))
    } else {
        match split_once(s.drop_first(), sep) {
            Some(parts) => Some((seq![s[0]] + parts.0, parts.1)),
            None => None,
        }
    }
}

/// The text after the last `sep` in `s`, all of `s` when there is none
/// (the first piece of `str::rsplit`).
pub open spec fn after_last(s: Seq<char>, sep: char) -> Seq<char>
    decreases s.len(),
{
    if s.len() == 0 {
        s
    } else if s.last() == sep {
        Seq::empty()
    } else {
        after_last(s.drop_last(), sep).push(s.last())
    }
}

/// The decimal digit of `d` (0 to 9).
pub open spec fn digit(d: int) -> char {
    (('0' as u32) + d) as char
}

/// The decimal digits of a natural number, without leading zeros.
pub open spec fn nat_decimal(n: nat) -> Seq<char>
    decreases n,
{
    if n < 10 {
        seq![digit(n as int)]
    } else {
        nat_decimal(n / 10).push(digit((n % 10) as int))
    }
}

/// The decimal representation of an integer, with a minus sign when it is
/// negative (what `Display` prints for integers).
pub open spec fn decimal(n: int) -> Seq<char> {
    if n < 0 {
        seq!['-'] + nat_decimal((-n) as nat)
    } else {
        nat_decimal(n as nat)
    }
}

// ---------------------------------------------------------------------------
// Conversions between strings and characters
// ---------------------------------------------------------------------------

/// Appends one character to a string (`String::push`).
#[verifier::external_body]
pub(crate) fn push_char(s: &mut String, c: char)
    ensures
        final(s)@ == old(s)@.push(c),
{
    s.push(c);
}

/// The characters of a string slice, in order.
pub fn chars_of(s: &str) -> (v: Vec<char>)
    ensures
        v@ == s@,
{
    let mut v: Vec<char> = Vec::new();
    for c in it: s.chars()
        invariant
            v@ == it.seq().take(it.index()),
    {
        v.push(c);
    }
    v
}

/// The string made of the given characters.
pub fn string_of(v: &[char]) -> (s: String)
    ensures
        s@ == v@,
{
    let mut s = String::new();
    let mut i: usize = 0;
    while i < v.len()
        invariant
            i <= v.len(),
            s@ == v@.take(i as int),
        decreases v.len() - i,
    {
        push_char(&mut s, v[i]);
        i = i + 1;
        assert(v@.take(i as int) == v@.take(i - 1).push(v@[i - 1]));
    }
    assert(v@.take(v.len() as int) == v@);
    s
}


// ---------------------------------------------------------------------------
// Trimming
// ---------------------------------------------------------------------------

/// Whether `c` is Unicode white space (`char::is_whitespace`).
pub fn is_whitespace(c: char) -> (b: bool)
    ensures
        b == is_white_space(c),
{
    let u = c as u32;
    (0x09 <= u && u <= 0x0d) || u == 0x20 || u == 0x85 || u == 0xa0 || u == 0x1680 || (0x2000
        <= u && u <= 0x200a) || u == 0x2028 || u == 0x2029 || u == 0x202f || u == 0x205f || u
        == 0x3000
}

/// The characters `v[from..to]`.
pub fn slice_chars(v: &[char], from: usize, to: usize) -> (r: Vec<char>)
    requires
        from <= to <= v.len(),
    ensures
        r@ == v@.subrange(from as int, to as int),
{
    let mut r: Vec<char> = Vec::new();
    let mut i = from;
    while i < to
        invariant
            from <= i <= to <= v.len(),
            r@ == v@.subrange(from as int, i as int),
        decreases to - i,
    {
        r.push(v[i]);
        i = i + 1;
        assert(v@.subrange(from as int, i as int) == v@.subrange(from as int, i - 1).push(
            v@[i - 1],
        ));
    }
    r
}

/// `v` without leading and trailing white space.
pub fn trim_chars(v: &[char]) -> (r: Vec<char>)
    ensures
        r@ == trim(v@),
{
    let n = v.len();
    let mut i: usize = 0;
    assert(v@.skip(0) == v@);
    while i < n && is_whitespace(v[i])
        invariant
            i <= n == v.len(),
            trim_start(v@) == trim_start(v@.skip(i as int)),
        decreases n - i,
    {
        assert(v@.skip(i as int).drop_first() == v@.skip(i + 1));
        i = i + 1;
    }
    assert(trim_start(v@) == v@.subrange(i as int, n as int));
    let mut j: usize = n;
    while j > i && is_whitespace(v[j - 1])
        invariant
            i <= j <= n == v.len(),
            trim(v@) == trim_end(v@.subrange(i as int, j as int)),
        decreases j,
    {
        assert(v@.subrange(i as int, j as int).drop_last() == v@.subrange(i as int, j - 1));
        j = j - 1;
    }
    slice_chars(v, i, j)
}

/// `v` without the occurrences of `c` at its start.
pub fn trim_start_char_chars(v: &[char], c: char) -> (r: Vec<char>)
    ensures
        r@ == trim_start_char(v@, c),
{
    let n = v.len();
    let mut i: usize = 0;
    assert(v@.skip(0) == v@);
    while i < n && v[i] == c
        invariant
            i <= n == v.len(),
            trim_start_char(v@, c) == trim_start_char(v@.skip(i as int), c),
        decreases n - i,
    {
        assert(v@.skip(i as int).drop_first() == v@.skip(i + 1));
        i = i + 1;
    }
    assert(v@.skip(i as int) == v@.subrange(i as int, n as int));
    slice_chars(v, i, n)
}


// ---------------------------------------------------------------------------
// Lines
// ---------------------------------------------------------------------------

/// The character sequences held by strings.
pub open spec fn views(v: Seq<String>) -> Seq<Seq<char>> {
    v.map_values(|x: String| x@)
}

/// The character sequences held by rows of characters.
pub open spec fn rows(v: Seq<Vec<char>>) -> Seq<Seq<char>> {
    v.map_values(|l: Vec<char>| l@)
}

/// The lines of `v`.
pub fn lines_of(v: &[char]) -> (r: Vec<Vec<char>>)
    ensures
        rows(r@) == lines(v@),
{
    let n = v.len();
    let mut done: Vec<Vec<char>> = Vec::new();
    let mut cur: Vec<char> = Vec::new();
    let mut i: usize = 0;
    assert(v@.take(0) == Seq::<char>::empty());
    while i < n
        invariant
            i <= n == v.len(),
            split(v@.take(i as int), '\n').len() >= 1,
            rows(done@) == split(v@.take(i as int), '\n').take(
                split(v@.take(i as int), '\n').len() - 1,
            ).map_values(|l: Seq<char>| strip_carriage_return(l)),
            cur@ == split(v@.take(i as int), '\n').last(),
        decreases n - i,
    {
        let ghost before = split(v@.take(i as int), '\n');
        let c = v[i];
        assert(v@.take(i + 1).drop_last() == v@.take(i as int));
        assert(v@.take(i + 1).last() == c);
        if c == '\n' {
            let mut line = cur;
            if line.len() > 0 && line[line.len() - 1] == '\r' {
                line.pop();
            }
            assert(line@ == strip_carriage_return(before.last()));
            let ghost old_rows = rows(done@);
            done.push(line);
            assert(rows(done@) =~= old_rows.push(strip_carriage_return(before.last())));
            cur = Vec::new();
            let ghost after = split(v@.take(i + 1), '\n');
            assert(after == before.push(Seq::empty()));
            assert(after.take(after.len() - 1) == before);
            assert(before == before.take(before.len() - 1).push(before.last()));
            assert(before.map_values(|l: Seq<char>| strip_carriage_return(l)) =~= before.take(
                before.len() - 1,
            ).map_values(|l: Seq<char>| strip_carriage_return(l)).push(
                strip_carriage_return(before.last()),
            ));
            assert(rows(done@) == after.take(after.len() - 1).map_values(
                |l: Seq<char>| strip_carriage_return(l),
            ));
        } else {
            cur.push(c);
            let ghost after = split(v@.take(i + 1), '\n');
            assert(after == before.update(before.len() - 1, before.last().push(c)));
            assert(after.take(after.len() - 1) == before.take(before.len() - 1));
        }
        i = i + 1;
    }
    assert(v@.take(n as int) == v@);
    if cur.len() > 0 {
        done.push(cur);
    }
    done
}


// ---------------------------------------------------------------------------
// Replacing and splitting
// ---------------------------------------------------------------------------

/// Whether `pat` occurs in `v` at position `at`.
fn occurs_at(v: &[char], at: usize, pat: &[char]) -> (b: bool)
    requires
        at + pat.len() <= v.len(),
    ensures
        b == (v@.subrange(at as int, at + pat.len()) == pat@),
{
    let m = pat.len();
    let mut k: usize = 0;
    while k < m
        invariant
            k <= m == pat.len(),
            at + m <= v.len(),
            forall|j: int| 0 <= j < k ==> v@[at + j] == pat@[j],
        decreases m - k,
    {
        if v[at + k] != pat[k] {
            assert(v@.subrange(at as int, at + m)[k as int] != pat@[k as int]);
            return false;
        }
        k = k + 1;
    }
    assert(v@.subrange(at as int, at + m) =~= pat@);
    true
}

/// `v` with each occurrence of `pat` replaced by `rep`, left to right.
pub fn replace_chars(v: &[char], pat: &[char], rep: &[char]) -> (r: Vec<char>)
    requires
        pat.len() > 0,
    ensures
        r@ == replace(v@, pat@, rep@),
{
    let n = v.len();
    let m = pat.len();
    let mut out: Vec<char> = Vec::new();
    let mut i: usize = 0;
    assert(v@.skip(0) == v@);
    while i < n
        invariant
            i <= n == v.len(),
            m == pat.len() > 0,
            replace(v@, pat@, rep@) == out@ + replace(v@.skip(i as int), pat@, rep@),
        decreases n - i,
    {
        let ghost rest = v@.skip(i as int);
        if m <= n - i && occurs_at(v, i, pat) {
            assert(rest.take(m as int) == v@.subrange(i as int, i + m));
            assert(rest.skip(m as int) == v@.skip(i + m));
            let mut k: usize = 0;
            let ghost out0 = out@;
            while k < rep.len()
                invariant
                    k <= rep.len(),
                    out@ == out0 + rep@.take(k as int),
                decreases rep.len() - k,
            {
                out.push(rep[k]);
                k = k + 1;
                assert(rep@.take(k as int) == rep@.take(k - 1).push(rep@[k - 1]));
            }
            assert(rep@.take(rep.len() as int) == rep@);
            assert(out0 + (rep@ + replace(v@.skip(i + m), pat@, rep@)) == out@ + replace(
                v@.skip(i + m),
                pat@,
                rep@,
            ));
            i = i + m;
        } else {
            assert(rest.drop_first() == v@.skip(i + 1));
            if m <= n - i {
                assert(rest.take(m as int) == v@.subrange(i as int, i + m));
            } else {
                assert(replace(rest.drop_first(), pat@, rep@) == rest.drop_first());
                assert(rest == seq![rest[0]] + rest.drop_first());
            }
            assert(out@ + (seq![v@[i as int]] + replace(v@.skip(i + 1), pat@, rep@)) == out@.push(
                v@[i as int],
            ) + replace(v@.skip(i + 1), pat@, rep@));
            out.push(v[i]);
            i = i + 1;
        }
    }
    assert(v@.skip(n as int) == Seq::<char>::empty());
    assert(out@ + Seq::<char>::empty() == out@);
    out
}

pub proof fn lemma_split_once_at(s: Seq<char>, sep: char, i: int)
    requires
        0 <= i < s.len(),
        s[i] == sep,
        forall|j: int| 0 <= j < i ==> s[j] != sep,
    ensures
        split_once(s, sep) == Some((s.take(i), s.skip(i + 1))),
    decreases i,
{
    if i == 0 {
        assert(s.take(0) == Seq::<char>::empty());
        assert(s.skip(1) == s.drop_first());
    } else {
        let t = s.drop_first();
        lemma_split_once_at(t, sep, i - 1);
        assert(seq![s[0]] + t.take(i - 1) == s.take(i));
        assert(t.skip(i) == s.skip(i + 1));
    }
}

pub proof fn lemma_split_once_none(s: Seq<char>, sep: char)
    requires
        forall|j: int| 0 <= j < s.len() ==> s[j] != sep,
    ensures
        split_once(s, sep) is None,
    decreases s.len(),
{
    if s.len() > 0 {
        lemma_split_once_none(s.drop_first(), sep);
    }
}

/// The text before and after the first `sep` in `v`.
pub fn split_once_chars(v: &[char], sep: char) -> (r: Option<(Vec<char>, Vec<char>)>)
    ensures
        match r {
            Some(parts) => split_once(v@, sep) == Some((parts.0@, parts.1@)),
            None => split_once(v@, sep) is None,
        },
{
    let n = v.len();
    let mut i: usize = 0;
    while i < n
        invariant
            i <= n == v.len(),
            forall|j: int| 0 <= j < i ==> v@[j] != sep,
        decreases n - i,
    {
        if v[i] == sep {
            proof {
                lemma_split_once_at(v@, sep, i as int);
            }
            let before = slice_chars(v, 0, i);
            let after = slice_chars(v, i + 1, n);
            assert(v@.subrange(0, i as int) == v@.take(i as int));
            assert(v@.subrange(i + 1, n as int) == v@.skip(i + 1));
            return Some((before, after));
        }
        i = i + 1;
    }
    proof {
        lemma_split_once_none(v@, sep);
    }
    None
}

/// The text after the last `sep` in `v`, all of `v` when there is none.
pub fn after_last_chars(v: &[char], sep: char) -> (r: Vec<char>)
    ensures
        r@ == after_last(v@, sep),
{
    let n = v.len();
    let mut j: usize = n;
    assert(v@.take(n as int) == v@);
    while j > 0 && v[j - 1] != sep
        invariant
            j <= n == v.len(),
            after_last(v@, sep) == after_last(v@.take(j as int), sep) + v@.subrange(
                j as int,
                n as int,
            ),
        decreases j,
    {
        let ghost pre = v@.take(j as int);
        assert(pre.drop_last() == v@.take(j - 1));
        assert(pre.last() == v@[j - 1]);
        assert(v@.subrange(j - 1, n as int) == seq![v@[j - 1]] + v@.subrange(j as int, n as int));
        assert(after_last(pre, sep) == after_last(v@.take(j - 1), sep).push(v@[j - 1]));
        assert(after_last(v@.take(j - 1), sep).push(v@[j - 1]) + v@.subrange(j as int, n as int)
            == after_last(v@.take(j - 1), sep) + v@.subrange(j - 1, n as int));
        j = j - 1;
    }
    if j > 0 {
        assert(v@.take(j as int).last() == sep);
    } else {
        assert(v@.take(0) == Seq::<char>::empty());
    }
    assert(Seq::<char>::empty() + v@.subrange(j as int, n as int) == v@.subrange(
        j as int,
        n as int,
    ));
    slice_chars(v, j, n)
}


// ---------------------------------------------------------------------------
// Numbers
// ---------------------------------------------------------------------------

/// The decimal digit of `d`.
fn digit_char(d: u64) -> (c: char)
    requires
        d < 10,
    ensures
        c == digit(d as int),
{
    let b: u8 = 48u8 + (d as u8);
    b as char
}

/// The decimal representation of `n` (what `format!("{}", n)` writes).
pub fn decimal_of(n: i64) -> (s: String)
    ensures
        s@ == decimal(n as int),
{
    let mut m: u64 = if n < 0 {
        ((-(n + 1)) as u64) + 1
    } else {
        n as u64
    };
    let ghost magnitude: nat = if n < 0 {
        (-n) as nat
    } else {
        n as nat
    };
    let mut out: Vec<char> = Vec::new();
    while m >= 10
        invariant
            nat_decimal(magnitude) == nat_decimal(m as nat) + out@,
        decreases m,
    {
        let d = digit_char(m % 10);
        let ghost before = out@;
        out.insert(0, d);
        assert(out@ == seq![d] + before);
        assert(nat_decimal(m as nat) == nat_decimal((m / 10) as nat).push(d));
        assert(nat_decimal((m / 10) as nat).push(d) + before == nat_decimal((m / 10) as nat)
            + out@);
        m = m / 10;
    }
    let d = digit_char(m);
    let ghost before = out@;
    out.insert(0, d);
    assert(out@ == seq![d] + before);
    assert(nat_decimal(m as nat) == seq![d]);
    if n < 0 {
        out.insert(0, '-');
    }
    string_of(out.as_slice())
}

// ---------------------------------------------------------------------------
// Facts about the specifications
// ---------------------------------------------------------------------------

/// Splitting always gives at least one piece.
pub proof fn lemma_split_len(s: Seq<char>, sep: char)
    ensures
        split(s, sep).len() >= 1,
    decreases s.len(),
{
    if s.len() > 0 {
        lemma_split_len(s.drop_last(), sep);
    }
}

/// Text without the separator is one piece.
pub proof fn lemma_split_without_sep(s: Seq<char>, sep: char)
    requires
        forall|i: int| 0 <= i < s.len() ==> s[i] != sep,
    ensures
        split(s, sep) == seq![s],
    decreases s.len(),
{
    if s.len() > 0 {
        let t = s.drop_last();
        assert forall|i: int| 0 <= i < t.len() implies t[i] != sep by {
            assert(t[i] == s[i]);
        }
        lemma_split_without_sep(t, sep);
        assert(t.push(s.last()) == s);
    } else {
        assert(s == Seq::<char>::empty());
    }
}

/// When splitting gives one piece, that piece is the whole text.
pub proof fn lemma_split_single(s: Seq<char>, sep: char)
    ensures
        split(s, sep).len() == 1 ==> split(s, sep)[0] == s,
    decreases s.len(),
{
    if s.len() > 0 {
        let t = s.drop_last();
        lemma_split_len(t, sep);
        lemma_split_single(t, sep);
        assert(t.push(s.last()) == s);
    } else {
        assert(s == Seq::<char>::empty());
    }
}

/// Text has lines exactly when it is not empty.
pub proof fn lemma_lines_nonempty(s: Seq<char>)
    ensures
        (lines(s).len() > 0) == (s.len() > 0),
{
    lemma_split_len(s, '\n');
    lemma_split_single(s, '\n');
    let pieces = split(s, '\n');
    if s.len() == 0 {
        assert(pieces == seq![Seq::<char>::empty()]);
        assert(lines(s).len() == 0);
    } else if pieces.len() == 1 {
        assert(pieces.last() == s);
        assert(lines(s).len() == 1);
    } else {
        assert(lines(s).len() >= pieces.len() - 1);
    }
}

/// Non-empty text without a newline is one line.
pub proof fn lemma_lines_single(s: Seq<char>)
    requires
        s.len() > 0,
        forall|i: int| 0 <= i < s.len() ==> s[i] != '\n',
    ensures
        lines(s) == seq![s],
{
    lemma_split_without_sep(s, '\n');
    let pieces = split(s, '\n');
    assert(pieces.take(0) == Seq::<Seq<char>>::empty());
    assert(pieces.take(0).map_values(|l: Seq<char>| strip_carriage_return(l)) =~= Seq::<
        Seq<char>,
    >::empty());
}

/// Text in which the pattern cannot start anywhere is left as it is.
pub proof fn lemma_replace_absent(s: Seq<char>, pat: Seq<char>, rep: Seq<char>)
    requires
        pat.len() > 0,
        forall|i: int| 0 <= i < s.len() ==> s[i] != pat[0],
    ensures
        replace(s, pat, rep) == s,
    decreases s.len(),
{
    if s.len() >= pat.len() {
        assert(s.take(pat.len() as int)[0] != pat[0]);
        let t = s.drop_first();
        assert forall|i: int| 0 <= i < t.len() implies t[i] != pat[0] by {
            assert(t[i] == s[i + 1]);
        }
        lemma_replace_absent(t, pat, rep);
        assert(seq![s[0]] + t == s);
    }
}

/// Text in which the pattern occurs nowhere is kept as it is.
pub proof fn lemma_replace_no_match(s: Seq<char>, pat: Seq<char>, rep: Seq<char>)
    requires
        pat.len() > 0,
        forall|i: int| 0 <= i && i + pat.len() <= s.len() ==> #[trigger] s.subrange(i, i + pat.len()) != pat,
    ensures
        replace(s, pat, rep) == s,
    decreases s.len(),
{
    if s.len() >= pat.len() {
        let first = s.subrange(0, 0int + pat.len());
        assert(first != pat);
        assert(s.take(pat.len() as int) == first);
        let t = s.drop_first();
        assert forall|i: int| 0 <= i && i + pat.len() <= t.len() implies #[trigger] t.subrange(i, i + pat.len()) != pat by {
            assert(t.subrange(i, i + pat.len()) == s.subrange(i + 1, i + 1 + pat.len()));
        }
        lemma_replace_no_match(t, pat, rep);
        assert(seq![s[0]] + t == s);
    }
}

/// A leading occurrence of the pattern is replaced.
pub proof fn lemma_replace_leading(pat: Seq<char>, rep: Seq<char>, t: Seq<char>)
    requires
        pat.len() > 0,
    ensures
        replace(pat + t, pat, rep) == rep + replace(t, pat, rep),
{
    let s = pat + t;
    assert(s.take(pat.len() as int) == pat);
    assert(s.skip(pat.len() as int) == t);
}

/// A leading character that cannot start the pattern is kept.
pub proof fn lemma_replace_kept(c: char, t: Seq<char>, pat: Seq<char>, rep: Seq<char>)
    requires
        pat.len() > 0,
        c != pat[0],
    ensures
        replace(seq![c] + t, pat, rep) == seq![c] + replace(t, pat, rep),
{
    let s = seq![c] + t;
    assert(s.drop_first() == t);
    if s.len() >= pat.len() {
        assert(s.take(pat.len() as int)[0] != pat[0]);
    } else {
        assert(t.len() < pat.len());
    }
}

/// Text that starts and ends with characters that are not white space is
/// its own trimmed form.
pub proof fn lemma_trim_clean(b: Seq<char>)
    requires
        b.len() > 0,
        !is_white_space(b[0]),
        !is_white_space(b.last()),
    ensures
        trim(b) == b,
{
}

/// Leading white space goes in trimming.
pub proof fn lemma_trim_start_white(c: char, t: Seq<char>)
    requires
        is_white_space(c),
    ensures
        trim_start(seq![c] + t) == trim_start(t),
{
    assert((seq![c] + t).drop_first() == t);
}

} // verus!
