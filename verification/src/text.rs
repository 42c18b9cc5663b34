//! Character-level building blocks: decimal rendering, substring search,
//! prefix tests and line splitting, each stated over `Seq<char>`.

use vstd::prelude::*;

verus! {

/// Appends one character to a string (`String::push`).
#[verifier::external_body]
pub(crate) fn push_char(s: &mut String, c: char)
    ensures
        final(s)@ == old(s)@.push(c),
{
    s.push(c);
}

/// The characters of a string slice, in order.
pub fn chars_of(s: &str) -> (v: Vec<char>)
    ensures
        v@ == s@,
{
    let mut v: Vec<char> = Vec::new();
    for c in it: s.chars()
        invariant
            v@ == it.seq().take(it.index() as int),
    {
        v.push(c);
    }
    v
}


/// The decimal digit character for `d` (meaningful for `d < 10`).
pub open spec fn digit(d: nat) -> char {
    if d == 0 { '0' }
    else if d == 1 { '1' }
    else if d == 2 { '2' }
    else if d == 3 { '3' }
    else if d == 4 { '4' }
    else if d == 5 { '5' }
    else if d == 6 { '6' }
    else if d == 7 { '7' }
    else if d == 8 { '8' }
    else { '9' }
}

/// The shortest decimal rendering of `n`, as `{}` prints an unsigned integer.
pub open spec fn decimal(n: nat) -> Seq<char>
    decreases n,
{
    if n < 10 {
        seq![digit(n)]
    } else {
        decimal(n / 10).push(digit(n % 10))
    }
}

/// The rendering of `n` as `{:02}` prints it: at least two digits, zero-padded.
pub open spec fn two_digits(n: nat) -> Seq<char> {
    if n < 10 {
        seq!['0'] + decimal(n)
    } else {
        decimal(n)
    }
}

fn digit_char(d: u64) -> (c: char)
    requires
        d < 10,
    ensures
        c == digit(d as nat),
{
    if d == 0 { '0' }
    else if d == 1 { '1' }
    else if d == 2 { '2' }
    else if d == 3 { '3' }
    else if d == 4 { '4' }
    else if d == 5 { '5' }
    else if d == 6 { '6' }
    else if d == 7 { '7' }
    else if d == 8 { '8' }
    else { '9' }
}

/// A decimal digit character.
pub open spec fn is_digit(c: char) -> bool {
    '0' <= c && c <= '9'
}

/// Every character of `s` is a decimal digit.
pub open spec fn all_digits(s: Seq<char>) -> bool {
    forall|i: int| 0 <= i < s.len() ==> is_digit(#[trigger] s[i])
}

/// The number a string of decimal digits stands for.
pub open spec fn decimal_value(s: Seq<char>) -> int
    decreases s.len(),
{
    if s.len() == 0 {
        0
    } else {
        decimal_value(s.drop_last()) * 10 + (s.last() as int - '0' as int)
    }
}

proof fn lemma_digit(d: nat)
    requires
        d < 10,
    ensures
        is_digit(digit(d)),
        digit(d) as int - '0' as int == d,
{
}

/// The decimal rendering of `n` is a non-empty string of digits that reads
/// back to `n`, with no leading zero.
pub proof fn lemma_decimal_reads_back(n: nat)
    ensures
        decimal(n).len() > 0,
        all_digits(decimal(n)),
        decimal_value(decimal(n)) == n,
        decimal(n).len() > 1 ==> decimal(n)[0] != '0',
    decreases n,
{
    if n < 10 {
        lemma_digit(n);
        let d = decimal(n);
        assert(d == seq![digit(n)]);
        assert(d.drop_last() =~= Seq::<char>::empty());
        assert(decimal_value(Seq::<char>::empty()) == 0);
        assert(decimal_value(d) == decimal_value(d.drop_last()) * 10 + (d.last() as int - '0' as int));
    } else {
        lemma_decimal_reads_back(n / 10);
        lemma_digit(n % 10);
        let d = decimal(n);
        assert(d == decimal(n / 10).push(digit(n % 10)));
        assert(d.drop_last() =~= decimal(n / 10));
        assert(d.last() == digit(n % 10));
        assert(decimal_value(d) == decimal_value(d.drop_last()) * 10 + (d.last() as int - '0' as int));
        assert(d[0] == decimal(n / 10)[0]);
        if n / 10 < 10 {
            assert(decimal(n / 10) == seq![digit(n / 10)]);
            assert(n / 10 != 0);
            lemma_digit(n / 10);
            assert(digit(n / 10) != '0');
        } else {
            assert(decimal(n / 10) == decimal(n / 10 / 10).push(digit(n / 10 % 10)));
            assert(decimal(n / 10).len() > 1);
        }
    }
}

/// `{:02}` of a number below 100 is exactly two digits reading back to it.
pub proof fn lemma_two_digits_reads_back(n: nat)
    requires
        n < 100,
    ensures
        two_digits(n).len() == 2,
        all_digits(two_digits(n)),
        decimal_value(two_digits(n)) == n,
{
    lemma_decimal_reads_back(n);
    if n < 10 {
        let t = two_digits(n);
        assert(decimal(n) == seq![digit(n)]);
        assert(t =~= seq!['0', digit(n)]);
        lemma_digit(n);
        assert(t.drop_last() =~= seq!['0']);
        assert(seq!['0'].drop_last() =~= Seq::<char>::empty());
        assert(decimal_value(Seq::<char>::empty()) == 0);
        assert(decimal_value(seq!['0']) == decimal_value(seq!['0'].drop_last()) * 10 + ('0' as int - '0' as int));
        assert(decimal_value(t) == decimal_value(t.drop_last()) * 10 + (t.last() as int - '0' as int));
    } else {
        assert(decimal(n).drop_last() =~= decimal(n / 10));
        assert(decimal(n / 10) == seq![digit(n / 10)]);
    }
}

/// Appends the decimal rendering of `n`.
pub fn push_decimal(s: &mut String, n: u64)
    ensures
        final(s)@ == old(s)@ + decimal(n as nat),
    decreases n,
{
    if n >= 10 {
        push_decimal(s, n / 10);
    }
    push_char(s, digit_char(n % 10));
    assert(final(s)@ == old(s)@ + decimal(n as nat));
}

/// Appends `n` zero-padded to at least two digits.
pub fn push_two_digits(s: &mut String, n: u64)
    ensures
        final(s)@ == old(s)@ + two_digits(n as nat),
{
    if n < 10 {
        push_char(s, '0');
    }
    push_decimal(s, n);
}

/// `pat` occurs in `s` starting at index `i`.
pub open spec fn occurs_at(s: Seq<char>, pat: Seq<char>, i: int) -> bool {
    0 <= i && i + pat.len() <= s.len() && s.subrange(i, i + pat.len()) == pat
}

/// `pat` occurs somewhere in `s` (what `str::contains` answers).
pub open spec fn has_substring(s: Seq<char>, pat: Seq<char>) -> bool {
    exists|i: int| occurs_at(s, pat, i)
}

/// `s` begins with `pat` (what `str::starts_with` answers).
pub open spec fn has_prefix(s: Seq<char>, pat: Seq<char>) -> bool {
    pat.len() <= s.len() && s.subrange(0, pat.len() as int) == pat
}

fn matches_at(s: &Vec<char>, pat: &Vec<char>, i: usize) -> (b: bool)
    requires
        i + pat.len() <= s.len(),
    ensures
        b == occurs_at(s@, pat@, i as int),
{
    let mut j: usize = 0;
    while j < pat.len()
        invariant
            j <= pat.len(),
            i + pat.len() <= s.len(),
            forall|k: int| 0 <= k < j ==> s@[i + k] == pat@[k],
        decreases pat.len() - j,
    {
        if s[i + j] != pat[j] {
            assert(s@.subrange(i as int, i + pat.len())[j as int] != pat@[j as int]);
            return false;
        }
        j += 1;
    }
    assert(s@.subrange(i as int, i + pat.len()) =~= pat@);
    true
}

/// Whether `pat` occurs in `s`.
pub fn contains_chars(s: &Vec<char>, pat: &Vec<char>) -> (b: bool)
    ensures
        b == has_substring(s@, pat@),
{
    if pat.len() > s.len() {
        assert(forall|i: int| !occurs_at(s@, pat@, i));
        return false;
    }
    let last = s.len() - pat.len();
    let mut i: usize = 0;
    while i <= last
        invariant
            last == s.len() - pat.len(),
            pat.len() <= s.len(),
            i <= last + 1,
            forall|k: int| 0 <= k < i ==> !occurs_at(s@, pat@, k),
        decreases last + 1 - i,
    {
        if matches_at(s, pat, i) {
            return true;
        }
        if i == last {
            assert forall|k: int| !occurs_at(s@, pat@, k) by {
                if 0 <= k <= i {
                }
            }
            return false;
        }
        i += 1;
    }
    assert forall|k: int| !occurs_at(s@, pat@, k) by {
        if 0 <= k < i {
        }
    }
    false
}

/// Whether `s` begins with `pat`.
pub fn starts_with_chars(s: &Vec<char>, pat: &Vec<char>) -> (b: bool)
    ensures
        b == has_prefix(s@, pat@),
{
    if pat.len() > s.len() {
        return false;
    }
    let r = matches_at(s, pat, 0);
    assert(r == occurs_at(s@, pat@, 0));
    r
}


/// The string made of the characters of `v` from index `lo` up to `hi`.
pub fn string_from_range(v: &Vec<char>, lo: usize, hi: usize) -> (s: String)
    requires
        lo <= hi <= v.len(),
    ensures
        s@ == v@.subrange(lo as int, hi as int),
{
    let mut s = String::new();
    let mut i: usize = lo;
    while i < hi
        invariant
            lo <= i <= hi <= v.len(),
            s@ == v@.subrange(lo as int, i as int),
        decreases hi - i,
    {
        push_char(&mut s, v[i]);
        i += 1;
        assert(s@ =~= v@.subrange(lo as int, i as int));
    }
    s
}

/// A line without the carriage return of a `\r\n` ending.
pub open spec fn strip_cr(line: Seq<char>) -> Seq<char> {
    if line.len() > 0 && line.last() == '\r' {
        line.drop_last()
    } else {
        line
    }
}

/// The lines of `cur + rest`, where `cur` is the unfinished line read so far:
/// lines end at `\n` (a `\r` before it is dropped), and a last line without
/// `\n` counts only when it is not empty (and keeps a trailing `\r`).
pub open spec fn split_lines(cur: Seq<char>, rest: Seq<char>) -> Seq<Seq<char>>
    decreases rest.len(),
{
    if rest.len() == 0 {
        if cur.len() == 0 {
            Seq::empty()
        } else {
            seq![cur]
        }
    } else if rest[0] == '\n' {
        seq![strip_cr(cur)] + split_lines(Seq::empty(), rest.drop_first())
    } else {
        split_lines(cur.push(rest[0]), rest.drop_first())
    }
}

/// The lines of a text, as `str::lines` yields them.
pub open spec fn lines_of(s: Seq<char>) -> Seq<Seq<char>> {
    split_lines(Seq::empty(), s)
}

/// The lines of `s`, in order.
pub fn lines(s: &str) -> (r: Vec<String>)
    ensures
        r@.len() == lines_of(s@).len(),
        forall|i: int| 0 <= i < r@.len() ==> #[trigger] r@[i]@ == lines_of(s@)[i],
{
    let chars = chars_of(s);
    let mut out: Vec<String> = Vec::new();
    let mut cur: Vec<char> = Vec::new();
    let mut i: usize = 0;
    assert(chars@.skip(0) =~= s@);
    assert(cur@ =~= Seq::<char>::empty());
    while i < chars.len()
        invariant
            i <= chars.len(),
            chars@ == s@,
            out@.len() + split_lines(cur@, chars@.skip(i as int)).len() == lines_of(s@).len(),
            forall|k: int| 0 <= k < out@.len() ==> #[trigger] out@[k]@ == lines_of(s@)[k],
            forall|k: int|
                0 <= k < split_lines(cur@, chars@.skip(i as int)).len() ==> lines_of(s@)[out@.len()
                    + k] == #[trigger] split_lines(cur@, chars@.skip(i as int))[k],
        decreases chars.len() - i,
    {
        let ghost rest = chars@.skip(i as int);
        assert(rest[0] == chars@[i as int]);
        assert(rest.drop_first() =~= chars@.skip(i + 1));
        let c = chars[i];
        if c == '\n' {
            let n = if cur.len() > 0 && cur[cur.len() - 1] == '\r' {
                cur.len() - 1
            } else {
                cur.len()
            };
            let line = string_from_range(&cur, 0, n);
            assert(line@ == strip_cr(cur@)) by {
                if cur.len() > 0 && cur@.last() == '\r' {
                    assert(cur@.subrange(0, n as int) =~= cur@.drop_last());
                } else {
                    assert(cur@.subrange(0, n as int) =~= cur@);
                }
            }
            let ghost tail = split_lines(Seq::empty(), chars@.skip(i + 1));
            assert(split_lines(cur@, rest) == seq![strip_cr(cur@)] + tail);
            assert((seq![strip_cr(cur@)] + tail)[0] == strip_cr(cur@));
            assert forall|k: int| 0 <= k < tail.len() implies lines_of(s@)[out@.len() + 1 + k]
                == #[trigger] tail[k] by {
                assert((seq![strip_cr(cur@)] + tail)[k + 1] == tail[k]);
            }
            out.push(line);
            cur = Vec::new();
        } else {
            cur.push(c);
        }
        i += 1;
    }
    assert(chars@.skip(i as int) =~= Seq::<char>::empty());
    if cur.len() > 0 {
        let line = string_from_range(&cur, 0, cur.len());
        assert(cur@.subrange(0, cur.len() as int) =~= cur@);
        assert(split_lines(cur@, Seq::<char>::empty())[0] == cur@);
        out.push(line);
    }
    out
}


proof fn lemma_split_lines_ending(cur: Seq<char>, rest: Seq<char>, ending: Seq<char>)
    requires
        (cur + rest).len() > 0,
        (cur + rest).last() != '\n',
        (cur + rest).last() != '\r',
        ending == seq!['\n'] || ending == seq!['\r', '\n'],
    ensures
        split_lines(cur, rest + ending) == split_lines(cur, rest),
    decreases rest.len(),
{
    if rest.len() == 0 {
        assert(rest + ending =~= ending);
        assert(cur + rest =~= cur);
        assert(strip_cr(cur) == cur);
        let empty = Seq::<char>::empty();
        assert(split_lines(empty, empty) == Seq::<Seq<char>>::empty());
        assert(split_lines(cur, empty) == seq![cur]);
        assert(split_lines(cur, seq!['\n']) == seq![cur]) by {
            assert(seq!['\n'].drop_first() =~= empty);
            assert(seq![strip_cr(cur)] + Seq::<Seq<char>>::empty() =~= seq![cur]);
        }
        if ending == seq!['\r', '\n'] {
            assert(ending.drop_first() =~= seq!['\n']);
            assert(cur.push('\r').drop_last() =~= cur);
            assert(split_lines(cur.push('\r'), seq!['\n']) == seq![cur]) by {
                assert(seq!['\n'].drop_first() =~= empty);
                assert(seq![strip_cr(cur.push('\r'))] + Seq::<Seq<char>>::empty() =~= seq![cur]);
            }
        }
    } else {
        let longer = rest + ending;
        assert(longer[0] == rest[0]);
        assert(longer.drop_first() =~= rest.drop_first() + ending);
        if rest[0] == '\n' {
            assert((cur + rest).last() == rest.last());
            assert(rest.len() >= 2);
            let empty = Seq::<char>::empty();
            assert(empty + rest.drop_first() =~= rest.drop_first());
            assert(rest.drop_first().last() == rest.last());
            lemma_split_lines_ending(empty, rest.drop_first(), ending);
        } else {
            assert(cur.push(rest[0]) + rest.drop_first() =~= cur + rest);
            lemma_split_lines_ending(cur.push(rest[0]), rest.drop_first(), ending);
        }
    }
}

proof fn lemma_split_lines_through(cur: Seq<char>, s: Seq<char>, rest: Seq<char>)
    requires
        forall|i: int| 0 <= i < s.len() ==> s[i] != '\n',
    ensures
        split_lines(cur, s + seq!['\n'] + rest) == seq![strip_cr(cur + s)] + split_lines(
            Seq::empty(),
            rest,
        ),
        split_lines(cur, s) == if (cur + s).len() == 0 {
            Seq::<Seq<char>>::empty()
        } else {
            seq![cur + s]
        },
    decreases s.len(),
{
    let all = s + seq!['\n'] + rest;
    if s.len() == 0 {
        assert(all[0] == '\n');
        assert(all.drop_first() =~= rest);
        assert(cur + s =~= cur);
    } else {
        assert(all[0] == s[0]);
        assert(all.drop_first() =~= s.drop_first() + seq!['\n'] + rest);
        assert(cur.push(s[0]) + s.drop_first() =~= cur + s);
        lemma_split_lines_through(cur.push(s[0]), s.drop_first(), rest);
    }
}

/// A line that ends in `\n` is the first line of the text, without that
/// `\n` (and without a `\r` just before it); the lines after it are the
/// lines of the rest of the text.
pub proof fn lemma_lines_of_first_line(s: Seq<char>, rest: Seq<char>)
    requires
        forall|i: int| 0 <= i < s.len() ==> s[i] != '\n',
    ensures
        lines_of(s + seq!['\n'] + rest) == seq![
            if s.len() > 0 && s.last() == '\r' {
                s.drop_last()
            } else {
                s
            },
        ] + lines_of(rest),
{
    lemma_split_lines_through(Seq::empty(), s, rest);
    assert(Seq::<char>::empty() + s =~= s);
}

/// A text without `\n` is one line, or no line at all when it is empty.
pub proof fn lemma_lines_of_last_line(s: Seq<char>)
    requires
        forall|i: int| 0 <= i < s.len() ==> s[i] != '\n',
    ensures
        lines_of(s) == if s.len() == 0 {
            Seq::<Seq<char>>::empty()
        } else {
            seq![s]
        },
{
    lemma_split_lines_through(Seq::empty(), s, Seq::empty());
    assert(Seq::<char>::empty() + s =~= s);
}

/// The final line ending is optional: a non-empty text that does not end
/// with a line ending has the same lines with `\n` or `\r\n` appended.
pub proof fn lemma_final_line_ending_is_optional(s: Seq<char>)
    requires
        s.len() > 0,
        s.last() != '\n',
        s.last() != '\r',
    ensures
        lines_of(s + seq!['\n']) == lines_of(s),
        lines_of(s + seq!['\r', '\n']) == lines_of(s),
{
    let empty = Seq::<char>::empty();
    assert(empty + s =~= s);
    lemma_split_lines_ending(empty, s, seq!['\n']);
    lemma_split_lines_ending(empty, s, seq!['\r', '\n']);
}

} // verus!
