//! Reading `KEY=value` settings out of a `.env` file.

use vstd::prelude::*;

use crate::text::{chars_of, lines, lines_of, string_from_range};

verus! {

/// Whether a character has the Unicode `White_Space` property (what
/// `char::is_whitespace` answers): U+0009 to U+000D, U+0020, U+0085, U+00A0,
/// U+1680, U+2000 to U+200A, U+2028, U+2029, U+202F, U+205F and U+3000.
pub open spec fn is_unicode_whitespace(c: char) -> bool {
    let u = c as u32;
    ||| 0x09 <= u <= 0x0D
    ||| u == 0x20
    ||| u == 0x85
    ||| u == 0xA0
    ||| u == 0x1680
    ||| 0x2000 <= u <= 0x200A
    ||| u == 0x2028
    ||| u == 0x2029
    ||| u == 0x202F
    ||| u == 0x205F
    ||| u == 0x3000
}

/// Whether a character is whitespace.
pub fn char_is_whitespace(c: char) -> (b: bool)
    ensures
        b == is_unicode_whitespace(c),
{
    let u = c as u32;
    (0x09 <= u && u <= 0x0D) || u == 0x20 || u == 0x85 || u == 0xA0 || u == 0x1680 || (0x2000
        <= u && u <= 0x200A) || u == 0x2028 || u == 0x2029 || u == 0x202F || u == 0x205F || u
        == 0x3000
}

/// A line holding nothing but whitespace (what `line.trim().is_empty()` tests).
pub open spec fn is_blank(line: Seq<char>) -> bool {
    forall|i: int| 0 <= i < line.len() ==> is_unicode_whitespace(#[trigger] line[i])
}

/// A line starting with `#`.
pub open spec fn is_comment(line: Seq<char>) -> bool {
    line.len() > 0 && line[0] == '#'
}

/// `i` is the position of the first `=` of the line.
pub open spec fn first_equals_at(line: Seq<char>, i: int) -> bool {
    0 <= i < line.len() && line[i] == '=' && forall|j: int| 0 <= j < i ==> line[j] != '='
}

/// The line split around its first `=` (what `split_once('=')` gives).
pub open spec fn key_value(line: Seq<char>) -> Option<(Seq<char>, Seq<char>)> {
    if exists|i: int| first_equals_at(line, i) {
        let i = choose|i: int| first_equals_at(line, i);
        Some((line.take(i), line.skip(i + 1)))
    } else {
        None
    }
}

/// A line split around its first `=`: the key holds no `=`, and the key,
/// an `=` and the value make up the line again; a line without `=` gives no
/// setting.
pub proof fn lemma_key_value_splits_at_first_equals(line: Seq<char>)
    ensures
        key_value(line) matches Some((k, v)) ==> (forall|i: int| 0 <= i < k.len() ==> k[i] != '=')
            && line == k + seq!['='] + v,
        (forall|i: int| 0 <= i < line.len() ==> line[i] != '=') ==> key_value(line) is None,
        (exists|i: int| 0 <= i < line.len() && line[i] == '=') ==> key_value(line) is Some,
{
    if exists|i: int| first_equals_at(line, i) {
        let i = choose|i: int| first_equals_at(line, i);
        assert(line =~= line.take(i) + seq!['='] + line.skip(i + 1));
    }
    if exists|i: int| 0 <= i < line.len() && line[i] == '=' {
        let j = choose|i: int| 0 <= i < line.len() && line[i] == '=';
        lemma_first_equals_exists(line, j);
    }
}

proof fn lemma_first_equals_exists(line: Seq<char>, j: int)
    requires
        0 <= j < line.len(),
        line[j] == '=',
    ensures
        exists|i: int| first_equals_at(line, i),
    decreases j,
{
    if forall|k: int| 0 <= k < j ==> line[k] != '=' {
        assert(first_equals_at(line, j));
    } else {
        let k = choose|k: int| 0 <= k < j && line[k] == '=';
        lemma_first_equals_exists(line, k);
    }
}

/// The settings the given lines hold, in order: blank lines, comment lines
/// and lines without `=` are skipped.
pub open spec fn settings_of(ls: Seq<Seq<char>>) -> Seq<(Seq<char>, Seq<char>)>
    decreases ls.len(),
{
    if ls.len() == 0 {
        Seq::empty()
    } else {
        let prev = settings_of(ls.drop_last());
        let line = ls.last();
        if is_blank(line) || is_comment(line) {
            prev
        } else {
            match key_value(line) {
                None => prev,
                Some(kv) => prev.push(kv),
            }
        }
    }
}

fn blank(line: &Vec<char>) -> (b: bool)
    ensures
        b == is_blank(line@),
{
    let mut i: usize = 0;
    while i < line.len()
        invariant
            i <= line.len(),
            forall|k: int| 0 <= k < i ==> is_unicode_whitespace(#[trigger] line@[k]),
        decreases line.len() - i,
    {
        if !char_is_whitespace(line[i]) {
            return false;
        }
        i += 1;
    }
    true
}

fn split_key_value(line: &Vec<char>) -> (r: Option<(String, String)>)
    ensures
        match key_value(line@) {
            None => r is None,
            Some((k, v)) => r matches Some((rk, rv)) && rk@ == k && rv@ == v,
        },
{
    let mut i: usize = 0;
    while i < line.len()
        invariant
            i <= line.len(),
            forall|j: int| 0 <= j < i ==> line@[j] != '=',
        decreases line.len() - i,
    {
        if line[i] == '=' {
            assert(first_equals_at(line@, i as int));
            assert forall|j: int| first_equals_at(line@, j) implies j == i by {
                if j < i {
                } else if j > i {
                    assert(line@[i as int] != '=');
                }
            }
            let key = string_from_range(line, 0, i);
            let value = string_from_range(line, i + 1, line.len());
            assert(line@.take(i as int) =~= line@.subrange(0, i as int));
            assert(line@.skip(i + 1) =~= line@.subrange(i + 1, line.len() as int));
            return Some((key, value));
        }
        i += 1;
    }
    assert(!exists|j: int| first_equals_at(line@, j));
    None
}

/// The `KEY=value` settings of a `.env` file's text, in file order.
pub fn parse_dotenv(contents: &str) -> (r: Vec<(String, String)>)
    ensures
        r@.len() == settings_of(lines_of(contents@)).len(),
        forall|i: int|
            0 <= i < r@.len() ==> (#[trigger] r@[i]).0@ == settings_of(lines_of(contents@))[i].0
                && r@[i].1@ == settings_of(lines_of(contents@))[i].1,
{
    let ls = lines(contents);
    let ghost all = lines_of(contents@);
    let mut out: Vec<(String, String)> = Vec::new();
    let mut i: usize = 0;
    assert(all.take(0) =~= Seq::<Seq<char>>::empty());
    while i < ls.len()
        invariant
            i <= ls.len(),
            all == lines_of(contents@),
            ls@.len() == all.len(),
            forall|k: int| 0 <= k < ls@.len() ==> #[trigger] ls@[k]@ == all[k],
            out@.len() == settings_of(all.take(i as int)).len(),
            forall|k: int|
                0 <= k < out@.len() ==> (#[trigger] out@[k]).0@ == settings_of(all.take(i as int))[k].0
                    && out@[k].1@ == settings_of(all.take(i as int))[k].1,
        decreases ls.len() - i,
    {
        let ghost prefix = all.take(i + 1);
        assert(prefix.drop_last() =~= all.take(i as int));
        assert(prefix.last() == ls@[i as int]@);
        let line = chars_of(ls[i].as_str());
        let skip = blank(&line) || (line.len() > 0 && line[0] == '#');
        if !skip {
            match split_key_value(&line) {
                Some(kv) => {
                    out.push(kv);
                },
                None => {},
            }
        }
        i += 1;
    }
    assert(all.take(ls.len() as int) =~= all);
    out
}

} // verus!
