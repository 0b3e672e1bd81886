//! Character-level string helpers shared by the formatting and matching code.

use vstd::prelude::*;
use vstd::std_specs::iter::IteratorSpec;

verus! {

/// Appends one character to `s` (std `String::push`).
///
/// Trusted: the contract states that `String::push` appends exactly `c`
/// at the end of the string, as its documentation says.
#[verifier::external_body]
pub(crate) fn push_char(s: &mut String, c: char)
    ensures
        final(s)@ == old(s)@.push(c),
{
    s.push(c);
}

/// Returns the characters of `s`, in order.
pub fn chars_of(s: &str) -> (res: Vec<char>)
    ensures
        res@ == s@,
{
    let mut res: Vec<char> = Vec::new();
    for c in it: s.chars()
        invariant
            res@ == it.seq().take(it.index() as int),
    {
        res.push(c);
    }
    res
}

/// A fresh `String` holding the characters of `s`.
pub fn owned(s: &str) -> (res: String)
    ensures
        res@ == s@,
{
    s.to_owned()
}

/// Appends every character of `tail` to `s`.
pub fn push_str(s: &mut String, tail: &str)
    ensures
        final(s)@ == old(s)@ + tail@,
{
    s.append(tail);
}

/// Appends the characters of `cs` to `s`.
pub fn push_chars(s: &mut String, cs: &Vec<char>)
    ensures
        final(s)@ == old(s)@ + cs@,
{
    let ghost start = s@;
    let mut i: usize = 0;
    while i < cs.len()
        invariant
            i <= cs@.len(),
            s@ == start + cs@.take(i as int),
        decreases cs@.len() - i,
    {
        push_char(s, cs[i]);
        assert(cs@.take(i + 1) =~= cs@.take(i as int).push(cs@[i as int]));
        i = i + 1;
    }
    assert(cs@.take(i as int) =~= cs@);
}

/// A `String` holding exactly the characters of `cs`.
pub fn string_of_chars(cs: &Vec<char>) -> (res: String)
    ensures
        res@ == cs@,
{
    let mut s = String::new();
    push_chars(&mut s, cs);
    assert(Seq::<char>::empty() + cs@ =~= cs@);
    s
}

/// Whether two character sequences are equal.
pub fn chars_eq(a: &Vec<char>, b: &Vec<char>) -> (res: bool)
    ensures
        res == (a@ == b@),
{
    if a.len() != b.len() {
        return false;
    }
    let mut i: usize = 0;
    while i < a.len()
        invariant
            a@.len() == b@.len(),
            i <= a@.len(),
            forall|j: int| 0 <= j < i ==> a@[j] == b@[j],
        decreases a@.len() - i,
    {
        if a[i] != b[i] {
            return false;
        }
        i = i + 1;
    }
    assert(a@ =~= b@);
    true
}

/// Whether two string slices hold the same characters.
pub fn str_eq(a: &str, b: &str) -> (res: bool)
    ensures
        res == (a@ == b@),
{
    let ca = chars_of(a);
    let cb = chars_of(b);
    chars_eq(&ca, &cb)
}

/// `s` begins with `prefix`.
pub open spec fn has_prefix(s: Seq<char>, prefix: Seq<char>) -> bool {
    prefix.len() <= s.len() && s.take(prefix.len() as int) == prefix
}

/// `s` ends with `suffix`.
pub open spec fn has_suffix(s: Seq<char>, suffix: Seq<char>) -> bool {
    suffix.len() <= s.len() && s.skip(s.len() - suffix.len()) == suffix
}

/// `needle` occurs somewhere in `s` as a contiguous run.
pub open spec fn has_infix(s: Seq<char>, needle: Seq<char>) -> bool {
    exists|i: int| 0 <= i <= s.len() - needle.len() && #[trigger] s.subrange(i, i + needle.len()) == needle
}

/// Whether `needle` matches `s` at offset `at`.
fn matches_at(s: &Vec<char>, needle: &Vec<char>, at: usize) -> (res: bool)
    requires
        at + needle@.len() <= s@.len(),
    ensures
        res == (s@.subrange(at as int, at + needle@.len()) == needle@),
{
    let mut j: usize = 0;
    while j < needle.len()
        invariant
            at + needle@.len() <= s@.len(),
            j <= needle@.len(),
            forall|k: int| 0 <= k < j ==> s@[at + k] == needle@[k],
        decreases needle@.len() - j,
    {
        assert(s@.len() == s.len());
        if s[at + j] != needle[j] {
            assert(s@.subrange(at as int, at + needle@.len())[j as int] != needle@[j as int]);
            return false;
        }
        j = j + 1;
    }
    assert(s@.subrange(at as int, at + needle@.len()) =~= needle@);
    true
}

/// Whether the characters `s` begin with `prefix`.
pub fn chars_starts_with(s: &Vec<char>, prefix: &Vec<char>) -> (res: bool)
    ensures
        res == has_prefix(s@, prefix@),
{
    if prefix.len() > s.len() {
        return false;
    }
    let r = matches_at(s, prefix, 0);
    assert(s@.subrange(0, prefix@.len() as int) =~= s@.take(prefix@.len() as int));
    r
}

/// Whether the characters `s` end with `suffix`.
pub fn chars_ends_with(s: &Vec<char>, suffix: &Vec<char>) -> (res: bool)
    ensures
        res == has_suffix(s@, suffix@),
{
    if suffix.len() > s.len() {
        return false;
    }
    let at = s.len() - suffix.len();
    let r = matches_at(s, suffix, at);
    assert(s@.subrange(at as int, at + suffix@.len()) =~= s@.skip(at as int));
    r
}

/// Whether `needle` occurs in `s`.
pub fn chars_contains(s: &Vec<char>, needle: &Vec<char>) -> (res: bool)
    ensures
        res == has_infix(s@, needle@),
{
    if needle.len() > s.len() {
        return false;
    }
    let last = s.len() - needle.len();
    let mut i: usize = 0;
    while i <= last
        invariant
            last == s@.len() - needle@.len(),
            i <= last + 1,
            forall|k: int| 0 <= k < i ==> #[trigger] s@.subrange(k, k + needle@.len()) != needle@,
        decreases last + 1 - i,
    {
        if matches_at(s, needle, i) {
            return true;
        }
        if i == last {
            return false;
        }
        i = i + 1;
    }
    false
}

/// Whether string `s` begins with `prefix`.
pub fn str_starts_with(s: &str, prefix: &str) -> (res: bool)
    ensures
        res == has_prefix(s@, prefix@),
{
    chars_starts_with(&chars_of(s), &chars_of(prefix))
}

/// Whether string `s` ends with `suffix`.
pub fn str_ends_with(s: &str, suffix: &str) -> (res: bool)
    ensures
        res == has_suffix(s@, suffix@),
{
    chars_ends_with(&chars_of(s), &chars_of(suffix))
}

/// Whether string `needle` occurs in string `s`.
pub fn str_contains(s: &str, needle: &str) -> (res: bool)
    ensures
        res == has_infix(s@, needle@),
{
    chars_contains(&chars_of(s), &chars_of(needle))
}

/// Whether `c` has the Unicode `White_Space` property (what `char::is_whitespace` tests).
pub open spec fn is_whitespace(c: char) -> bool {
    let n = c as u32;
    (0x9 <= n <= 0xd) || n == 0x20 || n == 0x85 || n == 0xa0 || n == 0x1680 || (0x2000 <= n <= 0x200a)
        || n == 0x2028 || n == 0x2029 || n == 0x202f || n == 0x205f || n == 0x3000
}

fn char_is_whitespace(c: char) -> (res: bool)
    ensures
        res == is_whitespace(c),
{
    let n = c as u32;
    (0x9 <= n && n <= 0xd) || n == 0x20 || n == 0x85 || n == 0xa0 || n == 0x1680 || (0x2000 <= n && n
        <= 0x200a) || n == 0x2028 || n == 0x2029 || n == 0x202f || n == 0x205f || n == 0x3000
}

/// `s` without its leading whitespace.
pub open spec fn trim_start(s: Seq<char>) -> Seq<char>
    decreases s.len(),
{
    if s.len() > 0 && is_whitespace(s[0]) {
        trim_start(s.drop_first())
    } else {
        s
    }
}

/// `s` without its trailing whitespace.
pub open spec fn trim_end(s: Seq<char>) -> Seq<char>
    decreases s.len(),
{
    if s.len() > 0 && is_whitespace(s.last()) {
        trim_end(s.drop_last())
    } else {
        s
    }
}

/// `s` without leading and trailing whitespace (what `str::trim` gives).
pub open spec fn trimmed(s: Seq<char>) -> Seq<char> {
    trim_end(trim_start(s))
}

proof fn lemma_trim_start_skip(s: Seq<char>, i: int)
    requires
        0 <= i <= s.len(),
        forall|k: int| 0 <= k < i ==> is_whitespace(#[trigger] s[k]),
    ensures
        trim_start(s) == trim_start(s.skip(i)),
    decreases i,
{
    if i > 0 {
        assert(is_whitespace(s[0]));
        assert(s.drop_first().skip(i - 1) =~= s.skip(i));
        assert forall|k: int| 0 <= k < i - 1 implies is_whitespace(#[trigger] s.drop_first()[k]) by {
            assert(s.drop_first()[k] == s[k + 1]);
        }
        lemma_trim_start_skip(s.drop_first(), i - 1);
    } else {
        assert(s.skip(0) =~= s);
    }
}

proof fn lemma_trim_end_take(s: Seq<char>, j: int)
    requires
        0 <= j <= s.len(),
        forall|k: int| j <= k < s.len() ==> is_whitespace(#[trigger] s[k]),
    ensures
        trim_end(s) == trim_end(s.take(j)),
    decreases s.len() - j,
{
    if j < s.len() {
        assert(is_whitespace(s.last()));
        assert(s.drop_last().take(j) =~= s.take(j));
        assert forall|k: int| j <= k < s.drop_last().len() implies is_whitespace(#[trigger] s.drop_last()[k]) by {
            assert(s.drop_last()[k] == s[k]);
        }
        lemma_trim_end_take(s.drop_last(), j);
    } else {
        assert(s.take(j) =~= s);
    }
}

/// The characters of `cs[start..end]` as a `String`.
fn string_of_range(cs: &Vec<char>, start: usize, end: usize) -> (res: String)
    requires
        start <= end <= cs@.len(),
    ensures
        res@ == cs@.subrange(start as int, end as int),
{
    let mut out = String::new();
    let mut i: usize = start;
    while i < end
        invariant
            start <= i <= end,
            end <= cs@.len(),
            out@ == cs@.subrange(start as int, i as int),
        decreases end - i,
    {
        push_char(&mut out, cs[i]);
        assert(cs@.subrange(start as int, i + 1) =~= cs@.subrange(start as int, i as int).push(cs@[i as int]));
        i = i + 1;
    }
    out
}

/// `s` with leading and trailing whitespace removed (std `str::trim`).
pub fn trim(s: &str) -> (res: String)
    ensures
        res@ == trimmed(s@),
{
    let cs = chars_of(s);
    let mut i: usize = 0;
    while i < cs.len() && char_is_whitespace(cs[i])
        invariant
            i <= cs@.len(),
            forall|k: int| 0 <= k < i ==> is_whitespace(#[trigger] cs@[k]),
        decreases cs@.len() - i,
    {
        i = i + 1;
    }
    proof {
        lemma_trim_start_skip(cs@, i as int);
        if i < cs@.len() {
            assert(!is_whitespace(cs@.skip(i as int)[0]));
        }
    }
    let mut j: usize = cs.len();
    while j > i && char_is_whitespace(cs[j - 1])
        invariant
            i <= j <= cs@.len(),
            forall|k: int| j <= k < cs@.len() ==> is_whitespace(#[trigger] cs@[k]),
        decreases j - i,
    {
        j = j - 1;
    }
    proof {
        let t = cs@.skip(i as int);
        assert(trim_start(t) == t);
        assert forall|k: int| j - i <= k < t.len() implies is_whitespace(#[trigger] t[k]) by {
            assert(t[k] == cs@[k + i]);
        }
        lemma_trim_end_take(t, j - i);
        assert(t.take(j - i) =~= cs@.subrange(i as int, j as int));
        let r = cs@.subrange(i as int, j as int);
        if r.len() > 0 {
            assert(r.last() == cs@[j - 1]);
        }
    }
    string_of_range(&cs, i, j)
}

/// The lines of `s` as `str::lines` yields them: split at each `\n`, a final
/// empty piece after a trailing `\n` dropped, and one `\r` before a `\n` removed.
pub open spec fn lines_of(s: Seq<char>) -> Seq<Seq<char>>
    decreases s.len(),
{
    if s.len() == 0 {
        Seq::empty()
    } else {
        let k = first_newline(s);
        proof {
            lemma_first_newline_bounded(s);
        }
        let line = s.take(k);
        let line = if line.len() > 0 && line.last() == '\r' && k < s.len() {
            line.drop_last()
        } else {
            line
        };
        if k < s.len() {
            seq![line] + lines_of(s.skip(k + 1))
        } else {
            seq![line]
        }
    }
}

pub proof fn lemma_first_newline_bounded(s: Seq<char>)
    ensures
        0 <= first_newline(s) <= s.len(),
    decreases s.len(),
{
    if s.len() > 0 && s[0] != '\n' {
        lemma_first_newline_bounded(s.drop_first());
    }
}

proof fn lemma_first_newline_at(s: Seq<char>, k: int)
    requires
        0 <= k <= s.len(),
        forall|j: int| 0 <= j < k ==> #[trigger] s[j] != '\n',
        k == s.len() || s[k] == '\n',
    ensures
        first_newline(s) == k,
    decreases k,
{
    if k > 0 {
        assert forall|j: int| 0 <= j < k - 1 implies #[trigger] s.drop_first()[j] != '\n' by {
            assert(s.drop_first()[j] == s[j + 1]);
        }
        lemma_first_newline_at(s.drop_first(), k - 1);
    }
}

/// The lines of `s` (std `str::lines`), each as an owned `String`.
pub fn split_lines(s: &str) -> (res: Vec<String>)
    ensures
        res@.map_values(|l: String| l@) == lines_of(s@),
{
    let cs = chars_of(s);
    let mut out: Vec<String> = Vec::new();
    let mut st: usize = 0;
    let mut i: usize = 0;
    assert(cs@.skip(0) =~= cs@);
    assert(out@.map_values(|l: String| l@) + lines_of(cs@) =~= lines_of(cs@));
    while i < cs.len()
        invariant
            st <= i <= cs@.len(),
            cs@ == s@,
            lines_of(cs@) == out@.map_values(|l: String| l@) + lines_of(cs@.skip(st as int)),
            forall|j: int| st <= j < i ==> #[trigger] cs@[j] != '\n',
        decreases cs@.len() - i,
    {
        if cs[i] == '\n' {
            let ghost t = cs@.skip(st as int);
            proof {
                assert forall|j: int| 0 <= j < i - st implies #[trigger] t[j] != '\n' by {
                    assert(t[j] == cs@[j + st]);
                }
                lemma_first_newline_at(t, i - st);
                assert(t.skip(i - st + 1) =~= cs@.skip(i + 1));
                assert(t.take(i - st) =~= cs@.subrange(st as int, i as int));
            }
            let end: usize = if i > st && cs[i - 1] == '\r' {
                i - 1
            } else {
                i
            };
            let line = string_of_range(&cs, st, end);
            let ghost before = out@;
            out.push(line);
            proof {
                let piece = cs@.subrange(st as int, i as int);
                if i > st && cs@[i - 1] == '\r' {
                    assert(piece.drop_last() =~= cs@.subrange(st as int, end as int));
                }
                assert(out@.map_values(|l: String| l@) =~= before.map_values(|l: String| l@).push(line@));
                assert(lines_of(t) == seq![line@] + lines_of(cs@.skip(i + 1)));
                assert(out@.map_values(|l: String| l@) + lines_of(cs@.skip(i + 1)) =~= before.map_values(
                    |l: String| l@,
                ) + lines_of(t));
            }
            st = i + 1;
        }
        i = i + 1;
    }
    if st < cs.len() {
        let ghost t = cs@.skip(st as int);
        proof {
            assert forall|j: int| 0 <= j < t.len() implies #[trigger] t[j] != '\n' by {
                assert(t[j] == cs@[j + st]);
            }
            lemma_first_newline_at(t, t.len() as int);
            assert(t.take(t.len() as int) =~= t);
            assert(t =~= cs@.subrange(st as int, cs@.len() as int));
        }
        let line = string_of_range(&cs, st, cs.len());
        let ghost before = out@;
        out.push(line);
        proof {
            assert(out@.map_values(|l: String| l@) =~= before.map_values(|l: String| l@).push(line@));
            assert(lines_of(t) == seq![line@]);
        }
    } else {
        assert(cs@.skip(st as int).len() == 0);
    }
    proof {
        assert(out@.map_values(|l: String| l@) =~= out@.map_values(|l: String| l@) + Seq::<Seq<char>>::empty()) by {
        }
    }
    out
}

/// What `first_newline` finds: no `\n` before it, and a `\n` at it unless it is the end.
proof fn lemma_first_newline_props(s: Seq<char>)
    ensures
        0 <= first_newline(s) <= s.len(),
        forall|j: int| 0 <= j < first_newline(s) ==> #[trigger] s[j] != '\n',
        first_newline(s) < s.len() ==> s[first_newline(s)] == '\n',
    decreases s.len(),
{
    if s.len() > 0 && s[0] != '\n' {
        lemma_first_newline_props(s.drop_first());
        assert forall|j: int| 0 <= j < first_newline(s) implies #[trigger] s[j] != '\n' by {
            if j > 0 {
                assert(s[j] == s.drop_first()[j - 1]);
            }
        }
    }
}

/// Text that ends in a line break splits into lines independently of what follows.
pub proof fn lemma_lines_of_concat(x: Seq<char>, y: Seq<char>)
    requires
        x.len() == 0 || x.last() == '\n',
    ensures
        lines_of(x + y) == lines_of(x) + lines_of(y),
    decreases x.len(),
{
    if x.len() == 0 {
        assert(x + y =~= y);
        assert(lines_of(x) + lines_of(y) =~= lines_of(y));
    } else {
        let s = x + y;
        lemma_first_newline_props(x);
        let k = first_newline(x);
        if k == x.len() {
            assert(x[x.len() - 1] != '\n');
        }
        assert(k < x.len());
        assert forall|j: int| 0 <= j < k implies #[trigger] s[j] != '\n' by {
            assert(s[j] == x[j]);
        }
        assert(s[k] == x[k]);
        lemma_first_newline_at(s, k);
        assert(s.take(k) =~= x.take(k));
        let rest = x.skip(k + 1);
        assert(s.skip(k + 1) =~= rest + y);
        if rest.len() > 0 {
            assert(rest.last() == x.last());
        }
        lemma_lines_of_concat(rest, y);
        let line = if x.take(k).len() > 0 && x.take(k).last() == '\r' {
            x.take(k).drop_last()
        } else {
            x.take(k)
        };
        assert(lines_of(x) == seq![line] + lines_of(rest));
        assert(lines_of(s) == seq![line] + lines_of(rest + y));
        assert(lines_of(s) =~= lines_of(x) + lines_of(y));
    }
}

/// One line of text followed by a line break is that one line.
pub proof fn lemma_lines_of_single(r: Seq<char>)
    requires
        forall|j: int| 0 <= j < r.len() ==> #[trigger] r[j] != '\n',
        r.len() == 0 || r.last() != '\r',
    ensures
        lines_of(r.push('\n')) == seq![r],
{
    let s = r.push('\n');
    assert forall|j: int| 0 <= j < r.len() implies #[trigger] s[j] != '\n' by {
        assert(s[j] == r[j]);
    }
    lemma_first_newline_at(s, r.len() as int);
    assert(s.take(r.len() as int) =~= r);
    assert(s.skip(r.len() as int + 1).len() == 0);
    assert(lines_of(s.skip(r.len() as int + 1)) == Seq::<Seq<char>>::empty());
    assert(lines_of(s) =~= seq![r]);
}

/// Index of the first `\n` in `s`, or its length.
pub open spec fn first_newline(s: Seq<char>) -> int
    decreases s.len(),
{
    if s.len() == 0 {
        0
    } else if s[0] == '\n' {
        0
    } else {
        1 + first_newline(s.drop_first())
    }
}

/// Whether `s` equals one of `options`.
pub open spec fn is_one_of(s: Seq<char>, options: Seq<&str>) -> bool {
    exists|i: int| 0 <= i < options.len() && options[i]@ == s
}

/// Whether `s` equals one of the string slices in `options`.
pub fn str_in(s: &str, options: &[&str]) -> (res: bool)
    ensures
        res == is_one_of(s@, options@),
{
    let mut i: usize = 0;
    while i < options.len()
        invariant
            i <= options@.len(),
            forall|j: int| 0 <= j < i ==> options@[j]@ != s@,
        decreases options@.len() - i,
    {
        if str_eq(options[i], s) {
            return true;
        }
        i = i + 1;
    }
    false
}

/// Whether `s` contains at least one of `needles`.
pub open spec fn contains_any(s: Seq<char>, needles: Seq<&str>) -> bool {
    exists|i: int| 0 <= i < needles.len() && has_infix(s, needles[i]@)
}

/// Whether `s` contains at least one of the string slices in `needles`.
pub fn str_contains_any(s: &str, needles: &[&str]) -> (res: bool)
    ensures
        res == contains_any(s@, needles@),
{
    let cs = chars_of(s);
    let mut i: usize = 0;
    while i < needles.len()
        invariant
            i <= needles@.len(),
            cs@ == s@,
            forall|j: int| 0 <= j < i ==> !has_infix(s@, #[trigger] needles@[j]@),
        decreases needles@.len() - i,
    {
        if chars_contains(&cs, &chars_of(needles[i])) {
            return true;
        }
        i = i + 1;
    }
    false
}

/// The decimal digits of `n`, most significant first (no leading zeros; "0" for zero).
pub open spec fn decimal(n: nat) -> Seq<char>
    decreases n,
{
    if n < 10 {
        seq![((n + 48) as u8) as char]
    } else {
        decimal(n / 10).push((((n % 10) + 48) as u8) as char)
    }
}

/// Appends the decimal rendering of `n` to `s`.
pub fn push_decimal(s: &mut String, n: usize)
    ensures
        final(s)@ == old(s)@ + decimal(n as nat),
    decreases n,
{
    if n < 10 {
        push_char(s, ((n as u8) + 48) as char);
        assert(old(s)@.push((((n as nat) + 48) as u8) as char) =~= old(s)@ + decimal(n as nat));
    } else {
        push_decimal(s, n / 10);
        push_char(s, (((n % 10) as u8) + 48) as char);
        assert(old(s)@ + decimal(n as nat / 10) + seq![((((n as nat) % 10) + 48) as u8) as char]
            =~= old(s)@ + decimal(n as nat));
    }
}

} // verus!
