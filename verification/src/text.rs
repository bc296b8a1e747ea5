//! Plain text building blocks the formatters rest on: decimal rendering of
//! numbers, splitting a text on newline boundaries into display lines, and
//! recognizing a JSON mime type.

use vstd::prelude::*;
use vstd::string::StrSliceExecFns;
use vstd::string::StringExecFns;

verus! {

/// The views of a sequence of owned lines.
pub open spec fn views_of(lines: Seq<String>) -> Seq<Seq<char>> {
    lines.map_values(|t: String| t@)
}

pub proof fn lemma_views_of_push(lines: Seq<String>, t: String)
    ensures
        views_of(lines.push(t)) == views_of(lines).push(t@),
{
    assert(views_of(lines.push(t)) =~= views_of(lines).push(t@));
}

pub proof fn lemma_views_of_concat(a: Seq<String>, b: Seq<String>)
    ensures
        views_of(a + b) == views_of(a) + views_of(b),
{
    assert(views_of(a + b) =~= views_of(a) + views_of(b));
}

/// The decimal digit character for a value below ten.
pub open spec fn spec_digit(d: int) -> char {
    if d == 0 {
        '0'
    } else if d == 1 {
        '1'
    } else if d == 2 {
        '2'
    } else if d == 3 {
        '3'
    } else if d == 4 {
        '4'
    } else if d == 5 {
        '5'
    } else if d == 6 {
        '6'
    } else if d == 7 {
        '7'
    } else if d == 8 {
        '8'
    } else {
        '9'
    }
}

/// The decimal digits of a non-negative number, most significant first.
pub open spec fn spec_dec(n: nat) -> Seq<char>
    decreases n,
{
    if n < 10 {
        seq![spec_digit(n as int)]
    } else {
        spec_dec(n / 10) + seq![spec_digit((n % 10) as int)]
    }
}

/// The decimal rendering of a signed number: the digits of its magnitude,
/// with a leading minus sign when it is negative.
pub open spec fn spec_dec_signed(n: int) -> Seq<char> {
    if n < 0 {
        seq!['-'] + spec_dec((-n) as nat)
    } else {
        spec_dec(n as nat)
    }
}

fn digit_str(d: u64) -> (r: &'static str)
    requires
        d < 10,
    ensures
        r@ == seq![spec_digit(d as int)],
{
    let r: &'static str = if d == 0 {
        "0"
    } else if d == 1 {
        "1"
    } else if d == 2 {
        "2"
    } else if d == 3 {
        "3"
    } else if d == 4 {
        "4"
    } else if d == 5 {
        "5"
    } else if d == 6 {
        "6"
    } else if d == 7 {
        "7"
    } else if d == 8 {
        "8"
    } else {
        "9"
    };
    proof {
        reveal_strlit("0");
        reveal_strlit("1");
        reveal_strlit("2");
        reveal_strlit("3");
        reveal_strlit("4");
        reveal_strlit("5");
        reveal_strlit("6");
        reveal_strlit("7");
        reveal_strlit("8");
        reveal_strlit("9");
        assert(r@ =~= seq![spec_digit(d as int)]);
    }
    r
}

/// Renders a number in decimal.
pub fn u64_to_dec(n: u64) -> (r: String)
    ensures
        r@ == spec_dec(n as nat),
    decreases n,
{
    if n < 10 {
        digit_str(n).to_owned()
    } else {
        let mut r = u64_to_dec(n / 10);
        r.append(digit_str(n % 10));
        r
    }
}

/// Renders a signed number in decimal, with a minus sign when negative.
pub fn i64_to_dec(n: i64) -> (r: String)
    ensures
        r@ == spec_dec_signed(n as int),
{
    if n >= 0 {
        u64_to_dec(n as u64)
    } else {
        let mag: u64 = (-(n as i128)) as u64;
        let digits = u64_to_dec(mag);
        let mut r = "-".to_owned();
        r.append(digits.as_str());
        proof {
            reveal_strlit("-");
            assert(r@ =~= spec_dec_signed(n as int));
        }
        r
    }
}

/// The segments of a text split on newline characters, in order, as
/// `str::split('\n')` yields them: the empty text gives one empty segment,
/// and a trailing newline gives a trailing empty segment.
pub open spec fn spec_split_lines(s: Seq<char>) -> Seq<Seq<char>>
    decreases s.len(),
{
    if s.len() == 0 {
        seq![Seq::<char>::empty()]
    } else if s[0] == '\n' {
        seq![Seq::<char>::empty()] + spec_split_lines(s.skip(1))
    } else {
        let rest = spec_split_lines(s.skip(1));
        seq![seq![s[0]] + rest[0]] + rest.skip(1)
    }
}

pub proof fn lemma_split_lines_nonempty(s: Seq<char>)
    ensures
        spec_split_lines(s).len() >= 1,
    decreases s.len(),
{
    if s.len() == 0 {
    } else if s[0] == '\n' {
    } else {
        lemma_split_lines_nonempty(s.skip(1));
    }
}

/// A text without newlines splits into exactly itself.
pub proof fn lemma_split_lines_no_newline(s: Seq<char>)
    requires
        forall|j: int| 0 <= j < s.len() ==> s[j] != '\n',
    ensures
        spec_split_lines(s) == seq![s],
    decreases s.len(),
{
    if s.len() == 0 {
        assert(s =~= Seq::<char>::empty());
    } else {
        lemma_split_lines_no_newline(s.skip(1));
        lemma_split_lines_nonempty(s.skip(1));
        assert(seq![s[0]] + s.skip(1) =~= s);
        assert(spec_split_lines(s) =~= seq![s]);
    }
}

/// Splitting at the first newline: the segment before it, then the split of
/// what follows it.
pub proof fn lemma_split_lines_at_newline(s: Seq<char>, k: int)
    requires
        0 <= k < s.len(),
        s[k] == '\n',
        forall|j: int| 0 <= j < k ==> s[j] != '\n',
    ensures
        spec_split_lines(s) == seq![s.take(k)] + spec_split_lines(s.skip(k + 1)),
    decreases k,
{
    if k == 0 {
        assert(s.take(0) =~= Seq::<char>::empty());
        assert(spec_split_lines(s) =~= seq![s.take(0)] + spec_split_lines(s.skip(1)));
    } else {
        lemma_split_lines_at_newline(s.skip(1), k - 1);
        lemma_split_lines_nonempty(s.skip(k + 1));
        assert(seq![s[0]] + s.skip(1).take(k - 1) =~= s.take(k));
        assert(s.skip(1).skip(k) =~= s.skip(k + 1));
        assert(spec_split_lines(s) =~= seq![s.take(k)] + spec_split_lines(s.skip(k + 1)));
    }
}

/// Splits a text on newline characters into one owned line per segment.
pub fn split_lines(s: &str) -> (r: Vec<String>)
    ensures
        views_of(r@) == spec_split_lines(s@),
{
    let n = s.unicode_len();
    let mut r: Vec<String> = Vec::new();
    let mut start: usize = 0;
    let mut i: usize = 0;
    proof {
        assert(s@.skip(0) =~= s@);
        assert(views_of(r@) =~= Seq::<Seq<char>>::empty());
    }
    while i < n
        invariant
            start <= i <= n,
            n == s@.len(),
            forall|j: int| start <= j < i ==> s@[j] != '\n',
            spec_split_lines(s@) == views_of(r@) + spec_split_lines(s@.skip(start as int)),
        decreases n - i,
    {
        if s.get_char(i) == '\n' {
            let seg = s.substring_char(start, i).to_owned();
            proof {
                let tail = s@.skip(start as int);
                assert(forall|j: int|
                    0 <= j < i - start ==> tail[j] == s@[start + j] && tail[j] != '\n');
                lemma_split_lines_at_newline(tail, i - start);
                assert(tail.take(i - start) =~= s@.subrange(start as int, i as int));
                assert(tail.skip(i - start + 1) =~= s@.skip(i + 1));
                lemma_views_of_push(r@, seg);
                assert(views_of(r@).push(seg@) + spec_split_lines(s@.skip(i + 1)) =~= views_of(
                    r@,
                ) + spec_split_lines(s@.skip(start as int)));
            }
            r.push(seg);
            start = i + 1;
        }
        i += 1;
    }
    let seg = s.substring_char(start, n).to_owned();
    proof {
        let tail = s@.skip(start as int);
        assert(forall|j: int| 0 <= j < tail.len() ==> tail[j] == s@[start + j] && tail[j] != '\n');
        lemma_split_lines_no_newline(tail);
        assert(tail =~= s@.subrange(start as int, n as int));
        lemma_views_of_push(r@, seg);
        assert(views_of(r@).push(seg@) =~= views_of(r@) + spec_split_lines(s@.skip(start as int)));
    }
    r.push(seg);
    r
}

/// Whether a mime type names JSON content: exactly `application/json`, or
/// that followed by a semicolon and parameters.
pub open spec fn spec_is_json_mime(m: Seq<char>) -> bool {
    &&& m.len() >= 16
    &&& m.take(16) == "application/json"@
    &&& (m.len() == 16 || m[16] == ';')
}

/// Decides whether a mime type names JSON content.
pub fn is_json_mime(m: &str) -> (r: bool)
    ensures
        r == spec_is_json_mime(m@),
{
    let n = m.unicode_len();
    if n < 16 {
        return false;
    }
    let prefix = m.substring_char(0, 16).to_owned();
    let expected = "application/json".to_owned();
    if !prefix.eq(&expected) {
        proof {
            assert(m@.take(16) =~= m@.subrange(0, 16));
        }
        return false;
    }
    proof {
        assert(m@.take(16) =~= m@.subrange(0, 16));
    }
    if n == 16 {
        return true;
    }
    m.get_char(16) == ';'
}

} // verus!
