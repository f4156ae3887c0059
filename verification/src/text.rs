//! Names as sequences of characters: prefixes, occurrences, and the index
//! that a dotted name addresses.
use vstd::prelude::*;

verus! {

/// Whether `needle` stands in `hay` at position `at`.
pub open spec fn occurs_at(needle: Seq<char>, hay: Seq<char>, at: int) -> bool {
    0 <= at && at + needle.len() <= hay.len() && hay.subrange(at, at + needle.len()) == needle
}

/// Whether `needle` stands somewhere in `hay`.
pub open spec fn occurs_in(needle: Seq<char>, hay: Seq<char>) -> bool {
    exists|at: int| occurs_at(needle, hay, at)
}

/// Whether `c` is one of the ten ASCII digits.
pub open spec fn is_digit(c: char) -> bool {
    48 <= c as u32 <= 57
}

/// What a digit counts; zero for any other character.
pub open spec fn digit_value(c: char) -> nat {
    if is_digit(c) {
        (c as u32 - 48) as nat
    } else {
        0
    }
}

/// Whether `s` holds digits only.
pub open spec fn all_digits(s: Seq<char>) -> bool {
    forall|i: int| 0 <= i < s.len() ==> is_digit(#[trigger] s[i])
}

/// The number that a run of digits writes in base ten.
pub open spec fn decimal(digits: Seq<char>) -> nat
    decreases digits.len(),
{
    if digits.len() == 0 {
        0
    } else {
        decimal(digits.drop_last()) * 10 + digit_value(digits.last())
    }
}

/// `s` without one leading plus sign.
pub open spec fn unsigned_part(s: Seq<char>) -> Seq<char> {
    if s.len() > 0 && s[0] == '+' {
        s.subrange(1, s.len() as int)
    } else {
        s
    }
}

/// The non-negative integer that `s` writes: at least one digit, after at
/// most one plus sign, and nothing else.
pub open spec fn number(s: Seq<char>) -> Option<nat> {
    let digits = unsigned_part(s);
    if digits.len() > 0 && all_digits(digits) {
        Some(decimal(digits))
    } else {
        None
    }
}

/// Where the run without a dot that starts at `from` ends: at the first dot
/// at or after `from`, or at the end of `s`.
pub open spec fn run_end(s: Seq<char>, from: int) -> int
    decreases s.len() - from,
{
    if 0 <= from < s.len() && s[from] != '.' {
        run_end(s, from + 1)
    } else {
        from
    }
}

/// What stands between the first dot of `s` and the second, or the end if
/// there is no second; nothing if `s` has no dot.
pub open spec fn second_segment(s: Seq<char>) -> Option<Seq<char>> {
    let dot = run_end(s, 0);
    if dot < s.len() {
        Some(s.subrange(dot + 1, run_end(s, dot + 1)))
    } else {
        None
    }
}

/// The number written by the second segment of `name`, whatever its size.
pub open spec fn written_index(name: Seq<char>) -> Option<nat> {
    match second_segment(name) {
        Some(segment) => number(segment),
        None => None,
    }
}

/// The index that `name` addresses in a table of `limit` entries: the number
/// written by its second segment, if that number is below `limit`.
pub open spec fn named_index(name: Seq<char>, limit: usize) -> Option<usize> {
    match written_index(name) {
        Some(n) => if n < limit {
            Some(n as usize)
        } else {
            None
        },
        None => None,
    }
}

/// A run ends within the sequence, no earlier than it starts.
pub proof fn run_end_in_bounds(s: Seq<char>, from: int)
    requires
        0 <= from <= s.len(),
    ensures
        from <= run_end(s, from) <= s.len(),
    decreases s.len() - from,
{
    if from < s.len() && s[from] != '.' {
        run_end_in_bounds(s, from + 1);
    }
}

/// A run passes over every stretch that holds no dot.
pub proof fn run_end_skips(s: Seq<char>, from: int, to: int)
    requires
        0 <= from <= to <= s.len(),
        forall|i: int| from <= i < to ==> s[i] != '.',
    ensures
        run_end(s, from) == run_end(s, to),
    decreases to - from,
{
    if from < to {
        run_end_skips(s, from + 1, to);
    }
}

/// Digits appended to a number never make it smaller.
pub proof fn decimal_grows(digits: Seq<char>, k: int)
    requires
        0 <= k <= digits.len(),
    ensures
        decimal(digits.subrange(0, k)) <= decimal(digits),
    decreases digits.len() - k,
{
    if k == digits.len() {
        assert(digits.subrange(0, k) =~= digits);
    } else {
        decimal_grows(digits.drop_last(), k);
        assert(digits.drop_last().subrange(0, k) =~= digits.subrange(0, k));
    }
}

/// The characters of `s`, in order.
pub fn chars_of(s: &str) -> (r: Vec<char>)
    ensures
        r@ == s@,
{
    let n: usize = s.unicode_len();
    let mut out: Vec<char> = Vec::new();
    let mut i: usize = 0;
    while i < n
        invariant
            n == s@.len(),
            i <= n,
            out@ == s@.subrange(0, i as int),
        decreases n - i,
    {
        out.push(s.get_char(i));
        i += 1;
        assert(out@ =~= s@.subrange(0, i as int));
    }
    assert(s@.subrange(0, n as int) =~= s@);
    out
}

/// Whether `needle` stands in `hay` at position `at`.
pub fn matches_at(hay: &Vec<char>, needle: &Vec<char>, at: usize) -> (r: bool)
    ensures
        r == occurs_at(needle@, hay@, at as int),
{
    let n: usize = needle.len();
    if at > hay.len() || n > hay.len() - at {
        return false;
    }
    let mut j: usize = 0;
    while j < n
        invariant
            n == needle@.len(),
            at + n <= hay@.len() <= usize::MAX,
            j <= n,
            forall|k: int| 0 <= k < j ==> hay@[at + k] == needle@[k],
        decreases n - j,
    {
        if hay[at + j] != needle[j] {
            assert(hay@.subrange(at as int, at + n)[j as int] != needle@[j as int]);
            return false;
        }
        j += 1;
    }
    assert(hay@.subrange(at as int, at + n) =~= needle@);
    true
}

/// Whether `text` begins with `prefix`.
pub fn starts_with(text: &Vec<char>, prefix: &Vec<char>) -> (r: bool)
    ensures
        r == prefix@.is_prefix_of(text@),
{
    let r = matches_at(text, prefix, 0);
    proof {
        if prefix@.len() <= text@.len() {
            assert(prefix@.is_prefix_of(text@) == (text@.subrange(0, prefix@.len() as int)
                == prefix@));
        }
    }
    r
}

/// Whether `a` and `b` hold the same characters.
pub fn same_text(a: &Vec<char>, b: &Vec<char>) -> (r: bool)
    ensures
        r == (a@ == b@),
{
    if a.len() != b.len() {
        return false;
    }
    let r = matches_at(a, b, 0);
    assert(a@.subrange(0, a@.len() as int) =~= a@);
    r
}

/// Whether `text` is `head` followed by `tail` and nothing more.
pub fn is_joined(text: &Vec<char>, head: &Vec<char>, tail: &Vec<char>) -> (r: bool)
    ensures
        r == (text@ == head@ + tail@),
{
    if head.len() > text.len() || text.len() - head.len() != tail.len() {
        return false;
    }
    let r = matches_at(text, head, 0) && matches_at(text, tail, head.len());
    proof {
        let n = head@.len() as int;
        let whole = head@ + tail@;
        assert(whole.subrange(0, n) =~= head@);
        assert(whole.subrange(n, n + tail@.len()) =~= tail@);
        if r {
            assert(text@ =~= text@.subrange(0, n) + text@.subrange(n, n + tail@.len()));
        }
    }
    r
}

/// Whether `needle` stands somewhere in `hay`.
pub fn contains(hay: &Vec<char>, needle: &Vec<char>) -> (r: bool)
    ensures
        r == occurs_in(needle@, hay@),
{
    if needle.len() > hay.len() {
        return false;
    }
    let last: usize = hay.len() - needle.len();
    let mut at: usize = 0;
    loop
        invariant
            last == hay@.len() - needle@.len(),
            at <= last,
            forall|k: int| 0 <= k < at ==> !occurs_at(needle@, hay@, k),
        decreases last - at,
    {
        if matches_at(hay, needle, at) {
            return true;
        }
        if at == last {
            return false;
        }
        at += 1;
    }
}

/// Finds where the run without a dot that starts at `from` ends.
fn find_run_end(text: &Vec<char>, from: usize) -> (r: usize)
    requires
        from <= text@.len(),
    ensures
        r == run_end(text@, from as int),
        from <= r <= text@.len(),
{
    let mut i: usize = from;
    while i < text.len() && text[i] != '.'
        invariant
            from <= i <= text@.len(),
            run_end(text@, from as int) == run_end(text@, i as int),
        decreases text@.len() - i,
    {
        i += 1;
    }
    i
}

/// Reads the non-negative integer written by `text[from..to]`, if it is
/// below `limit`.
fn read_number_below(text: &Vec<char>, from: usize, to: usize, limit: usize) -> (r: Option<usize>)
    requires
        from <= to <= text@.len(),
    ensures
        r == match number(text@.subrange(from as int, to as int)) {
            Some(n) => if n < limit {
                Some(n as usize)
            } else {
                None
            },
            None => None,
        },
{
    let ghost whole = text@.subrange(from as int, to as int);
    let start: usize = if from < to && text[from] == '+' {
        from + 1
    } else {
        from
    };
    let ghost digits = unsigned_part(whole);
    assert(digits =~= text@.subrange(start as int, to as int));
    if start == to {
        return None;
    }
    let mut value: usize = 0;
    let mut i: usize = start;
    while i < to
        invariant
            from <= start <= i <= to <= text@.len(),
            start < to,
            digits == unsigned_part(text@.subrange(from as int, to as int)),
            digits == text@.subrange(start as int, to as int),
            all_digits(digits.subrange(0, i - start)),
            value == decimal(digits.subrange(0, i - start)),
            i > start ==> value < limit,
        decreases to - i,
    {
        let c: char = text[i];
        assert(c == digits[i - start]);
        let code: u32 = c as u32;
        if code < 48 || code > 57 {
            assert(!is_digit(digits[i - start]));
            return None;
        }
        let digit: u32 = code - 48;
        let ghost before = digits.subrange(0, i - start);
        let ghost after = digits.subrange(0, i - start + 1);
        proof {
            assert(after.drop_last() =~= before);
            assert(after.last() == c);
            assert(decimal(after) == decimal(before) * 10 + digit);
            assert forall|k: int| 0 <= k < after.len() implies is_digit(#[trigger] after[k]) by {
                if k < before.len() {
                    assert(after[k] == before[k]);
                }
            }
            decimal_grows(digits, i - start + 1);
        }
        let next: u128 = value as u128 * 10 + digit as u128;
        if next >= limit as u128 {
            return None;
        }
        value = next as usize;
        i += 1;
    }
    assert(digits.subrange(0, to - start) =~= digits);
    Some(value)
}

/// The index that `name` addresses in a table of `limit` entries.
pub fn index_in_name(name: &Vec<char>, limit: usize) -> (r: Option<usize>)
    ensures
        r == named_index(name@, limit),
{
    let dot: usize = find_run_end(name, 0);
    if dot >= name.len() {
        return None;
    }
    let end: usize = find_run_end(name, dot + 1);
    read_number_below(name, dot + 1, end, limit)
}

} // verus!
