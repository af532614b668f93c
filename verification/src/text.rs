//! Character-sequence operations on strings: trimming, splitting and
//! decimal integer text.

use vstd::prelude::*;

verus! {

/// `s` with every leading `c` removed.
pub open spec fn trim_start(s: Seq<char>, c: char) -> Seq<char>
    decreases s.len(),
{
    if s.len() > 0 && s[0] == c {
        trim_start(s.drop_first(), c)
    } else {
        s
    }
}

/// `s` with every trailing `c` removed.
pub open spec fn trim_end(s: Seq<char>, c: char) -> Seq<char>
    decreases s.len(),
{
    if s.len() > 0 && s.last() == c {
        trim_end(s.drop_last(), c)
    } else {
        s
    }
}

proof fn lemma_trim_start_skip(s: Seq<char>, c: char, i: int)
    requires
        0 <= i <= s.len(),
        forall|j: int| 0 <= j < i ==> s[j] == c,
    ensures
        trim_start(s, c) == trim_start(s.skip(i), c),
    decreases i,
{
    if i > 0 {
        assert(s.drop_first().skip(i - 1) =~= s.skip(i));
        lemma_trim_start_skip(s.drop_first(), c, i - 1);
    } else {
        assert(s.skip(0) =~= s);
    }
}

proof fn lemma_trim_end_take(s: Seq<char>, c: char, i: int)
    requires
        0 <= i <= s.len(),
        forall|j: int| i <= j < s.len() ==> s[j] == c,
    ensures
        trim_end(s, c) == trim_end(s.take(i), c),
    decreases s.len() - i,
{
    if i < s.len() {
        assert(s.drop_last().take(i) =~= s.take(i));
        lemma_trim_end_take(s.drop_last(), c, i);
    } else {
        assert(s.take(i) =~= s);
    }
}

/// Copies `s` with every leading `c` removed (`str::trim_start_matches`).
pub fn trim_start_char(s: &str, c: char) -> (res: String)
    ensures
        res@ == trim_start(s@, c),
{
    let n = s.unicode_len();
    let mut i: usize = 0;
    while i < n && s.get_char(i) == c
        invariant
            n == s@.len(),
            i <= n,
            forall|j: int| 0 <= j < i ==> s@[j] == c,
        decreases n - i,
    {
        i = i + 1;
    }
    proof {
        lemma_trim_start_skip(s@, c, i as int);
        assert(s@.skip(i as int) =~= s@.subrange(i as int, n as int));
    }
    String::from_str(s.substring_char(i, n))
}

/// Copies `s` with every trailing `c` removed (`str::trim_end_matches`).
pub fn trim_end_char(s: &str, c: char) -> (res: String)
    ensures
        res@ == trim_end(s@, c),
{
    let n = s.unicode_len();
    let mut i: usize = n;
    while i > 0 && s.get_char(i - 1) == c
        invariant
            n == s@.len(),
            i <= n,
            forall|j: int| i <= j < n ==> s@[j] == c,
        decreases i,
    {
        i = i - 1;
    }
    proof {
        lemma_trim_end_take(s@, c, i as int);
        assert(s@.take(i as int) =~= s@.subrange(0, i as int));
    }
    String::from_str(s.substring_char(0, i))
}

} // verus!

verus! {

/// The text after the last `c` in `s`, or all of `s` when it holds no `c`
/// (the first item of `str::rsplit`).
pub open spec fn last_segment(s: Seq<char>, c: char) -> Seq<char>
    decreases s.len(),
{
    if s.len() == 0 {
        s
    } else if s.last() == c {
        Seq::empty()
    } else {
        last_segment(s.drop_last(), c).push(s.last())
    }
}

/// The index of the last `c` in `s` (`str::rfind`).
pub open spec fn last_index(s: Seq<char>, c: char) -> Option<int>
    decreases s.len(),
{
    if s.len() == 0 {
        None
    } else if s.last() == c {
        Some(s.len() - 1)
    } else {
        last_index(s.drop_last(), c)
    }
}

/// Whether `pat` occurs in `s` at index `i`.
pub open spec fn occurs_at(s: Seq<char>, pat: Seq<char>, i: int) -> bool {
    0 <= i && i + pat.len() <= s.len() && s.subrange(i, i + pat.len()) == pat
}

/// The first index at or after `from` where `pat` occurs in `s`.
pub open spec fn find_from(s: Seq<char>, pat: Seq<char>, from: int) -> Option<int>
    decreases s.len() + 1 - from,
{
    if from < 0 || from + pat.len() > s.len() {
        None
    } else if occurs_at(s, pat, from) {
        Some(from)
    } else {
        find_from(s, pat, from + 1)
    }
}

/// The first index where `pat` occurs in `s` (`str::find`).
pub open spec fn find(s: Seq<char>, pat: Seq<char>) -> Option<int> {
    find_from(s, pat, 0)
}

proof fn lemma_last_segment_skip(s: Seq<char>, c: char, i: int)
    requires
        0 <= i <= s.len(),
        forall|j: int| i <= j < s.len() ==> s[j] != c,
        i > 0 ==> s[i - 1] == c,
    ensures
        last_segment(s, c) == s.skip(i),
        last_index(s, c) == (if i > 0 { Some(i - 1) } else { None::<int> }),
    decreases s.len() - i,
{
    if s.len() == 0 {
    } else if s.len() == i {
        assert(s.skip(i) =~= Seq::<char>::empty());
    } else {
        lemma_last_segment_skip(s.drop_last(), c, i);
        assert(s.drop_last().skip(i).push(s.last()) =~= s.skip(i));
    }
}

/// The index of the last `c` in `s` (`str::rfind`), counted in characters.
pub fn rfind_char(s: &str, c: char) -> (res: Option<usize>)
    ensures
        match res {
            Some(i) => last_index(s@, c) == Some(i as int),
            None => last_index(s@, c) is None,
        },
{
    let n = s.unicode_len();
    let mut i: usize = n;
    while i > 0 && s.get_char(i - 1) != c
        invariant
            n == s@.len(),
            i <= n,
            forall|j: int| i <= j < n ==> s@[j] != c,
        decreases i,
    {
        i = i - 1;
    }
    proof {
        lemma_last_segment_skip(s@, c, i as int);
    }
    if i > 0 {
        Some(i - 1)
    } else {
        None
    }
}

/// Copies the text after the last `c` in `s` (`s.rsplit(c).next()`).
pub fn last_segment_of(s: &str, c: char) -> (res: String)
    ensures
        res@ == last_segment(s@, c),
{
    let n = s.unicode_len();
    let mut i: usize = n;
    while i > 0 && s.get_char(i - 1) != c
        invariant
            n == s@.len(),
            i <= n,
            forall|j: int| i <= j < n ==> s@[j] != c,
        decreases i,
    {
        i = i - 1;
    }
    proof {
        lemma_last_segment_skip(s@, c, i as int);
        assert(s@.skip(i as int) =~= s@.subrange(i as int, n as int));
    }
    String::from_str(s.substring_char(i, n))
}

proof fn lemma_find_from_none(s: Seq<char>, pat: Seq<char>, from: int, to: int)
    requires
        0 <= from <= to,
        forall|j: int| from <= j < to ==> !occurs_at(s, pat, j),
    ensures
        find_from(s, pat, from) == find_from(s, pat, to),
    decreases to - from,
{
    if from < to {
        if from + pat.len() > s.len() {
            assert(to + pat.len() > s.len());
            lemma_find_from_past_end(s, pat, to);
        } else {
            lemma_find_from_none(s, pat, from + 1, to);
        }
    }
}

proof fn lemma_find_from_past_end(s: Seq<char>, pat: Seq<char>, from: int)
    requires
        from + pat.len() > s.len(),
    ensures
        find_from(s, pat, from) is None,
{
}

/// Whether `pat` occurs in `s` at character index `i`.
fn occurs_at_exec(s: &str, pat: &str, i: usize, n: usize, m: usize) -> (res: bool)
    requires
        n == s@.len(),
        m == pat@.len(),
        i + m <= n,
    ensures
        res == occurs_at(s@, pat@, i as int),
{
    let mut k: usize = 0;
    while k < m
        invariant
            n == s@.len(),
            m == pat@.len(),
            i + m <= n,
            k <= m,
            forall|j: int| 0 <= j < k ==> s@[i + j] == pat@[j],
        decreases m - k,
    {
        if s.get_char(i + k) != pat.get_char(k) {
            assert(s@.subrange(i as int, i + m)[k as int] != pat@[k as int]);
            return false;
        }
        k = k + 1;
    }
    assert(s@.subrange(i as int, i + m) =~= pat@);
    true
}

/// A match that `find_from` reports lies within `s`, at or after `from`.
pub proof fn lemma_find_in_bounds(s: Seq<char>, pat: Seq<char>, from: int)
    ensures
        find_from(s, pat, from) matches Some(i) ==> from <= i && i + pat.len() <= s.len() && occurs_at(s, pat, i),
    decreases s.len() + 1 - from,
{
    if from < 0 || from + pat.len() > s.len() {
    } else if occurs_at(s, pat, from) {
    } else {
        lemma_find_in_bounds(s, pat, from + 1);
    }
}

/// The index that `last_index` reports holds `c`.
pub proof fn lemma_last_index_in_bounds(s: Seq<char>, c: char)
    ensures
        last_index(s, c) matches Some(i) ==> 0 <= i < s.len() && s[i] == c,
    decreases s.len(),
{
    if s.len() > 0 && s.last() != c {
        lemma_last_index_in_bounds(s.drop_last(), c);
    }
}

/// The character index of the first occurrence of `pat` in `s` (`str::find`).
pub fn find_str(s: &str, pat: &str) -> (res: Option<usize>)
    ensures
        match res {
            Some(i) => find(s@, pat@) == Some(i as int),
            None => find(s@, pat@) is None,
        },
{
    let n = s.unicode_len();
    let m = pat.unicode_len();
    if m > n {
        return None;
    }
    if m == 0 {
        assert(s@.subrange(0, 0) =~= pat@);
        return Some(0);
    }
    let mut i: usize = 0;
    while i <= n - m
        invariant
            n == s@.len(),
            m == pat@.len(),
            1 <= m <= n,
            i <= n - m + 1,
            forall|j: int| 0 <= j < i ==> !occurs_at(s@, pat@, j),
        decreases n + 1 - i,
    {
        if occurs_at_exec(s, pat, i, n, m) {
            proof {
                lemma_find_from_none(s@, pat@, 0, i as int);
            }
            return Some(i);
        }
        i = i + 1;
    }
    proof {
        lemma_find_from_none(s@, pat@, 0, i as int);
    }
    None
}

/// The character `'0' + d` for a digit value `d`.
pub open spec fn digit_char(d: int) -> char {
    if d == 0 { '0' }
    else if d == 1 { '1' }
    else if d == 2 { '2' }
    else if d == 3 { '3' }
    else if d == 4 { '4' }
    else if d == 5 { '5' }
    else if d == 6 { '6' }
    else if d == 7 { '7' }
    else if d == 8 { '8' }
    else { '9' }
}

/// The digit value of a decimal digit character.
pub open spec fn digit_value(c: char) -> int {
    c as int - '0' as int
}

/// Whether `c` is an ASCII decimal digit.
pub open spec fn is_digit(c: char) -> bool {
    '0' <= c && c <= '9'
}

/// The decimal text of `n`, without leading zeros.
pub open spec fn decimal_nat(n: nat) -> Seq<char>
    decreases n,
{
    if n < 10 {
        seq![digit_char(n as int)]
    } else {
        decimal_nat(n / 10) + seq![digit_char((n % 10) as int)]
    }
}

/// The decimal text of `n` as `Display` writes it: a `-` before negative numbers.
pub open spec fn decimal(n: int) -> Seq<char> {
    if n < 0 {
        seq!['-'] + decimal_nat((-n) as nat)
    } else {
        decimal_nat(n as nat)
    }
}

fn digit_text(d: u64) -> (res: &'static str)
    requires
        d < 10,
    ensures
        res@ == seq![digit_char(d as int)],
{
    proof {
        reveal_strlit("0");
        reveal_strlit("1");
        reveal_strlit("2");
        reveal_strlit("3");
        reveal_strlit("4");
        reveal_strlit("5");
        reveal_strlit("6");
        reveal_strlit("7");
        reveal_strlit("8");
        reveal_strlit("9");
    }
    if d == 0 { "0" }
    else if d == 1 { "1" }
    else if d == 2 { "2" }
    else if d == 3 { "3" }
    else if d == 4 { "4" }
    else if d == 5 { "5" }
    else if d == 6 { "6" }
    else if d == 7 { "7" }
    else if d == 8 { "8" }
    else { "9" }
}

/// The decimal text of `n`.
pub fn u64_text(n: u64) -> (res: String)
    ensures
        res@ == decimal_nat(n as nat),
{
    let mut res = String::from_str(digit_text(n % 10));
    let mut m: u64 = n / 10;
    while m > 0
        invariant
            m > 0 ==> decimal_nat(n as nat) == decimal_nat(m as nat) + res@,
            m == 0 ==> decimal_nat(n as nat) == res@,
        decreases m,
    {
        let d = String::from_str(digit_text(m % 10));
        let ghost old_res = res@;
        res = d.concat(res.as_str());
        proof {
            if m >= 10 {
                assert(decimal_nat(m as nat) == decimal_nat((m / 10) as nat) + seq![digit_char((m % 10) as int)]);
                assert(decimal_nat(n as nat) =~= decimal_nat((m / 10) as nat) + res@);
            }
        }
        m = m / 10;
    }
    res
}

/// The decimal text of `n`, as `i64`'s `Display` writes it.
pub fn i64_text(n: i64) -> (res: String)
    ensures
        res@ == decimal(n as int),
{
    if n < 0 {
        let mag: u64 = (-(n as i128)) as u64;
        let digits = u64_text(mag);
        proof {
            reveal_strlit("-");
        }
        String::from_str("-").concat(digits.as_str())
    } else {
        u64_text(n as u64)
    }
}

} // verus!

verus! {

/// Why decimal integer text is refused, as `core::num::IntErrorKind` tells it.
#[derive(Clone, Copy, Debug, PartialEq, Eq, Structural)]
pub enum IntParseFailure {
    Empty,
    InvalidDigit,
    PosOverflow,
    NegOverflow,
}

/// Reads the digits `ds` onto `acc`, subtracting when `neg`, as `i64::from_str` does.
pub open spec fn scan_digits(ds: Seq<char>, neg: bool, acc: int) -> Result<int, IntParseFailure>
    decreases ds.len(),
{
    if ds.len() == 0 {
        Ok(acc)
    } else if !is_digit(ds[0]) {
        Err(IntParseFailure::InvalidDigit)
    } else {
        let next = if neg {
            acc * 10 - digit_value(ds[0])
        } else {
            acc * 10 + digit_value(ds[0])
        };
        if next > i64::MAX {
            Err(IntParseFailure::PosOverflow)
        } else if next < i64::MIN {
            Err(IntParseFailure::NegOverflow)
        } else {
            scan_digits(ds.drop_first(), neg, next)
        }
    }
}

/// What `s.parse::<i64>()` gives: an optional sign, then decimal digits.
pub open spec fn parse_i64_spec(s: Seq<char>) -> Result<int, IntParseFailure> {
    if s.len() == 0 {
        Err(IntParseFailure::Empty)
    } else if (s[0] == '+' || s[0] == '-') && s.len() == 1 {
        Err(IntParseFailure::InvalidDigit)
    } else if s[0] == '+' {
        scan_digits(s.drop_first(), false, 0)
    } else if s[0] == '-' {
        scan_digits(s.drop_first(), true, 0)
    } else {
        scan_digits(s, false, 0)
    }
}

/// The message of a `ParseIntError` of the given kind.
pub open spec fn int_failure_message(f: IntParseFailure) -> Seq<char> {
    match f {
        IntParseFailure::Empty => "cannot parse integer from empty string"@,
        IntParseFailure::InvalidDigit => "invalid digit found in string"@,
        IntParseFailure::PosOverflow => "number too large to fit in target type"@,
        IntParseFailure::NegOverflow => "number too small to fit in target type"@,
    }
}

fn int_failure_text(f: IntParseFailure) -> (res: String)
    ensures
        res@ == int_failure_message(f),
{
    match f {
        IntParseFailure::Empty => String::from_str("cannot parse integer from empty string"),
        IntParseFailure::InvalidDigit => String::from_str("invalid digit found in string"),
        IntParseFailure::PosOverflow => String::from_str("number too large to fit in target type"),
        IntParseFailure::NegOverflow => String::from_str("number too small to fit in target type"),
    }
}

fn scan_digits_exec(s: &str, start: usize, neg: bool) -> (res: Result<i64, IntParseFailure>)
    requires
        start <= s@.len(),
    ensures
        match res {
            Ok(v) => scan_digits(s@.skip(start as int), neg, 0) == Ok::<int, IntParseFailure>(v as int),
            Err(f) => scan_digits(s@.skip(start as int), neg, 0) == Err::<int, IntParseFailure>(f),
        },
{
    let n = s.unicode_len();
    let mut i: usize = start;
    let mut acc: i64 = 0;
    while i < n
        invariant
            n == s@.len(),
            start <= i <= n,
            scan_digits(s@.skip(start as int), neg, 0) == scan_digits(s@.skip(i as int), neg, acc as int),
        decreases n - i,
    {
        let c = s.get_char(i);
        proof {
            assert(s@.skip(i as int)[0] == c);
            assert(s@.skip(i as int).drop_first() =~= s@.skip(i + 1));
        }
        if !('0' <= c && c <= '9') {
            return Err(IntParseFailure::InvalidDigit);
        }
        let d: i128 = (c as u32 - '0' as u32) as i128;
        let next: i128 = if neg {
            acc as i128 * 10 - d
        } else {
            acc as i128 * 10 + d
        };
        if next > i64::MAX as i128 {
            return Err(IntParseFailure::PosOverflow);
        }
        if next < i64::MIN as i128 {
            return Err(IntParseFailure::NegOverflow);
        }
        acc = next as i64;
        i = i + 1;
    }
    proof {
        assert(s@.skip(i as int).len() == 0);
    }
    Ok(acc)
}

/// Parses decimal integer text as `s.parse::<i64>()` does; the error is the
/// message of the `ParseIntError`.
pub fn parse_i64(s: &str) -> (res: Result<i64, String>)
    ensures
        match res {
            Ok(v) => parse_i64_spec(s@) == Ok::<int, IntParseFailure>(v as int),
            Err(e) => parse_i64_spec(s@) is Err && e@ == int_failure_message(
                parse_i64_spec(s@)->Err_0,
            ),
        },
{
    let n = s.unicode_len();
    let outcome = if n == 0 {
        Err(IntParseFailure::Empty)
    } else {
        let c0 = s.get_char(0);
        if (c0 == '+' || c0 == '-') && n == 1 {
            Err(IntParseFailure::InvalidDigit)
        } else if c0 == '+' {
            proof {
                assert(s@.skip(1) =~= s@.drop_first());
            }
            scan_digits_exec(s, 1, false)
        } else if c0 == '-' {
            proof {
                assert(s@.skip(1) =~= s@.drop_first());
            }
            scan_digits_exec(s, 1, true)
        } else {
            proof {
                assert(s@.skip(0) =~= s@);
            }
            scan_digits_exec(s, 0, false)
        }
    };
    match outcome {
        Ok(v) => Ok(v),
        Err(f) => Err(int_failure_text(f)),
    }
}

} // verus!

verus! {

/// Whether two texts hold the same characters.
pub fn same_text(a: &str, b: &str) -> (res: bool)
    ensures
        res == (a@ == b@),
{
    String::from_str(a) == String::from_str(b)
}

/// The texts `items` written one after another with `sep` between them.
pub open spec fn join(items: Seq<Seq<char>>, sep: Seq<char>) -> Seq<char>
    decreases items.len(),
{
    if items.len() == 0 {
        Seq::empty()
    } else if items.len() == 1 {
        items[0]
    } else {
        join(items.drop_last(), sep) + sep + items.last()
    }
}

/// Writes the texts `items` one after another with `sep` between them.
pub fn join_texts(items: &Vec<String>, sep: &str) -> (res: String)
    ensures
        res@ == join(items@.map_values(|s: String| s@), sep@),
{
    let ghost views = items@.map_values(|s: String| s@);
    let mut res = String::new();
    let n = items.len();
    let mut i: usize = 0;
    while i < n
        invariant
            n == items@.len(),
            i <= n,
            views == items@.map_values(|s: String| s@),
            res@ == join(views.take(i as int), sep@),
        decreases n - i,
    {
        proof {
            assert(views.take(i + 1).drop_last() =~= views.take(i as int));
            assert(views.take(i + 1).last() == items@[i as int]@);
        }
        if i == 0 {
            res = items[i].clone();
            proof {
                assert(views.take(1).len() == 1);
            }
        } else {
            res = res.concat(sep).concat(items[i].as_str());
        }
        i = i + 1;
    }
    proof {
        assert(views.take(n as int) =~= views);
    }
    res
}

} // verus!
