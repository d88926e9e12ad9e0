//! Port ranges and their text form `lo-hi`.

use vstd::prelude::*;

use crate::text::{chars_of, decimal, decimal_string, digit, join3};

verus! {

/// The ports `lo..=hi`, both ends included. Empty when `lo > hi`.
#[derive(Clone, Copy, Debug, PartialEq, Eq, Structural)]
pub struct PortRange {
    pub lo: u16,
    pub hi: u16,
}

/// Whether `c` is a decimal digit.
pub open spec fn is_digit(c: char) -> bool {
    '0' <= c <= '9'
}

/// The number that the decimal digits `s` stand for.
pub open spec fn digits_value(s: Seq<char>) -> nat
    decreases s.len(),
{
    if s.len() == 0 {
        0
    } else {
        digits_value(s.drop_last()) * 10 + (s.last() as nat - '0' as nat) as nat
    }
}

/// The text `s` without a plus sign at its start.
pub open spec fn unsigned_part(s: Seq<char>) -> Seq<char> {
    if s.len() > 0 && s[0] == '+' {
        s.skip(1)
    } else {
        s
    }
}

/// The 16-bit number written as `s`: an optional plus sign, then one or more digits.
pub open spec fn u16_of(s: Seq<char>) -> Option<u16> {
    let digits = unsigned_part(s);
    if digits.len() > 0 && (forall|i: int| 0 <= i < digits.len() ==> is_digit(#[trigger] digits[i]))
        && digits_value(digits) <= u16::MAX {
        Some(digits_value(digits) as u16)
    } else {
        None
    }
}

/// The words with which `u16`'s parser refuses `text`.
pub uninterp spec fn bad_u16_words(text: Seq<char>) -> Seq<char>;

/// Calls `str::parse::<u16>`. Claims that it reads an optional plus sign and one
/// or more decimal digits whose value fits, refuses everything else, and that
/// the words of a refusal are a function of the text alone.
#[verifier::external_body]
fn parse_u16(text: &str) -> (r: Result<u16, String>)
    ensures
        match u16_of(text@) {
            Some(n) => r == Ok::<u16, String>(n),
            None => r matches Err(e) && e@ == bad_u16_words(text@),
        },
{
    text.parse::<u16>().map_err(|e| e.to_string())
}

/// How reading `s` as a port range ends. The first dash separates the ends.
pub open spec fn reads_range(s: Seq<char>, r: Result<PortRange, String>) -> bool {
    match s.index_of_first('-') {
        None => r matches Err(e) && e@ == "expected lo-hi"@,
        Some(k) => match u16_of(s.take(k)) {
            None => r matches Err(e) && e@ == bad_u16_words(s.take(k)),
            Some(lo) => match u16_of(s.skip(k + 1)) {
                None => r matches Err(e) && e@ == bad_u16_words(s.skip(k + 1)),
                Some(hi) => if lo > hi {
                    r matches Err(e) && e@ == "lo > hi"@
                } else {
                    r == Ok::<PortRange, String>(PortRange { lo, hi })
                },
            },
        },
    }
}

/// The position of the first `c` in `s`.
fn first_position(s: &Vec<char>, c: char) -> (r: Option<usize>)
    ensures
        match s@.index_of_first(c) {
            Some(k) => r == Some(k as usize) && 0 <= k < s@.len(),
            None => r is None,
        },
{
    proof {
        s@.index_of_first_ensures(c);
    }
    for i in 0..s.len()
        invariant
            forall|j: int| 0 <= j < i ==> s@[j] != c,
            match s@.index_of_first(c) {
                Some(k) => 0 <= k < s@.len() && s@[k] == c && forall|j: int|
                    0 <= j < k ==> s@[j] != c,
                None => forall|j: int| 0 <= j < s@.len() ==> s@[j] != c,
            },
    {
        if s[i] == c {
            return Some(i);
        }
    }
    None
}

impl PortRange {
    /// Whether `port` lies in the range.
    pub open spec fn has(self, port: u16) -> bool {
        self.lo <= port <= self.hi
    }

    /// The text form of the range.
    pub open spec fn text(self) -> Seq<char> {
        decimal(self.lo as nat) + "-"@ + decimal(self.hi as nat)
    }

    /// Reads a range from its text form.
    pub fn from_str(s: &str) -> (r: Result<PortRange, String>)
        ensures
            reads_range(s@, r),
    {
        let chars = chars_of(s);
        let len = chars.len();
        let dash: usize = match first_position(&chars, '-') {
            Some(k) => k,
            None => {
                return Err(String::from_str("expected lo-hi"));
            },
        };
        let lo_text = s.substring_char(0, dash);
        let hi_text = s.substring_char(dash + 1, len);
        assert(lo_text@ =~= s@.take(dash as int));
        assert(hi_text@ =~= s@.skip(dash + 1));
        PortRange::from_ends(parse_u16(lo_text), parse_u16(hi_text))
    }

    /// The range between two ends, each of them a number or the words on why there
    /// is none.
    pub fn from_ends(lo: Result<u16, String>, hi: Result<u16, String>) -> (r: Result<
        PortRange,
        String,
    >)
        ensures
            match (lo, hi) {
                (Err(words), _) => r == Err::<PortRange, String>(words),
                (Ok(_), Err(words)) => r == Err::<PortRange, String>(words),
                (Ok(lo), Ok(hi)) => if lo > hi {
                    r matches Err(e) && e@ == "lo > hi"@
                } else {
                    r == Ok::<PortRange, String>(PortRange { lo, hi })
                },
            },
    {
        match (lo, hi) {
            (Err(words), _) => Err(words),
            (Ok(_), Err(words)) => Err(words),
            (Ok(lo), Ok(hi)) => {
                if lo > hi {
                    Err(String::from_str("lo > hi"))
                } else {
                    Ok(PortRange { lo, hi })
                }
            },
        }
    }

    /// The text form of the range.
    pub fn to_text(&self) -> (r: String)
        ensures
            r@ == self.text(),
    {
        let lo = decimal_string(self.lo as u64);
        let hi = decimal_string(self.hi as u64);
        join3(lo.as_str(), "-", hi.as_str())
    }
}

/// A decimal rendering consists of digits and stands for its number.
proof fn decimal_reads_back(n: nat)
    ensures
        decimal(n).len() > 0,
        forall|i: int| 0 <= i < decimal(n).len() ==> is_digit(#[trigger] decimal(n)[i]),
        digits_value(decimal(n)) == n,
    decreases n,
{
    let s = decimal(n);
    if n < 10 {
        assert(s.drop_last() =~= Seq::<char>::empty());
        reveal_with_fuel(digits_value, 2);
        assert(s.last() == digit(n));
    } else {
        decimal_reads_back(n / 10);
        assert(s.drop_last() =~= decimal(n / 10));
        assert(s.last() == digit(n % 10));
    }
}

/// A range with its ends in order is read back from its text form.
pub proof fn range_text_reads_back(range: PortRange, r: Result<PortRange, String>)
    requires
        range.lo <= range.hi,
        reads_range(range.text(), r),
    ensures
        r == Ok::<PortRange, String>(range),
{
    let lo = decimal(range.lo as nat);
    let hi = decimal(range.hi as nat);
    let s = range.text();
    decimal_reads_back(range.lo as nat);
    decimal_reads_back(range.hi as nat);
    reveal_strlit("-");
    let k = lo.len() as int;
    assert(s[k] == '-');
    assert forall|i: int| 0 <= i < k implies s[i] != '-' by {
        assert(s[i] == lo[i]);
        assert(is_digit(lo[i]));
    }
    s.index_of_first_ensures('-');
    assert(s.index_of_first('-') == Some(k));
    assert(s.take(k) =~= lo);
    assert(s.skip(k + 1) =~= hi);
    assert(is_digit(lo[0]) && is_digit(hi[0]));
}

} // verus!
