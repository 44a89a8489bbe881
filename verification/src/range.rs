use vstd::prelude::*;
use crate::version::{read_u64, all_digits, dec_value};
use crate::text::{chars_of, split_once_char, split_once_spec};

verus! {

/// A range of user or group ids, from `start` up to (not including) `end`.
#[derive(Debug, Clone, Copy, PartialEq, Eq, Structural)]
pub struct Range {
    start: u32,
    end: u32,
}

impl Range {
    /// The range is not reversed.
    #[verifier::type_invariant]
    spec fn valid(self) -> bool {
        self.start <= self.end
    }

    /// The first id of the range.
    pub closed spec fn first(self) -> u32 {
        self.start
    }

    /// The id just past the range.
    pub closed spec fn past(self) -> u32 {
        self.end
    }

    /// The ids from `start` to `end`, both included.
    pub fn new(start: u32, end: u32) -> (r: Range)
        requires
            end >= start,
            end < u32::MAX,
        ensures
            r.first() == start,
            r.past() == end + 1,
    {
        Range { start: start, end: end + 1 }
    }

    /// The number of ids of the range.
    pub fn len(&self) -> (r: u32)
        ensures
            r == self.past() - self.first(),
    {
        proof {
            use_type_invariant(self);
        }
        self.end - self.start
    }

    /// The range without its first `val` ids.
    pub fn shift(&self, val: u32) -> (r: Range)
        requires
            self.past() - self.first() >= val,
        ensures
            r.first() == self.first() + val,
            r.past() == self.past(),
    {
        proof {
            use_type_invariant(self);
        }
        Range { start: self.start + val, end: self.end }
    }

    /// The first id.
    pub fn start(&self) -> (r: u32)
        ensures
            r == self.first(),
    {
        self.start
    }

    /// The id just past the range.
    pub fn end(&self) -> (r: u32)
        ensures
            r == self.past(),
    {
        self.end
    }
}

/// The number that `s` reads as, as `u32::from_str` reads it: an optional
/// `+` and at least one ASCII digit, with a value that fits.
pub open spec fn u32_of(s: Seq<char>) -> Option<u32> {
    let d = if s.len() > 0 && s[0] == '+' {
        s.drop_first()
    } else {
        s
    };
    if d.len() > 0 && all_digits(d) && dec_value(d) <= u32::MAX {
        Some(dec_value(d) as u32)
    } else {
        None
    }
}

/// The number that `s` reads as.
pub fn parse_u32(s: &str) -> (r: Option<u32>)
    ensures
        r == u32_of(s@),
{
    let v = chars_of(s);
    let from: usize = if v.len() > 0 && v[0] == '+' {
        1
    } else {
        0
    };
    let ghost d = v@.subrange(from as int, v@.len() as int);
    assert(d =~= if s@.len() > 0 && s@[0] == '+' {
        s@.drop_first()
    } else {
        s@
    });
    if from == v.len() {
        return None;
    }
    match read_u64(&v, from, v.len()) {
        Some(n) => {
            if n <= 4294967295u64 {
                Some(n as u32)
            } else {
                None
            }
        },
        None => None,
    }
}

/// The first and the last id that a range text names: one number, or two
/// numbers around the first `-`.
pub open spec fn range_of(s: Seq<char>) -> Option<(u32, u32)> {
    match u32_of(s) {
        Some(n) => Some((n, n)),
        None => match split_once_spec(s, '-') {
            Some((a, b)) => match (u32_of(a), u32_of(b)) {
                (Some(x), Some(y)) => Some((x, y)),
                _ => None,
            },
            None => None,
        },
    }
}

/// The range that the text `s` names (such as `1000` or `0-65535`).
pub fn parse_range(s: &str) -> (r: Result<Range, String>)
    requires
        range_of(s@) matches Some((a, b)) ==> a <= b && b < u32::MAX,
    ensures
        r is Ok <==> range_of(s@) is Some,
        r matches Ok(x) ==> range_of(s@) matches Some((a, b)) && x.first() == a && x.past() == b + 1,
        r matches Err(e) ==> e@ == "Error parsing range"@,
{
    match parse_u32(s) {
        Some(n) => Ok(Range::new(n, n)),
        None => match split_once_char(s, '-') {
            Some((a, b)) => match (parse_u32(a.as_str()), parse_u32(b.as_str())) {
                (Some(x), Some(y)) => Ok(Range::new(x, y)),
                _ => Err(String::from_str("Error parsing range")),
            },
            None => Err(String::from_str("Error parsing range")),
        },
    }
}

} // verus!
