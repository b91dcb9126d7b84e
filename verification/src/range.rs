//! Parsing of a user-supplied ledger selector into an inclusive span of
//! sequence numbers.
//!
//! Three forms are accepted: a single sequence (`"63864"`), an inclusive
//! range (`"100-200"`), and a relative form (`"-10"`) meaning the most
//! recent N ledgers below the current chain tip.

use vstd::prelude::*;

use crate::numstr::{dec_of, parse_u32, parse_u32_spec, u32_to_dec};
use crate::strops::{find_char, find_char_spec, trim, trim_spec};

verus! {

/// An inclusive span of ledger sequence numbers.
#[derive(Debug, PartialEq, Eq, Structural)]
pub struct LedgerRange {
    pub start: u32,
    pub end: u32,
}

/// Why a selector failed to resolve to a span.
#[derive(Debug, PartialEq, Eq, Structural)]
pub enum RangeError {
    /// The relative form was used but no chain tip was available.
    MissingTip,
    /// The relative form asked for zero ledgers.
    InvalidCount,
    /// The relative form asked for more ledgers than exist.
    RangeExceedsHistory { count: u32, latest: u32 },
    /// A range was given with its start above its end.
    InvertedRange,
    /// The selector is not a number, range or relative count.
    InvalidNumber,
}

/// The diagnostic text for each failure.
pub open spec fn range_error_message(e: RangeError) -> Seq<char> {
    match e {
        RangeError::MissingTip => "Could not determine latest ledger"@,
        RangeError::InvalidCount => "Ledger count must be greater than 0"@,
        RangeError::RangeExceedsHistory { count, latest } => "Cannot query "@ + dec_of(
            count as nat,
        ) + " ledgers from latest ("@ + dec_of(latest as nat)
            + "), exceeds available ledgers"@,
        RangeError::InvertedRange => "Start ledger must be less than or equal to end ledger"@,
        RangeError::InvalidNumber => "Invalid ledger number"@,
    }
}

impl RangeError {
    /// Renders the failure as text.
    pub fn message(&self) -> (r: String)
        ensures
            r@ == range_error_message(*self),
    {
        match self {
            RangeError::MissingTip => "Could not determine latest ledger".to_owned(),
            RangeError::InvalidCount => "Ledger count must be greater than 0".to_owned(),
            RangeError::RangeExceedsHistory { count, latest } => {
                let mut m = "Cannot query ".to_owned();
                m.append(u32_to_dec(*count).as_str());
                m.append(" ledgers from latest (");
                m.append(u32_to_dec(*latest).as_str());
                m.append("), exceeds available ledgers");
                m
            },
            RangeError::InvertedRange => "Start ledger must be less than or equal to end ledger"
                .to_owned(),
            RangeError::InvalidNumber => "Invalid ledger number".to_owned(),
        }
    }
}

/// The grammar of a ledger selector: what parsing `input` yields given an
/// optional chain tip.
pub open spec fn parse_range_spec(input: Seq<char>, latest: Option<u32>) -> Result<
    (u32, u32),
    RangeError,
> {
    let t = trim_spec(input);
    if t.len() > 0 && t[0] == '-' {
        match latest {
            None => Err(RangeError::MissingTip),
            Some(l) => match parse_u32_spec(t.drop_first()) {
                None => Err(RangeError::InvalidNumber),
                Some(c) => if c == 0 {
                    Err(RangeError::InvalidCount)
                } else if c > l {
                    Err(RangeError::RangeExceedsHistory { count: c, latest: l })
                } else {
                    Ok((((l - c) + 1) as u32, l))
                },
            },
        }
    } else {
        let d = find_char_spec(t, '-');
        if d >= 0 {
            let a = parse_u32_spec(trim_spec(t.subrange(0, d)));
            let b = parse_u32_spec(trim_spec(t.subrange(d + 1, t.len() as int)));
            if a is None || b is None {
                Err(RangeError::InvalidNumber)
            } else if a.unwrap() > b.unwrap() {
                Err(RangeError::InvertedRange)
            } else {
                Ok((a.unwrap(), b.unwrap()))
            }
        } else {
            match parse_u32_spec(t) {
                None => Err(RangeError::InvalidNumber),
                Some(n) => Ok((n, n)),
            }
        }
    }
}

impl LedgerRange {
    /// Parses a ledger selector, exactly as `parse_range_spec` states.
    ///
    /// The relative form needs the chain tip and fails without it; a
    /// zero count and a count above the tip are rejected; an inverted
    /// range is rejected; anything unparseable is an invalid number.
    pub fn parse(input: &str, latest_ledger: Option<u32>) -> (r: Result<LedgerRange, RangeError>)
        ensures
            match r {
                Ok(lr) => parse_range_spec(input@, latest_ledger) == Ok::<
                    (u32, u32),
                    RangeError,
                >((lr.start, lr.end)),
                Err(e) => parse_range_spec(input@, latest_ledger) == Err::<
                    (u32, u32),
                    RangeError,
                >(e),
            },
    {
        let t = trim(input);
        let n = t.as_str().unicode_len();
        if n > 0 && t.as_str().get_char(0) == '-' {
            match latest_ledger {
                None => Err(RangeError::MissingTip),
                Some(l) => {
                    let rest = t.as_str().substring_char(1, n);
                    proof {
                        assert(rest@ =~= trim_spec(input@).drop_first());
                    }
                    match parse_u32(rest) {
                        None => Err(RangeError::InvalidNumber),
                        Some(c) => {
                            if c == 0 {
                                Err(RangeError::InvalidCount)
                            } else if c > l {
                                Err(RangeError::RangeExceedsHistory { count: c, latest: l })
                            } else {
                                Ok(LedgerRange { start: (l - c) + 1, end: l })
                            }
                        },
                    }
                },
            }
        } else {
            match find_char(t.as_str(), '-') {
                Some(d) => {
                    proof {
                        crate::strops::lemma_find_char(t@, '-');
                        assert(d < n);
                    }
                    let a_part = t.as_str().substring_char(0, d);
                    let b_part = t.as_str().substring_char(d + 1, n);
                    proof {
                        crate::strops::lemma_find_char(t@, '-');
                        assert(a_part@ =~= trim_spec(input@).subrange(
                            0,
                            find_char_spec(trim_spec(input@), '-'),
                        ));
                        assert(b_part@ =~= trim_spec(input@).subrange(
                            find_char_spec(trim_spec(input@), '-') + 1,
                            trim_spec(input@).len() as int,
                        ));
                    }
                    let a_trim = trim(a_part);
                    let b_trim = trim(b_part);
                    let a = parse_u32(a_trim.as_str());
                    let b = parse_u32(b_trim.as_str());
                    match (a, b) {
                        (Some(av), Some(bv)) => {
                            if av > bv {
                                Err(RangeError::InvertedRange)
                            } else {
                                Ok(LedgerRange { start: av, end: bv })
                            }
                        },
                        _ => Err(RangeError::InvalidNumber),
                    }
                },
                None => {
                    match parse_u32(t.as_str()) {
                        None => Err(RangeError::InvalidNumber),
                        Some(v) => Ok(LedgerRange { start: v, end: v }),
                    }
                },
            }
        }
    }

    /// The sequence numbers of the span, in ascending order; empty when
    /// the span is inverted.
    pub fn iter(&self) -> (r: Vec<u32>)
        ensures
            self.start <= self.end ==> r@.len() == self.end - self.start + 1 && (forall|i: int|
                0 <= i < r@.len() ==> r@[i] == self.start + i),
            self.start > self.end ==> r@.len() == 0,
    {
        let mut v: Vec<u32> = Vec::new();
        if self.start > self.end {
            return v;
        }
        let mut cur = self.start;
        while cur < self.end
            invariant
                self.start <= cur <= self.end,
                v@.len() == cur - self.start,
                forall|i: int| 0 <= i < v@.len() ==> v@[i] == self.start + i,
            decreases self.end - cur,
        {
            v.push(cur);
            cur = cur + 1;
        }
        v.push(cur);
        v
    }

    /// Whether the span covers more than one ledger.
    pub fn is_range(&self) -> (r: bool)
        ensures
            r == (self.start != self.end),
    {
        self.start != self.end
    }
}

} // verus!
