use vstd::prelude::*;
use vstd::string::StrSliceExecFns;
use vstd::string::StringExecFns;
use crate::text::u64_to_string;
use crate::text::dec_digits;

verus! {

/// Why a duration string was rejected.
#[derive(Debug, Clone, Copy, PartialEq, Eq)]
pub enum TimeParseError {
    /// Not of the form `<digits><unit>` with unit `s`, `m`, `h` or `d`.
    InvalidFormat,
    /// The number does not fit; the total length of time is capped at
    /// `i64::MAX` seconds.
    ParseInt,
    /// The time value must be positive.
    NegativeValue,
    /// Kept for compatibility; the format check already rejects every
    /// unknown unit as `InvalidFormat`, so this is never produced.
    InvalidUnit,
}

/// A parsed duration: a positive whole number of seconds, together
/// with the string it was parsed from.
pub struct ParsedDuration {
    pub seconds: i64,
    pub original_string: String,
}

// ------------------------------------------------------------------
// the grammar
// ------------------------------------------------------------------

/// An ASCII decimal digit.
pub open spec fn is_digit(c: char) -> bool {
    0x30 <= (c as u32) && (c as u32) <= 0x39
}

/// The value of one digit.
pub open spec fn digit_val(c: char) -> nat {
    ((c as u32) - 0x30) as nat
}

/// A unit letter: seconds, minutes, hours or days.
pub open spec fn is_unit_char(c: char) -> bool {
    c == 's' || c == 'm' || c == 'h' || c == 'd'
}

/// How many seconds one unit is worth.
pub open spec fn unit_seconds(c: char) -> nat {
    if c == 's' {
        1
    } else if c == 'm' {
        60
    } else if c == 'h' {
        3600
    } else {
        86400
    }
}

/// A well-formed duration string: one or more digits followed by a
/// single unit letter.
pub open spec fn valid_duration_format(s: Seq<char>) -> bool {
    &&& s.len() >= 2
    &&& is_unit_char(s.last())
    &&& forall|j: int| 0 <= j < s.len() - 1 ==> is_digit(#[trigger] s[j])
}

/// The numeric value of a digit string.
pub open spec fn digits_value(s: Seq<char>) -> nat
    decreases s.len(),
{
    if s.len() == 0 {
        0
    } else {
        digits_value(s.drop_last()) * 10 + digit_val(s.last())
    }
}

/// The duration a well-formed string denotes, in seconds.
pub open spec fn spec_duration_seconds(s: Seq<char>) -> nat {
    digits_value(s.drop_last()) * unit_seconds(s.last())
}

impl ParsedDuration {
    /// Parse a duration string such as `30s`, `10m`, `2h` or `7d`.
    ///
    /// Returns `Ok` exactly for a well-formed string whose value is
    /// positive, fits `i64` and whose total seconds fit `i64`;
    /// `InvalidFormat` for anything not matching the grammar;
    /// `ParseInt` for a well-formed string whose number or total
    /// seconds overflow; `NegativeValue` for a zero value.
    pub fn new(input: &str) -> (r: Result<ParsedDuration, TimeParseError>)
        ensures
            match r {
                Ok(pd) => {
                    &&& valid_duration_format(input@)
                    &&& digits_value(input@.drop_last()) >= 1
                    &&& spec_duration_seconds(input@) <= i64::MAX
                    &&& pd.seconds == spec_duration_seconds(input@)
                    &&& pd.original_string@ == input@
                },
                Err(TimeParseError::InvalidFormat) => !valid_duration_format(input@),
                Err(TimeParseError::ParseInt) => {
                    &&& valid_duration_format(input@)
                    &&& digits_value(input@.drop_last()) >= 1
                    &&& (digits_value(input@.drop_last()) > i64::MAX || spec_duration_seconds(
                        input@,
                    ) > i64::MAX)
                },
                Err(TimeParseError::NegativeValue) => {
                    &&& valid_duration_format(input@)
                    &&& digits_value(input@.drop_last()) == 0
                },
                Err(TimeParseError::InvalidUnit) => false,
            },
    {
        let n = input.unicode_len();
        if n < 2 {
            return Err(TimeParseError::InvalidFormat);
        }
        let unit = input.get_char(n - 1);
        proof {
            assert(input@.last() == input@[n - 1]);
        }
        if !(unit == 's' || unit == 'm' || unit == 'h' || unit == 'd') {
            return Err(TimeParseError::InvalidFormat);
        }
        let mut i: usize = 0;
        let mut acc: u64 = 0;
        let mut overflow = false;
        while i < n - 1
            invariant
                n == input@.len(),
                2 <= n,
                i <= n - 1,
                forall|j: int| 0 <= j < i ==> is_digit(#[trigger] input@[j]),
                !overflow ==> acc == digits_value(input@.take(i as int)) && acc
                    <= 9223372036854775807u64,
                overflow ==> digits_value(input@.take(i as int)) > i64::MAX,
            decreases n - 1 - i,
        {
            let c = input.get_char(i);
            let u = c as u32;
            if !(0x30 <= u && u <= 0x39) {
                assert(!is_digit(input@[i as int]));
                return Err(TimeParseError::InvalidFormat);
            }
            let d = (u - 0x30) as u64;
            proof {
                assert(input@.take(i + 1 as int).drop_last() =~= input@.take(i as int));
                assert(input@.take(i + 1 as int).last() == input@[i as int]);
                assert(digits_value(input@.take(i + 1 as int)) == digits_value(
                    input@.take(i as int),
                ) * 10 + digit_val(input@[i as int]));
            }
            if overflow {
                proof {
                    let dv = digits_value(input@.take(i as int));
                    assert(digits_value(input@.take(i + 1 as int)) >= dv * 10);
                    assert(dv * 10 >= dv) by (nonlinear_arith)
                        requires
                            dv >= 0,
                    ;
                }
            } else {
                if acc > 922337203685477580u64 || (acc == 922337203685477580u64 && d > 7) {
                    overflow = true;
                    proof {
                        let dv = digits_value(input@.take(i as int));
                        assert(dv == acc);
                        if acc > 922337203685477580u64 {
                            assert(dv * 10 >= 9223372036854775810u64);
                        } else {
                            assert(dv * 10 == 9223372036854775800u64);
                        }
                    }
                } else {
                    acc = acc * 10 + d;
                }
            }
            i = i + 1;
        }
        proof {
            assert(input@.take(n - 1 as int) =~= input@.drop_last());
            assert(valid_duration_format(input@));
        }
        if overflow {
            return Err(TimeParseError::ParseInt);
        }
        if acc == 0 {
            return Err(TimeParseError::NegativeValue);
        }
        let (mult, max_val): (u64, u64) = if unit == 's' {
            (1, 9223372036854775807u64)
        } else if unit == 'm' {
            (60, 153722867280912930u64)
        } else if unit == 'h' {
            (3600, 2562047788015215u64)
        } else {
            (86400, 106751991167300u64)
        };
        proof {
            assert(mult == unit_seconds(input@.last()));
        }
        if acc > max_val {
            proof {
                let dv = digits_value(input@.drop_last());
                if unit == 's' {
                } else if unit == 'm' {
                    assert(dv * 60 >= 153722867280912931u64 * 60) by (nonlinear_arith)
                        requires
                            dv >= 153722867280912931u64,
                    ;
                } else if unit == 'h' {
                    assert(dv * 3600 >= 2562047788015216u64 * 3600) by (nonlinear_arith)
                        requires
                            dv >= 2562047788015216u64,
                    ;
                } else {
                    assert(dv * 86400 >= 106751991167301u64 * 86400) by (nonlinear_arith)
                        requires
                            dv >= 106751991167301u64,
                    ;
                }
            }
            return Err(TimeParseError::ParseInt);
        }
        proof {
            let dv = digits_value(input@.drop_last());
            if unit == 's' {
            } else if unit == 'm' {
                assert(dv * 60 <= 153722867280912930u64 * 60) by (nonlinear_arith)
                    requires
                        dv <= 153722867280912930u64,
                ;
            } else if unit == 'h' {
                assert(dv * 3600 <= 2562047788015215u64 * 3600) by (nonlinear_arith)
                    requires
                        dv <= 2562047788015215u64,
                ;
            } else {
                assert(dv * 86400 <= 106751991167300u64 * 86400) by (nonlinear_arith)
                    requires
                        dv <= 106751991167300u64,
                ;
            }
        }
        let seconds = acc * mult;
        Ok(ParsedDuration { seconds: seconds as i64, original_string: input.to_owned() })
    }

    /// A round human-sized rendering of the duration: whole seconds,
    /// minutes, hours or days, whichever unit fits.
    pub fn human_readable(&self) -> (r: String)
        requires
            self.seconds >= 0,
        ensures
            r@ == spec_human_readable(self.seconds as int),
    {
        let s = self.seconds;
        if s < 60 {
            let mut t = u64_to_string(s as u64);
            t.append(" seconds");
            t
        } else if s < 3600 {
            let mut t = u64_to_string((s / 60) as u64);
            t.append(" minutes");
            t
        } else if s < 86400 {
            let mut t = u64_to_string((s / 3600) as u64);
            t.append(" hours");
            t
        } else {
            let mut t = u64_to_string((s / 86400) as u64);
            t.append(" days");
            t
        }
    }
}

/// What `human_readable` produces.
pub open spec fn spec_human_readable(seconds: int) -> Seq<char>
    recommends
        seconds >= 0,
{
    if seconds < 60 {
        dec_digits(seconds as nat) + " seconds"@
    } else if seconds < 3600 {
        dec_digits((seconds / 60) as nat) + " minutes"@
    } else if seconds < 86400 {
        dec_digits((seconds / 3600) as nat) + " hours"@
    } else {
        dec_digits((seconds / 86400) as nat) + " days"@
    }
}

/// Parse a duration string and return only the seconds.
pub fn parse_duration(input: &str) -> (r: Result<i64, TimeParseError>)
    ensures
        match r {
            Ok(seconds) => {
                &&& valid_duration_format(input@)
                &&& digits_value(input@.drop_last()) >= 1
                &&& spec_duration_seconds(input@) <= i64::MAX
                &&& seconds == spec_duration_seconds(input@)
            },
            Err(TimeParseError::InvalidFormat) => !valid_duration_format(input@),
            Err(TimeParseError::ParseInt) => {
                &&& valid_duration_format(input@)
                &&& digits_value(input@.drop_last()) >= 1
                &&& (digits_value(input@.drop_last()) > i64::MAX || spec_duration_seconds(input@)
                    > i64::MAX)
            },
            Err(TimeParseError::NegativeValue) => {
                &&& valid_duration_format(input@)
                &&& digits_value(input@.drop_last()) == 0
            },
            Err(TimeParseError::InvalidUnit) => false,
        },
{
    match ParsedDuration::new(input) {
        Ok(p) => Ok(p.seconds),
        Err(e) => Err(e),
    }
}

} // verus!
