//! Reading the values of command-line options.

use crate::text::chars_of;
use vstd::prelude::*;

verus! {

pub type UdpPort = u16;

/// The port that is listened on where none is given, or none that can be
/// read.
pub const DEFAULT_PORT: UdpPort = 8899;

/// How much the process logs, from the most to the least talkative.
#[derive(Debug, Eq, PartialEq, Clone, Copy, Structural)]
pub enum VerbosityLevel {
    DEBUG,
    INFO,
    WARN,
    ERROR,
}

/// The level selected by `occ` repetitions of the verbosity flag.
pub open spec fn verbosity_of(occ: u64) -> VerbosityLevel {
    if occ == 0 {
        VerbosityLevel::ERROR
    } else if occ == 1 {
        VerbosityLevel::WARN
    } else if occ == 2 {
        VerbosityLevel::INFO
    } else {
        VerbosityLevel::DEBUG
    }
}

/// Whether `c` is one of the digits `0` to `9`.
pub open spec fn is_digit(c: char) -> bool {
    '0' <= c <= '9'
}

/// The number that the digit `c` stands for.
pub open spec fn digit_value(c: char) -> nat {
    (c as u32 - '0' as u32) as nat
}

/// The number that a run of one or more digits writes in base ten; `None`
/// for the empty text and for a text that holds anything but digits.
pub open spec fn decimal(s: Seq<char>) -> Option<nat>
    decreases s.len(),
{
    if s.len() == 0 || !is_digit(s.last()) {
        None
    } else if s.len() == 1 {
        Some(digit_value(s.last()))
    } else {
        match decimal(s.drop_last()) {
            Some(v) => Some(v * 10 + digit_value(s.last())),
            None => None,
        }
    }
}

/// The port that a text writes: digits in base ten, with an optional `+` in
/// front, that give a number up to 65535. Nothing else may stand in the text.
pub open spec fn port_number(s: Seq<char>) -> Option<UdpPort> {
    let digits = if s.len() > 0 && s[0] == '+' {
        s.drop_first()
    } else {
        s
    };
    match decimal(digits) {
        Some(v) => if v <= u16::MAX {
            Some(v as u16)
        } else {
            None
        },
        None => None,
    }
}

/// The port selected by the value of the port option, if it was given.
pub open spec fn port_of(o: Option<Seq<char>>) -> UdpPort {
    match o {
        Some(s) => match port_number(s) {
            Some(port) => port,
            None => DEFAULT_PORT,
        },
        None => DEFAULT_PORT,
    }
}

/// Every non-empty start of a run of digits is a run of digits, and writes
/// no greater a number.
proof fn lemma_decimal_prefix(s: Seq<char>, k: int)
    requires
        decimal(s) is Some,
        1 <= k <= s.len(),
    ensures
        decimal(s.take(k)) is Some,
        decimal(s.take(k))->0 <= decimal(s)->0,
    decreases s.len(),
{
    if k == s.len() {
        assert(s.take(k) =~= s);
    } else {
        lemma_decimal_prefix(s.drop_last(), k);
        assert(s.drop_last().take(k) =~= s.take(k));
    }
}

pub struct ArgsParser;

impl ArgsParser {
    /// Reads the value of the port option.
    #[verifier::loop_isolation(false)]
    pub fn to_port(o: Option<&str>) -> (port: UdpPort)
        ensures
            port == port_of(
                match o {
                    Some(s) => Some(s@),
                    None => None,
                },
            ),
    {
        let text = match o {
            Some(s) => s,
            None => {
                return DEFAULT_PORT;
            },
        };
        let v = chars_of(text);
        let n: usize = v.len();
        let start: usize = if n > 0 && v[0] == '+' {
            1
        } else {
            0
        };
        let ghost digits = v@.skip(start as int);
        assert(digits == if v@.len() > 0 && v@[0] == '+' {
            v@.drop_first()
        } else {
            v@
        }) by {
            assert(v@.skip(0) =~= v@);
        }
        let mut acc: u32 = 0;
        let mut i: usize = start;
        while i < n
            invariant
                n == v.len(),
                start <= i <= n,
                digits == v@.skip(start as int),
                acc <= u16::MAX,
                i == start ==> acc == 0,
                i > start ==> decimal(digits.take(i - start)) == Some(acc as nat),
            decreases n - i,
        {
            let c = v[i];
            proof {
                assert(digits.take(i - start + 1).drop_last() =~= digits.take(i - start));
                assert(digits.take(i - start + 1).last() == c);
                if decimal(digits) is Some {
                    lemma_decimal_prefix(digits, i - start + 1);
                }
            }
            if c < '0' || c > '9' {
                return DEFAULT_PORT;
            }
            let next: u32 = acc * 10 + (c as u32 - '0' as u32);
            if next > 65535 {
                return DEFAULT_PORT;
            }
            acc = next;
            i += 1;
        }
        assert(digits.take(n - start) =~= digits);
        if i == start {
            DEFAULT_PORT
        } else {
            acc as u16
        }
    }

    /// Reads the number of times that the verbosity flag was given: each
    /// repetition lowers the threshold by one step, and three or more select
    /// `DEBUG`.
    pub fn to_verbosity_level(occ: u64) -> (level: VerbosityLevel)
        ensures
            level == verbosity_of(occ),
    {
        match occ {
            0 => VerbosityLevel::ERROR,
            1 => VerbosityLevel::WARN,
            2 => VerbosityLevel::INFO,
            _ => VerbosityLevel::DEBUG,
        }
    }
}

} // verus!
