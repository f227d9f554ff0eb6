use vstd::prelude::*;
use vstd::string::*;

use crate::format::{GB, KB, MB, TB};
use crate::scan::Configuration;

verus! {

/// The threshold used when none is given: one MB.
pub const DEFAULT_THRESHOLD: u64 = 1048576;

/// The unit in which a threshold is given on the command line.
#[derive(Debug, Clone, Copy, PartialEq, Eq, Structural)]
pub enum Unit {
    Kilo,
    Mega,
    Giga,
    Tera,
}

/// Why the command line could not be resolved into a configuration.
#[derive(Debug, Clone, Copy, PartialEq, Eq, Structural)]
pub enum ArgError {
    /// No argument was given.
    MissingArguments,
    /// A flag that names none of the units `-k`, `-m`, `-g`, `-t`.
    InvalidUnit,
    /// A unit flag without the threshold after it.
    MissingThreshold,
    /// A threshold that is not a non-negative integer of 64 bits.
    InvalidThreshold,
    /// A threshold whose number of bytes does not fit in 64 bits.
    ThresholdTooLarge,
}

/// Bytes in one of a unit.
pub open spec fn unit_bytes(u: Unit) -> nat {
    match u {
        Unit::Kilo => KB as nat,
        Unit::Mega => MB as nat,
        Unit::Giga => GB as nat,
        Unit::Tera => TB as nat,
    }
}

/// The unit that a flag selects: a `-` and then one of `k`, `m`, `g`, `t`,
/// whatever follows.
pub open spec fn unit_of_flag(s: Seq<char>) -> Option<Unit> {
    if s.len() >= 2 && s[0] == '-' {
        if s[1] == 'k' {
            Some(Unit::Kilo)
        } else if s[1] == 'm' {
            Some(Unit::Mega)
        } else if s[1] == 'g' {
            Some(Unit::Giga)
        } else if s[1] == 't' {
            Some(Unit::Tera)
        } else {
            None
        }
    } else {
        None
    }
}

/// An ASCII decimal digit.
pub open spec fn is_digit(c: char) -> bool {
    '0' <= c && c <= '9'
}

/// The value of a string of decimal digits.
pub open spec fn digits_value(s: Seq<char>) -> nat
    decreases s.len(),
{
    if s.len() == 0 {
        0
    } else {
        digits_value(s.drop_last()) * 10 + ((s.last() as int) - ('0' as int)) as nat
    }
}

/// A number as text without its optional leading `+`.
pub open spec fn unsigned_digits(s: Seq<char>) -> Seq<char> {
    if s.len() > 0 && s[0] == '+' {
        s.subrange(1, s.len() as int)
    } else {
        s
    }
}

/// The 64-bit unsigned number that a text holds: an optional `+`, then one
/// or more decimal digits whose value fits.
pub open spec fn parsed_u64(s: Seq<char>) -> Option<u64> {
    let d = unsigned_digits(s);
    if d.len() > 0 && (forall|i: int| 0 <= i < d.len() ==> is_digit(#[trigger] d[i]))
        && digits_value(d) <= u64::MAX {
        Some(digits_value(d) as u64)
    } else {
        None
    }
}

/// What a command line resolves to: the threshold in bytes and the
/// directory to scan, or why it resolves to nothing.
pub open spec fn resolution(args: Seq<Seq<char>>) -> Result<(u64, Seq<char>), ArgError> {
    if args.len() == 0 {
        Err(ArgError::MissingArguments)
    } else if args[0].len() > 0 && args[0][0] == '-' {
        match unit_of_flag(args[0]) {
            None => Err(ArgError::InvalidUnit),
            Some(u) => if args.len() < 2 {
                Err(ArgError::MissingThreshold)
            } else {
                match parsed_u64(args[1]) {
                    None => Err(ArgError::InvalidThreshold),
                    Some(n) => if n * unit_bytes(u) > u64::MAX {
                        Err(ArgError::ThresholdTooLarge)
                    } else {
                        Ok(
                            (
                                (n * unit_bytes(u)) as u64,
                                if args.len() > 2 {
                                    args[2]
                                } else {
                                    "."@
                                },
                            ),
                        )
                    },
                }
            },
        }
    } else {
        Ok((DEFAULT_THRESHOLD, args[0]))
    }
}

/// The texts of a list of arguments.
pub open spec fn texts(args: Seq<String>) -> Seq<Seq<char>> {
    args.map_values(|s: String| s@)
}

/// Relies on `<u64 as FromStr>::from_str`: it accepts an optional `+`
/// followed by one or more ASCII digits whose value fits in 64 bits, and
/// refuses anything else.
#[verifier::external_body]
fn parse_u64(s: &str) -> (r: Option<u64>)
    ensures
        r == parsed_u64(s@),
{
    s.parse::<u64>().ok()
}

/// The unit that a flag argument selects, if any.
pub fn process_measure(argument: &str) -> (r: Option<Unit>)
    ensures
        r == unit_of_flag(argument@),
{
    let n = argument.unicode_len();
    if n < 2 || argument.get_char(0) != '-' {
        return None;
    }
    let c = argument.get_char(1);
    if c == 'k' {
        Some(Unit::Kilo)
    } else if c == 'm' {
        Some(Unit::Mega)
    } else if c == 'g' {
        Some(Unit::Giga)
    } else if c == 't' {
        Some(Unit::Tera)
    } else {
        None
    }
}

/// The threshold number that an argument holds, if it holds one.
pub fn process_size(argument: &str) -> (r: Option<u64>)
    ensures
        r == parsed_u64(argument@),
{
    parse_u64(argument)
}

/// Bytes in one of a unit.
pub fn unit_multiplier(unit: Unit) -> (r: u64)
    ensures
        r == unit_bytes(unit),
{
    match unit {
        Unit::Kilo => KB,
        Unit::Mega => MB,
        Unit::Giga => GB,
        Unit::Tera => TB,
    }
}

/// A threshold given in a unit, in bytes, or `None` when that does not fit
/// in 64 bits.
pub fn size_in_bytes(size: u64, unit: Unit) -> (r: Option<u64>)
    ensures
        r == (if size * unit_bytes(unit) <= u64::MAX {
            Some((size * unit_bytes(unit)) as u64)
        } else {
            None
        }),
{
    size.checked_mul(unit_multiplier(unit))
}

/// Resolves the command-line arguments (the program name left out) into a
/// configuration. A first argument that does not start with `-` is the
/// directory, scanned with a threshold of one MB. Otherwise it must select a
/// unit, the second argument gives the threshold in that unit, and the
/// optional third one the directory (`.` when absent).
pub fn process_arguments(args: &Vec<String>) -> (r: Result<Configuration, ArgError>)
    ensures
        match r {
            Ok(c) => resolution(texts(args@)) == Ok::<(u64, Seq<char>), ArgError>(
                (c.threshold, c.root@),
            ),
            Err(e) => resolution(texts(args@)) == Err::<(u64, Seq<char>), ArgError>(e),
        },
{
    proof {
        reveal_strlit(".");
    }
    let ghost a = texts(args@);
    if args.len() == 0 {
        return Err(ArgError::MissingArguments);
    }
    assert(a[0] == args@[0]@);
    let first = args[0].as_str();
    if first.unicode_len() == 0 || first.get_char(0) != '-' {
        return Ok(Configuration { threshold: DEFAULT_THRESHOLD, root: args[0].clone() });
    }
    let unit = match process_measure(first) {
        Some(u) => u,
        None => {
            return Err(ArgError::InvalidUnit);
        },
    };
    if args.len() < 2 {
        return Err(ArgError::MissingThreshold);
    }
    assert(a[1] == args@[1]@);
    let n = match process_size(args[1].as_str()) {
        Some(n) => n,
        None => {
            return Err(ArgError::InvalidThreshold);
        },
    };
    let threshold = match size_in_bytes(n, unit) {
        Some(b) => b,
        None => {
            return Err(ArgError::ThresholdTooLarge);
        },
    };
    let root = if args.len() > 2 {
        assert(a[2] == args@[2]@);
        args[2].clone()
    } else {
        String::from_str(".")
    };
    Ok(Configuration { threshold, root })
}

} // verus!
