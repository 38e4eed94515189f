//! Resolution of the bridge's configuration from its command-line values:
//! the device path is required, the baud rate is an optional decimal
//! literal defaulting to 115200.

use vstd::prelude::*;
use crate::error::{Error, ErrorKind};

verus! {

/// The baud rate used when none is given on the command line.
pub const DEFAULT_BAUDS: u32 = 115200;

/// Whether `c` is a decimal digit.
pub open spec fn is_dec_digit(c: char) -> bool {
    48 <= c as u32 <= 57
}

/// Whether every character of `s` is a decimal digit.
pub open spec fn all_dec_digits(s: Seq<char>) -> bool {
    forall|i: int| 0 <= i < s.len() ==> is_dec_digit(#[trigger] s[i])
}

/// The value of `s` read as a decimal numeral.
pub open spec fn dec_val(s: Seq<char>) -> int
    decreases s.len(),
{
    if s.len() == 0 {
        0
    } else {
        dec_val(s.drop_last()) * 10 + (s.last() as u32 - 48)
    }
}

/// The digit run of a baud literal: everything after an optional leading
/// plus sign.
pub open spec fn digit_run(s: Seq<char>) -> Seq<char> {
    if s.len() > 0 && s[0] == '+' {
        s.drop_first()
    } else {
        s
    }
}

/// Whether `s` is a well-formed baud literal: an optional leading plus
/// sign, then at least one decimal digit and nothing else, with a value
/// that fits in 32 bits.
pub open spec fn is_baud_literal(s: Seq<char>) -> bool {
    &&& digit_run(s).len() > 0
    &&& all_dec_digits(digit_run(s))
    &&& dec_val(digit_run(s)) <= u32::MAX
}

/// A numeral's value is never negative.
proof fn lemma_dec_val_nonneg(s: Seq<char>)
    requires
        all_dec_digits(s),
    ensures
        dec_val(s) >= 0,
    decreases s.len(),
{
    if s.len() > 0 {
        assert(all_dec_digits(s.drop_last()));
        lemma_dec_val_nonneg(s.drop_last());
    }
}

/// Extending a numeral on the right never decreases its value, so every
/// prefix of a digit run is worth at most the whole run.
proof fn lemma_dec_val_prefix_le(s: Seq<char>, i: int)
    requires
        all_dec_digits(s),
        0 <= i <= s.len(),
    ensures
        dec_val(s.subrange(0, i)) <= dec_val(s),
    decreases s.len() - i,
{
    if i == s.len() {
        assert(s.subrange(0, i) =~= s);
    } else {
        let p = s.subrange(0, i + 1);
        assert(p.drop_last() =~= s.subrange(0, i));
        assert(all_dec_digits(s.subrange(0, i)));
        lemma_dec_val_nonneg(s.subrange(0, i));
        lemma_dec_val_prefix_le(s, i + 1);
    }
}

/// Parses a baud literal exactly as the bridge accepts it: an optional
/// leading plus sign, then decimal digits whose value fits in 32 bits.
/// Returns `None` on anything else.
pub fn parse_bauds(s: &str) -> (r: Option<u32>)
    ensures
        r is Some <==> is_baud_literal(s@),
        r matches Some(v) ==> v as int == dec_val(digit_run(s@)),
{
    let n = s.unicode_len();
    let mut start: usize = 0;
    if n > 0 && s.get_char(0) == '+' {
        start = 1;
    }
    let ghost run = digit_run(s@);
    proof {
        assert(run =~= s@.subrange(start as int, n as int));
    }
    if start >= n {
        return None;
    }
    let mut acc: u32 = 0;
    let mut i: usize = start;
    while i < n
        invariant
            start <= i <= n,
            n == s@.len(),
            run == digit_run(s@),
            run =~= s@.subrange(start as int, n as int),
            all_dec_digits(run.subrange(0, i - start)),
            acc as int == dec_val(run.subrange(0, i - start)),
        decreases n - i,
    {
        let c = s.get_char(i);
        let v = c as u32;
        if v < 48 || 57 < v {
            proof {
                let j = i - start;
                assert(run[j as int] == s@[i as int]);
                assert(!is_dec_digit(run[j as int]));
            }
            return None;
        }
        let d: u32 = v - 48;
        let ghost j = i - start;
        proof {
            assert(run.subrange(0, j + 1).drop_last() =~= run.subrange(0, j as int));
            assert(run.subrange(0, j + 1).last() == run[j as int]);
            assert(run[j as int] == s@[i as int]);
            assert(dec_val(run.subrange(0, j + 1)) == acc * 10 + d);
        }
        let next = match acc.checked_mul(10) {
            Some(m) => m.checked_add(d),
            None => None,
        };
        match next {
            Some(a2) => {
                acc = a2;
            },
            None => {
                proof {
                    if all_dec_digits(run) {
                        assert(all_dec_digits(run.subrange(0, j + 1)));
                        lemma_dec_val_prefix_le(run, j + 1);
                        assert(dec_val(run) > u32::MAX);
                    }
                }
                return None;
            },
        }
        proof {
            assert(all_dec_digits(run.subrange(0, j + 1)));
        }
        i = i + 1;
    }
    proof {
        assert(run.subrange(0, (i - start) as int) =~= run);
    }
    Some(acc)
}

/// The resolved configuration of a bridge session.
#[derive(Debug, Clone)]
pub struct Config {
    /// The device path given as the first command-line value.
    pub path: String,
    /// The configured baud rate.
    pub bauds: u32,
}

/// Resolves the command-line values: the first is the required device
/// path, the second is an optional baud literal defaulting to 115200.
/// A missing path or an unparseable baud literal is an `InvalidValue`
/// error, found before any device is opened.
pub fn resolve_args(path: Option<String>, bauds: Option<String>) -> (r: Result<Config, Error>)
    ensures
        path is None ==> (r matches Err(e) && e.kind is InvalidValue),
        path matches Some(p) ==> bauds is None ==> (r matches Ok(c) && c.path@ == p@
            && c.bauds == DEFAULT_BAUDS),
        path matches Some(p) ==> bauds matches Some(b) ==> is_baud_literal(b@) ==> (r matches
            Ok(c) && c.path@ == p@ && c.bauds as int == dec_val(digit_run(b@))),
        bauds matches Some(b) ==> !is_baud_literal(b@) ==> (r matches Err(e)
            && e.kind is InvalidValue),
{
    let p = match path {
        Some(p) => p,
        None => {
            return Err(Error::new(
                ErrorKind::InvalidValue,
                "Missing path to serial device as argument 1".to_owned(),
            ));
        },
    };
    let rate: u32 = match bauds {
        None => DEFAULT_BAUDS,
        Some(b) => match parse_bauds(b.as_str()) {
            Some(v) => v,
            None => {
                return Err(Error::new(
                    ErrorKind::InvalidValue,
                    "Invalid baud rate as argument 2".to_owned(),
                ));
            },
        },
    };
    Ok(Config { path: p, bauds: rate })
}

} // verus!
