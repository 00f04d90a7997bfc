//! Decisions taken at process start and on exit.

use crate::error::Error;
use crate::provider::strings_view;
use vstd::prelude::*;

verus! {

/// Fewest bytes of cookie-key material accepted (512 bits).
pub const MIN_COOKIE_KEY_BYTES: usize = 64;

/// The lines that report a runtime error: a heading, then one line per
/// error of its chain, outermost first.
pub open spec fn report_lines(chain: Seq<Seq<char>>) -> Seq<Seq<char>> {
    seq!["Runtime error:"@] + chain.map_values(|e: Seq<char>| "--> "@ + e)
}

/// The lines to log for the outcome of a run: none after success, else the
/// report of the error chain.
pub fn error_report(result: Result<(), Vec<String>>) -> (r: Vec<String>)
    ensures
        match result {
            Ok(_) => r@.len() == 0,
            Err(chain) => strings_view(r@) == report_lines(strings_view(chain@)),
        },
{
    let mut lines: Vec<String> = Vec::new();
    match result {
        Ok(_) => {},
        Err(chain) => {
            lines.push("Runtime error:".to_owned());
            let mut i: usize = 0;
            while i < chain.len()
                invariant
                    0 <= i <= chain@.len(),
                    strings_view(lines@) == report_lines(strings_view(chain@.subrange(0, i as int))),
                decreases chain@.len() - i,
            {
                let ghost before = lines@;
                let mut line = "--> ".to_owned();
                line.append(chain[i].as_str());
                let ghost entry = line@;
                lines.push(line);
                proof {
                    let f = |e: Seq<char>| "--> "@ + e;
                    let done = strings_view(chain@.subrange(0, i as int));
                    let next = strings_view(chain@.subrange(0, i + 1));
                    assert(entry == f(chain@[i as int]@));
                    assert(next =~= done.push(chain@[i as int]@));
                    assert(next.map_values(f) =~= done.map_values(f).push(entry));
                    assert(strings_view(lines@) =~= strings_view(before).push(entry));
                    assert(chain@.subrange(0, i + 1) =~= chain@.subrange(0, i as int).push(chain@[i as int]));
                    assert(strings_view(lines@) =~= report_lines(
                        strings_view(chain@.subrange(0, i + 1)),
                    ));
                }
                i = i + 1;
            }
            assert(chain@.subrange(0, i as int) =~= chain@);
        },
    }
    lines
}

/// Accepts cookie-key material of at least 64 bytes; fails with
/// `InvalidConfiguration` on anything shorter.
pub fn check_cookie_key(raw_key: &str) -> (r: Result<(), Error>)
    ensures
        match r {
            Ok(_) => raw_key.len() >= MIN_COOKIE_KEY_BYTES,
            Err(e) => raw_key.len() < MIN_COOKIE_KEY_BYTES && e is InvalidConfiguration,
        },
{
    if raw_key.len() < MIN_COOKIE_KEY_BYTES {
        Err(Error::InvalidConfiguration {
            message: "QVET_COOKIE_KEY too short: must be at least 64 bytes".to_owned(),
        })
    } else {
        Ok(())
    }
}

} // verus!
