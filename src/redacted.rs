//! A container for secrets whose only textual forms are redacted.

use vstd::prelude::*;
use vstd::string::*;

verus! {

/// How many leading characters of a secret its redacted form keeps.
pub const REDACTED_PREFIX_LEN: usize = 4;

/// The leading characters of `s` that a redacted form shows.
pub open spec fn shown_prefix(s: Seq<char>) -> Seq<char> {
    if s.len() < REDACTED_PREFIX_LEN {
        s
    } else {
        s.subrange(0, REDACTED_PREFIX_LEN as int)
    }
}

/// The redacted form of `s`: its first few characters, then `***`.
pub open spec fn masked_text(s: Seq<char>) -> Seq<char> {
    shown_prefix(s) + seq!['*', '*', '*']
}

/// The debug form of a redacted secret: `Redacted("<masked>")`.
pub open spec fn debug_text(s: Seq<char>) -> Seq<char> {
    seq!['R', 'e', 'd', 'a', 'c', 't', 'e', 'd', '(', '"'] + masked_text(s) + seq!['"', ')']
}

/// Holds a secret so that it cannot be printed by accident.
///
/// The secret is reached only through the field, by name; the text forms
/// that this type offers never hold more than its first few characters.
#[derive(Clone, PartialEq, Eq)]
pub struct Redacted(pub String);

impl Redacted {
    pub fn new(inner: String) -> (r: Self)
        ensures
            r.0@ == inner@,
    {
        Redacted(inner)
    }

    /// The redacted form: the first few characters followed by `***`.
    pub fn masked(&self) -> (r: String)
        ensures
            r@ == masked_text(self.0@),
    {
        let n = self.0.as_str().unicode_len();
        let k: usize = if n < REDACTED_PREFIX_LEN { n } else { REDACTED_PREFIX_LEN };
        let prefix = self.0.as_str().substring_char(0, k);
        let mut out = prefix.to_owned();
        out.append("***");
        proof {
            reveal_strlit("***");
        }
        assert(out@ =~= masked_text(self.0@));
        out
    }

    /// The debug form, `Redacted("<masked>")`.
    pub fn debug_string(&self) -> (r: String)
        ensures
            r@ == debug_text(self.0@),
    {
        let mut out = "Redacted(\"".to_owned();
        let masked = self.masked();
        out.append(masked.as_str());
        out.append("\")");
        proof {
            reveal_strlit("Redacted(\"");
            reveal_strlit("\")");
        }
        assert(out@ =~= debug_text(self.0@));
        out
    }
}

} // verus!
