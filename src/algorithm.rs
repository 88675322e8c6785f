use vstd::prelude::*;
use vstd::string::*;

use crate::text::text_eq;

verus! {

/// The one-time-password algorithm that a slot is programmed with.
#[derive(Clone, Copy, Debug, PartialEq, Eq, Structural, PartialOrd, Ord, Hash)]
pub enum OtpAlgorithm {
    Hotp,
    Totp,
}

/// The canonical lower case text of an algorithm.
pub open spec fn algorithm_text(a: OtpAlgorithm) -> Seq<char> {
    match a {
        OtpAlgorithm::Hotp => seq!['h', 'o', 't', 'p'],
        OtpAlgorithm::Totp => seq!['t', 'o', 't', 'p'],
    }
}

/// The algorithm whose canonical text is `s`, if there is one.
pub open spec fn parse_algorithm(s: Seq<char>) -> Option<OtpAlgorithm> {
    if s == algorithm_text(OtpAlgorithm::Hotp) {
        Some(OtpAlgorithm::Hotp)
    } else if s == algorithm_text(OtpAlgorithm::Totp) {
        Some(OtpAlgorithm::Totp)
    } else {
        None
    }
}

/// A text that names no algorithm; it keeps the offending text.
#[derive(Debug)]
pub struct UnknownAlgorithm {
    pub text: String,
}

impl OtpAlgorithm {
    /// The canonical text of the algorithm.
    pub fn as_str(&self) -> (r: &'static str)
        ensures
            r@ == algorithm_text(*self),
    {
        proof {
            reveal_strlit("hotp");
            reveal_strlit("totp");
        }
        match self {
            OtpAlgorithm::Hotp => "hotp",
            OtpAlgorithm::Totp => "totp",
        }
    }

    /// The canonical text of the algorithm, as an owned string.
    pub fn to_string(&self) -> (r: String)
        ensures
            r@ == algorithm_text(*self),
    {
        self.as_str().to_owned()
    }

    /// Parses the canonical text of an algorithm; any other text is refused.
    pub fn from_str(s: &str) -> (r: Result<OtpAlgorithm, UnknownAlgorithm>)
        ensures
            match r {
                Ok(a) => parse_algorithm(s@) == Some(a),
                Err(e) => parse_algorithm(s@).is_none() && e.text@ == s@,
            },
    {
        if text_eq(s, OtpAlgorithm::Hotp.as_str()) {
            Ok(OtpAlgorithm::Hotp)
        } else if text_eq(s, OtpAlgorithm::Totp.as_str()) {
            Ok(OtpAlgorithm::Totp)
        } else {
            Err(UnknownAlgorithm { text: s.to_owned() })
        }
    }
}

/// Printing an algorithm and parsing the text back gives the same algorithm.
pub proof fn lemma_algorithm_text_round_trip(a: OtpAlgorithm)
    ensures
        parse_algorithm(algorithm_text(a)) == Some(a),
{
    assert(algorithm_text(OtpAlgorithm::Hotp)[0] != algorithm_text(OtpAlgorithm::Totp)[0]);
}

} // verus!
