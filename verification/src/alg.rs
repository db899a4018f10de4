use vstd::prelude::*;

use crate::error::Error;

verus! {

/// The fixed set of signing algorithms a signer may be configured with.
#[derive(Debug, Clone, Copy, PartialEq, Eq, Hash, Structural)]
pub enum SigningAlg {
    Es256,
    Es384,
    Es512,
    Ps256,
    Ps384,
    Ps512,
    Ed25519,
}

/// Case-insensitive match of one character against a lowercase letter or
/// digit `l`: either the same character, or its uppercase form.
pub open spec fn char_matches_ci(c: char, l: char) -> bool {
    ||| c as u32 == l as u32
    ||| (65 <= c as u32 <= 90 && c as u32 + 32 == l as u32)
}

/// Case-insensitive match of a whole string against a lowercase name.
pub open spec fn seq_matches_ci(s: Seq<char>, lit: Seq<char>) -> bool {
    s.len() == lit.len() && (forall|i: int|
        0 <= i < s.len() ==> char_matches_ci(s[i], #[trigger] lit[i]))
}

/// Which algorithm an algorithm tag names, ignoring letter case; `None` for
/// a tag outside the fixed set.
pub open spec fn spec_parse_alg(s: Seq<char>) -> Option<SigningAlg> {
    if seq_matches_ci(s, "es256"@) {
        Some(SigningAlg::Es256)
    } else if seq_matches_ci(s, "es384"@) {
        Some(SigningAlg::Es384)
    } else if seq_matches_ci(s, "es512"@) {
        Some(SigningAlg::Es512)
    } else if seq_matches_ci(s, "ps256"@) {
        Some(SigningAlg::Ps256)
    } else if seq_matches_ci(s, "ps384"@) {
        Some(SigningAlg::Ps384)
    } else if seq_matches_ci(s, "ps512"@) {
        Some(SigningAlg::Ps512)
    } else if seq_matches_ci(s, "ed25519"@) {
        Some(SigningAlg::Ed25519)
    } else {
        None
    }
}

/// The lowercase name of each algorithm.
pub open spec fn spec_alg_name(a: SigningAlg) -> Seq<char> {
    match a {
        SigningAlg::Es256 => "es256"@,
        SigningAlg::Es384 => "es384"@,
        SigningAlg::Es512 => "es512"@,
        SigningAlg::Ps256 => "ps256"@,
        SigningAlg::Ps384 => "ps384"@,
        SigningAlg::Ps512 => "ps512"@,
        SigningAlg::Ed25519 => "ed25519"@,
    }
}

/// Whether `s` names `lit` up to letter case.
fn eq_ci(s: &str, lit: &str) -> (r: bool)
    ensures
        r == seq_matches_ci(s@, lit@),
{
    let n = s.unicode_len();
    let m = lit.unicode_len();
    if n != m {
        return false;
    }
    let mut i: usize = 0;
    while i < n
        invariant
            i <= n,
            n == s@.len(),
            n == lit@.len(),
            forall|j: int| 0 <= j < i ==> char_matches_ci(s@[j], #[trigger] lit@[j]),
        decreases n - i,
    {
        let c = s.get_char(i);
        let l = lit.get_char(i);
        let cu = c as u32;
        let lu = l as u32;
        let ok = cu == lu || (65 <= cu && cu <= 90 && cu + 32 == lu);
        if !ok {
            return false;
        }
        i += 1;
    }
    true
}

impl SigningAlg {
    /// Parse an algorithm tag, ignoring letter case; a tag outside the
    /// fixed set is rejected as an `Other`-class configuration failure.
    pub fn from_str(alg: &str) -> (r: Result<SigningAlg, Error>)
        ensures
            match r {
                Ok(a) => spec_parse_alg(alg@) == Some(a),
                Err(e) => {
                    &&& spec_parse_alg(alg@) is None
                    &&& e.spec_kind() == crate::error::ErrorKind::Other
                },
            },
    {
        if eq_ci(alg, "es256") {
            Ok(SigningAlg::Es256)
        } else if eq_ci(alg, "es384") {
            Ok(SigningAlg::Es384)
        } else if eq_ci(alg, "es512") {
            Ok(SigningAlg::Es512)
        } else if eq_ci(alg, "ps256") {
            Ok(SigningAlg::Ps256)
        } else if eq_ci(alg, "ps384") {
            Ok(SigningAlg::Ps384)
        } else if eq_ci(alg, "ps512") {
            Ok(SigningAlg::Ps512)
        } else if eq_ci(alg, "ed25519") {
            Ok(SigningAlg::Ed25519)
        } else {
            Err(Error::Other { reason: "Invalid signing algorithm".to_string() })
        }
    }

    /// The lowercase name of this algorithm.
    pub fn name(&self) -> (r: &'static str)
        ensures
            r@ == spec_alg_name(*self),
    {
        match self {
            SigningAlg::Es256 => "es256",
            SigningAlg::Es384 => "es384",
            SigningAlg::Es512 => "es512",
            SigningAlg::Ps256 => "ps256",
            SigningAlg::Ps384 => "ps384",
            SigningAlg::Ps512 => "ps512",
            SigningAlg::Ed25519 => "ed25519",
        }
    }
}

} // verus!
