//! Authentication types.

use vstd::prelude::*;
use vstd::string::*;

use crate::text::{ascii_lowercase, str_eq, to_ascii_lowercase};

verus! {

/// How the client authenticates with Master and workers.
#[derive(Clone, Copy, Debug, PartialEq, Eq, Structural)]
pub enum AuthType {
    /// No authentication.
    NoSasl,
    /// Plain SASL with a user name.
    Simple,
}

impl Default for AuthType {
    fn default() -> (r: Self)
        ensures
            r == AuthType::Simple,
    {
        AuthType::Simple
    }
}

/// The authentication type that `s` names, whatever the case of its letters.
pub open spec fn auth_type_named(s: Seq<char>) -> Option<AuthType> {
    if ascii_lowercase(s) == "nosasl"@ {
        Some(AuthType::NoSasl)
    } else if ascii_lowercase(s) == "simple"@ {
        Some(AuthType::Simple)
    } else {
        None
    }
}

impl AuthType {
    /// The authentication type that `s` names (case-insensitive): `nosasl` or `simple`.
    pub fn parse(s: &str) -> (r: Result<AuthType, String>)
        ensures
            match r {
                Ok(t) => auth_type_named(s@) == Some(t),
                Err(e) => auth_type_named(s@) is None && e@ == "unknown auth type '"@ + s@
                    + "'. Expected one of: nosasl, simple"@,
            },
    {
        let lower: String = to_ascii_lowercase(s);
        if str_eq(&lower, "nosasl") {
            Ok(AuthType::NoSasl)
        } else if str_eq(&lower, "simple") {
            Ok(AuthType::Simple)
        } else {
            let mut e: String = "unknown auth type '".to_owned();
            e.append(s);
            e.append("'. Expected one of: nosasl, simple");
            Err(e)
        }
    }
}

/// `nosasl` and `simple`, in letters of any case, name the two types, and nothing else does.
pub proof fn law_auth_type_words(word: Seq<char>)
    ensures
        auth_type_named(word) == Some(AuthType::NoSasl) <==> ascii_lowercase(word) == "nosasl"@,
        auth_type_named(word) == Some(AuthType::Simple) <==> ascii_lowercase(word) == "simple"@,
{
    reveal_strlit("nosasl");
    reveal_strlit("simple");
    assert("nosasl"@[0] != "simple"@[0]);
}

} // verus!
