//! Authentication: mapping a credential-source descriptor to a concrete
//! (username, password) pair. Resolution happens once, at client
//! construction. Reading the cookie file is the caller's I/O; its content is
//! parsed here, split at the first `:` into exactly two parts.

use vstd::prelude::*;

use crate::error::Error;

verus! {

/// No character of `s` before index `i` is a colon.
pub open spec fn no_colon_before(s: Seq<char>, i: int) -> bool {
    forall|j: int| 0 <= j < i ==> s[j] != ':'
}

/// `s` contains a colon somewhere.
pub open spec fn has_colon(s: Seq<char>) -> bool {
    exists|i: int| 0 <= i < s.len() && s[i] == ':'
}

/// The different authentication methods for the client. `CookieFile` names a
/// file whose entire content is `username:password`.
#[derive(Clone, Debug, Hash, Eq, PartialEq, Ord, PartialOrd)]
pub enum Auth {
    NoAuth,
    UserPass(String, String),
    CookieFile(String),
}

impl Auth {
    /// Convert into the user/password arguments the transport needs, for the
    /// variants that carry them directly. The cookie-file variant requires
    /// I/O and is resolved by handing the file's content to
    /// `cookie_user_pass`.
    pub fn get_user_pass(self) -> (r: Result<(Option<String>, Option<String>), Error>)
        requires
            !(self is CookieFile),
        ensures
            self is NoAuth ==> r == Ok::<(Option<String>, Option<String>), Error>(
                (None::<String>, None::<String>),
            ),
            (self matches Auth::UserPass(u, p) ==> r == Ok::<
                (Option<String>, Option<String>),
                Error,
            >((Some(u), Some(p)))),
    {
        match self {
            Auth::NoAuth => Ok((None, None)),
            Auth::UserPass(u, p) => Ok((Some(u), Some(p))),
            Auth::CookieFile(_) => {
                proof {
                    assert(false);
                }
                vstd::pervasive::unreached()
            },
        }
    }
}

/// Split a cookie file's content at the first colon into a username and a
/// password. Succeeds exactly when a colon is present; no further structure
/// is assumed beyond the first colon.
pub fn cookie_user_pass(contents: &str) -> (r: Result<(String, String), Error>)
    ensures
        r is Ok <==> has_colon(contents@),
        r is Err ==> r == Err::<(String, String), Error>(Error::InvalidCookieFile),
        (r matches Ok((u, p)) ==> ({
            let i = u@.len() as int;
            &&& 0 <= i < contents@.len()
            &&& contents@[i] == ':'
            &&& no_colon_before(contents@, i)
            &&& u@ == contents@.subrange(0, i)
            &&& p@ == contents@.subrange(i + 1, contents@.len() as int)
        })),
{
    let n = contents.unicode_len();
    let mut i: usize = 0;
    while i < n
        invariant
            i <= n,
            n == contents@.len(),
            no_colon_before(contents@, i as int),
        decreases n - i,
    {
        if contents.get_char(i) == ':' {
            let user = contents.substring_char(0, i).to_owned();
            let pass = contents.substring_char(i + 1, n).to_owned();
            proof {
                assert(contents@[i as int] == ':');
                assert(has_colon(contents@));
            }
            return Ok((user, pass));
        }
        i = i + 1;
    }
    proof {
        assert(!has_colon(contents@));
    }
    Err(Error::InvalidCookieFile)
}

} // verus!
