//! Login decisions: comparing submitted credentials against the
//! configured pair, and a request's decrypted cookie against the
//! configured user. Cookies themselves live in the HTTP layer; this
//! module only compares the plain values handed in.

use vstd::prelude::*;

verus! {

/// The characters of an optional string, an absent one counting as
/// empty.
pub open spec fn unwrap_or_empty(o: Option<Seq<char>>) -> Seq<char> {
    match o {
        Some(s) => s,
        None => Seq::empty(),
    }
}

/// The view of an optional owned string.
pub open spec fn opt_view(o: Option<String>) -> Option<Seq<char>> {
    match o {
        Some(s) => Some(s@),
        None => None,
    }
}

/// True when the submitted name and password both equal the configured
/// pair, a missing configured value counting as the empty string.
pub open spec fn login_ok(
    config_user: Option<Seq<char>>,
    config_pass: Option<Seq<char>>,
    user: Seq<char>,
    pass: Seq<char>,
) -> bool {
    unwrap_or_empty(config_user) == user && unwrap_or_empty(config_pass) == pass
}

/// Decides a login attempt against the configured credentials.
pub fn check_login(
    config_user: &Option<String>,
    config_pass: &Option<String>,
    user: &String,
    pass: &String,
) -> (b: bool)
    ensures
        b == login_ok(opt_view(*config_user), opt_view(*config_pass), user@, pass@),
{
    let user_ok = match config_user {
        Some(cu) => cu.eq(user),
        None => user.as_str().is_empty(),
    };
    let pass_ok = match config_pass {
        Some(cp) => cp.eq(pass),
        None => pass.as_str().is_empty(),
    };
    proof {
        if user@.len() == 0 {
            assert(user@ =~= Seq::<char>::empty());
        }
        if pass@.len() == 0 {
            assert(pass@ =~= Seq::<char>::empty());
        }
    }
    user_ok && pass_ok
}

/// The cookie pair expected for a configured user: `username=<name>`.
pub open spec fn expected_cookie(user: Seq<char>) -> Seq<char> {
    "username="@ + user
}

/// True when the request's decrypted session cookie matches the
/// configured user: a configured user expects exactly the matching
/// `username=<name>` pair, and no configured user expects no cookie.
pub fn is_auth(config_user: &Option<String>, cookie_pair: &Option<String>) -> (b: bool)
    ensures
        b == match (opt_view(*config_user), opt_view(*cookie_pair)) {
            (Some(u), Some(c)) => c == expected_cookie(u),
            (None, None) => true,
            _ => false,
        },
{
    match (config_user, cookie_pair) {
        (Some(u), Some(c)) => {
            let mut expect = String::from_str("username=");
            expect.append(u.as_str());
            expect.eq(c)
        },
        (None, None) => true,
        _ => false,
    }
}

} // verus!
