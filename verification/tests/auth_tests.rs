use bitcoincore_rpc::auth::{cookie_user_pass, Auth};
use bitcoincore_rpc::error::Error;

#[test]
fn cookie_splits_at_first_colon() {
    let r = cookie_user_pass("alice:secret").unwrap();
    assert_eq!(r.0, "alice");
    assert_eq!(r.1, "secret");
}

#[test]
fn cookie_without_colon_is_invalid() {
    assert_eq!(cookie_user_pass("alicesecret"), Err(Error::InvalidCookieFile));
}

#[test]
fn empty_cookie_is_invalid() {
    assert_eq!(cookie_user_pass(""), Err(Error::InvalidCookieFile));
}

#[test]
fn only_first_colon_delimits() {
    let r = cookie_user_pass("a:b:c").unwrap();
    assert_eq!(r.0, "a");
    assert_eq!(r.1, "b:c");
}

#[test]
fn empty_user_and_password_are_allowed() {
    let r = cookie_user_pass(":").unwrap();
    assert_eq!(r.0, "");
    assert_eq!(r.1, "");
}

#[test]
fn cookie_with_non_ascii_content() {
    let r = cookie_user_pass("ül:pä").unwrap();
    assert_eq!(r.0, "ül");
    assert_eq!(r.1, "pä");
}

#[test]
fn no_auth_yields_no_credentials() {
    assert_eq!(Auth::NoAuth.get_user_pass(), Ok((None, None)));
}

#[test]
fn user_pass_yields_the_pair_as_is() {
    let auth = Auth::UserPass(String::from("alice"), String::from("secret"));
    assert_eq!(
        auth.get_user_pass(),
        Ok((Some(String::from("alice")), Some(String::from("secret"))))
    );
}
