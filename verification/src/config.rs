//! The configuration store: strings under a section and a key. The store is an
//! `ini::Ini`; reading it from its file and writing it back is the caller's.

use crate::constants::{SESSION_SECTION, TOKEN_KEY, URL_KEY};
use ini::Ini;
use vstd::prelude::*;

verus! {

/// `ini::Ini`, the store. Nothing inside it is seen here.
#[verifier::external_type_specification]
#[verifier::external_body]
pub struct ExIni(Ini);

/// What a store holds: for each section and key under which `Ini::get_from`
/// finds a value, that value.
pub uninterp spec fn entries(conf: Ini) -> Map<(Seq<char>, Seq<char>), Seq<char>>;

/// `Ini::get_from` with a named section. It hands out the first value of `key`
/// in the first section of that name, and nothing where there is none; what it
/// finds is what `entries` holds.
#[verifier::external_body]
fn read_entry(conf: &Ini, section: &str, key: &str) -> (value: Option<String>)
    ensures
        match value {
            Some(value) => entries(*conf).contains_key((section@, key@)) && entries(
                *conf,
            )[(section@, key@)] == value@,
            None => !entries(*conf).contains_key((section@, key@)),
        },
{
    conf.get_from(Some(section), key).map(|value| value.to_string())
}

/// `Ini::set_to` with a named section. It puts `value` in place of all values
/// of `key` in the first section of that name, which it makes where there is
/// none: afterwards `value` is read there, and what is read under any other
/// section or key is as before.
#[verifier::external_body]
fn write_entry(conf: &mut Ini, section: &str, key: &str, value: &str)
    ensures
        entries(*final(conf)) == entries(*old(conf)).insert((section@, key@), value@),
{
    conf.set_to(Some(section), key.to_string(), value.to_string());
}

/// The value under `section` and `key`, if the store has one.
pub fn find_config_key(conf: &Ini, section: &str, key: &str) -> (value: Option<String>)
    ensures
        match value {
            Some(value) => entries(*conf).contains_key((section@, key@)) && entries(
                *conf,
            )[(section@, key@)] == value@,
            None => !entries(*conf).contains_key((section@, key@)),
        },
{
    read_entry(conf, section, key)
}

/// The value under `section` and `key`, which the store has to have.
pub fn get_config_key(conf: &Ini, section: &str, key: &str) -> (value: String)
    requires
        entries(*conf).contains_key((section@, key@)),
    ensures
        value@ == entries(*conf)[(section@, key@)],
{
    match read_entry(conf, section, key) {
        Some(value) => value,
        None => vstd::pervasive::unreached(),
    }
}

/// Puts `value` under `section` and `key`. Nothing else in the store changes.
pub fn set_config_key(conf: &mut Ini, section: &str, key: &str, value: &str)
    ensures
        entries(*final(conf)) == entries(*old(conf)).insert((section@, key@), value@),
{
    write_entry(conf, section, key, value);
}

/// What a session needs: the bearer token and the address of the service.
#[derive(Clone, Debug, PartialEq, Eq)]
pub struct Credentials {
    pub token: String,
    pub url: String,
}

/// Whether the store holds the credentials of a session.
pub open spec fn has_credentials(store: Map<(Seq<char>, Seq<char>), Seq<char>>) -> bool {
    store.contains_key((SESSION_SECTION@, TOKEN_KEY@)) && store.contains_key(
        (SESSION_SECTION@, URL_KEY@),
    )
}

/// The credentials of the session, if the store holds both of them.
pub fn create_configuration(conf: &Ini) -> (credentials: Option<Credentials>)
    ensures
        match credentials {
            Some(credentials) => has_credentials(entries(*conf)) && credentials.token@ == entries(
                *conf,
            )[(SESSION_SECTION@, TOKEN_KEY@)] && credentials.url@ == entries(
                *conf,
            )[(SESSION_SECTION@, URL_KEY@)],
            None => !has_credentials(entries(*conf)),
        },
{
    let token = match find_config_key(conf, SESSION_SECTION, TOKEN_KEY) {
        Some(token) => token,
        None => { return None; },
    };
    let url = match find_config_key(conf, SESSION_SECTION, URL_KEY) {
        Some(url) => url,
        None => { return None; },
    };
    Some(Credentials { token, url })
}

/// A new token takes the place of the old one and leaves the address of the
/// service as it was.
pub proof fn law_new_token_keeps_the_address(
    store: Map<(Seq<char>, Seq<char>), Seq<char>>,
    token: Seq<char>,
)
    ensures
        ({
            let renewed = store.insert((SESSION_SECTION@, TOKEN_KEY@), token);
            &&& renewed[(SESSION_SECTION@, TOKEN_KEY@)] == token
            &&& renewed.contains_key((SESSION_SECTION@, URL_KEY@)) == store.contains_key(
                (SESSION_SECTION@, URL_KEY@),
            )
            &&& renewed[(SESSION_SECTION@, URL_KEY@)] == store[(SESSION_SECTION@, URL_KEY@)]
            &&& has_credentials(store) ==> has_credentials(renewed)
        }),
{
    reveal_strlit("token");
    reveal_strlit("url");
    assert(TOKEN_KEY@.len() != URL_KEY@.len());
}

} // verus!
