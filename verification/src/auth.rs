//! Users, the credentials a login form submits, and the password check that
//! authentication performs on the account stored under the submitted name.

use vstd::prelude::*;
use vstd::string::StringSliceAdditionalSpecFns;
use vstd::utf8::encode_utf8;

use crate::password::{check_password, default_hash_prefix, hash_password, password_matches};

verus! {

/// A registered user: the name it logs in with and the PHC string of its
/// password hash. The hash is never handed out except through `password`.
#[derive(Clone, Debug)]
pub struct User {
    pub username: String,
    password: String,
}

/// What a login or sign-in form submits.
#[derive(Clone, Debug)]
pub struct Credentials {
    pub username: String,
    pub password: String,
}

impl User {
    /// The user's name, as text.
    pub closed spec fn name(&self) -> Seq<char> {
        self.username@
    }

    /// The stored password hash, as text.
    pub closed spec fn stored_hash(&self) -> Seq<char> {
        self.password@
    }

    /// `self` is named `username` and its stored hash verifies `password`:
    /// what a user made by `User::new(username, password)` satisfies.
    pub open spec fn made_from(&self, username: Seq<char>, password: Seq<char>) -> bool {
        &&& self.name() == username
        &&& password_matches(password, self.stored_hash())
    }

    /// A new user with a freshly salted Argon2id hash of `password`.
    pub fn new(username: &str, password: &str) -> (user: Self)
        requires
            password.spec_bytes().len() <= 0xFFFF_FFFF,
        ensures
            user.made_from(username@, password@),
            default_hash_prefix().is_prefix_of(user.stored_hash()),
    {
        let username = username.to_owned();
        let password = hash_password(password);
        User { username, password }
    }

    /// A user as it was stored: its name and the hash that was saved for it.
    pub fn from_stored(username: String, password_hash: String) -> (user: Self)
        ensures
            user.name() == username@,
            user.stored_hash() == password_hash@,
    {
        User { username, password: password_hash }
    }

    /// The stored password hash.
    pub fn password(&self) -> (hash: &str)
        ensures
            hash@ == self.stored_hash(),
    {
        self.password.as_str()
    }

    /// The identifier a session keeps for this user: its name.
    pub fn id(&self) -> (id: String)
        ensures
            id@ == self.name(),
    {
        self.username.clone()
    }

    /// The bytes a session is bound to: the UTF-8 encoding of the stored
    /// hash, so that a changed password ends the sessions opened before.
    pub fn session_auth_hash(&self) -> (bytes: &[u8])
        ensures
            bytes@ == encode_utf8(self.stored_hash()),
    {
        self.password.as_str().as_bytes()
    }
}

/// What authentication yields when `found` is the account stored under the
/// submitted name (if any) and `password` the submitted password: that account
/// when its hash verifies the password, and nothing otherwise.
pub open spec fn authentication_result(found: Option<User>, password: Seq<char>) -> Option<User> {
    match found {
        Some(user) => if password_matches(password, user.stored_hash()) {
            Some(user)
        } else {
            None
        },
        None => None,
    }
}

/// Keeps the account that was looked up only when its password verified.
pub fn keep_if_verified(found: Option<User>, verified: bool) -> (kept: Option<User>)
    ensures
        kept == (if verified { found } else { None }),
{
    if verified {
        found
    } else {
        None
    }
}

/// The decision of authentication, once the account stored under
/// `credentials.username` has been looked up: the account itself when the
/// submitted password verifies against its hash, `None` when there is no such
/// account or the password is wrong.
pub fn authenticate(found: Option<User>, credentials: &Credentials) -> (user: Option<User>)
    ensures
        user == authentication_result(found, credentials.password@),
        user matches Some(u) ==> found == Some(u),
        found is None ==> user is None,
        found is Some && password_matches(credentials.password@, found->0.stored_hash())
            ==> user == found,
        found is Some && !password_matches(credentials.password@, found->0.stored_hash())
            ==> user is None,
{
    match found {
        Some(account) => {
            let verified = check_password(
                credentials.password.as_str(),
                account.password.as_str(),
            ).is_ok();
            keep_if_verified(Some(account), verified)
        },
        None => None,
    }
}

/// A user made from a name and a password is let in with that same password:
/// authentication of the account with the password it was created with gives
/// the account back.
pub proof fn lemma_new_user_authenticates(user: User, username: Seq<char>, password: Seq<char>)
    requires
        user.made_from(username, password),
    ensures
        authentication_result(Some(user), password) == Some(user),
{
}

/// Authentication never hands out an account other than the one looked up,
/// and never one when none was found.
pub proof fn lemma_authentication_yields_found_account(found: Option<User>, password: Seq<char>)
    ensures
        authentication_result(found, password) matches Some(u) ==> found == Some(u),
        found is None ==> authentication_result(found, password) is None,
{
}

/// A new user does not store its password as such: its stored hash starts
/// with the Argon2id prefix, so it differs from every password that does not.
pub proof fn lemma_stored_hash_is_not_the_password(user: User, password: Seq<char>)
    requires
        default_hash_prefix().is_prefix_of(user.stored_hash()),
        !default_hash_prefix().is_prefix_of(password),
    ensures
        user.stored_hash() != password,
{
}

/// Authentication lets the looked-up account in exactly when the submitted
/// password verifies against its stored hash, and lets nobody in otherwise.
pub proof fn lemma_authentication_decision(found: Option<User>, password: Seq<char>)
    ensures
        found is None ==> authentication_result(found, password) is None,
        found is Some && password_matches(password, found->0.stored_hash())
            ==> authentication_result(found, password) == found,
        found is Some && !password_matches(password, found->0.stored_hash())
            ==> authentication_result(found, password) is None,
{
}

/// A user is made from a name and a password exactly when it carries that
/// name and its stored hash verifies that password.
pub proof fn lemma_made_from_means(user: User, username: Seq<char>, password: Seq<char>)
    ensures
        user.made_from(username, password)
            <==> (user.name() == username && password_matches(password, user.stored_hash())),
{
}

} // verus!
