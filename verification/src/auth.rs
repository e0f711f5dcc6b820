//! The rules of the account endpoints: what a registration and a login are
//! answered with, and when a login opens a session.

use vstd::prelude::*;
use vstd::string::StringExecFns;

use crate::ident::{fresh_uuid, hyphenated, uuid_text};
use crate::shared::SessionStore;
use crate::text::{blank, contains, is_blank, occurs_in};

verus! {

/// A request to open an account.
#[derive(Debug)]
pub struct UserRegister {
    pub username: String,
    pub password: String,
}

/// A request to log in.
#[derive(Debug)]
pub struct UserLogin {
    pub username: String,
    pub password: String,
}

/// The body of every answer: one sentence.
#[derive(Debug)]
pub struct ResponseMessage {
    pub message: String,
}

/// An answer of an account endpoint.
#[derive(Debug)]
pub struct Reply {
    /// The HTTP status.
    pub status: u16,
    /// The body.
    pub body: ResponseMessage,
    /// The cookie to set, where a session was opened.
    pub set_cookie: Option<String>,
}

impl Reply {
    /// The answer has this status and sentence and sets no cookie.
    pub open spec fn says(self, status: u16, sentence: Seq<char>) -> bool {
        &&& self.status == status
        &&& self.body.message@ == sentence
        &&& self.set_cookie is None
    }

    /// The answer to a login that succeeded: it hands `token` out as a
    /// cookie that scripts cannot read and other sites cannot send.
    pub open spec fn grants(self, token: Seq<char>) -> bool {
        &&& self.status == 200
        &&& self.body.message@ == "Login successful."@
        &&& self.set_cookie matches Some(cookie)
        &&& cookie@ == cookie_text(token)
    }
}

/// The cookie that carries a session token.
pub open spec fn cookie_text(token: Seq<char>) -> Seq<char> {
    "session_token="@ + token + "; HttpOnly; SameSite=Strict"@
}

/// A name or a password that is blank counts as missing.
pub open spec fn credentials_missing(username: Seq<char>, password: Seq<char>) -> bool {
    blank(username) || blank(password)
}

/// Whether bcrypt finds that `password` is the one `hash` was made from; a
/// hash that cannot be read accepts no password.
pub uninterp spec fn bcrypt_accepts(password: Seq<char>, hash: Seq<char>) -> bool;

/// Calls `bcrypt::hash` with `DEFAULT_COST`; `None` stands for any error.
/// The contract claims nothing of the result: the salt is drawn at random.
#[verifier::external_body]
fn hash_password(password: &str) -> (hashed: Option<String>) {
    bcrypt::hash(password, bcrypt::DEFAULT_COST).ok()
}

/// Calls `bcrypt::verify`, an error counting as a password that does not
/// match. The contract gives its result the name [`bcrypt_accepts`]: it
/// depends on the password and the hash alone.
#[verifier::external_body]
fn password_matches(password: &str, hash: &str) -> (matches: bool)
    ensures
        matches == bcrypt_accepts(password@, hash@),
{
    bcrypt::verify(password, hash).unwrap_or(false)
}

fn reply(status: u16, sentence: &str) -> (reply: Reply)
    ensures
        reply.says(status, sentence@),
{
    Reply { status, body: ResponseMessage { message: String::from_str(sentence) }, set_cookie: None }
}

/// Whether a request lacks a name or a password.
pub fn lacks_credentials(username: &str, password: &str) -> (missing: bool)
    ensures
        missing == credentials_missing(username@, password@),
{
    is_blank(username) || is_blank(password)
}

/// How a registration goes on once the request has been looked at.
#[derive(Debug)]
pub enum Registration {
    /// It ends here, with this answer.
    Refused(Reply),
    /// The account is to be stored, the password as this hash.
    Store { username: String, password_hash: String },
}

/// How a registration goes on, given the hash of the password, `None`
/// standing for a hashing that failed.
pub fn begin_registration(user: &UserRegister, hashed: Option<String>) -> (step: Registration)
    ensures
        match step {
            Registration::Refused(reply) => if credentials_missing(
                user.username@,
                user.password@,
            ) {
                reply.says(400, "Username and password cannot be empty."@)
            } else {
                hashed is None && reply.says(500, "Password hashing failed."@)
            },
            Registration::Store { username, password_hash } => {
                &&& !credentials_missing(user.username@, user.password@)
                &&& hashed == Some(password_hash)
                &&& username@ == user.username@
            },
        },
{
    if lacks_credentials(user.username.as_str(), user.password.as_str()) {
        Registration::Refused(reply(400, "Username and password cannot be empty."))
    } else {
        match hashed {
            Some(password_hash) => Registration::Store {
                username: user.username.clone(),
                password_hash,
            },
            None => Registration::Refused(reply(500, "Password hashing failed.")),
        }
    }
}

/// Looks at a registration: a request without a name or a password is
/// refused, any other has its password hashed and is to be stored.
pub fn handle_register(user: &UserRegister) -> (step: Registration)
    ensures
        match step {
            Registration::Refused(reply) => if credentials_missing(
                user.username@,
                user.password@,
            ) {
                reply.says(400, "Username and password cannot be empty."@)
            } else {
                reply.says(500, "Password hashing failed."@)
            },
            Registration::Store { username, password_hash } => {
                &&& !credentials_missing(user.username@, user.password@)
                &&& username@ == user.username@
            },
        },
{
    if lacks_credentials(user.username.as_str(), user.password.as_str()) {
        begin_registration(user, None)
    } else {
        let hashed = hash_password(user.password.as_str());
        begin_registration(user, hashed)
    }
}

/// What became of storing an account.
#[derive(Debug)]
pub enum StoreOutcome {
    /// The store could not be reached.
    Unavailable,
    /// The account is stored.
    Stored,
    /// The store refused, in these words.
    Failed { reason: String },
}

/// The answer that ends a registration. A refusal that speaks of a broken
/// uniqueness constraint means that the name is taken.
pub fn registration_reply(outcome: &StoreOutcome) -> (reply: Reply)
    ensures
        match outcome {
            StoreOutcome::Unavailable => reply.says(500, "Internal server error."@),
            StoreOutcome::Stored => reply.says(200, "User registered successfully."@),
            StoreOutcome::Failed { reason } => if occurs_in(
                "UNIQUE constraint failed"@,
                reason@,
            ) {
                reply.says(400, "Username already exists."@)
            } else {
                reply.says(400, "User registration failed."@)
            },
        },
{
    match outcome {
        StoreOutcome::Unavailable => self::reply(500, "Internal server error."),
        StoreOutcome::Stored => self::reply(200, "User registered successfully."),
        StoreOutcome::Failed { reason } => if contains(reason.as_str(), "UNIQUE constraint failed") {
            self::reply(400, "Username already exists.")
        } else {
            self::reply(400, "User registration failed.")
        },
    }
}

/// What the store said of a user's password.
#[derive(Debug)]
pub enum PasswordLookup {
    /// The store could not be reached.
    Unavailable,
    /// The query could not be made.
    QueryFailed,
    /// No account has that name.
    NoAccount,
    /// The account is there and its password could not be read.
    Unreadable,
    /// The hash of the account's password.
    Stored(String),
}

/// Opens a session for `username` under `token` and answers with the
/// cookie.
pub fn open_session(sessions: &mut SessionStore, username: &str, token: String) -> (reply: Reply)
    ensures
        final(sessions)@ == old(sessions)@.insert(token@, username@),
        reply.grants(token@),
{
    let mut cookie = String::from_str("session_token=");
    cookie.append(token.as_str());
    cookie.append("; HttpOnly; SameSite=Strict");
    sessions.insert(token, String::from_str(username));
    Reply {
        status: 200,
        body: ResponseMessage { message: String::from_str("Login successful.") },
        set_cookie: Some(cookie),
    }
}

/// The rule of a login. Only a request with a name and a password whose
/// password the stored hash accepts opens a session, under a newly drawn
/// token; every other request leaves the sessions as they were.
pub open spec fn login_rule(
    user: UserLogin,
    lookup: PasswordLookup,
    before: Map<Seq<char>, Seq<char>>,
    after: Map<Seq<char>, Seq<char>>,
    reply: Reply,
) -> bool {
    if credentials_missing(user.username@, user.password@) {
        after == before && reply.says(400, "Username and password cannot be empty."@)
    } else {
        match lookup {
            PasswordLookup::Unavailable => after == before && reply.says(
                500,
                "Internal server error."@,
            ),
            PasswordLookup::QueryFailed => after == before && reply.says(401, "User not found."@),
            PasswordLookup::Unreadable => after == before && reply.says(
                500,
                "Error retrieving password."@,
            ),
            PasswordLookup::NoAccount => after == before && reply.says(
                401,
                "Invalid username or password."@,
            ),
            PasswordLookup::Stored(hash) => if bcrypt_accepts(user.password@, hash@) {
                exists|bits: u128|
                    after == before.insert(#[trigger] hyphenated(bits), user.username@)
                        && reply.grants(hyphenated(bits))
            } else {
                after == before && reply.says(401, "Invalid username or password."@)
            },
        }
    }
}

/// Answers a login, given what the store said of the user's password.
pub fn handle_login(user: &UserLogin, lookup: PasswordLookup, sessions: &mut SessionStore) -> (reply:
    Reply)
    ensures
        login_rule(*user, lookup, old(sessions)@, final(sessions)@, reply),
{
    if lacks_credentials(user.username.as_str(), user.password.as_str()) {
        return self::reply(400, "Username and password cannot be empty.");
    }
    match lookup {
        PasswordLookup::Unavailable => self::reply(500, "Internal server error."),
        PasswordLookup::QueryFailed => self::reply(401, "User not found."),
        PasswordLookup::Unreadable => self::reply(500, "Error retrieving password."),
        PasswordLookup::NoAccount => self::reply(401, "Invalid username or password."),
        PasswordLookup::Stored(hash) => {
            if password_matches(user.password.as_str(), hash.as_str()) {
                let bits = fresh_uuid();
                let token = uuid_text(bits);
                open_session(sessions, user.username.as_str(), token)
            } else {
                self::reply(401, "Invalid username or password.")
            }
        },
    }
}

} // verus!
