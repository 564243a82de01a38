//! Users, and the hashing of their passwords.

use vstd::prelude::*;
use crate::entity::{opt_view, Timestamp, UserModel, UserView};
use crate::error::HttpError;

verus! {

pub struct GetUsersResponse {
    pub users: Vec<UserModel>,
}

impl Default for GetUsersResponse {
    fn default() -> (r: GetUsersResponse)
        ensures
            r.users@.len() == 0,
    {
        GetUsersResponse { users: Vec::new() }
    }
}

/// A request to create a user.
pub struct CreateUserRequest {
    email: String,
    username: String,
    password: String,
}

/// The content of a [`CreateUserRequest`].
pub struct CreateUserView {
    pub email: Seq<char>,
    pub username: Seq<char>,
    pub password: Seq<char>,
}

impl View for CreateUserRequest {
    type V = CreateUserView;

    closed spec fn view(&self) -> CreateUserView {
        CreateUserView { email: self.email@, username: self.username@, password: self.password@ }
    }
}

impl CreateUserRequest {
    pub fn new(email: String, username: String, password: String) -> (r: CreateUserRequest)
        ensures
            r@ == (CreateUserView { email: email@, username: username@, password: password@ }),
    {
        CreateUserRequest { email, username, password }
    }

    pub fn email(&self) -> (s: &String)
        ensures
            s@ == self@.email,
    {
        &self.email
    }

    pub fn username(&self) -> (s: &String)
        ensures
            s@ == self@.username,
    {
        &self.username
    }

    pub fn password(&self) -> (s: &String)
        ensures
            s@ == self@.password,
    {
        &self.password
    }
}

impl Default for CreateUserRequest {
    fn default() -> (r: CreateUserRequest)
        ensures
            r@ == (CreateUserView { email: Seq::empty(), username: Seq::empty(), password: Seq::empty() }),
    {
        CreateUserRequest { email: String::new(), username: String::new(), password: String::new() }
    }
}

pub struct CreateUserResponse {
    pub success: bool,
}

impl Default for CreateUserResponse {
    fn default() -> (r: CreateUserResponse)
        ensures
            !r.success,
    {
        CreateUserResponse { success: false }
    }
}

/// The PHC string that Argon2, with its default parameters, makes of
/// `password` and `salt`, or the text of the error it reports.
pub uninterp spec fn argon2_phc(password: Seq<char>, salt: Seq<char>) -> Result<Seq<char>, Seq<char>>;

/// Whether `c` belongs to the standard Base64 alphabet.
pub open spec fn is_b64_char(c: char) -> bool {
    ('A' <= c && c <= 'Z') || ('a' <= c && c <= 'z') || ('0' <= c && c <= '9') || c == '+' || c == '/'
}

/// What holds of every salt drawn for a new password: 22 characters of the
/// Base64 alphabet, the unpadded encoding of 16 bytes.
pub open spec fn is_fresh_salt(s: Seq<char>) -> bool {
    &&& s.len() == 22
    &&& forall|i: int| 0 <= i < s.len() ==> is_b64_char(#[trigger] s[i])
}

/// Whether Argon2 accepts `password`: its UTF-8 encoding fits in 32 bits.
pub open spec fn password_fits(password: Seq<char>) -> bool {
    vstd::utf8::encode_utf8(password).len() <= 0xFFFF_FFFF
}

/// The head of every PHC string made with Argon2's default parameters.
pub open spec fn phc_head() -> Seq<char> {
    "$argon2id$v=19$m=4096,t=3,p=1$"@
}

/// Whether `h` is a PHC string of Argon2 with default parameters for the
/// salt `salt`: the head, the salt, a `$`, and a digest of 43 characters.
pub open spec fn is_phc_for_salt(h: Seq<char>, salt: Seq<char>) -> bool {
    let n = phc_head().len() as int;
    &&& h.len() == n + salt.len() + 44
    &&& h.subrange(0, n) == phc_head()
    &&& h.subrange(n, n + salt.len()) == salt
    &&& h[n + salt.len()] == '$'
}

/// Calls `PasswordHash::generate` with `Argon2::default()` on the bytes of
/// `password` and on `salt`, and renders the hash, or the error, as text.
/// The outcome is named `argon2_phc`. As the source shows, a password whose
/// bytes fit in 32 bits and a salt of 22 Base64 characters (which decodes to
/// 16 bytes, more than the 8 Argon2 needs) are accepted, and
/// the hash is written as the algorithm, version and parameters, the salt,
/// and the 32 byte digest in Base64. The digest itself is not described.
#[verifier::external_body]
fn argon2_hash(password: &String, salt: &str) -> (r: Result<String, String>)
    ensures
        match r {
            Ok(h) => argon2_phc(password@, salt@) == Ok::<Seq<char>, Seq<char>>(h@),
            Err(m) => argon2_phc(password@, salt@) == Err::<Seq<char>, Seq<char>>(m@),
        },
        password_fits(password@) && is_fresh_salt(salt@) ==> r is Ok,
        r matches Ok(h) ==> is_phc_for_salt(h@, salt@),
{
    match argon2::PasswordHash::generate(argon2::Argon2::default(), password.as_bytes(), salt) {
        Ok(hash) => Ok(hash.to_string()),
        Err(e) => Err(e.to_string()),
    }
}

/// Calls `SaltString::generate` with the thread's random number generator.
/// The salt is random; what holds of every outcome is that it is the
/// unpadded standard Base64 encoding of 16 bytes: 22 characters of that
/// alphabet.
#[verifier::external_body]
fn random_salt() -> (salt: String)
    ensures
        salt@.len() == 22,
        forall|i: int| 0 <= i < salt@.len() ==> is_b64_char(#[trigger] salt@[i]),
{
    argon2::password_hash::SaltString::generate(rand::thread_rng()).as_str().to_owned()
}

/// The text of the error answered when hashing fails with `reason`.
pub open spec fn hash_failure_text(reason: Seq<char>) -> Seq<char> {
    "failed to generate password hash: "@ + reason
}

/// How the outcome `hashed` of hashing `password` with `salt` relates to what
/// Argon2 makes of them: the PHC string, which carries the salt, or an
/// internal error naming the reason.
pub open spec fn hashed_with(password: Seq<char>, salt: Seq<char>, hashed: Result<String, HttpError>) -> bool {
    match (hashed, argon2_phc(password, salt)) {
        (Ok(h), Ok(phc)) => h@ == phc && is_phc_for_salt(h@, salt),
        (Err(HttpError::InternalServerError { message: None, detail: Some(d) }), Err(reason)) =>
            d@ == hash_failure_text(reason),
        _ => false,
    }
}

/// A password hash names its salt: one string is the hash for at most one
/// salt, so hashes made with different salts differ.
pub proof fn lemma_hash_determines_salt(h: Seq<char>, s1: Seq<char>, s2: Seq<char>)
    requires
        is_phc_for_salt(h, s1),
        is_phc_for_salt(h, s2),
    ensures
        s1 == s2,
{
}

/// Hashes `password` with Argon2 and the given salt.
pub fn hash_password_with_salt(password: &String, salt: &str) -> (r: Result<String, HttpError>)
    ensures
        hashed_with(password@, salt@, r),
        password_fits(password@) && is_fresh_salt(salt@) ==> r is Ok,
{
    match argon2_hash(password, salt) {
        Ok(h) => Ok(h),
        Err(reason) => {
            let mut text = String::from_str("failed to generate password hash: ");
            text.append(reason.as_str());
            Err(HttpError::internal_server_errer(None, Some(text)))
        },
    }
}

/// Whether `hash` is what Argon2 made of `password` with some salt.
pub open spec fn made_from(password: Seq<char>, hash: Seq<char>) -> bool {
    exists|salt: Seq<char>| #[trigger] argon2_phc(password, salt) == Ok::<Seq<char>, Seq<char>>(hash)
}

/// Calls `PasswordHash::new` on `hash` and, when it parses,
/// `Argon2::default().verify_password` on the bytes of `password`; false when
/// the hash does not parse or does not match. As the source shows,
/// verification hashes the password again with the salt and parameters
/// written in the hash and compares the digests, so a hash that Argon2 made
/// of this password verifies. Nothing is claimed of other hashes.
#[verifier::external_body]
fn argon2_verify(password: &String, hash: &str) -> (ok: bool)
    ensures
        made_from(password@, hash@) ==> ok,
{
    match argon2::PasswordHash::new(hash) {
        Ok(parsed) => argon2::PasswordVerifier::verify_password(&argon2::Argon2::default(), password.as_bytes(), &parsed).is_ok(),
        Err(_) => false,
    }
}

/// Checks `password` against a stored `hash`: every hash made of this
/// password is accepted.
pub fn verify_password(password: &String, hash: &String) -> (ok: bool)
    ensures
        made_from(password@, hash@) ==> ok,
{
    argon2_verify(password, hash.as_str())
}

/// A successful hashing is a hash made of the password, so it verifies
/// against the password (see [`verify_password`]).
pub proof fn lemma_hashed_password_verifies(password: Seq<char>, salt: Seq<char>, hashed: Result<String, HttpError>)
    requires
        hashed_with(password, salt, hashed),
        hashed is Ok,
    ensures
        made_from(password, hashed->Ok_0@),
{
    assert(argon2_phc(password, salt) == Ok::<Seq<char>, Seq<char>>(hashed->Ok_0@));
}

/// Hashes `password` with Argon2 and a fresh random salt.
pub fn hash_password(password: String) -> (r: Result<String, HttpError>)
    ensures
        password_fits(password@) ==> r is Ok,
        exists|salt: Seq<char>| is_fresh_salt(salt) && #[trigger] hashed_with(password@, salt, r),
{
    let salt = random_salt();
    let r = hash_password_with_salt(&password, salt.as_str());
    assert(hashed_with(password@, salt@, r));
    r
}

/// The user record created from `req` with the password hash `password_hash`,
/// with identifier `id`, at `now`: no biography and no image yet.
pub fn new_user(req: CreateUserRequest, password_hash: String, id: u128, now: Timestamp) -> (u: UserModel)
    ensures
        u@ == (UserView {
            user_id: id,
            username: req@.username,
            email: req@.email,
            bio: Seq::empty(),
            image: None,
            password_hash: password_hash@,
            created_at: now,
            updated_at: now,
        }),
{
    let CreateUserRequest { email, username, password: _ } = req;
    let u = UserModel::new(id, username, email, String::new(), None, password_hash, now, now);
    assert(opt_view(None) == None::<Seq<char>>);
    u
}

/// The user record created from `req`: its password hashed with a fresh
/// random salt, or the hashing error.
pub fn create_user_record(req: CreateUserRequest, id: u128, now: Timestamp) -> (r: Result<UserModel, HttpError>)
    ensures
        password_fits(req@.password) ==> r is Ok,
        exists|salt: Seq<char>| #![trigger argon2_phc(req@.password, salt)] is_fresh_salt(salt) && match (r, argon2_phc(req@.password, salt)) {
            (Ok(u), Ok(phc)) => is_phc_for_salt(phc, salt) && u@ == (UserView {
                user_id: id,
                username: req@.username,
                email: req@.email,
                bio: Seq::empty(),
                image: None,
                password_hash: phc,
                created_at: now,
                updated_at: now,
            }),
            (Err(HttpError::InternalServerError { message: None, detail: Some(d) }), Err(reason)) =>
                d@ == hash_failure_text(reason),
            _ => false,
        },
{
    let ghost request = req@;
    let hashed = hash_password(req.password.clone());
    let ghost salt = choose|salt: Seq<char>| is_fresh_salt(salt) && #[trigger] hashed_with(request.password, salt, hashed);
    assert(hashed_with(request.password, salt, hashed));
    match hashed {
        Ok(h) => Ok(new_user(req, h, id, now)),
        Err(e) => Err(e),
    }
}

} // verus!
