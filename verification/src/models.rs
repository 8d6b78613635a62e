use vstd::prelude::*;

verus! {

/// A stored account: the e-mail is unique across the store and the password
/// field holds the salted one-way hash, never the plaintext.
pub struct User {
    pub id: i32,
    pub email: String,
    pub password: String,
}

/// Registration or login payload: a plaintext password beside the e-mail.
pub struct NewUser {
    pub email: String,
    pub password: String,
}

/// Payload of an account deletion: the current plaintext password.
pub struct UserPassword {
    pub current_password: String,
}

/// Payload of a password change.
pub struct NewUserPassword {
    pub current_password: String,
    pub new_password: String,
}

/// Payload of a token refresh: the bearer refresh token.
pub struct JWTRefreshToken {
    pub refresh: String,
}

/// One active session: both bearer tokens embed the session identifiers
/// stored here, and the row is rewritten in place on rotation.
pub struct DBToken {
    pub id: i32,
    pub user_id: i32,
    pub access_token: String,
    pub refresh_token: String,
    pub created: i64,
    pub modified: i64,
}

/// The identity a verified bearer token yields: the owning user's fields
/// plus the id of the session row the token matched.
pub struct AuthorizedUser {
    pub id: i32,
    pub email: String,
    pub password: String,
    pub token_id: i32,
}

/// A stored password-generation parameter record, owned by one user.
pub struct Password {
    pub id: i32,
    pub user_id: i32,
    pub login: String,
    pub site: String,
    pub uppercase: bool,
    pub symbols: bool,
    pub lowercase: bool,
    pub numbers: bool,
    pub counter: i32,
    pub version: i32,
    pub length: i32,
    pub created: i64,
    pub modified: i64,
}

/// The client-supplied fields of a password-generation parameter record.
pub struct NewPassword {
    pub login: String,
    pub site: String,
    pub uppercase: bool,
    pub symbols: bool,
    pub lowercase: bool,
    pub numbers: bool,
    pub counter: i32,
    pub version: i32,
    pub length: i32,
}

impl Clone for User {
    fn clone(&self) -> (res: Self)
        ensures
            res == *self,
    {
        User { id: self.id, email: self.email.clone(), password: self.password.clone() }
    }
}

impl Clone for DBToken {
    fn clone(&self) -> (res: Self)
        ensures
            res == *self,
    {
        DBToken {
            id: self.id,
            user_id: self.user_id,
            access_token: self.access_token.clone(),
            refresh_token: self.refresh_token.clone(),
            created: self.created,
            modified: self.modified,
        }
    }
}

impl Clone for AuthorizedUser {
    fn clone(&self) -> (res: Self)
        ensures
            res == *self,
    {
        AuthorizedUser {
            id: self.id,
            email: self.email.clone(),
            password: self.password.clone(),
            token_id: self.token_id,
        }
    }
}

impl Clone for Password {
    fn clone(&self) -> (res: Self)
        ensures
            res == *self,
    {
        let res = Password {
            id: self.id,
            user_id: self.user_id,
            login: self.login.clone(),
            site: self.site.clone(),
            uppercase: self.uppercase,
            symbols: self.symbols,
            lowercase: self.lowercase,
            numbers: self.numbers,
            counter: self.counter,
            version: self.version,
            length: self.length,
            created: self.created,
            modified: self.modified,
        };
        res
    }
}

impl Clone for NewPassword {
    fn clone(&self) -> (res: Self)
        ensures
            res == *self,
    {
        NewPassword {
            login: self.login.clone(),
            site: self.site.clone(),
            uppercase: self.uppercase,
            symbols: self.symbols,
            lowercase: self.lowercase,
            numbers: self.numbers,
            counter: self.counter,
            version: self.version,
            length: self.length,
        }
    }
}

/// Clients of older protocol revisions send the digit flag under the key
/// `numbers`; newer ones send `digits`, and some send both. `digits` wins
/// where both are present; a payload with neither is rejected as missing
/// the field.
pub fn digits_or_numbers(digits: Option<bool>, numbers: Option<bool>) -> (r: Option<bool>)
    ensures
        digits matches Some(d) ==> r == Some(d),
        digits is None ==> r == numbers,
{
    match digits {
        Some(d) => Some(d),
        None => numbers,
    }
}

/// The algorithm revision assumed when a payload does not name one.
pub fn default_version() -> (r: i32)
    ensures
        r == 2,
{
    2
}

} // verus!
