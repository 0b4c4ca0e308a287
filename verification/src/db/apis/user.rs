//! Passwords and the rows of a user on their way into the store.

use vstd::prelude::*;
use vstd::utf8::encode_utf8;

use crate::db::types::user::{User, UserView};
use crate::res::Error;

verus! {

/// The salt that every password is hashed with.
pub open spec fn spec_salt() -> Seq<u8> {
    seq![101u8, 116, 101, 114, 110, 97, 108, 110, 105, 103, 104, 116]
}

/// The memory that a password hash costs, in kibibytes.
pub const HASH_MEM_COST: u32 = 1024;

/// The passes that a password hash costs.
pub const HASH_TIME_COST: u32 = 2;

/// The lanes of a password hash.
pub const HASH_LANES: u32 = 16;

/// The length of a password hash, in bytes.
pub const HASH_LENGTH: u32 = 16;

/// The most memory, in kibibytes, and the longest hash, in bytes, that
/// this library asks the hashing crate for.
pub const HASH_LIMIT: u32 = 0x10_0000;

/// The encoded Argon2i hash of `passwd` with `salt`, as
/// `argon2::hash_encoded` gives it for version 0x13 with the given
/// memory cost, time cost, lanes and hash length, no secret and no
/// associated data; or the message of the error that it gives.
pub uninterp spec fn argon2i_encoded(
    passwd: Seq<u8>,
    salt: Seq<u8>,
    mem_cost: u32,
    time_cost: u32,
    lanes: u32,
    hash_length: u32,
) -> Result<Seq<char>, Seq<char>>;

/// The hash of a password as this application stores it: Argon2i with
/// the fixed salt and the fixed costs.
pub open spec fn spec_password_hash(passwd: Seq<u8>) -> Result<Seq<char>, Seq<char>> {
    argon2i_encoded(passwd, spec_salt(), HASH_MEM_COST, HASH_TIME_COST, HASH_LANES, HASH_LENGTH)
}

/// What `argon2::verify_encoded` says of `passwd` against the encoded
/// hash `encoded`: whether they match, or the message of the error that
/// it gives.
pub uninterp spec fn argon2_verified(encoded: Seq<char>, passwd: Seq<u8>) -> Result<
    bool,
    Seq<char>,
>;

/// `argon2::hash_encoded` for Argon2i in version 0x13, with no secret
/// and no associated data. The result is the named hash under the given
/// costs; an error comes back as its message. The memory and the hash
/// length are kept within a limit, so that what the hashing crate
/// allocates can be had.
#[verifier::external_body]
fn hash_encoded(
    passwd: &[u8],
    salt: &[u8],
    mem_cost: u32,
    time_cost: u32,
    lanes: u32,
    hash_length: u32,
) -> (r: Result<String, String>)
    requires
        mem_cost <= HASH_LIMIT,
        hash_length <= HASH_LIMIT,
    ensures
        match r {
            Ok(hash) => argon2i_encoded(passwd@, salt@, mem_cost, time_cost, lanes, hash_length)
                == Ok::<Seq<char>, Seq<char>>(hash@),
            Err(e) => argon2i_encoded(passwd@, salt@, mem_cost, time_cost, lanes, hash_length)
                == Err::<Seq<char>, Seq<char>>(e@),
        },
{
    let config = argon2::Config {
        variant: argon2::Variant::Argon2i,
        version: argon2::Version::Version13,
        mem_cost,
        time_cost,
        lanes,
        secret: &[],
        ad: &[],
        hash_length,
    };
    match argon2::hash_encoded(passwd, salt, &config) {
        Ok(hash) => Ok(hash),
        Err(e) => Err(e.to_string()),
    }
}

/// `argon2::verify_encoded`. The result is the named verdict on the
/// encoded hash and the password; an error comes back as its message.
#[verifier::external_body]
fn verify_encoded(encoded: &str, passwd: &[u8]) -> (r: Result<bool, String>)
    ensures
        match r {
            Ok(ok) => argon2_verified(encoded@, passwd@) == Ok::<bool, Seq<char>>(ok),
            Err(e) => argon2_verified(encoded@, passwd@) == Err::<bool, Seq<char>>(e@),
        },
{
    match argon2::verify_encoded(encoded, passwd) {
        Ok(ok) => Ok(ok),
        Err(e) => Err(e.to_string()),
    }
}

/// The salt that every password is hashed with: `eternalnight`.
pub fn salt() -> (s: Vec<u8>)
    ensures
        s@ == spec_salt(),
{
    let s = vec![101u8, 116, 101, 114, 110, 97, 108, 110, 105, 103, 104, 116];
    s
}

/// Hashes a password for the store: Argon2i with the fixed salt, a
/// memory cost of 1024, a time cost of 2, 16 lanes and a hash of 16
/// bytes.
pub fn create_password_hash(passwd: &[u8]) -> (r: Result<String, Error>)
    ensures
        match r {
            Ok(hash) => argon2i_encoded(passwd@, spec_salt(), 1024, 2, 16, 16) == Ok::<
                Seq<char>,
                Seq<char>,
            >(hash@),
            Err(Error::Argon2(e)) => argon2i_encoded(passwd@, spec_salt(), 1024, 2, 16, 16)
                == Err::<Seq<char>, Seq<char>>(e@),
            Err(_) => false,
        },
{
    let salt = salt();
    match hash_encoded(
        passwd,
        salt.as_slice(),
        HASH_MEM_COST,
        HASH_TIME_COST,
        HASH_LANES,
        HASH_LENGTH,
    ) {
        Ok(hash) => Ok(hash),
        Err(e) => Err(Error::Argon2(e)),
    }
}

/// Checks a password against the encoded hash that the store holds.
pub fn verify_password(encoded: &str, passwd: &str) -> (r: Result<bool, Error>)
    ensures
        match r {
            Ok(ok) => argon2_verified(encoded@, encode_utf8(passwd@)) == Ok::<bool, Seq<char>>(ok),
            Err(Error::Argon2(e)) => argon2_verified(encoded@, encode_utf8(passwd@)) == Err::<
                bool,
                Seq<char>,
            >(e@),
            Err(_) => false,
        },
{
    match verify_encoded(encoded, passwd.as_bytes()) {
        Ok(ok) => Ok(ok),
        Err(e) => Err(Error::Argon2(e)),
    }
}

/// How an account goes into the store.
#[derive(Debug)]
pub enum UserUpdate {
    /// Without a new password: the stored name and password stay.
    Profile(User),
    /// With a new password, hashed. The name goes in as well.
    WithPassword(User),
}

/// Decides how an account goes into the store, from the hash of its
/// password. An account with an empty password keeps the stored one. Any
/// other password goes in as its hash, and where hashing failed nothing
/// goes in.
pub fn user_update_from(user: User, hashed: Result<String, Error>) -> (r: Result<
    UserUpdate,
    Error,
>)
    ensures
        user@.keeps_password() ==> (r matches Ok(UserUpdate::Profile(u)) && u@ == user@),
        !user@.keeps_password() ==> (match hashed {
            Ok(hash) => r matches Ok(UserUpdate::WithPassword(u)) && u@ == (UserView {
                password: hash@,
                ..user@
            }),
            Err(e) => r == Err::<UserUpdate, Error>(e),
        }),
{
    if user.password.as_str().is_empty() {
        Ok(UserUpdate::Profile(user))
    } else {
        match hashed {
            Ok(hash) => {
                let mut user = user;
                user.password = hash;
                Ok(UserUpdate::WithPassword(user))
            },
            Err(e) => Err(e),
        }
    }
}

/// Decides how an account goes into the store: an empty password keeps
/// the stored one, any other is hashed first.
pub fn user_update(user: User) -> (r: Result<UserUpdate, Error>)
    ensures
        user@.keeps_password() ==> (r matches Ok(UserUpdate::Profile(u)) && u@ == user@),
        !user@.keeps_password() ==> (match r {
            Ok(UserUpdate::WithPassword(u)) => spec_password_hash(encode_utf8(user@.password))
                == Ok::<Seq<char>, Seq<char>>(u@.password) && u@ == (UserView {
                password: u@.password,
                ..user@
            }),
            Ok(UserUpdate::Profile(_)) => false,
            Err(Error::Argon2(e)) => spec_password_hash(encode_utf8(user@.password)) == Err::<
                Seq<char>,
                Seq<char>,
            >(e@),
            Err(_) => false,
        }),
{
    if user.password.as_str().is_empty() {
        Ok(UserUpdate::Profile(user))
    } else {
        let hashed = create_password_hash(user.password.as_str().as_bytes());
        user_update_from(user, hashed)
    }
}

} // verus!
