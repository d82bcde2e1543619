//! Signing up and signing in.

use vstd::prelude::*;
use crate::catalog::{
    Catalog, Keyed, Table, same_beside, fresh_id, locate, max_key, place_of, has_none_with,
};
use crate::errors::{Error, Missing, Denial, Field, Clash};
use crate::items::{token_ok, token_text};
use crate::models::User;
use crate::requests::{MenuCats, get_categories_2, menu_is};

verus! {

/// `bcrypt::BcryptError`, the error of the bcrypt crate, carried through
/// unread.
#[verifier::external_type_specification]
#[verifier::external_body]
pub struct ExBcryptError(bcrypt::BcryptError);

/// What `bcrypt::verify` finds for a password and a stored hash: whether
/// they match, or nothing where the hash cannot be read.
pub uninterp spec fn password_check(password: Seq<char>, hash: Seq<char>) -> Option<bool>;

/// `bcrypt::verify`: splits the stored hash into version, cost and salt,
/// hashes the password with them and compares. The answer depends on the
/// two texts alone; a hash that cannot be read gives an error.
#[verifier::external_body]
fn bcrypt_verify(password: &str, hash: &str) -> (result: Result<bool, bcrypt::BcryptError>)
    ensures
        match result {
            Ok(same) => password_check(password@, hash@) == Some(same),
            Err(_) => password_check(password@, hash@) is None,
        },
{
    bcrypt::verify(password, hash)
}

/// `bcrypt::hash`: hashes the password at the given cost with a salt drawn
/// from the system's randomness, so that no two calls need agree. What it
/// returns on success is a hash that `bcrypt::verify` accepts for the same
/// password. It fails where the cost is outside four to thirty-one or the
/// system gives no randomness.
#[verifier::external_body]
fn bcrypt_hash(password: &str, cost: u32) -> (result: Result<String, bcrypt::BcryptError>)
    ensures
        result matches Ok(hash) ==> password_check(password@, hash@) == Some(true),
{
    bcrypt::hash(password, cost)
}

/// The cost at which passwords are hashed.
pub const HASH_COST: u32 = 8;

/// The request to sign in.
pub struct LoginUser2 {
    pub username: Option<String>,
    pub password: Option<String>,
}

/// The request to sign up.
pub struct NewUserForm {
    pub token: Option<String>,
    pub first_name: Option<String>,
    pub last_name: Option<String>,
    pub username: Option<String>,
    pub email: Option<String>,
    pub password: Option<String>,
}

/// The answer to a user who has signed in or up.
pub struct IncommingUserResp {
    pub token: String,
    pub username: String,
    pub image: Option<String>,
    pub perm: i16,
    pub device: bool,
    pub categories: MenuCats,
}

/// Row `at` is the first account with the user name.
pub open spec fn is_first_named(users: Seq<User>, name: Seq<char>, at: int) -> bool {
    &&& 0 <= at < users.len()
    &&& users[at].username@ == name
    &&& forall|j: int| 0 <= j < at ==> (#[trigger] users[j]).username@ != name
}

/// No account has the user name.
pub open spec fn nobody_named(users: Seq<User>, name: Seq<char>) -> bool {
    forall|j: int| 0 <= j < users.len() ==> (#[trigger] users[j]).username@ != name
}

/// The place of the first account with the user name.
pub open spec fn place_named(users: Seq<User>, name: Seq<char>) -> int {
    choose|at: int| is_first_named(users, name, at)
}

/// Finds the first account with the user name.
pub fn get_user_by_name(users: &Vec<User>, name: &String) -> (found: Option<usize>)
    ensures
        match found {
            Some(at) => is_first_named(users@, name@, at as int) && place_named(users@, name@)
                == at && !nobody_named(users@, name@),
            None => nobody_named(users@, name@),
        },
{
    let mut i: usize = 0;
    while i < users.len()
        invariant
            i <= users.len(),
            forall|j: int| 0 <= j < i ==> (#[trigger] users@[j]).username@ != name@,
        decreases users.len() - i,
    {
        if users[i].username == *name {
            proof {
                assert(is_first_named(users@, name@, i as int));
                let k = place_named(users@, name@);
                assert(is_first_named(users@, name@, k));
                if k < i {
                    assert(users@[k].username@ != name@);
                } else if i < k {
                    assert(users@[i as int].username@ != name@);
                }
            }
            return Some(i);
        }
        i += 1;
    }
    None
}

/// What the outcome of the password check means for a sign-in: the user is
/// let in where the password matches the stored hash, and turned away
/// where it does not or the stored hash cannot be read.
pub fn login_verdict(user_id: i32, check: Option<bool>) -> (result: Result<i32, Error>)
    ensures
        result == if check == Some(true) {
            Ok::<i32, Error>(user_id)
        } else {
            Err::<i32, Error>(Error::PermissionDenied(Denial::WrongPassword))
        },
{
    match check {
        Some(true) => Ok(user_id),
        _ => Err(Error::PermissionDenied(Denial::WrongPassword)),
    }
}

/// Why a sign-in is turned away before the password is checked, if it is.
pub open spec fn login_error(c: Catalog, request_user_id: i32, data: LoginUser2) -> Option<Error> {
    if request_user_id != 0 {
        Some(Error::PermissionDenied(Denial::Forbidden))
    } else if data.username is None {
        Some(Error::ValidationFailed(Field::Username))
    } else if nobody_named(c.users@, data.username->0@) {
        Some(Error::NotFound(Missing::User))
    } else if data.password is None {
        Some(Error::ValidationFailed(Field::Password))
    } else {
        None
    }
}

/// Signs a user in: a request that is not yet signed in names an account
/// and presents its password. Returns the id of the account, for which the
/// caller issues a token.
pub fn login(
    catalog: &Catalog,
    request_user_id: i32,
    data: &LoginUser2,
) -> (result: Result<i32, Error>)
    ensures
        match login_error(*catalog, request_user_id, *data) {
            Some(e) => result == Err::<i32, Error>(e),
            None => {
                let user = catalog.users@[place_named(catalog.users@, data.username->0@)];
                if password_check(data.password->0@, user.password@) == Some(true) {
                    result == Ok::<i32, Error>(user.id)
                } else {
                    result == Err::<i32, Error>(Error::PermissionDenied(Denial::WrongPassword))
                }
            },
        },
{
    if request_user_id != 0 {
        return Err(Error::PermissionDenied(Denial::Forbidden));
    }
    let name: &String = match &data.username {
        Some(name) => name,
        None => {
            return Err(Error::ValidationFailed(Field::Username));
        },
    };
    let at: usize = match get_user_by_name(&catalog.users, name) {
        Some(at) => at,
        None => {
            return Err(Error::NotFound(Missing::User));
        },
    };
    let password: &String = match &data.password {
        Some(password) => password,
        None => {
            return Err(Error::ValidationFailed(Field::Password));
        },
    };
    let check: Option<bool> = match bcrypt_verify(
        password.as_str(),
        catalog.users[at].password.as_str(),
    ) {
        Ok(same) => Some(same),
        Err(_) => None,
    };
    login_verdict(catalog.users[at].id, check)
}

/// Why a sign-up is turned away before the password is hashed, if it is.
pub open spec fn signup_error(
    c: Catalog,
    request_user_id: i32,
    data: NewUserForm,
) -> Option<Error> {
    if data.token is None || data.token->0@ != token_text() || request_user_id != 0 {
        Some(Error::PermissionDenied(Denial::Forbidden))
    } else if data.username is None {
        Some(Error::ValidationFailed(Field::Username))
    } else if data.email is None {
        Some(Error::ValidationFailed(Field::Email))
    } else if data.password is None {
        Some(Error::ValidationFailed(Field::Password))
    } else if data.first_name is None {
        Some(Error::ValidationFailed(Field::FirstName))
    } else if data.last_name is None {
        Some(Error::ValidationFailed(Field::LastName))
    } else if max_key(c.users@) == i32::MAX {
        Some(Error::Conflict(Clash::KeysExhausted))
    } else {
        None
    }
}

/// The account that a sign-up creates, apart from the hash of its password.
pub open spec fn signed_up(user: User, id: i32, data: NewUserForm) -> bool {
    &&& user.id == id
    &&& user.first_name == data.first_name->0
    &&& user.last_name == data.last_name->0
    &&& user.username == data.username->0
    &&& user.email == data.email->0
    &&& user.bio is None
    &&& user.image is None
    &&& user.perm == 1
    &&& user.view == 0
    &&& user.seconds == 0
}

/// Stores the account of a sign-up whose password has been hashed, or
/// reports that it could not be hashed.
pub fn store_user(catalog: &mut Catalog, id: i32, data: &NewUserForm, hashed: Option<String>) -> (result:
    Result<i32, Error>)
    requires
        data.first_name is Some,
        data.last_name is Some,
        data.username is Some,
        data.email is Some,
    ensures
        match hashed {
            Some(hash) => {
                &&& result == Ok::<i32, Error>(id)
                &&& final(catalog).users@.len() == old(catalog).users@.len() + 1
                &&& final(catalog).users@.drop_last() == old(catalog).users@
                &&& signed_up(final(catalog).users@.last(), id, *data)
                &&& final(catalog).users@.last().password == hash
                &&& same_beside(*old(catalog), *final(catalog), set![Table::Users])
            },
            None => result == Err::<i32, Error>(Error::Conflict(Clash::HashFailed)) && *final(catalog) == *old(catalog),
        },
{
    let hash: String = match hashed {
        Some(hash) => hash,
        None => {
            return Err(Error::Conflict(Clash::HashFailed));
        },
    };
    let first_name: String = match &data.first_name {
        Some(s) => s.clone(),
        None => String::new(),
    };
    let last_name: String = match &data.last_name {
        Some(s) => s.clone(),
        None => String::new(),
    };
    let username: String = match &data.username {
        Some(s) => s.clone(),
        None => String::new(),
    };
    let email: String = match &data.email {
        Some(s) => s.clone(),
        None => String::new(),
    };
    catalog.users.push(
        User {
            id,
            first_name,
            last_name,
            username,
            email,
            password: hash,
            bio: None,
            image: None,
            perm: 1,
            view: 0,
            seconds: 0,
        },
    );
    assert(catalog.users@.drop_last() =~= old(catalog).users@);
    Ok(id)
}

/// Signs a user up: a request that is not yet signed in presents the form
/// token, a user name, an address and a password. The account is stored
/// with the hash of the password, so that the same password signs in.
/// Returns the id of the account, for which the caller issues a token.
pub fn process_signup(catalog: &mut Catalog, request_user_id: i32, data: &NewUserForm) -> (result:
    Result<i32, Error>)
    ensures
        match signup_error(*old(catalog), request_user_id, *data) {
            Some(e) => result == Err::<i32, Error>(e) && *final(catalog) == *old(catalog),
            None => match result {
                Ok(id) => {
                    &&& id == max_key(old(catalog).users@) + 1
                    &&& final(catalog).users@.len() == old(catalog).users@.len() + 1
                    &&& final(catalog).users@.drop_last() == old(catalog).users@
                    &&& signed_up(final(catalog).users@.last(), id, *data)
                    &&& password_check(data.password->0@, final(catalog).users@.last().password@)
                        == Some(true)
                    &&& same_beside(*old(catalog), *final(catalog), set![Table::Users])
                },
                Err(e) => e == Error::Conflict(Clash::HashFailed) && *final(catalog) == *old(catalog),
            },
        },
{
    match &data.token {
        Some(token) => {
            if !token_ok(token.as_str()) || request_user_id != 0 {
                return Err(Error::PermissionDenied(Denial::Forbidden));
            }
        },
        None => {
            return Err(Error::PermissionDenied(Denial::Forbidden));
        },
    }
    if data.username.is_none() {
        return Err(Error::ValidationFailed(Field::Username));
    }
    if data.email.is_none() {
        return Err(Error::ValidationFailed(Field::Email));
    }
    let password: &String = match &data.password {
        Some(password) => password,
        None => {
            return Err(Error::ValidationFailed(Field::Password));
        },
    };
    if data.first_name.is_none() {
        return Err(Error::ValidationFailed(Field::FirstName));
    }
    if data.last_name.is_none() {
        return Err(Error::ValidationFailed(Field::LastName));
    }
    let id: i32 = match fresh_id(&catalog.users) {
        Some(id) => id,
        None => {
            return Err(Error::Conflict(Clash::KeysExhausted));
        },
    };
    let hashed: Option<String> = match bcrypt_hash(password.as_str(), HASH_COST) {
        Ok(hash) => Some(hash),
        Err(_) => None,
    };
    store_user(catalog, id, data, hashed)
}

/// Builds the answer to a user who has signed in or up: the token that the
/// caller issued, the account's name, image and permission level, and the
/// menus.
pub fn incoming_user_resp(catalog: &Catalog, user_id: i32, token: String, desktop: bool) -> (result:
    Result<IncommingUserResp, Error>)
    ensures
        match result {
            Ok(resp) => {
                let user = catalog.users@[place_of(catalog.users@, user_id)];
                &&& !has_none_with(catalog.users@, user_id)
                &&& resp.token == token
                &&& resp.username == user.username
                &&& resp.image == user.image
                &&& resp.perm == user.perm
                &&& resp.device == desktop
                &&& menu_is(resp.categories, catalog.categories@, 0)
            },
            Err(e) => e == Error::NotFound(Missing::User) && has_none_with(catalog.users@, user_id),
        },
{
    match locate(&catalog.users, user_id) {
        Some(at) => Ok(
            IncommingUserResp {
                token,
                username: catalog.users[at].username.clone(),
                image: catalog.users[at].image.clone(),
                perm: catalog.users[at].perm,
                device: desktop,
                categories: get_categories_2(catalog, 0),
            },
        ),
        None => Err(Error::NotFound(Missing::User)),
    }
}

} // verus!
