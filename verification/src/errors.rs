//! The failures that operations report, and their messages.

use vstd::prelude::*;
use vstd::string::StringExecFns;

verus! {

/// The thing a request referred to that the catalog does not hold.
#[derive(Clone, Copy, Debug, PartialEq, Eq, Structural)]
pub enum Missing {
    Item,
    Category,
    Tag,
    Serve,
    ServeCategory,
    TechCategory,
    File,
    Order,
    User,
    Visitor,
    StatPage,
}

/// Why an actor was turned away.
#[derive(Clone, Copy, Debug, PartialEq, Eq, Structural)]
pub enum Denial {
    /// The actor is anonymous, presented a wrong form token, or is neither the
    /// owner nor an administrator.
    Forbidden,
    /// The request carries no authenticated user.
    NotAuthenticated,
    /// The password does not match the stored hash.
    WrongPassword,
    /// No customer record stands behind the visitor's cookie.
    UnknownCustomer,
}

/// The request field that is absent or malformed.
#[derive(Clone, Copy, Debug, PartialEq, Eq, Structural)]
pub enum Field {
    Params,
    Id,
    UserId,
    Slug,
    SlugEmpty,
    CatSlug,
    CatSlugEmpty,
    Level,
    Types,
    Query,
    Username,
    Email,
    Password,
    Message,
    Number,
    FirstName,
    LastName,
}

/// A state the catalog cannot move into.
#[derive(Clone, Copy, Debug, PartialEq, Eq, Structural)]
pub enum Clash {
    /// The table's key space is used up.
    KeysExhausted,
    /// A counter or a price would leave the range of its column.
    OutOfRange,
    /// The password could not be hashed.
    HashFailed,
}

/// Every failure a catalog operation can report. None of them is fatal, and a
/// failed operation leaves the catalog as it was.
#[derive(Clone, Copy, Debug, PartialEq, Eq, Structural)]
pub enum Error {
    NotFound(Missing),
    PermissionDenied(Denial),
    ValidationFailed(Field),
    Conflict(Clash),
}

impl Error {
    /// The text that is shown to the caller for this failure.
    pub open spec fn message_text(self) -> Seq<char> {
        match self {
            Error::NotFound(Missing::User) => "Пользователь с таким логином не найден"@,
            Error::NotFound(Missing::Visitor) => "Информация о заказчике не найдена"@,
            Error::NotFound(_) => "object not found!"@,
            Error::PermissionDenied(Denial::Forbidden) => "Permission Denied"@,
            Error::PermissionDenied(Denial::NotAuthenticated) => "request user not authenticate!"@,
            Error::PermissionDenied(Denial::WrongPassword) => "Пароль неверный!"@,
            Error::PermissionDenied(Denial::UnknownCustomer) => "Информация о заказчике не найдена"@,
            Error::ValidationFailed(Field::Params) => "parametrs not found!"@,
            Error::ValidationFailed(Field::Id) => "parametr 'id' not found!"@,
            Error::ValidationFailed(Field::UserId) => "parametr 'user_id' not found!"@,
            Error::ValidationFailed(Field::Slug) => "parametr 'slug' not found!"@,
            Error::ValidationFailed(Field::SlugEmpty) => "parametr 'slug' is empty!"@,
            Error::ValidationFailed(Field::CatSlug) => "parametr 'cat_slug' not found!"@,
            Error::ValidationFailed(Field::CatSlugEmpty) => "parametr 'cat_slug' is empty!"@,
            Error::ValidationFailed(Field::Level) => "parametr 'level' not found!"@,
            Error::ValidationFailed(Field::Types) => "parametr 'types' not found!"@,
            Error::ValidationFailed(Field::Query) => "parametr 'q' not found!"@,
            Error::ValidationFailed(Field::Username) => "Field 'username' is required!"@,
            Error::ValidationFailed(Field::Email) => "Field 'email' is required!"@,
            Error::ValidationFailed(Field::Password) => "Field 'password' is required!"@,
            Error::ValidationFailed(Field::Message) => "Permission Denied"@,
            Error::ValidationFailed(Field::Number) => "field is not a number!"@,
            Error::ValidationFailed(Field::FirstName) => "Field 'first_name' is required!"@,
            Error::ValidationFailed(Field::LastName) => "Field 'last_name' is required!"@,
            Error::Conflict(Clash::KeysExhausted) => "no free id left!"@,
            Error::Conflict(Clash::OutOfRange) => "value out of range!"@,
            Error::Conflict(Clash::HashFailed) => "password could not be hashed!"@,
        }
    }

    /// Renders the failure as the message string of an error payload.
    pub fn message(&self) -> (text: String)
        ensures
            text@ == self.message_text(),
    {
        let text: &str = match self {
            Error::NotFound(Missing::User) => "Пользователь с таким логином не найден",
            Error::NotFound(Missing::Visitor) => "Информация о заказчике не найдена",
            Error::NotFound(_) => "object not found!",
            Error::PermissionDenied(Denial::Forbidden) => "Permission Denied",
            Error::PermissionDenied(Denial::NotAuthenticated) => "request user not authenticate!",
            Error::PermissionDenied(Denial::WrongPassword) => "Пароль неверный!",
            Error::PermissionDenied(Denial::UnknownCustomer) => "Информация о заказчике не найдена",
            Error::ValidationFailed(Field::Params) => "parametrs not found!",
            Error::ValidationFailed(Field::Id) => "parametr 'id' not found!",
            Error::ValidationFailed(Field::UserId) => "parametr 'user_id' not found!",
            Error::ValidationFailed(Field::Slug) => "parametr 'slug' not found!",
            Error::ValidationFailed(Field::SlugEmpty) => "parametr 'slug' is empty!",
            Error::ValidationFailed(Field::CatSlug) => "parametr 'cat_slug' not found!",
            Error::ValidationFailed(Field::CatSlugEmpty) => "parametr 'cat_slug' is empty!",
            Error::ValidationFailed(Field::Level) => "parametr 'level' not found!",
            Error::ValidationFailed(Field::Types) => "parametr 'types' not found!",
            Error::ValidationFailed(Field::Query) => "parametr 'q' not found!",
            Error::ValidationFailed(Field::Username) => "Field 'username' is required!",
            Error::ValidationFailed(Field::Email) => "Field 'email' is required!",
            Error::ValidationFailed(Field::Password) => "Field 'password' is required!",
            Error::ValidationFailed(Field::Message) => "Permission Denied",
            Error::ValidationFailed(Field::Number) => "field is not a number!",
            Error::ValidationFailed(Field::FirstName) => "Field 'first_name' is required!",
            Error::ValidationFailed(Field::LastName) => "Field 'last_name' is required!",
            Error::Conflict(Clash::KeysExhausted) => "no free id left!",
            Error::Conflict(Clash::OutOfRange) => "value out of range!",
            Error::Conflict(Clash::HashFailed) => "password could not be hashed!",
        };
        String::from_str(text)
    }
}

} // verus!
