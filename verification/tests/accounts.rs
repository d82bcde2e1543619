use catalog_core::auth::{
    get_user_by_name, incoming_user_resp, login, login_verdict, process_signup, store_user,
    LoginUser2, NewUserForm,
};
use catalog_core::catalog::Catalog;
use catalog_core::errors::{Clash, Denial, Error, Field, Missing};
use catalog_core::requests::get_request_user;

fn signup(name: &str, password: &str) -> NewUserForm {
    NewUserForm {
        token: Some(String::from("111")),
        first_name: Some(String::from("Ann")),
        last_name: Some(String::from("Lee")),
        username: Some(String::from(name)),
        email: Some(format!("{}@example.org", name)),
        password: Some(String::from(password)),
    }
}

fn sign_in(name: &str, password: &str) -> LoginUser2 {
    LoginUser2 { username: Some(String::from(name)), password: Some(String::from(password)) }
}

#[test]
fn signup_stores_a_hash_that_the_password_opens() {
    let mut catalog = Catalog::new();
    let id = process_signup(&mut catalog, 0, &signup("ann", "correct horse")).unwrap();
    assert_eq!(id, 1);
    let user = &catalog.users[0];
    assert_eq!(user.username, "ann");
    assert_eq!(user.first_name, "Ann");
    assert_eq!(user.last_name, "Lee");
    assert_eq!(user.email, "ann@example.org");
    assert_eq!(user.perm, 1);
    assert_ne!(user.password, "correct horse");
    assert!(user.password.starts_with("$2"));
    assert_eq!(login(&catalog, 0, &sign_in("ann", "correct horse")), Ok(1));
    assert_eq!(
        login(&catalog, 0, &sign_in("ann", "correct horses")),
        Err(Error::PermissionDenied(Denial::WrongPassword))
    );
}

#[test]
fn login_checks_the_request_in_order() {
    let mut catalog = Catalog::new();
    process_signup(&mut catalog, 0, &signup("ann", "pw")).unwrap();
    assert_eq!(
        login(&catalog, 3, &sign_in("ann", "pw")),
        Err(Error::PermissionDenied(Denial::Forbidden))
    );
    assert_eq!(
        login(&catalog, 0, &LoginUser2 { username: None, password: None }),
        Err(Error::ValidationFailed(Field::Username))
    );
    assert_eq!(login(&catalog, 0, &sign_in("bob", "pw")), Err(Error::NotFound(Missing::User)));
    assert_eq!(
        login(&catalog, 0, &LoginUser2 { username: Some(String::from("ann")), password: None }),
        Err(Error::ValidationFailed(Field::Password))
    );
}

#[test]
fn login_turns_away_where_the_stored_hash_cannot_be_read() {
    let mut catalog = Catalog::new();
    process_signup(&mut catalog, 0, &signup("ann", "pw")).unwrap();
    catalog.users[0].password = String::from("pw");
    assert_eq!(
        login(&catalog, 0, &sign_in("ann", "pw")),
        Err(Error::PermissionDenied(Denial::WrongPassword))
    );
}

#[test]
fn login_verdict_lets_in_on_a_match_only() {
    assert_eq!(login_verdict(7, Some(true)), Ok(7));
    assert_eq!(login_verdict(7, Some(false)), Err(Error::PermissionDenied(Denial::WrongPassword)));
    assert_eq!(login_verdict(7, None), Err(Error::PermissionDenied(Denial::WrongPassword)));
}

#[test]
fn signup_checks_the_form_in_order() {
    let mut catalog = Catalog::new();
    let mut form = signup("ann", "pw");
    form.token = None;
    assert_eq!(process_signup(&mut catalog, 0, &form), Err(Error::PermissionDenied(Denial::Forbidden)));
    form.token = Some(String::from("000"));
    assert_eq!(process_signup(&mut catalog, 0, &form), Err(Error::PermissionDenied(Denial::Forbidden)));
    assert_eq!(
        process_signup(&mut catalog, 2, &signup("ann", "pw")),
        Err(Error::PermissionDenied(Denial::Forbidden))
    );
    let mut form = signup("ann", "pw");
    form.username = None;
    form.email = None;
    assert_eq!(process_signup(&mut catalog, 0, &form), Err(Error::ValidationFailed(Field::Username)));
    form.username = Some(String::from("ann"));
    assert_eq!(process_signup(&mut catalog, 0, &form), Err(Error::ValidationFailed(Field::Email)));
    form.email = Some(String::from("a@b"));
    form.password = None;
    assert_eq!(process_signup(&mut catalog, 0, &form), Err(Error::ValidationFailed(Field::Password)));
    form.password = Some(String::from("pw"));
    form.first_name = None;
    assert_eq!(process_signup(&mut catalog, 0, &form), Err(Error::ValidationFailed(Field::FirstName)));
    form.first_name = Some(String::new());
    form.last_name = None;
    assert_eq!(process_signup(&mut catalog, 0, &form), Err(Error::ValidationFailed(Field::LastName)));
    assert!(catalog.users.is_empty());
}

#[test]
fn account_is_not_stored_without_a_hash() {
    let mut catalog = Catalog::new();
    assert_eq!(
        store_user(&mut catalog, 1, &signup("ann", "pw"), None),
        Err(Error::Conflict(Clash::HashFailed))
    );
    assert!(catalog.users.is_empty());
    assert_eq!(store_user(&mut catalog, 1, &signup("ann", "pw"), Some(String::from("h"))), Ok(1));
    assert_eq!(catalog.users[0].password, "h");
}

#[test]
fn accounts_are_found_by_name() {
    let mut catalog = Catalog::new();
    process_signup(&mut catalog, 0, &signup("ann", "pw")).unwrap();
    process_signup(&mut catalog, 0, &signup("bob", "pw")).unwrap();
    assert_eq!(get_user_by_name(&catalog.users, &String::from("bob")), Some(1));
    assert_eq!(get_user_by_name(&catalog.users, &String::from("Bob")), None);
}

#[test]
fn answer_to_a_signed_in_user_carries_the_token() {
    let mut catalog = Catalog::new();
    process_signup(&mut catalog, 0, &signup("ann", "pw")).unwrap();
    let resp = incoming_user_resp(&catalog, 1, String::from("tok"), true).unwrap();
    assert_eq!(resp.token, "tok");
    assert_eq!(resp.username, "ann");
    assert_eq!(resp.perm, 1);
    assert!(resp.device);
    assert_eq!(resp.image, None);
    assert_eq!(incoming_user_resp(&catalog, 9, String::new(), true).err(), Some(Error::NotFound(Missing::User)));
}

#[test]
fn request_user_is_nobody_for_partial_answers() {
    let mut catalog = Catalog::new();
    process_signup(&mut catalog, 0, &signup("ann", "pw")).unwrap();
    catalog.users[0].image = Some(String::from("/media/ann.png"));
    let full = get_request_user(&catalog, 1, 0, false).unwrap();
    assert_eq!(full.id, 1);
    assert_eq!(full.username, "ann");
    assert_eq!(full.image, "/media/ann.png");
    assert_eq!(full.perm, 1);
    assert!(!full.device);
    let partial = get_request_user(&catalog, 1, 2, false).unwrap();
    assert_eq!(partial.id, 0);
    assert_eq!(partial.username, "");
    assert!(partial.device);
    let nobody = get_request_user(&catalog, 0, 0, true).unwrap();
    assert_eq!(nobody.id, 0);
    assert_eq!(nobody.perm, 0);
    assert!(nobody.device);
    assert_eq!(get_request_user(&catalog, 5, 0, true).err(), Some(Error::NotFound(Missing::User)));
}
