use catalog_core::errors::{Clash, Denial, Error, Field, Missing};
use catalog_core::kinds::{is_admin, item_status, kind_name, ItemKind, ItemStatus, SortRule};
use catalog_core::models::{Cat, Categories};
use catalog_core::moments::{created_text, plain_created_text};
use catalog_core::requests::{
    get_categories_2, get_cookie_user_id, get_count_for_ru, get_is_ajax, get_is_ajax_page,
    get_page, is_desctop, IsAjaxData, IsAjaxPageData,
};
use catalog_core::text::{
    contains_ignoring_case, contains_text, count_to_string, parse_i16, parse_i32, str_eq,
};
use catalog_core::catalog::Catalog;

fn ru(count: i16) -> String {
    get_count_for_ru(count, String::from(" статья"), String::from(" статьи"), String::from(" статей"))
}

#[test]
fn numbers_are_parsed_as_the_standard_library_parses_them() {
    for text in ["0", "7", "-7", "+7", "007", "2147483647", "-2147483648", "2147483648", "-2147483649",
        "", "-", "+", " 1", "1 ", "1_000", "12a", "--1", "+-1", "99999999999999999999", "٣"] {
        assert_eq!(parse_i32(text), text.parse::<i32>().ok(), "{:?}", text);
    }
    for text in ["32767", "32768", "-32768", "-32769", "0", "x"] {
        assert_eq!(parse_i16(text), text.parse::<i16>().ok(), "{:?}", text);
    }
}

#[test]
fn numbers_are_written_in_decimal() {
    for n in [0i16, 1, 9, 10, 11, 99, 100, 101, 12345, i16::MAX, -1, -10, -32767, i16::MIN] {
        assert_eq!(count_to_string(n), n.to_string());
    }
}

#[test]
fn word_form_follows_the_number() {
    assert_eq!(ru(1), "1 статья");
    assert_eq!(ru(2), "2 статьи");
    assert_eq!(ru(4), "4 статьи");
    assert_eq!(ru(5), "5 статей");
    assert_eq!(ru(0), "0 статей");
    assert_eq!(ru(11), "11 статей");
    assert_eq!(ru(12), "12 статей");
    assert_eq!(ru(14), "14 статей");
    assert_eq!(ru(21), "21 статья");
    assert_eq!(ru(22), "22 статьи");
    assert_eq!(ru(25), "25 статей");
    assert_eq!(ru(111), "111 статей");
    assert_eq!(ru(112), "112 статей");
    assert_eq!(ru(121), "121 статья");
    assert_eq!(ru(-1), "-1 статей");
    assert_eq!(ru(-2), "-2 статей");
}

#[test]
fn texts_are_compared_and_searched() {
    assert!(str_eq("abc", "abc"));
    assert!(!str_eq("abc", "abd"));
    assert!(!str_eq("abc", "ab"));
    assert!(contains_text("Mozilla Mobile Safari", "Mobile"));
    assert!(!contains_text("Mozilla mobile", "Mobile"));
    assert!(contains_text("abc", ""));
    assert!(contains_text("", ""));
    assert!(!contains_text("", "a"));
    assert!(contains_text("aab", "ab"));
    assert!(!contains_text("ab", "abc"));
}

#[test]
fn search_ignores_letter_case_in_any_alphabet() {
    assert!(contains_ignoring_case("Rust and Verus", "VERUS"));
    assert!(contains_ignoring_case("Статья о Блоге", "блог"));
    assert!(contains_ignoring_case("статья о блоге", "БЛОГ"));
    assert!(!contains_ignoring_case("Статья", "блог"));
}

#[test]
fn times_are_written_as_pages_show_them() {
    assert_eq!(created_text(0), "01-01-1970 в 00:00");
    assert_eq!(created_text(1_700_000_000_000_000), "14-11-2023 в 22:13");
    assert_eq!(created_text(1_700_000_000_999_999), "14-11-2023 в 22:13");
    assert_eq!(created_text(-1), "31-12-1969 в 23:59");
    assert_eq!(plain_created_text(1_700_000_000_000_000), "2023-11-14 22:13:20");
    assert_eq!(plain_created_text(1_700_000_000_250_000), "2023-11-14 22:13:20.250");
    assert_eq!(plain_created_text(1_700_000_000_000_001), "2023-11-14 22:13:20.000001");
    assert_eq!(created_text(i64::MAX), "");
    assert_eq!(plain_created_text(i64::MIN), "");
}

#[test]
fn desktop_is_whatever_is_not_mobile() {
    assert!(is_desctop("Mozilla/5.0 (X11; Linux x86_64)"));
    assert!(!is_desctop("Mozilla/5.0 (iPhone) Mobile/15E148"));
    assert!(is_desctop(""));
}

#[test]
fn visitor_id_is_read_from_the_cookie() {
    assert_eq!(get_cookie_user_id(None), 0);
    assert_eq!(get_cookie_user_id(Some("user=15")), 15);
    assert_eq!(get_cookie_user_id(Some("user=15;theme=dark")), 15);
    assert_eq!(get_cookie_user_id(Some("theme=dark;user=-3")), -3);
    assert_eq!(get_cookie_user_id(Some("theme=dark; user=15")), 0);
    assert_eq!(get_cookie_user_id(Some("theme=dark")), 0);
    assert_eq!(get_cookie_user_id(Some("")), 0);
    assert_eq!(get_cookie_user_id(Some("user")), 0);
    assert_eq!(get_cookie_user_id(Some("user=")), 0);
    assert_eq!(get_cookie_user_id(Some("user=abc")), 0);
    assert_eq!(get_cookie_user_id(Some("user=7=8")), 7);
    assert_eq!(get_cookie_user_id(Some("user=1;user=2")), 1);
    assert_eq!(get_cookie_user_id(Some("users=1;user=2")), 2);
}

#[test]
fn query_defaults_are_page_one_and_the_full_answer() {
    assert_eq!(get_page(None), 1);
    assert_eq!(get_page(Some(&IsAjaxPageData { is_ajax: None, page: None })), 1);
    assert_eq!(get_page(Some(&IsAjaxPageData { is_ajax: None, page: Some(4) })), 4);
    assert_eq!(get_page(Some(&IsAjaxPageData { is_ajax: None, page: Some(-4) })), -4);
    assert_eq!(get_is_ajax(None), 0);
    assert_eq!(get_is_ajax(Some(&IsAjaxData { is_ajax: Some(2) })), 2);
    assert_eq!(get_is_ajax(Some(&IsAjaxData { is_ajax: Some(-2) })), 0);
    assert_eq!(get_is_ajax(Some(&IsAjaxData { is_ajax: None })), 0);
    assert_eq!(get_is_ajax_page(None), (0, 1));
    assert_eq!(get_is_ajax_page(Some(&IsAjaxPageData { is_ajax: Some(-1), page: Some(3) })), (-1, 3));
}

#[test]
fn menus_sort_the_categories_by_kind() {
    let mut catalog = Catalog::new();
    for (id, types) in [(1, 2), (2, 1), (3, 6), (4, 2), (5, 9), (6, 5), (7, 4), (8, 3)] {
        catalog.categories.push(Categories {
            id,
            name: format!("c{}", id),
            user_id: 1,
            description: None,
            position: 0,
            image: None,
            count: 3,
            view: 0,
            seconds: 0,
            types,
            slug: format!("c{}", id),
        });
    }
    let ids = |cats: &Vec<Cat>| cats.iter().map(|c| c.id).collect::<Vec<_>>();
    let menu = get_categories_2(&catalog, 0);
    assert_eq!(ids(&menu.service_cats), vec![1, 4]);
    assert_eq!(ids(&menu.store_cats), vec![8]);
    assert_eq!(ids(&menu.blog_cats), vec![2]);
    assert_eq!(ids(&menu.wiki_cats), vec![7]);
    assert_eq!(ids(&menu.work_cats), vec![6]);
    assert_eq!(ids(&menu.help_cats), vec![3]);
    assert_eq!(menu.blog_cats[0].count, 3);
    assert_eq!(menu.blog_cats[0].slug, "c2");
    let none = get_categories_2(&catalog, 1);
    assert!(none.service_cats.is_empty() && none.blog_cats.is_empty() && none.help_cats.is_empty());
    assert_eq!(Categories::get_categories(&catalog).unwrap().len(), 8);
    assert_eq!(ids(&Categories::get_categories_for_types(&catalog, 2).unwrap()), vec![1, 4]);
}

#[test]
fn kinds_have_numbers_names_and_orders() {
    assert_eq!(ItemKind::Blog.code(), 1);
    assert_eq!(ItemKind::Order.code(), 7);
    assert_eq!(ItemKind::from_code(6), Some(ItemKind::Help));
    assert_eq!(ItemKind::from_code(0), None);
    assert_eq!(ItemKind::from_code(8), None);
    assert_eq!(ItemKind::Help.sort_rule(), SortRule::PositionAsc);
    assert_eq!(ItemKind::Store.sort_rule(), SortRule::CreatedDesc);
    assert_eq!(kind_name(1), "блог");
    assert_eq!(kind_name(3), "товар");
    assert_eq!(kind_name(4), "wiki");
    assert_eq!(kind_name(44), "Непонятно");
    assert_eq!(Categories::get_stat_type(1), 41);
    assert_eq!(Categories::get_stat_type(6), 101);
    assert_eq!(Categories::get_stat_type(0), 41);
    assert_eq!(item_status(9), ItemStatus::Published);
    assert_eq!(item_status(10), ItemStatus::Hidden);
    assert!(is_admin(60));
    assert!(!is_admin(59));
}

#[test]
fn every_failure_has_its_message() {
    assert_eq!(Error::PermissionDenied(Denial::Forbidden).message(), "Permission Denied");
    assert_eq!(
        Error::PermissionDenied(Denial::NotAuthenticated).message(),
        "request user not authenticate!"
    );
    assert_eq!(Error::PermissionDenied(Denial::WrongPassword).message(), "Пароль неверный!");
    assert_eq!(
        Error::PermissionDenied(Denial::UnknownCustomer).message(),
        "Информация о заказчике не найдена"
    );
    assert_eq!(Error::NotFound(Missing::User).message(), "Пользователь с таким логином не найден");
    assert_eq!(Error::NotFound(Missing::Visitor).message(), "Информация о заказчике не найдена");
    assert_eq!(Error::NotFound(Missing::Item).message(), "object not found!");
    assert_eq!(Error::ValidationFailed(Field::Params).message(), "parametrs not found!");
    assert_eq!(Error::ValidationFailed(Field::Id).message(), "parametr 'id' not found!");
    assert_eq!(Error::ValidationFailed(Field::Slug).message(), "parametr 'slug' not found!");
    assert_eq!(Error::ValidationFailed(Field::SlugEmpty).message(), "parametr 'slug' is empty!");
    assert_eq!(Error::ValidationFailed(Field::CatSlug).message(), "parametr 'cat_slug' not found!");
    assert_eq!(Error::ValidationFailed(Field::Username).message(), "Field 'username' is required!");
    assert_eq!(Error::ValidationFailed(Field::Email).message(), "Field 'email' is required!");
    assert_eq!(Error::ValidationFailed(Field::Password).message(), "Field 'password' is required!");
    assert_eq!(Error::ValidationFailed(Field::Message).message(), "Permission Denied");
    assert_eq!(Error::Conflict(Clash::KeysExhausted).message(), "no free id left!");
    assert_eq!(Error::Conflict(Clash::OutOfRange).message(), "value out of range!");
}
