use catalog_core::catalog::Catalog;
use catalog_core::errors::{Clash, Denial, Error, Missing};
use catalog_core::models::{Categories, CookieStat, CookieUser, Item, StatPage};
use catalog_core::stat::{
    create_c_user, get_c_user, object_history, plus_category_stat, plus_item_stat, plus_page_stat,
    HistoryData,
    Location, NewCookieUser, Subject,
};

fn place() -> Location {
    Location {
        city_ru: String::from("Москва"),
        city_en: String::from("Moscow"),
        region_ru: String::from("Москва"),
        region_en: String::from("Moscow"),
        country_ru: String::from("Россия"),
        country_en: String::from("Russia"),
    }
}

fn newcomer() -> NewCookieUser {
    create_c_user(String::from("10.0.0.1"), Some("Mozilla/5.0 (X11; Linux)"), place(), 50)
}

fn report(user_id: i32, object_id: i32, page_id: i16, link: &str, seconds: i32) -> HistoryData {
    HistoryData {
        token: String::from("111"),
        user_id,
        object_id,
        page_id,
        link: String::from(link),
        title: String::from("t"),
        seconds,
        template: String::from("d"),
    }
}

fn category(id: i32) -> Categories {
    Categories {
        id,
        name: String::from("c"),
        user_id: 1,
        description: None,
        position: 0,
        image: None,
        count: 0,
        view: 7,
        seconds: 100,
        types: 1,
        slug: String::from("c"),
    }
}

#[test]
fn a_newcomer_is_described_by_address_device_and_place() {
    let user = create_c_user(String::from("10.0.0.1"), Some("Mozilla/5.0 Mobile Safari"), place(), 50);
    assert_eq!(user.ip, "10.0.0.1");
    assert_eq!(user.device, 2);
    assert_eq!(user.city_en, Some(String::from("Moscow")));
    assert_eq!(user.country_ru, Some(String::from("Россия")));
    assert_eq!(user.seconds, 0);
    assert_eq!(user.created, 50 + 10_800_000_000);
    assert_eq!(newcomer().device, 1);
    assert_eq!(create_c_user(String::from("x"), None, place(), 0).device, 1);
}

#[test]
fn first_visit_to_a_page_stores_one_view() {
    let mut catalog = Catalog::new();
    let fresh = newcomer();
    let visit = catalog.create_history(&report(0, 0, 5, "/about", 12), Some(&fresh), 1_000).unwrap();
    assert!(!visit.repeat);
    assert_eq!(visit.visitor_id, 1);
    assert_eq!(visit.subject, Subject::Page(5));
    assert_eq!(visit.stat.id, 1);
    assert_eq!(visit.stat.user_id, 1);
    assert_eq!(visit.stat.page, 5);
    assert_eq!(visit.stat.link, "/about");
    assert_eq!(visit.stat.seconds, 12);
    assert_eq!(visit.stat.created, 10_800_001_000);
    assert_eq!(catalog.cookie_users.len(), 1);
    assert_eq!(catalog.cookie_users[0].seconds, 0);
    assert_eq!(catalog.cookie_stats.len(), 1);
    assert_eq!(catalog.stat_pages.len(), 1);
    assert_eq!(catalog.stat_pages[0].types, 5);
    assert_eq!(catalog.stat_pages[0].view, 1);
    assert_eq!(catalog.stat_pages[0].seconds, 12);
}

#[test]
fn second_visit_adds_seconds_and_counts_no_view() {
    let mut catalog = Catalog::new();
    let fresh = newcomer();
    let first = catalog.create_history(&report(0, 0, 5, "/about", 12), Some(&fresh), 1_000).unwrap();
    let second = catalog
        .create_history(&report(first.visitor_id, 0, 5, "/about", 30), None, 2_000)
        .unwrap();
    assert!(second.repeat);
    assert_eq!(second.visitor_id, 1);
    assert_eq!(second.stat.id, first.stat.id);
    assert_eq!(catalog.cookie_stats.len(), 1);
    assert_eq!(catalog.stat_pages.len(), 1);
    assert_eq!(catalog.stat_pages[0].view, 1);
    assert_eq!(catalog.stat_pages[0].seconds, 42);
    assert_eq!(catalog.cookie_users[0].seconds, 30);
}

#[test]
fn a_visit_to_another_link_is_a_first_visit() {
    let mut catalog = Catalog::new();
    let fresh = newcomer();
    catalog.create_history(&report(0, 0, 5, "/about", 12), Some(&fresh), 0).unwrap();
    let other = catalog.create_history(&report(1, 0, 5, "/about?x", 3), None, 0).unwrap();
    assert!(!other.repeat);
    assert_eq!(catalog.cookie_stats.len(), 2);
    assert_eq!(catalog.stat_pages[0].view, 2);
    assert_eq!(catalog.stat_pages[0].seconds, 15);
    assert_eq!(catalog.cookie_users[0].seconds, 0);
}

#[test]
fn first_visit_to_a_category_counts_a_view_and_a_repeat_counts_none() {
    let mut catalog = Catalog::new();
    catalog.categories.push(category(4));
    let fresh = newcomer();
    let first = catalog.create_history(&report(0, 4, 42, "/blogs/c", 10), Some(&fresh), 0).unwrap();
    assert_eq!(first.subject, Subject::Category(4));
    assert!(!first.repeat);
    assert_eq!(catalog.categories[0].view, 8);
    assert_eq!(catalog.categories[0].seconds, 110);
    let second = catalog.create_history(&report(1, 4, 42, "/blogs/c", 10), None, 0).unwrap();
    assert!(second.repeat);
    assert_eq!(catalog.categories[0].view, 8);
    assert_eq!(catalog.categories[0].seconds, 120);
    assert!(catalog.stat_pages.is_empty());
}

#[test]
fn first_visit_to_an_item_never_visited_leaves_one_view() {
    let mut catalog = Catalog::new();
    catalog.items.push(Item {
        id: 3,
        title: String::from("t"),
        link: None,
        image: None,
        description: None,
        item_types: 1,
        price: 0,
        user_id: 1,
        created: 0,
        position: 0,
        price_acc: None,
        types: 1,
        slug: String::from("t"),
        view: 0,
        seconds: 0,
    });
    assert_eq!(plus_item_stat(&mut catalog, 3, 15, false), Ok(()));
    assert_eq!((catalog.items[0].view, catalog.items[0].seconds), (1, 15));
    assert_eq!(plus_item_stat(&mut catalog, 3, 20, true), Ok(()));
    assert_eq!((catalog.items[0].view, catalog.items[0].seconds), (1, 35));
    let fresh = newcomer();
    let first = catalog.create_history(&report(0, 3, 43, "/blog/t", 5), Some(&fresh), 0).unwrap();
    assert_eq!(first.subject, Subject::Item(3));
    assert_eq!((catalog.items[0].view, catalog.items[0].seconds), (2, 40));
    let second = catalog.create_history(&report(first.visitor_id, 3, 43, "/blog/t", 6), None, 0).unwrap();
    assert!(second.repeat);
    assert_eq!((catalog.items[0].view, catalog.items[0].seconds), (2, 46));
    catalog.items[0].view = i32::MAX;
    assert_eq!(plus_item_stat(&mut catalog, 3, 1, false), Err(Error::Conflict(Clash::OutOfRange)));
    assert_eq!(plus_item_stat(&mut catalog, 3, 1, true), Ok(()));
    assert_eq!(catalog.items[0].seconds, 47);
}

#[test]
fn a_further_visitor_counts_a_further_view_on_a_page() {
    let mut catalog = Catalog::new();
    let ann = newcomer();
    let first = catalog.create_history(&report(0, 0, 5, "/about", 12), Some(&ann), 0).unwrap();
    let bob = newcomer();
    let other = catalog.create_history(&report(0, 0, 5, "/about", 3), Some(&bob), 0).unwrap();
    assert_ne!(first.visitor_id, other.visitor_id);
    assert!(!other.repeat);
    assert_eq!(catalog.stat_pages.len(), 1);
    assert_eq!(catalog.stat_pages[0].view, 2);
    assert_eq!(catalog.stat_pages[0].seconds, 15);
}

#[test]
fn subject_follows_the_page_number() {
    let mut catalog = Catalog::new();
    let fresh = newcomer();
    let a = catalog.create_history(&report(0, 3, 63, "/a", 1), Some(&fresh), 0).unwrap();
    assert_eq!(a.subject, Subject::Item(3));
    let b = catalog.create_history(&report(1, 3, 32, "/b", 1), None, 0).unwrap();
    assert_eq!(b.subject, Subject::Tag(3));
    let c = catalog.create_history(&report(1, 3, 5, "/c", 1), None, 0).unwrap();
    assert_eq!(c.subject, Subject::Nothing);
}

#[test]
fn visit_is_refused_for_a_wrong_token_or_a_missing_newcomer() {
    let mut catalog = Catalog::new();
    let mut bad = report(0, 0, 5, "/", 1);
    bad.token = String::from("x");
    let fresh = newcomer();
    assert_eq!(
        catalog.create_history(&bad, Some(&fresh), 0).err(),
        Some(Error::PermissionDenied(Denial::Forbidden))
    );
    assert_eq!(
        catalog.create_history(&report(9, 0, 5, "/", 1), None, 0).err(),
        Some(Error::NotFound(Missing::Visitor))
    );
    assert!(catalog.cookie_users.is_empty());
    assert!(catalog.cookie_stats.is_empty());
}

#[test]
fn visit_is_refused_when_the_seconds_leave_their_column() {
    let mut catalog = Catalog::new();
    catalog.cookie_users.push(CookieUser {
        id: 1,
        ip: String::new(),
        device: 1,
        city_ru: None,
        city_en: None,
        region_ru: None,
        region_en: None,
        country_ru: None,
        country_en: None,
        seconds: i32::MAX,
        created: 0,
    });
    catalog.cookie_stats.push(CookieStat {
        id: 1,
        user_id: 1,
        page: 5,
        link: String::from("/"),
        title: String::new(),
        seconds: 0,
        created: 0,
        template: String::new(),
    });
    assert_eq!(
        catalog.create_history(&report(1, 0, 5, "/", 1), None, 0).err(),
        Some(Error::Conflict(Clash::OutOfRange))
    );
    assert_eq!(catalog.cookie_users[0].seconds, i32::MAX);
    assert!(catalog.stat_pages.is_empty());
}

#[test]
fn page_statistics_follow_the_rule_for_first_and_repeated_visits() {
    let mut catalog = Catalog::new();
    assert_eq!(plus_page_stat(&mut catalog, 9, 5, true), Ok(()));
    assert_eq!(catalog.stat_pages[0].view, 1);
    assert_eq!(catalog.stat_pages[0].seconds, 5);
    assert_eq!(plus_page_stat(&mut catalog, 9, 5, false), Ok(()));
    assert_eq!(catalog.stat_pages[0].view, 2);
    assert_eq!(catalog.stat_pages[0].seconds, 10);
    assert_eq!(plus_page_stat(&mut catalog, 9, 5, true), Ok(()));
    assert_eq!(catalog.stat_pages[0].view, 2);
    assert_eq!(catalog.stat_pages[0].seconds, 15);
    catalog.stat_pages.push(StatPage { id: 2, types: 3, view: 4, seconds: i32::MAX });
    assert_eq!(plus_page_stat(&mut catalog, 3, 1, true), Err(Error::Conflict(Clash::OutOfRange)));
}

#[test]
fn category_statistics_count_a_view_on_first_visits_only() {
    let mut catalog = Catalog::new();
    catalog.categories.push(category(4));
    assert_eq!(plus_category_stat(&mut catalog, 4, 9, false), Ok(()));
    assert_eq!((catalog.categories[0].view, catalog.categories[0].seconds), (8, 109));
    assert_eq!(plus_category_stat(&mut catalog, 4, 9, true), Ok(()));
    assert_eq!((catalog.categories[0].view, catalog.categories[0].seconds), (8, 118));
    assert_eq!(plus_category_stat(&mut catalog, 5, 9, true), Ok(()));
    assert_eq!(plus_category_stat(&mut catalog, 5, 9, false), Ok(()));
    assert_eq!((catalog.categories[0].view, catalog.categories[0].seconds), (8, 118));
}

#[test]
fn visitor_is_looked_up_or_stored() {
    let mut catalog = Catalog::new();
    assert!(get_c_user(&catalog, 1).is_none());
    let fresh = newcomer();
    let named = object_history(&mut catalog, 0, Some(&fresh)).unwrap();
    assert_eq!(named.id, 1);
    assert_eq!(named.ip, "10.0.0.1");
    assert_eq!(named.city_en, Some(String::from("Moscow")));
    let again = object_history(&mut catalog, 1, None).unwrap();
    assert_eq!(again.id, 1);
    assert_eq!(catalog.cookie_users.len(), 1);
    assert_eq!(get_c_user(&catalog, 1).unwrap().id, 1);
    assert!(get_c_user(&catalog, 0).is_none());
    assert_eq!(object_history(&mut catalog, 7, None).err(), Some(Error::NotFound(Missing::Visitor)));
}
