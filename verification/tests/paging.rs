use catalog_core::catalog::Catalog;
use catalog_core::models::{Blog, Feedback, Item};
use catalog_core::paging::{next_page, probe, window_bounds};

fn item(id: i32, types: i16, created: i64) -> Item {
    Item {
        id,
        title: format!("title {}", id),
        link: None,
        image: None,
        description: None,
        item_types: 1,
        price: 0,
        user_id: 1,
        created,
        position: 0,
        price_acc: None,
        types,
        slug: format!("slug-{}", id),
        view: 0,
        seconds: 0,
    }
}

fn blogs(n: i32) -> Catalog {
    let mut catalog = Catalog::new();
    for id in 1..=n {
        catalog.items.push(item(id, 1, 1000 + id as i64));
    }
    catalog
}

fn read_all(catalog: &Catalog, size: i32) -> (Vec<i32>, i32) {
    let mut ids = Vec::new();
    let mut page = 1;
    loop {
        let no_ids: Vec<i32> = Vec::new();
        let _ = no_ids;
        let (rows, next): (Vec<Blog>, i32) = {
            let all: Vec<i32> = catalog.items.iter().map(|i| i.id).collect();
            Item::get_blogs_list_for_ids(catalog, page, size, &all, false)
        };
        for row in rows {
            ids.push(row.id);
        }
        if next == 0 {
            return (ids, page);
        }
        assert_eq!(next, page + 1);
        page = next;
    }
}

#[test]
fn probe_gives_offset_and_probe_offset() {
    assert_eq!(probe(1, 20), (0, 20));
    assert_eq!(probe(2, 20), (20, 40));
    assert_eq!(probe(7, 3), (18, 21));
}

#[test]
fn probe_treats_page_below_one_as_page_one() {
    assert_eq!(probe(0, 20), (0, 20));
    assert_eq!(probe(-5, 20), (0, 20));
}

#[test]
fn probe_does_not_overflow_at_the_limits() {
    assert_eq!(probe(i32::MAX, i32::MAX), (2147483646 * 2147483647, 2147483647 * 2147483647));
}

#[test]
fn window_is_clipped_to_the_table() {
    assert_eq!(window_bounds(10, 0, 3), (0, 3));
    assert_eq!(window_bounds(10, 8, 3), (8, 10));
    assert_eq!(window_bounds(10, 10, 3), (10, 10));
    assert_eq!(window_bounds(10, 25, 3), (10, 10));
    assert_eq!(window_bounds(10, -4, 3), (0, 3));
    assert_eq!(window_bounds(10, 2, -1), (2, 2));
    assert_eq!(window_bounds(0, 0, 5), (0, 0));
}

#[test]
fn next_page_is_zero_without_a_probe_row() {
    assert_eq!(next_page(3, 0), 0);
    assert_eq!(next_page(3, 1), 4);
    assert_eq!(next_page(0, 1), 2);
    assert_eq!(next_page(-7, 1), 2);
}

#[test]
fn pages_read_in_turn_are_the_whole_listing() {
    for n in [0, 1, 5, 6, 7, 19, 20, 21] {
        for size in [1, 3, 5, 20] {
            let catalog = blogs(n);
            let (ids, _) = read_all(&catalog, size);
            let expected: Vec<i32> = (1..=n).rev().collect();
            assert_eq!(ids, expected, "n = {}, size = {}", n, size);
        }
    }
}

#[test]
fn exactly_full_last_page_reports_no_next_page() {
    let catalog = blogs(15);
    let all: Vec<i32> = (1..=15).collect();
    let (rows, next) = Item::get_blogs_list_for_ids(&catalog, 3, 5, &all, false);
    assert_eq!(rows.len(), 5);
    assert_eq!(next, 0);
}

#[test]
fn one_row_beyond_a_full_page_reports_the_next_page() {
    let catalog = blogs(16);
    let all: Vec<i32> = (1..=16).collect();
    let (rows, next) = Item::get_blogs_list_for_ids(&catalog, 3, 5, &all, false);
    assert_eq!(rows.len(), 5);
    assert_eq!(next, 4);
    let (rows, next) = Item::get_blogs_list_for_ids(&catalog, 4, 5, &all, false);
    assert_eq!(rows.len(), 1);
    assert_eq!(rows[0].id, 1);
    assert_eq!(next, 0);
}

#[test]
fn feedback_list_is_paged_in_table_order() {
    let mut catalog = Catalog::new();
    for id in 1..=5 {
        catalog.feedbacks.push(Feedback {
            id,
            user_id: 1,
            username: String::from("u"),
            email: String::from("u@example.org"),
            message: String::from("m"),
        });
    }
    let (rows, next) = Feedback::get_list(&catalog, 1, 2).unwrap();
    assert_eq!(rows.iter().map(|f| f.id).collect::<Vec<_>>(), vec![1, 2]);
    assert_eq!(next, 2);
    let (rows, next) = Feedback::get_list(&catalog, 3, 2).unwrap();
    assert_eq!(rows.iter().map(|f| f.id).collect::<Vec<_>>(), vec![5]);
    assert_eq!(next, 0);
    let (rows, next) = Feedback::get_list(&catalog, 4, 2).unwrap();
    assert!(rows.is_empty());
    assert_eq!(next, 0);
}
