use catalog_core::catalog::Catalog;
use catalog_core::conservation::is_consistent;
use catalog_core::kinds::{ItemKind, Scope, SortRule};
use catalog_core::listing::list;
use catalog_core::errors::{Clash, Denial, Error, Field, Missing};
use catalog_core::items::{DeleteItemData, HidePolicy, ItemForm};
use catalog_core::models::{Categories, File, Serve, Tag, TechCategories};

fn category(id: i32, types: i16, count: i16) -> Categories {
    Categories {
        id,
        name: format!("cat {}", id),
        user_id: 1,
        description: None,
        position: 0,
        image: None,
        count,
        view: 0,
        seconds: 0,
        types,
        slug: format!("cat-{}", id),
    }
}

fn tag(id: i32, count: i16) -> Tag {
    Tag { id, name: format!("tag {}", id), position: 0, count, user_id: 1, view: 0, seconds: 0 }
}

fn serve(id: i32, price: i32, tech_cat_id: i32) -> Serve {
    Serve {
        id,
        name: format!("serve {}", id),
        description: None,
        position: 0,
        serve_categories: 1,
        price,
        man_hours: 1,
        is_default: false,
        user_id: 1,
        tech_cat_id,
        seconds: 0,
        serve_id: None,
        view: 0,
    }
}

fn form(types: i16, cats: Vec<i32>, tags: Vec<i32>) -> ItemForm {
    ItemForm {
        token: String::from("111"),
        id: 0,
        title: String::from("A title"),
        link: Some(String::from("https://example.org")),
        main_image: None,
        position: 4,
        types,
        slug: String::from("a-title"),
        category_list: cats,
        tags_list: tags,
        serve_list: vec![],
        close_tech_cats_list: vec![],
    }
}

fn request(id: i32) -> DeleteItemData {
    DeleteItemData { id: Some(id), token: Some(String::from("111")) }
}

fn shop() -> Catalog {
    let mut catalog = Catalog::new();
    catalog.categories.push(category(1, 1, 0));
    catalog.categories.push(category(2, 1, 0));
    catalog.categories.push(category(3, 2, 0));
    catalog.tags.push(tag(1, 0));
    catalog.tags.push(tag(2, 0));
    catalog.serve.push(serve(1, 600_000, 10));
    catalog.serve.push(serve(2, 700_000, 11));
    catalog.serve.push(serve(3, 50_000, 10));
    catalog.tech_categories.push(TechCategories {
        id: 40,
        name: String::from("closed"),
        description: None,
        position: 0,
        count: 0,
        level: 1,
        user_id: 1,
        view: 0,
        seconds: 0,
    });
    catalog
}

fn counts(catalog: &Catalog) -> Vec<i16> {
    catalog.categories.iter().map(|c| c.count).collect()
}

fn tag_counts(catalog: &Catalog) -> Vec<i16> {
    catalog.tags.iter().map(|t| t.count).collect()
}

fn published_links(catalog: &Catalog, cat_id: i32) -> i16 {
    catalog
        .category
        .iter()
        .filter(|l| {
            l.categories_id == cat_id
                && catalog
                    .items
                    .iter()
                    .any(|i| i.id == l.item_id && i.types == l.types && i.item_types < 10)
        })
        .count() as i16
}

#[test]
fn create_stores_a_published_item_with_links_and_counts() {
    let mut catalog = shop();
    let result = catalog.create_item(5, &form(1, vec![1, 2, 1], vec![2]), 1_000);
    assert_eq!(result, Ok(1));
    assert_eq!(catalog.items.len(), 1);
    let item = &catalog.items[0];
    assert_eq!(item.id, 1);
    assert_eq!(item.title, "A title");
    assert_eq!(item.link, Some(String::from("https://example.org")));
    assert_eq!(item.item_types, 1);
    assert_eq!(item.types, 1);
    assert_eq!(item.user_id, 5);
    assert_eq!(item.created, 1_000 + 3 * 3600 * 1_000_000);
    assert_eq!(item.position, 4);
    assert_eq!(item.price, 0);
    assert_eq!(item.price_acc, None);
    assert_eq!(
        catalog.category.iter().map(|l| (l.id, l.categories_id, l.item_id, l.types)).collect::<Vec<_>>(),
        vec![(1, 1, 1, 1), (2, 2, 1, 1)]
    );
    assert_eq!(counts(&catalog), vec![1, 1, 0]);
    assert_eq!(tag_counts(&catalog), vec![0, 1]);
    assert_eq!(catalog.tags_items.len(), 1);
    assert_eq!(catalog.tags_items[0].tag_id, 2);
    assert_eq!(catalog.tags_items[0].created, 1_000);
}

#[test]
fn create_prices_the_item_at_the_sum_of_its_options() {
    let mut catalog = shop();
    let mut f = form(2, vec![3], vec![]);
    f.serve_list = vec![1, 2, 3];
    f.close_tech_cats_list = vec![40];
    assert_eq!(catalog.create_item(5, &f, 0), Ok(1));
    let item = &catalog.items[0];
    assert_eq!(item.price, 1_350_000);
    assert_eq!(item.price_acc, Some(67_500));
    assert_eq!(item.item_types, 2);
    assert_eq!(
        catalog.serve_items.iter().map(|l| (l.serve_id, l.item_id, l.types)).collect::<Vec<_>>(),
        vec![(1, 1, 2), (2, 1, 2), (3, 1, 2)]
    );
    assert_eq!(
        catalog
            .tech_categories_items
            .iter()
            .map(|l| (l.category_id, l.item_id, l.types, l.is_active))
            .collect::<Vec<_>>(),
        vec![(40, 1, 2, 2), (10, 1, 2, 1), (11, 1, 2, 1)]
    );
}

#[test]
fn create_is_refused_without_user_or_token() {
    let mut catalog = shop();
    assert_eq!(
        catalog.create_item(0, &form(1, vec![1], vec![]), 0),
        Err(Error::PermissionDenied(Denial::Forbidden))
    );
    let mut f = form(1, vec![1], vec![]);
    f.token = String::from("112");
    assert_eq!(catalog.create_item(5, &f, 0), Err(Error::PermissionDenied(Denial::Forbidden)));
    assert!(catalog.items.is_empty());
    assert_eq!(counts(&catalog), vec![0, 0, 0]);
}

#[test]
fn create_is_refused_for_a_category_of_another_kind() {
    let mut catalog = shop();
    assert_eq!(
        catalog.create_item(5, &form(1, vec![1, 3], vec![]), 0),
        Err(Error::NotFound(Missing::Category))
    );
    assert_eq!(
        catalog.create_item(5, &form(1, vec![99], vec![]), 0),
        Err(Error::NotFound(Missing::Category))
    );
    assert_eq!(
        catalog.create_item(5, &form(1, vec![1], vec![9]), 0),
        Err(Error::NotFound(Missing::Tag))
    );
    assert!(catalog.items.is_empty());
    assert!(catalog.category.is_empty());
    assert_eq!(counts(&catalog), vec![0, 0, 0]);
}

#[test]
fn create_is_refused_when_a_counter_is_full() {
    let mut catalog = shop();
    catalog.categories[0].count = i16::MAX;
    assert_eq!(
        catalog.create_item(5, &form(1, vec![1], vec![]), 0),
        Err(Error::Conflict(Clash::OutOfRange))
    );
    assert!(catalog.items.is_empty());
}

#[test]
fn create_is_refused_when_the_price_leaves_its_column() {
    let mut catalog = shop();
    catalog.serve.push(serve(4, i32::MAX, 1));
    let mut f = form(2, vec![], vec![]);
    f.serve_list = vec![1, 4];
    assert_eq!(catalog.create_item(5, &f, 0), Err(Error::Conflict(Clash::OutOfRange)));
}

#[test]
fn edit_moves_the_counters_from_the_old_links_to_the_new() {
    let mut catalog = shop();
    catalog.create_item(5, &form(1, vec![1], vec![1]), 0).unwrap();
    let mut f = form(1, vec![2], vec![2, 2]);
    f.id = 1;
    f.title = String::from("Another title");
    f.slug = String::from("another");
    f.serve_list = vec![2, 2];
    assert_eq!(catalog.edit_item(5, &f, 77), Ok(1));
    assert_eq!(counts(&catalog), vec![0, 1, 0]);
    assert_eq!(tag_counts(&catalog), vec![0, 1]);
    assert_eq!(
        catalog.category.iter().map(|l| (l.categories_id, l.item_id)).collect::<Vec<_>>(),
        vec![(2, 1)]
    );
    assert_eq!(catalog.items[0].title, "Another title");
    assert_eq!(catalog.items[0].slug, "another");
    assert_eq!(catalog.items[0].price, 700_000);
    assert_eq!(catalog.items[0].price_acc, None);
    assert_eq!(catalog.items[0].created, 3 * 3600 * 1_000_000);
    assert_eq!(catalog.serve_items.len(), 2);
}

#[test]
fn edit_of_a_hidden_item_does_not_count_it_in_new_tags() {
    let mut catalog = shop();
    catalog.create_item(5, &form(1, vec![1], vec![1]), 0).unwrap();
    catalog.hide_item(5, &request(1), HidePolicy::Decrement).unwrap();
    assert_eq!(counts(&catalog), vec![0, 0, 0]);
    assert_eq!(tag_counts(&catalog), vec![0, 0]);
    let mut f = form(1, vec![2], vec![2]);
    f.id = 1;
    assert_eq!(catalog.edit_item(5, &f, 0), Ok(1));
    assert_eq!(counts(&catalog), vec![-1, 1, 0]);
    assert_eq!(tag_counts(&catalog), vec![-1, 0]);
}

#[test]
fn edit_is_refused_for_a_missing_item_and_for_a_stranger() {
    let mut catalog = shop();
    let mut f = form(1, vec![2], vec![]);
    f.id = 42;
    assert_eq!(catalog.edit_item(5, &f, 0), Err(Error::NotFound(Missing::Item)));
    catalog.create_item(5, &form(1, vec![1], vec![]), 0).unwrap();
    f.id = 1;
    assert_eq!(catalog.edit_item(6, &f, 0), Err(Error::PermissionDenied(Denial::Forbidden)));
    assert_eq!(counts(&catalog), vec![1, 0, 0]);
    catalog.hide_item(5, &request(1), HidePolicy::Decrement).unwrap();
    assert_eq!(catalog.edit_item(6, &f, 0), Err(Error::PermissionDenied(Denial::Forbidden)));
    assert_eq!(catalog.edit_item(5, &f, 0), Ok(1));
}

#[test]
fn delete_takes_the_item_out_of_counters_links_and_files() {
    let mut catalog = shop();
    catalog.create_item(5, &form(1, vec![1, 2], vec![1]), 0).unwrap();
    catalog.create_item(5, &form(1, vec![1], vec![1]), 0).unwrap();
    catalog.files.push(File {
        id: 1,
        user_id: 5,
        item_id: 1,
        item_types: 1,
        types: 1,
        src: String::from("media/a.png"),
        description: None,
        position: 0,
    });
    catalog.files.push(File {
        id: 2,
        user_id: 5,
        item_id: 2,
        item_types: 1,
        types: 1,
        src: String::from("media/b.png"),
        description: None,
        position: 0,
    });
    assert_eq!(counts(&catalog), vec![2, 1, 0]);
    let paths = catalog.delete_item(5, &request(1)).unwrap();
    assert_eq!(paths, vec![String::from("media/a.png")]);
    assert_eq!(counts(&catalog), vec![1, 0, 0]);
    assert_eq!(tag_counts(&catalog), vec![1, 0]);
    assert_eq!(catalog.items.iter().map(|i| i.id).collect::<Vec<_>>(), vec![2]);
    assert_eq!(catalog.category.iter().map(|l| l.item_id).collect::<Vec<_>>(), vec![2]);
    assert_eq!(catalog.files.iter().map(|f| f.id).collect::<Vec<_>>(), vec![2]);
}

#[test]
fn delete_checks_the_request_in_order() {
    let mut catalog = shop();
    catalog.create_item(5, &form(1, vec![1], vec![]), 0).unwrap();
    assert_eq!(
        catalog.delete_item(0, &request(1)),
        Err(Error::PermissionDenied(Denial::Forbidden))
    );
    assert_eq!(
        catalog.delete_item(5, &DeleteItemData { id: None, token: Some(String::from("111")) }),
        Err(Error::ValidationFailed(Field::Id))
    );
    assert_eq!(
        catalog.delete_item(5, &DeleteItemData { id: Some(0), token: Some(String::from("111")) }),
        Err(Error::ValidationFailed(Field::Id))
    );
    assert_eq!(
        catalog.delete_item(5, &DeleteItemData { id: Some(1), token: None }),
        Err(Error::PermissionDenied(Denial::Forbidden))
    );
    assert_eq!(catalog.delete_item(5, &request(9)), Err(Error::NotFound(Missing::Item)));
    assert_eq!(
        catalog.delete_item(6, &request(1)),
        Err(Error::PermissionDenied(Denial::Forbidden))
    );
    assert_eq!(catalog.items.len(), 1);
    assert_eq!(counts(&catalog), vec![1, 0, 0]);
}

#[test]
fn hide_and_publish_turn_the_status_code() {
    let mut catalog = shop();
    catalog.create_item(5, &form(6, vec![], vec![]), 0).unwrap();
    assert_eq!(catalog.items[0].item_types, 6);
    assert_eq!(catalog.hide_item(5, &request(1), HidePolicy::Decrement), Ok(1));
    assert_eq!(catalog.items[0].item_types, 16);
    assert_eq!(catalog.hide_item(5, &request(1), HidePolicy::Decrement), Ok(1));
    assert_eq!(catalog.items[0].item_types, 11);
    assert_eq!(catalog.publish_item(5, &request(1)), Ok(1));
    assert_eq!(catalog.items[0].item_types, 1);
    assert_eq!(catalog.publish_item(5, &request(1)), Ok(1));
    assert_eq!(catalog.items[0].item_types, 1);
}

#[test]
fn hide_takes_the_item_out_of_the_counters_and_publish_puts_it_back() {
    let mut catalog = shop();
    catalog.create_item(5, &form(1, vec![1, 2], vec![1]), 0).unwrap();
    assert_eq!(catalog.hide_item(5, &request(1), HidePolicy::Decrement), Ok(1));
    assert_eq!(counts(&catalog), vec![0, 0, 0]);
    assert_eq!(tag_counts(&catalog), vec![0, 0]);
    assert_eq!(catalog.publish_item(5, &request(1)), Ok(1));
    assert_eq!(counts(&catalog), vec![1, 1, 0]);
    assert_eq!(tag_counts(&catalog), vec![1, 0]);
}

#[test]
fn hide_under_the_mirror_policy_moves_the_counters_up() {
    let mut catalog = shop();
    catalog.create_item(5, &form(1, vec![1], vec![1]), 0).unwrap();
    assert_eq!(catalog.hide_item(5, &request(1), HidePolicy::MirrorPublish), Ok(1));
    assert_eq!(counts(&catalog), vec![2, 0, 0]);
    assert_eq!(tag_counts(&catalog), vec![2, 0]);
    assert_eq!(catalog.items[0].item_types, 11);
}

#[test]
fn counters_stay_right_through_creates_edits_and_deletes() {
    let mut catalog = shop();
    catalog.categories.push(category(4, 1, 0));
    let steps: Vec<(u8, i32, Vec<i32>)> = vec![
        (0, 0, vec![1, 2]),
        (0, 0, vec![1]),
        (0, 0, vec![4, 4, 2]),
        (1, 2, vec![2, 4]),
        (2, 1, vec![]),
        (0, 0, vec![1, 2, 4]),
        (1, 3, vec![]),
        (2, 4, vec![]),
        (1, 2, vec![1]),
        (2, 9, vec![]),
    ];
    for (kind, id, cats) in steps {
        match kind {
            0 => {
                let _ = catalog.create_item(5, &form(1, cats, vec![]), 0);
            }
            1 => {
                let mut f = form(1, cats, vec![]);
                f.id = id;
                let _ = catalog.edit_item(5, &f, 0);
            }
            _ => {
                let _ = catalog.delete_item(5, &request(id));
            }
        }
        for c in catalog.categories.iter() {
            assert_eq!(c.count, published_links(&catalog, c.id), "category {}", c.id);
        }
        assert!(is_consistent(&catalog));
    }
    assert_eq!(catalog.items.iter().map(|i| i.id).collect::<Vec<_>>(), vec![2, 3]);
    assert_eq!(counts(&catalog), vec![1, 0, 0, 0]);
}

#[test]
fn items_of_another_kind_do_not_move_the_counters_of_a_kind() {
    let mut catalog = shop();
    catalog.create_item(5, &form(1, vec![1], vec![]), 0).unwrap();
    let before = counts(&catalog);
    catalog.create_item(5, &form(2, vec![3], vec![]), 0).unwrap();
    assert_eq!(counts(&catalog)[0], before[0]);
    assert_eq!(counts(&catalog)[1], before[1]);
    assert_eq!(counts(&catalog)[2], 1);
    catalog.delete_item(5, &request(2)).unwrap();
    assert_eq!(counts(&catalog), before);
}

#[test]
fn consistency_check_tells_right_counters_from_wrong() {
    let mut catalog = shop();
    assert!(is_consistent(&catalog));
    catalog.create_item(5, &form(1, vec![1, 2], vec![1]), 0).unwrap();
    assert!(is_consistent(&catalog));
    catalog.hide_item(5, &request(1), HidePolicy::Decrement).unwrap();
    assert!(is_consistent(&catalog));
    catalog.publish_item(5, &request(1)).unwrap();
    assert!(is_consistent(&catalog));
    catalog.hide_item(5, &request(1), HidePolicy::MirrorPublish).unwrap();
    assert!(!is_consistent(&catalog));
    let mut other = shop();
    other.categories[0].count = 1;
    assert!(!is_consistent(&other));
}

#[test]
fn listing_query_takes_kind_scope_filter_and_order() {
    let mut catalog = shop();
    for n in 0..4 {
        let mut f = form(1, vec![], vec![]);
        f.position = 10 - n;
        catalog.create_item(5, &f, 100 * n as i64).unwrap();
    }
    catalog.hide_item(5, &request(2), HidePolicy::Decrement).unwrap();
    let ids = |rows: Vec<catalog_core::models::Item>| rows.iter().map(|i| i.id).collect::<Vec<_>>();
    assert_eq!(
        ids(list(&catalog.items, ItemKind::Blog, Scope::Public, None, SortRule::CreatedDesc, 0, 10)),
        vec![4, 3, 1]
    );
    assert_eq!(
        ids(list(&catalog.items, ItemKind::Blog, Scope::Admin, None, SortRule::CreatedDesc, 1, 2)),
        vec![3, 2]
    );
    assert_eq!(
        ids(list(&catalog.items, ItemKind::Blog, Scope::Admin, Some(&vec![1, 2]), SortRule::PositionAsc, 0, 10)),
        vec![2, 1]
    );
    assert!(list(&catalog.items, ItemKind::Store, Scope::Admin, None, SortRule::CreatedDesc, 0, 10).is_empty());
}

#[test]
fn item_is_refused_for_a_service_option_or_technical_category_that_is_not_stored() {
    let mut catalog = shop();
    let mut f = form(2, vec![3], vec![]);
    f.serve_list = vec![1, 9];
    assert_eq!(catalog.create_item(5, &f, 0), Err(Error::NotFound(Missing::Serve)));
    f.serve_list = vec![1];
    f.close_tech_cats_list = vec![40, 41];
    assert_eq!(catalog.create_item(5, &f, 0), Err(Error::NotFound(Missing::TechCategory)));
    assert!(catalog.items.is_empty());
    assert!(catalog.serve_items.is_empty());
    assert_eq!(counts(&catalog), vec![0, 0, 0]);
    f.close_tech_cats_list = vec![40];
    assert_eq!(catalog.create_item(5, &f, 0), Ok(1));
    f.id = 1;
    f.serve_list = vec![8];
    assert_eq!(catalog.edit_item(5, &f, 0), Err(Error::NotFound(Missing::Serve)));
    f.serve_list = vec![];
    f.close_tech_cats_list = vec![7];
    assert_eq!(catalog.edit_item(5, &f, 0), Err(Error::NotFound(Missing::TechCategory)));
    assert_eq!(catalog.serve_items.len(), 1);
    assert_eq!(counts(&catalog), vec![0, 0, 1]);
}
