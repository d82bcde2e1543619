use catalog_core::catalog::Catalog;
use catalog_core::models::{Categories, Category, Item};

fn item(id: i32, types: i16, item_types: i16, created: i64, position: i16) -> Item {
    Item {
        id,
        title: format!("title {}", id),
        link: None,
        image: None,
        description: Some(format!("about {}", id)),
        item_types,
        price: 100 * id,
        user_id: 1,
        created,
        position,
        price_acc: None,
        types,
        slug: format!("slug-{}", id),
        view: 0,
        seconds: 0,
    }
}

fn sample() -> Catalog {
    let mut catalog = Catalog::new();
    catalog.items.push(item(1, 1, 1, 300, 0));
    catalog.items.push(item(2, 1, 11, 500, 0));
    catalog.items.push(item(3, 2, 2, 400, 0));
    catalog.items.push(item(4, 1, 1, 100, 0));
    catalog.items.push(item(5, 1, 1, 300, 0));
    catalog.items.push(item(6, 6, 6, 900, 3));
    catalog.items.push(item(7, 6, 6, 100, 1));
    catalog.items.push(item(8, 6, 16, 500, 2));
    catalog
}

fn ids_of_blogs(rows: &Vec<catalog_core::models::Blog>) -> Vec<i32> {
    rows.iter().map(|b| b.id).collect()
}

#[test]
fn public_listing_hides_hidden_items_and_orders_newest_first() {
    let catalog = sample();
    let rows = Item::get_blogs(&catalog, 10, 0, false);
    assert_eq!(ids_of_blogs(&rows), vec![1, 5, 4]);
}

#[test]
fn admin_listing_shows_hidden_items() {
    let catalog = sample();
    let rows = Item::get_blogs(&catalog, 10, 0, true);
    assert_eq!(ids_of_blogs(&rows), vec![2, 1, 5, 4]);
}

#[test]
fn items_created_at_the_same_time_keep_table_order() {
    let catalog = sample();
    let rows = Item::get_blogs(&catalog, 10, 0, false);
    assert_eq!(rows[0].id, 1);
    assert_eq!(rows[1].id, 5);
    assert_eq!(rows[0].created, rows[1].created);
}

#[test]
fn listing_honours_offset_and_limit() {
    let catalog = sample();
    assert_eq!(ids_of_blogs(&Item::get_blogs(&catalog, 2, 1, true)), vec![1, 5]);
    assert_eq!(ids_of_blogs(&Item::get_blogs(&catalog, 2, 3, true)), vec![4]);
    assert!(Item::get_blogs(&catalog, 2, 4, true).is_empty());
    assert!(Item::get_blogs(&catalog, 0, 0, true).is_empty());
}

#[test]
fn help_articles_are_ordered_by_position() {
    let catalog = sample();
    let rows = Item::get_helps(&catalog, 10, 0, true);
    assert_eq!(rows.iter().map(|h| h.id).collect::<Vec<_>>(), vec![7, 8, 6]);
    let rows = Item::get_helps(&catalog, 10, 0, false);
    assert_eq!(rows.iter().map(|h| h.id).collect::<Vec<_>>(), vec![7, 6]);
}

#[test]
fn listing_shows_the_status_code_in_types() {
    let catalog = sample();
    let rows = Item::get_blogs(&catalog, 1, 0, true);
    assert_eq!(rows[0].id, 2);
    assert_eq!(rows[0].types, 11);
    assert_eq!(rows[0].slug, "slug-2");
    assert_eq!(rows[0].title, "title 2");
    assert_eq!(rows[0].description, Some(String::from("about 2")));
    assert_eq!(rows[0].created, 500);
}

#[test]
fn store_listing_shows_prices() {
    let mut catalog = Catalog::new();
    let mut product = item(9, 3, 3, 10, 0);
    product.price = 2_500_000;
    product.price_acc = Some(175_000);
    catalog.items.push(product);
    let rows = Item::get_stores(&catalog, 5, 0, false);
    assert_eq!(rows.len(), 1);
    assert_eq!(rows[0].price, 2_500_000);
    assert_eq!(rows[0].price_acc, Some(175_000));
}

#[test]
fn listing_for_ids_is_restricted_to_the_ids() {
    let catalog = sample();
    let rows = Item::get_blogs_for_ids(&catalog, 10, 0, &vec![4, 2, 3, 6], true);
    assert_eq!(ids_of_blogs(&rows), vec![2, 4]);
    let rows = Item::get_blogs_for_ids(&catalog, 10, 0, &vec![], true);
    assert!(rows.is_empty());
}

#[test]
fn category_listing_follows_the_links_of_its_kind() {
    let mut catalog = sample();
    catalog.categories.push(Categories {
        id: 1,
        name: String::from("c"),
        user_id: 1,
        description: None,
        position: 0,
        image: None,
        count: 0,
        view: 0,
        seconds: 0,
        types: 1,
        slug: String::from("c"),
    });
    catalog.category.push(Category { id: 1, categories_id: 1, item_id: 4, types: 1 });
    catalog.category.push(Category { id: 2, categories_id: 1, item_id: 1, types: 1 });
    catalog.category.push(Category { id: 3, categories_id: 2, item_id: 5, types: 1 });
    catalog.category.push(Category { id: 4, categories_id: 1, item_id: 3, types: 2 });
    let rows = Categories::get_blogs(&catalog, 1, 10, 0, false).unwrap();
    assert_eq!(ids_of_blogs(&rows), vec![1, 4]);
    let (rows, next) = Categories::get_blogs_list(&catalog, 1, 1, 1, false).unwrap();
    assert_eq!(ids_of_blogs(&rows), vec![1]);
    assert_eq!(next, 2);
    let (rows, next) = Categories::get_blogs_list(&catalog, 1, 2, 1, false).unwrap();
    assert_eq!(ids_of_blogs(&rows), vec![4]);
    assert_eq!(next, 0);
}

#[test]
fn kinds_sharing_a_category_id_do_not_see_each_other() {
    let mut catalog = sample();
    catalog.category.push(Category { id: 1, categories_id: 7, item_id: 1, types: 1 });
    catalog.category.push(Category { id: 2, categories_id: 7, item_id: 3, types: 2 });
    let blogs = Categories::get_blogs(&catalog, 7, 10, 0, true).unwrap();
    assert_eq!(ids_of_blogs(&blogs), vec![1]);
    let services = Categories::get_services(&catalog, 7, 10, 0, true).unwrap();
    assert_eq!(services.iter().map(|s| s.id).collect::<Vec<_>>(), vec![3]);
    catalog.items.push(item(20, 2, 2, 999, 0));
    catalog.category.push(Category { id: 3, categories_id: 7, item_id: 20, types: 2 });
    let blogs_after = Categories::get_blogs(&catalog, 7, 10, 0, true).unwrap();
    assert_eq!(ids_of_blogs(&blogs_after), vec![1]);
}

#[test]
fn image_falls_back_to_the_default() {
    let mut one = item(1, 1, 1, 0, 0);
    assert_eq!(one.get_image(), "/static/images/img.jpg");
    one.image = Some(String::from("/media/a.png"));
    assert_eq!(one.get_image(), "/media/a.png");
}
