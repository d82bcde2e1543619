use catalog_core::catalog::Catalog;
use catalog_core::errors::{Clash, Denial, Error, Field, Missing};
use catalog_core::forms::{serve_split_payload, FormField, ServeForm};
use catalog_core::models::{Order, Serve, ServeCategories, ServeItems, TechCategories};
use catalog_core::orders::{DeleteOrderData, OrderForm};
use catalog_core::requests::Actor;
use catalog_core::serve::{CategoriesForm, DeleteServeData};

fn serve(id: i32, price: i32, tech_cat_id: i32) -> Serve {
    Serve {
        id,
        name: format!("serve {}", id),
        description: None,
        position: 0,
        serve_categories: 1,
        price,
        man_hours: 1,
        is_default: false,
        user_id: 1,
        tech_cat_id,
        seconds: 0,
        serve_id: None,
        view: 0,
    }
}

fn order_form(serve_list: Vec<i32>) -> OrderForm {
    OrderForm {
        token: String::from("111"),
        title: String::from("Site"),
        types: 2,
        object_id: 30,
        username: String::from("Ann"),
        email: String::from("ann@example.org"),
        description: Some(String::from("please")),
        files: vec![String::from("media/brief.pdf"), String::from("media/logo.png")],
        serve_list,
    }
}

fn owner() -> Actor {
    Actor { id: 1, perm: 1 }
}

fn serve_form(category: i32, price: i32, is_default: bool) -> ServeForm {
    ServeForm {
        token: String::from("111"),
        id: 0,
        name: String::from("Design"),
        description: String::from("d"),
        position: 2,
        serve_categories: category,
        price,
        man_hours: 8,
        is_default,
        serve_id: None,
    }
}

fn with_serve_category() -> Catalog {
    let mut catalog = Catalog::new();
    catalog.tech_categories.push(TechCategories {
        id: 3,
        name: String::from("web"),
        description: None,
        position: 0,
        count: 1,
        level: 1,
        user_id: 1,
        view: 0,
        seconds: 0,
    });
    catalog.serve_categories.push(ServeCategories {
        id: 1,
        name: String::from("design"),
        description: None,
        tech_categories: 3,
        position: 0,
        count: 0,
        default_price: 0,
        user_id: 1,
        view: 0,
        seconds: 0,
    });
    catalog
}

fn field(name: &str, text: &str) -> FormField {
    FormField { name: String::from(name), text: Some(String::from(text)) }
}

#[test]
fn order_is_priced_at_the_sum_of_its_options_with_discount() {
    let mut catalog = Catalog::new();
    catalog.serve.push(serve(1, 1_500_000, 10));
    catalog.serve.push(serve(2, 700_000, 10));
    catalog.serve.push(serve(3, 5, 12));
    assert_eq!(
        catalog.create_order(8, &order_form(vec![2, 1, 77]), 100).err(),
        Some(Error::NotFound(Missing::Serve))
    );
    assert!(catalog.orders.is_empty());
    assert!(catalog.serve_items.is_empty());
    let resp = catalog.create_order(8, &order_form(vec![2, 1, 2]), 100).unwrap();
    assert_eq!(resp.order_id, 1);
    let order = &catalog.orders[0];
    assert_eq!(order.id, 1);
    assert_eq!(order.user_id, 8);
    assert_eq!(order.price, 2_200_000);
    assert_eq!(order.price_acc, Some(154_000));
    assert_eq!(order.created, 10_800_000_100);
    assert_eq!(order.title, "Site");
    assert_eq!(
        catalog.order_files.iter().map(|f| (f.id, f.order_id, f.src.clone())).collect::<Vec<_>>(),
        vec![(1, 1, String::from("media/brief.pdf")), (2, 1, String::from("media/logo.png"))]
    );
    assert_eq!(
        catalog.serve_items.iter().map(|l| (l.serve_id, l.item_id, l.types)).collect::<Vec<_>>(),
        vec![(2, 30, 2), (1, 30, 2), (2, 30, 2)]
    );
    assert_eq!(
        catalog
            .tech_categories_items
            .iter()
            .map(|l| (l.category_id, l.item_id, l.is_active))
            .collect::<Vec<_>>(),
        vec![(10, 30, 1)]
    );
}

#[test]
fn order_without_options_costs_nothing() {
    let mut catalog = Catalog::new();
    catalog.create_order(8, &order_form(vec![]), 0).unwrap();
    assert_eq!(catalog.orders[0].price, 0);
    assert_eq!(catalog.orders[0].price_acc, None);
}

#[test]
fn order_is_refused_without_token_or_customer() {
    let mut catalog = Catalog::new();
    let mut bad = order_form(vec![]);
    bad.token = String::new();
    assert_eq!(
        catalog.create_order(8, &bad, 0).err(),
        Some(Error::PermissionDenied(Denial::Forbidden))
    );
    assert_eq!(
        catalog.create_order(0, &order_form(vec![]), 0).err(),
        Some(Error::NotFound(Missing::Visitor))
    );
    assert!(catalog.orders.is_empty());
    assert!(catalog.order_files.is_empty());
}

#[test]
fn order_is_deleted_by_its_customer_with_its_links() {
    let mut catalog = Catalog::new();
    catalog.create_order(8, &order_form(vec![]), 0).unwrap();
    catalog.serve_items.push(ServeItems { id: 1, serve_id: 4, item_id: 1, types: 7 });
    catalog.serve_items.push(ServeItems { id: 2, serve_id: 4, item_id: 1, types: 2 });
    let request = DeleteOrderData { token: Some(String::from("111")), id: Some(1) };
    assert_eq!(catalog.delete_order(9, &request), Err(Error::PermissionDenied(Denial::Forbidden)));
    assert_eq!(catalog.orders.len(), 1);
    assert_eq!(catalog.delete_order(8, &request), Ok(1));
    assert!(catalog.orders.is_empty());
    assert_eq!(catalog.serve_items.iter().map(|l| l.id).collect::<Vec<_>>(), vec![2]);
    assert_eq!(catalog.delete_order(8, &request), Err(Error::NotFound(Missing::Order)));
    assert_eq!(
        catalog.delete_order(8, &DeleteOrderData { token: None, id: Some(1) }),
        Err(Error::PermissionDenied(Denial::Forbidden))
    );
    assert_eq!(
        catalog.delete_order(8, &DeleteOrderData { token: Some(String::from("111")), id: None }),
        Err(Error::ValidationFailed(Field::Id))
    );
}

#[test]
fn orders_of_a_customer_are_paged() {
    let mut catalog = Catalog::new();
    for n in 0..5 {
        catalog.create_order(if n % 2 == 0 { 8 } else { 9 }, &order_form(vec![]), 0).unwrap();
    }
    let (rows, next) = Order::get_user_orders_list(&catalog, 8, 1, 2);
    assert_eq!(rows.iter().map(|o| o.id).collect::<Vec<_>>(), vec![1, 3]);
    assert_eq!(next, 2);
    let (rows, next) = Order::get_user_orders_list(&catalog, 8, 2, 2);
    assert_eq!(rows.iter().map(|o| o.id).collect::<Vec<_>>(), vec![5]);
    assert_eq!(next, 0);
    let (rows, next) = Order::get_orders_list(&catalog, 1, 5);
    assert_eq!(rows.len(), 5);
    assert_eq!(next, 0);
}

#[test]
fn default_option_adds_its_price_to_the_category() {
    let mut catalog = with_serve_category();
    assert_eq!(catalog.create_serve(owner(), &serve_form(1, 500, true)), Ok(1));
    assert_eq!(catalog.create_serve(owner(), &serve_form(1, 70, false)), Ok(1));
    assert_eq!(catalog.serve_categories[0].count, 2);
    assert_eq!(catalog.serve_categories[0].default_price, 500);
    assert_eq!(catalog.serve[0].tech_cat_id, 3);
    assert_eq!(catalog.serve[0].description, Some(String::from("d")));
    assert_eq!(catalog.serve[1].id, 2);
}

#[test]
fn edit_moves_the_default_price_by_the_price_so_far() {
    let mut catalog = with_serve_category();
    catalog.create_serve(owner(), &serve_form(1, 500, true)).unwrap();
    let mut change = serve_form(1, 900, false);
    change.id = 1;
    assert_eq!(catalog.edit_serve(owner(), &change), Ok(1));
    assert_eq!(catalog.serve_categories[0].default_price, 0);
    assert_eq!(catalog.serve[0].price, 900);
    assert!(!catalog.serve[0].is_default);
    change.is_default = true;
    change.price = 100;
    assert_eq!(catalog.edit_serve(owner(), &change), Ok(1));
    assert_eq!(catalog.serve_categories[0].default_price, 900);
    assert_eq!(catalog.serve[0].price, 100);
    assert_eq!(catalog.serve_categories[0].count, 1);
}

#[test]
fn delete_takes_the_option_out_of_its_category() {
    let mut catalog = with_serve_category();
    catalog.create_serve(owner(), &serve_form(1, 500, true)).unwrap();
    catalog.create_serve(owner(), &serve_form(1, 70, false)).unwrap();
    let request = DeleteServeData { token: Some(String::from("111")), id: Some(1) };
    assert_eq!(
        catalog.delete_serve(Actor { id: 2, perm: 1 }, &request),
        Err(Error::PermissionDenied(Denial::Forbidden))
    );
    assert_eq!(
        catalog.delete_serve(Actor { id: 0, perm: 0 }, &request),
        Err(Error::PermissionDenied(Denial::NotAuthenticated))
    );
    assert_eq!(catalog.delete_serve(Actor { id: 2, perm: 61 }, &request), Ok(1));
    assert_eq!(catalog.serve_categories[0].count, 1);
    assert_eq!(catalog.serve_categories[0].default_price, 0);
    assert_eq!(catalog.serve.iter().map(|s| s.id).collect::<Vec<_>>(), vec![2]);
    assert_eq!(catalog.delete_serve(owner(), &request), Err(Error::NotFound(Missing::Serve)));
}

#[test]
fn option_is_refused_when_the_default_prices_leave_their_column() {
    let mut catalog = with_serve_category();
    catalog.serve_categories[0].default_price = i32::MAX - 10;
    assert_eq!(
        catalog.create_serve(owner(), &serve_form(1, 11, true)),
        Err(Error::Conflict(Clash::OutOfRange))
    );
    assert!(catalog.serve.is_empty());
    assert_eq!(catalog.create_serve(owner(), &serve_form(1, 10, true)), Ok(1));
    assert_eq!(catalog.create_serve(owner(), &serve_form(2, 10, true)), Err(Error::NotFound(Missing::ServeCategory)));
}

#[test]
fn deleting_a_serve_category_counts_down_its_technical_category() {
    let mut catalog = with_serve_category();
    let request = DeleteServeData { token: Some(String::from("111")), id: Some(1) };
    assert_eq!(catalog.delete_serve_category(owner(), &request), Ok(1));
    assert!(catalog.serve_categories.is_empty());
    assert_eq!(catalog.tech_categories[0].count, 0);
    assert_eq!(catalog.delete_tech_category(owner(), &DeleteServeData { token: Some(String::from("111")), id: Some(3) }), Ok(1));
    assert!(catalog.tech_categories.is_empty());
}

#[test]
fn technical_and_serve_categories_are_created_and_edited() {
    let mut catalog = Catalog::new();
    let mut form = CategoriesForm {
        token: String::from("111"),
        id: 0,
        name: String::from("Back end"),
        description: String::from("servers"),
        position: 3,
        image: String::new(),
        level: 2,
        types: 0,
        slug: String::new(),
        tech_categories: 1,
    };
    assert_eq!(catalog.create_tech_categories(owner(), &form), Ok(1));
    assert_eq!(catalog.create_serve_categories(owner(), &form), Ok(1));
    assert_eq!(catalog.tech_categories[0].level, 2);
    assert_eq!(catalog.tech_categories[0].count, 0);
    assert_eq!(catalog.serve_categories[0].tech_categories, 1);
    form.id = 1;
    form.name = String::from("Front end");
    form.level = 1;
    assert_eq!(catalog.edit_tech_category(owner(), &form), Ok(1));
    assert_eq!(catalog.tech_categories[0].name, "Front end");
    assert_eq!(catalog.tech_categories[0].level, 1);
    assert_eq!(
        catalog.edit_serve_category(Actor { id: 5, perm: 1 }, &form),
        Err(Error::PermissionDenied(Denial::Forbidden))
    );
    form.id = 4;
    assert_eq!(catalog.edit_tech_category(owner(), &form), Err(Error::NotFound(Missing::TechCategory)));
    assert_eq!(catalog.edit_serve_category(owner(), &form), Err(Error::NotFound(Missing::ServeCategory)));
}

#[test]
fn serve_form_is_read_from_its_pieces() {
    let fields = vec![
        field("token", "111"),
        field("id", "12"),
        field("name", "Design"),
        field("description", "logo and colours"),
        field("position", "-3"),
        field("serve_categories", "4"),
        field("price", "+2500"),
        field("man_hours", "16"),
        field("is_default", "off"),
        field("serve_id", "9"),
        field("unknown", "x"),
        FormField { name: String::from("price"), text: None },
    ];
    let form = serve_split_payload(&fields).unwrap();
    assert_eq!(form.token, "111");
    assert_eq!(form.id, 12);
    assert_eq!(form.name, "Design");
    assert_eq!(form.description, "logo and colours");
    assert_eq!(form.position, -3);
    assert_eq!(form.serve_categories, 4);
    assert_eq!(form.price, 2500);
    assert_eq!(form.man_hours, 16);
    assert!(!form.is_default);
    assert_eq!(form.serve_id, Some(9));
}

#[test]
fn serve_form_defaults_and_last_piece_wins() {
    let form = serve_split_payload(&vec![]).unwrap();
    assert_eq!(form.id, 0);
    assert!(form.is_default);
    assert_eq!(form.serve_id, None);
    assert_eq!(form.name, "");
    let form = serve_split_payload(&vec![field("price", "1"), field("is_default", "on"), field("price", "2")]).unwrap();
    assert_eq!(form.price, 2);
    assert!(form.is_default);
}

#[test]
fn serve_form_reports_a_field_that_is_no_number() {
    assert_eq!(
        serve_split_payload(&vec![field("name", "x"), field("price", "12a"), field("id", "3")]).err(),
        Some(Error::ValidationFailed(Field::Number))
    );
    assert_eq!(
        serve_split_payload(&vec![field("man_hours", "40000")]).err(),
        Some(Error::ValidationFailed(Field::Number))
    );
    assert_eq!(
        serve_split_payload(&vec![field("id", "")]).err(),
        Some(Error::ValidationFailed(Field::Number))
    );
}
