use catalog_core::errors::{Error, Field};
use catalog_core::forms::{
    category_form, feedback_form, files_form, find_last_text, item_form, number_field,
    numbers_field, order_form, FormField,
};

fn field(name: &str, text: &str) -> FormField {
    FormField { name: String::from(name), text: Some(String::from(text)) }
}

fn no_text(name: &str) -> FormField {
    FormField { name: String::from(name), text: None }
}

#[test]
fn last_piece_of_a_name_decides_a_field() {
    let fields = vec![field("id", "1"), field("title", "a"), field("id", "2"), no_text("id")];
    assert_eq!(find_last_text(&fields, "id"), Some(String::from("2")));
    assert_eq!(find_last_text(&fields, "slug"), None);
    assert_eq!(number_field(&fields, "id"), Some(2));
    assert_eq!(number_field(&fields, "position"), Some(0));
    assert_eq!(number_field(&fields, "title"), None);
}

#[test]
fn lists_take_every_piece_of_their_name() {
    let fields = vec![field("tags_list[]", "3"), field("x", "9"), field("tags_list[]", "-1"), no_text("tags_list[]")];
    assert_eq!(numbers_field(&fields, "tags_list[]"), Some(vec![3, -1]));
    assert_eq!(numbers_field(&fields, "none"), Some(vec![]));
    assert_eq!(numbers_field(&vec![field("a", "1"), field("a", "b"), field("a", "2")], "a"), None);
}

#[test]
fn item_form_is_read_from_its_pieces() {
    let fields = vec![
        field("token", "111"),
        field("id", "7"),
        field("title", "A title"),
        field("link", "https://example.org"),
        field("position", "3"),
        field("types", "2"),
        field("slug", "a-title"),
        field("category_list[]", "1"),
        field("category_list[]", "2"),
        field("tags_list[]", "5"),
        field("serve_list[]", "8"),
        field("serve_list[]", "8"),
        field("close_tech_cats_list[]", "4"),
    ];
    let form = item_form(&fields).unwrap();
    assert_eq!(form.token, "111");
    assert_eq!(form.id, 7);
    assert_eq!(form.title, "A title");
    assert_eq!(form.link, Some(String::from("https://example.org")));
    assert_eq!(form.main_image, None);
    assert_eq!(form.position, 3);
    assert_eq!(form.types, 2);
    assert_eq!(form.slug, "a-title");
    assert_eq!(form.category_list, vec![1, 2]);
    assert_eq!(form.tags_list, vec![5]);
    assert_eq!(form.serve_list, vec![8, 8]);
    assert_eq!(form.close_tech_cats_list, vec![4]);
    let empty = item_form(&vec![]).unwrap();
    assert_eq!((empty.id, empty.position, empty.types), (0, 0, 0));
    assert_eq!(empty.title, "");
    assert!(empty.category_list.is_empty());
}

#[test]
fn forms_report_a_field_that_is_no_number() {
    assert_eq!(item_form(&vec![field("position", "40000")]).err(), Some(Error::ValidationFailed(Field::Number)));
    assert_eq!(item_form(&vec![field("tags_list[]", "x")]).err(), Some(Error::ValidationFailed(Field::Number)));
    assert_eq!(category_form(&vec![field("level", "one")]).err(), Some(Error::ValidationFailed(Field::Number)));
    assert_eq!(order_form(&vec![field("object_id", "")]).err(), Some(Error::ValidationFailed(Field::Number)));
    assert_eq!(files_form(&vec![field("item_types", "1.5")]).err(), Some(Error::ValidationFailed(Field::Number)));
}

#[test]
fn other_forms_are_read_from_their_pieces() {
    let fields = vec![
        field("token", "111"),
        field("id", "4"),
        field("name", "News"),
        field("description", "about"),
        field("position", "2"),
        field("image", "/media/c.png"),
        field("level", "1"),
        field("types", "6"),
        field("slug", "news"),
        field("tech_categories", "9"),
        field("title", "Site"),
        field("object_id", "30"),
        field("username", "Ann"),
        field("email", "ann@example.org"),
        field("message", "hello"),
        field("item_types", "3"),
        field("files[]", "media/a.png"),
        field("files[]", "media/b.png"),
        field("serve_list[]", "1"),
    ];
    let category = category_form(&fields).unwrap();
    assert_eq!((category.id, category.position, category.level, category.types, category.tech_categories), (4, 2, 1, 6, 9));
    assert_eq!(category.name, "News");
    assert_eq!(category.image, "/media/c.png");
    assert_eq!(category.slug, "news");
    let order = order_form(&fields).unwrap();
    assert_eq!((order.types, order.object_id), (6, 30));
    assert_eq!(order.title, "Site");
    assert_eq!(order.description, Some(String::from("about")));
    assert_eq!(order.files, vec![String::from("media/a.png"), String::from("media/b.png")]);
    assert_eq!(order.serve_list, vec![1]);
    let feedback = feedback_form(&fields);
    assert_eq!(feedback.username, "Ann");
    assert_eq!(feedback.email, "ann@example.org");
    assert_eq!(feedback.message, "hello");
    let files = files_form(&fields).unwrap();
    assert_eq!((files.id, files.types, files.item_types), (4, 6, 3));
    assert_eq!(files.files.len(), 2);
}
