use catalog_core::catalog::Catalog;
use catalog_core::errors::{Denial, Error, Field, Missing};
use catalog_core::items::{DeleteItemData, ItemForm};
use catalog_core::manage::{FeedbackForm, FilesForm};
use catalog_core::models::{Message, NewItem, NewItemComment, NewItemContent, TagItems};
use catalog_core::requests::Actor;
use catalog_core::serve::CategoriesForm;
use catalog_core::errors::Clash;
use catalog_core::models::Tag;

fn cat_form(id: i32, name: &str) -> CategoriesForm {
    CategoriesForm {
        token: String::from("111"),
        id,
        name: String::from(name),
        description: String::from("about"),
        position: 2,
        image: String::from("/media/c.png"),
        level: 0,
        types: 1,
        slug: String::from("news"),
        tech_categories: 0,
    }
}

fn request(id: i32) -> DeleteItemData {
    DeleteItemData { id: Some(id), token: Some(String::from("111")) }
}

fn feedback(message: &str, email: &str) -> FeedbackForm {
    FeedbackForm {
        token: String::from("111"),
        username: String::from("Ann"),
        email: String::from(email),
        message: String::from(message),
    }
}

#[test]
fn category_is_created_edited_and_deleted_by_its_owner() {
    let mut catalog = Catalog::new();
    assert_eq!(catalog.create_category(4, &cat_form(0, "News")), Ok(1));
    let row = &catalog.categories[0];
    assert_eq!((row.id, row.user_id, row.count, row.types), (1, 4, 0, 1));
    assert_eq!(row.description, Some(String::from("about")));
    assert_eq!(row.image, Some(String::from("/media/c.png")));
    assert_eq!(
        catalog.edit_category(5, &cat_form(1, "Olds")),
        Err(Error::PermissionDenied(Denial::Forbidden))
    );
    assert_eq!(catalog.categories[0].name, "News");
    assert_eq!(catalog.edit_category(4, &cat_form(1, "Olds")), Ok(1));
    assert_eq!(catalog.categories[0].name, "Olds");
    assert_eq!(catalog.edit_category(4, &cat_form(0, "x")), Err(Error::ValidationFailed(Field::Id)));
    assert_eq!(catalog.edit_category(4, &cat_form(9, "x")), Err(Error::NotFound(Missing::Category)));
    assert_eq!(
        catalog.delete_category(5, &request(1)),
        Err(Error::PermissionDenied(Denial::Forbidden))
    );
    assert_eq!(catalog.delete_category(4, &request(1)), Ok(1));
    assert!(catalog.categories.is_empty());
    assert_eq!(catalog.create_category(0, &cat_form(0, "x")), Err(Error::PermissionDenied(Denial::Forbidden)));
}

#[test]
fn tag_is_deleted_with_its_links() {
    let mut catalog = Catalog::new();
    let owner = Actor { id: 4, perm: 1 };
    assert_eq!(catalog.create_tag(owner, &cat_form(0, "rust")), Ok(1));
    assert_eq!(catalog.create_tag(owner, &cat_form(0, "verus")), Ok(1));
    catalog.tags_items.push(TagItems { id: 1, tag_id: 1, item_id: 5, types: 1, created: 0 });
    catalog.tags_items.push(TagItems { id: 2, tag_id: 2, item_id: 5, types: 1, created: 0 });
    catalog.tags_items.push(TagItems { id: 3, tag_id: 1, item_id: 6, types: 2, created: 0 });
    assert_eq!(catalog.edit_tag(Actor { id: 9, perm: 60 }, &cat_form(2, "Verus")), Ok(1));
    assert_eq!(catalog.tags[1].name, "Verus");
    assert_eq!(catalog.tags[1].position, 2);
    assert_eq!(
        catalog.edit_tag(Actor { id: 9, perm: 59 }, &cat_form(2, "x")),
        Err(Error::PermissionDenied(Denial::Forbidden))
    );
    assert_eq!(
        catalog.delete_tag(Actor { id: 9, perm: 1 }, &request(1)),
        Err(Error::PermissionDenied(Denial::Forbidden))
    );
    assert_eq!(catalog.delete_tag(owner, &request(1)), Ok(1));
    assert_eq!(catalog.tags.iter().map(|t| t.id).collect::<Vec<_>>(), vec![2]);
    assert_eq!(catalog.tags_items.iter().map(|l| l.id).collect::<Vec<_>>(), vec![2]);
    assert_eq!(catalog.delete_tag(owner, &request(1)), Err(Error::NotFound(Missing::Tag)));
}

#[test]
fn files_are_attached_edited_and_deleted_by_the_owner_of_the_item() {
    let mut catalog = Catalog::new();
    let form = ItemForm {
        token: String::from("111"),
        id: 0,
        title: String::from("t"),
        link: None,
        main_image: None,
        position: 0,
        types: 3,
        slug: String::from("t"),
        category_list: vec![],
        tags_list: vec![],
        serve_list: vec![],
        close_tech_cats_list: vec![],
    };
    catalog.create_item(4, &form, 0).unwrap();
    let files = FilesForm {
        token: String::from("111"),
        id: 1,
        types: 1,
        item_types: 3,
        files: vec![String::from("media/a.png"), String::from("media/b.png")],
    };
    assert_eq!(catalog.create_files(5, &files), Err(Error::PermissionDenied(Denial::Forbidden)));
    assert_eq!(catalog.create_files(4, &files), Ok(1));
    assert_eq!(
        catalog.files.iter().map(|f| (f.id, f.item_id, f.item_types, f.types, f.src.clone())).collect::<Vec<_>>(),
        vec![(1, 1, 3, 1, String::from("media/a.png")), (2, 1, 3, 1, String::from("media/b.png"))]
    );
    let other_kind = FilesForm { item_types: 2, ..FilesForm { token: String::from("111"), id: 1, types: 1, item_types: 0, files: vec![] } };
    assert_eq!(catalog.create_files(4, &other_kind), Err(Error::NotFound(Missing::Item)));
    assert_eq!(catalog.edit_file(4, &cat_form(2, "")), Ok(1));
    assert_eq!(catalog.files[1].description, Some(String::from("about")));
    assert_eq!(catalog.files[1].position, 2);
    assert_eq!(catalog.delete_file(5, &request(1)), Err(Error::PermissionDenied(Denial::Forbidden)));
    assert_eq!(catalog.delete_file(4, &request(1)), Ok(String::from("media/a.png")));
    assert_eq!(catalog.files.iter().map(|f| f.id).collect::<Vec<_>>(), vec![2]);
    assert_eq!(catalog.delete_file(4, &request(1)), Err(Error::NotFound(Missing::File)));
}

#[test]
fn feedback_needs_thirty_characters_and_an_address() {
    let mut catalog = Catalog::new();
    let long = "This message has thirty chars.";
    assert_eq!(long.chars().count(), 30);
    assert_eq!(catalog.create_feedback(3, &feedback(long, "ann@example.org")), Ok(1));
    assert_eq!(catalog.feedbacks[0].message, long);
    assert_eq!(catalog.feedbacks[0].user_id, 3);
    assert_eq!(
        catalog.create_feedback(3, &feedback(&long[..29], "ann@example.org")),
        Err(Error::ValidationFailed(Field::Message))
    );
    assert_eq!(
        catalog.create_feedback(3, &feedback(long, "ann.example.org")),
        Err(Error::ValidationFailed(Field::Message))
    );
    assert_eq!(
        catalog.create_feedback(0, &feedback(long, "ann@example.org")),
        Err(Error::PermissionDenied(Denial::Forbidden))
    );
    let cyrillic = "Очень хорошая статья, спасибо!";
    assert_eq!(cyrillic.chars().count(), 30);
    assert_eq!(catalog.create_feedback(3, &feedback(cyrillic, "a@b")), Ok(1));
}

#[test]
fn visitor_may_leave_six_messages() {
    let mut catalog = Catalog::new();
    let long = "This message has thirty chars.";
    for _ in 0..6 {
        assert_eq!(catalog.create_feedback(3, &feedback(long, "a@b")), Ok(1));
    }
    assert_eq!(
        catalog.create_feedback(3, &feedback(long, "a@b")),
        Err(Error::PermissionDenied(Denial::Forbidden))
    );
    assert_eq!(catalog.create_feedback(4, &feedback(long, "a@b")), Ok(1));
    assert_eq!(catalog.feedbacks.len(), 7);
}

#[test]
fn message_is_stored_with_its_files() {
    let mut catalog = Catalog::new();
    let mut messages: Vec<Message> = Vec::new();
    let stored = Message::create(
        &mut messages,
        &mut catalog,
        4,
        9,
        Some(String::from("hello")),
        Some(vec![String::from("p1"), String::from("p2")]),
        None,
        Some(vec![String::from("a1")]),
        Some(vec![]),
        100,
    )
    .unwrap();
    assert_eq!((stored.id, stored.user_id, stored.chat_id, stored.view, stored.types), (1, 4, 9, 1, 1));
    assert_eq!(stored.created, 10_800_000_100);
    assert_eq!(stored.content, Some(String::from("hello")));
    assert_eq!(messages.len(), 1);
    assert_eq!(
        catalog.files.iter().map(|f| (f.id, f.item_id, f.item_types, f.types, f.src.clone())).collect::<Vec<_>>(),
        vec![
            (1, 1, 11, 1, String::from("p1")),
            (2, 1, 11, 1, String::from("p2")),
            (3, 1, 11, 3, String::from("a1")),
        ]
    );
}

#[test]
fn new_rows_are_stamped_three_hours_ahead_in_microseconds() {
    let item = NewItem::create(String::from("t"), None, None, 4, 2, 5, String::from("s"), 1_000);
    assert_eq!(item.created, 10_800_001_000);
    assert_eq!((item.item_types, item.price, item.types, item.position, item.user_id), (1, 0, 5, 2, 4));
    assert_eq!(item.price_acc, None);
    let comment = NewItemComment::new(String::from("c"), 3, 4, Some(1), 0);
    assert_eq!(comment.created, 10_800_000_000);
    assert_eq!(comment.parent_id, Some(1));
    let content = NewItemContent::new(String::from("a"), String::from("b"), String::from("c"), 3, 1, 4, 7, 0);
    assert_eq!((content.types, content.item_id, content.item_types, content.position), (1, 3, 1, 7));
    assert_eq!(content.created, 10_800_000_000);
}

#[test]
fn nothing_is_stored_once_the_ids_are_used_up() {
    let mut catalog = Catalog::new();
    catalog.tags.push(Tag {
        id: i32::MAX,
        name: String::from("last"),
        position: 0,
        count: 0,
        user_id: 4,
        view: 0,
        seconds: 0,
    });
    assert_eq!(
        catalog.create_tag(Actor { id: 4, perm: 1 }, &cat_form(0, "more")),
        Err(Error::Conflict(Clash::KeysExhausted))
    );
    assert_eq!(catalog.tags.len(), 1);
}
