use catalog_core::catalog::Catalog;
use catalog_core::detail::get_item_data;
use catalog_core::errors::{Denial, Error, Field, Missing};
use catalog_core::models::{
    Categories, Category, File, Help, Item, ItemContent, StatPage, Tag, TagItems, TechCategories,
    TechCategoriesItem, User,
};
use catalog_core::pages::{
    blog_categories_page, blog_category_page, edit_item_page, feedback_list_page, get_blog_page,
    help_category_page, image_page, index_page, serve_list_page, unical_object_form_page,
    CategoryDetailData, EditItemData, ImageData, ItemDetailData, UnicalObjectFormData,
};
use catalog_core::requests::{IsAjaxData, IsAjaxPageData};
use catalog_core::search_pages::{search_blogs_page, search_page, SearchItemsPageData, SearchPageData};
use catalog_core::tag_pages::{tag_blogs_page, tag_page, TagPageData};
use catalog_core::order_pages::{get_order_page, get_orders_page, get_user_orders_page};
use catalog_core::orders::{OrderForm, OrderPageData};
use catalog_core::pages::{get_user_history_page, UserHistoryData};
use catalog_core::serve_pages::{load_form_from_level, LoadCategoriesData};

fn item(id: i32, types: i16, item_types: i16, created: i64, position: i16) -> Item {
    Item {
        id,
        title: format!("Title {}", id),
        link: Some(format!("https://example.org/{}", id)),
        image: None,
        description: None,
        item_types,
        price: 10 * id,
        user_id: 1,
        created: created * 1_000_000,
        position,
        price_acc: None,
        types,
        slug: format!("slug-{}", id),
        view: 3,
        seconds: 40,
    }
}

fn category(id: i32, types: i16, slug: &str) -> Categories {
    Categories {
        id,
        name: format!("Cat {}", id),
        user_id: 1,
        description: None,
        position: 0,
        image: None,
        count: 2,
        view: 5,
        seconds: 6,
        types,
        slug: String::from(slug),
    }
}

fn user(id: i32, name: &str, perm: i16) -> User {
    User {
        id,
        first_name: String::from("First"),
        last_name: String::from("Last"),
        username: String::from(name),
        email: String::new(),
        password: String::new(),
        bio: None,
        image: None,
        perm,
        view: 0,
        seconds: 0,
    }
}

fn content(id: i32, item_id: i32, item_types: i16, title: &str, body: &str) -> ItemContent {
    ItemContent {
        id,
        title: String::from(title),
        item_title: String::from("Item"),
        content: String::from(body),
        types: 1,
        item_id,
        item_types,
        user_id: 1,
        position: 1,
        created: 500_000 * id as i64,
    }
}

fn site() -> Catalog {
    let mut c = Catalog::new();
    c.users.push(user(1, "ann", 1));
    c.users.push(user(2, "root", 60));
    c.stat_pages.push(StatPage { id: 1, types: 1, view: 100, seconds: 900 });
    c.stat_pages.push(StatPage { id: 2, types: 41, view: 7, seconds: 8 });
    c.categories.push(category(1, 1, "news"));
    c.categories.push(category(2, 6, "faq"));
    c.categories.push(category(3, 1, "notes"));
    c.items.push(item(1, 1, 1, 100, 0));
    c.items.push(item(2, 1, 11, 300, 0));
    c.items.push(item(3, 1, 1, 200, 0));
    c.items.push(item(4, 6, 6, 50, 2));
    c.items.push(item(5, 6, 6, 60, 1));
    c.items.push(item(6, 2, 2, 70, 0));
    for (id, cat, it, types) in [(1, 1, 1, 1), (2, 1, 2, 1), (3, 1, 3, 1), (4, 2, 4, 6), (5, 2, 5, 6), (6, 3, 3, 1)] {
        c.category.push(Category { id, categories_id: cat, item_id: it, types });
    }
    c.tags.push(Tag { id: 1, name: String::from("rust"), position: 0, count: 2, user_id: 1, view: 0, seconds: 0 });
    c.tags.push(Tag { id: 2, name: String::from("web"), position: 0, count: 1, user_id: 1, view: 0, seconds: 0 });
    for (id, tag, it, types) in [(1, 1, 1, 1), (2, 1, 3, 1), (3, 1, 6, 2), (4, 2, 2, 1)] {
        c.tags_items.push(TagItems { id, tag_id: tag, item_id: it, types, created: 0 });
    }
    c.item_contents.push(content(1, 1, 1, "Intro", "Rust is fast"));
    c.item_contents.push(content(2, 3, 1, "RUSTY nails", "nothing"));
    c.item_contents.push(content(3, 6, 2, "Service", "we write rust"));
    c.item_contents.push(content(4, 2, 1, "Hidden", "rust in secret"));
    c
}

fn detail(slug: &str, cat_slug: &str) -> ItemDetailData {
    ItemDetailData { cat_slug: Some(String::from(cat_slug)), slug: Some(String::from(slug)), is_ajax: None }
}

#[test]
fn front_page_shows_the_newest_of_each_kind() {
    let c = site();
    let page = index_page(&c, 0, true, None).unwrap();
    assert_eq!(page.last_blogs.iter().map(|b| b.id).collect::<Vec<_>>(), vec![3, 1]);
    assert_eq!(page.last_services.iter().map(|b| b.id).collect::<Vec<_>>(), vec![6]);
    assert!(page.last_works.is_empty());
    assert_eq!((page.view, page.seconds), (100, 900));
    assert_eq!(page.request_user.id, 0);
    assert_eq!(page.request_user.categories.blog_cats.len(), 2);
    let admin = index_page(&c, 2, true, Some(&IsAjaxData { is_ajax: None })).unwrap();
    assert_eq!(admin.last_blogs.iter().map(|b| b.id).collect::<Vec<_>>(), vec![2, 3, 1]);
    assert_eq!(admin.request_user.username, "root");
}

#[test]
fn front_page_needs_its_statistics() {
    let mut c = site();
    c.stat_pages.clear();
    assert_eq!(index_page(&c, 0, true, None).err(), Some(Error::NotFound(Missing::StatPage)));
}

#[test]
fn item_page_shows_item_category_and_neighbours() {
    let c = site();
    let page = get_blog_page(&c, 1, false, Some(&detail("slug-3", "news"))).unwrap();
    assert_eq!(page.object.id, 3);
    assert_eq!(page.object.title, "Title 3");
    assert_eq!(page.object.link, Some(String::from("https://example.org/3")));
    assert_eq!(page.object.created, "01-01-1970 в 00:03");
    assert_eq!(page.object.image, "/static/images/img.jpg");
    assert_eq!(page.object.price, 30);
    assert_eq!(page.object.view, 3);
    assert_eq!(page.object.tags.iter().map(|t| t.name.clone()).collect::<Vec<_>>(), vec!["rust"]);
    assert_eq!(page.object.owner.username, "ann");
    assert_eq!(page.object.contents.len(), 1);
    assert_eq!(page.object.contents[0].title, "RUSTY nails");
    assert_eq!(page.object.contents[0].created, "1970-01-01 00:00:01");
    let first_block = c.items[0].get_contents(&c);
    assert_eq!(first_block[0].created, "1970-01-01 00:00:00.500");
    assert_eq!(page.category.id, 1);
    assert_eq!(page.category.image, Some(String::from("/static/images/img.jpg")));
    assert_eq!(page.cats.iter().map(|x| x.id).collect::<Vec<_>>(), vec![1, 3]);
    assert_eq!(page.all_tags.len(), 2);
    assert!(page.next.is_none());
    assert!(page.prev.is_none());
    let first = get_blog_page(&c, 1, false, Some(&detail("slug-1", "news"))).unwrap();
    assert!(first.prev.is_none());
    assert!(first.next.is_none());
}

#[test]
fn neighbours_are_the_published_items_linked_before_and_after() {
    let mut c = site();
    c.category.push(Category { id: 7, categories_id: 1, item_id: 1, types: 1 });
    let last = get_blog_page(&c, 1, false, Some(&detail("slug-1", "news"))).unwrap();
    assert_eq!(last.prev.map(|f| f.slug), Some(String::from("slug-3")));
    assert!(last.next.is_none());
    let row = c.categories[0].clone();
    let (prev, next) = row.get_featured_items(&c, 1, 3);
    assert!(prev.is_none());
    assert_eq!(next.map(|f| f.title), Some(String::from("Title 1")));
    let (prev, next) = row.get_featured_items(&c, 1, 2);
    assert_eq!(prev.map(|f| f.slug), Some(String::from("slug-1")));
    assert_eq!(next.map(|f| f.slug), Some(String::from("slug-3")));
    let (prev, next) = row.get_featured_items(&c, 1, 99);
    assert!(prev.is_none() && next.is_none());
}

#[test]
fn item_page_checks_the_query_in_order() {
    let c = site();
    assert_eq!(get_blog_page(&c, 1, false, None).err(), Some(Error::ValidationFailed(Field::Params)));
    let mut q = detail("slug-3", "news");
    q.slug = None;
    q.cat_slug = None;
    assert_eq!(get_blog_page(&c, 1, false, Some(&q)).err(), Some(Error::ValidationFailed(Field::Slug)));
    q.slug = Some(String::new());
    assert_eq!(get_blog_page(&c, 1, false, Some(&q)).err(), Some(Error::ValidationFailed(Field::CatSlug)));
    q.cat_slug = Some(String::new());
    assert_eq!(get_blog_page(&c, 1, false, Some(&q)).err(), Some(Error::ValidationFailed(Field::SlugEmpty)));
    q.slug = Some(String::from("slug-3"));
    assert_eq!(get_blog_page(&c, 1, false, Some(&q)).err(), Some(Error::ValidationFailed(Field::CatSlugEmpty)));
    assert_eq!(
        get_blog_page(&c, 1, false, Some(&detail("nope", "news"))).err(),
        Some(Error::NotFound(Missing::Item))
    );
    assert_eq!(
        get_blog_page(&c, 1, false, Some(&detail("slug-3", "faq"))).err(),
        Some(Error::NotFound(Missing::Category))
    );
    assert_eq!(
        get_blog_page(&c, 9, false, Some(&detail("slug-3", "news"))).err(),
        Some(Error::NotFound(Missing::User))
    );
}

#[test]
fn hidden_item_is_shown_in_full_to_administrators_only() {
    let c = site();
    let hidden = c.items[1].clone();
    let public = get_item_data(&c, &hidden, 1);
    assert_eq!(public.id, 2);
    assert_eq!(public.title, "Title 2");
    assert_eq!(public.link, None);
    assert_eq!(public.item_types, 0);
    assert_eq!(public.created, "");
    assert_eq!(public.price, 0);
    assert!(public.tags.is_empty());
    assert!(public.contents.is_empty());
    assert_eq!(public.owner.username, "ann");
    let admin = get_item_data(&c, &hidden, 60);
    assert_eq!(admin.item_types, 11);
    assert_eq!(admin.price, 20);
    assert_eq!(admin.tags.len(), 1);
    assert_eq!(admin.contents.len(), 1);
}

#[test]
fn category_page_lists_its_items_page_by_page() {
    let c = site();
    let q = CategoryDetailData { slug: Some(String::from("news")), is_ajax: None, page: None };
    let page = blog_category_page(&c, 1, true, Some(&q)).unwrap();
    assert_eq!(page.category.id, 1);
    assert_eq!(page.category.count, 2);
    assert_eq!((page.category.view, page.category.seconds), (5, 6));
    assert_eq!(page.object_list.iter().map(|b| b.id).collect::<Vec<_>>(), vec![3, 1]);
    assert_eq!(page.next_page_number, 0);
    assert_eq!(page.cats.len(), 2);
    let admin = blog_category_page(&c, 2, true, Some(&q)).unwrap();
    assert_eq!(admin.object_list.iter().map(|b| b.id).collect::<Vec<_>>(), vec![2, 3, 1]);
    let small = CategoryDetailData { slug: Some(String::from("news")), is_ajax: Some(3), page: Some(0) };
    let part = blog_category_page(&c, 1, true, Some(&small)).unwrap();
    assert!(part.cats.is_empty());
    assert!(part.all_tags.is_empty());
    assert_eq!(part.object_list.len(), 2);
    assert_eq!(
        blog_category_page(&c, 1, true, Some(&CategoryDetailData { slug: Some(String::from("faq")), is_ajax: None, page: None })).err(),
        Some(Error::NotFound(Missing::Category))
    );
    assert_eq!(
        blog_category_page(&c, 1, true, Some(&CategoryDetailData { slug: Some(String::new()), is_ajax: None, page: None })).err(),
        Some(Error::ValidationFailed(Field::SlugEmpty))
    );
}

#[test]
fn help_category_page_orders_by_position() {
    let c = site();
    let q = CategoryDetailData { slug: Some(String::from("faq")), is_ajax: None, page: Some(1) };
    let page = help_category_page(&c, 0, true, Some(&q)).unwrap();
    let ids: Vec<i32> = page.object_list.iter().map(|h: &Help| h.id).collect();
    assert_eq!(ids, vec![5, 4]);
}

#[test]
fn categories_page_shows_each_category_with_its_newest_items() {
    let c = site();
    let page = blog_categories_page(&c, 0, true, None).unwrap();
    assert_eq!((page.view, page.seconds), (7, 8));
    assert_eq!(page.categories.len(), 2);
    assert_eq!(page.categories[0].category.id, 1);
    assert_eq!(page.categories[0].object_list.iter().map(|i| i.id).collect::<Vec<_>>(), vec![3, 1]);
    assert_eq!(page.categories[0].object_list[0].created, "01-01-1970 в 00:03");
    assert_eq!(page.categories[1].object_list.iter().map(|i| i.id).collect::<Vec<_>>(), vec![3]);
    assert_eq!(page.cats.len(), 2);
}

#[test]
fn tag_page_counts_and_lists_by_kind() {
    let c = site();
    let q = TagPageData { slug: Some(String::from("rust")), is_ajax: None, page: None };
    let page = tag_page(&c, 1, true, Some(&q)).unwrap();
    assert_eq!(page.tag.id, 1);
    assert_eq!(page.blogs_count, 2);
    assert_eq!(page.services_count, 1);
    assert_eq!(page.works_count, 0);
    assert_eq!(page.blogs_list.iter().map(|b| b.id).collect::<Vec<_>>(), vec![3, 1]);
    assert_eq!(page.services_list.iter().map(|b| b.id).collect::<Vec<_>>(), vec![6]);
    let blogs = tag_blogs_page(&c, 1, true, Some(&q)).unwrap();
    assert_eq!(blogs.blogs_count, 2);
    assert_eq!(blogs.next_page_number, 0);
    assert_eq!(blogs.blogs_list.len(), 2);
    let missing = TagPageData { slug: Some(String::from("none")), is_ajax: None, page: None };
    assert_eq!(tag_page(&c, 1, true, Some(&missing)).err(), Some(Error::NotFound(Missing::Tag)));
    let empty = TagPageData { slug: Some(String::new()), is_ajax: None, page: None };
    assert_eq!(tag_page(&c, 1, true, Some(&empty)).err(), Some(Error::ValidationFailed(Field::Slug)));
}

#[test]
fn search_finds_items_of_each_kind_by_their_content() {
    let c = site();
    let q = SearchPageData { q: Some(String::from("RuSt")), is_ajax: None };
    let page = search_page(&c, 1, true, Some(&q)).unwrap();
    assert_eq!(page.blogs_count, 3);
    assert_eq!(page.blogs_list.iter().map(|b| b.id).collect::<Vec<_>>(), vec![3, 1]);
    assert_eq!(page.services_count, 1);
    assert_eq!(page.services_list.iter().map(|b| b.id).collect::<Vec<_>>(), vec![6]);
    assert_eq!(page.works_count, 0);
    assert_eq!(page.q, "RuSt");
    let admin = search_page(&c, 2, true, Some(&q)).unwrap();
    assert_eq!(admin.blogs_list.iter().map(|b| b.id).collect::<Vec<_>>(), vec![2, 3, 1]);
    assert_eq!(
        search_page(&c, 1, true, Some(&SearchPageData { q: None, is_ajax: None })).err(),
        Some(Error::ValidationFailed(Field::Query))
    );
    let (rows, count) = Item::search_blogs(&c, &String::from("nails"), 10, 0, false);
    assert_eq!(rows.iter().map(|b| b.id).collect::<Vec<_>>(), vec![3]);
    assert_eq!(count, 1);
    let (rows, count) = Item::search_services(&c, &String::from("nails"), 10, 0, false);
    assert!(rows.is_empty());
    assert_eq!(count, 0);
}

#[test]
fn search_in_one_kind_is_paged_and_empty_for_an_empty_query() {
    let c = site();
    let q = SearchItemsPageData { q: Some(String::from("rust")), page: None, is_ajax: None };
    let page = search_blogs_page(&c, 2, true, Some(&q)).unwrap();
    assert_eq!(page.blogs_count, 3);
    assert_eq!(page.blogs_list.len(), 3);
    assert_eq!(page.next_page_number, 0);
    let none = search_blogs_page(&c, 2, true, None).unwrap();
    assert!(none.blogs_list.is_empty());
    assert_eq!(none.blogs_count, 0);
    assert_eq!(none.q, "");
}

#[test]
fn image_page_shows_the_neighbouring_images() {
    let mut c = site();
    for (id, sort) in [(1, 1), (2, 2), (3, 1), (4, 1)] {
        c.files.push(File {
            id,
            user_id: 1,
            item_id: 1,
            item_types: 1,
            types: sort,
            src: format!("media/{}.png", id),
            description: None,
            position: 0,
        });
    }
    let page = image_page(&c, Some(&ImageData { id: Some(3) })).unwrap();
    assert_eq!(page.item.id, 1);
    assert_eq!(page.prev.map(|f| f.id), Some(1));
    assert_eq!(page.next.map(|f| f.id), Some(4));
    let first = image_page(&c, Some(&ImageData { id: Some(1) })).unwrap();
    assert!(first.prev.is_none());
    assert_eq!(first.next.map(|f| f.id), Some(3));
    assert_eq!(image_page(&c, Some(&ImageData { id: Some(9) })).err(), Some(Error::NotFound(Missing::File)));
    assert_eq!(image_page(&c, Some(&ImageData { id: None })).err(), Some(Error::ValidationFailed(Field::Id)));
    assert_eq!(image_page(&c, None).err(), Some(Error::ValidationFailed(Field::Params)));
}

#[test]
fn pages_for_administrators_turn_others_away() {
    let c = site();
    let q = EditItemData { id: Some(3), is_ajax: None };
    assert_eq!(edit_item_page(&c, 1, true, Some(&q)).err(), Some(Error::PermissionDenied(Denial::Forbidden)));
    let page = edit_item_page(&c, 2, true, Some(&q)).unwrap();
    assert_eq!(page.object.id, 3);
    assert_eq!(page.cats.len(), 3);
    assert_eq!(
        edit_item_page(&c, 2, true, Some(&EditItemData { id: Some(77), is_ajax: None })).err(),
        Some(Error::NotFound(Missing::Item))
    );
    assert_eq!(
        feedback_list_page(&c, 1, true, Some(&IsAjaxPageData { is_ajax: None, page: None })).err(),
        Some(Error::PermissionDenied(Denial::Forbidden))
    );
    assert!(feedback_list_page(&c, 2, true, None).unwrap().feedback_list.is_empty());
    let form = unical_object_form_page(&c, 1, true, Some(&UnicalObjectFormData { types: Some(3) }));
    assert_eq!(form.err(), Some(Error::PermissionDenied(Denial::Forbidden)));
}

#[test]
fn technical_categories_are_listed_by_level_and_position() {
    let mut c = site();
    for (id, level, position) in [(1, 2, 5), (2, 1, 1), (3, 2, 9), (4, 1, 7)] {
        c.tech_categories.push(TechCategories {
            id,
            name: format!("t{}", id),
            description: None,
            position,
            count: 0,
            level,
            user_id: 1,
            view: 0,
            seconds: 0,
        });
    }
    let page = serve_list_page(&c, 0, true, None).unwrap();
    assert_eq!(page.tech_cats.iter().map(|t| t.id).collect::<Vec<_>>(), vec![2, 4, 1, 3]);
    for (id, cat, active) in [(1, 1, 1), (2, 3, 1), (3, 4, 2), (4, 2, 1)] {
        c.tech_categories_items.push(TechCategoriesItem { id, category_id: cat, item_id: 6, types: 2, is_active: active });
    }
    let service = c.items[5].clone();
    assert_eq!(service.get_open_tech_categories(&c, 2).iter().map(|t| t.id).collect::<Vec<_>>(), vec![3, 1, 2]);
    assert_eq!(service.get_close_tech_categories(&c, 2).iter().map(|t| t.id).collect::<Vec<_>>(), vec![4]);
    assert_eq!(service.get_close_tech_cats_ids(&c, 2), vec![4]);
}

#[test]
fn order_page_is_for_the_customer_of_the_order() {
    let mut c = site();
    let form = OrderForm {
        token: String::from("111"),
        title: String::from("Site"),
        types: 2,
        object_id: 6,
        username: String::from("Ann"),
        email: String::from("a@b"),
        description: None,
        files: vec![String::from("media/brief.pdf")],
        serve_list: vec![],
    };
    c.create_order(8, &form, 0).unwrap();
    let q = OrderPageData { is_ajax: None, id: Some(1) };
    let page = get_order_page(&c, 1, true, Some(&q), 8).unwrap();
    assert_eq!(page.object.id, 1);
    assert_eq!(page.files.len(), 1);
    assert_eq!(
        get_order_page(&c, 1, true, Some(&q), 9).err(),
        Some(Error::PermissionDenied(Denial::UnknownCustomer))
    );
    assert_eq!(
        get_order_page(&c, 1, true, None, 8).err(),
        Some(Error::PermissionDenied(Denial::UnknownCustomer))
    );
    assert_eq!(
        get_order_page(&c, 1, true, Some(&OrderPageData { is_ajax: None, id: Some(5) }), 8).err(),
        Some(Error::NotFound(Missing::Order))
    );
    assert_eq!(get_orders_page(&c, 0, true, None).err(), Some(Error::PermissionDenied(Denial::Forbidden)));
    assert_eq!(get_orders_page(&c, 1, true, None).unwrap().object_list.len(), 1);
    assert_eq!(get_user_orders_page(&c, 1, true, None, 0).err(), Some(Error::NotFound(Missing::Visitor)));
    assert_eq!(get_user_orders_page(&c, 1, true, None, 8).unwrap().object_list.len(), 1);
}

#[test]
fn queries_without_their_field_are_refused() {
    let c = site();
    assert_eq!(
        get_user_history_page(&c, 2, true, Some(&UserHistoryData { user_id: None, page: None })).err(),
        Some(Error::ValidationFailed(Field::UserId))
    );
    assert_eq!(
        load_form_from_level(&c, 0, true, Some(&LoadCategoriesData { level: None })).err(),
        Some(Error::ValidationFailed(Field::Level))
    );
    assert_eq!(
        load_form_from_level(&c, 0, true, Some(&LoadCategoriesData { level: Some(0) })).err(),
        Some(Error::ValidationFailed(Field::Level))
    );
    assert_eq!(
        unical_object_form_page(&c, 2, true, Some(&UnicalObjectFormData { types: None })).err(),
        Some(Error::ValidationFailed(Field::Types))
    );
    let form = unical_object_form_page(&c, 2, true, Some(&UnicalObjectFormData { types: Some(1) })).unwrap();
    assert_eq!(form.cats.len(), 2);
    assert!(!form.biznes_mode);
}
