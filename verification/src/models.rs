//! The rows of the tables and the shapes in which they are shown.

use vstd::prelude::*;

verus! {

/// A row of the item table. `types` is the number of the item's kind,
/// `item_types` its status code, `created` a time in microseconds.
#[derive(Debug)]
pub struct Item {
    pub id: i32,
    pub title: String,
    pub link: Option<String>,
    pub image: Option<String>,
    pub description: Option<String>,
    pub item_types: i16,
    pub price: i32,
    pub user_id: i32,
    pub created: i64,
    pub position: i16,
    pub price_acc: Option<i32>,
    pub types: i16,
    pub slug: String,
    pub view: i32,
    pub seconds: i32,
}

impl Clone for Item {
    fn clone(&self) -> (copy: Self)
        ensures
            copy == *self,
    {
        Item {
            id: self.id,
            title: self.title.clone(),
            link: self.link.clone(),
            image: self.image.clone(),
            description: self.description.clone(),
            item_types: self.item_types,
            price: self.price,
            user_id: self.user_id,
            created: self.created,
            position: self.position,
            price_acc: self.price_acc,
            types: self.types,
            slug: self.slug.clone(),
            view: self.view,
            seconds: self.seconds,
        }
    }
}

/// The values of an item that is about to be stored.
#[derive(Debug)]
pub struct NewItem {
    pub title: String,
    pub link: Option<String>,
    pub image: Option<String>,
    pub description: Option<String>,
    pub item_types: i16,
    pub price: i32,
    pub user_id: i32,
    pub created: i64,
    pub position: i16,
    pub price_acc: Option<i32>,
    pub types: i16,
    pub slug: String,
    pub view: i32,
    pub seconds: i32,
}

impl Clone for NewItem {
    fn clone(&self) -> (copy: Self)
        ensures
            copy == *self,
    {
        NewItem {
            title: self.title.clone(),
            link: self.link.clone(),
            image: self.image.clone(),
            description: self.description.clone(),
            item_types: self.item_types,
            price: self.price,
            user_id: self.user_id,
            created: self.created,
            position: self.position,
            price_acc: self.price_acc,
            types: self.types,
            slug: self.slug.clone(),
            view: self.view,
            seconds: self.seconds,
        }
    }
}

/// The fields of an item that an edit replaces.
#[derive(Debug)]
pub struct EditItem {
    pub title: String,
    pub link: Option<String>,
    pub image: Option<String>,
    pub position: i16,
    pub slug: String,
}

impl Clone for EditItem {
    fn clone(&self) -> (copy: Self)
        ensures
            copy == *self,
    {
        EditItem {
            title: self.title.clone(),
            link: self.link.clone(),
            image: self.image.clone(),
            position: self.position,
            slug: self.slug.clone(),
        }
    }
}

/// A row of the category table. `count` caches the number of published
/// items linked to the category.
#[derive(Debug)]
pub struct Categories {
    pub id: i32,
    pub name: String,
    pub user_id: i32,
    pub description: Option<String>,
    pub position: i16,
    pub image: Option<String>,
    pub count: i16,
    pub view: i32,
    pub seconds: i32,
    pub types: i16,
    pub slug: String,
}

impl Clone for Categories {
    fn clone(&self) -> (copy: Self)
        ensures
            copy == *self,
    {
        Categories {
            id: self.id,
            name: self.name.clone(),
            user_id: self.user_id,
            description: self.description.clone(),
            position: self.position,
            image: self.image.clone(),
            count: self.count,
            view: self.view,
            seconds: self.seconds,
            types: self.types,
            slug: self.slug.clone(),
        }
    }
}

/// The values of a category that is about to be stored.
#[derive(Debug)]
pub struct NewCategories {
    pub name: String,
    pub user_id: i32,
    pub description: Option<String>,
    pub position: i16,
    pub image: Option<String>,
    pub count: i16,
    pub view: i32,
    pub seconds: i32,
    pub types: i16,
    pub slug: String,
}

impl Clone for NewCategories {
    fn clone(&self) -> (copy: Self)
        ensures
            copy == *self,
    {
        NewCategories {
            name: self.name.clone(),
            user_id: self.user_id,
            description: self.description.clone(),
            position: self.position,
            image: self.image.clone(),
            count: self.count,
            view: self.view,
            seconds: self.seconds,
            types: self.types,
            slug: self.slug.clone(),
        }
    }
}

/// The fields of a category that an edit replaces.
#[derive(Debug)]
pub struct EditCategories {
    pub name: String,
    pub description: Option<String>,
    pub position: i16,
    pub image: Option<String>,
    pub slug: String,
}

impl Clone for EditCategories {
    fn clone(&self) -> (copy: Self)
        ensures
            copy == *self,
    {
        EditCategories {
            name: self.name.clone(),
            description: self.description.clone(),
            position: self.position,
            image: self.image.clone(),
            slug: self.slug.clone(),
        }
    }
}

/// A category as its own page shows it.
#[derive(Debug)]
pub struct CatDetail {
    pub name: String,
    pub slug: String,
    pub count: i16,
    pub id: i32,
    pub image: Option<String>,
    pub view: i32,
    pub seconds: i32,
}

impl Clone for CatDetail {
    fn clone(&self) -> (copy: Self)
        ensures
            copy == *self,
    {
        CatDetail {
            name: self.name.clone(),
            slug: self.slug.clone(),
            count: self.count,
            id: self.id,
            image: self.image.clone(),
            view: self.view,
            seconds: self.seconds,
        }
    }
}

/// A category as menus show it.
#[derive(Debug)]
pub struct Cat {
    pub name: String,
    pub slug: String,
    pub count: i16,
    pub id: i32,
    pub image: Option<String>,
    pub types: i16,
}

impl Clone for Cat {
    fn clone(&self) -> (copy: Self)
        ensures
            copy == *self,
    {
        Cat {
            name: self.name.clone(),
            slug: self.slug.clone(),
            count: self.count,
            id: self.id,
            image: self.image.clone(),
            types: self.types,
        }
    }
}

/// A category reduced to name, slug and count.
#[derive(Debug)]
pub struct SmallCat {
    pub name: String,
    pub slug: String,
    pub count: i16,
}

impl Clone for SmallCat {
    fn clone(&self) -> (copy: Self)
        ensures
            copy == *self,
    {
        SmallCat {
            name: self.name.clone(),
            slug: self.slug.clone(),
            count: self.count,
        }
    }
}

/// A blog article in a listing.
#[derive(Debug)]
pub struct Blog {
    pub id: i32,
    pub slug: String,
    pub image: Option<String>,
    pub description: Option<String>,
    pub types: i16,
    pub title: String,
    pub created: i64,
}

impl Clone for Blog {
    fn clone(&self) -> (copy: Self)
        ensures
            copy == *self,
    {
        Blog {
            id: self.id,
            slug: self.slug.clone(),
            image: self.image.clone(),
            description: self.description.clone(),
            types: self.types,
            title: self.title.clone(),
            created: self.created,
        }
    }
}

/// A service in a listing.
#[derive(Debug)]
pub struct Service {
    pub id: i32,
    pub slug: String,
    pub image: Option<String>,
    pub description: Option<String>,
    pub types: i16,
    pub title: String,
}

impl Clone for Service {
    fn clone(&self) -> (copy: Self)
        ensures
            copy == *self,
    {
        Service {
            id: self.id,
            slug: self.slug.clone(),
            image: self.image.clone(),
            description: self.description.clone(),
            types: self.types,
            title: self.title.clone(),
        }
    }
}

/// A product in a listing.
#[derive(Debug)]
pub struct Store {
    pub id: i32,
    pub slug: String,
    pub image: Option<String>,
    pub description: Option<String>,
    pub types: i16,
    pub title: String,
    pub price: i32,
    pub price_acc: Option<i32>,
}

impl Clone for Store {
    fn clone(&self) -> (copy: Self)
        ensures
            copy == *self,
    {
        Store {
            id: self.id,
            slug: self.slug.clone(),
            image: self.image.clone(),
            description: self.description.clone(),
            types: self.types,
            title: self.title.clone(),
            price: self.price,
            price_acc: self.price_acc,
        }
    }
}

/// A wiki article in a listing.
#[derive(Debug)]
pub struct Wiki {
    pub id: i32,
    pub slug: String,
    pub image: Option<String>,
    pub description: Option<String>,
    pub types: i16,
    pub title: String,
    pub created: i64,
}

impl Clone for Wiki {
    fn clone(&self) -> (copy: Self)
        ensures
            copy == *self,
    {
        Wiki {
            id: self.id,
            slug: self.slug.clone(),
            image: self.image.clone(),
            description: self.description.clone(),
            types: self.types,
            title: self.title.clone(),
            created: self.created,
        }
    }
}

/// A work in a listing.
#[derive(Debug)]
pub struct Work {
    pub id: i32,
    pub slug: String,
    pub image: Option<String>,
    pub description: Option<String>,
    pub types: i16,
    pub title: String,
}

impl Clone for Work {
    fn clone(&self) -> (copy: Self)
        ensures
            copy == *self,
    {
        Work {
            id: self.id,
            slug: self.slug.clone(),
            image: self.image.clone(),
            description: self.description.clone(),
            types: self.types,
            title: self.title.clone(),
        }
    }
}

/// A help article in a listing.
#[derive(Debug)]
pub struct Help {
    pub id: i32,
    pub title: String,
    pub description: Option<String>,
    pub types: i16,
}

impl Clone for Help {
    fn clone(&self) -> (copy: Self)
        ensures
            copy == *self,
    {
        Help {
            id: self.id,
            title: self.title.clone(),
            description: self.description.clone(),
            types: self.types,
        }
    }
}

/// The neighbour of an item inside its category.
#[derive(Debug)]
pub struct FeaturedItem {
    pub slug: String,
    pub title: String,
}

impl Clone for FeaturedItem {
    fn clone(&self) -> (copy: Self)
        ensures
            copy == *self,
    {
        FeaturedItem {
            slug: self.slug.clone(),
            title: self.title.clone(),
        }
    }
}

/// A link between a category and an item, scoped by the item's kind.
#[derive(Debug)]
pub struct Category {
    pub id: i32,
    pub categories_id: i32,
    pub item_id: i32,
    pub types: i16,
}

impl Clone for Category {
    fn clone(&self) -> (copy: Self)
        ensures
            copy == *self,
    {
        Category {
            id: self.id,
            categories_id: self.categories_id,
            item_id: self.item_id,
            types: self.types,
        }
    }
}

/// A category link that is about to be stored.
#[derive(Debug)]
pub struct NewCategory {
    pub categories_id: i32,
    pub item_id: i32,
    pub types: i16,
}

impl Clone for NewCategory {
    fn clone(&self) -> (copy: Self)
        ensures
            copy == *self,
    {
        NewCategory {
            categories_id: self.categories_id,
            item_id: self.item_id,
            types: self.types,
        }
    }
}

/// A row of the tag table. `count` caches the number of published items
/// that carry the tag.
#[derive(Debug)]
pub struct Tag {
    pub id: i32,
    pub name: String,
    pub position: i16,
    pub count: i16,
    pub user_id: i32,
    pub view: i32,
    pub seconds: i32,
}

impl Clone for Tag {
    fn clone(&self) -> (copy: Self)
        ensures
            copy == *self,
    {
        Tag {
            id: self.id,
            name: self.name.clone(),
            position: self.position,
            count: self.count,
            user_id: self.user_id,
            view: self.view,
            seconds: self.seconds,
        }
    }
}

/// A tag reduced to name and count.
#[derive(Debug)]
pub struct SmallTag {
    pub name: String,
    pub count: i16,
}

impl Clone for SmallTag {
    fn clone(&self) -> (copy: Self)
        ensures
            copy == *self,
    {
        SmallTag {
            name: self.name.clone(),
            count: self.count,
        }
    }
}

/// A link between a tag and an item, scoped by the item's kind.
#[derive(Debug)]
pub struct TagItems {
    pub id: i32,
    pub tag_id: i32,
    pub item_id: i32,
    pub types: i16,
    pub created: i64,
}

impl Clone for TagItems {
    fn clone(&self) -> (copy: Self)
        ensures
            copy == *self,
    {
        TagItems {
            id: self.id,
            tag_id: self.tag_id,
            item_id: self.item_id,
            types: self.types,
            created: self.created,
        }
    }
}

/// A purchasable service option.
#[derive(Debug)]
pub struct Serve {
    pub id: i32,
    pub name: String,
    pub description: Option<String>,
    pub position: i16,
    pub serve_categories: i32,
    pub price: i32,
    pub man_hours: i16,
    pub is_default: bool,
    pub user_id: i32,
    pub tech_cat_id: i32,
    pub seconds: i32,
    pub serve_id: Option<i32>,
    pub view: i32,
}

impl Clone for Serve {
    fn clone(&self) -> (copy: Self)
        ensures
            copy == *self,
    {
        Serve {
            id: self.id,
            name: self.name.clone(),
            description: self.description.clone(),
            position: self.position,
            serve_categories: self.serve_categories,
            price: self.price,
            man_hours: self.man_hours,
            is_default: self.is_default,
            user_id: self.user_id,
            tech_cat_id: self.tech_cat_id,
            seconds: self.seconds,
            serve_id: self.serve_id,
            view: self.view,
        }
    }
}

/// A group of service options under a technical category. `count` is the
/// number of its options, `default_price` the sum of the prices of its default
/// options.
#[derive(Debug)]
pub struct ServeCategories {
    pub id: i32,
    pub name: String,
    pub description: Option<String>,
    pub tech_categories: i32,
    pub position: i16,
    pub count: i16,
    pub default_price: i32,
    pub user_id: i32,
    pub view: i32,
    pub seconds: i32,
}

impl Clone for ServeCategories {
    fn clone(&self) -> (copy: Self)
        ensures
            copy == *self,
    {
        ServeCategories {
            id: self.id,
            name: self.name.clone(),
            description: self.description.clone(),
            tech_categories: self.tech_categories,
            position: self.position,
            count: self.count,
            default_price: self.default_price,
            user_id: self.user_id,
            view: self.view,
            seconds: self.seconds,
        }
    }
}

/// A node of the tree of technical capabilities.
#[derive(Debug)]
pub struct TechCategories {
    pub id: i32,
    pub name: String,
    pub description: Option<String>,
    pub position: i16,
    pub count: i16,
    pub level: i16,
    pub user_id: i32,
    pub view: i32,
    pub seconds: i32,
}

impl Clone for TechCategories {
    fn clone(&self) -> (copy: Self)
        ensures
            copy == *self,
    {
        TechCategories {
            id: self.id,
            name: self.name.clone(),
            description: self.description.clone(),
            position: self.position,
            count: self.count,
            level: self.level,
            user_id: self.user_id,
            view: self.view,
            seconds: self.seconds,
        }
    }
}

/// A link between a service option and an item or order.
#[derive(Debug)]
pub struct ServeItems {
    pub id: i32,
    pub serve_id: i32,
    pub item_id: i32,
    pub types: i16,
}

impl Clone for ServeItems {
    fn clone(&self) -> (copy: Self)
        ensures
            copy == *self,
    {
        ServeItems {
            id: self.id,
            serve_id: self.serve_id,
            item_id: self.item_id,
            types: self.types,
        }
    }
}

/// A link between a technical category and an item. `is_active` is one for
/// an open category and two for a closed one.
#[derive(Debug)]
pub struct TechCategoriesItem {
    pub id: i32,
    pub category_id: i32,
    pub item_id: i32,
    pub types: i16,
    pub is_active: i16,
}

impl Clone for TechCategoriesItem {
    fn clone(&self) -> (copy: Self)
        ensures
            copy == *self,
    {
        TechCategoriesItem {
            id: self.id,
            category_id: self.category_id,
            item_id: self.item_id,
            types: self.types,
            is_active: self.is_active,
        }
    }
}

/// A file attached to an item.
#[derive(Debug)]
pub struct File {
    pub id: i32,
    pub user_id: i32,
    pub item_id: i32,
    pub item_types: i16,
    pub types: i16,
    pub src: String,
    pub description: Option<String>,
    pub position: i16,
}

impl Clone for File {
    fn clone(&self) -> (copy: Self)
        ensures
            copy == *self,
    {
        File {
            id: self.id,
            user_id: self.user_id,
            item_id: self.item_id,
            item_types: self.item_types,
            types: self.types,
            src: self.src.clone(),
            description: self.description.clone(),
            position: self.position,
        }
    }
}

/// A file as an item page shows it.
#[derive(Debug)]
pub struct SmallFile {
    pub id: i32,
    pub types: i16,
    pub src: String,
    pub description: Option<String>,
}

impl Clone for SmallFile {
    fn clone(&self) -> (copy: Self)
        ensures
            copy == *self,
    {
        SmallFile {
            id: self.id,
            types: self.types,
            src: self.src.clone(),
            description: self.description.clone(),
        }
    }
}

/// The fields of a file that an edit replaces.
#[derive(Debug)]
pub struct EditFile {
    pub description: Option<String>,
    pub position: i16,
}

impl Clone for EditFile {
    fn clone(&self) -> (copy: Self)
        ensures
            copy == *self,
    {
        EditFile {
            description: self.description.clone(),
            position: self.position,
        }
    }
}

/// An account.
#[derive(Debug)]
pub struct User {
    pub id: i32,
    pub first_name: String,
    pub last_name: String,
    pub username: String,
    pub email: String,
    pub password: String,
    pub bio: Option<String>,
    pub image: Option<String>,
    pub perm: i16,
    pub view: i32,
    pub seconds: i32,
}

impl Clone for User {
    fn clone(&self) -> (copy: Self)
        ensures
            copy == *self,
    {
        User {
            id: self.id,
            first_name: self.first_name.clone(),
            last_name: self.last_name.clone(),
            username: self.username.clone(),
            email: self.email.clone(),
            password: self.password.clone(),
            bio: self.bio.clone(),
            image: self.image.clone(),
            perm: self.perm,
            view: self.view,
            seconds: self.seconds,
        }
    }
}

/// The owner of an item as readers see them.
#[derive(Debug)]
pub struct OwnerResp {
    pub first_name: String,
    pub last_name: String,
    pub username: String,
    pub image: Option<String>,
    pub perm: i16,
}

impl Clone for OwnerResp {
    fn clone(&self) -> (copy: Self)
        ensures
            copy == *self,
    {
        OwnerResp {
            first_name: self.first_name.clone(),
            last_name: self.last_name.clone(),
            username: self.username.clone(),
            image: self.image.clone(),
            perm: self.perm,
        }
    }
}

/// A block of an item's content with its author.
#[derive(Debug)]
pub struct ContentBlock {
    pub id: i32,
    pub title: String,
    pub content: String,
    pub user: OwnerResp,
    pub position: i16,
    pub created: String,
}

impl Clone for ContentBlock {
    fn clone(&self) -> (copy: Self)
        ensures
            copy == *self,
    {
        ContentBlock {
            id: self.id,
            title: self.title.clone(),
            content: self.content.clone(),
            user: self.user.clone(),
            position: self.position,
            created: self.created.clone(),
        }
    }
}

/// A block of content that belongs to an item.
#[derive(Debug)]
pub struct ItemContent {
    pub id: i32,
    pub title: String,
    pub item_title: String,
    pub content: String,
    pub types: i16,
    pub item_id: i32,
    pub item_types: i16,
    pub user_id: i32,
    pub position: i16,
    pub created: i64,
}

impl Clone for ItemContent {
    fn clone(&self) -> (copy: Self)
        ensures
            copy == *self,
    {
        ItemContent {
            id: self.id,
            title: self.title.clone(),
            item_title: self.item_title.clone(),
            content: self.content.clone(),
            types: self.types,
            item_id: self.item_id,
            item_types: self.item_types,
            user_id: self.user_id,
            position: self.position,
            created: self.created,
        }
    }
}

/// A block of content that is about to be stored.
#[derive(Debug)]
pub struct NewItemContent {
    pub title: String,
    pub item_title: String,
    pub content: String,
    pub types: i16,
    pub item_id: i32,
    pub item_types: i16,
    pub user_id: i32,
    pub position: i16,
    pub created: i64,
}

impl Clone for NewItemContent {
    fn clone(&self) -> (copy: Self)
        ensures
            copy == *self,
    {
        NewItemContent {
            title: self.title.clone(),
            item_title: self.item_title.clone(),
            content: self.content.clone(),
            types: self.types,
            item_id: self.item_id,
            item_types: self.item_types,
            user_id: self.user_id,
            position: self.position,
            created: self.created,
        }
    }
}

/// A comment on an item.
#[derive(Debug)]
pub struct ItemComment {
    pub id: i32,
    pub comment: String,
    pub item_id: i32,
    pub user_id: i32,
    pub parent_id: Option<i32>,
    pub created: i64,
}

impl Clone for ItemComment {
    fn clone(&self) -> (copy: Self)
        ensures
            copy == *self,
    {
        ItemComment {
            id: self.id,
            comment: self.comment.clone(),
            item_id: self.item_id,
            user_id: self.user_id,
            parent_id: self.parent_id,
            created: self.created,
        }
    }
}

/// A comment that is about to be stored.
#[derive(Debug)]
pub struct NewItemComment {
    pub comment: String,
    pub item_id: i32,
    pub user_id: i32,
    pub parent_id: Option<i32>,
    pub created: i64,
}

impl Clone for NewItemComment {
    fn clone(&self) -> (copy: Self)
        ensures
            copy == *self,
    {
        NewItemComment {
            comment: self.comment.clone(),
            item_id: self.item_id,
            user_id: self.user_id,
            parent_id: self.parent_id,
            created: self.created,
        }
    }
}

/// An anonymous visitor, known by the id in their cookie.
#[derive(Debug)]
pub struct CookieUser {
    pub id: i32,
    pub ip: String,
    pub device: i16,
    pub city_ru: Option<String>,
    pub city_en: Option<String>,
    pub region_ru: Option<String>,
    pub region_en: Option<String>,
    pub country_ru: Option<String>,
    pub country_en: Option<String>,
    pub seconds: i32,
    pub created: i64,
}

impl Clone for CookieUser {
    fn clone(&self) -> (copy: Self)
        ensures
            copy == *self,
    {
        CookieUser {
            id: self.id,
            ip: self.ip.clone(),
            device: self.device,
            city_ru: self.city_ru.clone(),
            city_en: self.city_en.clone(),
            region_ru: self.region_ru.clone(),
            region_en: self.region_en.clone(),
            country_ru: self.country_ru.clone(),
            country_en: self.country_en.clone(),
            seconds: self.seconds,
            created: self.created,
        }
    }
}

/// One visit of one visitor to one link.
#[derive(Debug)]
pub struct CookieStat {
    pub id: i32,
    pub user_id: i32,
    pub page: i16,
    pub link: String,
    pub title: String,
    pub seconds: i32,
    pub created: i64,
    pub template: String,
}

impl Clone for CookieStat {
    fn clone(&self) -> (copy: Self)
        ensures
            copy == *self,
    {
        CookieStat {
            id: self.id,
            user_id: self.user_id,
            page: self.page,
            link: self.link.clone(),
            title: self.title.clone(),
            seconds: self.seconds,
            created: self.created,
            template: self.template.clone(),
        }
    }
}

/// The visit statistics of a page that is no category, item or tag.
#[derive(Debug)]
pub struct StatPage {
    pub id: i32,
    pub types: i16,
    pub view: i32,
    pub seconds: i32,
}

impl Clone for StatPage {
    fn clone(&self) -> (copy: Self)
        ensures
            copy == *self,
    {
        StatPage {
            id: self.id,
            types: self.types,
            view: self.view,
            seconds: self.seconds,
        }
    }
}

/// A message left by a visitor.
#[derive(Debug)]
pub struct Feedback {
    pub id: i32,
    pub user_id: i32,
    pub username: String,
    pub email: String,
    pub message: String,
}

impl Clone for Feedback {
    fn clone(&self) -> (copy: Self)
        ensures
            copy == *self,
    {
        Feedback {
            id: self.id,
            user_id: self.user_id,
            username: self.username.clone(),
            email: self.email.clone(),
            message: self.message.clone(),
        }
    }
}

/// A visitor's message that is about to be stored.
#[derive(Debug)]
pub struct NewFeedback {
    pub user_id: i32,
    pub username: String,
    pub email: String,
    pub message: String,
}

impl Clone for NewFeedback {
    fn clone(&self) -> (copy: Self)
        ensures
            copy == *self,
    {
        NewFeedback {
            user_id: self.user_id,
            username: self.username.clone(),
            email: self.email.clone(),
            message: self.message.clone(),
        }
    }
}

/// An order: a request for an item with chosen service options. `price` is
/// the sum of their prices, `price_acc` the discount on it.
#[derive(Debug)]
pub struct Order {
    pub id: i32,
    pub title: String,
    pub types: i16,
    pub object_id: i32,
    pub username: String,
    pub email: String,
    pub description: Option<String>,
    pub created: i64,
    pub user_id: i32,
    pub price: i32,
    pub price_acc: Option<i32>,
}

impl Clone for Order {
    fn clone(&self) -> (copy: Self)
        ensures
            copy == *self,
    {
        Order {
            id: self.id,
            title: self.title.clone(),
            types: self.types,
            object_id: self.object_id,
            username: self.username.clone(),
            email: self.email.clone(),
            description: self.description.clone(),
            created: self.created,
            user_id: self.user_id,
            price: self.price,
            price_acc: self.price_acc,
        }
    }
}

/// A file attached to an order.
#[derive(Debug)]
pub struct OrderFile {
    pub id: i32,
    pub order_id: i32,
    pub src: String,
}

impl Clone for OrderFile {
    fn clone(&self) -> (copy: Self)
        ensures
            copy == *self,
    {
        OrderFile {
            id: self.id,
            order_id: self.order_id,
            src: self.src.clone(),
        }
    }
}

/// A conversation of a user.
#[derive(Debug)]
pub struct Chat {
    pub id: i32,
    pub user_id: i32,
    pub created: i64,
}

impl Clone for Chat {
    fn clone(&self) -> (copy: Self)
        ensures
            copy == *self,
    {
        Chat {
            id: self.id,
            user_id: self.user_id,
            created: self.created,
        }
    }
}

/// A conversation that is about to be stored.
#[derive(Debug)]
pub struct NewChat {
    pub user_id: i32,
    pub created: i64,
}

impl Clone for NewChat {
    fn clone(&self) -> (copy: Self)
        ensures
            copy == *self,
    {
        NewChat {
            user_id: self.user_id,
            created: self.created,
        }
    }
}

/// A message of a conversation. `view` is one when created, two when shown
/// and three when read; `types` is one for an ordinary message.
#[derive(Debug)]
pub struct Message {
    pub id: i32,
    pub user_id: i32,
    pub chat_id: i32,
    pub created: i64,
    pub content: Option<String>,
    pub view: i16,
    pub types: i16,
}

impl Clone for Message {
    fn clone(&self) -> (copy: Self)
        ensures
            copy == *self,
    {
        Message {
            id: self.id,
            user_id: self.user_id,
            chat_id: self.chat_id,
            created: self.created,
            content: self.content.clone(),
            view: self.view,
            types: self.types,
        }
    }
}

/// A message that is about to be stored.
#[derive(Debug)]
pub struct NewMessage {
    pub user_id: i32,
    pub chat_id: i32,
    pub created: i64,
    pub content: Option<String>,
    pub view: i16,
    pub types: i16,
}

impl Clone for NewMessage {
    fn clone(&self) -> (copy: Self)
        ensures
            copy == *self,
    {
        NewMessage {
            user_id: self.user_id,
            chat_id: self.chat_id,
            created: self.created,
            content: self.content.clone(),
            view: self.view,
            types: self.types,
        }
    }
}

/// The fields of a message that an edit replaces.
#[derive(Debug)]
pub struct EditMessage {
    pub content: Option<String>,
}

impl Clone for EditMessage {
    fn clone(&self) -> (copy: Self)
        ensures
            copy == *self,
    {
        EditMessage {
            content: self.content.clone(),
        }
    }
}

} // verus!
