//! The listings of the six kinds, each in the shape of its kind.

use vstd::prelude::*;
use crate::catalog::Catalog;
use crate::errors::Error;
use crate::kinds::{SortRule, image_or_default, image_text};
use crate::listing::{
    Projection, Selection, listing, shown, list_window, list_page, category_item_ids,
    collect_category_items,
};
use crate::models::{Item, Categories, Blog, Service, Store, Wiki, Work, Help};
use crate::paging::{window, page_rows, next_page_number};

verus! {

/// The listing of the items of one kind: all of them, or those whose id is
/// among `ids`.
pub open spec fn kind_selection(types: i16, admin: bool, ids: Option<Seq<i32>>) -> Selection {
    Selection {
        types,
        admin,
        ids,
        rule: if types == 6 {
            SortRule::PositionAsc
        } else {
            SortRule::CreatedDesc
        },
    }
}

/// The listing of the items of one kind under one category.
pub open spec fn category_selection(
    catalog: Catalog,
    cat_id: i32,
    types: i16,
    admin: bool,
) -> Selection {
    kind_selection(types, admin, Some(category_item_ids(catalog.category@, cat_id, types)))
}

impl Projection for Blog {
    /// An item as a blog article of a listing; `types` shows the item's status code.
    open spec fn of(item: Item) -> Blog {
        Blog {
            id: item.id,
            slug: item.slug,
            image: item.image,
            description: item.description,
            types: item.item_types,
            title: item.title,
            created: item.created,
        }
    }

    fn project(item: &Item) -> (shown: Blog) {
        Blog {
            id: item.id,
            slug: item.slug.clone(),
            image: item.image.clone(),
            description: item.description.clone(),
            types: item.item_types,
            title: item.title.clone(),
            created: item.created,
        }
    }
}

impl Blog {
    /// The image of the row, or the default image.
    pub fn get_image(&self) -> (path: String)
        ensures
            path@ == image_text(self.image),
    {
        image_or_default(&self.image)
    }
}

impl Projection for Service {
    /// An item as a service of a listing; `types` shows the item's status code.
    open spec fn of(item: Item) -> Service {
        Service {
            id: item.id,
            slug: item.slug,
            image: item.image,
            description: item.description,
            types: item.item_types,
            title: item.title,
        }
    }

    fn project(item: &Item) -> (shown: Service) {
        Service {
            id: item.id,
            slug: item.slug.clone(),
            image: item.image.clone(),
            description: item.description.clone(),
            types: item.item_types,
            title: item.title.clone(),
        }
    }
}

impl Service {
    /// The image of the row, or the default image.
    pub fn get_image(&self) -> (path: String)
        ensures
            path@ == image_text(self.image),
    {
        image_or_default(&self.image)
    }
}

impl Projection for Store {
    /// An item as a product of a listing; `types` shows the item's status code.
    open spec fn of(item: Item) -> Store {
        Store {
            id: item.id,
            slug: item.slug,
            image: item.image,
            description: item.description,
            types: item.item_types,
            title: item.title,
            price: item.price,
            price_acc: item.price_acc,
        }
    }

    fn project(item: &Item) -> (shown: Store) {
        Store {
            id: item.id,
            slug: item.slug.clone(),
            image: item.image.clone(),
            description: item.description.clone(),
            types: item.item_types,
            title: item.title.clone(),
            price: item.price,
            price_acc: item.price_acc,
        }
    }
}

impl Store {
    /// The image of the row, or the default image.
    pub fn get_image(&self) -> (path: String)
        ensures
            path@ == image_text(self.image),
    {
        image_or_default(&self.image)
    }
}

impl Projection for Wiki {
    /// An item as a wiki article of a listing; `types` shows the item's status code.
    open spec fn of(item: Item) -> Wiki {
        Wiki {
            id: item.id,
            slug: item.slug,
            image: item.image,
            description: item.description,
            types: item.item_types,
            title: item.title,
            created: item.created,
        }
    }

    fn project(item: &Item) -> (shown: Wiki) {
        Wiki {
            id: item.id,
            slug: item.slug.clone(),
            image: item.image.clone(),
            description: item.description.clone(),
            types: item.item_types,
            title: item.title.clone(),
            created: item.created,
        }
    }
}

impl Wiki {
    /// The image of the row, or the default image.
    pub fn get_image(&self) -> (path: String)
        ensures
            path@ == image_text(self.image),
    {
        image_or_default(&self.image)
    }
}

impl Projection for Work {
    /// An item as a work of a listing; `types` shows the item's status code.
    open spec fn of(item: Item) -> Work {
        Work {
            id: item.id,
            slug: item.slug,
            image: item.image,
            description: item.description,
            types: item.item_types,
            title: item.title,
        }
    }

    fn project(item: &Item) -> (shown: Work) {
        Work {
            id: item.id,
            slug: item.slug.clone(),
            image: item.image.clone(),
            description: item.description.clone(),
            types: item.item_types,
            title: item.title.clone(),
        }
    }
}

impl Work {
    /// The image of the row, or the default image.
    pub fn get_image(&self) -> (path: String)
        ensures
            path@ == image_text(self.image),
    {
        image_or_default(&self.image)
    }
}

impl Projection for Help {
    /// An item as a help article of a listing; `types` shows the item's status code.
    open spec fn of(item: Item) -> Help {
        Help {
            id: item.id,
            title: item.title,
            description: item.description,
            types: item.item_types,
        }
    }

    fn project(item: &Item) -> (shown: Help) {
        Help {
            id: item.id,
            title: item.title.clone(),
            description: item.description.clone(),
            types: item.item_types,
        }
    }
}

impl Item {
    /// Blog articles: the rows that `offset` and `limit` cut out of the listing.
    pub fn get_blogs(
        catalog: &Catalog,
        limit: i64,
        offset: i64,
        is_admin: bool,
    ) -> (rows: Vec<Blog>)
        ensures
            rows@ == shown::<Blog>(
                window(
                    listing(catalog.items@, kind_selection(1, is_admin, None)),
                    offset as int,
                    limit as int,
                ),
            ),
    {
        list_window::<Blog>(&catalog.items, 1, is_admin, None, SortRule::CreatedDesc, offset, limit)
    }

    /// Blog articles whose id is among `ids`: the rows that `offset` and `limit`
    /// cut out of the listing.
    pub fn get_blogs_for_ids(
        catalog: &Catalog,
        limit: i64,
        offset: i64,
        ids: &Vec<i32>,
        is_admin: bool,
    ) -> (rows: Vec<Blog>)
        ensures
            rows@ == shown::<Blog>(
                window(
                    listing(catalog.items@, kind_selection(1, is_admin, Some(ids@))),
                    offset as int,
                    limit as int,
                ),
            ),
    {
        list_window::<Blog>(
            &catalog.items,
            1,
            is_admin,
            Some(ids),
            SortRule::CreatedDesc,
            offset,
            limit,
        )
    }

    /// Blog articles whose id is among `ids`: one page, and the number of the next
    /// page or zero.
    pub fn get_blogs_list_for_ids(
        catalog: &Catalog,
        page: i32,
        limit: i32,
        ids: &Vec<i32>,
        is_admin: bool,
    ) -> (result: (Vec<Blog>, i32))
        requires
            page < i32::MAX,
        ensures
            result.0@ == shown::<Blog>(
                page_rows(
                    listing(catalog.items@, kind_selection(1, is_admin, Some(ids@))),
                    page as int,
                    limit as int,
                ),
            ),
            result.1 == next_page_number(
                listing(catalog.items@, kind_selection(1, is_admin, Some(ids@))),
                page as int,
                limit as int,
            ),
    {
        list_page::<Blog>(&catalog.items, 1, is_admin, Some(ids), SortRule::CreatedDesc, page, limit)
    }

    /// Services: the rows that `offset` and `limit` cut out of the listing.
    pub fn get_services(
        catalog: &Catalog,
        limit: i64,
        offset: i64,
        is_admin: bool,
    ) -> (rows: Vec<Service>)
        ensures
            rows@ == shown::<Service>(
                window(
                    listing(catalog.items@, kind_selection(2, is_admin, None)),
                    offset as int,
                    limit as int,
                ),
            ),
    {
        list_window::<Service>(&catalog.items, 2, is_admin, None, SortRule::CreatedDesc, offset, limit)
    }

    /// Services whose id is among `ids`: the rows that `offset` and `limit`
    /// cut out of the listing.
    pub fn get_services_for_ids(
        catalog: &Catalog,
        limit: i64,
        offset: i64,
        ids: &Vec<i32>,
        is_admin: bool,
    ) -> (rows: Vec<Service>)
        ensures
            rows@ == shown::<Service>(
                window(
                    listing(catalog.items@, kind_selection(2, is_admin, Some(ids@))),
                    offset as int,
                    limit as int,
                ),
            ),
    {
        list_window::<Service>(
            &catalog.items,
            2,
            is_admin,
            Some(ids),
            SortRule::CreatedDesc,
            offset,
            limit,
        )
    }

    /// Services whose id is among `ids`: one page, and the number of the next
    /// page or zero.
    pub fn get_services_list_for_ids(
        catalog: &Catalog,
        page: i32,
        limit: i32,
        ids: &Vec<i32>,
        is_admin: bool,
    ) -> (result: (Vec<Service>, i32))
        requires
            page < i32::MAX,
        ensures
            result.0@ == shown::<Service>(
                page_rows(
                    listing(catalog.items@, kind_selection(2, is_admin, Some(ids@))),
                    page as int,
                    limit as int,
                ),
            ),
            result.1 == next_page_number(
                listing(catalog.items@, kind_selection(2, is_admin, Some(ids@))),
                page as int,
                limit as int,
            ),
    {
        list_page::<Service>(&catalog.items, 2, is_admin, Some(ids), SortRule::CreatedDesc, page, limit)
    }

    /// Products: the rows that `offset` and `limit` cut out of the listing.
    pub fn get_stores(
        catalog: &Catalog,
        limit: i64,
        offset: i64,
        is_admin: bool,
    ) -> (rows: Vec<Store>)
        ensures
            rows@ == shown::<Store>(
                window(
                    listing(catalog.items@, kind_selection(3, is_admin, None)),
                    offset as int,
                    limit as int,
                ),
            ),
    {
        list_window::<Store>(&catalog.items, 3, is_admin, None, SortRule::CreatedDesc, offset, limit)
    }

    /// Products whose id is among `ids`: the rows that `offset` and `limit`
    /// cut out of the listing.
    pub fn get_stores_for_ids(
        catalog: &Catalog,
        limit: i64,
        offset: i64,
        ids: &Vec<i32>,
        is_admin: bool,
    ) -> (rows: Vec<Store>)
        ensures
            rows@ == shown::<Store>(
                window(
                    listing(catalog.items@, kind_selection(3, is_admin, Some(ids@))),
                    offset as int,
                    limit as int,
                ),
            ),
    {
        list_window::<Store>(
            &catalog.items,
            3,
            is_admin,
            Some(ids),
            SortRule::CreatedDesc,
            offset,
            limit,
        )
    }

    /// Products whose id is among `ids`: one page, and the number of the next
    /// page or zero.
    pub fn get_stores_list_for_ids(
        catalog: &Catalog,
        page: i32,
        limit: i32,
        ids: &Vec<i32>,
        is_admin: bool,
    ) -> (result: (Vec<Store>, i32))
        requires
            page < i32::MAX,
        ensures
            result.0@ == shown::<Store>(
                page_rows(
                    listing(catalog.items@, kind_selection(3, is_admin, Some(ids@))),
                    page as int,
                    limit as int,
                ),
            ),
            result.1 == next_page_number(
                listing(catalog.items@, kind_selection(3, is_admin, Some(ids@))),
                page as int,
                limit as int,
            ),
    {
        list_page::<Store>(&catalog.items, 3, is_admin, Some(ids), SortRule::CreatedDesc, page, limit)
    }

    /// Wiki articles: the rows that `offset` and `limit` cut out of the listing.
    pub fn get_wikis(
        catalog: &Catalog,
        limit: i64,
        offset: i64,
        is_admin: bool,
    ) -> (rows: Vec<Wiki>)
        ensures
            rows@ == shown::<Wiki>(
                window(
                    listing(catalog.items@, kind_selection(4, is_admin, None)),
                    offset as int,
                    limit as int,
                ),
            ),
    {
        list_window::<Wiki>(&catalog.items, 4, is_admin, None, SortRule::CreatedDesc, offset, limit)
    }

    /// Wiki articles whose id is among `ids`: the rows that `offset` and `limit`
    /// cut out of the listing.
    pub fn get_wikis_for_ids(
        catalog: &Catalog,
        limit: i64,
        offset: i64,
        ids: &Vec<i32>,
        is_admin: bool,
    ) -> (rows: Vec<Wiki>)
        ensures
            rows@ == shown::<Wiki>(
                window(
                    listing(catalog.items@, kind_selection(4, is_admin, Some(ids@))),
                    offset as int,
                    limit as int,
                ),
            ),
    {
        list_window::<Wiki>(
            &catalog.items,
            4,
            is_admin,
            Some(ids),
            SortRule::CreatedDesc,
            offset,
            limit,
        )
    }

    /// Wiki articles whose id is among `ids`: one page, and the number of the next
    /// page or zero.
    pub fn get_wikis_list_for_ids(
        catalog: &Catalog,
        page: i32,
        limit: i32,
        ids: &Vec<i32>,
        is_admin: bool,
    ) -> (result: (Vec<Wiki>, i32))
        requires
            page < i32::MAX,
        ensures
            result.0@ == shown::<Wiki>(
                page_rows(
                    listing(catalog.items@, kind_selection(4, is_admin, Some(ids@))),
                    page as int,
                    limit as int,
                ),
            ),
            result.1 == next_page_number(
                listing(catalog.items@, kind_selection(4, is_admin, Some(ids@))),
                page as int,
                limit as int,
            ),
    {
        list_page::<Wiki>(&catalog.items, 4, is_admin, Some(ids), SortRule::CreatedDesc, page, limit)
    }

    /// Works: the rows that `offset` and `limit` cut out of the listing.
    pub fn get_works(
        catalog: &Catalog,
        limit: i64,
        offset: i64,
        is_admin: bool,
    ) -> (rows: Vec<Work>)
        ensures
            rows@ == shown::<Work>(
                window(
                    listing(catalog.items@, kind_selection(5, is_admin, None)),
                    offset as int,
                    limit as int,
                ),
            ),
    {
        list_window::<Work>(&catalog.items, 5, is_admin, None, SortRule::CreatedDesc, offset, limit)
    }

    /// Works whose id is among `ids`: the rows that `offset` and `limit`
    /// cut out of the listing.
    pub fn get_works_for_ids(
        catalog: &Catalog,
        limit: i64,
        offset: i64,
        ids: &Vec<i32>,
        is_admin: bool,
    ) -> (rows: Vec<Work>)
        ensures
            rows@ == shown::<Work>(
                window(
                    listing(catalog.items@, kind_selection(5, is_admin, Some(ids@))),
                    offset as int,
                    limit as int,
                ),
            ),
    {
        list_window::<Work>(
            &catalog.items,
            5,
            is_admin,
            Some(ids),
            SortRule::CreatedDesc,
            offset,
            limit,
        )
    }

    /// Works whose id is among `ids`: one page, and the number of the next
    /// page or zero.
    pub fn get_works_list_for_ids(
        catalog: &Catalog,
        page: i32,
        limit: i32,
        ids: &Vec<i32>,
        is_admin: bool,
    ) -> (result: (Vec<Work>, i32))
        requires
            page < i32::MAX,
        ensures
            result.0@ == shown::<Work>(
                page_rows(
                    listing(catalog.items@, kind_selection(5, is_admin, Some(ids@))),
                    page as int,
                    limit as int,
                ),
            ),
            result.1 == next_page_number(
                listing(catalog.items@, kind_selection(5, is_admin, Some(ids@))),
                page as int,
                limit as int,
            ),
    {
        list_page::<Work>(&catalog.items, 5, is_admin, Some(ids), SortRule::CreatedDesc, page, limit)
    }

    /// Help articles: the rows that `offset` and `limit` cut out of the listing.
    pub fn get_helps(
        catalog: &Catalog,
        limit: i64,
        offset: i64,
        is_admin: bool,
    ) -> (rows: Vec<Help>)
        ensures
            rows@ == shown::<Help>(
                window(
                    listing(catalog.items@, kind_selection(6, is_admin, None)),
                    offset as int,
                    limit as int,
                ),
            ),
    {
        list_window::<Help>(&catalog.items, 6, is_admin, None, SortRule::PositionAsc, offset, limit)
    }

    /// Help articles whose id is among `ids`: the rows that `offset` and `limit`
    /// cut out of the listing.
    pub fn get_helps_for_ids(
        catalog: &Catalog,
        limit: i64,
        offset: i64,
        ids: &Vec<i32>,
        is_admin: bool,
    ) -> (rows: Vec<Help>)
        ensures
            rows@ == shown::<Help>(
                window(
                    listing(catalog.items@, kind_selection(6, is_admin, Some(ids@))),
                    offset as int,
                    limit as int,
                ),
            ),
    {
        list_window::<Help>(
            &catalog.items,
            6,
            is_admin,
            Some(ids),
            SortRule::PositionAsc,
            offset,
            limit,
        )
    }

    /// Help articles whose id is among `ids`: one page, and the number of the next
    /// page or zero.
    pub fn get_helps_list_for_ids(
        catalog: &Catalog,
        page: i32,
        limit: i32,
        ids: &Vec<i32>,
        is_admin: bool,
    ) -> (result: (Vec<Help>, i32))
        requires
            page < i32::MAX,
        ensures
            result.0@ == shown::<Help>(
                page_rows(
                    listing(catalog.items@, kind_selection(6, is_admin, Some(ids@))),
                    page as int,
                    limit as int,
                ),
            ),
            result.1 == next_page_number(
                listing(catalog.items@, kind_selection(6, is_admin, Some(ids@))),
                page as int,
                limit as int,
            ),
    {
        list_page::<Help>(&catalog.items, 6, is_admin, Some(ids), SortRule::PositionAsc, page, limit)
    }

    /// The image of the item, or the default image.
    pub fn get_image(&self) -> (path: String)
        ensures
            path@ == image_text(self.image),
    {
        image_or_default(&self.image)
    }
}

impl Categories {
    /// Blog articles under a category: the rows that `offset` and `limit` cut out
    /// of the listing.
    pub fn get_blogs(
        catalog: &Catalog,
        cat_id: i32,
        limit: i64,
        offset: i64,
        is_admin: bool,
    ) -> (result: Result<Vec<Blog>, Error>)
        ensures
            result matches Ok(rows) && rows@ == shown::<Blog>(
                window(
                    listing(catalog.items@, category_selection(*catalog, cat_id, 1, is_admin)),
                    offset as int,
                    limit as int,
                ),
            ),
    {
        let ids: Vec<i32> = collect_category_items(&catalog.category, cat_id, 1);
        Ok(
            list_window::<Blog>(
                &catalog.items,
                1,
                is_admin,
                Some(&ids),
                SortRule::CreatedDesc,
                offset,
                limit,
            ),
        )
    }

    /// Blog articles under a category: one page, and the number of the next page or
    /// zero.
    pub fn get_blogs_list(
        catalog: &Catalog,
        cat_id: i32,
        page: i32,
        limit: i32,
        is_admin: bool,
    ) -> (result: Result<(Vec<Blog>, i32), Error>)
        requires
            page < i32::MAX,
        ensures
            result matches Ok(found) && found.0@ == shown::<Blog>(
                page_rows(
                    listing(catalog.items@, category_selection(*catalog, cat_id, 1, is_admin)),
                    page as int,
                    limit as int,
                ),
            ) && found.1 == next_page_number(
                listing(catalog.items@, category_selection(*catalog, cat_id, 1, is_admin)),
                page as int,
                limit as int,
            ),
    {
        let ids: Vec<i32> = collect_category_items(&catalog.category, cat_id, 1);
        Ok(list_page::<Blog>(&catalog.items, 1, is_admin, Some(&ids), SortRule::CreatedDesc, page, limit))
    }

    /// Services under a category: the rows that `offset` and `limit` cut out
    /// of the listing.
    pub fn get_services(
        catalog: &Catalog,
        cat_id: i32,
        limit: i64,
        offset: i64,
        is_admin: bool,
    ) -> (result: Result<Vec<Service>, Error>)
        ensures
            result matches Ok(rows) && rows@ == shown::<Service>(
                window(
                    listing(catalog.items@, category_selection(*catalog, cat_id, 2, is_admin)),
                    offset as int,
                    limit as int,
                ),
            ),
    {
        let ids: Vec<i32> = collect_category_items(&catalog.category, cat_id, 2);
        Ok(
            list_window::<Service>(
                &catalog.items,
                2,
                is_admin,
                Some(&ids),
                SortRule::CreatedDesc,
                offset,
                limit,
            ),
        )
    }

    /// Services under a category: one page, and the number of the next page or
    /// zero.
    pub fn get_services_list(
        catalog: &Catalog,
        cat_id: i32,
        page: i32,
        limit: i32,
        is_admin: bool,
    ) -> (result: Result<(Vec<Service>, i32), Error>)
        requires
            page < i32::MAX,
        ensures
            result matches Ok(found) && found.0@ == shown::<Service>(
                page_rows(
                    listing(catalog.items@, category_selection(*catalog, cat_id, 2, is_admin)),
                    page as int,
                    limit as int,
                ),
            ) && found.1 == next_page_number(
                listing(catalog.items@, category_selection(*catalog, cat_id, 2, is_admin)),
                page as int,
                limit as int,
            ),
    {
        let ids: Vec<i32> = collect_category_items(&catalog.category, cat_id, 2);
        Ok(list_page::<Service>(&catalog.items, 2, is_admin, Some(&ids), SortRule::CreatedDesc, page, limit))
    }

    /// Products under a category: the rows that `offset` and `limit` cut out
    /// of the listing.
    pub fn get_stores(
        catalog: &Catalog,
        cat_id: i32,
        limit: i64,
        offset: i64,
        is_admin: bool,
    ) -> (result: Result<Vec<Store>, Error>)
        ensures
            result matches Ok(rows) && rows@ == shown::<Store>(
                window(
                    listing(catalog.items@, category_selection(*catalog, cat_id, 3, is_admin)),
                    offset as int,
                    limit as int,
                ),
            ),
    {
        let ids: Vec<i32> = collect_category_items(&catalog.category, cat_id, 3);
        Ok(
            list_window::<Store>(
                &catalog.items,
                3,
                is_admin,
                Some(&ids),
                SortRule::CreatedDesc,
                offset,
                limit,
            ),
        )
    }

    /// Products under a category: one page, and the number of the next page or
    /// zero.
    pub fn get_stores_list(
        catalog: &Catalog,
        cat_id: i32,
        page: i32,
        limit: i32,
        is_admin: bool,
    ) -> (result: Result<(Vec<Store>, i32), Error>)
        requires
            page < i32::MAX,
        ensures
            result matches Ok(found) && found.0@ == shown::<Store>(
                page_rows(
                    listing(catalog.items@, category_selection(*catalog, cat_id, 3, is_admin)),
                    page as int,
                    limit as int,
                ),
            ) && found.1 == next_page_number(
                listing(catalog.items@, category_selection(*catalog, cat_id, 3, is_admin)),
                page as int,
                limit as int,
            ),
    {
        let ids: Vec<i32> = collect_category_items(&catalog.category, cat_id, 3);
        Ok(list_page::<Store>(&catalog.items, 3, is_admin, Some(&ids), SortRule::CreatedDesc, page, limit))
    }

    /// Wiki articles under a category: the rows that `offset` and `limit` cut out
    /// of the listing.
    pub fn get_wikis(
        catalog: &Catalog,
        cat_id: i32,
        limit: i64,
        offset: i64,
        is_admin: bool,
    ) -> (result: Result<Vec<Wiki>, Error>)
        ensures
            result matches Ok(rows) && rows@ == shown::<Wiki>(
                window(
                    listing(catalog.items@, category_selection(*catalog, cat_id, 4, is_admin)),
                    offset as int,
                    limit as int,
                ),
            ),
    {
        let ids: Vec<i32> = collect_category_items(&catalog.category, cat_id, 4);
        Ok(
            list_window::<Wiki>(
                &catalog.items,
                4,
                is_admin,
                Some(&ids),
                SortRule::CreatedDesc,
                offset,
                limit,
            ),
        )
    }

    /// Wiki articles under a category: one page, and the number of the next page or
    /// zero.
    pub fn get_wikis_list(
        catalog: &Catalog,
        cat_id: i32,
        page: i32,
        limit: i32,
        is_admin: bool,
    ) -> (result: Result<(Vec<Wiki>, i32), Error>)
        requires
            page < i32::MAX,
        ensures
            result matches Ok(found) && found.0@ == shown::<Wiki>(
                page_rows(
                    listing(catalog.items@, category_selection(*catalog, cat_id, 4, is_admin)),
                    page as int,
                    limit as int,
                ),
            ) && found.1 == next_page_number(
                listing(catalog.items@, category_selection(*catalog, cat_id, 4, is_admin)),
                page as int,
                limit as int,
            ),
    {
        let ids: Vec<i32> = collect_category_items(&catalog.category, cat_id, 4);
        Ok(list_page::<Wiki>(&catalog.items, 4, is_admin, Some(&ids), SortRule::CreatedDesc, page, limit))
    }

    /// Works under a category: the rows that `offset` and `limit` cut out
    /// of the listing.
    pub fn get_works(
        catalog: &Catalog,
        cat_id: i32,
        limit: i64,
        offset: i64,
        is_admin: bool,
    ) -> (result: Result<Vec<Work>, Error>)
        ensures
            result matches Ok(rows) && rows@ == shown::<Work>(
                window(
                    listing(catalog.items@, category_selection(*catalog, cat_id, 5, is_admin)),
                    offset as int,
                    limit as int,
                ),
            ),
    {
        let ids: Vec<i32> = collect_category_items(&catalog.category, cat_id, 5);
        Ok(
            list_window::<Work>(
                &catalog.items,
                5,
                is_admin,
                Some(&ids),
                SortRule::CreatedDesc,
                offset,
                limit,
            ),
        )
    }

    /// Works under a category: one page, and the number of the next page or
    /// zero.
    pub fn get_works_list(
        catalog: &Catalog,
        cat_id: i32,
        page: i32,
        limit: i32,
        is_admin: bool,
    ) -> (result: Result<(Vec<Work>, i32), Error>)
        requires
            page < i32::MAX,
        ensures
            result matches Ok(found) && found.0@ == shown::<Work>(
                page_rows(
                    listing(catalog.items@, category_selection(*catalog, cat_id, 5, is_admin)),
                    page as int,
                    limit as int,
                ),
            ) && found.1 == next_page_number(
                listing(catalog.items@, category_selection(*catalog, cat_id, 5, is_admin)),
                page as int,
                limit as int,
            ),
    {
        let ids: Vec<i32> = collect_category_items(&catalog.category, cat_id, 5);
        Ok(list_page::<Work>(&catalog.items, 5, is_admin, Some(&ids), SortRule::CreatedDesc, page, limit))
    }

    /// Help articles under a category: the rows that `offset` and `limit` cut out
    /// of the listing.
    pub fn get_helps(
        catalog: &Catalog,
        cat_id: i32,
        limit: i64,
        offset: i64,
        is_admin: bool,
    ) -> (result: Result<Vec<Help>, Error>)
        ensures
            result matches Ok(rows) && rows@ == shown::<Help>(
                window(
                    listing(catalog.items@, category_selection(*catalog, cat_id, 6, is_admin)),
                    offset as int,
                    limit as int,
                ),
            ),
    {
        let ids: Vec<i32> = collect_category_items(&catalog.category, cat_id, 6);
        Ok(
            list_window::<Help>(
                &catalog.items,
                6,
                is_admin,
                Some(&ids),
                SortRule::PositionAsc,
                offset,
                limit,
            ),
        )
    }

    /// Help articles under a category: one page, and the number of the next page or
    /// zero.
    pub fn get_helps_list(
        catalog: &Catalog,
        cat_id: i32,
        page: i32,
        limit: i32,
        is_admin: bool,
    ) -> (result: Result<(Vec<Help>, i32), Error>)
        requires
            page < i32::MAX,
        ensures
            result matches Ok(found) && found.0@ == shown::<Help>(
                page_rows(
                    listing(catalog.items@, category_selection(*catalog, cat_id, 6, is_admin)),
                    page as int,
                    limit as int,
                ),
            ) && found.1 == next_page_number(
                listing(catalog.items@, category_selection(*catalog, cat_id, 6, is_admin)),
                page as int,
                limit as int,
            ),
    {
        let ids: Vec<i32> = collect_category_items(&catalog.category, cat_id, 6);
        Ok(list_page::<Help>(&catalog.items, 6, is_admin, Some(&ids), SortRule::PositionAsc, page, limit))
    }

    /// The image of the category, or the default image.
    pub fn get_image(&self) -> (path: String)
        ensures
            path@ == image_text(self.image),
    {
        image_or_default(&self.image)
    }
}

} // verus!
