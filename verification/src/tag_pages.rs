//! The pages of tags.

use vstd::prelude::*;
use vstd::string::StrSliceExecFns;
use crate::catalog::{Catalog, Keyed, locate, place_of, has_none_with, copy_rows};
use crate::errors::{Error, Missing, Denial, Field};
use crate::getters::all_small_tags;
use crate::kinds::is_admin;
use crate::listing::{Projection, listing, shown, tag_item_ids, collect_tag_items};
use crate::models::{Item, SmallTag, Tag, Blog, Service, Store, Wiki, Work, Help};
use crate::paging::{window, page_rows, next_page_number};
use crate::requests::{
    UserResp, IsAjaxData, IsAjaxPageData, PageStatData, get_request_user, is_request_user, perm_of,
    asker_of, asker_error, actor_of, Actor, get_is_ajax, get_is_ajax_page, get_stat_page,
    positive_is_ajax_of, positive_is_ajax, page_number_of, page_number, is_ajax_of, page_of,
};
use crate::shapes::kind_selection;
use crate::stat::{no_page_stat, stat_place};

verus! {

/// The query for the page of a tag.
pub struct TagPageData {
    pub slug: Option<String>,
    pub is_ajax: Option<i16>,
    pub page: Option<i32>,
}

/// The query for the page on which a tag is edited.
pub struct EditTagData {
    pub id: Option<i32>,
    pub is_ajax: Option<i16>,
}

/// Row `at` is the first tag with the name.
pub open spec fn is_first_tag_name(rows: Seq<Tag>, name: Seq<char>, at: int) -> bool {
    &&& 0 <= at < rows.len()
    &&& rows[at].name@ == name
    &&& forall|j: int| 0 <= j < at ==> !((#[trigger] rows[j]).name@ == name)
}

/// There is no tag with the name.
pub open spec fn no_tag_name(rows: Seq<Tag>, name: Seq<char>) -> bool {
    forall|j: int| 0 <= j < rows.len() ==> !((#[trigger] rows[j]).name@ == name)
}

/// The place of the first tag with the name.
pub open spec fn tag_name_place(rows: Seq<Tag>, name: Seq<char>) -> int {
    choose|at: int| is_first_tag_name(rows, name, at)
}

/// Finds the first tag with the name.
pub fn find_tag_name(rows: &Vec<Tag>, name: &String) -> (found: Option<usize>)
    ensures
        match found {
            Some(at) => is_first_tag_name(rows@, name@, at as int) && tag_name_place(rows@, name@) == at
                && !no_tag_name(rows@, name@),
            None => no_tag_name(rows@, name@),
        },
{
    let mut i: usize = 0;
    while i < rows.len()
        invariant
            i <= rows.len(),
            forall|j: int| 0 <= j < i ==> !((#[trigger] rows@[j]).name@ == name@),
        decreases rows.len() - i,
    {
        if rows[i].name == *name {
            proof {
                assert(is_first_tag_name(rows@, name@, i as int));
                let k = tag_name_place(rows@, name@);
                assert(is_first_tag_name(rows@, name@, k));
                if k < i {
                    assert(!(rows@[k].name@ == name@));
                } else if i < k {
                    assert(!(rows@[i as int].name@ == name@));
                }
            }
            return Some(i);
        }
        i += 1;
    }
    None
}

/// All tags.
pub struct CreateTagPageResp {
    pub request_user: UserResp,
    pub all_tags: Vec<Tag>,
}

/// Why `create_tag_page` refuses a request, if it does.
pub open spec fn create_tag_page_error(
    c: Catalog,
    user_id: i32,
    desktop: bool,
    params: Option<&IsAjaxData>,
) -> Option<Error> {
    if asker_error(c, user_id) is Some {
        asker_error(c, user_id)
    } else if asker_of(user_id) < 1 {
        Some(Error::PermissionDenied(Denial::Forbidden))
    } else {
        None
    }
}

/// `resp` is what `create_tag_page` answers to a request that it does not refuse.
pub open spec fn create_tag_page_answer(
    resp: CreateTagPageResp,
    c: Catalog,
    user_id: i32,
    desktop: bool,
    params: Option<&IsAjaxData>,
) -> bool {
    let is_ajax = match params { Some(p) => positive_is_ajax_of(p.is_ajax), None => 0 };
    &&& is_request_user(resp.request_user, c, user_id, is_ajax, desktop)
    &&& resp.all_tags@ == c.tags@
}

/// The page on which a tag is created, for users who are signed in.
pub fn create_tag_page(
    catalog: &Catalog,
    user_id: i32,
    desktop: bool,
    params: Option<&IsAjaxData>,
) -> (result: Result<CreateTagPageResp, Error>)
    ensures
        match create_tag_page_error(*catalog, user_id, desktop, params) {
            Some(e) => result == Err::<CreateTagPageResp, Error>(e),
            None => result matches Ok(resp) && create_tag_page_answer(
                resp,
                *catalog,
                user_id,
                desktop,
                params,
            ),
        },
{
    let is_ajax: i16 = get_is_ajax(params);
    let actor: Actor = match actor_of(catalog, user_id) {
        Ok(actor) => actor,
        Err(e) => {
            return Err(e);
        },
    };
    let request_user: UserResp = match get_request_user(catalog, user_id, is_ajax, desktop) {
        Ok(user) => user,
        Err(e) => {
            return Err(e);
        },
    };
    let perm: i16 = actor.perm;
    if actor.id < 1 {
        return Err(Error::PermissionDenied(Denial::Forbidden));
    }
    Ok(
        CreateTagPageResp {
            request_user,
            all_tags: copy_rows(&catalog.tags),
        },
    )
}

/// The page of a tag.
pub struct TagPageResp {
    pub request_user: UserResp,
    pub tag: Tag,
    pub works_list: Vec<Work>,
    pub services_list: Vec<Service>,
    pub wikis_list: Vec<Wiki>,
    pub blogs_list: Vec<Blog>,
    pub stores_list: Vec<Store>,
    pub helps_list: Vec<Help>,
    pub works_count: usize,
    pub services_count: usize,
    pub wikis_count: usize,
    pub blogs_count: usize,
    pub stores_count: usize,
    pub helps_count: usize,
}

/// Why `tag_page` refuses a request, if it does.
pub open spec fn tag_page_error(
    c: Catalog,
    user_id: i32,
    desktop: bool,
    params: Option<&TagPageData>,
) -> Option<Error> {
    let p = params->0;
    let slug = p.slug->0;
    if params is None {
        Some(Error::ValidationFailed(Field::Params))
    } else if p.slug is None {
        Some(Error::ValidationFailed(Field::Slug))
    } else if slug@.len() == 0 {
        Some(Error::ValidationFailed(Field::Slug))
    } else if asker_error(c, user_id) is Some {
        asker_error(c, user_id)
    } else if no_tag_name(c.tags@, slug@) {
        Some(Error::NotFound(Missing::Tag))
    } else {
        None
    }
}

/// `resp` is what `tag_page` answers to a request that it does not refuse.
pub open spec fn tag_page_answer(
    resp: TagPageResp,
    c: Catalog,
    user_id: i32,
    desktop: bool,
    params: Option<&TagPageData>,
) -> bool {
    let p = params->0;
    let slug = p.slug->0;
    let is_ajax = positive_is_ajax_of(p.is_ajax);
    let perm = perm_of(c, user_id);
    let admin = perm >= 60;
    let tag = c.tags@[tag_name_place(c.tags@, slug@)];
    let blogs_ids = tag_item_ids(c.tags_items@, tag.id, 1);
    let services_ids = tag_item_ids(c.tags_items@, tag.id, 2);
    let stores_ids = tag_item_ids(c.tags_items@, tag.id, 3);
    let wikis_ids = tag_item_ids(c.tags_items@, tag.id, 4);
    let works_ids = tag_item_ids(c.tags_items@, tag.id, 5);
    let helps_ids = tag_item_ids(c.tags_items@, tag.id, 6);
    &&& is_request_user(resp.request_user, c, user_id, is_ajax, desktop)
    &&& resp.tag == tag
    &&& resp.works_list@ == shown::<Work>(window(listing(c.items@, kind_selection(5, admin, Some(works_ids))), 0, 3))
    &&& resp.services_list@ == shown::<Service>(window(listing(c.items@, kind_selection(2, admin, Some(services_ids))), 0, 3))
    &&& resp.wikis_list@ == shown::<Wiki>(window(listing(c.items@, kind_selection(4, admin, Some(wikis_ids))), 0, 3))
    &&& resp.blogs_list@ == shown::<Blog>(window(listing(c.items@, kind_selection(1, admin, Some(blogs_ids))), 0, 3))
    &&& resp.stores_list@ == shown::<Store>(window(listing(c.items@, kind_selection(3, admin, Some(stores_ids))), 0, 3))
    &&& resp.helps_list@ == shown::<Help>(window(listing(c.items@, kind_selection(6, admin, Some(helps_ids))), 0, 3))
    &&& resp.works_count == works_ids.len()
    &&& resp.services_count == services_ids.len()
    &&& resp.wikis_count == wikis_ids.len()
    &&& resp.blogs_count == blogs_ids.len()
    &&& resp.stores_count == stores_ids.len()
    &&& resp.helps_count == helps_ids.len()
}

/// The page of a tag, found by its name: for each kind the three first items
/// that carry the tag, and how many items of the kind carry it.
pub fn tag_page(
    catalog: &Catalog,
    user_id: i32,
    desktop: bool,
    params: Option<&TagPageData>,
) -> (result: Result<TagPageResp, Error>)
    ensures
        match tag_page_error(*catalog, user_id, desktop, params) {
            Some(e) => result == Err::<TagPageResp, Error>(e),
            None => result matches Ok(resp) && tag_page_answer(
                resp,
                *catalog,
                user_id,
                desktop,
                params,
            ),
        },
{
    let p: &TagPageData = match params {
        Some(p) => p,
        None => {
            return Err(Error::ValidationFailed(Field::Params));
        },
    };
    let slug: &String = match &p.slug {
        Some(v) => v,
        None => {
            return Err(Error::ValidationFailed(Field::Slug));
        },
    };
    if slug.as_str().unicode_len() == 0 {
        return Err(Error::ValidationFailed(Field::Slug));
    }
    let is_ajax: i16 = positive_is_ajax(p.is_ajax);
    let actor: Actor = match actor_of(catalog, user_id) {
        Ok(actor) => actor,
        Err(e) => {
            return Err(e);
        },
    };
    let request_user: UserResp = match get_request_user(catalog, user_id, is_ajax, desktop) {
        Ok(user) => user,
        Err(e) => {
            return Err(e);
        },
    };
    let perm: i16 = actor.perm;
    let admin: bool = is_admin(perm);
    let tag_at: usize = match find_tag_name(&catalog.tags, slug) {
        Some(at) => at,
        None => {
            return Err(Error::NotFound(Missing::Tag));
        },
    };
    let tag = &catalog.tags[tag_at];
    let blogs_ids: Vec<i32> = collect_tag_items(&catalog.tags_items, tag.id, 1);
    let services_ids: Vec<i32> = collect_tag_items(&catalog.tags_items, tag.id, 2);
    let stores_ids: Vec<i32> = collect_tag_items(&catalog.tags_items, tag.id, 3);
    let wikis_ids: Vec<i32> = collect_tag_items(&catalog.tags_items, tag.id, 4);
    let works_ids: Vec<i32> = collect_tag_items(&catalog.tags_items, tag.id, 5);
    let helps_ids: Vec<i32> = collect_tag_items(&catalog.tags_items, tag.id, 6);
    Ok(
        TagPageResp {
            request_user,
            tag: tag.clone(),
            works_list: Item::get_works_for_ids(catalog, 3, 0, &works_ids, admin),
            services_list: Item::get_services_for_ids(catalog, 3, 0, &services_ids, admin),
            wikis_list: Item::get_wikis_for_ids(catalog, 3, 0, &wikis_ids, admin),
            blogs_list: Item::get_blogs_for_ids(catalog, 3, 0, &blogs_ids, admin),
            stores_list: Item::get_stores_for_ids(catalog, 3, 0, &stores_ids, admin),
            helps_list: Item::get_helps_for_ids(catalog, 3, 0, &helps_ids, admin),
            works_count: works_ids.len(),
            services_count: services_ids.len(),
            wikis_count: wikis_ids.len(),
            blogs_count: blogs_ids.len(),
            stores_count: stores_ids.len(),
            helps_count: helps_ids.len(),
        },
    )
}

/// One page of the blogs that carry a tag.
pub struct TagBlogsPageResp {
    pub request_user: UserResp,
    pub tag: Tag,
    pub blogs_list: Vec<Blog>,
    pub blogs_count: usize,
    pub next_page_number: i32,
}

/// Why `tag_blogs_page` refuses a request, if it does.
pub open spec fn tag_blogs_page_error(
    c: Catalog,
    user_id: i32,
    desktop: bool,
    params: Option<&TagPageData>,
) -> Option<Error> {
    let p = params->0;
    let slug = p.slug->0;
    let page = page_number_of(p.page);
    if params is None {
        Some(Error::ValidationFailed(Field::Params))
    } else if p.slug is None {
        Some(Error::ValidationFailed(Field::Slug))
    } else if slug@.len() == 0 {
        Some(Error::ValidationFailed(Field::Slug))
    } else if page == i32::MAX {
        Some(Error::ValidationFailed(Field::Params))
    } else if asker_error(c, user_id) is Some {
        asker_error(c, user_id)
    } else if no_tag_name(c.tags@, slug@) {
        Some(Error::NotFound(Missing::Tag))
    } else {
        None
    }
}

/// `resp` is what `tag_blogs_page` answers to a request that it does not refuse.
pub open spec fn tag_blogs_page_answer(
    resp: TagBlogsPageResp,
    c: Catalog,
    user_id: i32,
    desktop: bool,
    params: Option<&TagPageData>,
) -> bool {
    let p = params->0;
    let slug = p.slug->0;
    let page = page_number_of(p.page);
    let is_ajax = positive_is_ajax_of(p.is_ajax);
    let perm = perm_of(c, user_id);
    let admin = perm >= 60;
    let tag = c.tags@[tag_name_place(c.tags@, slug@)];
    let ids = tag_item_ids(c.tags_items@, tag.id, 1);
    &&& is_request_user(resp.request_user, c, user_id, is_ajax, desktop)
    &&& resp.tag == tag
    &&& resp.blogs_list@ == shown::<Blog>(page_rows(listing(c.items@, kind_selection(1, admin, Some(ids))), page as int, 20))
    &&& resp.blogs_count == ids.len()
    &&& resp.next_page_number == next_page_number(listing(c.items@, kind_selection(1, admin, Some(ids))), page as int, 20)
}

/// The blogs that carry a tag, found by its name: one page of them, and how
/// many there are.
pub fn tag_blogs_page(
    catalog: &Catalog,
    user_id: i32,
    desktop: bool,
    params: Option<&TagPageData>,
) -> (result: Result<TagBlogsPageResp, Error>)
    ensures
        match tag_blogs_page_error(*catalog, user_id, desktop, params) {
            Some(e) => result == Err::<TagBlogsPageResp, Error>(e),
            None => result matches Ok(resp) && tag_blogs_page_answer(
                resp,
                *catalog,
                user_id,
                desktop,
                params,
            ),
        },
{
    let p: &TagPageData = match params {
        Some(p) => p,
        None => {
            return Err(Error::ValidationFailed(Field::Params));
        },
    };
    let slug: &String = match &p.slug {
        Some(v) => v,
        None => {
            return Err(Error::ValidationFailed(Field::Slug));
        },
    };
    if slug.as_str().unicode_len() == 0 {
        return Err(Error::ValidationFailed(Field::Slug));
    }
    let page: i32 = page_number(p.page);
    if page == i32::MAX {
        return Err(Error::ValidationFailed(Field::Params));
    }
    let is_ajax: i16 = positive_is_ajax(p.is_ajax);
    let actor: Actor = match actor_of(catalog, user_id) {
        Ok(actor) => actor,
        Err(e) => {
            return Err(e);
        },
    };
    let request_user: UserResp = match get_request_user(catalog, user_id, is_ajax, desktop) {
        Ok(user) => user,
        Err(e) => {
            return Err(e);
        },
    };
    let perm: i16 = actor.perm;
    let admin: bool = is_admin(perm);
    let tag_at: usize = match find_tag_name(&catalog.tags, slug) {
        Some(at) => at,
        None => {
            return Err(Error::NotFound(Missing::Tag));
        },
    };
    let tag = &catalog.tags[tag_at];
    let ids: Vec<i32> = collect_tag_items(&catalog.tags_items, tag.id, 1);
    let found: (Vec<Blog>, i32) = Item::get_blogs_list_for_ids(catalog, page, 20, &ids, admin);
    Ok(
        TagBlogsPageResp {
            request_user,
            tag: tag.clone(),
            blogs_list: found.0,
            blogs_count: ids.len(),
            next_page_number: found.1,
        },
    )
}

/// One page of the services that carry a tag.
pub struct TagServicesPageResp {
    pub request_user: UserResp,
    pub tag: Tag,
    pub services_list: Vec<Service>,
    pub services_count: usize,
    pub next_page_number: i32,
}

/// Why `tag_services_page` refuses a request, if it does.
pub open spec fn tag_services_page_error(
    c: Catalog,
    user_id: i32,
    desktop: bool,
    params: Option<&TagPageData>,
) -> Option<Error> {
    let p = params->0;
    let slug = p.slug->0;
    let page = page_number_of(p.page);
    if params is None {
        Some(Error::ValidationFailed(Field::Params))
    } else if p.slug is None {
        Some(Error::ValidationFailed(Field::Slug))
    } else if slug@.len() == 0 {
        Some(Error::ValidationFailed(Field::Slug))
    } else if page == i32::MAX {
        Some(Error::ValidationFailed(Field::Params))
    } else if asker_error(c, user_id) is Some {
        asker_error(c, user_id)
    } else if no_tag_name(c.tags@, slug@) {
        Some(Error::NotFound(Missing::Tag))
    } else {
        None
    }
}

/// `resp` is what `tag_services_page` answers to a request that it does not refuse.
pub open spec fn tag_services_page_answer(
    resp: TagServicesPageResp,
    c: Catalog,
    user_id: i32,
    desktop: bool,
    params: Option<&TagPageData>,
) -> bool {
    let p = params->0;
    let slug = p.slug->0;
    let page = page_number_of(p.page);
    let is_ajax = positive_is_ajax_of(p.is_ajax);
    let perm = perm_of(c, user_id);
    let admin = perm >= 60;
    let tag = c.tags@[tag_name_place(c.tags@, slug@)];
    let ids = tag_item_ids(c.tags_items@, tag.id, 2);
    &&& is_request_user(resp.request_user, c, user_id, is_ajax, desktop)
    &&& resp.tag == tag
    &&& resp.services_list@ == shown::<Service>(page_rows(listing(c.items@, kind_selection(2, admin, Some(ids))), page as int, 20))
    &&& resp.services_count == ids.len()
    &&& resp.next_page_number == next_page_number(listing(c.items@, kind_selection(2, admin, Some(ids))), page as int, 20)
}

/// The services that carry a tag, found by its name: one page of them, and how
/// many there are.
pub fn tag_services_page(
    catalog: &Catalog,
    user_id: i32,
    desktop: bool,
    params: Option<&TagPageData>,
) -> (result: Result<TagServicesPageResp, Error>)
    ensures
        match tag_services_page_error(*catalog, user_id, desktop, params) {
            Some(e) => result == Err::<TagServicesPageResp, Error>(e),
            None => result matches Ok(resp) && tag_services_page_answer(
                resp,
                *catalog,
                user_id,
                desktop,
                params,
            ),
        },
{
    let p: &TagPageData = match params {
        Some(p) => p,
        None => {
            return Err(Error::ValidationFailed(Field::Params));
        },
    };
    let slug: &String = match &p.slug {
        Some(v) => v,
        None => {
            return Err(Error::ValidationFailed(Field::Slug));
        },
    };
    if slug.as_str().unicode_len() == 0 {
        return Err(Error::ValidationFailed(Field::Slug));
    }
    let page: i32 = page_number(p.page);
    if page == i32::MAX {
        return Err(Error::ValidationFailed(Field::Params));
    }
    let is_ajax: i16 = positive_is_ajax(p.is_ajax);
    let actor: Actor = match actor_of(catalog, user_id) {
        Ok(actor) => actor,
        Err(e) => {
            return Err(e);
        },
    };
    let request_user: UserResp = match get_request_user(catalog, user_id, is_ajax, desktop) {
        Ok(user) => user,
        Err(e) => {
            return Err(e);
        },
    };
    let perm: i16 = actor.perm;
    let admin: bool = is_admin(perm);
    let tag_at: usize = match find_tag_name(&catalog.tags, slug) {
        Some(at) => at,
        None => {
            return Err(Error::NotFound(Missing::Tag));
        },
    };
    let tag = &catalog.tags[tag_at];
    let ids: Vec<i32> = collect_tag_items(&catalog.tags_items, tag.id, 2);
    let found: (Vec<Service>, i32) = Item::get_services_list_for_ids(catalog, page, 20, &ids, admin);
    Ok(
        TagServicesPageResp {
            request_user,
            tag: tag.clone(),
            services_list: found.0,
            services_count: ids.len(),
            next_page_number: found.1,
        },
    )
}

/// One page of the stores that carry a tag.
pub struct TagStoresPageResp {
    pub request_user: UserResp,
    pub tag: Tag,
    pub stores_list: Vec<Store>,
    pub stores_count: usize,
    pub next_page_number: i32,
}

/// Why `tag_stores_page` refuses a request, if it does.
pub open spec fn tag_stores_page_error(
    c: Catalog,
    user_id: i32,
    desktop: bool,
    params: Option<&TagPageData>,
) -> Option<Error> {
    let p = params->0;
    let slug = p.slug->0;
    let page = page_number_of(p.page);
    if params is None {
        Some(Error::ValidationFailed(Field::Params))
    } else if p.slug is None {
        Some(Error::ValidationFailed(Field::Slug))
    } else if slug@.len() == 0 {
        Some(Error::ValidationFailed(Field::Slug))
    } else if page == i32::MAX {
        Some(Error::ValidationFailed(Field::Params))
    } else if asker_error(c, user_id) is Some {
        asker_error(c, user_id)
    } else if no_tag_name(c.tags@, slug@) {
        Some(Error::NotFound(Missing::Tag))
    } else {
        None
    }
}

/// `resp` is what `tag_stores_page` answers to a request that it does not refuse.
pub open spec fn tag_stores_page_answer(
    resp: TagStoresPageResp,
    c: Catalog,
    user_id: i32,
    desktop: bool,
    params: Option<&TagPageData>,
) -> bool {
    let p = params->0;
    let slug = p.slug->0;
    let page = page_number_of(p.page);
    let is_ajax = positive_is_ajax_of(p.is_ajax);
    let perm = perm_of(c, user_id);
    let admin = perm >= 60;
    let tag = c.tags@[tag_name_place(c.tags@, slug@)];
    let ids = tag_item_ids(c.tags_items@, tag.id, 3);
    &&& is_request_user(resp.request_user, c, user_id, is_ajax, desktop)
    &&& resp.tag == tag
    &&& resp.stores_list@ == shown::<Store>(page_rows(listing(c.items@, kind_selection(3, admin, Some(ids))), page as int, 20))
    &&& resp.stores_count == ids.len()
    &&& resp.next_page_number == next_page_number(listing(c.items@, kind_selection(3, admin, Some(ids))), page as int, 20)
}

/// The stores that carry a tag, found by its name: one page of them, and how
/// many there are.
pub fn tag_stores_page(
    catalog: &Catalog,
    user_id: i32,
    desktop: bool,
    params: Option<&TagPageData>,
) -> (result: Result<TagStoresPageResp, Error>)
    ensures
        match tag_stores_page_error(*catalog, user_id, desktop, params) {
            Some(e) => result == Err::<TagStoresPageResp, Error>(e),
            None => result matches Ok(resp) && tag_stores_page_answer(
                resp,
                *catalog,
                user_id,
                desktop,
                params,
            ),
        },
{
    let p: &TagPageData = match params {
        Some(p) => p,
        None => {
            return Err(Error::ValidationFailed(Field::Params));
        },
    };
    let slug: &String = match &p.slug {
        Some(v) => v,
        None => {
            return Err(Error::ValidationFailed(Field::Slug));
        },
    };
    if slug.as_str().unicode_len() == 0 {
        return Err(Error::ValidationFailed(Field::Slug));
    }
    let page: i32 = page_number(p.page);
    if page == i32::MAX {
        return Err(Error::ValidationFailed(Field::Params));
    }
    let is_ajax: i16 = positive_is_ajax(p.is_ajax);
    let actor: Actor = match actor_of(catalog, user_id) {
        Ok(actor) => actor,
        Err(e) => {
            return Err(e);
        },
    };
    let request_user: UserResp = match get_request_user(catalog, user_id, is_ajax, desktop) {
        Ok(user) => user,
        Err(e) => {
            return Err(e);
        },
    };
    let perm: i16 = actor.perm;
    let admin: bool = is_admin(perm);
    let tag_at: usize = match find_tag_name(&catalog.tags, slug) {
        Some(at) => at,
        None => {
            return Err(Error::NotFound(Missing::Tag));
        },
    };
    let tag = &catalog.tags[tag_at];
    let ids: Vec<i32> = collect_tag_items(&catalog.tags_items, tag.id, 3);
    let found: (Vec<Store>, i32) = Item::get_stores_list_for_ids(catalog, page, 20, &ids, admin);
    Ok(
        TagStoresPageResp {
            request_user,
            tag: tag.clone(),
            stores_list: found.0,
            stores_count: ids.len(),
            next_page_number: found.1,
        },
    )
}

/// One page of the wikis that carry a tag.
pub struct TagWikisPageResp {
    pub request_user: UserResp,
    pub tag: Tag,
    pub wikis_list: Vec<Wiki>,
    pub wikis_count: usize,
    pub next_page_number: i32,
}

/// Why `tag_wikis_page` refuses a request, if it does.
pub open spec fn tag_wikis_page_error(
    c: Catalog,
    user_id: i32,
    desktop: bool,
    params: Option<&TagPageData>,
) -> Option<Error> {
    let p = params->0;
    let slug = p.slug->0;
    let page = page_number_of(p.page);
    if params is None {
        Some(Error::ValidationFailed(Field::Params))
    } else if p.slug is None {
        Some(Error::ValidationFailed(Field::Slug))
    } else if slug@.len() == 0 {
        Some(Error::ValidationFailed(Field::Slug))
    } else if page == i32::MAX {
        Some(Error::ValidationFailed(Field::Params))
    } else if asker_error(c, user_id) is Some {
        asker_error(c, user_id)
    } else if no_tag_name(c.tags@, slug@) {
        Some(Error::NotFound(Missing::Tag))
    } else {
        None
    }
}

/// `resp` is what `tag_wikis_page` answers to a request that it does not refuse.
pub open spec fn tag_wikis_page_answer(
    resp: TagWikisPageResp,
    c: Catalog,
    user_id: i32,
    desktop: bool,
    params: Option<&TagPageData>,
) -> bool {
    let p = params->0;
    let slug = p.slug->0;
    let page = page_number_of(p.page);
    let is_ajax = positive_is_ajax_of(p.is_ajax);
    let perm = perm_of(c, user_id);
    let admin = perm >= 60;
    let tag = c.tags@[tag_name_place(c.tags@, slug@)];
    let ids = tag_item_ids(c.tags_items@, tag.id, 4);
    &&& is_request_user(resp.request_user, c, user_id, is_ajax, desktop)
    &&& resp.tag == tag
    &&& resp.wikis_list@ == shown::<Wiki>(page_rows(listing(c.items@, kind_selection(4, admin, Some(ids))), page as int, 20))
    &&& resp.wikis_count == ids.len()
    &&& resp.next_page_number == next_page_number(listing(c.items@, kind_selection(4, admin, Some(ids))), page as int, 20)
}

/// The wikis that carry a tag, found by its name: one page of them, and how
/// many there are.
pub fn tag_wikis_page(
    catalog: &Catalog,
    user_id: i32,
    desktop: bool,
    params: Option<&TagPageData>,
) -> (result: Result<TagWikisPageResp, Error>)
    ensures
        match tag_wikis_page_error(*catalog, user_id, desktop, params) {
            Some(e) => result == Err::<TagWikisPageResp, Error>(e),
            None => result matches Ok(resp) && tag_wikis_page_answer(
                resp,
                *catalog,
                user_id,
                desktop,
                params,
            ),
        },
{
    let p: &TagPageData = match params {
        Some(p) => p,
        None => {
            return Err(Error::ValidationFailed(Field::Params));
        },
    };
    let slug: &String = match &p.slug {
        Some(v) => v,
        None => {
            return Err(Error::ValidationFailed(Field::Slug));
        },
    };
    if slug.as_str().unicode_len() == 0 {
        return Err(Error::ValidationFailed(Field::Slug));
    }
    let page: i32 = page_number(p.page);
    if page == i32::MAX {
        return Err(Error::ValidationFailed(Field::Params));
    }
    let is_ajax: i16 = positive_is_ajax(p.is_ajax);
    let actor: Actor = match actor_of(catalog, user_id) {
        Ok(actor) => actor,
        Err(e) => {
            return Err(e);
        },
    };
    let request_user: UserResp = match get_request_user(catalog, user_id, is_ajax, desktop) {
        Ok(user) => user,
        Err(e) => {
            return Err(e);
        },
    };
    let perm: i16 = actor.perm;
    let admin: bool = is_admin(perm);
    let tag_at: usize = match find_tag_name(&catalog.tags, slug) {
        Some(at) => at,
        None => {
            return Err(Error::NotFound(Missing::Tag));
        },
    };
    let tag = &catalog.tags[tag_at];
    let ids: Vec<i32> = collect_tag_items(&catalog.tags_items, tag.id, 4);
    let found: (Vec<Wiki>, i32) = Item::get_wikis_list_for_ids(catalog, page, 20, &ids, admin);
    Ok(
        TagWikisPageResp {
            request_user,
            tag: tag.clone(),
            wikis_list: found.0,
            wikis_count: ids.len(),
            next_page_number: found.1,
        },
    )
}

/// One page of the works that carry a tag.
pub struct TagWorksPageResp {
    pub request_user: UserResp,
    pub tag: Tag,
    pub works_list: Vec<Work>,
    pub works_count: usize,
    pub next_page_number: i32,
}

/// Why `tag_works_page` refuses a request, if it does.
pub open spec fn tag_works_page_error(
    c: Catalog,
    user_id: i32,
    desktop: bool,
    params: Option<&TagPageData>,
) -> Option<Error> {
    let p = params->0;
    let slug = p.slug->0;
    let page = page_number_of(p.page);
    if params is None {
        Some(Error::ValidationFailed(Field::Params))
    } else if p.slug is None {
        Some(Error::ValidationFailed(Field::Slug))
    } else if slug@.len() == 0 {
        Some(Error::ValidationFailed(Field::Slug))
    } else if page == i32::MAX {
        Some(Error::ValidationFailed(Field::Params))
    } else if asker_error(c, user_id) is Some {
        asker_error(c, user_id)
    } else if no_tag_name(c.tags@, slug@) {
        Some(Error::NotFound(Missing::Tag))
    } else {
        None
    }
}

/// `resp` is what `tag_works_page` answers to a request that it does not refuse.
pub open spec fn tag_works_page_answer(
    resp: TagWorksPageResp,
    c: Catalog,
    user_id: i32,
    desktop: bool,
    params: Option<&TagPageData>,
) -> bool {
    let p = params->0;
    let slug = p.slug->0;
    let page = page_number_of(p.page);
    let is_ajax = positive_is_ajax_of(p.is_ajax);
    let perm = perm_of(c, user_id);
    let admin = perm >= 60;
    let tag = c.tags@[tag_name_place(c.tags@, slug@)];
    let ids = tag_item_ids(c.tags_items@, tag.id, 5);
    &&& is_request_user(resp.request_user, c, user_id, is_ajax, desktop)
    &&& resp.tag == tag
    &&& resp.works_list@ == shown::<Work>(page_rows(listing(c.items@, kind_selection(5, admin, Some(ids))), page as int, 20))
    &&& resp.works_count == ids.len()
    &&& resp.next_page_number == next_page_number(listing(c.items@, kind_selection(5, admin, Some(ids))), page as int, 20)
}

/// The works that carry a tag, found by its name: one page of them, and how
/// many there are.
pub fn tag_works_page(
    catalog: &Catalog,
    user_id: i32,
    desktop: bool,
    params: Option<&TagPageData>,
) -> (result: Result<TagWorksPageResp, Error>)
    ensures
        match tag_works_page_error(*catalog, user_id, desktop, params) {
            Some(e) => result == Err::<TagWorksPageResp, Error>(e),
            None => result matches Ok(resp) && tag_works_page_answer(
                resp,
                *catalog,
                user_id,
                desktop,
                params,
            ),
        },
{
    let p: &TagPageData = match params {
        Some(p) => p,
        None => {
            return Err(Error::ValidationFailed(Field::Params));
        },
    };
    let slug: &String = match &p.slug {
        Some(v) => v,
        None => {
            return Err(Error::ValidationFailed(Field::Slug));
        },
    };
    if slug.as_str().unicode_len() == 0 {
        return Err(Error::ValidationFailed(Field::Slug));
    }
    let page: i32 = page_number(p.page);
    if page == i32::MAX {
        return Err(Error::ValidationFailed(Field::Params));
    }
    let is_ajax: i16 = positive_is_ajax(p.is_ajax);
    let actor: Actor = match actor_of(catalog, user_id) {
        Ok(actor) => actor,
        Err(e) => {
            return Err(e);
        },
    };
    let request_user: UserResp = match get_request_user(catalog, user_id, is_ajax, desktop) {
        Ok(user) => user,
        Err(e) => {
            return Err(e);
        },
    };
    let perm: i16 = actor.perm;
    let admin: bool = is_admin(perm);
    let tag_at: usize = match find_tag_name(&catalog.tags, slug) {
        Some(at) => at,
        None => {
            return Err(Error::NotFound(Missing::Tag));
        },
    };
    let tag = &catalog.tags[tag_at];
    let ids: Vec<i32> = collect_tag_items(&catalog.tags_items, tag.id, 5);
    let found: (Vec<Work>, i32) = Item::get_works_list_for_ids(catalog, page, 20, &ids, admin);
    Ok(
        TagWorksPageResp {
            request_user,
            tag: tag.clone(),
            works_list: found.0,
            works_count: ids.len(),
            next_page_number: found.1,
        },
    )
}

/// One page of the helps that carry a tag.
pub struct TagHelpsPageResp {
    pub request_user: UserResp,
    pub tag: Tag,
    pub helps_list: Vec<Help>,
    pub helps_count: usize,
    pub next_page_number: i32,
}

/// Why `tag_helps_page` refuses a request, if it does.
pub open spec fn tag_helps_page_error(
    c: Catalog,
    user_id: i32,
    desktop: bool,
    params: Option<&TagPageData>,
) -> Option<Error> {
    let p = params->0;
    let slug = p.slug->0;
    let page = page_number_of(p.page);
    if params is None {
        Some(Error::ValidationFailed(Field::Params))
    } else if p.slug is None {
        Some(Error::ValidationFailed(Field::Slug))
    } else if slug@.len() == 0 {
        Some(Error::ValidationFailed(Field::Slug))
    } else if page == i32::MAX {
        Some(Error::ValidationFailed(Field::Params))
    } else if asker_error(c, user_id) is Some {
        asker_error(c, user_id)
    } else if no_tag_name(c.tags@, slug@) {
        Some(Error::NotFound(Missing::Tag))
    } else {
        None
    }
}

/// `resp` is what `tag_helps_page` answers to a request that it does not refuse.
pub open spec fn tag_helps_page_answer(
    resp: TagHelpsPageResp,
    c: Catalog,
    user_id: i32,
    desktop: bool,
    params: Option<&TagPageData>,
) -> bool {
    let p = params->0;
    let slug = p.slug->0;
    let page = page_number_of(p.page);
    let is_ajax = positive_is_ajax_of(p.is_ajax);
    let perm = perm_of(c, user_id);
    let admin = perm >= 60;
    let tag = c.tags@[tag_name_place(c.tags@, slug@)];
    let ids = tag_item_ids(c.tags_items@, tag.id, 6);
    &&& is_request_user(resp.request_user, c, user_id, is_ajax, desktop)
    &&& resp.tag == tag
    &&& resp.helps_list@ == shown::<Help>(page_rows(listing(c.items@, kind_selection(6, admin, Some(ids))), page as int, 20))
    &&& resp.helps_count == ids.len()
    &&& resp.next_page_number == next_page_number(listing(c.items@, kind_selection(6, admin, Some(ids))), page as int, 20)
}

/// The helps that carry a tag, found by its name: one page of them, and how
/// many there are.
pub fn tag_helps_page(
    catalog: &Catalog,
    user_id: i32,
    desktop: bool,
    params: Option<&TagPageData>,
) -> (result: Result<TagHelpsPageResp, Error>)
    ensures
        match tag_helps_page_error(*catalog, user_id, desktop, params) {
            Some(e) => result == Err::<TagHelpsPageResp, Error>(e),
            None => result matches Ok(resp) && tag_helps_page_answer(
                resp,
                *catalog,
                user_id,
                desktop,
                params,
            ),
        },
{
    let p: &TagPageData = match params {
        Some(p) => p,
        None => {
            return Err(Error::ValidationFailed(Field::Params));
        },
    };
    let slug: &String = match &p.slug {
        Some(v) => v,
        None => {
            return Err(Error::ValidationFailed(Field::Slug));
        },
    };
    if slug.as_str().unicode_len() == 0 {
        return Err(Error::ValidationFailed(Field::Slug));
    }
    let page: i32 = page_number(p.page);
    if page == i32::MAX {
        return Err(Error::ValidationFailed(Field::Params));
    }
    let is_ajax: i16 = positive_is_ajax(p.is_ajax);
    let actor: Actor = match actor_of(catalog, user_id) {
        Ok(actor) => actor,
        Err(e) => {
            return Err(e);
        },
    };
    let request_user: UserResp = match get_request_user(catalog, user_id, is_ajax, desktop) {
        Ok(user) => user,
        Err(e) => {
            return Err(e);
        },
    };
    let perm: i16 = actor.perm;
    let admin: bool = is_admin(perm);
    let tag_at: usize = match find_tag_name(&catalog.tags, slug) {
        Some(at) => at,
        None => {
            return Err(Error::NotFound(Missing::Tag));
        },
    };
    let tag = &catalog.tags[tag_at];
    let ids: Vec<i32> = collect_tag_items(&catalog.tags_items, tag.id, 6);
    let found: (Vec<Help>, i32) = Item::get_helps_list_for_ids(catalog, page, 20, &ids, admin);
    Ok(
        TagHelpsPageResp {
            request_user,
            tag: tag.clone(),
            helps_list: found.0,
            helps_count: ids.len(),
            next_page_number: found.1,
        },
    )
}

/// One page of all tags.
pub struct TagsPageResp {
    pub request_user: UserResp,
    pub all_tags: Vec<SmallTag>,
    pub tags_count: usize,
    pub next_page_number: i32,
    pub stat: PageStatData,
}

/// Why `tags_page` refuses a request, if it does.
pub open spec fn tags_page_error(
    c: Catalog,
    user_id: i32,
    desktop: bool,
    params: Option<&IsAjaxPageData>,
) -> Option<Error> {
    let asked = (match params { Some(p) => is_ajax_of(p.is_ajax), None => 0 }, page_of(match params { Some(p) => Some(*p), None => None }));
    let page = asked.1;
    if no_page_stat(c.stat_pages@, 1) {
        Some(Error::NotFound(Missing::StatPage))
    } else if page == i32::MAX {
        Some(Error::ValidationFailed(Field::Params))
    } else if asker_error(c, user_id) is Some {
        asker_error(c, user_id)
    } else {
        None
    }
}

/// `resp` is what `tags_page` answers to a request that it does not refuse.
pub open spec fn tags_page_answer(
    resp: TagsPageResp,
    c: Catalog,
    user_id: i32,
    desktop: bool,
    params: Option<&IsAjaxPageData>,
) -> bool {
    let stat = c.stat_pages@[stat_place(c.stat_pages@, 1)];
    let asked = (match params { Some(p) => is_ajax_of(p.is_ajax), None => 0 }, page_of(match params { Some(p) => Some(*p), None => None }));
    let page = asked.1;
    let is_ajax = asked.0;
    &&& is_request_user(resp.request_user, c, user_id, is_ajax, desktop)
    &&& resp.all_tags@ == page_rows(all_small_tags(c.tags@), page as int, 20)
    &&& resp.tags_count == c.tags@.len()
    &&& resp.next_page_number == next_page_number(all_small_tags(c.tags@), page as int, 20)
    &&& resp.stat.view == stat.view && resp.stat.seconds == stat.seconds
}

/// All tags, one page of them, with their number and the statistics of the
/// page.
pub fn tags_page(
    catalog: &Catalog,
    user_id: i32,
    desktop: bool,
    params: Option<&IsAjaxPageData>,
) -> (result: Result<TagsPageResp, Error>)
    ensures
        match tags_page_error(*catalog, user_id, desktop, params) {
            Some(e) => result == Err::<TagsPageResp, Error>(e),
            None => result matches Ok(resp) && tags_page_answer(
                resp,
                *catalog,
                user_id,
                desktop,
                params,
            ),
        },
{
    let stat: PageStatData = match get_stat_page(catalog, 1, 0) {
        Ok(v) => v,
        Err(e) => {
            return Err(e);
        },
    };
    let asked: (i16, i32) = get_is_ajax_page(params);
    let page: i32 = asked.1;
    if page == i32::MAX {
        return Err(Error::ValidationFailed(Field::Params));
    }
    let is_ajax: i16 = asked.0;
    let actor: Actor = match actor_of(catalog, user_id) {
        Ok(actor) => actor,
        Err(e) => {
            return Err(e);
        },
    };
    let request_user: UserResp = match get_request_user(catalog, user_id, is_ajax, desktop) {
        Ok(user) => user,
        Err(e) => {
            return Err(e);
        },
    };
    let perm: i16 = actor.perm;
    let found: (Vec<SmallTag>, i32) = Tag::get_tags_list(catalog, page, 20);
    Ok(
        TagsPageResp {
            request_user,
            all_tags: found.0,
            tags_count: catalog.tags.len(),
            next_page_number: found.1,
            stat,
        },
    )
}

/// A tag.
pub struct EditTagResp {
    pub request_user: UserResp,
    pub tag: Tag,
}

/// Why `edit_tag_page` refuses a request, if it does.
pub open spec fn edit_tag_page_error(
    c: Catalog,
    user_id: i32,
    desktop: bool,
    params: Option<&EditTagData>,
) -> Option<Error> {
    let p = params->0;
    let id = p.id->0;
    let perm = perm_of(c, user_id);
    let tag = c.tags@[place_of(c.tags@, id)];
    if params is None {
        Some(Error::ValidationFailed(Field::Params))
    } else if p.id is None || p.id->0 < 1 {
        Some(Error::ValidationFailed(Field::Id))
    } else if asker_error(c, user_id) is Some {
        asker_error(c, user_id)
    } else if has_none_with(c.tags@, id) {
        Some(Error::NotFound(Missing::Tag))
    } else if perm < 60 && asker_of(user_id) != tag.user_id {
        Some(Error::PermissionDenied(Denial::Forbidden))
    } else {
        None
    }
}

/// `resp` is what `edit_tag_page` answers to a request that it does not refuse.
pub open spec fn edit_tag_page_answer(
    resp: EditTagResp,
    c: Catalog,
    user_id: i32,
    desktop: bool,
    params: Option<&EditTagData>,
) -> bool {
    let p = params->0;
    let id = p.id->0;
    let is_ajax = positive_is_ajax_of(p.is_ajax);
    let tag = c.tags@[place_of(c.tags@, id)];
    &&& is_request_user(resp.request_user, c, user_id, is_ajax, desktop)
    &&& resp.tag == tag
}

/// The page on which a tag is edited, for its owner and for administrators.
pub fn edit_tag_page(
    catalog: &Catalog,
    user_id: i32,
    desktop: bool,
    params: Option<&EditTagData>,
) -> (result: Result<EditTagResp, Error>)
    ensures
        match edit_tag_page_error(*catalog, user_id, desktop, params) {
            Some(e) => result == Err::<EditTagResp, Error>(e),
            None => result matches Ok(resp) && edit_tag_page_answer(
                resp,
                *catalog,
                user_id,
                desktop,
                params,
            ),
        },
{
    let p: &EditTagData = match params {
        Some(p) => p,
        None => {
            return Err(Error::ValidationFailed(Field::Params));
        },
    };
    let id: i32 = match p.id {
        Some(v) if v >= 1 => v,
        _ => {
            return Err(Error::ValidationFailed(Field::Id));
        },
    };
    let is_ajax: i16 = positive_is_ajax(p.is_ajax);
    let actor: Actor = match actor_of(catalog, user_id) {
        Ok(actor) => actor,
        Err(e) => {
            return Err(e);
        },
    };
    let request_user: UserResp = match get_request_user(catalog, user_id, is_ajax, desktop) {
        Ok(user) => user,
        Err(e) => {
            return Err(e);
        },
    };
    let perm: i16 = actor.perm;
    let tag_at: usize = match locate(&catalog.tags, id) {
        Some(at) => at,
        None => {
            return Err(Error::NotFound(Missing::Tag));
        },
    };
    let tag = &catalog.tags[tag_at];
    if perm < 60 && actor.id != tag.user_id {
        return Err(Error::PermissionDenied(Denial::Forbidden));
    }
    Ok(
        EditTagResp {
            request_user,
            tag: tag.clone(),
        },
    )
}

} // verus!
