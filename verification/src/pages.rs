//! The pages of the site: what each answers, and when it refuses.

use vstd::prelude::*;
use vstd::string::StrSliceExecFns;
use crate::catalog::{Catalog, Keyed, locate, place_of, has_none_with, rows_page, copy_rows};
use crate::detail::{
    ItemDetailResp, ItemResp, CatDataResp, get_item_data, is_item_data, to_item_resp, is_item_resp,
    are_neighbours, newest_in_category, find_last_place, last_place,
};
use crate::errors::{Error, Missing, Denial, Field};
use crate::getters::{
    stats_of, small_tags_among, kind_tag_ids, image_ids, level_ranks, ranks_by_level,
    collect_kind_tag_ids, collect_small_tags, collect_stats_of,
};
use crate::kinds::{image_text, stat_type_of, SortRule, is_admin};
use crate::listing::{Projection, listing, shown, list_page, collect_category_items};
use crate::manage::{find_item_of, item_place_of, no_item_of};
use crate::models::{
    Item, Categories, Cat, CatDetail, SmallTag, Tag, Blog, Service, Store, Wiki, Work, Help,
    FeaturedItem, File, Feedback, CookieStat, CookieUser, Serve, ServeCategories, TechCategories,
    StatPage,
};
use crate::paging::{window, page_rows, next_page_number};
use crate::ranking::{in_rank_order, rows_in_rank_order};
use crate::requests::{
    UserResp, IsAjaxData, IsAjaxPageData, PageStatData, get_request_user, is_request_user, perm_of,
    asker_error, actor_of, Actor, get_is_ajax, get_is_ajax_page, get_stat_page, positive_is_ajax_of,
    positive_is_ajax, page_number_of, page_number, is_ajax_of, page_of, cats_for, collect_cats_for,
};
use crate::shapes::{kind_selection, category_selection};
use crate::stat::{no_page_stat, stat_place, find_page_stat};

verus! {

/// The query for the page of a technical category.
pub struct TechCategoryData {
    pub is_ajax: Option<i16>,
    pub id: Option<i32>,
}

/// The query for the page of a category of service options.
pub struct ServeCategoryData {
    pub is_ajax: Option<i16>,
    pub id: Option<i32>,
}

/// The query for the page of a service option.
pub struct ServeData {
    pub is_ajax: Option<i16>,
    pub id: Option<i32>,
}

/// The query for the history of a visitor.
pub struct UserHistoryData {
    pub user_id: Option<i32>,
    pub page: Option<i32>,
}

/// The query for the objects of a technical category.
pub struct TechObjectsData {
    pub id: Option<i32>,
}

/// The query for the form of an object of some kind.
pub struct UnicalObjectFormData {
    pub types: Option<i16>,
}

/// The query for the page on which a category is edited.
pub struct EditCategoryData {
    pub id: Option<i32>,
    pub is_ajax: Option<i16>,
}

/// The query for the page on which an item is edited.
pub struct EditItemData {
    pub id: Option<i32>,
    pub is_ajax: Option<i16>,
}

/// The query for the page on which a file is edited.
pub struct EditFileData {
    pub id: Option<i32>,
    pub is_ajax: Option<i16>,
}

/// The query for the page of an image.
pub struct ImageData {
    pub id: Option<i32>,
}

/// The query for the page of an item.
pub struct ItemDetailData {
    pub cat_slug: Option<String>,
    pub slug: Option<String>,
    pub is_ajax: Option<i16>,
}

/// The query for the page of a category.
pub struct CategoryDetailData {
    pub slug: Option<String>,
    pub is_ajax: Option<i16>,
    pub page: Option<i32>,
}

/// The front page.
pub struct IndexPageResp {
    pub request_user: UserResp,
    pub last_works: Vec<Work>,
    pub last_services: Vec<Service>,
    pub last_wikis: Vec<Wiki>,
    pub last_blogs: Vec<Blog>,
    pub last_stores: Vec<Store>,
    pub view: i32,
    pub seconds: i32,
}

/// Why `index_page` refuses a request, if it does.
pub open spec fn index_page_error(
    c: Catalog,
    user_id: i32,
    desktop: bool,
    params: Option<&IsAjaxData>,
) -> Option<Error> {
    if no_page_stat(c.stat_pages@, 1) {
        Some(Error::NotFound(Missing::StatPage))
    } else if asker_error(c, user_id) is Some {
        asker_error(c, user_id)
    } else {
        None
    }
}

/// `resp` is what `index_page` answers to a request that it does not refuse.
pub open spec fn index_page_answer(
    resp: IndexPageResp,
    c: Catalog,
    user_id: i32,
    desktop: bool,
    params: Option<&IsAjaxData>,
) -> bool {
    let stat = c.stat_pages@[stat_place(c.stat_pages@, 1)];
    let is_ajax = match params { Some(p) => positive_is_ajax_of(p.is_ajax), None => 0 };
    let perm = perm_of(c, user_id);
    let is_superuser = perm > 59;
    &&& is_request_user(resp.request_user, c, user_id, is_ajax, desktop)
    &&& resp.last_works@ == shown::<Work>(window(listing(c.items@, kind_selection(5, is_superuser, None)), 0, 3))
    &&& resp.last_services@ == shown::<Service>(window(listing(c.items@, kind_selection(2, is_superuser, None)), 0, 3))
    &&& resp.last_wikis@ == shown::<Wiki>(window(listing(c.items@, kind_selection(4, is_superuser, None)), 0, 3))
    &&& resp.last_blogs@ == shown::<Blog>(window(listing(c.items@, kind_selection(1, is_superuser, None)), 0, 3))
    &&& resp.last_stores@ == shown::<Store>(window(listing(c.items@, kind_selection(3, is_superuser, None)), 0, 3))
    &&& resp.view == stat.view
    &&& resp.seconds == stat.seconds
}

/// The front page: the three newest works, services, wiki articles, blog
/// articles and products, and the statistics of the page.
pub fn index_page(
    catalog: &Catalog,
    user_id: i32,
    desktop: bool,
    params: Option<&IsAjaxData>,
) -> (result: Result<IndexPageResp, Error>)
    ensures
        match index_page_error(*catalog, user_id, desktop, params) {
            Some(e) => result == Err::<IndexPageResp, Error>(e),
            None => result matches Ok(resp) && index_page_answer(
                resp,
                *catalog,
                user_id,
                desktop,
                params,
            ),
        },
{
    let stat: PageStatData = match get_stat_page(catalog, 1, 0) {
        Ok(v) => v,
        Err(e) => {
            return Err(e);
        },
    };
    let is_ajax: i16 = get_is_ajax(params);
    let actor: Actor = match actor_of(catalog, user_id) {
        Ok(actor) => actor,
        Err(e) => {
            return Err(e);
        },
    };
    let request_user: UserResp = match get_request_user(catalog, user_id, is_ajax, desktop) {
        Ok(user) => user,
        Err(e) => {
            return Err(e);
        },
    };
    let perm: i16 = actor.perm;
    let is_superuser: bool = perm > 59;
    Ok(
        IndexPageResp {
            request_user,
            last_works: Item::get_works(catalog, 3, 0, is_superuser),
            last_services: Item::get_services(catalog, 3, 0, is_superuser),
            last_wikis: Item::get_wikis(catalog, 3, 0, is_superuser),
            last_blogs: Item::get_blogs(catalog, 3, 0, is_superuser),
            last_stores: Item::get_stores(catalog, 3, 0, is_superuser),
            view: stat.view,
            seconds: stat.seconds,
        },
    )
}

/// The page about the site.
pub struct AboutPageResp {
    pub request_user: UserResp,
    pub help_cats: Vec<Cat>,
    pub view: i32,
    pub seconds: i32,
}

/// Why `info_page` refuses a request, if it does.
pub open spec fn info_page_error(
    c: Catalog,
    user_id: i32,
    desktop: bool,
    params: Option<&IsAjaxData>,
) -> Option<Error> {
    if no_page_stat(c.stat_pages@, 1) {
        Some(Error::NotFound(Missing::StatPage))
    } else if asker_error(c, user_id) is Some {
        asker_error(c, user_id)
    } else {
        None
    }
}

/// `resp` is what `info_page` answers to a request that it does not refuse.
pub open spec fn info_page_answer(
    resp: AboutPageResp,
    c: Catalog,
    user_id: i32,
    desktop: bool,
    params: Option<&IsAjaxData>,
) -> bool {
    let stat = c.stat_pages@[stat_place(c.stat_pages@, 1)];
    let is_ajax = match params { Some(p) => positive_is_ajax_of(p.is_ajax), None => 0 };
    &&& is_request_user(resp.request_user, c, user_id, is_ajax, desktop)
    &&& resp.help_cats@ == cats_for(c.categories@, 6)
    &&& resp.view == stat.view
    &&& resp.seconds == stat.seconds
}

/// The page about the site: the categories of the help articles and the
/// statistics of the page.
pub fn info_page(
    catalog: &Catalog,
    user_id: i32,
    desktop: bool,
    params: Option<&IsAjaxData>,
) -> (result: Result<AboutPageResp, Error>)
    ensures
        match info_page_error(*catalog, user_id, desktop, params) {
            Some(e) => result == Err::<AboutPageResp, Error>(e),
            None => result matches Ok(resp) && info_page_answer(
                resp,
                *catalog,
                user_id,
                desktop,
                params,
            ),
        },
{
    let stat: PageStatData = match get_stat_page(catalog, 2, 0) {
        Ok(v) => v,
        Err(e) => {
            return Err(e);
        },
    };
    let is_ajax: i16 = get_is_ajax(params);
    let actor: Actor = match actor_of(catalog, user_id) {
        Ok(actor) => actor,
        Err(e) => {
            return Err(e);
        },
    };
    let request_user: UserResp = match get_request_user(catalog, user_id, is_ajax, desktop) {
        Ok(user) => user,
        Err(e) => {
            return Err(e);
        },
    };
    let perm: i16 = actor.perm;
    Ok(
        AboutPageResp {
            request_user,
            help_cats: collect_cats_for(&catalog.categories, 6),
            view: stat.view,
            seconds: stat.seconds,
        },
    )
}

/// One page of the history of a visitor.
pub struct HistoryPageResp {
    pub request_user: UserResp,
    pub object_list: Vec<CookieStat>,
    pub next_page_number: i32,
}

/// Why `history_page` refuses a request, if it does.
pub open spec fn history_page_error(
    c: Catalog,
    user_id: i32,
    desktop: bool,
    params: Option<&IsAjaxPageData>,
    visitor_id: i32,
) -> Option<Error> {
    let asked = (match params { Some(p) => is_ajax_of(p.is_ajax), None => 0 }, page_of(match params { Some(p) => Some(*p), None => None }));
    let page = asked.1;
    if has_none_with(c.cookie_users@, visitor_id) {
        Some(Error::NotFound(Missing::Visitor))
    } else if page == i32::MAX {
        Some(Error::ValidationFailed(Field::Params))
    } else if asker_error(c, user_id) is Some {
        asker_error(c, user_id)
    } else {
        None
    }
}

/// `resp` is what `history_page` answers to a request that it does not refuse.
pub open spec fn history_page_answer(
    resp: HistoryPageResp,
    c: Catalog,
    user_id: i32,
    desktop: bool,
    params: Option<&IsAjaxPageData>,
    visitor_id: i32,
) -> bool {
    let asked = (match params { Some(p) => is_ajax_of(p.is_ajax), None => 0 }, page_of(match params { Some(p) => Some(*p), None => None }));
    let page = asked.1;
    let is_ajax = asked.0;
    &&& is_request_user(resp.request_user, c, user_id, is_ajax, desktop)
    &&& resp.object_list@ == page_rows(stats_of(c.cookie_stats@, visitor_id), page as int, 20)
    &&& resp.next_page_number == next_page_number(stats_of(c.cookie_stats@, visitor_id), page as int, 20)
}

/// The history of a visitor: one page of the records of their visits.
pub fn history_page(
    catalog: &Catalog,
    user_id: i32,
    desktop: bool,
    params: Option<&IsAjaxPageData>,
    visitor_id: i32,
) -> (result: Result<HistoryPageResp, Error>)
    ensures
        match history_page_error(*catalog, user_id, desktop, params, visitor_id) {
            Some(e) => result == Err::<HistoryPageResp, Error>(e),
            None => result matches Ok(resp) && history_page_answer(
                resp,
                *catalog,
                user_id,
                desktop,
                params,
                visitor_id,
            ),
        },
{
    let visitor_at: usize = match locate(&catalog.cookie_users, visitor_id) {
        Some(at) => at,
        None => {
            return Err(Error::NotFound(Missing::Visitor));
        },
    };
    let visitor = &catalog.cookie_users[visitor_at];
    let asked: (i16, i32) = get_is_ajax_page(params);
    let page: i32 = asked.1;
    if page == i32::MAX {
        return Err(Error::ValidationFailed(Field::Params));
    }
    let found: (Vec<CookieStat>, i32) = rows_page(&collect_stats_of(&catalog.cookie_stats, visitor_id), page, 20);
    let is_ajax: i16 = asked.0;
    let actor: Actor = match actor_of(catalog, user_id) {
        Ok(actor) => actor,
        Err(e) => {
            return Err(e);
        },
    };
    let request_user: UserResp = match get_request_user(catalog, user_id, is_ajax, desktop) {
        Ok(user) => user,
        Err(e) => {
            return Err(e);
        },
    };
    let perm: i16 = actor.perm;
    Ok(
        HistoryPageResp {
            request_user,
            object_list: found.0,
            next_page_number: found.1,
        },
    )
}

/// One page of the messages of the visitors.
pub struct FeedbackListResp {
    pub request_user: UserResp,
    pub feedback_list: Vec<Feedback>,
    pub next_page_number: i32,
}

/// Why `feedback_list_page` refuses a request, if it does.
pub open spec fn feedback_list_page_error(
    c: Catalog,
    user_id: i32,
    desktop: bool,
    params: Option<&IsAjaxPageData>,
) -> Option<Error> {
    let asked = (match params { Some(p) => is_ajax_of(p.is_ajax), None => 0 }, page_of(match params { Some(p) => Some(*p), None => None }));
    let page = asked.1;
    let perm = perm_of(c, user_id);
    if page == i32::MAX {
        Some(Error::ValidationFailed(Field::Params))
    } else if asker_error(c, user_id) is Some {
        asker_error(c, user_id)
    } else if perm <= 59 {
        Some(Error::PermissionDenied(Denial::Forbidden))
    } else {
        None
    }
}

/// `resp` is what `feedback_list_page` answers to a request that it does not refuse.
pub open spec fn feedback_list_page_answer(
    resp: FeedbackListResp,
    c: Catalog,
    user_id: i32,
    desktop: bool,
    params: Option<&IsAjaxPageData>,
) -> bool {
    let asked = (match params { Some(p) => is_ajax_of(p.is_ajax), None => 0 }, page_of(match params { Some(p) => Some(*p), None => None }));
    let page = asked.1;
    let is_ajax = asked.0;
    &&& is_request_user(resp.request_user, c, user_id, is_ajax, desktop)
    &&& resp.feedback_list@ == page_rows(c.feedbacks@, page as int, 20)
    &&& resp.next_page_number == next_page_number(c.feedbacks@, page as int, 20)
}

/// The messages of the visitors, one page of them, for administrators.
pub fn feedback_list_page(
    catalog: &Catalog,
    user_id: i32,
    desktop: bool,
    params: Option<&IsAjaxPageData>,
) -> (result: Result<FeedbackListResp, Error>)
    ensures
        match feedback_list_page_error(*catalog, user_id, desktop, params) {
            Some(e) => result == Err::<FeedbackListResp, Error>(e),
            None => result matches Ok(resp) && feedback_list_page_answer(
                resp,
                *catalog,
                user_id,
                desktop,
                params,
            ),
        },
{
    let asked: (i16, i32) = get_is_ajax_page(params);
    let page: i32 = asked.1;
    if page == i32::MAX {
        return Err(Error::ValidationFailed(Field::Params));
    }
    let is_ajax: i16 = asked.0;
    let actor: Actor = match actor_of(catalog, user_id) {
        Ok(actor) => actor,
        Err(e) => {
            return Err(e);
        },
    };
    let request_user: UserResp = match get_request_user(catalog, user_id, is_ajax, desktop) {
        Ok(user) => user,
        Err(e) => {
            return Err(e);
        },
    };
    let perm: i16 = actor.perm;
    if perm <= 59 {
        return Err(Error::PermissionDenied(Denial::Forbidden));
    }
    let found: (Vec<Feedback>, i32) = rows_page(&catalog.feedbacks, page, 20);
    Ok(
        FeedbackListResp {
            request_user,
            feedback_list: found.0,
            next_page_number: found.1,
        },
    )
}

/// The list of the technical categories.
pub struct ServeListResp {
    pub request_user: UserResp,
    pub tech_cats: Vec<TechCategories>,
}

/// Why `serve_list_page` refuses a request, if it does.
pub open spec fn serve_list_page_error(
    c: Catalog,
    user_id: i32,
    desktop: bool,
    params: Option<&IsAjaxData>,
) -> Option<Error> {
    if asker_error(c, user_id) is Some {
        asker_error(c, user_id)
    } else {
        None
    }
}

/// `resp` is what `serve_list_page` answers to a request that it does not refuse.
pub open spec fn serve_list_page_answer(
    resp: ServeListResp,
    c: Catalog,
    user_id: i32,
    desktop: bool,
    params: Option<&IsAjaxData>,
) -> bool {
    let is_ajax = match params { Some(p) => positive_is_ajax_of(p.is_ajax), None => 0 };
    &&& is_request_user(resp.request_user, c, user_id, is_ajax, desktop)
    &&& resp.tech_cats@ == in_rank_order(c.tech_categories@, level_ranks(c.tech_categories@))
}

/// The technical categories, lowest level first.
pub fn serve_list_page(
    catalog: &Catalog,
    user_id: i32,
    desktop: bool,
    params: Option<&IsAjaxData>,
) -> (result: Result<ServeListResp, Error>)
    ensures
        match serve_list_page_error(*catalog, user_id, desktop, params) {
            Some(e) => result == Err::<ServeListResp, Error>(e),
            None => result matches Ok(resp) && serve_list_page_answer(
                resp,
                *catalog,
                user_id,
                desktop,
                params,
            ),
        },
{
    let ranks: Vec<i64> = ranks_by_level(&catalog.tech_categories);
    let is_ajax: i16 = get_is_ajax(params);
    let actor: Actor = match actor_of(catalog, user_id) {
        Ok(actor) => actor,
        Err(e) => {
            return Err(e);
        },
    };
    let request_user: UserResp = match get_request_user(catalog, user_id, is_ajax, desktop) {
        Ok(user) => user,
        Err(e) => {
            return Err(e);
        },
    };
    let perm: i16 = actor.perm;
    Ok(
        ServeListResp {
            request_user,
            tech_cats: rows_in_rank_order(&catalog.tech_categories, &ranks),
        },
    )
}

/// A technical category.
pub struct TechCategoryResp {
    pub request_user: UserResp,
    pub object: TechCategories,
}

/// Why `get_tech_category_page` refuses a request, if it does.
pub open spec fn get_tech_category_page_error(
    c: Catalog,
    user_id: i32,
    desktop: bool,
    params: Option<&TechCategoryData>,
) -> Option<Error> {
    let p = params->0;
    let id = p.id->0;
    if params is None {
        Some(Error::ValidationFailed(Field::Params))
    } else if p.id is None {
        Some(Error::ValidationFailed(Field::Id))
    } else if has_none_with(c.tech_categories@, id) {
        Some(Error::NotFound(Missing::TechCategory))
    } else if asker_error(c, user_id) is Some {
        asker_error(c, user_id)
    } else {
        None
    }
}

/// `resp` is what `get_tech_category_page` answers to a request that it does not refuse.
pub open spec fn get_tech_category_page_answer(
    resp: TechCategoryResp,
    c: Catalog,
    user_id: i32,
    desktop: bool,
    params: Option<&TechCategoryData>,
) -> bool {
    let p = params->0;
    let id = p.id->0;
    let object = c.tech_categories@[place_of(c.tech_categories@, id)];
    let is_ajax = 2;
    &&& is_request_user(resp.request_user, c, user_id, is_ajax, desktop)
    &&& resp.object == object
}

/// The page of a technical category.
pub fn get_tech_category_page(
    catalog: &Catalog,
    user_id: i32,
    desktop: bool,
    params: Option<&TechCategoryData>,
) -> (result: Result<TechCategoryResp, Error>)
    ensures
        match get_tech_category_page_error(*catalog, user_id, desktop, params) {
            Some(e) => result == Err::<TechCategoryResp, Error>(e),
            None => result matches Ok(resp) && get_tech_category_page_answer(
                resp,
                *catalog,
                user_id,
                desktop,
                params,
            ),
        },
{
    let p: &TechCategoryData = match params {
        Some(p) => p,
        None => {
            return Err(Error::ValidationFailed(Field::Params));
        },
    };
    let id: i32 = match p.id {
        Some(v) => v,
        _ => {
            return Err(Error::ValidationFailed(Field::Id));
        },
    };
    let object_at: usize = match locate(&catalog.tech_categories, id) {
        Some(at) => at,
        None => {
            return Err(Error::NotFound(Missing::TechCategory));
        },
    };
    let object = &catalog.tech_categories[object_at];
    let is_ajax: i16 = 2;
    let actor: Actor = match actor_of(catalog, user_id) {
        Ok(actor) => actor,
        Err(e) => {
            return Err(e);
        },
    };
    let request_user: UserResp = match get_request_user(catalog, user_id, is_ajax, desktop) {
        Ok(user) => user,
        Err(e) => {
            return Err(e);
        },
    };
    let perm: i16 = actor.perm;
    Ok(
        TechCategoryResp {
            request_user,
            object: object.clone(),
        },
    )
}

/// A category of service options.
pub struct ServeCategoryResp {
    pub request_user: UserResp,
    pub object: ServeCategories,
}

/// Why `get_serve_category_page` refuses a request, if it does.
pub open spec fn get_serve_category_page_error(
    c: Catalog,
    user_id: i32,
    desktop: bool,
    params: Option<&ServeCategoryData>,
) -> Option<Error> {
    let p = params->0;
    let id = p.id->0;
    if params is None {
        Some(Error::ValidationFailed(Field::Params))
    } else if p.id is None {
        Some(Error::ValidationFailed(Field::Id))
    } else if has_none_with(c.serve_categories@, id) {
        Some(Error::NotFound(Missing::ServeCategory))
    } else if asker_error(c, user_id) is Some {
        asker_error(c, user_id)
    } else {
        None
    }
}

/// `resp` is what `get_serve_category_page` answers to a request that it does not refuse.
pub open spec fn get_serve_category_page_answer(
    resp: ServeCategoryResp,
    c: Catalog,
    user_id: i32,
    desktop: bool,
    params: Option<&ServeCategoryData>,
) -> bool {
    let p = params->0;
    let id = p.id->0;
    let object = c.serve_categories@[place_of(c.serve_categories@, id)];
    let is_ajax = 2;
    &&& is_request_user(resp.request_user, c, user_id, is_ajax, desktop)
    &&& resp.object == object
}

/// The page of a category of service options.
pub fn get_serve_category_page(
    catalog: &Catalog,
    user_id: i32,
    desktop: bool,
    params: Option<&ServeCategoryData>,
) -> (result: Result<ServeCategoryResp, Error>)
    ensures
        match get_serve_category_page_error(*catalog, user_id, desktop, params) {
            Some(e) => result == Err::<ServeCategoryResp, Error>(e),
            None => result matches Ok(resp) && get_serve_category_page_answer(
                resp,
                *catalog,
                user_id,
                desktop,
                params,
            ),
        },
{
    let p: &ServeCategoryData = match params {
        Some(p) => p,
        None => {
            return Err(Error::ValidationFailed(Field::Params));
        },
    };
    let id: i32 = match p.id {
        Some(v) => v,
        _ => {
            return Err(Error::ValidationFailed(Field::Id));
        },
    };
    let object_at: usize = match locate(&catalog.serve_categories, id) {
        Some(at) => at,
        None => {
            return Err(Error::NotFound(Missing::ServeCategory));
        },
    };
    let object = &catalog.serve_categories[object_at];
    let is_ajax: i16 = 2;
    let actor: Actor = match actor_of(catalog, user_id) {
        Ok(actor) => actor,
        Err(e) => {
            return Err(e);
        },
    };
    let request_user: UserResp = match get_request_user(catalog, user_id, is_ajax, desktop) {
        Ok(user) => user,
        Err(e) => {
            return Err(e);
        },
    };
    let perm: i16 = actor.perm;
    Ok(
        ServeCategoryResp {
            request_user,
            object: object.clone(),
        },
    )
}

/// A service option.
pub struct ServeResp {
    pub request_user: UserResp,
    pub object: Serve,
}

/// Why `get_serve_page` refuses a request, if it does.
pub open spec fn get_serve_page_error(
    c: Catalog,
    user_id: i32,
    desktop: bool,
    params: Option<&ServeData>,
) -> Option<Error> {
    let p = params->0;
    let id = p.id->0;
    if params is None {
        Some(Error::ValidationFailed(Field::Params))
    } else if p.id is None {
        Some(Error::ValidationFailed(Field::Id))
    } else if has_none_with(c.serve@, id) {
        Some(Error::NotFound(Missing::Serve))
    } else if asker_error(c, user_id) is Some {
        asker_error(c, user_id)
    } else {
        None
    }
}

/// `resp` is what `get_serve_page` answers to a request that it does not refuse.
pub open spec fn get_serve_page_answer(
    resp: ServeResp,
    c: Catalog,
    user_id: i32,
    desktop: bool,
    params: Option<&ServeData>,
) -> bool {
    let p = params->0;
    let id = p.id->0;
    let object = c.serve@[place_of(c.serve@, id)];
    let is_ajax = 2;
    &&& is_request_user(resp.request_user, c, user_id, is_ajax, desktop)
    &&& resp.object == object
}

/// The page of a service option.
pub fn get_serve_page(
    catalog: &Catalog,
    user_id: i32,
    desktop: bool,
    params: Option<&ServeData>,
) -> (result: Result<ServeResp, Error>)
    ensures
        match get_serve_page_error(*catalog, user_id, desktop, params) {
            Some(e) => result == Err::<ServeResp, Error>(e),
            None => result matches Ok(resp) && get_serve_page_answer(
                resp,
                *catalog,
                user_id,
                desktop,
                params,
            ),
        },
{
    let p: &ServeData = match params {
        Some(p) => p,
        None => {
            return Err(Error::ValidationFailed(Field::Params));
        },
    };
    let id: i32 = match p.id {
        Some(v) => v,
        _ => {
            return Err(Error::ValidationFailed(Field::Id));
        },
    };
    let object_at: usize = match locate(&catalog.serve, id) {
        Some(at) => at,
        None => {
            return Err(Error::NotFound(Missing::Serve));
        },
    };
    let object = &catalog.serve[object_at];
    let is_ajax: i16 = 2;
    let actor: Actor = match actor_of(catalog, user_id) {
        Ok(actor) => actor,
        Err(e) => {
            return Err(e);
        },
    };
    let request_user: UserResp = match get_request_user(catalog, user_id, is_ajax, desktop) {
        Ok(user) => user,
        Err(e) => {
            return Err(e);
        },
    };
    let perm: i16 = actor.perm;
    Ok(
        ServeResp {
            request_user,
            object: object.clone(),
        },
    )
}

/// One page of the visitors.
pub struct CookieUsersResp {
    pub request_user: UserResp,
    pub object_list: Vec<CookieUser>,
    pub next_page_number: i32,
}

/// Why `cookie_users_list_page` refuses a request, if it does.
pub open spec fn cookie_users_list_page_error(
    c: Catalog,
    user_id: i32,
    desktop: bool,
    params: Option<&IsAjaxPageData>,
) -> Option<Error> {
    let asked = (match params { Some(p) => is_ajax_of(p.is_ajax), None => 0 }, page_of(match params { Some(p) => Some(*p), None => None }));
    let page = asked.1;
    if page == i32::MAX {
        Some(Error::ValidationFailed(Field::Params))
    } else if asker_error(c, user_id) is Some {
        asker_error(c, user_id)
    } else {
        None
    }
}

/// `resp` is what `cookie_users_list_page` answers to a request that it does not refuse.
pub open spec fn cookie_users_list_page_answer(
    resp: CookieUsersResp,
    c: Catalog,
    user_id: i32,
    desktop: bool,
    params: Option<&IsAjaxPageData>,
) -> bool {
    let asked = (match params { Some(p) => is_ajax_of(p.is_ajax), None => 0 }, page_of(match params { Some(p) => Some(*p), None => None }));
    let page = asked.1;
    let is_ajax = asked.0;
    &&& is_request_user(resp.request_user, c, user_id, is_ajax, desktop)
    &&& resp.object_list@ == page_rows(c.cookie_users@, page as int, 20)
    &&& resp.next_page_number == next_page_number(c.cookie_users@, page as int, 20)
}

/// The visitors, one page of them.
pub fn cookie_users_list_page(
    catalog: &Catalog,
    user_id: i32,
    desktop: bool,
    params: Option<&IsAjaxPageData>,
) -> (result: Result<CookieUsersResp, Error>)
    ensures
        match cookie_users_list_page_error(*catalog, user_id, desktop, params) {
            Some(e) => result == Err::<CookieUsersResp, Error>(e),
            None => result matches Ok(resp) && cookie_users_list_page_answer(
                resp,
                *catalog,
                user_id,
                desktop,
                params,
            ),
        },
{
    let asked: (i16, i32) = get_is_ajax_page(params);
    let page: i32 = asked.1;
    if page == i32::MAX {
        return Err(Error::ValidationFailed(Field::Params));
    }
    let found: (Vec<CookieUser>, i32) = rows_page(&catalog.cookie_users, page, 20);
    let is_ajax: i16 = asked.0;
    let actor: Actor = match actor_of(catalog, user_id) {
        Ok(actor) => actor,
        Err(e) => {
            return Err(e);
        },
    };
    let request_user: UserResp = match get_request_user(catalog, user_id, is_ajax, desktop) {
        Ok(user) => user,
        Err(e) => {
            return Err(e);
        },
    };
    let perm: i16 = actor.perm;
    Ok(
        CookieUsersResp {
            request_user,
            object_list: found.0,
            next_page_number: found.1,
        },
    )
}

/// One page of the history of a visitor.
pub struct UserHistoryResp {
    pub request_user: UserResp,
    pub object_list: Vec<CookieStat>,
    pub next_page_number: i32,
}

/// Why `get_user_history_page` refuses a request, if it does.
pub open spec fn get_user_history_page_error(
    c: Catalog,
    user_id: i32,
    desktop: bool,
    params: Option<&UserHistoryData>,
) -> Option<Error> {
    let perm = perm_of(c, user_id);
    let p = params->0;
    let page = match p.page { Some(n) => n, None => 1 };
    if asker_error(c, user_id) is Some {
        asker_error(c, user_id)
    } else if perm < 60 {
        Some(Error::PermissionDenied(Denial::Forbidden))
    } else if params is None {
        Some(Error::ValidationFailed(Field::Params))
    } else if p.user_id is None {
        Some(Error::ValidationFailed(Field::UserId))
    } else if page == i32::MAX {
        Some(Error::ValidationFailed(Field::Params))
    } else {
        None
    }
}

/// `resp` is what `get_user_history_page` answers to a request that it does not refuse.
pub open spec fn get_user_history_page_answer(
    resp: UserHistoryResp,
    c: Catalog,
    user_id: i32,
    desktop: bool,
    params: Option<&UserHistoryData>,
) -> bool {
    let is_ajax = 0;
    let p = params->0;
    let visitor_id = p.user_id->0;
    let page = match p.page { Some(n) => n, None => 1 };
    &&& is_request_user(resp.request_user, c, user_id, is_ajax, desktop)
    &&& resp.object_list@ == page_rows(stats_of(c.cookie_stats@, visitor_id), page as int, 20)
    &&& resp.next_page_number == next_page_number(stats_of(c.cookie_stats@, visitor_id), page as int, 20)
}

/// The history of a visitor, one page of it, for administrators.
pub fn get_user_history_page(
    catalog: &Catalog,
    user_id: i32,
    desktop: bool,
    params: Option<&UserHistoryData>,
) -> (result: Result<UserHistoryResp, Error>)
    ensures
        match get_user_history_page_error(*catalog, user_id, desktop, params) {
            Some(e) => result == Err::<UserHistoryResp, Error>(e),
            None => result matches Ok(resp) && get_user_history_page_answer(
                resp,
                *catalog,
                user_id,
                desktop,
                params,
            ),
        },
{
    let is_ajax: i16 = 0;
    let actor: Actor = match actor_of(catalog, user_id) {
        Ok(actor) => actor,
        Err(e) => {
            return Err(e);
        },
    };
    let request_user: UserResp = match get_request_user(catalog, user_id, is_ajax, desktop) {
        Ok(user) => user,
        Err(e) => {
            return Err(e);
        },
    };
    let perm: i16 = actor.perm;
    if perm < 60 {
        return Err(Error::PermissionDenied(Denial::Forbidden));
    }
    let p: &UserHistoryData = match params {
        Some(p) => p,
        None => {
            return Err(Error::ValidationFailed(Field::Params));
        },
    };
    let visitor_id: i32 = match p.user_id {
        Some(v) => v,
        _ => {
            return Err(Error::ValidationFailed(Field::UserId));
        },
    };
    let page: i32 = match p.page {
        Some(n) => n,
        None => 1,
    };
    if page == i32::MAX {
        return Err(Error::ValidationFailed(Field::Params));
    }
    let found: (Vec<CookieStat>, i32) = rows_page(&collect_stats_of(&catalog.cookie_stats, visitor_id), page, 20);
    Ok(
        UserHistoryResp {
            request_user,
            object_list: found.0,
            next_page_number: found.1,
        },
    )
}

/// A technical category and whether an administrator asks.
pub struct TechObjectsResp {
    pub request_user: UserResp,
    pub object: TechCategories,
    pub is_admin: bool,
}

/// Why `get_tech_objects_page` refuses a request, if it does.
pub open spec fn get_tech_objects_page_error(
    c: Catalog,
    user_id: i32,
    desktop: bool,
    params: Option<&TechObjectsData>,
) -> Option<Error> {
    let p = params->0;
    let id = p.id->0;
    if params is None {
        Some(Error::ValidationFailed(Field::Params))
    } else if p.id is None {
        Some(Error::ValidationFailed(Field::Id))
    } else if asker_error(c, user_id) is Some {
        asker_error(c, user_id)
    } else if has_none_with(c.tech_categories@, id) {
        Some(Error::NotFound(Missing::TechCategory))
    } else {
        None
    }
}

/// `resp` is what `get_tech_objects_page` answers to a request that it does not refuse.
pub open spec fn get_tech_objects_page_answer(
    resp: TechObjectsResp,
    c: Catalog,
    user_id: i32,
    desktop: bool,
    params: Option<&TechObjectsData>,
) -> bool {
    let p = params->0;
    let id = p.id->0;
    let is_ajax = 2;
    let perm = perm_of(c, user_id);
    let object = c.tech_categories@[place_of(c.tech_categories@, id)];
    &&& is_request_user(resp.request_user, c, user_id, is_ajax, desktop)
    &&& resp.object == object
    &&& resp.is_admin == (perm > 59)
}

/// The objects of a technical category.
pub fn get_tech_objects_page(
    catalog: &Catalog,
    user_id: i32,
    desktop: bool,
    params: Option<&TechObjectsData>,
) -> (result: Result<TechObjectsResp, Error>)
    ensures
        match get_tech_objects_page_error(*catalog, user_id, desktop, params) {
            Some(e) => result == Err::<TechObjectsResp, Error>(e),
            None => result matches Ok(resp) && get_tech_objects_page_answer(
                resp,
                *catalog,
                user_id,
                desktop,
                params,
            ),
        },
{
    let p: &TechObjectsData = match params {
        Some(p) => p,
        None => {
            return Err(Error::ValidationFailed(Field::Params));
        },
    };
    let id: i32 = match p.id {
        Some(v) => v,
        _ => {
            return Err(Error::ValidationFailed(Field::Id));
        },
    };
    let is_ajax: i16 = 2;
    let actor: Actor = match actor_of(catalog, user_id) {
        Ok(actor) => actor,
        Err(e) => {
            return Err(e);
        },
    };
    let request_user: UserResp = match get_request_user(catalog, user_id, is_ajax, desktop) {
        Ok(user) => user,
        Err(e) => {
            return Err(e);
        },
    };
    let perm: i16 = actor.perm;
    let object_at: usize = match locate(&catalog.tech_categories, id) {
        Some(at) => at,
        None => {
            return Err(Error::NotFound(Missing::TechCategory));
        },
    };
    let object = &catalog.tech_categories[object_at];
    Ok(
        TechObjectsResp {
            request_user,
            object: object.clone(),
            is_admin: perm > 59,
        },
    )
}

/// What the form of an object of some kind needs.
pub struct UnicalObjectFormResp {
    pub request_user: UserResp,
    pub cats: Vec<Cat>,
    pub biznes_mode: bool,
}

/// Why `unical_object_form_page` refuses a request, if it does.
pub open spec fn unical_object_form_page_error(
    c: Catalog,
    user_id: i32,
    desktop: bool,
    params: Option<&UnicalObjectFormData>,
) -> Option<Error> {
    let perm = perm_of(c, user_id);
    let p = params->0;
    let types = p.types->0;
    if asker_error(c, user_id) is Some {
        asker_error(c, user_id)
    } else if perm < 60 {
        Some(Error::PermissionDenied(Denial::Forbidden))
    } else if params is None {
        Some(Error::ValidationFailed(Field::Params))
    } else if p.types is None || p.types->0 < 1 {
        Some(Error::ValidationFailed(Field::Types))
    } else {
        None
    }
}

/// `resp` is what `unical_object_form_page` answers to a request that it does not refuse.
pub open spec fn unical_object_form_page_answer(
    resp: UnicalObjectFormResp,
    c: Catalog,
    user_id: i32,
    desktop: bool,
    params: Option<&UnicalObjectFormData>,
) -> bool {
    let is_ajax = 2;
    let p = params->0;
    let types = p.types->0;
    &&& is_request_user(resp.request_user, c, user_id, is_ajax, desktop)
    &&& resp.cats@ == cats_for(c.categories@, types)
    &&& resp.biznes_mode == (types == 2 || types == 3 || types == 5)
}

/// The form for an object of some kind, for administrators: the categories
/// of the kind, and whether the kind is one that is sold.
pub fn unical_object_form_page(
    catalog: &Catalog,
    user_id: i32,
    desktop: bool,
    params: Option<&UnicalObjectFormData>,
) -> (result: Result<UnicalObjectFormResp, Error>)
    ensures
        match unical_object_form_page_error(*catalog, user_id, desktop, params) {
            Some(e) => result == Err::<UnicalObjectFormResp, Error>(e),
            None => result matches Ok(resp) && unical_object_form_page_answer(
                resp,
                *catalog,
                user_id,
                desktop,
                params,
            ),
        },
{
    let is_ajax: i16 = 2;
    let actor: Actor = match actor_of(catalog, user_id) {
        Ok(actor) => actor,
        Err(e) => {
            return Err(e);
        },
    };
    let request_user: UserResp = match get_request_user(catalog, user_id, is_ajax, desktop) {
        Ok(user) => user,
        Err(e) => {
            return Err(e);
        },
    };
    let perm: i16 = actor.perm;
    if perm < 60 {
        return Err(Error::PermissionDenied(Denial::Forbidden));
    }
    let p: &UnicalObjectFormData = match params {
        Some(p) => p,
        None => {
            return Err(Error::ValidationFailed(Field::Params));
        },
    };
    let types: i16 = match p.types {
        Some(v) if v >= 1 => v,
        _ => {
            return Err(Error::ValidationFailed(Field::Types));
        },
    };
    Ok(
        UnicalObjectFormResp {
            request_user,
            cats: collect_cats_for(&catalog.categories, types),
            biznes_mode: types == 2 || types == 3 || types == 5,
        },
    )
}

/// All categories.
pub struct CreateCategoryResp {
    pub request_user: UserResp,
    pub cats: Vec<Categories>,
}

/// Why `create_category_page` refuses a request, if it does.
pub open spec fn create_category_page_error(
    c: Catalog,
    user_id: i32,
    desktop: bool,
    params: Option<&IsAjaxData>,
) -> Option<Error> {
    let perm = perm_of(c, user_id);
    if asker_error(c, user_id) is Some {
        asker_error(c, user_id)
    } else if perm < 60 {
        Some(Error::PermissionDenied(Denial::Forbidden))
    } else {
        None
    }
}

/// `resp` is what `create_category_page` answers to a request that it does not refuse.
pub open spec fn create_category_page_answer(
    resp: CreateCategoryResp,
    c: Catalog,
    user_id: i32,
    desktop: bool,
    params: Option<&IsAjaxData>,
) -> bool {
    let is_ajax = match params { Some(p) => positive_is_ajax_of(p.is_ajax), None => 0 };
    &&& is_request_user(resp.request_user, c, user_id, is_ajax, desktop)
    &&& resp.cats@ == c.categories@
}

/// The page on which a category is created, for administrators.
pub fn create_category_page(
    catalog: &Catalog,
    user_id: i32,
    desktop: bool,
    params: Option<&IsAjaxData>,
) -> (result: Result<CreateCategoryResp, Error>)
    ensures
        match create_category_page_error(*catalog, user_id, desktop, params) {
            Some(e) => result == Err::<CreateCategoryResp, Error>(e),
            None => result matches Ok(resp) && create_category_page_answer(
                resp,
                *catalog,
                user_id,
                desktop,
                params,
            ),
        },
{
    let is_ajax: i16 = get_is_ajax(params);
    let actor: Actor = match actor_of(catalog, user_id) {
        Ok(actor) => actor,
        Err(e) => {
            return Err(e);
        },
    };
    let request_user: UserResp = match get_request_user(catalog, user_id, is_ajax, desktop) {
        Ok(user) => user,
        Err(e) => {
            return Err(e);
        },
    };
    let perm: i16 = actor.perm;
    if perm < 60 {
        return Err(Error::PermissionDenied(Denial::Forbidden));
    }
    Ok(
        CreateCategoryResp {
            request_user,
            cats: copy_rows(&catalog.categories),
        },
    )
}

/// A category and all categories.
pub struct EditCategoryResp {
    pub request_user: UserResp,
    pub cat: Categories,
    pub cats: Vec<Categories>,
}

/// Why `edit_category_page` refuses a request, if it does.
pub open spec fn edit_category_page_error(
    c: Catalog,
    user_id: i32,
    desktop: bool,
    params: Option<&EditCategoryData>,
) -> Option<Error> {
    let p = params->0;
    let id = p.id->0;
    let perm = perm_of(c, user_id);
    if params is None {
        Some(Error::ValidationFailed(Field::Params))
    } else if p.id is None || p.id->0 < 1 {
        Some(Error::ValidationFailed(Field::Id))
    } else if asker_error(c, user_id) is Some {
        asker_error(c, user_id)
    } else if perm < 60 {
        Some(Error::PermissionDenied(Denial::Forbidden))
    } else if has_none_with(c.categories@, id) {
        Some(Error::NotFound(Missing::Category))
    } else {
        None
    }
}

/// `resp` is what `edit_category_page` answers to a request that it does not refuse.
pub open spec fn edit_category_page_answer(
    resp: EditCategoryResp,
    c: Catalog,
    user_id: i32,
    desktop: bool,
    params: Option<&EditCategoryData>,
) -> bool {
    let p = params->0;
    let id = p.id->0;
    let is_ajax = positive_is_ajax_of(p.is_ajax);
    let cat = c.categories@[place_of(c.categories@, id)];
    &&& is_request_user(resp.request_user, c, user_id, is_ajax, desktop)
    &&& resp.cat == cat
    &&& resp.cats@ == c.categories@
}

/// The page on which a category is edited, for administrators.
pub fn edit_category_page(
    catalog: &Catalog,
    user_id: i32,
    desktop: bool,
    params: Option<&EditCategoryData>,
) -> (result: Result<EditCategoryResp, Error>)
    ensures
        match edit_category_page_error(*catalog, user_id, desktop, params) {
            Some(e) => result == Err::<EditCategoryResp, Error>(e),
            None => result matches Ok(resp) && edit_category_page_answer(
                resp,
                *catalog,
                user_id,
                desktop,
                params,
            ),
        },
{
    let p: &EditCategoryData = match params {
        Some(p) => p,
        None => {
            return Err(Error::ValidationFailed(Field::Params));
        },
    };
    let id: i32 = match p.id {
        Some(v) if v >= 1 => v,
        _ => {
            return Err(Error::ValidationFailed(Field::Id));
        },
    };
    let is_ajax: i16 = positive_is_ajax(p.is_ajax);
    let actor: Actor = match actor_of(catalog, user_id) {
        Ok(actor) => actor,
        Err(e) => {
            return Err(e);
        },
    };
    let request_user: UserResp = match get_request_user(catalog, user_id, is_ajax, desktop) {
        Ok(user) => user,
        Err(e) => {
            return Err(e);
        },
    };
    let perm: i16 = actor.perm;
    if perm < 60 {
        return Err(Error::PermissionDenied(Denial::Forbidden));
    }
    let cat_at: usize = match locate(&catalog.categories, id) {
        Some(at) => at,
        None => {
            return Err(Error::NotFound(Missing::Category));
        },
    };
    let cat = &catalog.categories[cat_at];
    Ok(
        EditCategoryResp {
            request_user,
            cat: cat.clone(),
            cats: copy_rows(&catalog.categories),
        },
    )
}

/// All tags.
pub struct CreateItemResp {
    pub request_user: UserResp,
    pub all_tags: Vec<Tag>,
}

/// Why `create_item_page` refuses a request, if it does.
pub open spec fn create_item_page_error(
    c: Catalog,
    user_id: i32,
    desktop: bool,
    params: Option<&IsAjaxData>,
) -> Option<Error> {
    let perm = perm_of(c, user_id);
    if asker_error(c, user_id) is Some {
        asker_error(c, user_id)
    } else if perm < 60 {
        Some(Error::PermissionDenied(Denial::Forbidden))
    } else {
        None
    }
}

/// `resp` is what `create_item_page` answers to a request that it does not refuse.
pub open spec fn create_item_page_answer(
    resp: CreateItemResp,
    c: Catalog,
    user_id: i32,
    desktop: bool,
    params: Option<&IsAjaxData>,
) -> bool {
    let is_ajax = match params { Some(p) => positive_is_ajax_of(p.is_ajax), None => 0 };
    &&& is_request_user(resp.request_user, c, user_id, is_ajax, desktop)
    &&& resp.all_tags@ == c.tags@
}

/// The page on which an item is created, for administrators.
pub fn create_item_page(
    catalog: &Catalog,
    user_id: i32,
    desktop: bool,
    params: Option<&IsAjaxData>,
) -> (result: Result<CreateItemResp, Error>)
    ensures
        match create_item_page_error(*catalog, user_id, desktop, params) {
            Some(e) => result == Err::<CreateItemResp, Error>(e),
            None => result matches Ok(resp) && create_item_page_answer(
                resp,
                *catalog,
                user_id,
                desktop,
                params,
            ),
        },
{
    let is_ajax: i16 = get_is_ajax(params);
    let actor: Actor = match actor_of(catalog, user_id) {
        Ok(actor) => actor,
        Err(e) => {
            return Err(e);
        },
    };
    let request_user: UserResp = match get_request_user(catalog, user_id, is_ajax, desktop) {
        Ok(user) => user,
        Err(e) => {
            return Err(e);
        },
    };
    let perm: i16 = actor.perm;
    if perm < 60 {
        return Err(Error::PermissionDenied(Denial::Forbidden));
    }
    Ok(
        CreateItemResp {
            request_user,
            all_tags: copy_rows(&catalog.tags),
        },
    )
}

/// An item and all categories.
pub struct EditItemResp {
    pub request_user: UserResp,
    pub object: Item,
    pub cats: Vec<Categories>,
}

/// Why `edit_item_page` refuses a request, if it does.
pub open spec fn edit_item_page_error(
    c: Catalog,
    user_id: i32,
    desktop: bool,
    params: Option<&EditItemData>,
) -> Option<Error> {
    let p = params->0;
    let id = p.id->0;
    let perm = perm_of(c, user_id);
    if params is None {
        Some(Error::ValidationFailed(Field::Params))
    } else if p.id is None || p.id->0 < 1 {
        Some(Error::ValidationFailed(Field::Id))
    } else if asker_error(c, user_id) is Some {
        asker_error(c, user_id)
    } else if perm < 60 {
        Some(Error::PermissionDenied(Denial::Forbidden))
    } else if has_none_with(c.items@, id) {
        Some(Error::NotFound(Missing::Item))
    } else {
        None
    }
}

/// `resp` is what `edit_item_page` answers to a request that it does not refuse.
pub open spec fn edit_item_page_answer(
    resp: EditItemResp,
    c: Catalog,
    user_id: i32,
    desktop: bool,
    params: Option<&EditItemData>,
) -> bool {
    let p = params->0;
    let id = p.id->0;
    let is_ajax = positive_is_ajax_of(p.is_ajax);
    let object = c.items@[place_of(c.items@, id)];
    &&& is_request_user(resp.request_user, c, user_id, is_ajax, desktop)
    &&& resp.object == object
    &&& resp.cats@ == c.categories@
}

/// The page on which an item is edited, for administrators.
pub fn edit_item_page(
    catalog: &Catalog,
    user_id: i32,
    desktop: bool,
    params: Option<&EditItemData>,
) -> (result: Result<EditItemResp, Error>)
    ensures
        match edit_item_page_error(*catalog, user_id, desktop, params) {
            Some(e) => result == Err::<EditItemResp, Error>(e),
            None => result matches Ok(resp) && edit_item_page_answer(
                resp,
                *catalog,
                user_id,
                desktop,
                params,
            ),
        },
{
    let p: &EditItemData = match params {
        Some(p) => p,
        None => {
            return Err(Error::ValidationFailed(Field::Params));
        },
    };
    let id: i32 = match p.id {
        Some(v) if v >= 1 => v,
        _ => {
            return Err(Error::ValidationFailed(Field::Id));
        },
    };
    let is_ajax: i16 = positive_is_ajax(p.is_ajax);
    let actor: Actor = match actor_of(catalog, user_id) {
        Ok(actor) => actor,
        Err(e) => {
            return Err(e);
        },
    };
    let request_user: UserResp = match get_request_user(catalog, user_id, is_ajax, desktop) {
        Ok(user) => user,
        Err(e) => {
            return Err(e);
        },
    };
    let perm: i16 = actor.perm;
    if perm < 60 {
        return Err(Error::PermissionDenied(Denial::Forbidden));
    }
    let object_at: usize = match locate(&catalog.items, id) {
        Some(at) => at,
        None => {
            return Err(Error::NotFound(Missing::Item));
        },
    };
    let object = &catalog.items[object_at];
    Ok(
        EditItemResp {
            request_user,
            object: object.clone(),
            cats: copy_rows(&catalog.categories),
        },
    )
}

/// A file.
pub struct EditFileResp {
    pub request_user: UserResp,
    pub file: File,
}

/// Why `edit_file_page` refuses a request, if it does.
pub open spec fn edit_file_page_error(
    c: Catalog,
    user_id: i32,
    desktop: bool,
    params: Option<&EditFileData>,
) -> Option<Error> {
    let p = params->0;
    let id = p.id->0;
    let perm = perm_of(c, user_id);
    if params is None {
        Some(Error::ValidationFailed(Field::Params))
    } else if p.id is None || p.id->0 < 1 {
        Some(Error::ValidationFailed(Field::Id))
    } else if asker_error(c, user_id) is Some {
        asker_error(c, user_id)
    } else if perm < 60 {
        Some(Error::PermissionDenied(Denial::Forbidden))
    } else if has_none_with(c.files@, id) {
        Some(Error::NotFound(Missing::File))
    } else {
        None
    }
}

/// `resp` is what `edit_file_page` answers to a request that it does not refuse.
pub open spec fn edit_file_page_answer(
    resp: EditFileResp,
    c: Catalog,
    user_id: i32,
    desktop: bool,
    params: Option<&EditFileData>,
) -> bool {
    let p = params->0;
    let id = p.id->0;
    let is_ajax = positive_is_ajax_of(p.is_ajax);
    let file = c.files@[place_of(c.files@, id)];
    &&& is_request_user(resp.request_user, c, user_id, is_ajax, desktop)
    &&& resp.file == file
}

/// The page on which a file is edited, for administrators.
pub fn edit_file_page(
    catalog: &Catalog,
    user_id: i32,
    desktop: bool,
    params: Option<&EditFileData>,
) -> (result: Result<EditFileResp, Error>)
    ensures
        match edit_file_page_error(*catalog, user_id, desktop, params) {
            Some(e) => result == Err::<EditFileResp, Error>(e),
            None => result matches Ok(resp) && edit_file_page_answer(
                resp,
                *catalog,
                user_id,
                desktop,
                params,
            ),
        },
{
    let p: &EditFileData = match params {
        Some(p) => p,
        None => {
            return Err(Error::ValidationFailed(Field::Params));
        },
    };
    let id: i32 = match p.id {
        Some(v) if v >= 1 => v,
        _ => {
            return Err(Error::ValidationFailed(Field::Id));
        },
    };
    let is_ajax: i16 = positive_is_ajax(p.is_ajax);
    let actor: Actor = match actor_of(catalog, user_id) {
        Ok(actor) => actor,
        Err(e) => {
            return Err(e);
        },
    };
    let request_user: UserResp = match get_request_user(catalog, user_id, is_ajax, desktop) {
        Ok(user) => user,
        Err(e) => {
            return Err(e);
        },
    };
    let perm: i16 = actor.perm;
    if perm < 60 {
        return Err(Error::PermissionDenied(Denial::Forbidden));
    }
    let file_at: usize = match locate(&catalog.files, id) {
        Some(at) => at,
        None => {
            return Err(Error::NotFound(Missing::File));
        },
    };
    let file = &catalog.files[file_at];
    Ok(
        EditFileResp {
            request_user,
            file: file.clone(),
        },
    )
}

/// Row `at` is the first item with the slug.
pub open spec fn is_first_item_slug(rows: Seq<Item>, slug: Seq<char>, at: int) -> bool {
    &&& 0 <= at < rows.len()
    &&& rows[at].slug@ == slug
    &&& forall|j: int| 0 <= j < at ==> !((#[trigger] rows[j]).slug@ == slug)
}

/// There is no item with the slug.
pub open spec fn no_item_slug(rows: Seq<Item>, slug: Seq<char>) -> bool {
    forall|j: int| 0 <= j < rows.len() ==> !((#[trigger] rows[j]).slug@ == slug)
}

/// The place of the first item with the slug.
pub open spec fn item_slug_place(rows: Seq<Item>, slug: Seq<char>) -> int {
    choose|at: int| is_first_item_slug(rows, slug, at)
}

/// Finds the first item with the slug.
pub fn find_item_slug(rows: &Vec<Item>, slug: &String) -> (found: Option<usize>)
    ensures
        match found {
            Some(at) => is_first_item_slug(rows@, slug@, at as int) && item_slug_place(rows@, slug@) == at
                && !no_item_slug(rows@, slug@),
            None => no_item_slug(rows@, slug@),
        },
{
    let mut i: usize = 0;
    while i < rows.len()
        invariant
            i <= rows.len(),
            forall|j: int| 0 <= j < i ==> !((#[trigger] rows@[j]).slug@ == slug@),
        decreases rows.len() - i,
    {
        if rows[i].slug == *slug {
            proof {
                assert(is_first_item_slug(rows@, slug@, i as int));
                let k = item_slug_place(rows@, slug@);
                assert(is_first_item_slug(rows@, slug@, k));
                if k < i {
                    assert(!(rows@[k].slug@ == slug@));
                } else if i < k {
                    assert(!(rows@[i as int].slug@ == slug@));
                }
            }
            return Some(i);
        }
        i += 1;
    }
    None
}

/// Row `at` is the first category of the kind with the slug.
pub open spec fn is_first_category_slug(
    rows: Seq<Categories>,
    slug: Seq<char>,
    types: i16,
    at: int,
) -> bool {
    &&& 0 <= at < rows.len()
    &&& rows[at].slug@ == slug && rows[at].types == types
    &&& forall|j: int| 0 <= j < at ==> !((#[trigger] rows[j]).slug@ == slug && rows[j].types == types)
}

/// There is no category of the kind with the slug.
pub open spec fn no_category_slug(rows: Seq<Categories>, slug: Seq<char>, types: i16) -> bool {
    forall|j: int| 0 <= j < rows.len() ==> !((#[trigger] rows[j]).slug@ == slug && rows[j].types == types)
}

/// The place of the first category of the kind with the slug.
pub open spec fn category_slug_place(rows: Seq<Categories>, slug: Seq<char>, types: i16) -> int {
    choose|at: int| is_first_category_slug(rows, slug, types, at)
}

/// Finds the first category of the kind with the slug.
pub fn find_category_slug(
    rows: &Vec<Categories>,
    slug: &String,
    types: i16,
) -> (found: Option<usize>)
    ensures
        match found {
            Some(at) => is_first_category_slug(rows@, slug@, types, at as int) && category_slug_place(rows@, slug@, types) == at
                && !no_category_slug(rows@, slug@, types),
            None => no_category_slug(rows@, slug@, types),
        },
{
    let mut i: usize = 0;
    while i < rows.len()
        invariant
            i <= rows.len(),
            forall|j: int| 0 <= j < i ==> !((#[trigger] rows@[j]).slug@ == slug@ && rows@[j].types == types),
        decreases rows.len() - i,
    {
        if rows[i].slug == *slug && rows[i].types == types {
            proof {
                assert(is_first_category_slug(rows@, slug@, types, i as int));
                let k = category_slug_place(rows@, slug@, types);
                assert(is_first_category_slug(rows@, slug@, types, k));
                if k < i {
                    assert(!(rows@[k].slug@ == slug@ && rows@[k].types == types));
                } else if i < k {
                    assert(!(rows@[i as int].slug@ == slug@ && rows@[i as int].types == types));
                }
            }
            return Some(i);
        }
        i += 1;
    }
    None
}

/// Row `at` is the first file with the id and of the sort.
pub open spec fn is_first_shown_file(rows: Seq<File>, id: i32, types: i16, at: int) -> bool {
    &&& 0 <= at < rows.len()
    &&& rows[at].id == id && rows[at].types == types
    &&& forall|j: int| 0 <= j < at ==> !((#[trigger] rows[j]).id == id && rows[j].types == types)
}

/// There is no file with the id and of the sort.
pub open spec fn no_shown_file(rows: Seq<File>, id: i32, types: i16) -> bool {
    forall|j: int| 0 <= j < rows.len() ==> !((#[trigger] rows[j]).id == id && rows[j].types == types)
}

/// The place of the first file with the id and of the sort.
pub open spec fn shown_file_place(rows: Seq<File>, id: i32, types: i16) -> int {
    choose|at: int| is_first_shown_file(rows, id, types, at)
}

/// Finds the first file with the id and of the sort.
pub fn find_shown_file(rows: &Vec<File>, id: i32, types: i16) -> (found: Option<usize>)
    ensures
        match found {
            Some(at) => is_first_shown_file(rows@, id, types, at as int) && shown_file_place(rows@, id, types) == at
                && !no_shown_file(rows@, id, types),
            None => no_shown_file(rows@, id, types),
        },
{
    let mut i: usize = 0;
    while i < rows.len()
        invariant
            i <= rows.len(),
            forall|j: int| 0 <= j < i ==> !((#[trigger] rows@[j]).id == id && rows@[j].types == types),
        decreases rows.len() - i,
    {
        if rows[i].id == id && rows[i].types == types {
            proof {
                assert(is_first_shown_file(rows@, id, types, i as int));
                let k = shown_file_place(rows@, id, types);
                assert(is_first_shown_file(rows@, id, types, k));
                if k < i {
                    assert(!(rows@[k].id == id && rows@[k].types == types));
                } else if i < k {
                    assert(!(rows@[i as int].id == id && rows@[i as int].types == types));
                }
            }
            return Some(i);
        }
        i += 1;
    }
    None
}

/// A category as its own page shows it.
pub open spec fn cat_detail_of(row: Categories) -> CatDetail {
    CatDetail {
        name: row.name,
        slug: row.slug,
        count: row.count,
        id: row.id,
        image: row.image,
        view: row.view,
        seconds: row.seconds,
    }
}

/// Shows a category as its own page shows it.
pub fn to_cat_detail(row: &Categories) -> (cat: CatDetail)
    ensures
        cat == cat_detail_of(*row),
{
    CatDetail {
        name: row.name.clone(),
        slug: row.slug.clone(),
        count: row.count,
        id: row.id,
        image: row.image.clone(),
        view: row.view,
        seconds: row.seconds,
    }
}

/// `cat` is the category as the page of one of its items shows it: with the
/// image that is shown for it.
pub open spec fn is_page_cat(cat: Cat, row: Categories) -> bool {
    &&& cat.name == row.name
    &&& cat.slug == row.slug
    &&& cat.count == row.count
    &&& cat.id == row.id
    &&& cat.image matches Some(path) && path@ == image_text(row.image)
    &&& cat.types == row.types
}

/// The order in which the items of a kind are listed.
pub fn rule_of(types: i16) -> (rule: SortRule)
    ensures
        rule == kind_selection(types, false, None).rule,
{
    if types == 6 {
        SortRule::PositionAsc
    } else {
        SortRule::CreatedDesc
    }
}

/// The page of an item.
pub struct ObjectPageResp {
    pub request_user: UserResp,
    pub object: ItemDetailResp,
    pub category: Cat,
    pub cats: Vec<Cat>,
    pub all_tags: Vec<SmallTag>,
    pub prev: Option<FeaturedItem>,
    pub next: Option<FeaturedItem>,
}

/// Why `get_item_page` refuses a request, if it does.
pub open spec fn get_item_page_error(
    c: Catalog,
    user_id: i32,
    desktop: bool,
    params: Option<&ItemDetailData>,
    types: i16,
) -> Option<Error> {
    let p = params->0;
    let slug = p.slug->0;
    let cat_slug = p.cat_slug->0;
    let item = c.items@[item_slug_place(c.items@, slug@)];
    if params is None {
        Some(Error::ValidationFailed(Field::Params))
    } else if p.slug is None {
        Some(Error::ValidationFailed(Field::Slug))
    } else if p.cat_slug is None {
        Some(Error::ValidationFailed(Field::CatSlug))
    } else if slug@.len() == 0 {
        Some(Error::ValidationFailed(Field::SlugEmpty))
    } else if cat_slug@.len() == 0 {
        Some(Error::ValidationFailed(Field::CatSlugEmpty))
    } else if no_item_slug(c.items@, slug@) {
        Some(Error::NotFound(Missing::Item))
    } else if no_category_slug(c.categories@, cat_slug@, item.types) {
        Some(Error::NotFound(Missing::Category))
    } else if asker_error(c, user_id) is Some {
        asker_error(c, user_id)
    } else {
        None
    }
}

/// `resp` is what `get_item_page` answers to a request that it does not refuse.
pub open spec fn get_item_page_answer(
    resp: ObjectPageResp,
    c: Catalog,
    user_id: i32,
    desktop: bool,
    params: Option<&ItemDetailData>,
    types: i16,
) -> bool {
    let p = params->0;
    let slug = p.slug->0;
    let cat_slug = p.cat_slug->0;
    let item = c.items@[item_slug_place(c.items@, slug@)];
    let category = c.categories@[category_slug_place(c.categories@, cat_slug@, item.types)];
    let is_ajax = positive_is_ajax_of(p.is_ajax);
    let perm = perm_of(c, user_id);
    &&& is_request_user(resp.request_user, c, user_id, is_ajax, desktop)
    &&& is_item_data(resp.object, c, item, perm)
    &&& is_page_cat(resp.category, category)
    &&& resp.cats@ == cats_for(c.categories@, types)
    &&& resp.all_tags@ == small_tags_among(c.tags@, kind_tag_ids(c.tags_items@, types))
    &&& are_neighbours((resp.prev, resp.next), c, category.id, item.types, item.id)
}

/// The page of an item of kind `types`, found by its slug under the category
/// with the slug `cat_slug`: the item as the one who asks may see it, its
/// category, the categories and tags of the kind, and the neighbours of the item
/// in the category.
pub fn get_item_page(
    catalog: &Catalog,
    user_id: i32,
    desktop: bool,
    params: Option<&ItemDetailData>,
    types: i16,
) -> (result: Result<ObjectPageResp, Error>)
    ensures
        match get_item_page_error(*catalog, user_id, desktop, params, types) {
            Some(e) => result == Err::<ObjectPageResp, Error>(e),
            None => result matches Ok(resp) && get_item_page_answer(
                resp,
                *catalog,
                user_id,
                desktop,
                params,
                types,
            ),
        },
{
    let p: &ItemDetailData = match params {
        Some(p) => p,
        None => {
            return Err(Error::ValidationFailed(Field::Params));
        },
    };
    let slug: &String = match &p.slug {
        Some(v) => v,
        None => {
            return Err(Error::ValidationFailed(Field::Slug));
        },
    };
    let cat_slug: &String = match &p.cat_slug {
        Some(v) => v,
        None => {
            return Err(Error::ValidationFailed(Field::CatSlug));
        },
    };
    if slug.as_str().unicode_len() == 0 {
        return Err(Error::ValidationFailed(Field::SlugEmpty));
    }
    if cat_slug.as_str().unicode_len() == 0 {
        return Err(Error::ValidationFailed(Field::CatSlugEmpty));
    }
    let item_at: usize = match find_item_slug(&catalog.items, slug) {
        Some(at) => at,
        None => {
            return Err(Error::NotFound(Missing::Item));
        },
    };
    let item = &catalog.items[item_at];
    let category_at: usize = match find_category_slug(&catalog.categories, cat_slug, item.types) {
        Some(at) => at,
        None => {
            return Err(Error::NotFound(Missing::Category));
        },
    };
    let category = &catalog.categories[category_at];
    let around: (Option<FeaturedItem>, Option<FeaturedItem>) = category.get_featured_items(catalog, item.types, item.id);
    let is_ajax: i16 = positive_is_ajax(p.is_ajax);
    let actor: Actor = match actor_of(catalog, user_id) {
        Ok(actor) => actor,
        Err(e) => {
            return Err(e);
        },
    };
    let request_user: UserResp = match get_request_user(catalog, user_id, is_ajax, desktop) {
        Ok(user) => user,
        Err(e) => {
            return Err(e);
        },
    };
    let perm: i16 = actor.perm;
    Ok(
        ObjectPageResp {
            request_user,
            object: get_item_data(catalog, item, perm),
            category: Cat { name: category.name.clone(), slug: category.slug.clone(), count: category.count, id: category.id, image: Some(category.get_image()), types: category.types },
            cats: collect_cats_for(&catalog.categories, types),
            all_tags: collect_small_tags(&catalog.tags, &collect_kind_tag_ids(&catalog.tags_items, types)),
            prev: around.0,
            next: around.1,
        },
    )
}

/// The page of a category.
pub struct CategoryPageResp<P> {
    pub request_user: UserResp,
    pub category: CatDetail,
    pub cats: Vec<Cat>,
    pub all_tags: Vec<SmallTag>,
    pub object_list: Vec<P>,
    pub next_page_number: i32,
}

/// Why `item_category_page` refuses a request, if it does.
pub open spec fn item_category_page_error<P: Projection>(
    c: Catalog,
    user_id: i32,
    desktop: bool,
    params: Option<&CategoryDetailData>,
    types: i16,
) -> Option<Error> {
    let p = params->0;
    let slug = p.slug->0;
    let page = page_number_of(p.page);
    if params is None {
        Some(Error::ValidationFailed(Field::Params))
    } else if p.slug is None {
        Some(Error::ValidationFailed(Field::Slug))
    } else if slug@.len() == 0 {
        Some(Error::ValidationFailed(Field::SlugEmpty))
    } else if no_category_slug(c.categories@, slug@, types) {
        Some(Error::NotFound(Missing::Category))
    } else if page == i32::MAX {
        Some(Error::ValidationFailed(Field::Params))
    } else if asker_error(c, user_id) is Some {
        asker_error(c, user_id)
    } else {
        None
    }
}

/// `resp` is what `item_category_page` answers to a request that it does not refuse.
pub open spec fn item_category_page_answer<P: Projection>(
    resp: CategoryPageResp<P>,
    c: Catalog,
    user_id: i32,
    desktop: bool,
    params: Option<&CategoryDetailData>,
    types: i16,
) -> bool {
    let p = params->0;
    let slug = p.slug->0;
    let category = c.categories@[category_slug_place(c.categories@, slug@, types)];
    let page = page_number_of(p.page);
    let is_ajax = positive_is_ajax_of(p.is_ajax);
    let perm = perm_of(c, user_id);
    &&& is_request_user(resp.request_user, c, user_id, is_ajax, desktop)
    &&& resp.category == cat_detail_of(category)
    &&& resp.cats@ == if is_ajax < 3 { cats_for(c.categories@, types) } else { Seq::empty() }
    &&& resp.all_tags@ == if is_ajax < 3 { small_tags_among(c.tags@, kind_tag_ids(c.tags_items@, types)) } else { Seq::empty() }
    &&& resp.object_list@ == shown::<P>(page_rows(listing(c.items@, category_selection(c, category.id, types, perm >= 60)), page as int, 20))
    &&& resp.next_page_number == next_page_number(listing(c.items@, category_selection(c, category.id, types, perm >= 60)), page as int, 20)
}

/// The page of a category of kind `types`, found by its slug: the category,
/// one page of its items in the shape `P`, which is to be the shape of the
/// kind, and, unless a small part of the page is asked for, the categories
/// and tags of the kind.
pub fn item_category_page<P: Projection>(
    catalog: &Catalog,
    user_id: i32,
    desktop: bool,
    params: Option<&CategoryDetailData>,
    types: i16,
) -> (result: Result<CategoryPageResp<P>, Error>)
    ensures
        match item_category_page_error::<P>(*catalog, user_id, desktop, params, types) {
            Some(e) => result == Err::<CategoryPageResp<P>, Error>(e),
            None => result matches Ok(resp) && item_category_page_answer::<P>(
                resp,
                *catalog,
                user_id,
                desktop,
                params,
                types,
            ),
        },
{
    let p: &CategoryDetailData = match params {
        Some(p) => p,
        None => {
            return Err(Error::ValidationFailed(Field::Params));
        },
    };
    let slug: &String = match &p.slug {
        Some(v) => v,
        None => {
            return Err(Error::ValidationFailed(Field::Slug));
        },
    };
    if slug.as_str().unicode_len() == 0 {
        return Err(Error::ValidationFailed(Field::SlugEmpty));
    }
    let category_at: usize = match find_category_slug(&catalog.categories, slug, types) {
        Some(at) => at,
        None => {
            return Err(Error::NotFound(Missing::Category));
        },
    };
    let category = &catalog.categories[category_at];
    let page: i32 = page_number(p.page);
    if page == i32::MAX {
        return Err(Error::ValidationFailed(Field::Params));
    }
    let is_ajax: i16 = positive_is_ajax(p.is_ajax);
    let actor: Actor = match actor_of(catalog, user_id) {
        Ok(actor) => actor,
        Err(e) => {
            return Err(e);
        },
    };
    let request_user: UserResp = match get_request_user(catalog, user_id, is_ajax, desktop) {
        Ok(user) => user,
        Err(e) => {
            return Err(e);
        },
    };
    let perm: i16 = actor.perm;
    let ids: Vec<i32> = collect_category_items(&catalog.category, category.id, types);
    let found: (Vec<P>, i32) = list_page::<P>(&catalog.items, types, is_admin(perm), Some(&ids), rule_of(types), page, 20);
    Ok(
        CategoryPageResp {
            request_user,
            category: to_cat_detail(category),
            cats: if is_ajax < 3 { collect_cats_for(&catalog.categories, types) } else { Vec::new() },
            all_tags: if is_ajax < 3 { collect_small_tags(&catalog.tags, &collect_kind_tag_ids(&catalog.tags_items, types)) } else { Vec::new() },
            object_list: found.0,
            next_page_number: found.1,
        },
    )
}

/// The page of a blog article.
pub fn get_blog_page(catalog: &Catalog, user_id: i32, desktop: bool, params: Option<&ItemDetailData>) -> (result:
    Result<ObjectPageResp, Error>)
    ensures
        match get_item_page_error(*catalog, user_id, desktop, params, 1) {
            Some(e) => result == Err::<ObjectPageResp, Error>(e),
            None => result matches Ok(resp) && get_item_page_answer(
                resp,
                *catalog,
                user_id,
                desktop,
                params,
                1,
            ),
        },
{
    get_item_page(catalog, user_id, desktop, params, 1)
}

/// The page of a category of blogs.
pub fn blog_category_page(
    catalog: &Catalog,
    user_id: i32,
    desktop: bool,
    params: Option<&CategoryDetailData>,
) -> (result: Result<CategoryPageResp<Blog>, Error>)
    ensures
        match item_category_page_error::<Blog>(*catalog, user_id, desktop, params, 1) {
            Some(e) => result == Err::<CategoryPageResp<Blog>, Error>(e),
            None => result matches Ok(resp) && item_category_page_answer::<Blog>(
                resp,
                *catalog,
                user_id,
                desktop,
                params,
                1,
            ),
        },
{
    item_category_page::<Blog>(catalog, user_id, desktop, params, 1)
}

/// The page of a help article.
pub fn get_help_page(catalog: &Catalog, user_id: i32, desktop: bool, params: Option<&ItemDetailData>) -> (result:
    Result<ObjectPageResp, Error>)
    ensures
        match get_item_page_error(*catalog, user_id, desktop, params, 6) {
            Some(e) => result == Err::<ObjectPageResp, Error>(e),
            None => result matches Ok(resp) && get_item_page_answer(
                resp,
                *catalog,
                user_id,
                desktop,
                params,
                6,
            ),
        },
{
    get_item_page(catalog, user_id, desktop, params, 6)
}

/// The page of a category of helps.
pub fn help_category_page(
    catalog: &Catalog,
    user_id: i32,
    desktop: bool,
    params: Option<&CategoryDetailData>,
) -> (result: Result<CategoryPageResp<Help>, Error>)
    ensures
        match item_category_page_error::<Help>(*catalog, user_id, desktop, params, 6) {
            Some(e) => result == Err::<CategoryPageResp<Help>, Error>(e),
            None => result matches Ok(resp) && item_category_page_answer::<Help>(
                resp,
                *catalog,
                user_id,
                desktop,
                params,
                6,
            ),
        },
{
    item_category_page::<Help>(catalog, user_id, desktop, params, 6)
}

/// The page of a service.
pub fn get_service_page(catalog: &Catalog, user_id: i32, desktop: bool, params: Option<&ItemDetailData>) -> (result:
    Result<ObjectPageResp, Error>)
    ensures
        match get_item_page_error(*catalog, user_id, desktop, params, 2) {
            Some(e) => result == Err::<ObjectPageResp, Error>(e),
            None => result matches Ok(resp) && get_item_page_answer(
                resp,
                *catalog,
                user_id,
                desktop,
                params,
                2,
            ),
        },
{
    get_item_page(catalog, user_id, desktop, params, 2)
}

/// The page of a category of services.
pub fn service_category_page(
    catalog: &Catalog,
    user_id: i32,
    desktop: bool,
    params: Option<&CategoryDetailData>,
) -> (result: Result<CategoryPageResp<Service>, Error>)
    ensures
        match item_category_page_error::<Service>(*catalog, user_id, desktop, params, 2) {
            Some(e) => result == Err::<CategoryPageResp<Service>, Error>(e),
            None => result matches Ok(resp) && item_category_page_answer::<Service>(
                resp,
                *catalog,
                user_id,
                desktop,
                params,
                2,
            ),
        },
{
    item_category_page::<Service>(catalog, user_id, desktop, params, 2)
}

/// The page of a product.
pub fn get_store_page(catalog: &Catalog, user_id: i32, desktop: bool, params: Option<&ItemDetailData>) -> (result:
    Result<ObjectPageResp, Error>)
    ensures
        match get_item_page_error(*catalog, user_id, desktop, params, 3) {
            Some(e) => result == Err::<ObjectPageResp, Error>(e),
            None => result matches Ok(resp) && get_item_page_answer(
                resp,
                *catalog,
                user_id,
                desktop,
                params,
                3,
            ),
        },
{
    get_item_page(catalog, user_id, desktop, params, 3)
}

/// The page of a category of stores.
pub fn store_category_page(
    catalog: &Catalog,
    user_id: i32,
    desktop: bool,
    params: Option<&CategoryDetailData>,
) -> (result: Result<CategoryPageResp<Store>, Error>)
    ensures
        match item_category_page_error::<Store>(*catalog, user_id, desktop, params, 3) {
            Some(e) => result == Err::<CategoryPageResp<Store>, Error>(e),
            None => result matches Ok(resp) && item_category_page_answer::<Store>(
                resp,
                *catalog,
                user_id,
                desktop,
                params,
                3,
            ),
        },
{
    item_category_page::<Store>(catalog, user_id, desktop, params, 3)
}

/// The page of a wiki article.
pub fn get_wiki_page(catalog: &Catalog, user_id: i32, desktop: bool, params: Option<&ItemDetailData>) -> (result:
    Result<ObjectPageResp, Error>)
    ensures
        match get_item_page_error(*catalog, user_id, desktop, params, 4) {
            Some(e) => result == Err::<ObjectPageResp, Error>(e),
            None => result matches Ok(resp) && get_item_page_answer(
                resp,
                *catalog,
                user_id,
                desktop,
                params,
                4,
            ),
        },
{
    get_item_page(catalog, user_id, desktop, params, 4)
}

/// The page of a category of wikis.
pub fn wiki_category_page(
    catalog: &Catalog,
    user_id: i32,
    desktop: bool,
    params: Option<&CategoryDetailData>,
) -> (result: Result<CategoryPageResp<Wiki>, Error>)
    ensures
        match item_category_page_error::<Wiki>(*catalog, user_id, desktop, params, 4) {
            Some(e) => result == Err::<CategoryPageResp<Wiki>, Error>(e),
            None => result matches Ok(resp) && item_category_page_answer::<Wiki>(
                resp,
                *catalog,
                user_id,
                desktop,
                params,
                4,
            ),
        },
{
    item_category_page::<Wiki>(catalog, user_id, desktop, params, 4)
}

/// The page of a work.
pub fn get_work_page(catalog: &Catalog, user_id: i32, desktop: bool, params: Option<&ItemDetailData>) -> (result:
    Result<ObjectPageResp, Error>)
    ensures
        match get_item_page_error(*catalog, user_id, desktop, params, 5) {
            Some(e) => result == Err::<ObjectPageResp, Error>(e),
            None => result matches Ok(resp) && get_item_page_answer(
                resp,
                *catalog,
                user_id,
                desktop,
                params,
                5,
            ),
        },
{
    get_item_page(catalog, user_id, desktop, params, 5)
}

/// The page of a category of works.
pub fn work_category_page(
    catalog: &Catalog,
    user_id: i32,
    desktop: bool,
    params: Option<&CategoryDetailData>,
) -> (result: Result<CategoryPageResp<Work>, Error>)
    ensures
        match item_category_page_error::<Work>(*catalog, user_id, desktop, params, 5) {
            Some(e) => result == Err::<CategoryPageResp<Work>, Error>(e),
            None => result matches Ok(resp) && item_category_page_answer::<Work>(
                resp,
                *catalog,
                user_id,
                desktop,
                params,
                5,
            ),
        },
{
    item_category_page::<Work>(catalog, user_id, desktop, params, 5)
}

/// What the page of an image shows: the item that the image belongs to, and
/// the images before and after it among the images of the item.
pub struct ImageResp {
    pub item: Item,
    pub prev: Option<File>,
    pub next: Option<File>,
}

/// `file` is the image with the id as a neighbour: the first file with the
/// id whose sort is the number `sort`, or nothing where there is none.
pub open spec fn is_shown_file(file: Option<File>, files: Seq<File>, id: i32, sort: i16) -> bool {
    match file {
        Some(f) => !no_shown_file(files, id, sort) && f == files[shown_file_place(files, id, sort)],
        None => no_shown_file(files, id, sort),
    }
}

/// Looks up an image as a neighbour.
pub fn shown_file(files: &Vec<File>, id: i32, sort: i16) -> (file: Option<File>)
    ensures
        is_shown_file(file, files@, id, sort),
{
    match find_shown_file(files, id, sort) {
        Some(at) => Some(files[at].clone()),
        None => None,
    }
}

/// Why the page of an image is refused, if it is.
pub open spec fn image_page_error(c: Catalog, params: Option<&ImageData>) -> Option<Error> {
    if params is None {
        Some(Error::ValidationFailed(Field::Params))
    } else if params->0.id is None || params->0.id->0 < 1 {
        Some(Error::ValidationFailed(Field::Id))
    } else if has_none_with(c.files@, params->0.id->0) {
        Some(Error::NotFound(Missing::File))
    } else {
        let file = c.files@[place_of(c.files@, params->0.id->0)];
        if no_item_of(c.items@, file.item_id, file.item_types) {
            Some(Error::NotFound(Missing::Item))
        } else {
            None
        }
    }
}

/// `resp` is the page of the image.
pub open spec fn image_page_answer(
    resp: ImageResp,
    c: Catalog,
    params: Option<&ImageData>,
) -> bool {
    let id = params->0.id->0;
    let file = c.files@[place_of(c.files@, id)];
    let item = c.items@[item_place_of(c.items@, file.item_id, file.item_types)];
    let images = image_ids(c.files@, item.id);
    &&& resp.item == item
    &&& match last_place(images, id) {
        Some(at) => {
            &&& if at > 0 {
                is_shown_file(resp.prev, c.files@, images[at - 1], item.types)
            } else {
                resp.prev is None
            }
            &&& if at + 1 < images.len() {
                is_shown_file(resp.next, c.files@, images[at + 1], item.types)
            } else {
                resp.next is None
            }
        },
        None => resp.prev is None && resp.next is None,
    }
}

/// The page of an image: the item that it belongs to, and its neighbours
/// among the images of the item.
pub fn image_page(
    catalog: &Catalog,
    params: Option<&ImageData>,
) -> (result: Result<ImageResp, Error>)
    ensures
        match image_page_error(*catalog, params) {
            Some(e) => result == Err::<ImageResp, Error>(e),
            None => result matches Ok(resp) && image_page_answer(resp, *catalog, params),
        },
{
    let p: &ImageData = match params {
        Some(p) => p,
        None => {
            return Err(Error::ValidationFailed(Field::Params));
        },
    };
    let id: i32 = match p.id {
        Some(id) => id,
        None => {
            return Err(Error::ValidationFailed(Field::Id));
        },
    };
    if id < 1 {
        return Err(Error::ValidationFailed(Field::Id));
    }
    let file_at: usize = match locate(&catalog.files, id) {
        Some(at) => at,
        None => {
            return Err(Error::NotFound(Missing::File));
        },
    };
    let file: &File = &catalog.files[file_at];
    let item_at: usize = match find_item_of(
        &catalog.items,
        file.item_id,
        file.item_types,
    ) {
        Some(at) => at,
        None => {
            return Err(Error::NotFound(Missing::Item));
        },
    };
    let item: &Item = &catalog.items[item_at];
    let images: Vec<i32> = item.get_images_ids(catalog);
    let (prev, next) = match find_last_place(&images, id) {
        Some(at) => {
            let prev: Option<File> = if at > 0 {
                shown_file(&catalog.files, images[at - 1], item.types)
            } else {
                None
            };
            let next: Option<File> = if at + 1 < images.len() {
                shown_file(&catalog.files, images[at + 1], item.types)
            } else {
                None
            };
            (prev, next)
        },
        None => (None, None),
    };
    Ok(ImageResp { item: item.clone(), prev, next })
}

/// The page of the categories of a kind.
pub struct CategoriesPageResp {
    pub request_user: UserResp,
    pub categories: Vec<CatDataResp>,
    pub cats: Vec<Cat>,
    pub all_tags: Vec<SmallTag>,
    pub view: i32,
    pub seconds: i32,
}

/// `shown` is the category with its six newest items.
pub open spec fn is_cat_data(
    shown: CatDataResp,
    c: Catalog,
    cat: Cat,
    types: i16,
    admin: bool,
) -> bool {
    let items = newest_in_category(c, cat.id, 6, types, admin);
    &&& shown.category == cat
    &&& shown.object_list@.len() == items.len()
    &&& forall|j: int|
        0 <= j < items.len() ==> is_item_resp(#[trigger] shown.object_list@[j], items[j])
}

/// Collects a category with its six newest items.
pub fn cat_data(catalog: &Catalog, cat: &Cat, types: i16, admin: bool) -> (shown: CatDataResp)
    ensures
        is_cat_data(shown, *catalog, *cat, types, admin),
{
    let items: Vec<Item> = cat.get_items_list(catalog, 6, types, admin);
    let mut stack: Vec<ItemResp> = Vec::new();
    let mut j: usize = 0;
    while j < items.len()
        invariant
            j <= items.len(),
            stack.len() == j,
            forall|k: int| 0 <= k < j ==> is_item_resp(#[trigger] stack@[k], items@[k]),
        decreases items.len() - j,
    {
        stack.push(to_item_resp(&items[j]));
        j += 1;
    }
    CatDataResp { category: cat.clone(), object_list: stack }
}

/// Why the page of the categories of a kind is refused, if it is.
pub open spec fn item_categories_page_error(
    c: Catalog,
    user_id: i32,
    params: Option<&IsAjaxData>,
    types: i16,
) -> Option<Error> {
    if no_page_stat(c.stat_pages@, stat_type_of(types)) {
        Some(Error::NotFound(Missing::StatPage))
    } else {
        asker_error(c, user_id)
    }
}

/// `resp` is the page of the categories of the kind.
pub open spec fn item_categories_page_answer(
    resp: CategoriesPageResp,
    c: Catalog,
    user_id: i32,
    desktop: bool,
    params: Option<&IsAjaxData>,
    types: i16,
) -> bool {
    let is_ajax = match params {
        Some(p) => positive_is_ajax_of(p.is_ajax),
        None => 0,
    };
    let stat = c.stat_pages@[stat_place(c.stat_pages@, stat_type_of(types))];
    let cats = cats_for(c.categories@, types);
    let admin = perm_of(c, user_id) >= 60;
    &&& is_request_user(resp.request_user, c, user_id, is_ajax, desktop)
    &&& resp.cats@ == cats
    &&& resp.all_tags@ == small_tags_among(c.tags@, kind_tag_ids(c.tags_items@, types))
    &&& resp.view == stat.view
    &&& resp.seconds == stat.seconds
    &&& resp.categories@.len() == cats.len()
    &&& forall|k: int|
        0 <= k < cats.len() ==> is_cat_data(#[trigger] resp.categories@[k], c, cats[k], types, admin)
}

/// The page of the categories of a kind: each category with its six newest
/// items, the tags of the kind, and the statistics of the page.
pub fn item_categories_page(
    catalog: &Catalog,
    user_id: i32,
    desktop: bool,
    params: Option<&IsAjaxData>,
    types: i16,
) -> (result: Result<CategoriesPageResp, Error>)
    ensures
        match item_categories_page_error(*catalog, user_id, params, types) {
            Some(e) => result == Err::<CategoriesPageResp, Error>(e),
            None => result matches Ok(resp) && item_categories_page_answer(
                resp,
                *catalog,
                user_id,
                desktop,
                params,
                types,
            ),
        },
{
    let stat_at: usize = match find_page_stat(&catalog.stat_pages, Categories::get_stat_type(types)) {
        Some(at) => at,
        None => {
            return Err(Error::NotFound(Missing::StatPage));
        },
    };
    let is_ajax: i16 = get_is_ajax(params);
    let actor: Actor = match actor_of(catalog, user_id) {
        Ok(actor) => actor,
        Err(e) => {
            return Err(e);
        },
    };
    let request_user: UserResp = match get_request_user(catalog, user_id, is_ajax, desktop) {
        Ok(user) => user,
        Err(e) => {
            return Err(e);
        },
    };
    let admin: bool = is_admin(actor.perm);
    let cats: Vec<Cat> = collect_cats_for(&catalog.categories, types);
    let all_tags: Vec<SmallTag> = collect_small_tags(
        &catalog.tags,
        &collect_kind_tag_ids(&catalog.tags_items, types),
    );
    let mut categories: Vec<CatDataResp> = Vec::new();
    let mut k: usize = 0;
    while k < cats.len()
        invariant
            k <= cats.len(),
            categories.len() == k,
            forall|j: int|
                0 <= j < k ==> is_cat_data(#[trigger] categories@[j], *catalog, cats@[j], types, admin),
        decreases cats.len() - k,
    {
        categories.push(cat_data(catalog, &cats[k], types, admin));
        k += 1;
    }
    Ok(
        CategoriesPageResp {
            request_user,
            categories,
            cats,
            all_tags,
            view: catalog.stat_pages[stat_at].view,
            seconds: catalog.stat_pages[stat_at].seconds,
        },
    )
}

/// The page of the categories of blogs.
pub fn blog_categories_page(catalog: &Catalog, user_id: i32, desktop: bool, params: Option<&IsAjaxData>) -> (result:
    Result<CategoriesPageResp, Error>)
    ensures
        match item_categories_page_error(*catalog, user_id, params, 1) {
            Some(e) => result == Err::<CategoriesPageResp, Error>(e),
            None => result matches Ok(resp) && item_categories_page_answer(
                resp,
                *catalog,
                user_id,
                desktop,
                params,
                1,
            ),
        },
{
    item_categories_page(catalog, user_id, desktop, params, 1)
}

/// The page of the categories of helps.
pub fn help_categories_page(catalog: &Catalog, user_id: i32, desktop: bool, params: Option<&IsAjaxData>) -> (result:
    Result<CategoriesPageResp, Error>)
    ensures
        match item_categories_page_error(*catalog, user_id, params, 6) {
            Some(e) => result == Err::<CategoriesPageResp, Error>(e),
            None => result matches Ok(resp) && item_categories_page_answer(
                resp,
                *catalog,
                user_id,
                desktop,
                params,
                6,
            ),
        },
{
    item_categories_page(catalog, user_id, desktop, params, 6)
}

/// The page of the categories of services.
pub fn service_categories_page(catalog: &Catalog, user_id: i32, desktop: bool, params: Option<&IsAjaxData>) -> (result:
    Result<CategoriesPageResp, Error>)
    ensures
        match item_categories_page_error(*catalog, user_id, params, 2) {
            Some(e) => result == Err::<CategoriesPageResp, Error>(e),
            None => result matches Ok(resp) && item_categories_page_answer(
                resp,
                *catalog,
                user_id,
                desktop,
                params,
                2,
            ),
        },
{
    item_categories_page(catalog, user_id, desktop, params, 2)
}

/// The page of the categories of stores.
pub fn store_categories_page(catalog: &Catalog, user_id: i32, desktop: bool, params: Option<&IsAjaxData>) -> (result:
    Result<CategoriesPageResp, Error>)
    ensures
        match item_categories_page_error(*catalog, user_id, params, 3) {
            Some(e) => result == Err::<CategoriesPageResp, Error>(e),
            None => result matches Ok(resp) && item_categories_page_answer(
                resp,
                *catalog,
                user_id,
                desktop,
                params,
                3,
            ),
        },
{
    item_categories_page(catalog, user_id, desktop, params, 3)
}

/// The page of the categories of wikis.
pub fn wiki_categories_page(catalog: &Catalog, user_id: i32, desktop: bool, params: Option<&IsAjaxData>) -> (result:
    Result<CategoriesPageResp, Error>)
    ensures
        match item_categories_page_error(*catalog, user_id, params, 4) {
            Some(e) => result == Err::<CategoriesPageResp, Error>(e),
            None => result matches Ok(resp) && item_categories_page_answer(
                resp,
                *catalog,
                user_id,
                desktop,
                params,
                4,
            ),
        },
{
    item_categories_page(catalog, user_id, desktop, params, 4)
}

/// The page of the categories of works.
pub fn work_categories_page(catalog: &Catalog, user_id: i32, desktop: bool, params: Option<&IsAjaxData>) -> (result:
    Result<CategoriesPageResp, Error>)
    ensures
        match item_categories_page_error(*catalog, user_id, params, 5) {
            Some(e) => result == Err::<CategoriesPageResp, Error>(e),
            None => result matches Ok(resp) && item_categories_page_answer(
                resp,
                *catalog,
                user_id,
                desktop,
                params,
                5,
            ),
        },
{
    item_categories_page(catalog, user_id, desktop, params, 5)
}

} // verus!
