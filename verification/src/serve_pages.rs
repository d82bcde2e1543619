//! The pages of service options and their categories.

use vstd::prelude::*;
use vstd::string::StrSliceExecFns;
use crate::catalog::{Catalog, Keyed, locate, place_of, has_none_with, copy_rows};
use crate::errors::{Error, Missing, Denial, Field};
use crate::getters::{
    collect_tech_of_level, position_desc_ranks, ranks_by_position_desc, tech_of_level,
};
use crate::listing::Projection;
use crate::models::{Categories, Serve, ServeCategories, TechCategories};
use crate::ranking::{in_rank_order, rows_in_rank_order};
use crate::requests::{
    UserResp, IsAjaxData, PageStatData, get_request_user, is_request_user, perm_of, asker_of,
    asker_error, actor_of, Actor, get_is_ajax, get_stat_page, positive_is_ajax_of, positive_is_ajax,
};
use crate::stat::{no_page_stat, stat_place};

verus! {

/// The query for the page of a service option.
pub struct ServePageData {
    pub id: Option<i32>,
    pub is_ajax: Option<i16>,
}

/// The query for the categories of one level.
pub struct LoadCategoriesData {
    pub level: Option<i16>,
}

/// The query for the page on which a service option or one of its categories is edited.
pub struct EditItemData {
    pub id: Option<i32>,
    pub is_ajax: Option<i16>,
}

/// The technical category `id` is stored and has the level.
pub open spec fn has_level(tech: Seq<TechCategories>, id: i32, level: i16) -> bool {
    !has_none_with(tech, id) && tech[place_of(tech, id)].level == level
}

/// Tests whether a technical category is stored and has a level.
pub fn test_level(tech: &Vec<TechCategories>, id: i32, level: i16) -> (yes: bool)
    ensures
        yes == has_level(tech@, id, level),
{
    match locate(tech, id) {
        Some(at) => tech[at].level == level,
        None => false,
    }
}

/// The categories of service options whose technical category has the level.
pub open spec fn serve_cats_of_level(
    rows: Seq<ServeCategories>,
    tech: Seq<TechCategories>,
    level: i16,
) -> Seq<ServeCategories> {
    rows.filter(|r: ServeCategories| has_level(tech, r.tech_categories, level)).map_values(|r: ServeCategories| r)
}

/// Collects the categories of service options under the technical categories of one level.
pub fn collect_serve_cats_of_level(
    rows: &Vec<ServeCategories>,
    tech: &Vec<TechCategories>,
    level: i16,
) -> (out: Vec<ServeCategories>)
    ensures
        out@ == serve_cats_of_level(rows@, tech@, level),
{
    let ghost pred = |r: ServeCategories| has_level(tech@, r.tech_categories, level);
    let ghost pick = |r: ServeCategories| r;
    let mut out: Vec<ServeCategories> = Vec::new();
    let mut i: usize = 0;
    assert(rows@.take(0).filter(pred).map_values(pick) =~= out@);
    while i < rows.len()
        invariant
            i <= rows.len(),
            pred == |r: ServeCategories| has_level(tech@, r.tech_categories, level),
            pick == |r: ServeCategories| r,
            out@ == rows@.take(i as int).filter(pred).map_values(pick),
        decreases rows.len() - i,
    {
        proof {
            assert(rows@.take(i + 1) =~= rows@.take(i as int).push(rows@[i as int]));
            Seq::lemma_filter_push(rows@.take(i as int), rows@[i as int], pred);
        }
        let r: &ServeCategories = &rows[i];
        if test_level(tech, r.tech_categories, level) {
            out.push(r.clone());
            assert(out@ =~= rows@.take(i + 1).filter(pred).map_values(pick));
        }
        i += 1;
    }
    assert(rows@.take(rows.len() as int) =~= rows@);
    out
}

impl ServeCategories {
    /// The categories of service options under the technical categories of
    /// one level.
    pub fn get_categories_from_level(catalog: &Catalog, level: i16) -> (cats: Vec<ServeCategories>)
        ensures
            cats@ == serve_cats_of_level(catalog.serve_categories@, catalog.tech_categories@, level),
    {
        collect_serve_cats_of_level(&catalog.serve_categories, &catalog.tech_categories, level)
    }
}

/// The categories of service options.
pub struct ServeCategoriesPageResp {
    pub request_user: UserResp,
    pub serve_cats: Vec<ServeCategories>,
    pub view: i32,
    pub seconds: i32,
}

/// Why `serve_categories_page` refuses a request, if it does.
pub open spec fn serve_categories_page_error(
    c: Catalog,
    user_id: i32,
    desktop: bool,
    params: Option<&IsAjaxData>,
) -> Option<Error> {
    if no_page_stat(c.stat_pages@, 1) {
        Some(Error::NotFound(Missing::StatPage))
    } else if asker_error(c, user_id) is Some {
        asker_error(c, user_id)
    } else {
        None
    }
}

/// `resp` is what `serve_categories_page` answers to a request that it does not refuse.
pub open spec fn serve_categories_page_answer(
    resp: ServeCategoriesPageResp,
    c: Catalog,
    user_id: i32,
    desktop: bool,
    params: Option<&IsAjaxData>,
) -> bool {
    let stat = c.stat_pages@[stat_place(c.stat_pages@, 1)];
    let is_ajax = match params { Some(p) => positive_is_ajax_of(p.is_ajax), None => 0 };
    &&& is_request_user(resp.request_user, c, user_id, is_ajax, desktop)
    &&& resp.serve_cats@ == c.serve_categories@
    &&& resp.view == stat.view
    &&& resp.seconds == stat.seconds
}

/// The categories of service options, and the statistics of the page.
pub fn serve_categories_page(
    catalog: &Catalog,
    user_id: i32,
    desktop: bool,
    params: Option<&IsAjaxData>,
) -> (result: Result<ServeCategoriesPageResp, Error>)
    ensures
        match serve_categories_page_error(*catalog, user_id, desktop, params) {
            Some(e) => result == Err::<ServeCategoriesPageResp, Error>(e),
            None => result matches Ok(resp) && serve_categories_page_answer(
                resp,
                *catalog,
                user_id,
                desktop,
                params,
            ),
        },
{
    let stat: PageStatData = match get_stat_page(catalog, 111, 0) {
        Ok(v) => v,
        Err(e) => {
            return Err(e);
        },
    };
    let is_ajax: i16 = get_is_ajax(params);
    let actor: Actor = match actor_of(catalog, user_id) {
        Ok(actor) => actor,
        Err(e) => {
            return Err(e);
        },
    };
    let request_user: UserResp = match get_request_user(catalog, user_id, is_ajax, desktop) {
        Ok(user) => user,
        Err(e) => {
            return Err(e);
        },
    };
    let perm: i16 = actor.perm;
    Ok(
        ServeCategoriesPageResp {
            request_user,
            serve_cats: copy_rows(&catalog.serve_categories),
            view: stat.view,
            seconds: stat.seconds,
        },
    )
}

/// A service option with its category.
pub struct ServePageResp {
    pub request_user: UserResp,
    pub category: ServeCategories,
    pub object: Serve,
    pub view: i32,
    pub seconds: i32,
}

/// Why `get_serve_page` refuses a request, if it does.
pub open spec fn get_serve_page_error(
    c: Catalog,
    user_id: i32,
    desktop: bool,
    params: Option<&ServePageData>,
) -> Option<Error> {
    let p = params->0;
    let id = p.id->0;
    let object = c.serve@[place_of(c.serve@, id)];
    if params is None {
        Some(Error::ValidationFailed(Field::Params))
    } else if p.id is None || p.id->0 < 1 {
        Some(Error::ValidationFailed(Field::Id))
    } else if has_none_with(c.serve@, id) {
        Some(Error::NotFound(Missing::Serve))
    } else if has_none_with(c.serve_categories@, object.serve_categories) {
        Some(Error::NotFound(Missing::ServeCategory))
    } else if asker_error(c, user_id) is Some {
        asker_error(c, user_id)
    } else {
        None
    }
}

/// `resp` is what `get_serve_page` answers to a request that it does not refuse.
pub open spec fn get_serve_page_answer(
    resp: ServePageResp,
    c: Catalog,
    user_id: i32,
    desktop: bool,
    params: Option<&ServePageData>,
) -> bool {
    let p = params->0;
    let id = p.id->0;
    let object = c.serve@[place_of(c.serve@, id)];
    let category = c.serve_categories@[place_of(c.serve_categories@, object.serve_categories)];
    let is_ajax = positive_is_ajax_of(p.is_ajax);
    &&& is_request_user(resp.request_user, c, user_id, is_ajax, desktop)
    &&& resp.category == category
    &&& resp.object == object
    &&& resp.view == object.view
    &&& resp.seconds == object.seconds
}

/// The page of a service option: the option, its category, and how often
/// and how long the option was looked at.
pub fn get_serve_page(
    catalog: &Catalog,
    user_id: i32,
    desktop: bool,
    params: Option<&ServePageData>,
) -> (result: Result<ServePageResp, Error>)
    ensures
        match get_serve_page_error(*catalog, user_id, desktop, params) {
            Some(e) => result == Err::<ServePageResp, Error>(e),
            None => result matches Ok(resp) && get_serve_page_answer(
                resp,
                *catalog,
                user_id,
                desktop,
                params,
            ),
        },
{
    let p: &ServePageData = match params {
        Some(p) => p,
        None => {
            return Err(Error::ValidationFailed(Field::Params));
        },
    };
    let id: i32 = match p.id {
        Some(v) if v >= 1 => v,
        _ => {
            return Err(Error::ValidationFailed(Field::Id));
        },
    };
    let object_at: usize = match locate(&catalog.serve, id) {
        Some(at) => at,
        None => {
            return Err(Error::NotFound(Missing::Serve));
        },
    };
    let object = &catalog.serve[object_at];
    let category_at: usize = match locate(&catalog.serve_categories, object.serve_categories) {
        Some(at) => at,
        None => {
            return Err(Error::NotFound(Missing::ServeCategory));
        },
    };
    let category = &catalog.serve_categories[category_at];
    let is_ajax: i16 = positive_is_ajax(p.is_ajax);
    let actor: Actor = match actor_of(catalog, user_id) {
        Ok(actor) => actor,
        Err(e) => {
            return Err(e);
        },
    };
    let request_user: UserResp = match get_request_user(catalog, user_id, is_ajax, desktop) {
        Ok(user) => user,
        Err(e) => {
            return Err(e);
        },
    };
    let perm: i16 = actor.perm;
    Ok(
        ServePageResp {
            request_user,
            category: category.clone(),
            object: object.clone(),
            view: object.view,
            seconds: object.seconds,
        },
    )
}

/// All technical categories, for the form of a technical category.
pub struct CreateTechCategoriesResp {
    pub request_user: UserResp,
    pub tech_cats: Vec<TechCategories>,
}

/// Why `create_tech_categories_page` refuses a request, if it does.
pub open spec fn create_tech_categories_page_error(
    c: Catalog,
    user_id: i32,
    desktop: bool,
    params: Option<&IsAjaxData>,
) -> Option<Error> {
    if asker_error(c, user_id) is Some {
        asker_error(c, user_id)
    } else if asker_of(user_id) < 1 {
        Some(Error::PermissionDenied(Denial::Forbidden))
    } else {
        None
    }
}

/// `resp` is what `create_tech_categories_page` answers to a request that it does not refuse.
pub open spec fn create_tech_categories_page_answer(
    resp: CreateTechCategoriesResp,
    c: Catalog,
    user_id: i32,
    desktop: bool,
    params: Option<&IsAjaxData>,
) -> bool {
    let is_ajax = match params { Some(p) => positive_is_ajax_of(p.is_ajax), None => 0 };
    &&& is_request_user(resp.request_user, c, user_id, is_ajax, desktop)
    &&& resp.tech_cats@ == c.tech_categories@
}

/// The page on which a technical category is created, for users who are
/// signed in.
pub fn create_tech_categories_page(
    catalog: &Catalog,
    user_id: i32,
    desktop: bool,
    params: Option<&IsAjaxData>,
) -> (result: Result<CreateTechCategoriesResp, Error>)
    ensures
        match create_tech_categories_page_error(*catalog, user_id, desktop, params) {
            Some(e) => result == Err::<CreateTechCategoriesResp, Error>(e),
            None => result matches Ok(resp) && create_tech_categories_page_answer(
                resp,
                *catalog,
                user_id,
                desktop,
                params,
            ),
        },
{
    let is_ajax: i16 = get_is_ajax(params);
    let actor: Actor = match actor_of(catalog, user_id) {
        Ok(actor) => actor,
        Err(e) => {
            return Err(e);
        },
    };
    let request_user: UserResp = match get_request_user(catalog, user_id, is_ajax, desktop) {
        Ok(user) => user,
        Err(e) => {
            return Err(e);
        },
    };
    let perm: i16 = actor.perm;
    if actor.id < 1 {
        return Err(Error::PermissionDenied(Denial::Forbidden));
    }
    Ok(
        CreateTechCategoriesResp {
            request_user,
            tech_cats: copy_rows(&catalog.tech_categories),
        },
    )
}

/// All technical categories, for the form of a category of service options.
pub struct CreateServeCategoriesResp {
    pub request_user: UserResp,
    pub tech_cats: Vec<TechCategories>,
}

/// Why `create_serve_categories_page` refuses a request, if it does.
pub open spec fn create_serve_categories_page_error(
    c: Catalog,
    user_id: i32,
    desktop: bool,
    params: Option<&IsAjaxData>,
) -> Option<Error> {
    if asker_error(c, user_id) is Some {
        asker_error(c, user_id)
    } else if asker_of(user_id) < 1 {
        Some(Error::PermissionDenied(Denial::Forbidden))
    } else {
        None
    }
}

/// `resp` is what `create_serve_categories_page` answers to a request that it does not refuse.
pub open spec fn create_serve_categories_page_answer(
    resp: CreateServeCategoriesResp,
    c: Catalog,
    user_id: i32,
    desktop: bool,
    params: Option<&IsAjaxData>,
) -> bool {
    let is_ajax = match params { Some(p) => positive_is_ajax_of(p.is_ajax), None => 0 };
    &&& is_request_user(resp.request_user, c, user_id, is_ajax, desktop)
    &&& resp.tech_cats@ == c.tech_categories@
}

/// The page on which a category of service options is created, for users
/// who are signed in.
pub fn create_serve_categories_page(
    catalog: &Catalog,
    user_id: i32,
    desktop: bool,
    params: Option<&IsAjaxData>,
) -> (result: Result<CreateServeCategoriesResp, Error>)
    ensures
        match create_serve_categories_page_error(*catalog, user_id, desktop, params) {
            Some(e) => result == Err::<CreateServeCategoriesResp, Error>(e),
            None => result matches Ok(resp) && create_serve_categories_page_answer(
                resp,
                *catalog,
                user_id,
                desktop,
                params,
            ),
        },
{
    let is_ajax: i16 = get_is_ajax(params);
    let actor: Actor = match actor_of(catalog, user_id) {
        Ok(actor) => actor,
        Err(e) => {
            return Err(e);
        },
    };
    let request_user: UserResp = match get_request_user(catalog, user_id, is_ajax, desktop) {
        Ok(user) => user,
        Err(e) => {
            return Err(e);
        },
    };
    let perm: i16 = actor.perm;
    if actor.id < 1 {
        return Err(Error::PermissionDenied(Denial::Forbidden));
    }
    Ok(
        CreateServeCategoriesResp {
            request_user,
            tech_cats: copy_rows(&catalog.tech_categories),
        },
    )
}

/// All technical categories, for the form of a service option.
pub struct CreateServeCategoryResp {
    pub request_user: UserResp,
    pub tech_cats: Vec<TechCategories>,
}

/// Why `create_serve_page` refuses a request, if it does.
pub open spec fn create_serve_page_error(
    c: Catalog,
    user_id: i32,
    desktop: bool,
    params: Option<&IsAjaxData>,
) -> Option<Error> {
    if asker_error(c, user_id) is Some {
        asker_error(c, user_id)
    } else if asker_of(user_id) < 1 {
        Some(Error::PermissionDenied(Denial::Forbidden))
    } else {
        None
    }
}

/// `resp` is what `create_serve_page` answers to a request that it does not refuse.
pub open spec fn create_serve_page_answer(
    resp: CreateServeCategoryResp,
    c: Catalog,
    user_id: i32,
    desktop: bool,
    params: Option<&IsAjaxData>,
) -> bool {
    let is_ajax = match params { Some(p) => positive_is_ajax_of(p.is_ajax), None => 0 };
    &&& is_request_user(resp.request_user, c, user_id, is_ajax, desktop)
    &&& resp.tech_cats@ == c.tech_categories@
}

/// The page on which a service option is created, for users who are signed
/// in.
pub fn create_serve_page(
    catalog: &Catalog,
    user_id: i32,
    desktop: bool,
    params: Option<&IsAjaxData>,
) -> (result: Result<CreateServeCategoryResp, Error>)
    ensures
        match create_serve_page_error(*catalog, user_id, desktop, params) {
            Some(e) => result == Err::<CreateServeCategoryResp, Error>(e),
            None => result matches Ok(resp) && create_serve_page_answer(
                resp,
                *catalog,
                user_id,
                desktop,
                params,
            ),
        },
{
    let is_ajax: i16 = get_is_ajax(params);
    let actor: Actor = match actor_of(catalog, user_id) {
        Ok(actor) => actor,
        Err(e) => {
            return Err(e);
        },
    };
    let request_user: UserResp = match get_request_user(catalog, user_id, is_ajax, desktop) {
        Ok(user) => user,
        Err(e) => {
            return Err(e);
        },
    };
    let perm: i16 = actor.perm;
    if actor.id < 1 {
        return Err(Error::PermissionDenied(Denial::Forbidden));
    }
    Ok(
        CreateServeCategoryResp {
            request_user,
            tech_cats: copy_rows(&catalog.tech_categories),
        },
    )
}

/// Categories of service options.
pub struct LoadServeCategoriesResp {
    pub serve_cats: Vec<ServeCategories>,
}

/// Why `load_serve_categories_from_level` refuses a request, if it does.
pub open spec fn load_serve_categories_from_level_error(
    c: Catalog,
    user_id: i32,
    desktop: bool,
    params: Option<&LoadCategoriesData>,
) -> Option<Error> {
    let p = params->0;
    let level = p.level->0;
    if params is None {
        Some(Error::ValidationFailed(Field::Params))
    } else if p.level is None || p.level->0 < 1 {
        Some(Error::ValidationFailed(Field::Level))
    } else {
        None
    }
}

/// `resp` is what `load_serve_categories_from_level` answers to a request that it does not refuse.
pub open spec fn load_serve_categories_from_level_answer(
    resp: LoadServeCategoriesResp,
    c: Catalog,
    user_id: i32,
    desktop: bool,
    params: Option<&LoadCategoriesData>,
) -> bool {
    let p = params->0;
    let level = p.level->0;
    &&& resp.serve_cats@ == serve_cats_of_level(c.serve_categories@, c.tech_categories@, level)
}

/// The categories of service options under the technical categories of one
/// level.
pub fn load_serve_categories_from_level(
    catalog: &Catalog,
    user_id: i32,
    desktop: bool,
    params: Option<&LoadCategoriesData>,
) -> (result: Result<LoadServeCategoriesResp, Error>)
    ensures
        match load_serve_categories_from_level_error(*catalog, user_id, desktop, params) {
            Some(e) => result == Err::<LoadServeCategoriesResp, Error>(e),
            None => result matches Ok(resp) && load_serve_categories_from_level_answer(
                resp,
                *catalog,
                user_id,
                desktop,
                params,
            ),
        },
{
    let p: &LoadCategoriesData = match params {
        Some(p) => p,
        None => {
            return Err(Error::ValidationFailed(Field::Params));
        },
    };
    let level: i16 = match p.level {
        Some(v) if v >= 1 => v,
        _ => {
            return Err(Error::ValidationFailed(Field::Level));
        },
    };
    Ok(
        LoadServeCategoriesResp {
            serve_cats: ServeCategories::get_categories_from_level(catalog, level),
        },
    )
}

/// Technical categories.
pub struct LoadFormCategoriesResp {
    pub tech_cats: Vec<TechCategories>,
}

/// Why `load_form_from_level` refuses a request, if it does.
pub open spec fn load_form_from_level_error(
    c: Catalog,
    user_id: i32,
    desktop: bool,
    params: Option<&LoadCategoriesData>,
) -> Option<Error> {
    let p = params->0;
    let level = p.level->0;
    if params is None {
        Some(Error::ValidationFailed(Field::Params))
    } else if p.level is None || p.level->0 < 1 {
        Some(Error::ValidationFailed(Field::Level))
    } else {
        None
    }
}

/// `resp` is what `load_form_from_level` answers to a request that it does not refuse.
pub open spec fn load_form_from_level_answer(
    resp: LoadFormCategoriesResp,
    c: Catalog,
    user_id: i32,
    desktop: bool,
    params: Option<&LoadCategoriesData>,
) -> bool {
    let p = params->0;
    let level = p.level->0;
    let rows = tech_of_level(c.tech_categories@, level);
    &&& resp.tech_cats@ == in_rank_order(rows, position_desc_ranks(rows))
}

/// The technical categories of one level, highest position first.
pub fn load_form_from_level(
    catalog: &Catalog,
    user_id: i32,
    desktop: bool,
    params: Option<&LoadCategoriesData>,
) -> (result: Result<LoadFormCategoriesResp, Error>)
    ensures
        match load_form_from_level_error(*catalog, user_id, desktop, params) {
            Some(e) => result == Err::<LoadFormCategoriesResp, Error>(e),
            None => result matches Ok(resp) && load_form_from_level_answer(
                resp,
                *catalog,
                user_id,
                desktop,
                params,
            ),
        },
{
    let p: &LoadCategoriesData = match params {
        Some(p) => p,
        None => {
            return Err(Error::ValidationFailed(Field::Params));
        },
    };
    let level: i16 = match p.level {
        Some(v) if v >= 1 => v,
        _ => {
            return Err(Error::ValidationFailed(Field::Level));
        },
    };
    let rows: Vec<TechCategories> = collect_tech_of_level(&catalog.tech_categories, level);
    let ranks: Vec<i64> = ranks_by_position_desc(&rows);
    Ok(
        LoadFormCategoriesResp {
            tech_cats: rows_in_rank_order(&rows, &ranks),
        },
    )
}

/// A technical category and all technical categories.
pub struct EditTechCategoryResp {
    pub request_user: UserResp,
    pub category: TechCategories,
    pub tech_cats: Vec<TechCategories>,
}

/// Why `edit_tech_category_page` refuses a request, if it does.
pub open spec fn edit_tech_category_page_error(
    c: Catalog,
    user_id: i32,
    desktop: bool,
    params: Option<&EditItemData>,
) -> Option<Error> {
    let p = params->0;
    let id = p.id->0;
    let perm = perm_of(c, user_id);
    let category = c.tech_categories@[place_of(c.tech_categories@, id)];
    if params is None {
        Some(Error::ValidationFailed(Field::Params))
    } else if p.id is None || p.id->0 < 1 {
        Some(Error::ValidationFailed(Field::Id))
    } else if asker_error(c, user_id) is Some {
        asker_error(c, user_id)
    } else if has_none_with(c.tech_categories@, id) {
        Some(Error::NotFound(Missing::TechCategory))
    } else if category.user_id != asker_of(user_id) && perm < 60 {
        Some(Error::PermissionDenied(Denial::Forbidden))
    } else {
        None
    }
}

/// `resp` is what `edit_tech_category_page` answers to a request that it does not refuse.
pub open spec fn edit_tech_category_page_answer(
    resp: EditTechCategoryResp,
    c: Catalog,
    user_id: i32,
    desktop: bool,
    params: Option<&EditItemData>,
) -> bool {
    let p = params->0;
    let id = p.id->0;
    let is_ajax = positive_is_ajax_of(p.is_ajax);
    let category = c.tech_categories@[place_of(c.tech_categories@, id)];
    &&& is_request_user(resp.request_user, c, user_id, is_ajax, desktop)
    &&& resp.category == category
    &&& resp.tech_cats@ == c.tech_categories@
}

/// The page on which a technical category is edited, for its owner and for
/// administrators.
pub fn edit_tech_category_page(
    catalog: &Catalog,
    user_id: i32,
    desktop: bool,
    params: Option<&EditItemData>,
) -> (result: Result<EditTechCategoryResp, Error>)
    ensures
        match edit_tech_category_page_error(*catalog, user_id, desktop, params) {
            Some(e) => result == Err::<EditTechCategoryResp, Error>(e),
            None => result matches Ok(resp) && edit_tech_category_page_answer(
                resp,
                *catalog,
                user_id,
                desktop,
                params,
            ),
        },
{
    let p: &EditItemData = match params {
        Some(p) => p,
        None => {
            return Err(Error::ValidationFailed(Field::Params));
        },
    };
    let id: i32 = match p.id {
        Some(v) if v >= 1 => v,
        _ => {
            return Err(Error::ValidationFailed(Field::Id));
        },
    };
    let is_ajax: i16 = positive_is_ajax(p.is_ajax);
    let actor: Actor = match actor_of(catalog, user_id) {
        Ok(actor) => actor,
        Err(e) => {
            return Err(e);
        },
    };
    let request_user: UserResp = match get_request_user(catalog, user_id, is_ajax, desktop) {
        Ok(user) => user,
        Err(e) => {
            return Err(e);
        },
    };
    let perm: i16 = actor.perm;
    let category_at: usize = match locate(&catalog.tech_categories, id) {
        Some(at) => at,
        None => {
            return Err(Error::NotFound(Missing::TechCategory));
        },
    };
    let category = &catalog.tech_categories[category_at];
    if category.user_id != actor.id && perm < 60 {
        return Err(Error::PermissionDenied(Denial::Forbidden));
    }
    Ok(
        EditTechCategoryResp {
            request_user,
            category: category.clone(),
            tech_cats: copy_rows(&catalog.tech_categories),
        },
    )
}

/// A category of service options and all technical categories.
pub struct EditServeCategoryResp {
    pub request_user: UserResp,
    pub category: ServeCategories,
    pub tech_cats: Vec<TechCategories>,
}

/// Why `edit_serve_category_page` refuses a request, if it does.
pub open spec fn edit_serve_category_page_error(
    c: Catalog,
    user_id: i32,
    desktop: bool,
    params: Option<&EditItemData>,
) -> Option<Error> {
    let p = params->0;
    let id = p.id->0;
    let perm = perm_of(c, user_id);
    let category = c.serve_categories@[place_of(c.serve_categories@, id)];
    if params is None {
        Some(Error::ValidationFailed(Field::Params))
    } else if p.id is None || p.id->0 < 1 {
        Some(Error::ValidationFailed(Field::Id))
    } else if asker_error(c, user_id) is Some {
        asker_error(c, user_id)
    } else if has_none_with(c.serve_categories@, id) {
        Some(Error::NotFound(Missing::ServeCategory))
    } else if category.user_id != asker_of(user_id) && perm < 60 {
        Some(Error::PermissionDenied(Denial::Forbidden))
    } else {
        None
    }
}

/// `resp` is what `edit_serve_category_page` answers to a request that it does not refuse.
pub open spec fn edit_serve_category_page_answer(
    resp: EditServeCategoryResp,
    c: Catalog,
    user_id: i32,
    desktop: bool,
    params: Option<&EditItemData>,
) -> bool {
    let p = params->0;
    let id = p.id->0;
    let is_ajax = positive_is_ajax_of(p.is_ajax);
    let category = c.serve_categories@[place_of(c.serve_categories@, id)];
    &&& is_request_user(resp.request_user, c, user_id, is_ajax, desktop)
    &&& resp.category == category
    &&& resp.tech_cats@ == c.tech_categories@
}

/// The page on which a category of service options is edited, for its owner
/// and for administrators.
pub fn edit_serve_category_page(
    catalog: &Catalog,
    user_id: i32,
    desktop: bool,
    params: Option<&EditItemData>,
) -> (result: Result<EditServeCategoryResp, Error>)
    ensures
        match edit_serve_category_page_error(*catalog, user_id, desktop, params) {
            Some(e) => result == Err::<EditServeCategoryResp, Error>(e),
            None => result matches Ok(resp) && edit_serve_category_page_answer(
                resp,
                *catalog,
                user_id,
                desktop,
                params,
            ),
        },
{
    let p: &EditItemData = match params {
        Some(p) => p,
        None => {
            return Err(Error::ValidationFailed(Field::Params));
        },
    };
    let id: i32 = match p.id {
        Some(v) if v >= 1 => v,
        _ => {
            return Err(Error::ValidationFailed(Field::Id));
        },
    };
    let is_ajax: i16 = positive_is_ajax(p.is_ajax);
    let actor: Actor = match actor_of(catalog, user_id) {
        Ok(actor) => actor,
        Err(e) => {
            return Err(e);
        },
    };
    let request_user: UserResp = match get_request_user(catalog, user_id, is_ajax, desktop) {
        Ok(user) => user,
        Err(e) => {
            return Err(e);
        },
    };
    let perm: i16 = actor.perm;
    let category_at: usize = match locate(&catalog.serve_categories, id) {
        Some(at) => at,
        None => {
            return Err(Error::NotFound(Missing::ServeCategory));
        },
    };
    let category = &catalog.serve_categories[category_at];
    if category.user_id != actor.id && perm < 60 {
        return Err(Error::PermissionDenied(Denial::Forbidden));
    }
    Ok(
        EditServeCategoryResp {
            request_user,
            category: category.clone(),
            tech_cats: copy_rows(&catalog.tech_categories),
        },
    )
}

/// A service option and the categories among which it can be moved.
pub struct EditServeResp {
    pub request_user: UserResp,
    pub object: Serve,
    pub serve_cats: Vec<ServeCategories>,
    pub level: i16,
}

/// Why `edit_serve_page` refuses a request, if it does.
pub open spec fn edit_serve_page_error(
    c: Catalog,
    user_id: i32,
    desktop: bool,
    params: Option<&EditItemData>,
) -> Option<Error> {
    let p = params->0;
    let id = p.id->0;
    let perm = perm_of(c, user_id);
    let object = c.serve@[place_of(c.serve@, id)];
    let category = c.serve_categories@[place_of(c.serve_categories@, object.serve_categories)];
    if params is None {
        Some(Error::ValidationFailed(Field::Params))
    } else if p.id is None || p.id->0 < 1 {
        Some(Error::ValidationFailed(Field::Id))
    } else if asker_error(c, user_id) is Some {
        asker_error(c, user_id)
    } else if has_none_with(c.serve@, id) {
        Some(Error::NotFound(Missing::Serve))
    } else if has_none_with(c.serve_categories@, object.serve_categories) {
        Some(Error::NotFound(Missing::ServeCategory))
    } else if has_none_with(c.tech_categories@, category.tech_categories) {
        Some(Error::NotFound(Missing::TechCategory))
    } else if object.user_id != asker_of(user_id) && perm < 60 {
        Some(Error::PermissionDenied(Denial::Forbidden))
    } else {
        None
    }
}

/// `resp` is what `edit_serve_page` answers to a request that it does not refuse.
pub open spec fn edit_serve_page_answer(
    resp: EditServeResp,
    c: Catalog,
    user_id: i32,
    desktop: bool,
    params: Option<&EditItemData>,
) -> bool {
    let p = params->0;
    let id = p.id->0;
    let is_ajax = positive_is_ajax_of(p.is_ajax);
    let object = c.serve@[place_of(c.serve@, id)];
    let category = c.serve_categories@[place_of(c.serve_categories@, object.serve_categories)];
    let tech = c.tech_categories@[place_of(c.tech_categories@, category.tech_categories)];
    &&& is_request_user(resp.request_user, c, user_id, is_ajax, desktop)
    &&& resp.object == object
    &&& resp.serve_cats@ == serve_cats_of_level(c.serve_categories@, c.tech_categories@, tech.level)
    &&& resp.level == tech.level
}

/// The page on which a service option is edited: the option, the level of
/// its technical category, and the categories of service options of that
/// level; for the owner of the option and for administrators.
pub fn edit_serve_page(
    catalog: &Catalog,
    user_id: i32,
    desktop: bool,
    params: Option<&EditItemData>,
) -> (result: Result<EditServeResp, Error>)
    ensures
        match edit_serve_page_error(*catalog, user_id, desktop, params) {
            Some(e) => result == Err::<EditServeResp, Error>(e),
            None => result matches Ok(resp) && edit_serve_page_answer(
                resp,
                *catalog,
                user_id,
                desktop,
                params,
            ),
        },
{
    let p: &EditItemData = match params {
        Some(p) => p,
        None => {
            return Err(Error::ValidationFailed(Field::Params));
        },
    };
    let id: i32 = match p.id {
        Some(v) if v >= 1 => v,
        _ => {
            return Err(Error::ValidationFailed(Field::Id));
        },
    };
    let is_ajax: i16 = positive_is_ajax(p.is_ajax);
    let actor: Actor = match actor_of(catalog, user_id) {
        Ok(actor) => actor,
        Err(e) => {
            return Err(e);
        },
    };
    let request_user: UserResp = match get_request_user(catalog, user_id, is_ajax, desktop) {
        Ok(user) => user,
        Err(e) => {
            return Err(e);
        },
    };
    let perm: i16 = actor.perm;
    let object_at: usize = match locate(&catalog.serve, id) {
        Some(at) => at,
        None => {
            return Err(Error::NotFound(Missing::Serve));
        },
    };
    let object = &catalog.serve[object_at];
    let category_at: usize = match locate(&catalog.serve_categories, object.serve_categories) {
        Some(at) => at,
        None => {
            return Err(Error::NotFound(Missing::ServeCategory));
        },
    };
    let category = &catalog.serve_categories[category_at];
    let tech_at: usize = match locate(&catalog.tech_categories, category.tech_categories) {
        Some(at) => at,
        None => {
            return Err(Error::NotFound(Missing::TechCategory));
        },
    };
    let tech = &catalog.tech_categories[tech_at];
    if object.user_id != actor.id && perm < 60 {
        return Err(Error::PermissionDenied(Denial::Forbidden));
    }
    Ok(
        EditServeResp {
            request_user,
            object: object.clone(),
            serve_cats: ServeCategories::get_categories_from_level(catalog, tech.level),
            level: tech.level,
        },
    )
}

} // verus!
