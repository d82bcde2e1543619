//! The pages of search.

use vstd::prelude::*;
use vstd::string::StrSliceExecFns;
use crate::catalog::{Catalog, Keyed};
use crate::errors::{Error, Field};
use crate::kinds::SortRule;
use crate::listing::{Projection, listing, shown, list_page};
use crate::models::{Item, Blog, Service, Store, Wiki, Work, Help};
use crate::paging::{window, page_rows, next_page_number};
use crate::requests::{
    UserResp, IsAjaxData, get_request_user, is_request_user, perm_of, asker_error, actor_of, Actor,
    get_is_ajax, positive_is_ajax_of, positive_is_ajax,
};
use crate::search::{search_ids, find_items};
use crate::shapes::kind_selection;
use crate::text::lowercase_chars;

verus! {

/// The query of a search.
pub struct SearchPageData {
    pub q: Option<String>,
    pub is_ajax: Option<i16>,
}

/// The query of a search among the items of one kind.
pub struct SearchItemsPageData {
    pub q: Option<String>,
    pub page: Option<i32>,
    pub is_ajax: Option<i16>,
}

/// What a search among the items of one kind asks for: the query (empty
/// where there is none), the page (one where there is none or it is below
/// two), and how partial the answer is to be.
pub fn get_q_page_is_ajax(params: Option<&SearchItemsPageData>) -> (asked: (String, i32, i16))
    ensures
        asked.0@ == match params {
            Some(p) => match p.q {
                Some(q) => q@,
                None => Seq::<char>::empty(),
            },
            None => Seq::<char>::empty(),
        },
        asked.1 == match params {
            Some(p) => match p.page {
                Some(n) => if n > 1 {
                    n
                } else {
                    1
                },
                None => 1,
            },
            None => 1,
        },
        asked.2 == match params {
            Some(p) => positive_is_ajax_of(p.is_ajax),
            None => 0,
        },
{
    match params {
        Some(p) => {
            let page: i32 = match p.page {
                Some(n) => if n > 1 {
                    n
                } else {
                    1
                },
                None => 1,
            };
            let is_ajax: i16 = match p.is_ajax {
                Some(n) => if n > 0 {
                    n
                } else {
                    0
                },
                None => 0,
            };
            let q: String = match &p.q {
                Some(q) => q.clone(),
                None => String::new(),
            };
            (q, page, is_ajax)
        },
        None => (String::new(), 1, 0),
    }
}

/// The page of a search without a query.
pub struct EmptySearchResp {
    pub request_user: UserResp,
}

/// Why `empty_search_page` refuses a request, if it does.
pub open spec fn empty_search_page_error(
    c: Catalog,
    user_id: i32,
    desktop: bool,
    params: Option<&IsAjaxData>,
) -> Option<Error> {
    if asker_error(c, user_id) is Some {
        asker_error(c, user_id)
    } else {
        None
    }
}

/// `resp` is what `empty_search_page` answers to a request that it does not refuse.
pub open spec fn empty_search_page_answer(
    resp: EmptySearchResp,
    c: Catalog,
    user_id: i32,
    desktop: bool,
    params: Option<&IsAjaxData>,
) -> bool {
    let is_ajax = match params { Some(p) => positive_is_ajax_of(p.is_ajax), None => 0 };
    &&& is_request_user(resp.request_user, c, user_id, is_ajax, desktop)
}

/// The page of a search that has not been asked yet.
pub fn empty_search_page(
    catalog: &Catalog,
    user_id: i32,
    desktop: bool,
    params: Option<&IsAjaxData>,
) -> (result: Result<EmptySearchResp, Error>)
    ensures
        match empty_search_page_error(*catalog, user_id, desktop, params) {
            Some(e) => result == Err::<EmptySearchResp, Error>(e),
            None => result matches Ok(resp) && empty_search_page_answer(
                resp,
                *catalog,
                user_id,
                desktop,
                params,
            ),
        },
{
    let is_ajax: i16 = get_is_ajax(params);
    let actor: Actor = match actor_of(catalog, user_id) {
        Ok(actor) => actor,
        Err(e) => {
            return Err(e);
        },
    };
    let request_user: UserResp = match get_request_user(catalog, user_id, is_ajax, desktop) {
        Ok(user) => user,
        Err(e) => {
            return Err(e);
        },
    };
    let perm: i16 = actor.perm;
    Ok(
        EmptySearchResp {
            request_user,
        },
    )
}

/// What a search in all kinds found.
pub struct SearchPageResp {
    pub request_user: UserResp,
    pub works_list: Vec<Work>,
    pub services_list: Vec<Service>,
    pub wikis_list: Vec<Wiki>,
    pub blogs_list: Vec<Blog>,
    pub stores_list: Vec<Store>,
    pub helps_list: Vec<Help>,
    pub works_count: usize,
    pub services_count: usize,
    pub wikis_count: usize,
    pub blogs_count: usize,
    pub stores_count: usize,
    pub helps_count: usize,
    pub is_ajax: i32,
    pub q: String,
}

/// Why `search_page` refuses a request, if it does.
pub open spec fn search_page_error(
    c: Catalog,
    user_id: i32,
    desktop: bool,
    params: Option<&SearchPageData>,
) -> Option<Error> {
    let p = params->0;
    let q = p.q->0;
    if params is None {
        Some(Error::ValidationFailed(Field::Params))
    } else if p.q is None {
        Some(Error::ValidationFailed(Field::Query))
    } else if asker_error(c, user_id) is Some {
        asker_error(c, user_id)
    } else {
        None
    }
}

/// `resp` is what `search_page` answers to a request that it does not refuse.
pub open spec fn search_page_answer(
    resp: SearchPageResp,
    c: Catalog,
    user_id: i32,
    desktop: bool,
    params: Option<&SearchPageData>,
) -> bool {
    let p = params->0;
    let q = p.q->0;
    let is_ajax = positive_is_ajax_of(p.is_ajax);
    let perm = perm_of(c, user_id);
    let admin = perm > 59;
    &&& is_request_user(resp.request_user, c, user_id, is_ajax, desktop)
    &&& resp.works_list@ == shown::<Work>(window(listing(c.items@, kind_selection(5, admin, Some(search_ids(c, q@, 5)))), 0, 3))
    &&& resp.services_list@ == shown::<Service>(window(listing(c.items@, kind_selection(2, admin, Some(search_ids(c, q@, 2)))), 0, 3))
    &&& resp.wikis_list@ == shown::<Wiki>(window(listing(c.items@, kind_selection(4, admin, Some(search_ids(c, q@, 4)))), 0, 3))
    &&& resp.blogs_list@ == shown::<Blog>(window(listing(c.items@, kind_selection(1, admin, Some(search_ids(c, q@, 1)))), 0, 3))
    &&& resp.stores_list@ == shown::<Store>(window(listing(c.items@, kind_selection(3, admin, Some(search_ids(c, q@, 3)))), 0, 3))
    &&& resp.helps_list@ == shown::<Help>(window(listing(c.items@, kind_selection(6, admin, Some(search_ids(c, q@, 6)))), 0, 3))
    &&& resp.works_count == search_ids(c, q@, 5).len()
    &&& resp.services_count == search_ids(c, q@, 2).len()
    &&& resp.wikis_count == search_ids(c, q@, 4).len()
    &&& resp.blogs_count == search_ids(c, q@, 1).len()
    &&& resp.stores_count == search_ids(c, q@, 3).len()
    &&& resp.helps_count == search_ids(c, q@, 6).len()
    &&& resp.is_ajax == is_ajax
    &&& resp.q == q
}

/// A search in all kinds: for each kind the three first items found, and how
/// many items of the kind were found.
pub fn search_page(
    catalog: &Catalog,
    user_id: i32,
    desktop: bool,
    params: Option<&SearchPageData>,
) -> (result: Result<SearchPageResp, Error>)
    ensures
        match search_page_error(*catalog, user_id, desktop, params) {
            Some(e) => result == Err::<SearchPageResp, Error>(e),
            None => result matches Ok(resp) && search_page_answer(
                resp,
                *catalog,
                user_id,
                desktop,
                params,
            ),
        },
{
    let p: &SearchPageData = match params {
        Some(p) => p,
        None => {
            return Err(Error::ValidationFailed(Field::Params));
        },
    };
    let q: &String = match &p.q {
        Some(v) => v,
        None => {
            return Err(Error::ValidationFailed(Field::Query));
        },
    };
    let is_ajax: i16 = positive_is_ajax(p.is_ajax);
    let actor: Actor = match actor_of(catalog, user_id) {
        Ok(actor) => actor,
        Err(e) => {
            return Err(e);
        },
    };
    let request_user: UserResp = match get_request_user(catalog, user_id, is_ajax, desktop) {
        Ok(user) => user,
        Err(e) => {
            return Err(e);
        },
    };
    let perm: i16 = actor.perm;
    let admin: bool = perm > 59;
    let blogs: (Vec<Blog>, usize) = Item::search_blogs(catalog, q, 3, 0, admin);
    let services: (Vec<Service>, usize) = Item::search_services(catalog, q, 3, 0, admin);
    let stores: (Vec<Store>, usize) = Item::search_stores(catalog, q, 3, 0, admin);
    let wikis: (Vec<Wiki>, usize) = Item::search_wikis(catalog, q, 3, 0, admin);
    let works: (Vec<Work>, usize) = Item::search_works(catalog, q, 3, 0, admin);
    let helps: (Vec<Help>, usize) = Item::search_helps(catalog, q, 3, 0, admin);
    Ok(
        SearchPageResp {
            request_user,
            works_list: works.0,
            services_list: services.0,
            wikis_list: wikis.0,
            blogs_list: blogs.0,
            stores_list: stores.0,
            helps_list: helps.0,
            works_count: works.1,
            services_count: services.1,
            wikis_count: wikis.1,
            blogs_count: blogs.1,
            stores_count: stores.1,
            helps_count: helps.1,
            is_ajax: is_ajax as i32,
            q: q.clone(),
        },
    )
}

/// One page of the blogs that a search found.
pub struct SearchBlogsResp {
    pub request_user: UserResp,
    pub blogs_list: Vec<Blog>,
    pub blogs_count: usize,
    pub q: String,
    pub next_page_number: i32,
}

/// `resp` is what a search for `q` among the blogs answers on page `page`.
/// An empty query finds nothing.
pub open spec fn search_blogs_page_answer(
    resp: SearchBlogsResp,
    c: Catalog,
    user_id: i32,
    desktop: bool,
    q: Seq<char>,
    page: i32,
    is_ajax: i16,
) -> bool {
    let found = listing(
        c.items@,
        kind_selection(1, perm_of(c, user_id) > 59, Some(search_ids(c, q, 1))),
    );
    &&& is_request_user(resp.request_user, c, user_id, is_ajax, desktop)
    &&& resp.q@ == q
    &&& if q.len() == 0 {
        &&& resp.blogs_list@.len() == 0
        &&& resp.blogs_count == 0
        &&& resp.next_page_number == 0
    } else {
        &&& resp.blogs_list@ == shown::<Blog>(page_rows(found, page as int, 20))
        &&& resp.blogs_count == search_ids(c, q, 1).len()
        &&& resp.next_page_number == next_page_number(found, page as int, 20)
    }
}

/// Searches the blogs for a query and answers one page of what was found.
pub fn search_blogs_page(
    catalog: &Catalog,
    user_id: i32,
    desktop: bool,
    params: Option<&SearchItemsPageData>,
) -> (result: Result<SearchBlogsResp, Error>)
    ensures
        ({
            let q = match params {
                Some(p) => match p.q {
                    Some(q) => q@,
                    None => Seq::<char>::empty(),
                },
                None => Seq::<char>::empty(),
            };
            let page = match params {
                Some(p) => match p.page {
                    Some(n) => if n > 1 {
                        n
                    } else {
                        1
                    },
                    None => 1,
                },
                None => 1,
            };
            let is_ajax = match params {
                Some(p) => positive_is_ajax_of(p.is_ajax),
                None => 0,
            };
            if asker_error(*catalog, user_id) is Some {
                result matches Err(e) && Some(e) == asker_error(*catalog, user_id)
            } else if q.len() > 0 && page == i32::MAX {
                result matches Err(e) && e == Error::ValidationFailed(Field::Params)
            } else {
                result matches Ok(resp) && search_blogs_page_answer(
                    resp,
                    *catalog,
                    user_id,
                    desktop,
                    q,
                    page,
                    is_ajax,
                )
            }
        }),
{
    let (q, page, is_ajax) = get_q_page_is_ajax(params);
    let actor: Actor = match actor_of(catalog, user_id) {
        Ok(actor) => actor,
        Err(e) => {
            return Err(e);
        },
    };
    let request_user: UserResp = match get_request_user(catalog, user_id, is_ajax, desktop) {
        Ok(user) => user,
        Err(e) => {
            return Err(e);
        },
    };
    if q.as_str().unicode_len() == 0 {
        return Ok(
            SearchBlogsResp {
                request_user,
                blogs_list: Vec::new(),
                blogs_count: 0,
                q,
                next_page_number: 0,
            },
        );
    }
    if page == i32::MAX {
        return Err(Error::ValidationFailed(Field::Params));
    }
    let needle: Vec<char> = lowercase_chars(q.as_str());
    let ids: Vec<i32> = find_items(&catalog.item_contents, &needle, 1);
    let found: (Vec<Blog>, i32) = list_page::<Blog>(
        &catalog.items,
        1,
        actor.perm > 59,
        Some(&ids),
        SortRule::CreatedDesc,
        page,
        20,
    );
    Ok(
        SearchBlogsResp {
            request_user,
            blogs_list: found.0,
            blogs_count: ids.len(),
            q,
            next_page_number: found.1,
        },
    )
}

/// One page of the services that a search found.
pub struct SearchServicesResp {
    pub request_user: UserResp,
    pub services_list: Vec<Service>,
    pub services_count: usize,
    pub q: String,
    pub next_page_number: i32,
}

/// `resp` is what a search for `q` among the services answers on page `page`.
/// An empty query finds nothing.
pub open spec fn search_services_page_answer(
    resp: SearchServicesResp,
    c: Catalog,
    user_id: i32,
    desktop: bool,
    q: Seq<char>,
    page: i32,
    is_ajax: i16,
) -> bool {
    let found = listing(
        c.items@,
        kind_selection(2, perm_of(c, user_id) > 59, Some(search_ids(c, q, 2))),
    );
    &&& is_request_user(resp.request_user, c, user_id, is_ajax, desktop)
    &&& resp.q@ == q
    &&& if q.len() == 0 {
        &&& resp.services_list@.len() == 0
        &&& resp.services_count == 0
        &&& resp.next_page_number == 0
    } else {
        &&& resp.services_list@ == shown::<Service>(page_rows(found, page as int, 20))
        &&& resp.services_count == search_ids(c, q, 2).len()
        &&& resp.next_page_number == next_page_number(found, page as int, 20)
    }
}

/// Searches the services for a query and answers one page of what was found.
pub fn search_services_page(
    catalog: &Catalog,
    user_id: i32,
    desktop: bool,
    params: Option<&SearchItemsPageData>,
) -> (result: Result<SearchServicesResp, Error>)
    ensures
        ({
            let q = match params {
                Some(p) => match p.q {
                    Some(q) => q@,
                    None => Seq::<char>::empty(),
                },
                None => Seq::<char>::empty(),
            };
            let page = match params {
                Some(p) => match p.page {
                    Some(n) => if n > 1 {
                        n
                    } else {
                        1
                    },
                    None => 1,
                },
                None => 1,
            };
            let is_ajax = match params {
                Some(p) => positive_is_ajax_of(p.is_ajax),
                None => 0,
            };
            if asker_error(*catalog, user_id) is Some {
                result matches Err(e) && Some(e) == asker_error(*catalog, user_id)
            } else if q.len() > 0 && page == i32::MAX {
                result matches Err(e) && e == Error::ValidationFailed(Field::Params)
            } else {
                result matches Ok(resp) && search_services_page_answer(
                    resp,
                    *catalog,
                    user_id,
                    desktop,
                    q,
                    page,
                    is_ajax,
                )
            }
        }),
{
    let (q, page, is_ajax) = get_q_page_is_ajax(params);
    let actor: Actor = match actor_of(catalog, user_id) {
        Ok(actor) => actor,
        Err(e) => {
            return Err(e);
        },
    };
    let request_user: UserResp = match get_request_user(catalog, user_id, is_ajax, desktop) {
        Ok(user) => user,
        Err(e) => {
            return Err(e);
        },
    };
    if q.as_str().unicode_len() == 0 {
        return Ok(
            SearchServicesResp {
                request_user,
                services_list: Vec::new(),
                services_count: 0,
                q,
                next_page_number: 0,
            },
        );
    }
    if page == i32::MAX {
        return Err(Error::ValidationFailed(Field::Params));
    }
    let needle: Vec<char> = lowercase_chars(q.as_str());
    let ids: Vec<i32> = find_items(&catalog.item_contents, &needle, 2);
    let found: (Vec<Service>, i32) = list_page::<Service>(
        &catalog.items,
        2,
        actor.perm > 59,
        Some(&ids),
        SortRule::CreatedDesc,
        page,
        20,
    );
    Ok(
        SearchServicesResp {
            request_user,
            services_list: found.0,
            services_count: ids.len(),
            q,
            next_page_number: found.1,
        },
    )
}

/// One page of the stores that a search found.
pub struct SearchStoresResp {
    pub request_user: UserResp,
    pub stores_list: Vec<Store>,
    pub stores_count: usize,
    pub q: String,
    pub next_page_number: i32,
}

/// `resp` is what a search for `q` among the stores answers on page `page`.
/// An empty query finds nothing.
pub open spec fn search_stores_page_answer(
    resp: SearchStoresResp,
    c: Catalog,
    user_id: i32,
    desktop: bool,
    q: Seq<char>,
    page: i32,
    is_ajax: i16,
) -> bool {
    let found = listing(
        c.items@,
        kind_selection(3, perm_of(c, user_id) > 59, Some(search_ids(c, q, 3))),
    );
    &&& is_request_user(resp.request_user, c, user_id, is_ajax, desktop)
    &&& resp.q@ == q
    &&& if q.len() == 0 {
        &&& resp.stores_list@.len() == 0
        &&& resp.stores_count == 0
        &&& resp.next_page_number == 0
    } else {
        &&& resp.stores_list@ == shown::<Store>(page_rows(found, page as int, 20))
        &&& resp.stores_count == search_ids(c, q, 3).len()
        &&& resp.next_page_number == next_page_number(found, page as int, 20)
    }
}

/// Searches the stores for a query and answers one page of what was found.
pub fn search_stores_page(
    catalog: &Catalog,
    user_id: i32,
    desktop: bool,
    params: Option<&SearchItemsPageData>,
) -> (result: Result<SearchStoresResp, Error>)
    ensures
        ({
            let q = match params {
                Some(p) => match p.q {
                    Some(q) => q@,
                    None => Seq::<char>::empty(),
                },
                None => Seq::<char>::empty(),
            };
            let page = match params {
                Some(p) => match p.page {
                    Some(n) => if n > 1 {
                        n
                    } else {
                        1
                    },
                    None => 1,
                },
                None => 1,
            };
            let is_ajax = match params {
                Some(p) => positive_is_ajax_of(p.is_ajax),
                None => 0,
            };
            if asker_error(*catalog, user_id) is Some {
                result matches Err(e) && Some(e) == asker_error(*catalog, user_id)
            } else if q.len() > 0 && page == i32::MAX {
                result matches Err(e) && e == Error::ValidationFailed(Field::Params)
            } else {
                result matches Ok(resp) && search_stores_page_answer(
                    resp,
                    *catalog,
                    user_id,
                    desktop,
                    q,
                    page,
                    is_ajax,
                )
            }
        }),
{
    let (q, page, is_ajax) = get_q_page_is_ajax(params);
    let actor: Actor = match actor_of(catalog, user_id) {
        Ok(actor) => actor,
        Err(e) => {
            return Err(e);
        },
    };
    let request_user: UserResp = match get_request_user(catalog, user_id, is_ajax, desktop) {
        Ok(user) => user,
        Err(e) => {
            return Err(e);
        },
    };
    if q.as_str().unicode_len() == 0 {
        return Ok(
            SearchStoresResp {
                request_user,
                stores_list: Vec::new(),
                stores_count: 0,
                q,
                next_page_number: 0,
            },
        );
    }
    if page == i32::MAX {
        return Err(Error::ValidationFailed(Field::Params));
    }
    let needle: Vec<char> = lowercase_chars(q.as_str());
    let ids: Vec<i32> = find_items(&catalog.item_contents, &needle, 3);
    let found: (Vec<Store>, i32) = list_page::<Store>(
        &catalog.items,
        3,
        actor.perm > 59,
        Some(&ids),
        SortRule::CreatedDesc,
        page,
        20,
    );
    Ok(
        SearchStoresResp {
            request_user,
            stores_list: found.0,
            stores_count: ids.len(),
            q,
            next_page_number: found.1,
        },
    )
}

/// One page of the wikis that a search found.
pub struct SearchWikisResp {
    pub request_user: UserResp,
    pub wikis_list: Vec<Wiki>,
    pub wikis_count: usize,
    pub q: String,
    pub next_page_number: i32,
}

/// `resp` is what a search for `q` among the wikis answers on page `page`.
/// An empty query finds nothing.
pub open spec fn search_wikis_page_answer(
    resp: SearchWikisResp,
    c: Catalog,
    user_id: i32,
    desktop: bool,
    q: Seq<char>,
    page: i32,
    is_ajax: i16,
) -> bool {
    let found = listing(
        c.items@,
        kind_selection(4, perm_of(c, user_id) > 59, Some(search_ids(c, q, 4))),
    );
    &&& is_request_user(resp.request_user, c, user_id, is_ajax, desktop)
    &&& resp.q@ == q
    &&& if q.len() == 0 {
        &&& resp.wikis_list@.len() == 0
        &&& resp.wikis_count == 0
        &&& resp.next_page_number == 0
    } else {
        &&& resp.wikis_list@ == shown::<Wiki>(page_rows(found, page as int, 20))
        &&& resp.wikis_count == search_ids(c, q, 4).len()
        &&& resp.next_page_number == next_page_number(found, page as int, 20)
    }
}

/// Searches the wikis for a query and answers one page of what was found.
pub fn search_wikis_page(
    catalog: &Catalog,
    user_id: i32,
    desktop: bool,
    params: Option<&SearchItemsPageData>,
) -> (result: Result<SearchWikisResp, Error>)
    ensures
        ({
            let q = match params {
                Some(p) => match p.q {
                    Some(q) => q@,
                    None => Seq::<char>::empty(),
                },
                None => Seq::<char>::empty(),
            };
            let page = match params {
                Some(p) => match p.page {
                    Some(n) => if n > 1 {
                        n
                    } else {
                        1
                    },
                    None => 1,
                },
                None => 1,
            };
            let is_ajax = match params {
                Some(p) => positive_is_ajax_of(p.is_ajax),
                None => 0,
            };
            if asker_error(*catalog, user_id) is Some {
                result matches Err(e) && Some(e) == asker_error(*catalog, user_id)
            } else if q.len() > 0 && page == i32::MAX {
                result matches Err(e) && e == Error::ValidationFailed(Field::Params)
            } else {
                result matches Ok(resp) && search_wikis_page_answer(
                    resp,
                    *catalog,
                    user_id,
                    desktop,
                    q,
                    page,
                    is_ajax,
                )
            }
        }),
{
    let (q, page, is_ajax) = get_q_page_is_ajax(params);
    let actor: Actor = match actor_of(catalog, user_id) {
        Ok(actor) => actor,
        Err(e) => {
            return Err(e);
        },
    };
    let request_user: UserResp = match get_request_user(catalog, user_id, is_ajax, desktop) {
        Ok(user) => user,
        Err(e) => {
            return Err(e);
        },
    };
    if q.as_str().unicode_len() == 0 {
        return Ok(
            SearchWikisResp {
                request_user,
                wikis_list: Vec::new(),
                wikis_count: 0,
                q,
                next_page_number: 0,
            },
        );
    }
    if page == i32::MAX {
        return Err(Error::ValidationFailed(Field::Params));
    }
    let needle: Vec<char> = lowercase_chars(q.as_str());
    let ids: Vec<i32> = find_items(&catalog.item_contents, &needle, 4);
    let found: (Vec<Wiki>, i32) = list_page::<Wiki>(
        &catalog.items,
        4,
        actor.perm > 59,
        Some(&ids),
        SortRule::CreatedDesc,
        page,
        20,
    );
    Ok(
        SearchWikisResp {
            request_user,
            wikis_list: found.0,
            wikis_count: ids.len(),
            q,
            next_page_number: found.1,
        },
    )
}

/// One page of the works that a search found.
pub struct SearchWorksResp {
    pub request_user: UserResp,
    pub works_list: Vec<Work>,
    pub works_count: usize,
    pub q: String,
    pub next_page_number: i32,
}

/// `resp` is what a search for `q` among the works answers on page `page`.
/// An empty query finds nothing.
pub open spec fn search_works_page_answer(
    resp: SearchWorksResp,
    c: Catalog,
    user_id: i32,
    desktop: bool,
    q: Seq<char>,
    page: i32,
    is_ajax: i16,
) -> bool {
    let found = listing(
        c.items@,
        kind_selection(5, perm_of(c, user_id) > 59, Some(search_ids(c, q, 5))),
    );
    &&& is_request_user(resp.request_user, c, user_id, is_ajax, desktop)
    &&& resp.q@ == q
    &&& if q.len() == 0 {
        &&& resp.works_list@.len() == 0
        &&& resp.works_count == 0
        &&& resp.next_page_number == 0
    } else {
        &&& resp.works_list@ == shown::<Work>(page_rows(found, page as int, 20))
        &&& resp.works_count == search_ids(c, q, 5).len()
        &&& resp.next_page_number == next_page_number(found, page as int, 20)
    }
}

/// Searches the works for a query and answers one page of what was found.
pub fn search_works_page(
    catalog: &Catalog,
    user_id: i32,
    desktop: bool,
    params: Option<&SearchItemsPageData>,
) -> (result: Result<SearchWorksResp, Error>)
    ensures
        ({
            let q = match params {
                Some(p) => match p.q {
                    Some(q) => q@,
                    None => Seq::<char>::empty(),
                },
                None => Seq::<char>::empty(),
            };
            let page = match params {
                Some(p) => match p.page {
                    Some(n) => if n > 1 {
                        n
                    } else {
                        1
                    },
                    None => 1,
                },
                None => 1,
            };
            let is_ajax = match params {
                Some(p) => positive_is_ajax_of(p.is_ajax),
                None => 0,
            };
            if asker_error(*catalog, user_id) is Some {
                result matches Err(e) && Some(e) == asker_error(*catalog, user_id)
            } else if q.len() > 0 && page == i32::MAX {
                result matches Err(e) && e == Error::ValidationFailed(Field::Params)
            } else {
                result matches Ok(resp) && search_works_page_answer(
                    resp,
                    *catalog,
                    user_id,
                    desktop,
                    q,
                    page,
                    is_ajax,
                )
            }
        }),
{
    let (q, page, is_ajax) = get_q_page_is_ajax(params);
    let actor: Actor = match actor_of(catalog, user_id) {
        Ok(actor) => actor,
        Err(e) => {
            return Err(e);
        },
    };
    let request_user: UserResp = match get_request_user(catalog, user_id, is_ajax, desktop) {
        Ok(user) => user,
        Err(e) => {
            return Err(e);
        },
    };
    if q.as_str().unicode_len() == 0 {
        return Ok(
            SearchWorksResp {
                request_user,
                works_list: Vec::new(),
                works_count: 0,
                q,
                next_page_number: 0,
            },
        );
    }
    if page == i32::MAX {
        return Err(Error::ValidationFailed(Field::Params));
    }
    let needle: Vec<char> = lowercase_chars(q.as_str());
    let ids: Vec<i32> = find_items(&catalog.item_contents, &needle, 5);
    let found: (Vec<Work>, i32) = list_page::<Work>(
        &catalog.items,
        5,
        actor.perm > 59,
        Some(&ids),
        SortRule::CreatedDesc,
        page,
        20,
    );
    Ok(
        SearchWorksResp {
            request_user,
            works_list: found.0,
            works_count: ids.len(),
            q,
            next_page_number: found.1,
        },
    )
}

/// One page of the helps that a search found.
pub struct SearchHelpsResp {
    pub request_user: UserResp,
    pub helps_list: Vec<Help>,
    pub helps_count: usize,
    pub q: String,
    pub next_page_number: i32,
}

/// `resp` is what a search for `q` among the helps answers on page `page`.
/// An empty query finds nothing.
pub open spec fn search_helps_page_answer(
    resp: SearchHelpsResp,
    c: Catalog,
    user_id: i32,
    desktop: bool,
    q: Seq<char>,
    page: i32,
    is_ajax: i16,
) -> bool {
    let found = listing(
        c.items@,
        kind_selection(6, perm_of(c, user_id) > 59, Some(search_ids(c, q, 6))),
    );
    &&& is_request_user(resp.request_user, c, user_id, is_ajax, desktop)
    &&& resp.q@ == q
    &&& if q.len() == 0 {
        &&& resp.helps_list@.len() == 0
        &&& resp.helps_count == 0
        &&& resp.next_page_number == 0
    } else {
        &&& resp.helps_list@ == shown::<Help>(page_rows(found, page as int, 20))
        &&& resp.helps_count == search_ids(c, q, 6).len()
        &&& resp.next_page_number == next_page_number(found, page as int, 20)
    }
}

/// Searches the helps for a query and answers one page of what was found.
pub fn search_helps_page(
    catalog: &Catalog,
    user_id: i32,
    desktop: bool,
    params: Option<&SearchItemsPageData>,
) -> (result: Result<SearchHelpsResp, Error>)
    ensures
        ({
            let q = match params {
                Some(p) => match p.q {
                    Some(q) => q@,
                    None => Seq::<char>::empty(),
                },
                None => Seq::<char>::empty(),
            };
            let page = match params {
                Some(p) => match p.page {
                    Some(n) => if n > 1 {
                        n
                    } else {
                        1
                    },
                    None => 1,
                },
                None => 1,
            };
            let is_ajax = match params {
                Some(p) => positive_is_ajax_of(p.is_ajax),
                None => 0,
            };
            if asker_error(*catalog, user_id) is Some {
                result matches Err(e) && Some(e) == asker_error(*catalog, user_id)
            } else if q.len() > 0 && page == i32::MAX {
                result matches Err(e) && e == Error::ValidationFailed(Field::Params)
            } else {
                result matches Ok(resp) && search_helps_page_answer(
                    resp,
                    *catalog,
                    user_id,
                    desktop,
                    q,
                    page,
                    is_ajax,
                )
            }
        }),
{
    let (q, page, is_ajax) = get_q_page_is_ajax(params);
    let actor: Actor = match actor_of(catalog, user_id) {
        Ok(actor) => actor,
        Err(e) => {
            return Err(e);
        },
    };
    let request_user: UserResp = match get_request_user(catalog, user_id, is_ajax, desktop) {
        Ok(user) => user,
        Err(e) => {
            return Err(e);
        },
    };
    if q.as_str().unicode_len() == 0 {
        return Ok(
            SearchHelpsResp {
                request_user,
                helps_list: Vec::new(),
                helps_count: 0,
                q,
                next_page_number: 0,
            },
        );
    }
    if page == i32::MAX {
        return Err(Error::ValidationFailed(Field::Params));
    }
    let needle: Vec<char> = lowercase_chars(q.as_str());
    let ids: Vec<i32> = find_items(&catalog.item_contents, &needle, 6);
    let found: (Vec<Help>, i32) = list_page::<Help>(
        &catalog.items,
        6,
        actor.perm > 59,
        Some(&ids),
        SortRule::PositionAsc,
        page,
        20,
    );
    Ok(
        SearchHelpsResp {
            request_user,
            helps_list: found.0,
            helps_count: ids.len(),
            q,
            next_page_number: found.1,
        },
    )
}

} // verus!
