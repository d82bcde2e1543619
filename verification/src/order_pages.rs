//! The pages of orders.

use vstd::prelude::*;
use vstd::string::StrSliceExecFns;
use crate::catalog::{Catalog, Keyed, locate, place_of, has_none_with};
use crate::errors::{Error, Missing, Denial, Field};
use crate::listing::Projection;
use crate::models::{Order, OrderFile};
use crate::orders::{OrderPageData, orders_of, files_of_order, collect_order_files};
use crate::paging::{page_rows, next_page_number};
use crate::requests::{
    UserResp, IsAjaxPageData, get_request_user, is_request_user, asker_of, asker_error, actor_of,
    Actor, get_is_ajax_page, positive_is_ajax_of, positive_is_ajax, is_ajax_of, page_of,
};

verus! {

/// One page of orders.
pub struct OrdersPageResp {
    pub request_user: UserResp,
    pub object_list: Vec<Order>,
    pub next_page_number: i32,
}

/// Why `get_orders_page` refuses a request, if it does.
pub open spec fn get_orders_page_error(
    c: Catalog,
    user_id: i32,
    desktop: bool,
    params: Option<&IsAjaxPageData>,
) -> Option<Error> {
    let asked = (match params { Some(p) => is_ajax_of(p.is_ajax), None => 0 }, page_of(match params { Some(p) => Some(*p), None => None }));
    let page = asked.1;
    if page == i32::MAX {
        Some(Error::ValidationFailed(Field::Params))
    } else if asker_error(c, user_id) is Some {
        asker_error(c, user_id)
    } else if asker_of(user_id) < 1 {
        Some(Error::PermissionDenied(Denial::Forbidden))
    } else {
        None
    }
}

/// `resp` is what `get_orders_page` answers to a request that it does not refuse.
pub open spec fn get_orders_page_answer(
    resp: OrdersPageResp,
    c: Catalog,
    user_id: i32,
    desktop: bool,
    params: Option<&IsAjaxPageData>,
) -> bool {
    let asked = (match params { Some(p) => is_ajax_of(p.is_ajax), None => 0 }, page_of(match params { Some(p) => Some(*p), None => None }));
    let page = asked.1;
    let is_ajax = asked.0;
    &&& is_request_user(resp.request_user, c, user_id, is_ajax, desktop)
    &&& resp.object_list@ == page_rows(c.orders@, page as int, 20)
    &&& resp.next_page_number == next_page_number(c.orders@, page as int, 20)
}

/// All orders, one page of them, for users who are signed in.
pub fn get_orders_page(
    catalog: &Catalog,
    user_id: i32,
    desktop: bool,
    params: Option<&IsAjaxPageData>,
) -> (result: Result<OrdersPageResp, Error>)
    ensures
        match get_orders_page_error(*catalog, user_id, desktop, params) {
            Some(e) => result == Err::<OrdersPageResp, Error>(e),
            None => result matches Ok(resp) && get_orders_page_answer(
                resp,
                *catalog,
                user_id,
                desktop,
                params,
            ),
        },
{
    let asked: (i16, i32) = get_is_ajax_page(params);
    let page: i32 = asked.1;
    if page == i32::MAX {
        return Err(Error::ValidationFailed(Field::Params));
    }
    let is_ajax: i16 = asked.0;
    let actor: Actor = match actor_of(catalog, user_id) {
        Ok(actor) => actor,
        Err(e) => {
            return Err(e);
        },
    };
    let request_user: UserResp = match get_request_user(catalog, user_id, is_ajax, desktop) {
        Ok(user) => user,
        Err(e) => {
            return Err(e);
        },
    };
    let perm: i16 = actor.perm;
    if actor.id < 1 {
        return Err(Error::PermissionDenied(Denial::Forbidden));
    }
    let found: (Vec<Order>, i32) = Order::get_orders_list(catalog, page, 20);
    Ok(
        OrdersPageResp {
            request_user,
            object_list: found.0,
            next_page_number: found.1,
        },
    )
}

/// Why `get_user_orders_page` refuses a request, if it does.
pub open spec fn get_user_orders_page_error(
    c: Catalog,
    user_id: i32,
    desktop: bool,
    params: Option<&IsAjaxPageData>,
    visitor_id: i32,
) -> Option<Error> {
    let asked = (match params { Some(p) => is_ajax_of(p.is_ajax), None => 0 }, page_of(match params { Some(p) => Some(*p), None => None }));
    let page = asked.1;
    if page == i32::MAX {
        Some(Error::ValidationFailed(Field::Params))
    } else if asker_error(c, user_id) is Some {
        asker_error(c, user_id)
    } else if visitor_id == 0 {
        Some(Error::NotFound(Missing::Visitor))
    } else {
        None
    }
}

/// `resp` is what `get_user_orders_page` answers to a request that it does not refuse.
pub open spec fn get_user_orders_page_answer(
    resp: OrdersPageResp,
    c: Catalog,
    user_id: i32,
    desktop: bool,
    params: Option<&IsAjaxPageData>,
    visitor_id: i32,
) -> bool {
    let asked = (match params { Some(p) => is_ajax_of(p.is_ajax), None => 0 }, page_of(match params { Some(p) => Some(*p), None => None }));
    let page = asked.1;
    let is_ajax = asked.0;
    &&& is_request_user(resp.request_user, c, user_id, is_ajax, desktop)
    &&& resp.object_list@ == page_rows(orders_of(c.orders@, visitor_id), page as int, 20)
    &&& resp.next_page_number == next_page_number(orders_of(c.orders@, visitor_id), page as int, 20)
}

/// The orders of a customer, one page of them.
pub fn get_user_orders_page(
    catalog: &Catalog,
    user_id: i32,
    desktop: bool,
    params: Option<&IsAjaxPageData>,
    visitor_id: i32,
) -> (result: Result<OrdersPageResp, Error>)
    ensures
        match get_user_orders_page_error(*catalog, user_id, desktop, params, visitor_id) {
            Some(e) => result == Err::<OrdersPageResp, Error>(e),
            None => result matches Ok(resp) && get_user_orders_page_answer(
                resp,
                *catalog,
                user_id,
                desktop,
                params,
                visitor_id,
            ),
        },
{
    let asked: (i16, i32) = get_is_ajax_page(params);
    let page: i32 = asked.1;
    if page == i32::MAX {
        return Err(Error::ValidationFailed(Field::Params));
    }
    let is_ajax: i16 = asked.0;
    let actor: Actor = match actor_of(catalog, user_id) {
        Ok(actor) => actor,
        Err(e) => {
            return Err(e);
        },
    };
    let request_user: UserResp = match get_request_user(catalog, user_id, is_ajax, desktop) {
        Ok(user) => user,
        Err(e) => {
            return Err(e);
        },
    };
    let perm: i16 = actor.perm;
    if visitor_id == 0 {
        return Err(Error::NotFound(Missing::Visitor));
    }
    let found: (Vec<Order>, i32) = Order::get_user_orders_list(catalog, visitor_id, page, 20);
    Ok(
        OrdersPageResp {
            request_user,
            object_list: found.0,
            next_page_number: found.1,
        },
    )
}

/// An order with its files.
pub struct OrderPageResp {
    pub request_user: UserResp,
    pub object: Order,
    pub files: Vec<OrderFile>,
}

/// Why `get_order_page` refuses a request, if it does.
pub open spec fn get_order_page_error(
    c: Catalog,
    user_id: i32,
    desktop: bool,
    params: Option<&OrderPageData>,
    visitor_id: i32,
) -> Option<Error> {
    let p = params->0;
    let id = p.id->0;
    let object = c.orders@[place_of(c.orders@, id)];
    if params is None {
        Some(Error::PermissionDenied(Denial::UnknownCustomer))
    } else if p.id is None || p.id->0 < 1 {
        Some(Error::ValidationFailed(Field::Id))
    } else if has_none_with(c.orders@, id) {
        Some(Error::NotFound(Missing::Order))
    } else if visitor_id != object.user_id {
        Some(Error::PermissionDenied(Denial::UnknownCustomer))
    } else if asker_error(c, user_id) is Some {
        asker_error(c, user_id)
    } else {
        None
    }
}

/// `resp` is what `get_order_page` answers to a request that it does not refuse.
pub open spec fn get_order_page_answer(
    resp: OrderPageResp,
    c: Catalog,
    user_id: i32,
    desktop: bool,
    params: Option<&OrderPageData>,
    visitor_id: i32,
) -> bool {
    let p = params->0;
    let id = p.id->0;
    let object = c.orders@[place_of(c.orders@, id)];
    let is_ajax = positive_is_ajax_of(p.is_ajax);
    &&& is_request_user(resp.request_user, c, user_id, is_ajax, desktop)
    &&& resp.object == object
    &&& resp.files@ == files_of_order(c.order_files@, object.id)
}

/// The page of an order with its files, for the customer who placed it.
pub fn get_order_page(
    catalog: &Catalog,
    user_id: i32,
    desktop: bool,
    params: Option<&OrderPageData>,
    visitor_id: i32,
) -> (result: Result<OrderPageResp, Error>)
    ensures
        match get_order_page_error(*catalog, user_id, desktop, params, visitor_id) {
            Some(e) => result == Err::<OrderPageResp, Error>(e),
            None => result matches Ok(resp) && get_order_page_answer(
                resp,
                *catalog,
                user_id,
                desktop,
                params,
                visitor_id,
            ),
        },
{
    let p: &OrderPageData = match params {
        Some(p) => p,
        None => {
            return Err(Error::PermissionDenied(Denial::UnknownCustomer));
        },
    };
    let id: i32 = match p.id {
        Some(v) if v >= 1 => v,
        _ => {
            return Err(Error::ValidationFailed(Field::Id));
        },
    };
    let object_at: usize = match locate(&catalog.orders, id) {
        Some(at) => at,
        None => {
            return Err(Error::NotFound(Missing::Order));
        },
    };
    let object = &catalog.orders[object_at];
    if visitor_id != object.user_id {
        return Err(Error::PermissionDenied(Denial::UnknownCustomer));
    }
    let is_ajax: i16 = positive_is_ajax(p.is_ajax);
    let actor: Actor = match actor_of(catalog, user_id) {
        Ok(actor) => actor,
        Err(e) => {
            return Err(e);
        },
    };
    let request_user: UserResp = match get_request_user(catalog, user_id, is_ajax, desktop) {
        Ok(user) => user,
        Err(e) => {
            return Err(e);
        },
    };
    let perm: i16 = actor.perm;
    Ok(
        OrderPageResp {
            request_user,
            object: object.clone(),
            files: collect_order_files(&catalog.order_files, object.id),
        },
    )
}

} // verus!
