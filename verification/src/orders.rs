//! Orders: placing, deleting and listing.

use vstd::prelude::*;
use crate::catalog::{
    Catalog, Keyed, find_row, fresh_id, rows_page, is_first_with, max_key, has_none_with,
    lemma_max_key_bounds,
};
use crate::counter::{
    all_present, all_found, with_links, append_links, keys_left, without_links, links_without,
};
use crate::discount::get_price_acc_values;
use crate::errors::{Error, Missing, Denial, Field, Clash};
use crate::items::{token_ok, token_text, stamp, CLOCK_SHIFT, price_acc_of};
use crate::models::{Order, OrderFile};
use crate::paging::{page_rows, next_page_number};
use crate::pricing::{chosen_serves, price_sum, tech_cat_ids, price_of};

verus! {

/// The fields of the form with which an order is placed.
pub struct OrderForm {
    pub token: String,
    pub title: String,
    pub types: i16,
    pub object_id: i32,
    pub username: String,
    pub email: String,
    pub description: Option<String>,
    pub files: Vec<String>,
    pub serve_list: Vec<i32>,
}

/// The answer to a placed order.
pub struct NewOrderResp {
    pub order_id: i32,
}

/// The request to delete an order.
pub struct DeleteOrderData {
    pub token: Option<String>,
    pub id: Option<i32>,
}

/// The query for the page of one order.
pub struct OrderPageData {
    pub is_ajax: Option<i16>,
    pub id: Option<i32>,
}

/// The order that a form places.
pub open spec fn new_order(id: i32, user_id: i32, form: OrderForm, price: i32, now: i64) -> Order {
    Order {
        id,
        title: form.title,
        types: form.types,
        object_id: form.object_id,
        username: form.username,
        email: form.email,
        description: form.description,
        created: stamp(now),
        user_id,
        price,
        price_acc: price_acc_of(price),
    }
}

/// The file table of orders with one new row for each path, under ids that
/// follow the greatest id in the table.
pub open spec fn with_order_files(files: Seq<OrderFile>, order_id: i32, paths: Seq<String>) -> Seq<
    OrderFile,
> {
    files + Seq::new(
        paths.len(),
        |k: int| OrderFile { id: (max_key(files) + 1 + k) as i32, order_id, src: paths[k] },
    )
}

/// Appends one file row for each path.
pub fn append_order_files(files: &mut Vec<OrderFile>, order_id: i32, paths: &Vec<String>)
    requires
        max_key(old(files)@) + paths.len() <= i32::MAX,
    ensures
        final(files)@ == with_order_files(old(files)@, order_id, paths@),
{
    let ghost before = files@;
    proof {
        lemma_max_key_bounds(before);
    }
    let first: Option<i32> = fresh_id(files);
    let mut k: usize = 0;
    assert(files@ =~= before + Seq::new(
        0,
        |j: int| OrderFile { id: (max_key(before) + 1 + j) as i32, order_id, src: paths@[j] },
    ));
    while k < paths.len()
        invariant
            k <= paths.len(),
            0 <= max_key(before),
            max_key(before) + paths.len() <= i32::MAX,
            first matches Some(f) ==> f == max_key(before) + 1,
            first is None ==> max_key(before) == i32::MAX,
            files@ == before + Seq::new(
                k as nat,
                |j: int|
                    OrderFile { id: (max_key(before) + 1 + j) as i32, order_id, src: paths@[j] },
            ),
        decreases paths.len() - k,
    {
        let f: i32 = first.unwrap();
        let id: i32 = (f as i64 + k as i64) as i32;
        files.push(OrderFile { id, order_id, src: paths[k].clone() });
        assert(files@ =~= before + Seq::new(
            (k + 1) as nat,
            |j: int| OrderFile { id: (max_key(before) + 1 + j) as i32, order_id, src: paths@[j] },
        ));
        k += 1;
    }
}

/// The price of the service options that an order chooses.
pub open spec fn order_price(c: Catalog, form: OrderForm) -> int {
    price_sum(chosen_serves(c.serve@, form.serve_list@))
}

/// The technical categories that the chosen service options open.
pub open spec fn order_open_cats(c: Catalog, form: OrderForm) -> Seq<i32> {
    tech_cat_ids(chosen_serves(c.serve@, form.serve_list@))
}

/// Why an order cannot be placed, if it cannot.
pub open spec fn create_order_error(c: Catalog, user_id: i32, form: OrderForm) -> Option<Error> {
    if form.token@ != token_text() {
        Some(Error::PermissionDenied(Denial::Forbidden))
    } else if user_id == 0 {
        Some(Error::NotFound(Missing::Visitor))
    } else if !all_present(c.serve@, form.serve_list@) {
        Some(Error::NotFound(Missing::Serve))
    } else if !(i32::MIN <= order_price(c, form) <= i32::MAX) {
        Some(Error::Conflict(Clash::OutOfRange))
    } else if max_key(c.orders@) == i32::MAX || max_key(c.order_files@) + form.files@.len()
        > i32::MAX || max_key(c.serve_items@) + form.serve_list@.len() > i32::MAX || max_key(
        c.tech_categories_items@,
    ) + order_open_cats(c, form).len() > i32::MAX {
        Some(Error::Conflict(Clash::KeysExhausted))
    } else {
        None
    }
}

/// The tables that no operation on orders touches are the same in both.
pub open spec fn same_beside_orders(pre: Catalog, post: Catalog) -> bool {
    &&& post.items == pre.items
    &&& post.categories == pre.categories
    &&& post.category == pre.category
    &&& post.tags == pre.tags
    &&& post.tags_items == pre.tags_items
    &&& post.serve == pre.serve
    &&& post.serve_categories == pre.serve_categories
    &&& post.tech_categories == pre.tech_categories
    &&& post.files == pre.files
    &&& post.item_contents == pre.item_contents
    &&& post.users == pre.users
    &&& post.cookie_users == pre.cookie_users
    &&& post.cookie_stats == pre.cookie_stats
    &&& post.stat_pages == pre.stat_pages
    &&& post.feedbacks == pre.feedbacks
}

/// `post` is `pre` after the order has been placed.
pub open spec fn order_created(
    pre: Catalog,
    post: Catalog,
    user_id: i32,
    form: OrderForm,
    now: i64,
) -> bool {
    let id = (max_key(pre.orders@) + 1) as i32;
    &&& post.orders@ == pre.orders@.push(
        new_order(id, user_id, form, order_price(pre, form) as i32, now),
    )
    &&& post.order_files@ == with_order_files(pre.order_files@, id, form.files@)
    &&& post.serve_items@ == with_links(
        pre.serve_items@,
        form.serve_list@,
        form.object_id,
        form.types,
        0,
    )
    &&& post.tech_categories_items@ == with_links(
        pre.tech_categories_items@,
        order_open_cats(pre, form),
        form.object_id,
        form.types,
        1,
    )
    &&& same_beside_orders(pre, post)
}

/// Why an order cannot be deleted, if it cannot.
pub open spec fn delete_order_error(
    c: Catalog,
    user_id: i32,
    data: DeleteOrderData,
) -> Option<Error> {
    if data.token is None || data.token->0@ != token_text() {
        Some(Error::PermissionDenied(Denial::Forbidden))
    } else if data.id is None || data.id->0 < 1 {
        Some(Error::ValidationFailed(Field::Id))
    } else if has_none_with(c.orders@, data.id->0) {
        Some(Error::NotFound(Missing::Order))
    } else if exists|at: int|
        is_first_with(c.orders@, data.id->0, at) && c.orders@[at].user_id != user_id {
        Some(Error::PermissionDenied(Denial::Forbidden))
    } else {
        None
    }
}

/// `post` is `pre` after the order has been deleted, with its links to
/// service options and technical categories.
pub open spec fn order_deleted(pre: Catalog, post: Catalog, id: i32) -> bool {
    &&& exists|at: int| is_first_with(pre.orders@, id, at) && post.orders@ == pre.orders@.remove(at)
    &&& post.serve_items@ == without_links(pre.serve_items@, id, 7)
    &&& post.tech_categories_items@ == without_links(pre.tech_categories_items@, id, 7)
    &&& post.order_files == pre.order_files
    &&& same_beside_orders(pre, post)
}

/// The orders of one customer, in the order of the table.
pub open spec fn orders_of(rows: Seq<Order>, user_id: i32) -> Seq<Order> {
    rows.filter(|o: Order| o.user_id == user_id)
}

/// The files of one order, in the order of the table.
pub open spec fn files_of_order(rows: Seq<OrderFile>, order_id: i32) -> Seq<OrderFile> {
    rows.filter(|f: OrderFile| f.order_id == order_id)
}

/// Collects the orders of one customer.
pub fn collect_orders_of(rows: &Vec<Order>, user_id: i32) -> (out: Vec<Order>)
    ensures
        out@ == orders_of(rows@, user_id),
{
    let ghost pred = |o: Order| o.user_id == user_id;
    let mut out: Vec<Order> = Vec::new();
    let mut i: usize = 0;
    assert(rows@.take(0).filter(pred) =~= out@);
    while i < rows.len()
        invariant
            i <= rows.len(),
            pred == |o: Order| o.user_id == user_id,
            out@ == rows@.take(i as int).filter(pred),
        decreases rows.len() - i,
    {
        proof {
            assert(rows@.take(i + 1) =~= rows@.take(i as int).push(rows@[i as int]));
            Seq::lemma_filter_push(rows@.take(i as int), rows@[i as int], pred);
        }
        if rows[i].user_id == user_id {
            out.push(rows[i].clone());
        }
        i += 1;
    }
    assert(rows@.take(rows.len() as int) =~= rows@);
    out
}

/// Collects the files of one order.
pub fn collect_order_files(rows: &Vec<OrderFile>, order_id: i32) -> (out: Vec<OrderFile>)
    ensures
        out@ == files_of_order(rows@, order_id),
{
    let ghost pred = |f: OrderFile| f.order_id == order_id;
    let mut out: Vec<OrderFile> = Vec::new();
    let mut i: usize = 0;
    assert(rows@.take(0).filter(pred) =~= out@);
    while i < rows.len()
        invariant
            i <= rows.len(),
            pred == |f: OrderFile| f.order_id == order_id,
            out@ == rows@.take(i as int).filter(pred),
        decreases rows.len() - i,
    {
        proof {
            assert(rows@.take(i + 1) =~= rows@.take(i as int).push(rows@[i as int]));
            Seq::lemma_filter_push(rows@.take(i as int), rows@[i as int], pred);
        }
        if rows[i].order_id == order_id {
            out.push(rows[i].clone());
        }
        i += 1;
    }
    assert(rows@.take(rows.len() as int) =~= rows@);
    out
}

impl Order {
    /// One page of all orders, and the number of the next page or zero.
    pub fn get_orders_list(catalog: &Catalog, page: i32, limit: i32) -> (result: (Vec<Order>, i32))
        requires
            page < i32::MAX,
        ensures
            result.0@ == page_rows(catalog.orders@, page as int, limit as int),
            result.1 == next_page_number(catalog.orders@, page as int, limit as int),
    {
        rows_page(&catalog.orders, page, limit)
    }

    /// One page of the orders of a customer, and the number of the next page
    /// or zero.
    pub fn get_user_orders_list(catalog: &Catalog, user_id: i32, page: i32, limit: i32) -> (result: (
        Vec<Order>,
        i32,
    ))
        requires
            page < i32::MAX,
        ensures
            result.0@ == page_rows(orders_of(catalog.orders@, user_id), page as int, limit as int),
            result.1 == next_page_number(
                orders_of(catalog.orders@, user_id),
                page as int,
                limit as int,
            ),
    {
        let own: Vec<Order> = collect_orders_of(&catalog.orders, user_id);
        rows_page(&own, page, limit)
    }
}

impl Catalog {
    /// Places an order of the customer `user_id`: stores the order with its
    /// files, links the ordered object to the chosen service options and to
    /// their technical categories, and prices the order at the sum of the
    /// options' prices, with the discount on that sum. Every service option
    /// that the form names must be stored.
    pub fn create_order(&mut self, user_id: i32, form: &OrderForm, now: i64) -> (result: Result<
        NewOrderResp,
        Error,
    >)
        requires
            now <= i64::MAX - 10_800_000_000,
        ensures
            match create_order_error(*old(self), user_id, *form) {
                Some(e) => result == Err::<NewOrderResp, Error>(e) && *final(self) == *old(self),
                None => {
                    &&& result matches Ok(resp) && resp.order_id == max_key(old(self).orders@) + 1
                    &&& order_created(*old(self), *final(self), user_id, *form, now)
                },
            },
    {
        if !token_ok(form.token.as_str()) {
            return Err(Error::PermissionDenied(Denial::Forbidden));
        }
        if user_id == 0 {
            return Err(Error::NotFound(Missing::Visitor));
        }
        if !all_found(&self.serve, &form.serve_list) {
            return Err(Error::NotFound(Missing::Serve));
        }
        let (price_found, open_cats) = price_of(&self.serve, &form.serve_list);
        let price: i32 = match price_found {
            Some(p) => p,
            None => {
                return Err(Error::Conflict(Clash::OutOfRange));
            },
        };
        let id: i32 = match fresh_id(&self.orders) {
            Some(id) => id,
            None => {
                return Err(Error::Conflict(Clash::KeysExhausted));
            },
        };
        if !keys_left(&self.order_files, form.files.len()) || !keys_left(
            &self.serve_items,
            form.serve_list.len(),
        ) || !keys_left(&self.tech_categories_items, open_cats.len()) {
            return Err(Error::Conflict(Clash::KeysExhausted));
        }
        append_order_files(&mut self.order_files, id, &form.files);
        append_links(&mut self.serve_items, &form.serve_list, form.object_id, form.types, 0);
        append_links(&mut self.tech_categories_items, &open_cats, form.object_id, form.types, 1);
        self.orders.push(
            Order {
                id,
                title: form.title.clone(),
                types: form.types,
                object_id: form.object_id,
                username: form.username.clone(),
                email: form.email.clone(),
                description: form.description.clone(),
                created: now + CLOCK_SHIFT,
                user_id,
                price,
                price_acc: get_price_acc_values(&price),
            },
        );
        Ok(NewOrderResp { order_id: id })
    }

    /// Deletes an order at the request of the customer who placed it, with
    /// the order's links to service options and technical categories.
    pub fn delete_order(
        &mut self,
        user_id: i32,
        data: &DeleteOrderData,
    ) -> (result: Result<i16, Error>)
        ensures
            match delete_order_error(*old(self), user_id, *data) {
                Some(e) => result == Err::<i16, Error>(e) && *final(self) == *old(self),
                None => result == Ok::<i16, Error>(1) && order_deleted(
                    *old(self),
                    *final(self),
                    data.id->0,
                ),
            },
    {
        match &data.token {
            Some(token) => {
                if !token_ok(token.as_str()) {
                    return Err(Error::PermissionDenied(Denial::Forbidden));
                }
            },
            None => {
                return Err(Error::PermissionDenied(Denial::Forbidden));
            },
        }
        let id: i32 = match data.id {
            Some(id) => id,
            None => {
                return Err(Error::ValidationFailed(Field::Id));
            },
        };
        if id < 1 {
            return Err(Error::ValidationFailed(Field::Id));
        }
        let at: usize = match find_row(&self.orders, id) {
            Some(at) => at,
            None => {
                return Err(Error::NotFound(Missing::Order));
            },
        };
        assert(is_first_with(self.orders@, id, at as int));
        assert(!has_none_with(self.orders@, id)) by {
            assert(self.orders@[at as int].key() == id);
        }
        assert forall|k: int| is_first_with(self.orders@, id, k) implies k == at by {
            if k < at {
                assert(self.orders@[k].key() != id);
            } else if at < k {
                assert(self.orders@[at as int].key() != id);
            }
        }
        if self.orders[at].user_id != user_id {
            return Err(Error::PermissionDenied(Denial::Forbidden));
        }
        let serve_links = links_without(&self.serve_items, id, 7);
        let tech_links = links_without(&self.tech_categories_items, id, 7);
        self.serve_items = serve_links;
        self.tech_categories_items = tech_links;
        self.orders.remove(at);
        Ok(1)
    }
}

} // verus!
