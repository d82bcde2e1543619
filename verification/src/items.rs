//! Items: the reference counter, and creating, editing, deleting, publishing and hiding.

use vstd::prelude::*;
use crate::catalog::{
    Table, same_beside, Catalog, Keyed, find_row, fresh_id, copy_rows, is_first_with, is_lookup,
    max_key, lemma_max_key_bounds,
};
use crate::counter::{
    distinct, dedup_ids, adjusted, has_room, room_for, adjust_counts, all_present, all_found,
    targets_of, collect_targets, without_links, links_without, with_links, append_links, keys_left,
    Linking, new_link,
};
use crate::discount::{discount_of, get_price_acc_values};
use crate::errors::{Error, Missing, Denial, Field, Clash};
use crate::kinds::{hidden_code, published_code};
use crate::models::{
    Item, Categories, File, NewItem, NewItemComment, NewItemContent, TechCategoriesItem,
};
use crate::pricing::{chosen_serves, price_sum, tech_cat_ids, price_of};
use crate::text::str_eq;

verus! {

/// The form token that every mutating request must present.
pub open spec fn token_text() -> Seq<char> {
    "111"@
}

/// Tests a form token.
pub fn token_ok(token: &str) -> (ok: bool)
    ensures
        ok == (token@ == token_text()),
{
    str_eq(token, "111")
}

/// The microseconds by which stored times run ahead of the clock: three
/// hours.
pub const CLOCK_SHIFT: i64 = 10_800_000_000;

/// The time that is stored for something that happens at `now`. Times are
/// counted in microseconds.
pub open spec fn stamp(now: i64) -> i64 {
    (now + 10_800_000_000) as i64
}

/// The fields of the form with which an item is created or edited.
pub struct ItemForm {
    pub token: String,
    pub id: i32,
    pub title: String,
    pub link: Option<String>,
    pub main_image: Option<String>,
    pub position: i16,
    pub types: i16,
    pub slug: String,
    pub category_list: Vec<i32>,
    pub tags_list: Vec<i32>,
    pub serve_list: Vec<i32>,
    pub close_tech_cats_list: Vec<i32>,
}

/// The request to delete, publish or hide something by its id.
pub struct DeleteItemData {
    pub id: Option<i32>,
    pub token: Option<String>,
}

/// What hiding an item does to the counters of its categories and tags.
#[derive(Clone, Copy, Debug, PartialEq, Eq, Structural)]
pub enum HidePolicy {
    /// Hiding takes the item out of the counters: each goes down by one.
    Decrement,
    /// Hiding moves the counters as publishing does: each goes up by one.
    /// Under this policy a counter is no count of published items.
    MirrorPublish,
}

impl HidePolicy {
    /// The step by which hiding moves a counter.
    pub open spec fn delta(self) -> int {
        match self {
            HidePolicy::Decrement => -1,
            HidePolicy::MirrorPublish => 1,
        }
    }
}

/// The status code with which an item of a kind is created: published.
pub open spec fn created_code(types: i16) -> i16 {
    if 1 <= types <= 9 {
        types
    } else {
        1
    }
}

/// The discount on a price, as the price column holds it.
pub open spec fn price_acc_of(price: i32) -> Option<i32> {
    match discount_of(price as int) {
        Some(d) => Some(d as i32),
        None => None,
    }
}

/// The category `id` exists and holds items of kind `types`.
pub open spec fn category_fits(rows: Seq<Categories>, id: i32, types: i16) -> bool {
    exists|at: int| is_first_with(rows, id, at) && rows[at].types == types
}

/// Every category of `ids` exists and holds items of kind `types`.
pub open spec fn categories_fit(rows: Seq<Categories>, ids: Seq<i32>, types: i16) -> bool {
    forall|k: int| 0 <= k < ids.len() ==> category_fits(rows, #[trigger] ids[k], types)
}

/// Tests whether every category of `ids` exists and holds items of the kind.
pub fn fits(rows: &Vec<Categories>, ids: &Vec<i32>, types: i16) -> (ok: bool)
    ensures
        ok == categories_fit(rows@, ids@, types),
{
    let mut k: usize = 0;
    while k < ids.len()
        invariant
            k <= ids.len(),
            forall|j: int| 0 <= j < k ==> category_fits(rows@, #[trigger] ids@[j], types),
        decreases ids.len() - k,
    {
        match find_row(rows, ids[k]) {
            Some(at) => {
                if rows[at].types != types {
                    assert(!category_fits(rows@, ids@[k as int], types));
                    return false;
                }
            },
            None => {
                assert(!category_fits(rows@, ids@[k as int], types));
                return false;
            },
        }
        k += 1;
    }
    true
}

/// The item that a form creates.
pub open spec fn new_item(id: i32, user_id: i32, form: ItemForm, price: i32, now: i64) -> Item {
    Item {
        id,
        title: form.title,
        link: form.link,
        image: form.main_image,
        description: None,
        item_types: created_code(form.types),
        price,
        user_id,
        created: stamp(now),
        position: form.position,
        price_acc: price_acc_of(price),
        types: form.types,
        slug: form.slug,
        view: 0,
        seconds: 0,
    }
}

/// An item after a form has edited it.
pub open spec fn edited_item(item: Item, form: ItemForm, price: i32) -> Item {
    Item {
        title: form.title,
        link: form.link,
        image: form.main_image,
        position: form.position,
        slug: form.slug,
        price,
        price_acc: price_acc_of(price),
        ..item
    }
}

/// The tables that no operation on items touches are the same in both.
pub open spec fn same_beside_items(pre: Catalog, post: Catalog) -> bool {
    &&& post.serve == pre.serve
    &&& post.serve_categories == pre.serve_categories
    &&& post.tech_categories == pre.tech_categories
    &&& post.item_contents == pre.item_contents
    &&& post.users == pre.users
    &&& post.cookie_users == pre.cookie_users
    &&& post.cookie_stats == pre.cookie_stats
    &&& post.stat_pages == pre.stat_pages
    &&& post.feedbacks == pre.feedbacks
    &&& post.orders == pre.orders
    &&& post.order_files == pre.order_files
}

/// The price of the service options that a form chooses.
pub open spec fn form_price(c: Catalog, form: ItemForm) -> int {
    price_sum(chosen_serves(c.serve@, form.serve_list@))
}

/// The technical categories that the chosen service options open.
pub open spec fn form_open_cats(c: Catalog, form: ItemForm) -> Seq<i32> {
    tech_cat_ids(chosen_serves(c.serve@, form.serve_list@))
}

/// Why a form cannot create an item, if it cannot.
pub open spec fn create_item_error(c: Catalog, user_id: i32, form: ItemForm) -> Option<Error> {
    let cats = distinct(form.category_list@);
    let tags = distinct(form.tags_list@);
    if user_id < 1 || form.token@ != token_text() {
        Some(Error::PermissionDenied(Denial::Forbidden))
    } else if !categories_fit(c.categories@, cats, form.types) {
        Some(Error::NotFound(Missing::Category))
    } else if !all_present(c.tags@, tags) {
        Some(Error::NotFound(Missing::Tag))
    } else if !all_present(c.serve@, form.serve_list@) {
        Some(Error::NotFound(Missing::Serve))
    } else if !all_present(c.tech_categories@, form.close_tech_cats_list@) {
        Some(Error::NotFound(Missing::TechCategory))
    } else if !(i32::MIN <= form_price(c, form) <= i32::MAX) || !has_room(c.categories@, cats, 1)
        || !has_room(c.tags@, tags, 1) {
        Some(Error::Conflict(Clash::OutOfRange))
    } else if max_key(c.items@) == i32::MAX || max_key(c.category@) + cats.len() > i32::MAX
        || max_key(c.tags_items@) + tags.len() > i32::MAX || max_key(c.serve_items@)
        + form.serve_list@.len() > i32::MAX || max_key(c.tech_categories_items@)
        + form.close_tech_cats_list@.len() + form_open_cats(c, form).len() > i32::MAX {
        Some(Error::Conflict(Clash::KeysExhausted))
    } else {
        None
    }
}

/// The links to technical categories after an item has got its closed
/// categories and the open ones of its service options.
pub open spec fn with_tech_links(
    links: Seq<TechCategoriesItem>,
    closed: Seq<i32>,
    open: Seq<i32>,
    item: i32,
    kind: i16,
) -> Seq<TechCategoriesItem> {
    with_links(with_links(links, closed, item, kind, 2), open, item, kind, 1)
}

/// `post` is `pre` after the form has created an item.
pub open spec fn item_created(
    pre: Catalog,
    post: Catalog,
    user_id: i32,
    form: ItemForm,
    now: i64,
) -> bool {
    let id = (max_key(pre.items@) + 1) as i32;
    let cats = distinct(form.category_list@);
    let tags = distinct(form.tags_list@);
    &&& post.items@ == pre.items@.push(new_item(id, user_id, form, form_price(pre, form) as i32, now))
    &&& post.category@ == with_links(pre.category@, cats, id, form.types, 0)
    &&& post.categories@ == adjusted(pre.categories@, cats, 1)
    &&& post.tags_items@ == with_links(pre.tags_items@, tags, id, form.types, now)
    &&& post.tags@ == adjusted(pre.tags@, tags, 1)
    &&& post.serve_items@ == with_links(pre.serve_items@, form.serve_list@, id, form.types, 0)
    &&& post.tech_categories_items@ == with_tech_links(
        pre.tech_categories_items@,
        form.close_tech_cats_list@,
        form_open_cats(pre, form),
        id,
        form.types,
    )
    &&& post.files == pre.files
    &&& same_beside_items(pre, post)
}

proof fn lemma_max_key_with_links<L: Linking>(
    links: Seq<L>,
    targets: Seq<i32>,
    item: i32,
    kind: i16,
    mark: i64,
)
    requires
        max_key(links) + targets.len() <= i32::MAX,
    ensures
        max_key(with_links(links, targets, item, kind, mark)) == max_key(links) + targets.len(),
    decreases targets.len(),
{
    lemma_max_key_bounds(links);
    let all = with_links(links, targets, item, kind, mark);
    if targets.len() == 0 {
        assert(all =~= links);
    } else {
        let front = targets.drop_last();
        lemma_max_key_with_links(links, front, item, kind, mark);
        let shorter = with_links(links, front, item, kind, mark);
        assert(all.drop_last() =~= shorter) by {
            assert forall|j: int| 0 <= j < shorter.len() implies all.drop_last()[j] == shorter[j] by {
                if j >= links.len() {
                    assert(targets[j - links.len()] == front[j - links.len()]);
                }
            }
        }
        L::lemma_made(
            (max_key(links) + 1 + (targets.len() - 1)) as i32,
            targets[targets.len() - 1],
            item,
            kind,
            mark,
        );
        assert(all.last() == new_link(
            links,
            targets,
            item,
            kind,
            mark,
            targets.len() - 1,
        ));
    }
}

impl Catalog {
    /// Stores a new item of the form's kind, published, owned by `user_id`:
    /// links it to the form's categories and tags, each once, and counts it
    /// in them; links it to the chosen service options and to their
    /// technical categories; and prices it at the sum of the options'
    /// prices, with the discount on that sum. Every category, tag, service
    /// option and closed technical category that the form names must be
    /// stored.
    pub fn create_item(&mut self, user_id: i32, form: &ItemForm, now: i64) -> (result: Result<
        i16,
        Error,
    >)
        requires
            now <= i64::MAX - 10_800_000_000,
        ensures
            match create_item_error(*old(self), user_id, *form) {
                Some(e) => result == Err::<i16, Error>(e) && *final(self) == *old(self),
                None => result == Ok::<i16, Error>(1) && item_created(
                    *old(self),
                    *final(self),
                    user_id,
                    *form,
                    now,
                ),
            },
    {
        if user_id < 1 || !token_ok(form.token.as_str()) {
            return Err(Error::PermissionDenied(Denial::Forbidden));
        }
        let types: i16 = form.types;
        let cats: Vec<i32> = dedup_ids(&form.category_list);
        let tags: Vec<i32> = dedup_ids(&form.tags_list);
        if !fits(&self.categories, &cats, types) {
            return Err(Error::NotFound(Missing::Category));
        }
        if !all_found(&self.tags, &tags) {
            return Err(Error::NotFound(Missing::Tag));
        }
        if !all_found(&self.serve, &form.serve_list) {
            return Err(Error::NotFound(Missing::Serve));
        }
        if !all_found(&self.tech_categories, &form.close_tech_cats_list) {
            return Err(Error::NotFound(Missing::TechCategory));
        }
        let (price_found, open_cats) = price_of(&self.serve, &form.serve_list);
        let price: i32 = match price_found {
            Some(p) => p,
            None => {
                return Err(Error::Conflict(Clash::OutOfRange));
            },
        };
        if !room_for(&self.categories, &cats, 1) || !room_for(&self.tags, &tags, 1) {
            return Err(Error::Conflict(Clash::OutOfRange));
        }
        let id: i32 = match fresh_id(&self.items) {
            Some(k) => k,
            None => {
                return Err(Error::Conflict(Clash::KeysExhausted));
            },
        };
        if !keys_left(&self.category, cats.len()) || !keys_left(&self.tags_items, tags.len())
            || !keys_left(&self.serve_items, form.serve_list.len()) {
            return Err(Error::Conflict(Clash::KeysExhausted));
        }
        if !keys_left(&self.tech_categories_items, form.close_tech_cats_list.len()) {
            return Err(Error::Conflict(Clash::KeysExhausted));
        }
        proof {
            lemma_max_key_with_links(
                self.tech_categories_items@,
                form.close_tech_cats_list@,
                id,
                types,
                2,
            );
        }
        let mut tech: Vec<TechCategoriesItem> = copy_rows(
            &self.tech_categories_items,
        );
        append_links(&mut tech, &form.close_tech_cats_list, id, types, 2);
        if !keys_left(&tech, open_cats.len()) {
            return Err(Error::Conflict(Clash::KeysExhausted));
        }
        append_links(&mut tech, &open_cats, id, types, 1);
        self.tech_categories_items = tech;
        self.on_edit_add_links(id, types, true, &cats, &tags, now);
        append_links(&mut self.serve_items, &form.serve_list, id, types, 0);
        let item = Item {
            id,
            title: form.title.clone(),
            link: form.link.clone(),
            image: form.main_image.clone(),
            description: None,
            item_types: if 1 <= types && types <= 9 {
                types
            } else {
                1
            },
            price,
            user_id,
            created: now + CLOCK_SHIFT,
            position: form.position,
            price_acc: get_price_acc_values(&price),
            types,
            slug: form.slug.clone(),
            view: 0,
            seconds: 0,
        };
        self.items.push(item);
        Ok(1)
    }
}

impl Item {
    /// Hides the item: its status code becomes the hidden code.
    pub fn make_hide(&mut self) -> (done: i16)
        ensures
            done == 1,
            *final(self) == (Item { item_types: hidden_code(old(self).item_types), ..*old(self) }),
    {
        let code: i16 = self.item_types;
        self.item_types = if 1 <= code && code <= 9 {
            code + 10
        } else {
            11
        };
        1
    }

    /// Publishes the item: its status code becomes the published code.
    pub fn make_publish(&mut self) -> (done: i16)
        ensures
            done == 1,
            *final(self) == (Item { item_types: published_code(old(self).item_types), ..*old(self) }),
    {
        let code: i16 = self.item_types;
        self.item_types = if 11 <= code && code <= 19 {
            code - 10
        } else {
            1
        };
        1
    }
}

impl NewItem {
    /// The values of a new item: published, without price and description,
    /// not looked at yet, created at `now`.
    pub fn create(
        title: String,
        link: Option<String>,
        image: Option<String>,
        user_id: i32,
        position: i16,
        types: i16,
        slug: String,
        now: i64,
    ) -> (item: Self)
        requires
            now <= i64::MAX - 10_800_000_000,
        ensures
            item == (NewItem {
                title,
                link,
                image,
                description: None,
                item_types: 1,
                price: 0,
                user_id,
                created: stamp(now),
                position,
                price_acc: None,
                types,
                slug,
                view: 0,
                seconds: 0,
            }),
    {
        NewItem {
            title,
            link,
            image,
            description: None,
            item_types: 1,
            price: 0,
            user_id,
            created: now + CLOCK_SHIFT,
            position,
            price_acc: None,
            types,
            slug,
            view: 0,
            seconds: 0,
        }
    }
}

impl NewItemComment {
    /// The values of a new comment, created at `now`.
    pub fn new(comment: String, item_id: i32, user_id: i32, parent_id: Option<i32>, now: i64) -> (row:
        Self)
        requires
            now <= i64::MAX - 10_800_000_000,
        ensures
            row == (NewItemComment {
                comment,
                item_id,
                user_id,
                parent_id,
                created: stamp(now),
            }),
    {
        NewItemComment {
            comment,
            item_id,
            user_id,
            parent_id,
            created: now + CLOCK_SHIFT,
        }
    }
}

impl NewItemContent {
    /// The values of a new block of content, created at `now`.
    pub fn new(
        title: String,
        item_title: String,
        content: String,
        item_id: i32,
        item_types: i16,
        user_id: i32,
        position: i16,
        now: i64,
    ) -> (row: Self)
        requires
            now <= i64::MAX - 10_800_000_000,
        ensures
            row == (NewItemContent {
                title,
                item_title,
                content,
                types: 1,
                item_id,
                item_types,
                user_id,
                position,
                created: stamp(now),
            }),
    {
        NewItemContent {
            title,
            item_title,
            content,
            types: 1,
            item_id,
            item_types,
            user_id,
            position,
            created: now + CLOCK_SHIFT,
        }
    }
}

/// The place of the first item with the id, if there is one.
pub open spec fn item_place(c: Catalog, id: i32) -> Option<int> {
    if exists|at: int| is_first_with(c.items@, id, at) {
        Some(choose|at: int| is_first_with(c.items@, id, at))
    } else {
        None
    }
}

proof fn lemma_item_place(c: Catalog, id: i32, found: Option<usize>)
    requires
        is_lookup(c.items@, id, found),
    ensures
        match found {
            Some(at) => item_place(c, id) == Some(at as int),
            None => item_place(c, id) is None,
        },
{
    match found {
        Some(at) => {
            assert(is_first_with(c.items@, id, at as int));
            let other = choose|k: int| is_first_with(c.items@, id, k);
            assert(is_first_with(c.items@, id, other));
            if other < at {
                assert(c.items@[other].key() != id);
            } else if other > at {
                assert(c.items@[at as int].key() != id);
            }
        },
        None => {
            assert forall|k: int| !is_first_with(c.items@, id, k) by {
                if 0 <= k < c.items@.len() {
                    assert(c.items@[k].key() != id);
                }
            }
        },
    }
}

/// The request names an id and presents the form token.
pub open spec fn request_error(user_id: i32, data: DeleteItemData) -> Option<Error> {
    if user_id < 1 {
        Some(Error::PermissionDenied(Denial::Forbidden))
    } else if data.id is None || data.id->0 < 1 {
        Some(Error::ValidationFailed(Field::Id))
    } else if data.token is None || data.token->0@ != token_text() {
        Some(Error::PermissionDenied(Denial::Forbidden))
    } else {
        None
    }
}

/// Checks that a request names an id and presents the form token, and
/// returns the id.
pub fn check_request(user_id: i32, data: &DeleteItemData) -> (result: Result<i32, Error>)
    ensures
        match request_error(user_id, *data) {
            Some(e) => result == Err::<i32, Error>(e),
            None => result == Ok::<i32, Error>(data.id->0),
        },
{
    if user_id < 1 {
        return Err(Error::PermissionDenied(Denial::Forbidden));
    }
    let id: i32 = match data.id {
        Some(id) => id,
        None => {
            return Err(Error::ValidationFailed(Field::Id));
        },
    };
    if id < 1 {
        return Err(Error::ValidationFailed(Field::Id));
    }
    match &data.token {
        Some(token) => {
            if !token_ok(token.as_str()) {
                return Err(Error::PermissionDenied(Denial::Forbidden));
            }
        },
        None => {
            return Err(Error::PermissionDenied(Denial::Forbidden));
        },
    }
    Ok(id)
}

/// Why a form cannot edit an item, if it cannot.
pub open spec fn edit_item_error(c: Catalog, user_id: i32, form: ItemForm) -> Option<Error> {
    let cats = distinct(form.category_list@);
    let tags = distinct(form.tags_list@);
    if user_id < 1 || form.token@ != token_text() {
        Some(Error::PermissionDenied(Denial::Forbidden))
    } else if item_place(c, form.id) is None {
        Some(Error::NotFound(Missing::Item))
    } else {
        let item = c.items@[item_place(c, form.id)->0];
        let old_cats = targets_of(c.category@, item.id, item.types);
        let old_tags = targets_of(c.tags_items@, item.id, item.types);
        let kept_cats = without_links(c.category@, item.id, item.types);
        let kept_tags = without_links(c.tags_items@, item.id, item.types);
        let kept_serves = without_links(c.serve_items@, item.id, item.types);
        let kept_tech = without_links(c.tech_categories_items@, item.id, item.types);
        if user_id != item.user_id {
            Some(Error::PermissionDenied(Denial::Forbidden))
        } else if !categories_fit(c.categories@, cats, item.types) {
            Some(Error::NotFound(Missing::Category))
        } else if !all_present(c.tags@, tags) {
            Some(Error::NotFound(Missing::Tag))
        } else if !all_present(c.serve@, form.serve_list@) {
            Some(Error::NotFound(Missing::Serve))
        } else if !all_present(c.tech_categories@, form.close_tech_cats_list@) {
            Some(Error::NotFound(Missing::TechCategory))
        } else if !(i32::MIN <= form_price(c, form) <= i32::MAX) || !has_room(
            c.categories@,
            old_cats,
            -1,
        ) || !has_room(c.tags@, old_tags, -1) || !has_room(
            adjusted(c.categories@, old_cats, -1),
            cats,
            1,
        ) || (item.item_types < 10 && !has_room(adjusted(c.tags@, old_tags, -1), tags, 1)) {
            Some(Error::Conflict(Clash::OutOfRange))
        } else if max_key(kept_cats) + cats.len() > i32::MAX || max_key(kept_tags) + tags.len()
            > i32::MAX || max_key(kept_serves) + form.serve_list@.len() > i32::MAX || max_key(
            kept_tech,
        ) + form.close_tech_cats_list@.len() + form_open_cats(c, form).len() > i32::MAX {
            Some(Error::Conflict(Clash::KeysExhausted))
        } else {
            None
        }
    }
}

/// Why an item cannot be deleted, published or hidden at the request of
/// `user_id`, apart from the counters' range.
pub open spec fn owner_error(c: Catalog, user_id: i32, data: DeleteItemData) -> Option<Error> {
    if request_error(user_id, data) is Some {
        request_error(user_id, data)
    } else if item_place(c, data.id->0) is None {
        Some(Error::NotFound(Missing::Item))
    } else if c.items@[item_place(c, data.id->0)->0].user_id != user_id {
        Some(Error::PermissionDenied(Denial::Forbidden))
    } else {
        None
    }
}

/// Why the counters of the categories and tags of an item cannot all move by
/// `delta`, if they cannot.
pub open spec fn counters_error(c: Catalog, item: Item, delta: int) -> Option<Error> {
    if !has_room(c.categories@, targets_of(c.category@, item.id, item.types), delta) || !has_room(
        c.tags@,
        targets_of(c.tags_items@, item.id, item.types),
        delta,
    ) {
        Some(Error::Conflict(Clash::OutOfRange))
    } else {
        None
    }
}

/// Why a request cannot change the item it names, if it cannot.
pub open spec fn change_error(c: Catalog, user_id: i32, data: DeleteItemData, delta: int) -> Option<
    Error,
> {
    if owner_error(c, user_id, data) is Some {
        owner_error(c, user_id, data)
    } else {
        counters_error(c, c.items@[item_place(c, data.id->0)->0], delta)
    }
}

/// The files of an item.
pub open spec fn is_file_of(file: File, item: i32, kind: i16) -> bool {
    file.item_id == item && file.item_types == kind
}

/// The paths of the files of an item, in the order of the file table.
pub open spec fn file_paths(files: Seq<File>, item: i32, kind: i16) -> Seq<String> {
    files.filter(|f: File| is_file_of(f, item, kind)).map_values(|f: File| f.src)
}

/// The file table without the files of an item.
pub open spec fn without_files(files: Seq<File>, item: i32, kind: i16) -> Seq<File> {
    files.filter(|f: File| !is_file_of(f, item, kind))
}

/// Splits the file table into the paths of an item's files and the rows of
/// all other files.
pub fn split_files(files: &Vec<File>, item: i32, kind: i16) -> (result: (Vec<String>, Vec<File>))
    ensures
        result.0@ == file_paths(files@, item, kind),
        result.1@ == without_files(files@, item, kind),
{
    let ghost own = |f: File| is_file_of(f, item, kind);
    let ghost other = |f: File| !is_file_of(f, item, kind);
    let ghost pick = |f: File| f.src;
    let mut paths: Vec<String> = Vec::new();
    let mut kept: Vec<File> = Vec::new();
    let mut i: usize = 0;
    assert(files@.take(0).filter(own).map_values(pick) =~= paths@);
    assert(files@.take(0).filter(other) =~= kept@);
    while i < files.len()
        invariant
            i <= files.len(),
            own == |f: File| is_file_of(f, item, kind),
            other == |f: File| !is_file_of(f, item, kind),
            pick == |f: File| f.src,
            paths@ == files@.take(i as int).filter(own).map_values(pick),
            kept@ == files@.take(i as int).filter(other),
        decreases files.len() - i,
    {
        proof {
            assert(files@.take(i + 1) =~= files@.take(i as int).push(files@[i as int]));
            Seq::lemma_filter_push(files@.take(i as int), files@[i as int], own);
            Seq::lemma_filter_push(files@.take(i as int), files@[i as int], other);
        }
        if files[i].item_id == item && files[i].item_types == kind {
            paths.push(files[i].src.clone());
            assert(paths@ =~= files@.take(i + 1).filter(own).map_values(pick));
        } else {
            kept.push(files[i].copy());
        }
        i += 1;
    }
    assert(files@.take(files.len() as int) =~= files@);
    (paths, kept)
}

/// The reference counter: what the counters of categories and tags and the
/// links to them do when an item is published, hidden, edited or deleted.
impl Catalog {
    /// Counts a published item in: the counter of every category and of
    /// every tag that the item is linked to goes up by one.
    pub fn on_publish(&mut self, item: i32, kind: i16)
        requires
            has_room(old(self).categories@, targets_of(old(self).category@, item, kind), 1),
            has_room(old(self).tags@, targets_of(old(self).tags_items@, item, kind), 1),
        ensures
            final(self).categories@ == adjusted(
                old(self).categories@,
                targets_of(old(self).category@, item, kind),
                1,
            ),
            final(self).tags@ == adjusted(
                old(self).tags@,
                targets_of(old(self).tags_items@, item, kind),
                1,
            ),
            same_beside(*old(self), *final(self), set![Table::Categories, Table::Tags]),
    {
        let cats: Vec<i32> = collect_targets(&self.category, item, kind);
        let tags: Vec<i32> = collect_targets(&self.tags_items, item, kind);
        adjust_counts(&mut self.categories, &cats, 1);
        adjust_counts(&mut self.tags, &tags, 1);
    }

    /// Counts a hidden item out, or, under the mirror policy, moves the
    /// counters as publishing does: the counter of every category and of
    /// every tag that the item is linked to moves by the policy's step.
    pub fn on_hide(&mut self, item: i32, kind: i16, policy: HidePolicy)
        requires
            has_room(
                old(self).categories@,
                targets_of(old(self).category@, item, kind),
                policy.delta(),
            ),
            has_room(
                old(self).tags@,
                targets_of(old(self).tags_items@, item, kind),
                policy.delta(),
            ),
        ensures
            final(self).categories@ == adjusted(
                old(self).categories@,
                targets_of(old(self).category@, item, kind),
                policy.delta(),
            ),
            final(self).tags@ == adjusted(
                old(self).tags@,
                targets_of(old(self).tags_items@, item, kind),
                policy.delta(),
            ),
            same_beside(*old(self), *final(self), set![Table::Categories, Table::Tags]),
    {
        let delta: i16 = match policy {
            HidePolicy::Decrement => -1,
            HidePolicy::MirrorPublish => 1,
        };
        let cats: Vec<i32> = collect_targets(&self.category, item, kind);
        let tags: Vec<i32> = collect_targets(&self.tags_items, item, kind);
        adjust_counts(&mut self.categories, &cats, delta);
        adjust_counts(&mut self.tags, &tags, delta);
    }

    /// Before the links of an item are rewritten: the counter of every
    /// category and of every tag that the item is linked to goes down by
    /// one, and the links are dropped.
    pub fn on_edit_remove_links(&mut self, item: i32, kind: i16)
        requires
            has_room(old(self).categories@, targets_of(old(self).category@, item, kind), -1),
            has_room(old(self).tags@, targets_of(old(self).tags_items@, item, kind), -1),
        ensures
            final(self).categories@ == adjusted(
                old(self).categories@,
                targets_of(old(self).category@, item, kind),
                -1,
            ),
            final(self).tags@ == adjusted(
                old(self).tags@,
                targets_of(old(self).tags_items@, item, kind),
                -1,
            ),
            final(self).category@ == without_links(old(self).category@, item, kind),
            final(self).tags_items@ == without_links(old(self).tags_items@, item, kind),
            same_beside(
                *old(self),
                *final(self),
                set![Table::Categories, Table::Tags, Table::Category, Table::TagsItems],
            ),
    {
        let cats: Vec<i32> = collect_targets(&self.category, item, kind);
        let tags: Vec<i32> = collect_targets(&self.tags_items, item, kind);
        adjust_counts(&mut self.categories, &cats, -1);
        adjust_counts(&mut self.tags, &tags, -1);
        let links = links_without(&self.category, item, kind);
        let tag_links = links_without(&self.tags_items, item, kind);
        self.category = links;
        self.tags_items = tag_links;
    }

    /// After the links of an item are rewritten: the item is linked to each
    /// of the categories and tags, and the counter of each category goes up
    /// by one, as does that of each tag if the item is published.
    pub fn on_edit_add_links(
        &mut self,
        item: i32,
        kind: i16,
        published: bool,
        cats: &Vec<i32>,
        tags: &Vec<i32>,
        now: i64,
    )
        requires
            has_room(old(self).categories@, cats@, 1),
            published ==> has_room(old(self).tags@, tags@, 1),
            max_key(old(self).category@) + cats.len() <= i32::MAX,
            max_key(old(self).tags_items@) + tags.len() <= i32::MAX,
        ensures
            final(self).categories@ == adjusted(old(self).categories@, cats@, 1),
            final(self).tags@ == if published {
                adjusted(old(self).tags@, tags@, 1)
            } else {
                old(self).tags@
            },
            final(self).category@ == with_links(old(self).category@, cats@, item, kind, 0),
            final(self).tags_items@ == with_links(old(self).tags_items@, tags@, item, kind, now),
            same_beside(
                *old(self),
                *final(self),
                set![Table::Categories, Table::Tags, Table::Category, Table::TagsItems],
            ),
    {
        append_links(&mut self.category, cats, item, kind, 0);
        adjust_counts(&mut self.categories, cats, 1);
        append_links(&mut self.tags_items, tags, item, kind, now);
        if published {
            adjust_counts(&mut self.tags, tags, 1);
        }
    }

    /// Counts an item that is deleted out and removes it: the counter of
    /// every category and of every tag that the item is linked to goes down
    /// by one, the links are dropped, and the item is removed.
    pub fn on_delete(&mut self, at: usize)
        requires
            at < old(self).items@.len(),
            counters_error(*old(self), old(self).items@[at as int], -1) is None,
        ensures
            final(self).items@ == old(self).items@.remove(at as int),
            final(self).categories@ == adjusted(
                old(self).categories@,
                targets_of(
                    old(self).category@,
                    old(self).items@[at as int].id,
                    old(self).items@[at as int].types,
                ),
                -1,
            ),
            final(self).tags@ == adjusted(
                old(self).tags@,
                targets_of(
                    old(self).tags_items@,
                    old(self).items@[at as int].id,
                    old(self).items@[at as int].types,
                ),
                -1,
            ),
            final(self).category@ == without_links(
                old(self).category@,
                old(self).items@[at as int].id,
                old(self).items@[at as int].types,
            ),
            final(self).tags_items@ == without_links(
                old(self).tags_items@,
                old(self).items@[at as int].id,
                old(self).items@[at as int].types,
            ),
            same_beside(
                *old(self),
                *final(self),
                set![
                    Table::Items,
                    Table::Categories,
                    Table::Tags,
                    Table::Category,
                    Table::TagsItems,
                ],
            ),
    {
        let id: i32 = self.items[at].id;
        let kind: i16 = self.items[at].types;
        self.on_edit_remove_links(id, kind);
        self.items.remove(at);
    }
}

/// `post` is `pre` after the form has edited the item at `at`.
pub open spec fn item_edited(pre: Catalog, post: Catalog, form: ItemForm, now: i64) -> bool {
    let at = item_place(pre, form.id)->0;
    let item = pre.items@[at];
    let cats = distinct(form.category_list@);
    let tags = distinct(form.tags_list@);
    let old_cats = targets_of(pre.category@, item.id, item.types);
    let old_tags = targets_of(pre.tags_items@, item.id, item.types);
    &&& post.items@ == pre.items@.update(at, edited_item(item, form, form_price(pre, form) as i32))
    &&& post.category@ == with_links(
        without_links(pre.category@, item.id, item.types),
        cats,
        item.id,
        item.types,
        0,
    )
    &&& post.categories@ == adjusted(adjusted(pre.categories@, old_cats, -1), cats, 1)
    &&& post.tags_items@ == with_links(
        without_links(pre.tags_items@, item.id, item.types),
        tags,
        item.id,
        item.types,
        now,
    )
    &&& post.tags@ == if item.item_types < 10 {
        adjusted(adjusted(pre.tags@, old_tags, -1), tags, 1)
    } else {
        adjusted(pre.tags@, old_tags, -1)
    }
    &&& post.serve_items@ == with_links(
        without_links(pre.serve_items@, item.id, item.types),
        form.serve_list@,
        item.id,
        item.types,
        0,
    )
    &&& post.tech_categories_items@ == with_tech_links(
        without_links(pre.tech_categories_items@, item.id, item.types),
        form.close_tech_cats_list@,
        form_open_cats(pre, form),
        item.id,
        item.types,
    )
    &&& post.files == pre.files
    &&& same_beside_items(pre, post)
}

/// `post` is `pre` after the item at `at` has been deleted.
pub open spec fn item_deleted(pre: Catalog, post: Catalog, at: int) -> bool {
    let item = pre.items@[at];
    &&& post.items@ == pre.items@.remove(at)
    &&& post.files@ == without_files(pre.files@, item.id, item.types)
    &&& post.category@ == without_links(pre.category@, item.id, item.types)
    &&& post.categories@ == adjusted(
        pre.categories@,
        targets_of(pre.category@, item.id, item.types),
        -1,
    )
    &&& post.tags_items@ == without_links(pre.tags_items@, item.id, item.types)
    &&& post.tags@ == adjusted(pre.tags@, targets_of(pre.tags_items@, item.id, item.types), -1)
    &&& post.serve_items == pre.serve_items
    &&& post.tech_categories_items == pre.tech_categories_items
    &&& same_beside_items(pre, post)
}

/// `post` is `pre` after the status code of the item at `at` has become
/// `code` and the counters of its categories and tags have moved by `delta`.
pub open spec fn item_turned(pre: Catalog, post: Catalog, at: int, code: i16, delta: int) -> bool {
    let item = pre.items@[at];
    &&& post.items@ == pre.items@.update(at, Item { item_types: code, ..item })
    &&& post.categories@ == adjusted(
        pre.categories@,
        targets_of(pre.category@, item.id, item.types),
        delta,
    )
    &&& post.tags@ == adjusted(pre.tags@, targets_of(pre.tags_items@, item.id, item.types), delta)
    &&& post.category == pre.category
    &&& post.tags_items == pre.tags_items
    &&& post.serve_items == pre.serve_items
    &&& post.tech_categories_items == pre.tech_categories_items
    &&& post.files == pre.files
    &&& same_beside_items(pre, post)
}

impl Catalog {
    /// Edits an item with a form, at the request of its owner: takes the item
    /// out of the counters of its categories and tags and drops all its
    /// links; replaces its title, link, image, position and slug; links it
    /// anew as the form says and counts it in the new categories, and in the
    /// new tags if it is published; and prices it anew.
    pub fn edit_item(&mut self, user_id: i32, form: &ItemForm, now: i64) -> (result: Result<
        i16,
        Error,
    >)
        ensures
            match edit_item_error(*old(self), user_id, *form) {
                Some(e) => result == Err::<i16, Error>(e) && *final(self) == *old(self),
                None => result == Ok::<i16, Error>(1) && item_edited(
                    *old(self),
                    *final(self),
                    *form,
                    now,
                ),
            },
    {
        if user_id < 1 || !token_ok(form.token.as_str()) {
            return Err(Error::PermissionDenied(Denial::Forbidden));
        }
        let found: Option<usize> = find_row(&self.items, form.id);
        proof {
            lemma_item_place(*self, form.id, found);
        }
        let at: usize = match found {
            Some(at) => at,
            None => {
                return Err(Error::NotFound(Missing::Item));
            },
        };
        let id: i32 = self.items[at].id;
        let types: i16 = self.items[at].types;
        let published: bool = self.items[at].item_types < 10;
        if user_id != self.items[at].user_id {
            return Err(Error::PermissionDenied(Denial::Forbidden));
        }
        let cats: Vec<i32> = dedup_ids(&form.category_list);
        let tags: Vec<i32> = dedup_ids(&form.tags_list);
        if !fits(&self.categories, &cats, types) {
            return Err(Error::NotFound(Missing::Category));
        }
        if !all_found(&self.tags, &tags) {
            return Err(Error::NotFound(Missing::Tag));
        }
        if !all_found(&self.serve, &form.serve_list) {
            return Err(Error::NotFound(Missing::Serve));
        }
        if !all_found(&self.tech_categories, &form.close_tech_cats_list) {
            return Err(Error::NotFound(Missing::TechCategory));
        }
        let (price_found, open_cats) = price_of(&self.serve, &form.serve_list);
        let price: i32 = match price_found {
            Some(p) => p,
            None => {
                return Err(Error::Conflict(Clash::OutOfRange));
            },
        };
        let old_cats: Vec<i32> = collect_targets(&self.category, id, types);
        let old_tags: Vec<i32> = collect_targets(&self.tags_items, id, types);
        if !room_for(&self.categories, &old_cats, -1) || !room_for(&self.tags, &old_tags, -1) {
            return Err(Error::Conflict(Clash::OutOfRange));
        }
        let mut categories = copy_rows(&self.categories);
        adjust_counts(&mut categories, &old_cats, -1);
        if !room_for(&categories, &cats, 1) {
            return Err(Error::Conflict(Clash::OutOfRange));
        }
        let mut tag_rows = copy_rows(&self.tags);
        adjust_counts(&mut tag_rows, &old_tags, -1);
        if published && !room_for(&tag_rows, &tags, 1) {
            return Err(Error::Conflict(Clash::OutOfRange));
        }
        let links = links_without(&self.category, id, types);
        let tag_links = links_without(&self.tags_items, id, types);
        let mut serve_links = links_without(&self.serve_items, id, types);
        let mut tech = links_without(&self.tech_categories_items, id, types);
        if !keys_left(&links, cats.len()) || !keys_left(&tag_links, tags.len()) || !keys_left(
            &serve_links,
            form.serve_list.len(),
        ) {
            return Err(Error::Conflict(Clash::KeysExhausted));
        }
        if !keys_left(&tech, form.close_tech_cats_list.len()) {
            return Err(Error::Conflict(Clash::KeysExhausted));
        }
        proof {
            lemma_max_key_with_links(tech@, form.close_tech_cats_list@, id, types, 2);
        }
        append_links(&mut tech, &form.close_tech_cats_list, id, types, 2);
        if !keys_left(&tech, open_cats.len()) {
            return Err(Error::Conflict(Clash::KeysExhausted));
        }
        append_links(&mut tech, &open_cats, id, types, 1);
        append_links(&mut serve_links, &form.serve_list, id, types, 0);
        self.on_edit_remove_links(id, types);
        self.on_edit_add_links(id, types, published, &cats, &tags, now);
        self.serve_items = serve_links;
        self.tech_categories_items = tech;
        self.items[at].title = form.title.clone();
        self.items[at].link = form.link.clone();
        self.items[at].image = form.main_image.clone();
        self.items[at].position = form.position;
        self.items[at].slug = form.slug.clone();
        self.items[at].price = price;
        self.items[at].price_acc = get_price_acc_values(&price);
        assert(self.items@ =~= old(self).items@.update(
            at as int,
            edited_item(old(self).items@[at as int], *form, price),
        ));
        Ok(1)
    }

    /// Deletes an item at the request of its owner: takes it out of the
    /// counters of its categories and tags, drops its links to them and its
    /// file rows, and removes the item. Returns the paths of the item's
    /// files, which the caller has to remove from the disk.
    pub fn delete_item(&mut self, user_id: i32, data: &DeleteItemData) -> (result: Result<
        Vec<String>,
        Error,
    >)
        ensures
            match change_error(*old(self), user_id, *data, -1) {
                Some(e) => result == Err::<Vec<String>, Error>(e) && *final(self) == *old(self),
                None => {
                    let at = item_place(*old(self), data.id->0)->0;
                    let item = old(self).items@[at];
                    &&& result matches Ok(paths) && paths@ == file_paths(
                        old(self).files@,
                        item.id,
                        item.types,
                    )
                    &&& item_deleted(*old(self), *final(self), at)
                },
            },
    {
        let id: i32 = match check_request(user_id, data) {
            Ok(id) => id,
            Err(e) => {
                return Err(e);
            },
        };
        let found: Option<usize> = find_row(&self.items, id);
        proof {
            lemma_item_place(*self, id, found);
        }
        let at: usize = match found {
            Some(at) => at,
            None => {
                return Err(Error::NotFound(Missing::Item));
            },
        };
        if self.items[at].user_id != user_id {
            return Err(Error::PermissionDenied(Denial::Forbidden));
        }
        let types: i16 = self.items[at].types;
        let old_cats: Vec<i32> = collect_targets(&self.category, id, types);
        let old_tags: Vec<i32> = collect_targets(&self.tags_items, id, types);
        if !room_for(&self.categories, &old_cats, -1) || !room_for(&self.tags, &old_tags, -1) {
            return Err(Error::Conflict(Clash::OutOfRange));
        }
        let (paths, kept_files) = split_files(&self.files, id, types);
        self.files = kept_files;
        self.on_delete(at);
        Ok(paths)
    }

    /// Publishes an item at the request of its owner and counts it in its
    /// categories and tags: each of their counters goes up by one.
    pub fn publish_item(&mut self, user_id: i32, data: &DeleteItemData) -> (result: Result<
        i16,
        Error,
    >)
        ensures
            match change_error(*old(self), user_id, *data, 1) {
                Some(e) => result == Err::<i16, Error>(e) && *final(self) == *old(self),
                None => {
                    let at = item_place(*old(self), data.id->0)->0;
                    &&& result == Ok::<i16, Error>(1)
                    &&& item_turned(
                        *old(self),
                        *final(self),
                        at,
                        published_code(old(self).items@[at].item_types),
                        1,
                    )
                },
            },
    {
        let id: i32 = match check_request(user_id, data) {
            Ok(id) => id,
            Err(e) => {
                return Err(e);
            },
        };
        let found: Option<usize> = find_row(&self.items, id);
        proof {
            lemma_item_place(*self, id, found);
        }
        let at: usize = match found {
            Some(at) => at,
            None => {
                return Err(Error::NotFound(Missing::Item));
            },
        };
        if self.items[at].user_id != user_id {
            return Err(Error::PermissionDenied(Denial::Forbidden));
        }
        let types: i16 = self.items[at].types;
        let cats: Vec<i32> = collect_targets(&self.category, id, types);
        let tags: Vec<i32> = collect_targets(&self.tags_items, id, types);
        if !room_for(&self.categories, &cats, 1) || !room_for(&self.tags, &tags, 1) {
            return Err(Error::Conflict(Clash::OutOfRange));
        }
        self.items[at].make_publish();
        self.on_publish(id, types);
        assert(self.items@ =~= old(self).items@.update(
            at as int,
            Item {
                item_types: published_code(old(self).items@[at as int].item_types),
                ..old(self).items@[at as int]
            },
        ));
        Ok(1)
    }

    /// Hides an item at the request of its owner and moves the counters of
    /// its categories and tags as the policy says.
    pub fn hide_item(&mut self, user_id: i32, data: &DeleteItemData, policy: HidePolicy) -> (result:
        Result<i16, Error>)
        ensures
            match change_error(*old(self), user_id, *data, policy.delta()) {
                Some(e) => result == Err::<i16, Error>(e) && *final(self) == *old(self),
                None => {
                    let at = item_place(*old(self), data.id->0)->0;
                    &&& result == Ok::<i16, Error>(1)
                    &&& item_turned(
                        *old(self),
                        *final(self),
                        at,
                        hidden_code(old(self).items@[at].item_types),
                        policy.delta(),
                    )
                },
            },
    {
        let id: i32 = match check_request(user_id, data) {
            Ok(id) => id,
            Err(e) => {
                return Err(e);
            },
        };
        let found: Option<usize> = find_row(&self.items, id);
        proof {
            lemma_item_place(*self, id, found);
        }
        let at: usize = match found {
            Some(at) => at,
            None => {
                return Err(Error::NotFound(Missing::Item));
            },
        };
        if self.items[at].user_id != user_id {
            return Err(Error::PermissionDenied(Denial::Forbidden));
        }
        let delta: i16 = match policy {
            HidePolicy::Decrement => -1,
            HidePolicy::MirrorPublish => 1,
        };
        let types: i16 = self.items[at].types;
        let cats: Vec<i32> = collect_targets(&self.category, id, types);
        let tags: Vec<i32> = collect_targets(&self.tags_items, id, types);
        if !room_for(&self.categories, &cats, delta) || !room_for(&self.tags, &tags, delta) {
            return Err(Error::Conflict(Clash::OutOfRange));
        }
        self.items[at].make_hide();
        self.on_hide(id, types, policy);
        assert(self.items@ =~= old(self).items@.update(
            at as int,
            Item {
                item_types: hidden_code(old(self).items@[at as int].item_types),
                ..old(self).items@[at as int]
            },
        ));
        Ok(1)
    }
}

} // verus!
