//! Counter conservation and scoping: what the operations on items keep true of the catalog.

use vstd::prelude::*;
use crate::catalog::{Catalog, Keyed, max_key, lemma_max_key_bounds, is_first_with, keys_unique};
use crate::counter::{
    Counted, distinct, lemma_distinct, targets_of, without_links, adjusted, Linking, is_of,
};
use crate::items::{
    ItemForm, DeleteItemData, HidePolicy, create_item_error, edit_item_error, change_error,
    item_created, item_edited, item_deleted, item_turned, item_place, new_item, edited_item,
    form_price, categories_fit, category_fits,
};
use crate::kinds::{hidden_code, published_code};
use crate::ledger::{
    counts_match, links_sound, items_sound, is_live, live_count, turned, law_link_conserves,
    law_unlink_conserves, law_store_conserves, law_remove_conserves, law_rewrite_conserves,
    law_publish_conserves, law_hide_conserves, counts_hold, items_hold, lemma_targets_lead,
    links_hold,
};
use crate::models::Item;

verus! {

/// The counters of the catalog are right: no two items share an id, no item
/// is linked twice to one category or tag, every link belongs to a stored
/// item, and the counter of every category and of every tag equals the
/// number of published items linked to it.
pub open spec fn counts_consistent(c: Catalog) -> bool {
    &&& items_sound(c.items@)
    &&& links_sound(c.items@, c.category@)
    &&& links_sound(c.items@, c.tags_items@)
    &&& counts_match(c.items@, c.categories@, c.category@)
    &&& counts_match(c.items@, c.tags@, c.tags_items@)
}

/// Tests whether the counters of the catalog are right.
pub fn is_consistent(catalog: &Catalog) -> (ok: bool)
    ensures
        ok == counts_consistent(*catalog),
{
    items_hold(&catalog.items) && links_hold(
        &catalog.items,
        &catalog.category,
    ) && links_hold(&catalog.items, &catalog.tags_items)
        && counts_hold(&catalog.items, &catalog.categories, &catalog.category)
        && counts_hold(&catalog.items, &catalog.tags, &catalog.tags_items)
}

/// Every stored item is published.
pub open spec fn all_published(c: Catalog) -> bool {
    forall|j: int| 0 <= j < c.items@.len() ==> (#[trigger] c.items@[j]).item_types < 10
}

proof fn lemma_place_is_live(c: Catalog, id: i32)
    requires
        item_place(c, id) is Some,
    ensures
        0 <= item_place(c, id)->0 < c.items@.len(),
        c.items@[item_place(c, id)->0].id == id,
        c.items@[item_place(c, id)->0].item_types < 10 ==> is_live(
            c.items@,
            id,
            c.items@[item_place(c, id)->0].types,
        ),
{
    let at = item_place(c, id)->0;
    assert(is_first_with(c.items@, id, at));
    assert(c.items@[at].key() == id);
}

proof fn lemma_items_sound_update(items: Seq<Item>, at: int, item: Item)
    requires
        0 <= at < items.len(),
        items_sound(items),
        item.id == items[at].id,
    ensures
        items_sound(items.update(at, item)),
{
    let next = items.update(at, item);
    assert forall|i: int, j: int| 0 <= i < j < next.len() implies (#[trigger] next[i]).id != (
    #[trigger] next[j]).id by {
        assert(next[i].id == items[i].id && next[j].id == items[j].id);
    }
}

/// Creating an item keeps the counters right.
pub proof fn law_create_conserves(
    pre: Catalog,
    post: Catalog,
    user_id: i32,
    form: ItemForm,
    now: i64,
)
    requires
        counts_consistent(pre),
        create_item_error(pre, user_id, form) is None,
        item_created(pre, post, user_id, form, now),
    ensures
        counts_consistent(post),
        all_published(pre) ==> all_published(post),
{
    let id = (max_key(pre.items@) + 1) as i32;
    let item = new_item(id, user_id, form, form_price(pre, form) as i32, now);
    let items = pre.items@.push(item);
    let cats = distinct(form.category_list@);
    let tags = distinct(form.tags_list@);
    lemma_max_key_bounds(pre.items@);
    assert forall|j: int| 0 <= j < pre.items@.len() implies (#[trigger] pre.items@[j]).id
        != item.id by {
        assert(pre.items@[j].key() <= max_key(pre.items@));
    }
    lemma_distinct(form.category_list@);
    lemma_distinct(form.tags_list@);
    assert(items[items.len() - 1] == item);
    assert(is_live(items, id, form.types));
    law_store_conserves(pre.items@, pre.categories@, pre.category@, item);
    law_link_conserves(items, pre.categories@, pre.category@, cats, id, form.types, 0);
    law_store_conserves(pre.items@, pre.tags@, pre.tags_items@, item);
    law_link_conserves(items, pre.tags@, pre.tags_items@, tags, id, form.types, now);
    assert forall|i: int, j: int| 0 <= i < j < items.len() implies (#[trigger] items[i]).id != (
    #[trigger] items[j]).id by {
        if j < pre.items@.len() {
            assert(items[i] == pre.items@[i] && items[j] == pre.items@[j]);
        } else {
            assert(items[i] == pre.items@[i]);
        }
    }
    if all_published(pre) {
        assert forall|j: int| 0 <= j < post.items@.len() implies (#[trigger] post.items@[j]).item_types
            < 10 by {
            if j < pre.items@.len() {
                assert(post.items@[j] == pre.items@[j]);
            }
        }
    }
}

/// Editing a published item keeps the counters right.
pub proof fn law_edit_conserves(pre: Catalog, post: Catalog, user_id: i32, form: ItemForm, now: i64)
    requires
        counts_consistent(pre),
        edit_item_error(pre, user_id, form) is None,
        pre.items@[item_place(pre, form.id)->0].item_types < 10,
        item_edited(pre, post, form, now),
    ensures
        counts_consistent(post),
        all_published(pre) ==> all_published(post),
{
    let at = item_place(pre, form.id)->0;
    lemma_place_is_live(pre, form.id);
    let item = pre.items@[at];
    let next = edited_item(item, form, form_price(pre, form) as i32);
    let cats = distinct(form.category_list@);
    let tags = distinct(form.tags_list@);
    let old_cats = targets_of(pre.category@, item.id, item.types);
    let old_tags = targets_of(pre.tags_items@, item.id, item.types);
    lemma_distinct(form.category_list@);
    lemma_distinct(form.tags_list@);
    law_unlink_conserves(pre.items@, pre.categories@, pre.category@, item.id, item.types);
    law_link_conserves(
        pre.items@,
        adjusted(pre.categories@, old_cats, -1),
        without_links(pre.category@, item.id, item.types),
        cats,
        item.id,
        item.types,
        0,
    );
    law_rewrite_conserves(pre.items@, post.categories@, post.category@, at, next);
    law_unlink_conserves(pre.items@, pre.tags@, pre.tags_items@, item.id, item.types);
    law_link_conserves(
        pre.items@,
        adjusted(pre.tags@, old_tags, -1),
        without_links(pre.tags_items@, item.id, item.types),
        tags,
        item.id,
        item.types,
        now,
    );
    law_rewrite_conserves(pre.items@, post.tags@, post.tags_items@, at, next);
    lemma_items_sound_update(pre.items@, at, next);
    if all_published(pre) {
        assert forall|j: int| 0 <= j < post.items@.len() implies (#[trigger] post.items@[j]).item_types
            < 10 by {
            if j != at {
                assert(post.items@[j] == pre.items@[j]);
            }
        }
    }
}

/// Deleting a published item keeps the counters right.
pub proof fn law_delete_conserves(pre: Catalog, post: Catalog, user_id: i32, data: DeleteItemData)
    requires
        counts_consistent(pre),
        change_error(pre, user_id, data, -1) is None,
        pre.items@[item_place(pre, data.id->0)->0].item_types < 10,
        item_deleted(pre, post, item_place(pre, data.id->0)->0),
    ensures
        counts_consistent(post),
        all_published(pre) ==> all_published(post),
{
    let at = item_place(pre, data.id->0)->0;
    lemma_place_is_live(pre, data.id->0);
    let item = pre.items@[at];
    law_unlink_conserves(pre.items@, pre.categories@, pre.category@, item.id, item.types);
    law_remove_conserves(pre.items@, post.categories@, post.category@, at);
    law_unlink_conserves(pre.items@, pre.tags@, pre.tags_items@, item.id, item.types);
    law_remove_conserves(pre.items@, post.tags@, post.tags_items@, at);
    let less = pre.items@.remove(at);
    assert forall|i: int, j: int| 0 <= i < j < less.len() implies (#[trigger] less[i]).id != (
    #[trigger] less[j]).id by {
        let a = if i < at {
            i
        } else {
            i + 1
        };
        let b = if j < at {
            j
        } else {
            j + 1
        };
        assert(less[i] == pre.items@[a] && less[j] == pre.items@[b]);
    }
    if all_published(pre) {
        assert forall|j: int| 0 <= j < less.len() implies (#[trigger] less[j]).item_types < 10 by {
            let b = if j < at {
                j
            } else {
                j + 1
            };
            assert(less[j] == pre.items@[b]);
        }
    }
}

/// Publishing a hidden item keeps the counters right.
pub proof fn law_publish_item_conserves(
    pre: Catalog,
    post: Catalog,
    user_id: i32,
    data: DeleteItemData,
)
    requires
        counts_consistent(pre),
        change_error(pre, user_id, data, 1) is None,
        pre.items@[item_place(pre, data.id->0)->0].item_types >= 10,
        item_turned(
            pre,
            post,
            item_place(pre, data.id->0)->0,
            published_code(pre.items@[item_place(pre, data.id->0)->0].item_types),
            1,
        ),
    ensures
        counts_consistent(post),
{
    let at = item_place(pre, data.id->0)->0;
    lemma_place_is_live(pre, data.id->0);
    let code = published_code(pre.items@[at].item_types);
    law_publish_conserves(pre.items@, pre.categories@, pre.category@, at, code);
    law_publish_conserves(pre.items@, pre.tags@, pre.tags_items@, at, code);
    lemma_items_sound_update(pre.items@, at, Item { item_types: code, ..pre.items@[at] });
    assert(post.items@ == turned(pre.items@, at, code));
}

/// Hiding a published item keeps the counters right, where hiding takes the
/// item out of the counters.
pub proof fn law_hide_item_conserves(
    pre: Catalog,
    post: Catalog,
    user_id: i32,
    data: DeleteItemData,
)
    requires
        counts_consistent(pre),
        change_error(pre, user_id, data, -1) is None,
        pre.items@[item_place(pre, data.id->0)->0].item_types < 10,
        item_turned(
            pre,
            post,
            item_place(pre, data.id->0)->0,
            hidden_code(pre.items@[item_place(pre, data.id->0)->0].item_types),
            HidePolicy::Decrement.delta(),
        ),
    ensures
        counts_consistent(post),
{
    let at = item_place(pre, data.id->0)->0;
    lemma_place_is_live(pre, data.id->0);
    let code = hidden_code(pre.items@[at].item_types);
    law_hide_conserves(pre.items@, pre.categories@, pre.category@, at, code);
    law_hide_conserves(pre.items@, pre.tags@, pre.tags_items@, at, code);
    lemma_items_sound_update(pre.items@, at, Item { item_types: code, ..pre.items@[at] });
    assert(post.items@ == turned(pre.items@, at, code));
}

/// One request to create, edit or delete an item.
pub enum Change {
    Create { user_id: i32, form: ItemForm, now: i64 },
    Edit { user_id: i32, form: ItemForm, now: i64 },
    Delete { user_id: i32, data: DeleteItemData },
}

/// `post` is the catalog that the request leaves behind when it meets the
/// catalog `pre`: the changed catalog, or `pre` itself where the request is
/// rejected.
pub open spec fn follows(pre: Catalog, post: Catalog, change: Change) -> bool {
    match change {
        Change::Create { user_id, form, now } => match create_item_error(pre, user_id, form) {
            Some(_) => post == pre,
            None => item_created(pre, post, user_id, form, now),
        },
        Change::Edit { user_id, form, now } => match edit_item_error(pre, user_id, form) {
            Some(_) => post == pre,
            None => item_edited(pre, post, form, now),
        },
        Change::Delete { user_id, data } => match change_error(pre, user_id, data, -1) {
            Some(_) => post == pre,
            None => item_deleted(pre, post, item_place(pre, data.id->0)->0),
        },
    }
}

/// Counter conservation. Start from a catalog whose counters are right and
/// whose items are all published, and let any sequence of requests to
/// create, edit and delete items run, each against the catalog that the one
/// before left behind. Then the counters are right at the end: the counter
/// of every category, and of every tag, equals the number of published
/// items that are linked to it.
pub proof fn law_counter_conservation(states: Seq<Catalog>, changes: Seq<Change>)
    requires
        states.len() == changes.len() + 1,
        counts_consistent(states[0]),
        all_published(states[0]),
        forall|k: int|
            0 <= k < changes.len() ==> follows(states[k], states[k + 1], #[trigger] changes[k]),
    ensures
        counts_consistent(states.last()),
        all_published(states.last()),
        forall|i: int|
            0 <= i < states.last().categories@.len() ==> (
            #[trigger] states.last().categories@[i]).count == live_count(
                states.last().items@,
                states.last().category@,
                states.last().categories@[i].id,
            ),
    decreases changes.len(),
{
    if changes.len() > 0 {
        let n = changes.len() - 1;
        let front = states.drop_last();
        let done = changes.drop_last();
        assert forall|k: int| 0 <= k < done.len() implies follows(
            front[k],
            front[k + 1],
            #[trigger] done[k],
        ) by {
            assert(follows(states[k], states[k + 1], changes[k]));
        }
        law_counter_conservation(front, done);
        let pre = states[n];
        let post = states[n + 1];
        assert(front.last() == pre);
        assert(follows(pre, post, changes[n]));
        match changes[n] {
            Change::Create { user_id, form, now } => {
                if create_item_error(pre, user_id, form) is None {
                    law_create_conserves(pre, post, user_id, form, now);
                }
            },
            Change::Edit { user_id, form, now } => {
                if edit_item_error(pre, user_id, form) is None {
                    let at = item_place(pre, form.id)->0;
                    assert(is_first_with(pre.items@, form.id, at));
                    law_edit_conserves(pre, post, user_id, form, now);
                }
            },
            Change::Delete { user_id, data } => {
                if change_error(pre, user_id, data, -1) is None {
                    let at = item_place(pre, data.id->0)->0;
                    assert(is_first_with(pre.items@, data.id->0, at));
                    law_delete_conserves(pre, post, user_id, data);
                }
            },
        }
    }
    let last = states.last();
    assert forall|i: int| 0 <= i < last.categories@.len() implies (#[trigger] last.categories@[i]).count
        == live_count(last.items@, last.category@, last.categories@[i].id) by {
        assert(last.categories@[i].tally() == live_count(
            last.items@,
            last.category@,
            last.categories@[i].key(),
        ));
    }
}

/// One request to change an item or its status.
pub enum Step {
    Create { user_id: i32, form: ItemForm, now: i64 },
    Edit { user_id: i32, form: ItemForm, now: i64 },
    Delete { user_id: i32, data: DeleteItemData },
    Publish { user_id: i32, data: DeleteItemData },
    Hide { user_id: i32, data: DeleteItemData },
}

/// `post` is the catalog that the request leaves behind when it meets the
/// catalog `pre`, where hiding takes an item out of the counters and every
/// request that is not rejected meets an item of the status it is made for:
/// a published item is edited, deleted or hidden, a hidden one is
/// published.
pub open spec fn step_follows(pre: Catalog, post: Catalog, step: Step) -> bool {
    match step {
        Step::Create { user_id, form, now } => follows(
            pre,
            post,
            Change::Create { user_id, form, now },
        ),
        Step::Edit { user_id, form, now } => match edit_item_error(pre, user_id, form) {
            Some(_) => post == pre,
            None => pre.items@[item_place(pre, form.id)->0].item_types < 10 && item_edited(
                pre,
                post,
                form,
                now,
            ),
        },
        Step::Delete { user_id, data } => match change_error(pre, user_id, data, -1) {
            Some(_) => post == pre,
            None => pre.items@[item_place(pre, data.id->0)->0].item_types < 10 && item_deleted(
                pre,
                post,
                item_place(pre, data.id->0)->0,
            ),
        },
        Step::Publish { user_id, data } => match change_error(pre, user_id, data, 1) {
            Some(_) => post == pre,
            None => pre.items@[item_place(pre, data.id->0)->0].item_types >= 10 && item_turned(
                pre,
                post,
                item_place(pre, data.id->0)->0,
                published_code(pre.items@[item_place(pre, data.id->0)->0].item_types),
                1,
            ),
        },
        Step::Hide { user_id, data } => match change_error(pre, user_id, data, -1) {
            Some(_) => post == pre,
            None => pre.items@[item_place(pre, data.id->0)->0].item_types < 10 && item_turned(
                pre,
                post,
                item_place(pre, data.id->0)->0,
                hidden_code(pre.items@[item_place(pre, data.id->0)->0].item_types),
                HidePolicy::Decrement.delta(),
            ),
        },
    }
}

/// Counter conservation with hidden items. Start from a catalog whose
/// counters are right and let any sequence of requests to create, edit,
/// delete, publish and hide items run, hiding taking an item out of the
/// counters, and each request that is not rejected meeting an item of the
/// status it is made for. Then the counters are right at the end: the
/// counter of every category, and of every tag, equals the number of
/// published items that are linked to it.
pub proof fn law_counter_conservation_with_status(states: Seq<Catalog>, steps: Seq<Step>)
    requires
        states.len() == steps.len() + 1,
        counts_consistent(states[0]),
        forall|k: int|
            0 <= k < steps.len() ==> step_follows(states[k], states[k + 1], #[trigger] steps[k]),
    ensures
        counts_consistent(states.last()),
    decreases steps.len(),
{
    if steps.len() > 0 {
        let n = steps.len() - 1;
        let front = states.drop_last();
        let done = steps.drop_last();
        assert forall|k: int| 0 <= k < done.len() implies step_follows(
            front[k],
            front[k + 1],
            #[trigger] done[k],
        ) by {
            assert(step_follows(states[k], states[k + 1], steps[k]));
        }
        law_counter_conservation_with_status(front, done);
        let pre = states[n];
        let post = states[n + 1];
        assert(front.last() == pre);
        assert(step_follows(pre, post, steps[n]));
        match steps[n] {
            Step::Create { user_id, form, now } => {
                if create_item_error(pre, user_id, form) is None {
                    law_create_conserves(pre, post, user_id, form, now);
                }
            },
            Step::Edit { user_id, form, now } => {
                if edit_item_error(pre, user_id, form) is None {
                    law_edit_conserves(pre, post, user_id, form, now);
                }
            },
            Step::Delete { user_id, data } => {
                if change_error(pre, user_id, data, -1) is None {
                    law_delete_conserves(pre, post, user_id, data);
                }
            },
            Step::Publish { user_id, data } => {
                if change_error(pre, user_id, data, 1) is None {
                    law_publish_item_conserves(pre, post, user_id, data);
                }
            },
            Step::Hide { user_id, data } => {
                if change_error(pre, user_id, data, -1) is None {
                    law_hide_item_conserves(pre, post, user_id, data);
                }
            },
        }
    }
}

/// Every link to a category belongs to an item of the kind that the
/// category holds, and no two categories share an id.
pub open spec fn links_respect_kinds(c: Catalog) -> bool {
    &&& keys_unique(c.categories@)
    &&& forall|l: int, r: int|
        0 <= l < c.category@.len() && 0 <= r < c.categories@.len() && (
        #[trigger] c.category@[l]).categories_id == (#[trigger] c.categories@[r]).id
            ==> c.category@[l].types == c.categories@[r].types
}

/// The categories of every kind but `kind` are the same in both catalogs.
pub open spec fn other_kinds_untouched(pre: Catalog, post: Catalog, kind: i16) -> bool {
    &&& post.categories@.len() == pre.categories@.len()
    &&& forall|r: int|
        0 <= r < pre.categories@.len() && (#[trigger] pre.categories@[r]).types != kind
            ==> post.categories@[r] == pre.categories@[r]
}

proof fn lemma_targets_have_kind(c: Catalog, item: i32, kind: i16, r: int)
    requires
        links_respect_kinds(c),
        0 <= r < c.categories@.len(),
        targets_of(c.category@, item, kind).contains(c.categories@[r].id),
    ensures
        c.categories@[r].types == kind,
{
    lemma_targets_lead(c.category@, item, kind, c.categories@[r].id);
    let l = choose|l: int|
        0 <= l < c.category@.len() && is_of(
            #[trigger] c.category@[l],
            item,
            kind,
        ) && c.category@[l].target() == c.categories@[r].id;
    assert(c.category@[l].categories_id == c.categories@[r].id);
}

proof fn lemma_fitting_have_kind(c: Catalog, ids: Seq<i32>, kind: i16, r: int)
    requires
        keys_unique(c.categories@),
        categories_fit(c.categories@, ids, kind),
        0 <= r < c.categories@.len(),
        ids.contains(c.categories@[r].id),
    ensures
        c.categories@[r].types == kind,
{
    let k = choose|k: int| 0 <= k < ids.len() && ids[k] == c.categories@[r].id;
    assert(category_fits(c.categories@, ids[k], kind));
    let at = choose|at: int|
        is_first_with(c.categories@, ids[k], at) && c.categories@[at].types == kind;
    if at != r {
        if at < r {
            assert(c.categories@[at].key() != c.categories@[r].key());
        } else {
            assert(c.categories@[r].key() != c.categories@[at].key());
        }
    }
}

/// Scoping of counters. Publishing, hiding or deleting an item of one kind
/// leaves the categories of every other kind as they were.
pub proof fn law_turn_scoped_by_kind(pre: Catalog, post: Catalog, at: int, code: i16, delta: int)
    requires
        links_respect_kinds(pre),
        0 <= at < pre.items@.len(),
        item_turned(pre, post, at, code, delta) || item_deleted(pre, post, at),
    ensures
        other_kinds_untouched(pre, post, pre.items@[at].types),
{
    let item = pre.items@[at];
    assert forall|r: int|
        0 <= r < pre.categories@.len() && (#[trigger] pre.categories@[r]).types
            != item.types implies post.categories@[r] == pre.categories@[r] by {
        if targets_of(pre.category@, item.id, item.types).contains(pre.categories@[r].id) {
            lemma_targets_have_kind(pre, item.id, item.types, r);
        }
    }
}

/// Scoping of counters. Creating an item of one kind leaves the categories
/// of every other kind as they were.
pub proof fn law_create_scoped_by_kind(
    pre: Catalog,
    post: Catalog,
    user_id: i32,
    form: ItemForm,
    now: i64,
)
    requires
        keys_unique(pre.categories@),
        create_item_error(pre, user_id, form) is None,
        item_created(pre, post, user_id, form, now),
    ensures
        other_kinds_untouched(pre, post, form.types),
{
    let cats = distinct(form.category_list@);
    assert forall|r: int|
        0 <= r < pre.categories@.len() && (#[trigger] pre.categories@[r]).types
            != form.types implies post.categories@[r] == pre.categories@[r] by {
        if cats.contains(pre.categories@[r].id) {
            lemma_fitting_have_kind(pre, cats, form.types, r);
        }
    }
}

/// Scoping of counters. Editing an item of one kind leaves the categories of
/// every other kind as they were.
pub proof fn law_edit_scoped_by_kind(
    pre: Catalog,
    post: Catalog,
    user_id: i32,
    form: ItemForm,
    now: i64,
)
    requires
        links_respect_kinds(pre),
        edit_item_error(pre, user_id, form) is None,
        item_edited(pre, post, form, now),
    ensures
        other_kinds_untouched(pre, post, pre.items@[item_place(pre, form.id)->0].types),
{
    let at = item_place(pre, form.id)->0;
    let item = pre.items@[at];
    let cats = distinct(form.category_list@);
    let old_cats = targets_of(pre.category@, item.id, item.types);
    let mid = adjusted(pre.categories@, old_cats, -1);
    assert forall|r: int|
        0 <= r < pre.categories@.len() && (#[trigger] pre.categories@[r]).types
            != item.types implies post.categories@[r] == pre.categories@[r] by {
        if old_cats.contains(pre.categories@[r].id) {
            lemma_targets_have_kind(pre, item.id, item.types, r);
        }
        assert(mid[r] == pre.categories@[r]);
        if cats.contains(pre.categories@[r].id) {
            lemma_fitting_have_kind(pre, cats, item.types, r);
        }
    }
}

} // verus!
