//! The listing query: which items a listing admits, in which order, and its pages.

use vstd::prelude::*;
use crate::kinds::{ItemKind, Scope, SortRule};
use crate::models::{Item, Category, TagItems};
use crate::paging::{
    window, window_bounds, page_rows, next_page_number, next_page, probe, pages_upto,
    law_pagination_complete,
};

verus! {

/// What a listing asks for: a kind, whether hidden items are shown, an
/// optional set of ids to which it is restricted, and the order.
pub struct Selection {
    pub types: i16,
    pub admin: bool,
    pub ids: Option<Seq<i32>>,
    pub rule: SortRule,
}

impl Selection {
    /// The item belongs to the listing.
    pub open spec fn admits(self, item: Item) -> bool {
        &&& item.types == self.types
        &&& (self.admin || item.item_types < 10)
        &&& (self.ids matches Some(ids) ==> ids.contains(item.id))
    }
}

/// The number by which a listing is ordered, lowest first.
pub open spec fn sort_key(rule: SortRule, item: Item) -> int {
    match rule {
        SortRule::CreatedDesc => -(item.created as int),
        SortRule::PositionAsc => item.position as int,
    }
}

/// Where `item` goes into `sorted`: behind every row that it does not
/// strictly precede.
pub open spec fn insert_at(sorted: Seq<Item>, item: Item, rule: SortRule) -> int
    decreases sorted.len(),
{
    if sorted.len() == 0 {
        0
    } else if sort_key(rule, item) < sort_key(rule, sorted.last()) {
        insert_at(sorted.drop_last(), item, rule)
    } else {
        sorted.len() as int
    }
}

/// The full result of a listing over the item table: the admitted items in
/// the listing's order, items of equal rank in the order of the table.
pub open spec fn listing(items: Seq<Item>, sel: Selection) -> Seq<Item>
    decreases items.len(),
{
    if items.len() == 0 {
        Seq::empty()
    } else {
        let rest = listing(items.drop_last(), sel);
        let item = items.last();
        if sel.admits(item) {
            rest.insert(insert_at(rest, item, sel.rule), item)
        } else {
            rest
        }
    }
}

/// The rows of `items` at the places `places`.
pub open spec fn rows_at(items: Seq<Item>, places: Seq<usize>) -> Seq<Item> {
    Seq::new(places.len(), |k: int| items[places[k] as int])
}

/// The rows are in the order of the rule.
pub open spec fn is_sorted(rows: Seq<Item>, rule: SortRule) -> bool {
    forall|i: int, j: int|
        0 <= i < j < rows.len() ==> sort_key(rule, #[trigger] rows[i]) <= sort_key(
            rule,
            #[trigger] rows[j],
        )
}

proof fn lemma_insert_at_bounds(sorted: Seq<Item>, item: Item, rule: SortRule)
    requires
        is_sorted(sorted, rule),
    ensures
        0 <= insert_at(sorted, item, rule) <= sorted.len(),
        forall|i: int|
            0 <= i < insert_at(sorted, item, rule) ==> sort_key(rule, #[trigger] sorted[i])
                <= sort_key(rule, item),
        forall|i: int|
            insert_at(sorted, item, rule) <= i < sorted.len() ==> sort_key(rule, item) < sort_key(
                rule,
                #[trigger] sorted[i],
            ),
    decreases sorted.len(),
{
    if sorted.len() > 0 {
        let front = sorted.drop_last();
        assert forall|i: int, j: int| 0 <= i < j < front.len() implies sort_key(
            rule,
            #[trigger] front[i],
        ) <= sort_key(rule, #[trigger] front[j]) by {
            assert(front[i] == sorted[i] && front[j] == sorted[j]);
        }
        if sort_key(rule, item) < sort_key(rule, sorted.last()) {
            lemma_insert_at_bounds(front, item, rule);
            assert forall|i: int| 0 <= i < insert_at(sorted, item, rule) implies sort_key(
                rule,
                #[trigger] sorted[i],
            ) <= sort_key(rule, item) by {
                assert(front[i] == sorted[i]);
            }
            assert forall|i: int|
                insert_at(sorted, item, rule) <= i < sorted.len() implies sort_key(rule, item)
                < sort_key(rule, #[trigger] sorted[i]) by {
                if i < front.len() {
                    assert(front[i] == sorted[i]);
                }
            }
        } else {
            assert forall|i: int| 0 <= i < sorted.len() implies sort_key(
                rule,
                #[trigger] sorted[i],
            ) <= sort_key(rule, item) by {
                if i < sorted.len() - 1 {
                    assert(sort_key(rule, sorted[i]) <= sort_key(rule, sorted[sorted.len() - 1]));
                }
            }
        }
    }
}

/// A listing is in the order of its rule, and it holds exactly the admitted
/// rows of the table, each as often as the table does.
pub proof fn law_listing_is_sorted_selection(items: Seq<Item>, sel: Selection)
    ensures
        is_sorted(listing(items, sel), sel.rule),
        listing(items, sel).to_multiset() == items.filter(|it: Item| sel.admits(it)).to_multiset(),
        forall|i: int| 0 <= i < listing(items, sel).len() ==> sel.admits(#[trigger] listing(items, sel)[i]),
    decreases items.len(),
{
    broadcast use vstd::seq_lib::to_multiset_insert, vstd::seq_lib::to_multiset_build;

    let pred = |it: Item| sel.admits(it);
    if items.len() == 0 {
        assert(items.filter(pred) =~= Seq::<Item>::empty());
    } else {
        let front = items.drop_last();
        let item = items.last();
        let rest = listing(front, sel);
        law_listing_is_sorted_selection(front, sel);
        assert(items =~= front.push(item));
        Seq::lemma_filter_push(front, item, pred);
        if sel.admits(item) {
            lemma_insert_at_bounds(rest, item, sel.rule);
            let at = insert_at(rest, item, sel.rule);
            let full = rest.insert(at, item);
            assert forall|i: int, j: int| 0 <= i < j < full.len() implies sort_key(
                sel.rule,
                #[trigger] full[i],
            ) <= sort_key(sel.rule, #[trigger] full[j]) by {
                if i < at && j > at {
                    assert(full[i] == rest[i] && full[j] == rest[j - 1]);
                } else if i < at && j < at {
                    assert(full[i] == rest[i] && full[j] == rest[j]);
                } else if i > at {
                    assert(full[i] == rest[i - 1] && full[j] == rest[j - 1]);
                } else if i == at {
                    assert(full[j] == rest[j - 1]);
                } else {
                    assert(full[i] == rest[i]);
                }
            }
            assert forall|i: int| 0 <= i < full.len() implies sel.admits(#[trigger] full[i]) by {
                if i < at {
                    assert(full[i] == rest[i]);
                } else if i > at {
                    assert(full[i] == rest[i - 1]);
                }
            }
            assert(full.to_multiset() == rest.to_multiset().insert(item));
            assert(front.filter(pred).push(item).to_multiset() == front.filter(
                pred,
            ).to_multiset().insert(item));
        }
    }
}

/// A listing sees only the items of its own kind: rows of other kinds can
/// be taken out of the table without changing it.
pub proof fn law_listing_scoped_by_kind(items: Seq<Item>, sel: Selection)
    ensures
        listing(items, sel) == listing(items.filter(|it: Item| it.types == sel.types), sel),
    decreases items.len(),
{
    let own = |it: Item| it.types == sel.types;
    if items.len() == 0 {
        assert(items.filter(own) =~= Seq::<Item>::empty());
    } else {
        let front = items.drop_last();
        let item = items.last();
        law_listing_scoped_by_kind(front, sel);
        assert(items =~= front.push(item));
        Seq::lemma_filter_push(front, item, own);
        if own(item) {
            assert(front.filter(own).push(item).drop_last() =~= front.filter(own));
        }
    }
}

/// Storing one more item of another kind leaves a listing as it was.
pub proof fn law_listing_ignores_other_kinds(items: Seq<Item>, other: Item, sel: Selection)
    requires
        other.types != sel.types,
    ensures
        listing(items.push(other), sel) == listing(items, sel),
{
    assert(items.push(other).drop_last() =~= items);
}

/// Reading a listing page by page, until a page reports no further page,
/// yields the full listing: every row once, in the listing's order.
pub proof fn law_listing_pages_complete(items: Seq<Item>, sel: Selection, size: int, n: nat)
    requires
        size >= 1,
        n >= 1,
        next_page_number(listing(items, sel), n as int, size) == 0,
    ensures
        pages_upto(listing(items, sel), size, n) == listing(items, sel),
{
    law_pagination_complete(listing(items, sel), size, n);
}

/// Tests whether an id is among `ids`.
pub fn contains_id(ids: &Vec<i32>, id: i32) -> (found: bool)
    ensures
        found == ids@.contains(id),
{
    let mut i: usize = 0;
    while i < ids.len()
        invariant
            i <= ids.len(),
            forall|j: int| 0 <= j < i ==> ids@[j] != id,
        decreases ids.len() - i,
    {
        if ids[i] == id {
            return true;
        }
        i += 1;
    }
    false
}

/// The selection that the executable parameters of a listing stand for.
pub open spec fn selection_of(
    types: i16,
    admin: bool,
    ids: Option<&Vec<i32>>,
    rule: SortRule,
) -> Selection {
    Selection {
        types,
        admin,
        ids: match ids {
            Some(v) => Some(v@),
            None => None,
        },
        rule,
    }
}

fn admits_item(
    item: &Item,
    types: i16,
    admin: bool,
    ids: Option<&Vec<i32>>,
    rule: SortRule,
) -> (yes: bool)
    ensures
        yes == selection_of(types, admin, ids, rule).admits(*item),
{
    if item.types != types {
        return false;
    }
    if !admin && item.item_types >= 10 {
        return false;
    }
    match ids {
        Some(v) => contains_id(v, item.id),
        None => true,
    }
}

fn precedes(rule: SortRule, a: &Item, b: &Item) -> (yes: bool)
    ensures
        yes == (sort_key(rule, *a) < sort_key(rule, *b)),
{
    match rule {
        SortRule::CreatedDesc => a.created > b.created,
        SortRule::PositionAsc => a.position < b.position,
    }
}

/// Computes the full listing as places in the item table.
pub fn select_sorted(
    items: &Vec<Item>,
    types: i16,
    admin: bool,
    ids: Option<&Vec<i32>>,
    rule: SortRule,
) -> (places: Vec<usize>)
    ensures
        forall|k: int| 0 <= k < places.len() ==> (#[trigger] places[k]) < items.len(),
        rows_at(items@, places@) == listing(items@, selection_of(types, admin, ids, rule)),
{
    let ghost sel = selection_of(types, admin, ids, rule);
    let mut out: Vec<usize> = Vec::new();
    let mut k: usize = 0;
    assert(rows_at(items@, out@) =~= listing(items@.take(0), sel));
    while k < items.len()
        invariant
            k <= items.len(),
            sel == selection_of(types, admin, ids, rule),
            forall|j: int| 0 <= j < out.len() ==> (#[trigger] out[j]) < items.len(),
            rows_at(items@, out@) == listing(items@.take(k as int), sel),
        decreases items.len() - k,
    {
        let ghost sorted = rows_at(items@, out@);
        proof {
            assert(items@.take(k + 1).drop_last() =~= items@.take(k as int));
            assert(items@.take(k + 1).last() == items@[k as int]);
        }
        if admits_item(&items[k], types, admin, ids, rule) {
            let mut p: usize = out.len();
            assert(sorted.take(p as int) =~= sorted);
            while p > 0 && precedes(rule, &items[k], &items[out[p - 1]])
                invariant
                    p <= out.len(),
                    k < items.len(),
                    sorted == rows_at(items@, out@),
                    forall|j: int| 0 <= j < out.len() ==> (#[trigger] out[j]) < items.len(),
                    insert_at(sorted, items@[k as int], rule) == insert_at(
                        sorted.take(p as int),
                        items@[k as int],
                        rule,
                    ),
                decreases p,
            {
                proof {
                    assert(sorted.take(p as int).last() == sorted[p - 1]);
                    assert(sorted.take(p as int).drop_last() =~= sorted.take(p - 1));
                }
                p -= 1;
            }
            proof {
                if p > 0 {
                    assert(sorted.take(p as int).last() == sorted[p - 1]);
                }
                assert(insert_at(sorted, items@[k as int], rule) == p);
            }
            out.insert(p, k);
            assert(rows_at(items@, out@) =~= sorted.insert(p as int, items@[k as int]));
        }
        k += 1;
    }
    assert(items@.take(items.len() as int) =~= items@);
    out
}

/// A shape in which an item is shown in a listing.
pub trait Projection: Sized {
    /// The item in this shape.
    spec fn of(item: Item) -> Self;

    fn project(item: &Item) -> (shown: Self)
        ensures
            shown == Self::of(*item),
    ;
}

/// A sequence of items, each in the shape `P`.
pub open spec fn shown<P: Projection>(rows: Seq<Item>) -> Seq<P> {
    Seq::new(rows.len(), |k: int| P::of(rows[k]))
}

/// Runs a listing and returns the rows that `offset` and `limit` cut out of
/// it, in the shape `P`.
pub fn list_window<P: Projection>(
    items: &Vec<Item>,
    types: i16,
    admin: bool,
    ids: Option<&Vec<i32>>,
    rule: SortRule,
    offset: i64,
    limit: i64,
) -> (rows: Vec<P>)
    ensures
        rows@ == shown::<P>(
            window(
                listing(items@, selection_of(types, admin, ids, rule)),
                offset as int,
                limit as int,
            ),
        ),
{
    let places: Vec<usize> = select_sorted(items, types, admin, ids, rule);
    let ghost full = listing(items@, selection_of(types, admin, ids, rule));
    assert(places.len() == full.len());
    let (start, end) = window_bounds(places.len(), offset, limit);
    let ghost cut = window(full, offset as int, limit as int);
    let mut rows: Vec<P> = Vec::new();
    let mut k: usize = start;
    while k < end
        invariant
            start <= k <= end <= places.len(),
            forall|j: int| 0 <= j < places.len() ==> (#[trigger] places[j]) < items.len(),
            rows_at(items@, places@) == full,
            cut == full.subrange(start as int, end as int),
            rows@.len() == k - start,
            forall|j: int| 0 <= j < rows@.len() ==> rows@[j] == P::of(cut[j]),
        decreases end - k,
    {
        let shown_row: P = P::project(&items[places[k]]);
        assert(full[k as int] == items@[places[k as int] as int]);
        rows.push(shown_row);
        k += 1;
    }
    assert(rows@ =~= shown::<P>(cut));
    rows
}

/// Runs a listing and returns page `page` of it together with the number of
/// the next page, which is zero where the listing ends on this page.
pub fn list_page<P: Projection>(
    items: &Vec<Item>,
    types: i16,
    admin: bool,
    ids: Option<&Vec<i32>>,
    rule: SortRule,
    page: i32,
    limit: i32,
) -> (result: (Vec<P>, i32))
    requires
        page < i32::MAX,
    ensures
        result.0@ == shown::<P>(
            page_rows(
                listing(items@, selection_of(types, admin, ids, rule)),
                page as int,
                limit as int,
            ),
        ),
        result.1 == next_page_number(
            listing(items@, selection_of(types, admin, ids, rule)),
            page as int,
            limit as int,
        ),
{
    let (offset, probe_at) = probe(page, limit);
    let rows: Vec<P> = list_window::<P>(items, types, admin, ids, rule, offset, limit as i64);
    let found: Vec<P> = list_window::<P>(items, types, admin, ids, rule, probe_at, 1);
    let next: i32 = next_page(page, found.len());
    (rows, next)
}

/// The selection that a listing of a kind stands for.
pub open spec fn selection_for(
    kind: ItemKind,
    scope: Scope,
    id_filter: Option<&Vec<i32>>,
    rule: SortRule,
) -> Selection {
    selection_of(kind.spec_code(), scope is Admin, id_filter, rule)
}

/// The listing query: the items of a kind that the scope may see, restricted
/// to the ids of the filter where there is one, in the given order; of these
/// the rows that `offset` and `limit` cut out.
pub fn list(
    items: &Vec<Item>,
    kind: ItemKind,
    scope: Scope,
    id_filter: Option<&Vec<i32>>,
    rule: SortRule,
    offset: i64,
    limit: i64,
) -> (rows: Vec<Item>)
    ensures
        rows@ == window(
            listing(items@, selection_for(kind, scope, id_filter, rule)),
            offset as int,
            limit as int,
        ),
{
    let admin: bool = match scope {
        Scope::Admin => true,
        Scope::Public => false,
    };
    let rows: Vec<Item> = list_window::<Item>(
        items,
        kind.code(),
        admin,
        id_filter,
        rule,
        offset,
        limit,
    );
    assert(rows@ =~= window(
        listing(items@, selection_for(kind, scope, id_filter, rule)),
        offset as int,
        limit as int,
    ));
    rows
}

impl Projection for Item {
    /// An item shown as it is stored.
    open spec fn of(item: Item) -> Item {
        item
    }

    fn project(item: &Item) -> (shown: Item) {
        item.clone()
    }
}

/// The ids of the items of kind `types` that are linked to category `cat_id`.
pub open spec fn category_item_ids(links: Seq<Category>, cat_id: i32, types: i16) -> Seq<i32> {
    links.filter(|l: Category| l.categories_id == cat_id && l.types == types).map_values(
        |l: Category| l.item_id,
    )
}

/// The items listed under a category are those that links of the listing's
/// own kind lead to: links of other kinds can be taken out of the link table
/// without changing them.
pub proof fn law_category_items_scoped_by_kind(links: Seq<Category>, cat_id: i32, types: i16)
    ensures
        category_item_ids(links, cat_id, types) == category_item_ids(
            links.filter(|l: Category| l.types == types),
            cat_id,
            types,
        ),
{
    lemma_links_scoped(links, cat_id, types);
}

proof fn lemma_links_scoped(links: Seq<Category>, cat_id: i32, types: i16)
    ensures
        links.filter(|l: Category| l.categories_id == cat_id && l.types == types) == links.filter(
            |l: Category| l.types == types,
        ).filter(|l: Category| l.categories_id == cat_id && l.types == types),
    decreases links.len(),
{
    let own = |l: Category| l.types == types;
    let pred = |l: Category| l.categories_id == cat_id && l.types == types;
    if links.len() == 0 {
        assert(links.filter(own) =~= links) by {
            reveal(Seq::filter);
        }
    } else {
        let front = links.drop_last();
        let last = links.last();
        lemma_links_scoped(front, cat_id, types);
        assert(links =~= front.push(last));
        Seq::lemma_filter_push(front, last, own);
        Seq::lemma_filter_push(front, last, pred);
        if own(last) {
            Seq::lemma_filter_push(front.filter(own), last, pred);
        }
    }
}

/// The ids of the items of kind `types` that carry the tag `tag_id`.
pub open spec fn tag_item_ids(links: Seq<TagItems>, tag_id: i32, types: i16) -> Seq<i32> {
    links.filter(|l: TagItems| l.tag_id == tag_id && l.types == types).map_values(
        |l: TagItems| l.item_id,
    )
}

/// Collects the ids of the items of one kind under a category.
pub fn collect_category_items(links: &Vec<Category>, cat_id: i32, types: i16) -> (ids: Vec<i32>)
    ensures
        ids@ == category_item_ids(links@, cat_id, types),
{
    let ghost pred = |l: Category| l.categories_id == cat_id && l.types == types;
    let ghost pick = |l: Category| l.item_id;
    let mut ids: Vec<i32> = Vec::new();
    let mut i: usize = 0;
    assert(links@.take(0).filter(pred).map_values(pick) =~= ids@);
    while i < links.len()
        invariant
            i <= links.len(),
            pred == |l: Category| l.categories_id == cat_id && l.types == types,
            pick == |l: Category| l.item_id,
            ids@ == links@.take(i as int).filter(pred).map_values(pick),
        decreases links.len() - i,
    {
        proof {
            assert(links@.take(i + 1) =~= links@.take(i as int).push(links@[i as int]));
            Seq::lemma_filter_push(links@.take(i as int), links@[i as int], pred);
        }
        if links[i].categories_id == cat_id && links[i].types == types {
            ids.push(links[i].item_id);
            assert(ids@ =~= links@.take(i + 1).filter(pred).map_values(pick));
        }
        i += 1;
    }
    assert(links@.take(links.len() as int) =~= links@);
    ids
}

/// Collects the ids of the items of one kind under a tag.
pub fn collect_tag_items(links: &Vec<TagItems>, tag_id: i32, types: i16) -> (ids: Vec<i32>)
    ensures
        ids@ == tag_item_ids(links@, tag_id, types),
{
    let ghost pred = |l: TagItems| l.tag_id == tag_id && l.types == types;
    let ghost pick = |l: TagItems| l.item_id;
    let mut ids: Vec<i32> = Vec::new();
    let mut i: usize = 0;
    assert(links@.take(0).filter(pred).map_values(pick) =~= ids@);
    while i < links.len()
        invariant
            i <= links.len(),
            pred == |l: TagItems| l.tag_id == tag_id && l.types == types,
            pick == |l: TagItems| l.item_id,
            ids@ == links@.take(i as int).filter(pred).map_values(pick),
        decreases links.len() - i,
    {
        proof {
            assert(links@.take(i + 1) =~= links@.take(i as int).push(links@[i as int]));
            Seq::lemma_filter_push(links@.take(i as int), links@[i as int], pred);
        }
        if links[i].tag_id == tag_id && links[i].types == types {
            ids.push(links[i].item_id);
            assert(ids@ =~= links@.take(i + 1).filter(pred).map_values(pick));
        }
        i += 1;
    }
    assert(links@.take(links.len() as int) =~= links@);
    ids
}

} // verus!
