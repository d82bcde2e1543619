//! Search: the items whose content contains a query, letter case ignored.

use vstd::prelude::*;
use crate::catalog::Catalog;
use crate::counter::{distinct, dedup_ids};
use crate::kinds::SortRule;
use crate::listing::{listing, shown, list_window};
use crate::models::{Item, ItemContent, Blog, Service, Store, Wiki, Work, Help};
use crate::paging::window;
use crate::shapes::kind_selection;
use crate::text::{has_infix, lowercase_of, lowercase_chars, lowered_contains};

verus! {

/// A content block of an item of kind `types` whose item title, own title
/// or body contains `needle` once it is read in lowercase.
pub open spec fn is_hit(row: ItemContent, needle: Seq<char>, types: i16) -> bool {
    &&& row.item_types == types
    &&& (has_infix(lowercase_of(row.item_title@), needle) || has_infix(
        lowercase_of(row.title@),
        needle,
    ) || has_infix(lowercase_of(row.content@), needle))
}

/// Tests whether a content block is a hit for a needle in lowercase.
pub fn test_hit(row: &ItemContent, needle: &Vec<char>, types: i16) -> (hit: bool)
    ensures
        hit == is_hit(*row, needle@, types),
{
    if row.item_types != types {
        return false;
    }
    lowered_contains(row.item_title.as_str(), needle) || lowered_contains(
        row.title.as_str(),
        needle,
    ) || lowered_contains(row.content.as_str(), needle)
}

/// The items of the content blocks that are hits, one id for each block, in the order of the table.
pub open spec fn hit_item_ids(rows: Seq<ItemContent>, needle: Seq<char>, types: i16) -> Seq<i32> {
    rows.filter(|r: ItemContent| is_hit(r, needle, types)).map_values(|r: ItemContent| r.item_id)
}

/// Collects the items of the content blocks that are hits.
pub fn collect_hit_item_ids(
    rows: &Vec<ItemContent>,
    needle: &Vec<char>,
    types: i16,
) -> (out: Vec<i32>)
    ensures
        out@ == hit_item_ids(rows@, needle@, types),
{
    let ghost pred = |r: ItemContent| is_hit(r, needle@, types);
    let ghost pick = |r: ItemContent| r.item_id;
    let mut out: Vec<i32> = Vec::new();
    let mut i: usize = 0;
    assert(rows@.take(0).filter(pred).map_values(pick) =~= out@);
    while i < rows.len()
        invariant
            i <= rows.len(),
            pred == |r: ItemContent| is_hit(r, needle@, types),
            pick == |r: ItemContent| r.item_id,
            out@ == rows@.take(i as int).filter(pred).map_values(pick),
        decreases rows.len() - i,
    {
        proof {
            assert(rows@.take(i + 1) =~= rows@.take(i as int).push(rows@[i as int]));
            Seq::lemma_filter_push(rows@.take(i as int), rows@[i as int], pred);
        }
        let r: &ItemContent = &rows[i];
        if test_hit(r, needle, types) {
            out.push(r.item_id);
            assert(out@ =~= rows@.take(i + 1).filter(pred).map_values(pick));
        }
        i += 1;
    }
    assert(rows@.take(rows.len() as int) =~= rows@);
    out
}

/// The ids of the items of kind `types` that a search for `needle` finds,
/// each once. `needle` is the query in lowercase.
pub open spec fn found_ids(rows: Seq<ItemContent>, needle: Seq<char>, types: i16) -> Seq<i32> {
    distinct(hit_item_ids(rows, needle, types))
}

/// Finds the items of one kind whose content contains the needle, which is
/// the query in lowercase, when read in lowercase.
pub fn find_items(rows: &Vec<ItemContent>, needle: &Vec<char>, types: i16) -> (ids: Vec<i32>)
    ensures
        ids@ == found_ids(rows@, needle@, types),
{
    let hits: Vec<i32> = collect_hit_item_ids(rows, needle, types);
    dedup_ids(&hits)
}

/// The ids of the items of kind `types` that a search for the query `q`
/// finds: those with a content block whose item title, own title or body
/// contains the query, letter case ignored.
pub open spec fn search_ids(c: Catalog, q: Seq<char>, types: i16) -> Seq<i32> {
    found_ids(c.item_contents@, lowercase_of(q), types)
}

/// A search sees only the content of items of its own kind: blocks of other
/// kinds can be taken out of the table without changing what it finds.
pub proof fn law_search_scoped_by_kind(rows: Seq<ItemContent>, needle: Seq<char>, types: i16)
    ensures
        found_ids(rows, needle, types) == found_ids(
            rows.filter(|r: ItemContent| r.item_types == types),
            needle,
            types,
        ),
{
    lemma_hits_scoped(rows, needle, types);
}

proof fn lemma_hits_scoped(rows: Seq<ItemContent>, needle: Seq<char>, types: i16)
    ensures
        rows.filter(|r: ItemContent| is_hit(r, needle, types)) == rows.filter(
            |r: ItemContent| r.item_types == types,
        ).filter(|r: ItemContent| is_hit(r, needle, types)),
    decreases rows.len(),
{
    let own = |r: ItemContent| r.item_types == types;
    let hit = |r: ItemContent| is_hit(r, needle, types);
    if rows.len() == 0 {
        assert(rows.filter(own) =~= rows) by {
            reveal(Seq::filter);
        }
    } else {
        let front = rows.drop_last();
        let last = rows.last();
        lemma_hits_scoped(front, needle, types);
        assert(rows =~= front.push(last));
        Seq::lemma_filter_push(front, last, own);
        Seq::lemma_filter_push(front, last, hit);
        if own(last) {
            Seq::lemma_filter_push(front.filter(own), last, hit);
        }
    }
}

impl Item {
    /// Searches the blogs for a query. Returns the rows that `offset` and
    /// `limit` cut out of the listing of the items found, and the number of
    /// items found.
    pub fn search_blogs(
        catalog: &Catalog,
        q: &String,
        limit: i64,
        offset: i64,
        is_admin: bool,
    ) -> (result: (Vec<Blog>, usize))
        ensures
            result.0@ == shown::<Blog>(
                window(
                    listing(
                        catalog.items@,
                        kind_selection(1, is_admin, Some(search_ids(*catalog, q@, 1))),
                    ),
                    offset as int,
                    limit as int,
                ),
            ),
            result.1 == search_ids(*catalog, q@, 1).len(),
    {
        let needle: Vec<char> = lowercase_chars(q.as_str());
        let ids: Vec<i32> = find_items(&catalog.item_contents, &needle, 1);
        let rows: Vec<Blog> = list_window::<Blog>(
            &catalog.items,
            1,
            is_admin,
            Some(&ids),
            SortRule::CreatedDesc,
            offset,
            limit,
        );
        (rows, ids.len())
    }

    /// Searches the services for a query. Returns the rows that `offset` and
    /// `limit` cut out of the listing of the items found, and the number of
    /// items found.
    pub fn search_services(
        catalog: &Catalog,
        q: &String,
        limit: i64,
        offset: i64,
        is_admin: bool,
    ) -> (result: (Vec<Service>, usize))
        ensures
            result.0@ == shown::<Service>(
                window(
                    listing(
                        catalog.items@,
                        kind_selection(2, is_admin, Some(search_ids(*catalog, q@, 2))),
                    ),
                    offset as int,
                    limit as int,
                ),
            ),
            result.1 == search_ids(*catalog, q@, 2).len(),
    {
        let needle: Vec<char> = lowercase_chars(q.as_str());
        let ids: Vec<i32> = find_items(&catalog.item_contents, &needle, 2);
        let rows: Vec<Service> = list_window::<Service>(
            &catalog.items,
            2,
            is_admin,
            Some(&ids),
            SortRule::CreatedDesc,
            offset,
            limit,
        );
        (rows, ids.len())
    }

    /// Searches the stores for a query. Returns the rows that `offset` and
    /// `limit` cut out of the listing of the items found, and the number of
    /// items found.
    pub fn search_stores(
        catalog: &Catalog,
        q: &String,
        limit: i64,
        offset: i64,
        is_admin: bool,
    ) -> (result: (Vec<Store>, usize))
        ensures
            result.0@ == shown::<Store>(
                window(
                    listing(
                        catalog.items@,
                        kind_selection(3, is_admin, Some(search_ids(*catalog, q@, 3))),
                    ),
                    offset as int,
                    limit as int,
                ),
            ),
            result.1 == search_ids(*catalog, q@, 3).len(),
    {
        let needle: Vec<char> = lowercase_chars(q.as_str());
        let ids: Vec<i32> = find_items(&catalog.item_contents, &needle, 3);
        let rows: Vec<Store> = list_window::<Store>(
            &catalog.items,
            3,
            is_admin,
            Some(&ids),
            SortRule::CreatedDesc,
            offset,
            limit,
        );
        (rows, ids.len())
    }

    /// Searches the wikis for a query. Returns the rows that `offset` and
    /// `limit` cut out of the listing of the items found, and the number of
    /// items found.
    pub fn search_wikis(
        catalog: &Catalog,
        q: &String,
        limit: i64,
        offset: i64,
        is_admin: bool,
    ) -> (result: (Vec<Wiki>, usize))
        ensures
            result.0@ == shown::<Wiki>(
                window(
                    listing(
                        catalog.items@,
                        kind_selection(4, is_admin, Some(search_ids(*catalog, q@, 4))),
                    ),
                    offset as int,
                    limit as int,
                ),
            ),
            result.1 == search_ids(*catalog, q@, 4).len(),
    {
        let needle: Vec<char> = lowercase_chars(q.as_str());
        let ids: Vec<i32> = find_items(&catalog.item_contents, &needle, 4);
        let rows: Vec<Wiki> = list_window::<Wiki>(
            &catalog.items,
            4,
            is_admin,
            Some(&ids),
            SortRule::CreatedDesc,
            offset,
            limit,
        );
        (rows, ids.len())
    }

    /// Searches the works for a query. Returns the rows that `offset` and
    /// `limit` cut out of the listing of the items found, and the number of
    /// items found.
    pub fn search_works(
        catalog: &Catalog,
        q: &String,
        limit: i64,
        offset: i64,
        is_admin: bool,
    ) -> (result: (Vec<Work>, usize))
        ensures
            result.0@ == shown::<Work>(
                window(
                    listing(
                        catalog.items@,
                        kind_selection(5, is_admin, Some(search_ids(*catalog, q@, 5))),
                    ),
                    offset as int,
                    limit as int,
                ),
            ),
            result.1 == search_ids(*catalog, q@, 5).len(),
    {
        let needle: Vec<char> = lowercase_chars(q.as_str());
        let ids: Vec<i32> = find_items(&catalog.item_contents, &needle, 5);
        let rows: Vec<Work> = list_window::<Work>(
            &catalog.items,
            5,
            is_admin,
            Some(&ids),
            SortRule::CreatedDesc,
            offset,
            limit,
        );
        (rows, ids.len())
    }

    /// Searches the helps for a query. Returns the rows that `offset` and
    /// `limit` cut out of the listing of the items found, and the number of
    /// items found.
    pub fn search_helps(
        catalog: &Catalog,
        q: &String,
        limit: i64,
        offset: i64,
        is_admin: bool,
    ) -> (result: (Vec<Help>, usize))
        ensures
            result.0@ == shown::<Help>(
                window(
                    listing(
                        catalog.items@,
                        kind_selection(6, is_admin, Some(search_ids(*catalog, q@, 6))),
                    ),
                    offset as int,
                    limit as int,
                ),
            ),
            result.1 == search_ids(*catalog, q@, 6).len(),
    {
        let needle: Vec<char> = lowercase_chars(q.as_str());
        let ids: Vec<i32> = find_items(&catalog.item_contents, &needle, 6);
        let rows: Vec<Help> = list_window::<Help>(
            &catalog.items,
            6,
            is_admin,
            Some(&ids),
            SortRule::PositionAsc,
            offset,
            limit,
        );
        (rows, ids.len())
    }

}

} // verus!
