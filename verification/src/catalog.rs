//! The state: every table, lookup by id, ids for new rows, and cutting pages out of tables.

use vstd::prelude::*;
use crate::models::{
    Item, Categories, Category, Tag, TagItems, Serve, ServeCategories, TechCategories, ServeItems,
    TechCategoriesItem, File, ItemContent, User, CookieUser, CookieStat, StatPage, Feedback, Order,
    OrderFile,
};
use crate::paging::{next_page, next_page_number, page_rows, probe, window, window_bounds};

verus! {

/// A row that is found by its id.
pub trait Keyed: Sized {
    /// The id of the row.
    spec fn key(&self) -> i32;

    fn id_of(&self) -> (id: i32)
        ensures
            id == self.key(),
    ;

    fn copy(&self) -> (row: Self)
        ensures
            row == *self,
    ;
}

/// Copies a table.
pub fn copy_rows<R: Keyed>(rows: &Vec<R>) -> (out: Vec<R>)
    ensures
        out@ == rows@,
{
    let mut out: Vec<R> = Vec::new();
    let mut i: usize = 0;
    while i < rows.len()
        invariant
            i <= rows.len(),
            out@ == rows@.take(i as int),
        decreases rows.len() - i,
    {
        out.push(rows[i].copy());
        assert(out@ =~= rows@.take(i + 1));
        i += 1;
    }
    assert(rows@.take(rows.len() as int) =~= rows@);
    out
}

/// Row `at` is the first row of `rows` with the id `id`.
pub open spec fn is_first_with<R: Keyed>(rows: Seq<R>, id: i32, at: int) -> bool {
    &&& 0 <= at < rows.len()
    &&& rows[at].key() == id
    &&& forall|j: int| 0 <= j < at ==> (#[trigger] rows[j]).key() != id
}

/// No row of `rows` has the id `id`.
pub open spec fn has_none_with<R: Keyed>(rows: Seq<R>, id: i32) -> bool {
    forall|j: int| 0 <= j < rows.len() ==> (#[trigger] rows[j]).key() != id
}

/// What a lookup by id answers: the place of the first row with the id.
pub open spec fn is_lookup<R: Keyed>(rows: Seq<R>, id: i32, found: Option<usize>) -> bool {
    match found {
        Some(at) => is_first_with(rows, id, at as int),
        None => has_none_with(rows, id),
    }
}

/// No two rows share an id.
pub open spec fn keys_unique<R: Keyed>(rows: Seq<R>) -> bool {
    forall|i: int, j: int|
        0 <= i < j < rows.len() ==> (#[trigger] rows[i]).key() != (#[trigger] rows[j]).key()
}

/// The greatest id among the rows, and zero where none is positive.
pub open spec fn max_key<R: Keyed>(rows: Seq<R>) -> int
    decreases rows.len(),
{
    if rows.len() == 0 {
        0
    } else {
        let rest = max_key(rows.drop_last());
        if rows.last().key() > rest {
            rows.last().key() as int
        } else {
            rest
        }
    }
}

/// Every id among the rows is at most `max_key`.
pub proof fn lemma_max_key_bounds<R: Keyed>(rows: Seq<R>)
    ensures
        0 <= max_key(rows) <= i32::MAX,
        forall|j: int| 0 <= j < rows.len() ==> (#[trigger] rows[j]).key() <= max_key(rows),
    decreases rows.len(),
{
    if rows.len() > 0 {
        lemma_max_key_bounds(rows.drop_last());
        assert forall|j: int| 0 <= j < rows.len() implies (#[trigger] rows[j]).key() <= max_key(
            rows,
        ) by {
            if j < rows.len() - 1 {
                assert(rows.drop_last()[j] == rows[j]);
            }
        }
    }
}

/// Finds the first row with the given id.
pub fn find_row<R: Keyed>(rows: &Vec<R>, id: i32) -> (found: Option<usize>)
    ensures
        is_lookup(rows@, id, found),
{
    let mut i: usize = 0;
    while i < rows.len()
        invariant
            i <= rows.len(),
            forall|j: int| 0 <= j < i ==> (#[trigger] rows@[j]).key() != id,
        decreases rows.len() - i,
    {
        if rows[i].id_of() == id {
            return Some(i);
        }
        i += 1;
    }
    None
}

/// The first row with an id is one row.
pub proof fn lemma_first_is_unique<R: Keyed>(rows: Seq<R>, id: i32, a: int, b: int)
    requires
        is_first_with(rows, id, a),
        is_first_with(rows, id, b),
    ensures
        a == b,
{
    if a < b {
        assert(rows[a].key() != id);
    } else if b < a {
        assert(rows[b].key() != id);
    }
}

/// The place of the first row with the id. It means something only where
/// some row has the id.
pub open spec fn place_of<R: Keyed>(rows: Seq<R>, id: i32) -> int {
    choose|at: int| is_first_with(rows, id, at)
}

/// Finds the first row with the given id, and says that there is one first
/// row at most.
pub fn locate<R: Keyed>(rows: &Vec<R>, id: i32) -> (found: Option<usize>)
    ensures
        is_lookup(rows@, id, found),
        match found {
            Some(at) => !has_none_with(rows@, id) && place_of(rows@, id) == at && forall|k: int|
                is_first_with(rows@, id, k) ==> k == at,
            None => forall|k: int| !is_first_with(rows@, id, k),
        },
{
    let found: Option<usize> = find_row(rows, id);
    proof {
        match found {
            Some(at) => {
                assert(rows@[at as int].key() == id);
                assert forall|k: int| is_first_with(rows@, id, k) implies k == at by {
                    lemma_first_is_unique(rows@, id, k, at as int);
                }
                assert(is_first_with(rows@, id, at as int));
            },
            None => {
                assert forall|k: int| !is_first_with(rows@, id, k) by {
                    if 0 <= k < rows@.len() {
                        assert(rows@[k].key() != id);
                    }
                }
            },
        }
    }
    found
}

/// Picks the id for a row that is about to be appended: one more than the
/// greatest id in the table. There is none once the greatest id is the last
/// that the column can hold.
pub fn fresh_id<R: Keyed>(rows: &Vec<R>) -> (id: Option<i32>)
    ensures
        match id {
            Some(k) => k == max_key(rows@) + 1 && has_none_with(rows@, k) && k >= 1,
            None => max_key(rows@) == i32::MAX,
        },
{
    let mut top: i32 = 0;
    let mut i: usize = 0;
    while i < rows.len()
        invariant
            i <= rows.len(),
            top == max_key(rows@.take(i as int)),
        decreases rows.len() - i,
    {
        let k: i32 = rows[i].id_of();
        proof {
            assert(rows@.take(i + 1).drop_last() =~= rows@.take(i as int));
        }
        if k > top {
            top = k;
        }
        i += 1;
    }
    proof {
        assert(rows@.take(rows.len() as int) =~= rows@);
        lemma_max_key_bounds(rows@);
    }
    if top == i32::MAX {
        None
    } else {
        Some(top + 1)
    }
}

/// Cuts the rows that `offset` and `limit` ask for out of a table.
pub fn rows_window<R: Keyed>(rows: &Vec<R>, offset: i64, limit: i64) -> (out: Vec<R>)
    ensures
        out@ == window(rows@, offset as int, limit as int),
{
    let (start, end) = window_bounds(rows.len(), offset, limit);
    let mut out: Vec<R> = Vec::new();
    let mut k: usize = start;
    while k < end
        invariant
            start <= k <= end <= rows.len(),
            out@ == rows@.subrange(start as int, k as int),
        decreases end - k,
    {
        out.push(rows[k].copy());
        assert(out@ =~= rows@.subrange(start as int, k + 1));
        k += 1;
    }
    out
}

/// Cuts page `page` out of a table and tells the number of the next page,
/// which is zero where the table ends on this page.
pub fn rows_page<R: Keyed>(rows: &Vec<R>, page: i32, limit: i32) -> (result: (Vec<R>, i32))
    requires
        page < i32::MAX,
    ensures
        result.0@ == page_rows(rows@, page as int, limit as int),
        result.1 == next_page_number(rows@, page as int, limit as int),
{
    let (offset, probe_at) = probe(page, limit);
    let content: Vec<R> = rows_window(rows, offset, limit as i64);
    let found: Vec<R> = rows_window(rows, probe_at, 1);
    (content, next_page(page, found.len()))
}

/// The whole state: every table, each in the order in which its rows were
/// stored.
pub struct Catalog {
    pub items: Vec<Item>,
    pub categories: Vec<Categories>,
    pub category: Vec<Category>,
    pub tags: Vec<Tag>,
    pub tags_items: Vec<TagItems>,
    pub serve: Vec<Serve>,
    pub serve_categories: Vec<ServeCategories>,
    pub tech_categories: Vec<TechCategories>,
    pub serve_items: Vec<ServeItems>,
    pub tech_categories_items: Vec<TechCategoriesItem>,
    pub files: Vec<File>,
    pub item_contents: Vec<ItemContent>,
    pub users: Vec<User>,
    pub cookie_users: Vec<CookieUser>,
    pub cookie_stats: Vec<CookieStat>,
    pub stat_pages: Vec<StatPage>,
    pub feedbacks: Vec<Feedback>,
    pub orders: Vec<Order>,
    pub order_files: Vec<OrderFile>,
}

/// The tables of the catalog.
#[derive(Clone, Copy, Debug, PartialEq, Eq, Structural)]
pub enum Table {
    Items,
    Categories,
    Category,
    Tags,
    TagsItems,
    Serve,
    ServeCategories,
    TechCategories,
    ServeItems,
    TechCategoriesItems,
    Files,
    ItemContents,
    Users,
    CookieUsers,
    CookieStats,
    StatPages,
    Feedbacks,
    Orders,
    OrderFiles,
}

/// Every table that is not among `touched` is the same in both catalogs.
pub open spec fn same_beside(pre: Catalog, post: Catalog, touched: Set<Table>) -> bool {
    &&& (touched.contains(Table::Items) || post.items == pre.items)
    &&& (touched.contains(Table::Categories) || post.categories == pre.categories)
    &&& (touched.contains(Table::Category) || post.category == pre.category)
    &&& (touched.contains(Table::Tags) || post.tags == pre.tags)
    &&& (touched.contains(Table::TagsItems) || post.tags_items == pre.tags_items)
    &&& (touched.contains(Table::Serve) || post.serve == pre.serve)
    &&& (touched.contains(Table::ServeCategories) || post.serve_categories == pre.serve_categories)
    &&& (touched.contains(Table::TechCategories) || post.tech_categories == pre.tech_categories)
    &&& (touched.contains(Table::ServeItems) || post.serve_items == pre.serve_items)
    &&& (touched.contains(Table::TechCategoriesItems) || post.tech_categories_items == pre.tech_categories_items)
    &&& (touched.contains(Table::Files) || post.files == pre.files)
    &&& (touched.contains(Table::ItemContents) || post.item_contents == pre.item_contents)
    &&& (touched.contains(Table::Users) || post.users == pre.users)
    &&& (touched.contains(Table::CookieUsers) || post.cookie_users == pre.cookie_users)
    &&& (touched.contains(Table::CookieStats) || post.cookie_stats == pre.cookie_stats)
    &&& (touched.contains(Table::StatPages) || post.stat_pages == pre.stat_pages)
    &&& (touched.contains(Table::Feedbacks) || post.feedbacks == pre.feedbacks)
    &&& (touched.contains(Table::Orders) || post.orders == pre.orders)
    &&& (touched.contains(Table::OrderFiles) || post.order_files == pre.order_files)
}

impl Catalog {
    /// A catalog without rows.
    pub fn new() -> (catalog: Catalog)
        ensures
            catalog.items@.len() == 0,
            catalog.categories@.len() == 0,
            catalog.category@.len() == 0,
            catalog.tags@.len() == 0,
            catalog.tags_items@.len() == 0,
            catalog.serve@.len() == 0,
            catalog.serve_categories@.len() == 0,
            catalog.tech_categories@.len() == 0,
            catalog.serve_items@.len() == 0,
            catalog.tech_categories_items@.len() == 0,
            catalog.files@.len() == 0,
            catalog.item_contents@.len() == 0,
            catalog.users@.len() == 0,
            catalog.cookie_users@.len() == 0,
            catalog.cookie_stats@.len() == 0,
            catalog.stat_pages@.len() == 0,
            catalog.feedbacks@.len() == 0,
            catalog.orders@.len() == 0,
            catalog.order_files@.len() == 0,
    {
        Catalog {
            items: Vec::new(),
            categories: Vec::new(),
            category: Vec::new(),
            tags: Vec::new(),
            tags_items: Vec::new(),
            serve: Vec::new(),
            serve_categories: Vec::new(),
            tech_categories: Vec::new(),
            serve_items: Vec::new(),
            tech_categories_items: Vec::new(),
            files: Vec::new(),
            item_contents: Vec::new(),
            users: Vec::new(),
            cookie_users: Vec::new(),
            cookie_stats: Vec::new(),
            stat_pages: Vec::new(),
            feedbacks: Vec::new(),
            orders: Vec::new(),
            order_files: Vec::new(),
        }
    }
}

impl Keyed for Item {
    open spec fn key(&self) -> i32 {
        self.id
    }

    fn id_of(&self) -> (id: i32) {
        self.id
    }

    fn copy(&self) -> (row: Self) {
        self.clone()
    }
}

impl Keyed for Categories {
    open spec fn key(&self) -> i32 {
        self.id
    }

    fn id_of(&self) -> (id: i32) {
        self.id
    }

    fn copy(&self) -> (row: Self) {
        self.clone()
    }
}

impl Keyed for Category {
    open spec fn key(&self) -> i32 {
        self.id
    }

    fn id_of(&self) -> (id: i32) {
        self.id
    }

    fn copy(&self) -> (row: Self) {
        self.clone()
    }
}

impl Keyed for Tag {
    open spec fn key(&self) -> i32 {
        self.id
    }

    fn id_of(&self) -> (id: i32) {
        self.id
    }

    fn copy(&self) -> (row: Self) {
        self.clone()
    }
}

impl Keyed for TagItems {
    open spec fn key(&self) -> i32 {
        self.id
    }

    fn id_of(&self) -> (id: i32) {
        self.id
    }

    fn copy(&self) -> (row: Self) {
        self.clone()
    }
}

impl Keyed for Serve {
    open spec fn key(&self) -> i32 {
        self.id
    }

    fn id_of(&self) -> (id: i32) {
        self.id
    }

    fn copy(&self) -> (row: Self) {
        self.clone()
    }
}

impl Keyed for ServeCategories {
    open spec fn key(&self) -> i32 {
        self.id
    }

    fn id_of(&self) -> (id: i32) {
        self.id
    }

    fn copy(&self) -> (row: Self) {
        self.clone()
    }
}

impl Keyed for TechCategories {
    open spec fn key(&self) -> i32 {
        self.id
    }

    fn id_of(&self) -> (id: i32) {
        self.id
    }

    fn copy(&self) -> (row: Self) {
        self.clone()
    }
}

impl Keyed for ServeItems {
    open spec fn key(&self) -> i32 {
        self.id
    }

    fn id_of(&self) -> (id: i32) {
        self.id
    }

    fn copy(&self) -> (row: Self) {
        self.clone()
    }
}

impl Keyed for TechCategoriesItem {
    open spec fn key(&self) -> i32 {
        self.id
    }

    fn id_of(&self) -> (id: i32) {
        self.id
    }

    fn copy(&self) -> (row: Self) {
        self.clone()
    }
}

impl Keyed for File {
    open spec fn key(&self) -> i32 {
        self.id
    }

    fn id_of(&self) -> (id: i32) {
        self.id
    }

    fn copy(&self) -> (row: Self) {
        self.clone()
    }
}

impl Keyed for ItemContent {
    open spec fn key(&self) -> i32 {
        self.id
    }

    fn id_of(&self) -> (id: i32) {
        self.id
    }

    fn copy(&self) -> (row: Self) {
        self.clone()
    }
}

impl Keyed for User {
    open spec fn key(&self) -> i32 {
        self.id
    }

    fn id_of(&self) -> (id: i32) {
        self.id
    }

    fn copy(&self) -> (row: Self) {
        self.clone()
    }
}

impl Keyed for CookieUser {
    open spec fn key(&self) -> i32 {
        self.id
    }

    fn id_of(&self) -> (id: i32) {
        self.id
    }

    fn copy(&self) -> (row: Self) {
        self.clone()
    }
}

impl Keyed for CookieStat {
    open spec fn key(&self) -> i32 {
        self.id
    }

    fn id_of(&self) -> (id: i32) {
        self.id
    }

    fn copy(&self) -> (row: Self) {
        self.clone()
    }
}

impl Keyed for StatPage {
    open spec fn key(&self) -> i32 {
        self.id
    }

    fn id_of(&self) -> (id: i32) {
        self.id
    }

    fn copy(&self) -> (row: Self) {
        self.clone()
    }
}

impl Keyed for Feedback {
    open spec fn key(&self) -> i32 {
        self.id
    }

    fn id_of(&self) -> (id: i32) {
        self.id
    }

    fn copy(&self) -> (row: Self) {
        self.clone()
    }
}

impl Keyed for Order {
    open spec fn key(&self) -> i32 {
        self.id
    }

    fn id_of(&self) -> (id: i32) {
        self.id
    }

    fn copy(&self) -> (row: Self) {
        self.clone()
    }
}

impl Keyed for OrderFile {
    open spec fn key(&self) -> i32 {
        self.id
    }

    fn id_of(&self) -> (id: i32) {
        self.id
    }

    fn copy(&self) -> (row: Self) {
        self.clone()
    }
}

} // verus!
