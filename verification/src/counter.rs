//! Counted rows and the links that are counted: the arithmetic of counters and link tables.

use vstd::prelude::*;
use crate::catalog::{Keyed, max_key, lemma_max_key_bounds, has_none_with, find_row, fresh_id};
use crate::listing::contains_id;
use crate::models::{Categories, Category, Tag, TagItems, ServeItems, TechCategoriesItem};

verus! {

/// A row that carries a counter of the items linked to it.
pub trait Counted: Keyed + Sized {
    /// The counter.
    spec fn tally(&self) -> i16;

    /// The row with the counter set to `n` and nothing else changed.
    spec fn with_tally(self, n: i16) -> Self;

    proof fn lemma_with_tally(self, n: i16)
        ensures
            self.with_tally(n).key() == self.key(),
            self.with_tally(n).tally() == n,
    ;

    fn tally_of(&self) -> (n: i16)
        ensures
            n == self.tally(),
    ;

    fn set_tally(&mut self, n: i16)
        ensures
            *final(self) == old(self).with_tally(n),
    ;
}

/// A row that links an item of some kind to a counted row, its target.
pub trait Linking: Keyed + Sized {
    spec fn target(&self) -> i32;

    spec fn item(&self) -> i32;

    spec fn kind(&self) -> i16;

    /// The link row with these values. `mark` is what the table keeps beside
    /// them: the time of linking for a tag link, the open or closed flag for
    /// a technical category; the other tables keep nothing.
    spec fn made(id: i32, target: i32, item: i32, kind: i16, mark: i64) -> Self;

    proof fn lemma_made(id: i32, target: i32, item: i32, kind: i16, mark: i64)
        ensures
            Self::made(id, target, item, kind, mark).key() == id,
            Self::made(id, target, item, kind, mark).target() == target,
            Self::made(id, target, item, kind, mark).item() == item,
            Self::made(id, target, item, kind, mark).kind() == kind,
    ;

    fn target_of(&self) -> (t: i32)
        ensures
            t == self.target(),
    ;

    fn item_of(&self) -> (i: i32)
        ensures
            i == self.item(),
    ;

    fn kind_of(&self) -> (k: i16)
        ensures
            k == self.kind(),
    ;

    fn make(id: i32, target: i32, item: i32, kind: i16, mark: i64) -> (link: Self)
        ensures
            link == Self::made(id, target, item, kind, mark),
    ;
}

impl Counted for Categories {
    open spec fn tally(&self) -> i16 {
        self.count
    }

    open spec fn with_tally(self, n: i16) -> Self {
        Categories { count: n, ..self }
    }

    proof fn lemma_with_tally(self, n: i16) {
    }

    fn tally_of(&self) -> (n: i16) {
        self.count
    }

    fn set_tally(&mut self, n: i16) {
        self.count = n;
    }
}

impl Counted for Tag {
    open spec fn tally(&self) -> i16 {
        self.count
    }

    open spec fn with_tally(self, n: i16) -> Self {
        Tag { count: n, ..self }
    }

    proof fn lemma_with_tally(self, n: i16) {
    }

    fn tally_of(&self) -> (n: i16) {
        self.count
    }

    fn set_tally(&mut self, n: i16) {
        self.count = n;
    }
}

impl Linking for Category {
    open spec fn target(&self) -> i32 {
        self.categories_id
    }

    open spec fn item(&self) -> i32 {
        self.item_id
    }

    open spec fn kind(&self) -> i16 {
        self.types
    }

    open spec fn made(id: i32, target: i32, item: i32, kind: i16, mark: i64) -> Self {
        Category { id, categories_id: target, item_id: item, types: kind }
    }

    proof fn lemma_made(id: i32, target: i32, item: i32, kind: i16, mark: i64) {
    }

    fn target_of(&self) -> (t: i32) {
        self.categories_id
    }

    fn item_of(&self) -> (i: i32) {
        self.item_id
    }

    fn kind_of(&self) -> (k: i16) {
        self.types
    }

    fn make(id: i32, target: i32, item: i32, kind: i16, mark: i64) -> (link: Self) {
        Category { id, categories_id: target, item_id: item, types: kind }
    }
}

impl Linking for TagItems {
    open spec fn target(&self) -> i32 {
        self.tag_id
    }

    open spec fn item(&self) -> i32 {
        self.item_id
    }

    open spec fn kind(&self) -> i16 {
        self.types
    }

    open spec fn made(id: i32, target: i32, item: i32, kind: i16, mark: i64) -> Self {
        TagItems { id, tag_id: target, item_id: item, types: kind, created: mark }
    }

    proof fn lemma_made(id: i32, target: i32, item: i32, kind: i16, mark: i64) {
    }

    fn target_of(&self) -> (t: i32) {
        self.tag_id
    }

    fn item_of(&self) -> (i: i32) {
        self.item_id
    }

    fn kind_of(&self) -> (k: i16) {
        self.types
    }

    fn make(id: i32, target: i32, item: i32, kind: i16, mark: i64) -> (link: Self) {
        TagItems { id, tag_id: target, item_id: item, types: kind, created: mark }
    }
}

impl Linking for ServeItems {
    open spec fn target(&self) -> i32 {
        self.serve_id
    }

    open spec fn item(&self) -> i32 {
        self.item_id
    }

    open spec fn kind(&self) -> i16 {
        self.types
    }

    open spec fn made(id: i32, target: i32, item: i32, kind: i16, mark: i64) -> Self {
        ServeItems { id, serve_id: target, item_id: item, types: kind }
    }

    proof fn lemma_made(id: i32, target: i32, item: i32, kind: i16, mark: i64) {
    }

    fn target_of(&self) -> (t: i32) {
        self.serve_id
    }

    fn item_of(&self) -> (i: i32) {
        self.item_id
    }

    fn kind_of(&self) -> (k: i16) {
        self.types
    }

    fn make(id: i32, target: i32, item: i32, kind: i16, mark: i64) -> (link: Self) {
        ServeItems { id, serve_id: target, item_id: item, types: kind }
    }
}

impl Linking for TechCategoriesItem {
    open spec fn target(&self) -> i32 {
        self.category_id
    }

    open spec fn item(&self) -> i32 {
        self.item_id
    }

    open spec fn kind(&self) -> i16 {
        self.types
    }

    open spec fn made(id: i32, target: i32, item: i32, kind: i16, mark: i64) -> Self {
        TechCategoriesItem {
            id,
            category_id: target,
            item_id: item,
            types: kind,
            is_active: if mark == 2 {
                2
            } else {
                1
            },
        }
    }

    proof fn lemma_made(id: i32, target: i32, item: i32, kind: i16, mark: i64) {
    }

    fn target_of(&self) -> (t: i32) {
        self.category_id
    }

    fn item_of(&self) -> (i: i32) {
        self.item_id
    }

    fn kind_of(&self) -> (k: i16) {
        self.types
    }

    fn make(id: i32, target: i32, item: i32, kind: i16, mark: i64) -> (link: Self) {
        TechCategoriesItem {
            id,
            category_id: target,
            item_id: item,
            types: kind,
            is_active: if mark == 2 {
                2
            } else {
                1
            },
        }
    }
}

/// The link belongs to the item `item` of kind `kind`.
pub open spec fn is_of<L: Linking>(link: L, item: i32, kind: i16) -> bool {
    link.item() == item && link.kind() == kind
}

/// The targets to which the item is linked, in the order of the link table.
pub open spec fn targets_of<L: Linking>(links: Seq<L>, item: i32, kind: i16) -> Seq<i32> {
    links.filter(|l: L| is_of(l, item, kind)).map_values(|l: L| l.target())
}

/// The link table without the links of the item.
pub open spec fn without_links<L: Linking>(links: Seq<L>, item: i32, kind: i16) -> Seq<L> {
    links.filter(|l: L| !is_of(l, item, kind))
}

/// The `k`-th of the links that are appended for an item.
pub open spec fn new_link<L: Linking>(
    links: Seq<L>,
    targets: Seq<i32>,
    item: i32,
    kind: i16,
    mark: i64,
    k: int,
) -> L {
    L::made((max_key(links) + 1 + k) as i32, targets[k], item, kind, mark)
}

/// The link table with one new link from the item to each of `targets`,
/// under ids that follow the greatest id in the table.
pub open spec fn with_links<L: Linking>(
    links: Seq<L>,
    targets: Seq<i32>,
    item: i32,
    kind: i16,
    mark: i64,
) -> Seq<L> {
    links + Seq::new(targets.len(), |k: int| new_link(links, targets, item, kind, mark, k))
}

/// The ids of a list, each once, in the order of their first occurrence.
pub open spec fn distinct(ids: Seq<i32>) -> Seq<i32>
    decreases ids.len(),
{
    if ids.len() == 0 {
        Seq::empty()
    } else {
        let rest = distinct(ids.drop_last());
        if rest.contains(ids.last()) {
            rest
        } else {
            rest.push(ids.last())
        }
    }
}

/// `distinct` keeps exactly the ids of the list and repeats none.
pub proof fn lemma_distinct(ids: Seq<i32>)
    ensures
        distinct(ids).no_duplicates(),
        forall|id: i32| distinct(ids).contains(id) <==> ids.contains(id),
        distinct(ids).len() <= ids.len(),
    decreases ids.len(),
{
    if ids.len() > 0 {
        let front = ids.drop_last();
        let rest = distinct(front);
        lemma_distinct(front);
        assert forall|id: i32| distinct(ids).contains(id) <==> ids.contains(id) by {
            if ids.contains(id) {
                let i = choose|i: int| 0 <= i < ids.len() && ids[i] == id;
                if i < front.len() {
                    assert(front[i] == id);
                    assert(front.contains(id));
                    assert(rest.contains(id));
                    if !rest.contains(ids.last()) {
                        let j = choose|j: int| 0 <= j < rest.len() && rest[j] == id;
                        assert(rest.push(ids.last())[j] == id);
                    }
                } else {
                    if !rest.contains(ids.last()) {
                        assert(rest.push(ids.last())[rest.len() as int] == id);
                    }
                }
            }
            if distinct(ids).contains(id) {
                let j = choose|j: int| 0 <= j < distinct(ids).len() && distinct(ids)[j] == id;
                if j < rest.len() {
                    assert(rest[j] == id);
                    assert(rest.contains(id));
                    assert(front.contains(id));
                    let i = choose|i: int| 0 <= i < front.len() && front[i] == id;
                    assert(ids[i] == id);
                } else {
                    assert(ids[ids.len() - 1] == id);
                }
            }
        }
    }
}

/// The counted rows after `delta` is added to the counter of every row
/// whose id is among `ids`.
pub open spec fn adjusted<R: Counted>(rows: Seq<R>, ids: Seq<i32>, delta: int) -> Seq<R> {
    Seq::new(
        rows.len(),
        |i: int|
            if ids.contains(rows[i].key()) {
                rows[i].with_tally((rows[i].tally() + delta) as i16)
            } else {
                rows[i]
            },
    )
}

/// Every counter that `adjusted` would change stays within its column.
pub open spec fn has_room<R: Counted>(rows: Seq<R>, ids: Seq<i32>, delta: int) -> bool {
    forall|i: int|
        0 <= i < rows.len() && ids.contains((#[trigger] rows[i]).key()) ==> i16::MIN
            <= rows[i].tally() + delta <= i16::MAX
}

/// Every id of `ids` is the id of some row.
pub open spec fn all_present<R: Keyed>(rows: Seq<R>, ids: Seq<i32>) -> bool {
    forall|k: int| 0 <= k < ids.len() ==> !has_none_with(rows, #[trigger] ids[k])
}

/// Removes repeated ids from a list.
pub fn dedup_ids(ids: &Vec<i32>) -> (out: Vec<i32>)
    ensures
        out@ == distinct(ids@),
{
    let mut out: Vec<i32> = Vec::new();
    let mut i: usize = 0;
    assert(ids@.take(0) =~= Seq::<i32>::empty());
    while i < ids.len()
        invariant
            i <= ids.len(),
            out@ == distinct(ids@.take(i as int)),
        decreases ids.len() - i,
    {
        proof {
            assert(ids@.take(i + 1).drop_last() =~= ids@.take(i as int));
        }
        if !contains_id(&out, ids[i]) {
            out.push(ids[i]);
        }
        i += 1;
    }
    assert(ids@.take(ids.len() as int) =~= ids@);
    out
}

/// Collects the targets of the links of an item.
pub fn collect_targets<L: Linking>(links: &Vec<L>, item: i32, kind: i16) -> (ids: Vec<i32>)
    ensures
        ids@ == targets_of(links@, item, kind),
{
    let ghost pred = |l: L| is_of(l, item, kind);
    let ghost pick = |l: L| l.target();
    let mut ids: Vec<i32> = Vec::new();
    let mut i: usize = 0;
    assert(links@.take(0).filter(pred).map_values(pick) =~= ids@);
    while i < links.len()
        invariant
            i <= links.len(),
            pred == |l: L| is_of(l, item, kind),
            pick == |l: L| l.target(),
            ids@ == links@.take(i as int).filter(pred).map_values(pick),
        decreases links.len() - i,
    {
        proof {
            assert(links@.take(i + 1) =~= links@.take(i as int).push(links@[i as int]));
            Seq::lemma_filter_push(links@.take(i as int), links@[i as int], pred);
        }
        if links[i].item_of() == item && links[i].kind_of() == kind {
            ids.push(links[i].target_of());
            assert(ids@ =~= links@.take(i + 1).filter(pred).map_values(pick));
        }
        i += 1;
    }
    assert(links@.take(links.len() as int) =~= links@);
    ids
}

/// The link table without the links of an item.
pub fn links_without<L: Linking>(links: &Vec<L>, item: i32, kind: i16) -> (kept: Vec<L>)
    ensures
        kept@ == without_links(links@, item, kind),
{
    let ghost pred = |l: L| !is_of(l, item, kind);
    let mut kept: Vec<L> = Vec::new();
    let mut i: usize = 0;
    assert(links@.take(0).filter(pred) =~= kept@);
    while i < links.len()
        invariant
            i <= links.len(),
            pred == |l: L| !is_of(l, item, kind),
            kept@ == links@.take(i as int).filter(pred),
        decreases links.len() - i,
    {
        proof {
            assert(links@.take(i + 1) =~= links@.take(i as int).push(links@[i as int]));
            Seq::lemma_filter_push(links@.take(i as int), links@[i as int], pred);
        }
        if !(links[i].item_of() == item && links[i].kind_of() == kind) {
            kept.push(links[i].copy());
        }
        i += 1;
    }
    assert(links@.take(links.len() as int) =~= links@);
    kept
}

/// Tests whether `n` more ids can follow the greatest id of the table.
pub fn keys_left<R: Keyed>(rows: &Vec<R>, n: usize) -> (enough: bool)
    ensures
        enough == (max_key(rows@) + n <= i32::MAX),
{
    let mut top: i32 = 0;
    let mut i: usize = 0;
    while i < rows.len()
        invariant
            i <= rows.len(),
            top == max_key(rows@.take(i as int)),
        decreases rows.len() - i,
    {
        let k: i32 = rows[i].id_of();
        proof {
            assert(rows@.take(i + 1).drop_last() =~= rows@.take(i as int));
        }
        if k > top {
            top = k;
        }
        i += 1;
    }
    proof {
        assert(rows@.take(rows.len() as int) =~= rows@);
        lemma_max_key_bounds(rows@);
    }
    n <= 0x7fff_ffff && (n as i64) <= 0x7fff_ffff - (top as i64)
}

/// Appends one link from the item to each of `targets`.
pub fn append_links<L: Linking>(
    links: &mut Vec<L>,
    targets: &Vec<i32>,
    item: i32,
    kind: i16,
    mark: i64,
)
    requires
        max_key(old(links)@) + targets.len() <= i32::MAX,
    ensures
        final(links)@ == with_links(old(links)@, targets@, item, kind, mark),
{
    let ghost before = links@;
    proof {
        lemma_max_key_bounds(before);
    }
    let first: Option<i32> = fresh_id(links);
    let mut k: usize = 0;
    assert(links@ =~= before + Seq::new(0, |j: int| new_link(before, targets@, item, kind, mark, j)));
    while k < targets.len()
        invariant
            k <= targets.len(),
            0 <= max_key(before),
            max_key(before) + targets.len() <= i32::MAX,
            first matches Some(f) ==> f == max_key(before) + 1,
            first is None ==> max_key(before) == i32::MAX,
            links@ == before + Seq::new(
                k as nat,
                |j: int| new_link(before, targets@, item, kind, mark, j),
            ),
        decreases targets.len() - k,
    {
        let f: i32 = first.unwrap();
        let id: i32 = (f as i64 + k as i64) as i32;
        let link: L = L::make(id, targets[k], item, kind, mark);
        links.push(link);
        assert(links@ =~= before + Seq::new(
            (k + 1) as nat,
            |j: int| new_link(before, targets@, item, kind, mark, j),
        ));
        k += 1;
    }
}

/// Tests whether every counter that an adjustment would change stays within
/// its column.
pub fn room_for<R: Counted>(rows: &Vec<R>, ids: &Vec<i32>, delta: i16) -> (ok: bool)
    ensures
        ok == has_room(rows@, ids@, delta as int),
{
    let mut i: usize = 0;
    while i < rows.len()
        invariant
            i <= rows.len(),
            forall|j: int|
                0 <= j < i && ids@.contains((#[trigger] rows@[j]).key()) ==> i16::MIN
                    <= rows@[j].tally() + delta <= i16::MAX,
        decreases rows.len() - i,
    {
        if contains_id(ids, rows[i].id_of()) {
            let sum: i32 = rows[i].tally_of() as i32 + delta as i32;
            if sum < -0x8000 || sum > 0x7fff {
                return false;
            }
        }
        i += 1;
    }
    true
}

/// Adds `delta` to the counter of every row whose id is among `ids`.
pub fn adjust_counts<R: Counted>(rows: &mut Vec<R>, ids: &Vec<i32>, delta: i16)
    requires
        has_room(old(rows)@, ids@, delta as int),
    ensures
        final(rows)@ == adjusted(old(rows)@, ids@, delta as int),
{
    let ghost before = rows@;
    let mut i: usize = 0;
    while i < rows.len()
        invariant
            i <= rows.len(),
            rows@.len() == before.len(),
            has_room(before, ids@, delta as int),
            forall|j: int| 0 <= j < i ==> rows@[j] == adjusted(before, ids@, delta as int)[j],
            forall|j: int| i <= j < rows.len() ==> rows@[j] == before[j],
        decreases rows.len() - i,
    {
        if contains_id(ids, rows[i].id_of()) {
            assert(ids@.contains(before[i as int].key()));
            let sum: i16 = rows[i].tally_of() + delta;
            rows[i].set_tally(sum);
        }
        i += 1;
    }
    assert(rows@ =~= adjusted(before, ids@, delta as int));
}

/// Tests whether every id of `ids` is the id of some row.
pub fn all_found<R: Keyed>(rows: &Vec<R>, ids: &Vec<i32>) -> (ok: bool)
    ensures
        ok == all_present(rows@, ids@),
{
    let mut k: usize = 0;
    while k < ids.len()
        invariant
            k <= ids.len(),
            forall|j: int| 0 <= j < k ==> !has_none_with(rows@, #[trigger] ids@[j]),
        decreases ids.len() - k,
    {
        if find_row(rows, ids[k]).is_none() {
            return false;
        }
        k += 1;
    }
    true
}

} // verus!
