//! When counters are right, and the laws by which linking and unlinking keep them right.

use vstd::prelude::*;
use crate::catalog::{Keyed, max_key};
use crate::counter::{
    Counted, Linking, is_of, targets_of, without_links, with_links, new_link, adjusted, has_room,
};
use crate::models::Item;

verus! {

/// A published item with this id and kind is stored.
pub open spec fn is_live(items: Seq<Item>, item: i32, kind: i16) -> bool {
    exists|j: int|
        0 <= j < items.len() && (#[trigger] items[j]).id == item && items[j].types == kind
            && items[j].item_types < 10
}

/// An item with this id and kind is stored.
pub open spec fn is_stored(items: Seq<Item>, item: i32, kind: i16) -> bool {
    exists|j: int|
        0 <= j < items.len() && (#[trigger] items[j]).id == item && items[j].types == kind
}

/// The link leads a published item to `target`.
pub open spec fn counts_toward<L: Linking>(items: Seq<Item>, link: L, target: i32) -> bool {
    link.target() == target && is_live(items, link.item(), link.kind())
}

/// The number of links that lead a published item to `target`.
pub open spec fn live_count<L: Linking>(items: Seq<Item>, links: Seq<L>, target: i32) -> int
    decreases links.len(),
{
    if links.len() == 0 {
        0
    } else {
        live_count(items, links.drop_last(), target) + if counts_toward(
            items,
            links.last(),
            target,
        ) {
            1int
        } else {
            0int
        }
    }
}

/// Every counter equals the number of published items linked to its row.
pub open spec fn counts_match<R: Counted, L: Linking>(
    items: Seq<Item>,
    rows: Seq<R>,
    links: Seq<L>,
) -> bool {
    forall|i: int|
        0 <= i < rows.len() ==> (#[trigger] rows[i]).tally() == live_count(
            items,
            links,
            rows[i].key(),
        )
}

/// Two links join the same item to the same target.
pub open spec fn same_link<L: Linking>(a: L, b: L) -> bool {
    a.target() == b.target() && a.item() == b.item() && a.kind() == b.kind()
}

/// No item is linked twice to one target, and every link belongs to a
/// stored item.
pub open spec fn links_sound<L: Linking>(items: Seq<Item>, links: Seq<L>) -> bool {
    &&& forall|i: int, j: int|
        0 <= i < j < links.len() ==> !same_link(#[trigger] links[i], #[trigger] links[j])
    &&& forall|i: int|
        0 <= i < links.len() ==> is_stored(
            items,
            (#[trigger] links[i]).item(),
            links[i].kind(),
        )
}

/// No two items share an id.
pub open spec fn items_sound(items: Seq<Item>) -> bool {
    forall|i: int, j: int|
        0 <= i < j < items.len() ==> (#[trigger] items[i]).id != (#[trigger] items[j]).id
}

/// The item has no link in the table.
pub open spec fn is_unlinked<L: Linking>(links: Seq<L>, item: i32, kind: i16) -> bool {
    forall|i: int| 0 <= i < links.len() ==> !is_of(#[trigger] links[i], item, kind)
}

/// Some link of the item leads to `target`.
pub open spec fn leads_to<L: Linking>(links: Seq<L>, item: i32, kind: i16, target: i32) -> bool {
    exists|i: int|
        0 <= i < links.len() && is_of(#[trigger] links[i], item, kind) && links[i].target()
            == target
}

/// A target is among the targets of an item where one of the item's links
/// leads to it.
pub proof fn lemma_targets_lead<L: Linking>(links: Seq<L>, item: i32, kind: i16, target: i32)
    ensures
        targets_of(links, item, kind).contains(target) <==> leads_to(links, item, kind, target),
    decreases links.len(),
{
    let pred = |l: L| is_of(l, item, kind);
    let pick = |l: L| l.target();
    if links.len() == 0 {
        assert(links.filter(pred) =~= Seq::<L>::empty());
    } else {
        let front = links.drop_last();
        let last = links.last();
        lemma_targets_lead(front, item, kind, target);
        assert(links =~= front.push(last));
        Seq::lemma_filter_push(front, last, pred);
        let ft = targets_of(front, item, kind);
        let lt = targets_of(links, item, kind);
        if is_of(last, item, kind) {
            assert(lt =~= ft.push(last.target()));
        } else {
            assert(lt =~= ft);
        }
        if lt.contains(target) {
            let k = choose|k: int| 0 <= k < lt.len() && lt[k] == target;
            if k < ft.len() {
                assert(ft[k] == target);
                assert(ft.contains(target));
                let i = choose|i: int|
                    0 <= i < front.len() && is_of(#[trigger] front[i], item, kind)
                        && front[i].target() == target;
                assert(links[i] == front[i]);
            } else {
                assert(links[links.len() - 1] == last);
            }
        }
        if leads_to(links, item, kind, target) {
            let i = choose|i: int|
                0 <= i < links.len() && is_of(#[trigger] links[i], item, kind)
                    && links[i].target() == target;
            if i < front.len() {
                assert(front[i] == links[i]);
                assert(leads_to(front, item, kind, target));
                let k = choose|k: int| 0 <= k < ft.len() && ft[k] == target;
                assert(lt[k] == target);
            } else {
                assert(lt[lt.len() - 1] == target);
            }
        }
    }
}

proof fn lemma_live_count_same<L: Linking>(
    items: Seq<Item>,
    other: Seq<Item>,
    links: Seq<L>,
    target: i32,
)
    requires
        forall|i: int|
            0 <= i < links.len() ==> is_live(items, (#[trigger] links[i]).item(), links[i].kind())
                == is_live(other, links[i].item(), links[i].kind()),
    ensures
        live_count(items, links, target) == live_count(other, links, target),
    decreases links.len(),
{
    if links.len() > 0 {
        let front = links.drop_last();
        assert forall|i: int| 0 <= i < front.len() implies is_live(
            items,
            (#[trigger] front[i]).item(),
            front[i].kind(),
        ) == is_live(other, front[i].item(), front[i].kind()) by {
            assert(front[i] == links[i]);
        }
        lemma_live_count_same(items, other, front, target);
        assert(links.last() == links[links.len() - 1]);
    }
}

proof fn lemma_live_count_concat<L: Linking>(items: Seq<Item>, a: Seq<L>, b: Seq<L>, target: i32)
    ensures
        live_count(items, a + b, target) == live_count(items, a, target) + live_count(
            items,
            b,
            target,
        ),
    decreases b.len(),
{
    if b.len() == 0 {
        assert(a + b =~= a);
    } else {
        lemma_live_count_concat(items, a, b.drop_last(), target);
        assert((a + b).drop_last() =~= a + b.drop_last());
        assert((a + b).last() == b.last());
    }
}

proof fn lemma_live_count_fresh<L: Linking>(
    items: Seq<Item>,
    fresh: Seq<L>,
    targets: Seq<i32>,
    item: i32,
    kind: i16,
    target: i32,
)
    requires
        is_live(items, item, kind),
        targets.no_duplicates(),
        fresh.len() == targets.len(),
        forall|k: int|
            0 <= k < fresh.len() ==> (#[trigger] fresh[k]).target() == targets[k] && is_of(
                fresh[k],
                item,
                kind,
            ),
    ensures
        live_count(items, fresh, target) == if targets.contains(target) {
            1int
        } else {
            0int
        },
    decreases fresh.len(),
{
    if fresh.len() > 0 {
        let n = fresh.len() - 1;
        let front = fresh.drop_last();
        let tfront = targets.drop_last();
        assert forall|k: int| 0 <= k < front.len() implies (#[trigger] front[k]).target()
            == tfront[k] && is_of(front[k], item, kind) by {
            assert(front[k] == fresh[k]);
        }
        lemma_live_count_fresh(items, front, tfront, item, kind, target);
        assert(fresh.last() == fresh[n]);
        if tfront.contains(target) {
            let k = choose|k: int| 0 <= k < tfront.len() && tfront[k] == target;
            assert(targets[k] == target);
            assert(targets[n] != targets[k]);
        } else {
            if targets.contains(target) {
                let k = choose|k: int| 0 <= k < targets.len() && targets[k] == target;
                if k < n {
                    assert(tfront[k] == target);
                }
            }
            if targets[n] == target {
                assert(targets.contains(target));
            }
        }
    }
}

proof fn lemma_live_count_without<L: Linking>(
    items: Seq<Item>,
    links: Seq<L>,
    item: i32,
    kind: i16,
    target: i32,
)
    requires
        is_live(items, item, kind),
        forall|i: int, j: int|
            0 <= i < j < links.len() ==> !same_link(#[trigger] links[i], #[trigger] links[j]),
    ensures
        live_count(items, links, target) == live_count(
            items,
            without_links(links, item, kind),
            target,
        ) + if leads_to(links, item, kind, target) {
            1int
        } else {
            0int
        },
    decreases links.len(),
{
    let pred = |l: L| !is_of(l, item, kind);
    if links.len() == 0 {
        assert(links.filter(pred) =~= Seq::<L>::empty());
    } else {
        let front = links.drop_last();
        let last = links.last();
        assert forall|i: int, j: int| 0 <= i < j < front.len() implies !same_link(
            #[trigger] front[i],
            #[trigger] front[j],
        ) by {
            assert(front[i] == links[i] && front[j] == links[j]);
        }
        lemma_live_count_without(items, front, item, kind, target);
        assert(links =~= front.push(last));
        Seq::lemma_filter_push(front, last, pred);
        let n = links.len() - 1;
        assert(links[n] == last);
        if is_of(last, item, kind) {
            if last.target() == target {
                if leads_to(front, item, kind, target) {
                    let i = choose|i: int|
                        0 <= i < front.len() && is_of(#[trigger] front[i], item, kind)
                            && front[i].target() == target;
                    assert(links[i] == front[i]);
                    assert(same_link(links[i], links[n]));
                }
                assert(leads_to(links, item, kind, target));
            } else {
                if leads_to(links, item, kind, target) {
                    let i = choose|i: int|
                        0 <= i < links.len() && is_of(#[trigger] links[i], item, kind)
                            && links[i].target() == target;
                    assert(front[i] == links[i]);
                }
                if leads_to(front, item, kind, target) {
                    let i = choose|i: int|
                        0 <= i < front.len() && is_of(#[trigger] front[i], item, kind)
                            && front[i].target() == target;
                    assert(links[i] == front[i]);
                }
            }
        } else {
            assert(without_links(links, item, kind).drop_last() =~= without_links(
                front,
                item,
                kind,
            ));
            if leads_to(links, item, kind, target) {
                let i = choose|i: int|
                    0 <= i < links.len() && is_of(#[trigger] links[i], item, kind)
                        && links[i].target() == target;
                assert(front[i] == links[i]);
            }
            if leads_to(front, item, kind, target) {
                let i = choose|i: int|
                    0 <= i < front.len() && is_of(#[trigger] front[i], item, kind)
                        && front[i].target() == target;
                assert(links[i] == front[i]);
            }
        }
    }
}

/// What a change of one item's status does to the count of a target: links
/// of other items count as before, links of the item count in `after` only.
proof fn lemma_live_count_turned<L: Linking>(
    before: Seq<Item>,
    after: Seq<Item>,
    links: Seq<L>,
    item: i32,
    kind: i16,
    target: i32,
)
    requires
        !is_live(before, item, kind),
        is_live(after, item, kind),
        forall|i: int|
            0 <= i < links.len() && !is_of(#[trigger] links[i], item, kind) ==> is_live(
                before,
                links[i].item(),
                links[i].kind(),
            ) == is_live(after, links[i].item(), links[i].kind()),
        forall|i: int, j: int|
            0 <= i < j < links.len() ==> !same_link(#[trigger] links[i], #[trigger] links[j]),
    ensures
        live_count(after, links, target) == live_count(before, links, target) + if leads_to(
            links,
            item,
            kind,
            target,
        ) {
            1int
        } else {
            0int
        },
    decreases links.len(),
{
    if links.len() > 0 {
        let front = links.drop_last();
        let last = links.last();
        let n = links.len() - 1;
        assert(links[n] == last);
        assert forall|i: int, j: int| 0 <= i < j < front.len() implies !same_link(
            #[trigger] front[i],
            #[trigger] front[j],
        ) by {
            assert(front[i] == links[i] && front[j] == links[j]);
        }
        assert forall|i: int|
            0 <= i < front.len() && !is_of(#[trigger] front[i], item, kind) implies is_live(
            before,
            front[i].item(),
            front[i].kind(),
        ) == is_live(after, front[i].item(), front[i].kind()) by {
            assert(front[i] == links[i]);
        }
        lemma_live_count_turned(before, after, front, item, kind, target);
        if leads_to(front, item, kind, target) {
            let i = choose|i: int|
                0 <= i < front.len() && is_of(#[trigger] front[i], item, kind)
                    && front[i].target() == target;
            assert(links[i] == front[i]);
            if is_of(last, item, kind) && last.target() == target {
                assert(same_link(links[i], links[n]));
            }
        }
        if leads_to(links, item, kind, target) {
            let i = choose|i: int|
                0 <= i < links.len() && is_of(#[trigger] links[i], item, kind)
                    && links[i].target() == target;
            if i < n {
                assert(front[i] == links[i]);
            }
        }
    }
}

proof fn lemma_adjusted<R: Counted>(rows: Seq<R>, ids: Seq<i32>, delta: int, i: int)
    requires
        0 <= i < rows.len(),
        has_room(rows, ids, delta),
    ensures
        adjusted(rows, ids, delta)[i].key() == rows[i].key(),
        adjusted(rows, ids, delta)[i].tally() == rows[i].tally() + if ids.contains(
            rows[i].key(),
        ) {
            delta
        } else {
            0
        },
{
    if ids.contains(rows[i].key()) {
        rows[i].lemma_with_tally((rows[i].tally() + delta) as i16);
    }
}

/// Linking a published item that has no links yet to targets, each once,
/// and adding one to the counter of each keeps every counter equal to the
/// number of published items linked to its row.
pub proof fn law_link_conserves<R: Counted, L: Linking>(
    items: Seq<Item>,
    rows: Seq<R>,
    links: Seq<L>,
    targets: Seq<i32>,
    item: i32,
    kind: i16,
    mark: i64,
)
    requires
        counts_match(items, rows, links),
        links_sound(items, links),
        is_live(items, item, kind),
        is_unlinked(links, item, kind),
        targets.no_duplicates(),
        has_room(rows, targets, 1),
    ensures
        counts_match(items, adjusted(rows, targets, 1), with_links(links, targets, item, kind, mark)),
        links_sound(items, with_links(links, targets, item, kind, mark)),
{
    let fresh = Seq::new(targets.len(), |k: int| new_link(links, targets, item, kind, mark, k));
    let all = with_links(links, targets, item, kind, mark);
    assert(all =~= links + fresh);
    assert forall|k: int| 0 <= k < fresh.len() implies (#[trigger] fresh[k]).target() == targets[k]
        && is_of(fresh[k], item, kind) by {
        L::lemma_made((max_key(links) + 1 + k) as i32, targets[k], item, kind, mark);
    }
    assert forall|i: int| 0 <= i < rows.len() implies (#[trigger] adjusted(rows, targets, 1)[i]).tally()
        == live_count(items, all, adjusted(rows, targets, 1)[i].key()) by {
        lemma_adjusted(rows, targets, 1, i);
        let t = rows[i].key();
        lemma_live_count_concat(items, links, fresh, t);
        lemma_live_count_fresh(items, fresh, targets, item, kind, t);
    }
    assert forall|i: int, j: int| 0 <= i < j < all.len() implies !same_link(
        #[trigger] all[i],
        #[trigger] all[j],
    ) by {
        if j < links.len() {
            assert(all[i] == links[i] && all[j] == links[j]);
        } else if i < links.len() {
            assert(all[i] == links[i]);
            assert(all[j] == fresh[j - links.len()]);
            assert(!is_of(links[i], item, kind));
        } else {
            assert(all[i] == fresh[i - links.len()]);
            assert(all[j] == fresh[j - links.len()]);
            assert(targets[i - links.len()] != targets[j - links.len()]);
        }
    }
    assert forall|i: int| 0 <= i < all.len() implies is_stored(
        items,
        (#[trigger] all[i]).item(),
        all[i].kind(),
    ) by {
        if i < links.len() {
            assert(all[i] == links[i]);
        } else {
            assert(all[i] == fresh[i - links.len()]);
        }
    }
}

/// Dropping the links of a published item and taking one from the counter
/// of each of its targets keeps every counter equal to the number of
/// published items linked to its row, and leaves the item without links.
pub proof fn law_unlink_conserves<R: Counted, L: Linking>(
    items: Seq<Item>,
    rows: Seq<R>,
    links: Seq<L>,
    item: i32,
    kind: i16,
)
    requires
        counts_match(items, rows, links),
        links_sound(items, links),
        is_live(items, item, kind),
        has_room(rows, targets_of(links, item, kind), -1),
    ensures
        counts_match(
            items,
            adjusted(rows, targets_of(links, item, kind), -1),
            without_links(links, item, kind),
        ),
        links_sound(items, without_links(links, item, kind)),
        is_unlinked(without_links(links, item, kind), item, kind),
{
    let gone = targets_of(links, item, kind);
    let kept = without_links(links, item, kind);
    let pred = |l: L| !is_of(l, item, kind);
    assert forall|i: int| 0 <= i < rows.len() implies (#[trigger] adjusted(rows, gone, -1)[i]).tally()
        == live_count(items, kept, adjusted(rows, gone, -1)[i].key()) by {
        lemma_adjusted(rows, gone, -1, i);
        let t = rows[i].key();
        lemma_live_count_without(items, links, item, kind, t);
        lemma_targets_lead(links, item, kind, t);
    }
    lemma_filter_keeps_order(links, pred);
    assert forall|i: int| 0 <= i < kept.len() implies !is_of(#[trigger] kept[i], item, kind)
        && is_stored(items, kept[i].item(), kept[i].kind()) by {
        assert(links.contains(kept[i]));
        let k = choose|k: int| 0 <= k < links.len() && links[k] == kept[i];
        assert(is_stored(items, links[k].item(), links[k].kind()));
    }
    assert forall|i: int, j: int| 0 <= i < j < kept.len() implies !same_link(
        #[trigger] kept[i],
        #[trigger] kept[j],
    ) by {
        assert(in_order(links, kept[i], kept[j]));
        let (a, b) = choose|a: int, b: int|
            0 <= a < b < links.len() && links[a] == kept[i] && links[b] == kept[j];
        assert(!same_link(links[a], links[b]));
    }
}

/// Two rows stand in `s` in this order.
pub open spec fn in_order<A>(s: Seq<A>, x: A, y: A) -> bool {
    exists|a: int, b: int| 0 <= a < b < s.len() && s[a] == x && s[b] == y
}

/// A filter keeps rows in their order: every row of the result passes the
/// test and stands in the filtered sequence, and two rows of the result come
/// from two places of that sequence, in the same order.
proof fn lemma_filter_keeps_order<A>(s: Seq<A>, pred: spec_fn(A) -> bool)
    ensures
        forall|i: int|
            0 <= i < s.filter(pred).len() ==> pred(#[trigger] s.filter(pred)[i]) && s.contains(
                s.filter(pred)[i],
            ),
        forall|i: int, j: int|
            0 <= i < j < s.filter(pred).len() ==> in_order(
                s,
                #[trigger] s.filter(pred)[i],
                #[trigger] s.filter(pred)[j],
            ),
    decreases s.len(),
{
    if s.len() == 0 {
        assert(s.filter(pred) =~= Seq::<A>::empty()) by {
            reveal(Seq::filter);
        }
    } else {
        let front = s.drop_last();
        let last = s.last();
        lemma_filter_keeps_order(front, pred);
        assert(s =~= front.push(last));
        Seq::lemma_filter_push(front, last, pred);
        let f = s.filter(pred);
        let ff = front.filter(pred);
        assert forall|i: int| 0 <= i < f.len() implies pred(#[trigger] f[i]) && s.contains(
            f[i],
        ) by {
            if i < ff.len() {
                assert(f[i] == ff[i]);
                assert(front.contains(ff[i]));
                let a = choose|a: int| 0 <= a < front.len() && front[a] == ff[i];
                assert(s[a] == front[a]);
            } else {
                assert(s[s.len() - 1] == f[i]);
            }
        }
        assert forall|i: int, j: int| 0 <= i < j < f.len() implies in_order(
            s,
            #[trigger] f[i],
            #[trigger] f[j],
        ) by {
            if j < ff.len() {
                assert(f[i] == ff[i] && f[j] == ff[j]);
                assert(in_order(front, ff[i], ff[j]));
                let (a, b) = choose|a: int, b: int|
                    0 <= a < b < front.len() && front[a] == ff[i] && front[b] == ff[j];
                assert(s[a] == front[a] && s[b] == front[b]);
            } else {
                assert(f[i] == ff[i]);
                assert(front.contains(ff[i]));
                let a = choose|a: int| 0 <= a < front.len() && front[a] == ff[i];
                assert(s[a] == front[a]);
                assert(s[s.len() - 1] == f[j]);
            }
        }
    }
}

/// Storing an item under an id that no stored item has changes no count.
pub proof fn law_store_conserves<R: Counted, L: Linking>(
    items: Seq<Item>,
    rows: Seq<R>,
    links: Seq<L>,
    item: Item,
)
    requires
        counts_match(items, rows, links),
        links_sound(items, links),
        forall|j: int| 0 <= j < items.len() ==> (#[trigger] items[j]).id != item.id,
    ensures
        counts_match(items.push(item), rows, links),
        links_sound(items.push(item), links),
        is_unlinked(links, item.id, item.types),
{
    let more = items.push(item);
    assert forall|i: int| 0 <= i < links.len() implies is_live(
        items,
        (#[trigger] links[i]).item(),
        links[i].kind(),
    ) == is_live(more, links[i].item(), links[i].kind()) && is_stored(
        more,
        links[i].item(),
        links[i].kind(),
    ) && !is_of(links[i], item.id, item.types) by {
        let l = links[i];
        assert(is_stored(items, l.item(), l.kind()));
        let s = choose|j: int|
            0 <= j < items.len() && (#[trigger] items[j]).id == l.item() && items[j].types
                == l.kind();
        assert(more[s] == items[s]);
        if is_live(items, l.item(), l.kind()) {
            let j = choose|j: int|
                0 <= j < items.len() && (#[trigger] items[j]).id == l.item() && items[j].types
                    == l.kind() && items[j].item_types < 10;
            assert(more[j] == items[j]);
        }
        if is_live(more, l.item(), l.kind()) {
            let j = choose|j: int|
                0 <= j < more.len() && (#[trigger] more[j]).id == l.item() && more[j].types
                    == l.kind() && more[j].item_types < 10;
            if j < items.len() {
                assert(more[j] == items[j]);
            }
        }
    }
    assert forall|i: int| 0 <= i < rows.len() implies (#[trigger] rows[i]).tally() == live_count(
        more,
        links,
        rows[i].key(),
    ) by {
        lemma_live_count_same(items, more, links, rows[i].key());
    }
}

/// Removing an item that has no links changes no count.
pub proof fn law_remove_conserves<R: Counted, L: Linking>(
    items: Seq<Item>,
    rows: Seq<R>,
    links: Seq<L>,
    at: int,
)
    requires
        0 <= at < items.len(),
        counts_match(items, rows, links),
        links_sound(items, links),
        is_unlinked(links, items[at].id, items[at].types),
    ensures
        counts_match(items.remove(at), rows, links),
        links_sound(items.remove(at), links),
{
    let less = items.remove(at);
    assert forall|i: int| 0 <= i < links.len() implies is_live(
        items,
        (#[trigger] links[i]).item(),
        links[i].kind(),
    ) == is_live(less, links[i].item(), links[i].kind()) && is_stored(
        less,
        links[i].item(),
        links[i].kind(),
    ) by {
        let l = links[i];
        assert(!is_of(l, items[at].id, items[at].types));
        assert(is_stored(items, l.item(), l.kind()));
        let s = choose|j: int|
            0 <= j < items.len() && (#[trigger] items[j]).id == l.item() && items[j].types
                == l.kind();
        if s < at {
            assert(less[s] == items[s]);
        } else {
            assert(less[s - 1] == items[s]);
        }
        if is_live(items, l.item(), l.kind()) {
            let j = choose|j: int|
                0 <= j < items.len() && (#[trigger] items[j]).id == l.item() && items[j].types
                    == l.kind() && items[j].item_types < 10;
            if j < at {
                assert(less[j] == items[j]);
            } else {
                assert(less[j - 1] == items[j]);
            }
        }
        if is_live(less, l.item(), l.kind()) {
            let j = choose|j: int|
                0 <= j < less.len() && (#[trigger] less[j]).id == l.item() && less[j].types
                    == l.kind() && less[j].item_types < 10;
            if j < at {
                assert(less[j] == items[j]);
            } else {
                assert(less[j] == items[j + 1]);
            }
        }
    }
    assert forall|i: int| 0 <= i < rows.len() implies (#[trigger] rows[i]).tally() == live_count(
        less,
        links,
        rows[i].key(),
    ) by {
        lemma_live_count_same(items, less, links, rows[i].key());
    }
}

/// Replacing an item by one of the same id, kind and status changes no
/// count.
pub proof fn law_rewrite_conserves<R: Counted, L: Linking>(
    items: Seq<Item>,
    rows: Seq<R>,
    links: Seq<L>,
    at: int,
    item: Item,
)
    requires
        0 <= at < items.len(),
        counts_match(items, rows, links),
        links_sound(items, links),
        item.id == items[at].id,
        item.types == items[at].types,
        item.item_types == items[at].item_types,
    ensures
        counts_match(items.update(at, item), rows, links),
        links_sound(items.update(at, item), links),
{
    let next = items.update(at, item);
    lemma_same_liveness(items, next);
    assert forall|i: int| 0 <= i < rows.len() implies (#[trigger] rows[i]).tally() == live_count(
        next,
        links,
        rows[i].key(),
    ) by {
        lemma_live_count_same(items, next, links, rows[i].key());
    }
}

/// Two item tables that agree row by row on id, kind and status hold the
/// same items and the same published items.
proof fn lemma_same_liveness(items: Seq<Item>, next: Seq<Item>)
    requires
        items.len() == next.len(),
        forall|j: int|
            0 <= j < items.len() ==> (#[trigger] items[j]).id == next[j].id && items[j].types
                == next[j].types && items[j].item_types == next[j].item_types,
    ensures
        forall|item: i32, kind: i16|
            #![trigger is_live(items, item, kind)]
            #![trigger is_live(next, item, kind)]
            is_live(items, item, kind) == is_live(next, item, kind),
        forall|item: i32, kind: i16|
            #![trigger is_stored(items, item, kind)]
            #![trigger is_stored(next, item, kind)]
            is_stored(items, item, kind) == is_stored(next, item, kind),
{
    assert forall|item: i32, kind: i16|
        #![trigger is_live(items, item, kind)]
        #![trigger is_live(next, item, kind)]
        is_live(items, item, kind) == is_live(next, item, kind) by {
        if is_live(items, item, kind) {
            let j = choose|j: int|
                0 <= j < items.len() && (#[trigger] items[j]).id == item && items[j].types == kind
                    && items[j].item_types < 10;
            assert(next[j].id == item);
        }
        if is_live(next, item, kind) {
            let j = choose|j: int|
                0 <= j < next.len() && (#[trigger] next[j]).id == item && next[j].types == kind
                    && next[j].item_types < 10;
            assert(items[j].id == item);
        }
    }
    assert forall|item: i32, kind: i16|
        #![trigger is_stored(items, item, kind)]
        #![trigger is_stored(next, item, kind)]
        is_stored(items, item, kind) == is_stored(next, item, kind) by {
        if is_stored(items, item, kind) {
            let j = choose|j: int|
                0 <= j < items.len() && (#[trigger] items[j]).id == item && items[j].types == kind;
            assert(next[j].id == item);
        }
        if is_stored(next, item, kind) {
            let j = choose|j: int|
                0 <= j < next.len() && (#[trigger] next[j]).id == item && next[j].types == kind;
            assert(items[j].id == item);
        }
    }
}

/// The item table after the status code of the item at `at` is set to `code`.
pub open spec fn turned(items: Seq<Item>, at: int, code: i16) -> Seq<Item> {
    items.update(at, Item { item_types: code, ..items[at] })
}

/// What turning the status of the item at `at` does to the liveness of
/// items: nothing for all other items.
proof fn lemma_turn_is_local(items: Seq<Item>, at: int, code: i16)
    requires
        0 <= at < items.len(),
        items_sound(items),
    ensures
        forall|item: i32, kind: i16|
            #![trigger is_live(turned(items, at, code), item, kind)]
            !(item == items[at].id && kind == items[at].types) ==> is_live(items, item, kind)
                == is_live(turned(items, at, code), item, kind),
        forall|item: i32, kind: i16|
            #![trigger is_stored(turned(items, at, code), item, kind)]
            is_stored(items, item, kind) == is_stored(turned(items, at, code), item, kind),
        is_live(
            turned(items, at, code),
            items[at].id,
            items[at].types,
        ) == (code < 10),
        is_live(items, items[at].id, items[at].types) == (items[at].item_types < 10),
{
    let next = turned(items, at, code);
    assert forall|item: i32, kind: i16|
        #![trigger is_live(next, item, kind)]
        !(item == items[at].id && kind == items[at].types) implies is_live(items, item, kind)
        == is_live(next, item, kind) by {
        if is_live(items, item, kind) {
            let j = choose|j: int|
                0 <= j < items.len() && (#[trigger] items[j]).id == item && items[j].types == kind
                    && items[j].item_types < 10;
            assert(next[j] == items[j]);
        }
        if is_live(next, item, kind) {
            let j = choose|j: int|
                0 <= j < next.len() && (#[trigger] next[j]).id == item && next[j].types == kind
                    && next[j].item_types < 10;
            assert(next[j] == items[j]);
        }
    }
    assert forall|item: i32, kind: i16|
        #![trigger is_stored(next, item, kind)]
        is_stored(items, item, kind) == is_stored(next, item, kind) by {
        if is_stored(items, item, kind) {
            let j = choose|j: int|
                0 <= j < items.len() && (#[trigger] items[j]).id == item && items[j].types == kind;
            assert(next[j].id == item && next[j].types == kind);
        }
        if is_stored(next, item, kind) {
            let j = choose|j: int|
                0 <= j < next.len() && (#[trigger] next[j]).id == item && next[j].types == kind;
            assert(items[j].id == item && items[j].types == kind);
        }
    }
    if code < 10 {
        assert(next[at].id == items[at].id && next[at].item_types < 10);
    }
    if is_live(next, items[at].id, items[at].types) {
        let j = choose|j: int|
            0 <= j < next.len() && (#[trigger] next[j]).id == items[at].id && next[j].types
                == items[at].types && next[j].item_types < 10;
        if j != at {
            assert(next[j] == items[j]);
            if j < at {
                assert(items[j].id != items[at].id);
            } else {
                assert(items[at].id != items[j].id);
            }
        }
    }
    if items[at].item_types < 10 {
        assert(items[at].id == items[at].id);
    }
    if is_live(items, items[at].id, items[at].types) {
        let j = choose|j: int|
            0 <= j < items.len() && (#[trigger] items[j]).id == items[at].id && items[j].types
                == items[at].types && items[j].item_types < 10;
        if j < at {
            assert(items[j].id != items[at].id);
        } else if j > at {
            assert(items[at].id != items[j].id);
        }
    }
}

/// Publishing a hidden item and adding one to the counter of each of its
/// targets keeps every counter equal to the number of published items
/// linked to its row.
pub proof fn law_publish_conserves<R: Counted, L: Linking>(
    items: Seq<Item>,
    rows: Seq<R>,
    links: Seq<L>,
    at: int,
    code: i16,
)
    requires
        0 <= at < items.len(),
        items_sound(items),
        counts_match(items, rows, links),
        links_sound(items, links),
        items[at].item_types >= 10,
        code < 10,
        has_room(rows, targets_of(links, items[at].id, items[at].types), 1),
    ensures
        counts_match(
            turned(items, at, code),
            adjusted(rows, targets_of(links, items[at].id, items[at].types), 1),
            links,
        ),
        links_sound(turned(items, at, code), links),
{
    let next = turned(items, at, code);
    let item = items[at].id;
    let kind = items[at].types;
    let hit = targets_of(links, item, kind);
    lemma_turn_is_local(items, at, code);
    assert forall|i: int| 0 <= i < rows.len() implies (#[trigger] adjusted(rows, hit, 1)[i]).tally()
        == live_count(next, links, adjusted(rows, hit, 1)[i].key()) by {
        lemma_adjusted(rows, hit, 1, i);
        let t = rows[i].key();
        lemma_live_count_turned(items, next, links, item, kind, t);
        lemma_targets_lead(links, item, kind, t);
    }
    assert forall|i: int| 0 <= i < links.len() implies is_stored(
        next,
        (#[trigger] links[i]).item(),
        links[i].kind(),
    ) by {
        assert(is_stored(items, links[i].item(), links[i].kind()));
    }
}

/// Hiding a published item and taking one from the counter of each of its
/// targets keeps every counter equal to the number of published items
/// linked to its row.
pub proof fn law_hide_conserves<R: Counted, L: Linking>(
    items: Seq<Item>,
    rows: Seq<R>,
    links: Seq<L>,
    at: int,
    code: i16,
)
    requires
        0 <= at < items.len(),
        items_sound(items),
        counts_match(items, rows, links),
        links_sound(items, links),
        items[at].item_types < 10,
        code >= 10,
        has_room(rows, targets_of(links, items[at].id, items[at].types), -1),
    ensures
        counts_match(
            turned(items, at, code),
            adjusted(rows, targets_of(links, items[at].id, items[at].types), -1),
            links,
        ),
        links_sound(turned(items, at, code), links),
{
    let next = turned(items, at, code);
    let item = items[at].id;
    let kind = items[at].types;
    let hit = targets_of(links, item, kind);
    lemma_turn_is_local(items, at, code);
    assert forall|i: int| 0 <= i < rows.len() implies (#[trigger] adjusted(rows, hit, -1)[i]).tally()
        == live_count(next, links, adjusted(rows, hit, -1)[i].key()) by {
        lemma_adjusted(rows, hit, -1, i);
        let t = rows[i].key();
        lemma_live_count_turned(next, items, links, item, kind, t);
        lemma_targets_lead(links, item, kind, t);
    }
    assert forall|i: int| 0 <= i < links.len() implies is_stored(
        next,
        (#[trigger] links[i]).item(),
        links[i].kind(),
    ) by {
        assert(is_stored(items, links[i].item(), links[i].kind()));
    }
}

/// Tests whether a published item with the id and the kind is stored.
pub fn test_live(items: &Vec<Item>, item: i32, kind: i16) -> (live: bool)
    ensures
        live == is_live(items@, item, kind),
{
    let mut j: usize = 0;
    while j < items.len()
        invariant
            j <= items.len(),
            forall|k: int|
                0 <= k < j ==> !((#[trigger] items@[k]).id == item && items@[k].types == kind
                    && items@[k].item_types < 10),
        decreases items.len() - j,
    {
        if items[j].id == item && items[j].types == kind && items[j].item_types < 10 {
            return true;
        }
        j += 1;
    }
    false
}

/// Tests whether an item with the id and the kind is stored.
pub fn test_stored(items: &Vec<Item>, item: i32, kind: i16) -> (stored: bool)
    ensures
        stored == is_stored(items@, item, kind),
{
    let mut j: usize = 0;
    while j < items.len()
        invariant
            j <= items.len(),
            forall|k: int|
                0 <= k < j ==> !((#[trigger] items@[k]).id == item && items@[k].types == kind),
        decreases items.len() - j,
    {
        if items[j].id == item && items[j].types == kind {
            return true;
        }
        j += 1;
    }
    false
}

/// Counts the links that lead a published item to a target.
pub fn count_live<L: Linking>(items: &Vec<Item>, links: &Vec<L>, target: i32) -> (n: usize)
    ensures
        n == live_count(items@, links@, target),
{
    let mut n: usize = 0;
    let mut i: usize = 0;
    assert(links@.take(0) =~= Seq::<L>::empty());
    while i < links.len()
        invariant
            i <= links.len(),
            n == live_count(items@, links@.take(i as int), target),
            n <= i,
        decreases links.len() - i,
    {
        proof {
            assert(links@.take(i + 1).drop_last() =~= links@.take(i as int));
            assert(links@.take(i + 1).last() == links@[i as int]);
        }
        if links[i].target_of() == target && test_live(items, links[i].item_of(), links[i].kind_of()) {
            n += 1;
        }
        i += 1;
    }
    assert(links@.take(links.len() as int) =~= links@);
    n
}

/// Tests whether every counter equals the number of published items linked
/// to its row.
pub fn counts_hold<R: Counted, L: Linking>(items: &Vec<Item>, rows: &Vec<R>, links: &Vec<L>) -> (ok:
    bool)
    ensures
        ok == counts_match(items@, rows@, links@),
{
    let mut i: usize = 0;
    while i < rows.len()
        invariant
            i <= rows.len(),
            forall|k: int|
                0 <= k < i ==> (#[trigger] rows@[k]).tally() == live_count(
                    items@,
                    links@,
                    rows@[k].key(),
                ),
        decreases rows.len() - i,
    {
        let live: usize = count_live(items, links, rows[i].id_of());
        let tally: i16 = rows[i].tally_of();
        if tally < 0 || tally as usize != live {
            assert(rows@[i as int].tally() != live_count(items@, links@, rows@[i as int].key()));
            return false;
        }
        i += 1;
    }
    true
}

/// Tests whether no item is linked twice to one target and every link
/// belongs to a stored item.
pub fn links_hold<L: Linking>(items: &Vec<Item>, links: &Vec<L>) -> (ok: bool)
    ensures
        ok == links_sound(items@, links@),
{
    let mut j: usize = 0;
    while j < links.len()
        invariant
            j <= links.len(),
            forall|a: int, b: int|
                0 <= a < b < j ==> !same_link(#[trigger] links@[a], #[trigger] links@[b]),
            forall|a: int|
                0 <= a < j ==> is_stored(items@, (#[trigger] links@[a]).item(), links@[a].kind()),
        decreases links.len() - j,
    {
        if !test_stored(items, links[j].item_of(), links[j].kind_of()) {
            return false;
        }
        let mut i: usize = 0;
        while i < j
            invariant
                i <= j < links.len(),
                forall|a: int| 0 <= a < i ==> !same_link(#[trigger] links@[a], links@[j as int]),
            decreases j - i,
        {
            if links[i].target_of() == links[j].target_of() && links[i].item_of()
                == links[j].item_of() && links[i].kind_of() == links[j].kind_of() {
                assert(same_link(links@[i as int], links@[j as int]));
                return false;
            }
            i += 1;
        }
        j += 1;
    }
    true
}

/// Tests whether no two items share an id.
pub fn items_hold(items: &Vec<Item>) -> (ok: bool)
    ensures
        ok == items_sound(items@),
{
    let mut j: usize = 0;
    while j < items.len()
        invariant
            j <= items.len(),
            forall|a: int, b: int|
                0 <= a < b < j ==> (#[trigger] items@[a]).id != (#[trigger] items@[b]).id,
        decreases items.len() - j,
    {
        let mut i: usize = 0;
        while i < j
            invariant
                i <= j < items.len(),
                forall|a: int| 0 <= a < i ==> (#[trigger] items@[a]).id != items@[j as int].id,
            decreases j - i,
        {
            if items[i].id == items[j].id {
                return false;
            }
            i += 1;
        }
        j += 1;
    }
    true
}

} // verus!
