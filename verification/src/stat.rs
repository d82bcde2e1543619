//! Visit statistics: recording visits, first and repeated.

use vstd::prelude::*;
use crate::catalog::{
    Catalog, Keyed, find_row, fresh_id, is_first_with, has_none_with, max_key,
    lemma_first_is_unique, Table, copy_rows, lemma_max_key_bounds, locate, place_of, same_beside,
};
use crate::errors::{Error, Missing, Denial, Clash};
use crate::items::{token_ok, token_text, stamp, CLOCK_SHIFT};
use crate::models::{Categories, Item, Tag, CookieUser, CookieStat, StatPage};
use crate::requests::{is_desctop, desktop_agent};

verus! {

/// A row that accumulates how long visitors stayed.
pub trait Watched: Keyed {
    /// The seconds accumulated so far.
    spec fn stay(&self) -> i32;

    /// The row with the seconds set to `s` and nothing else changed.
    spec fn with_stay(self, s: i32) -> Self;

    fn stay_of(&self) -> (s: i32)
        ensures
            s == self.stay(),
    ;

    fn set_stay(&mut self, s: i32)
        ensures
            *final(self) == old(self).with_stay(s),
    ;
}

impl Watched for Categories {
    open spec fn stay(&self) -> i32 {
        self.seconds
    }

    open spec fn with_stay(self, s: i32) -> Self {
        Categories { seconds: s, ..self }
    }

    fn stay_of(&self) -> (s: i32) {
        self.seconds
    }

    fn set_stay(&mut self, s: i32) {
        self.seconds = s;
    }
}

impl Watched for Item {
    open spec fn stay(&self) -> i32 {
        self.seconds
    }

    open spec fn with_stay(self, s: i32) -> Self {
        Item { seconds: s, ..self }
    }

    fn stay_of(&self) -> (s: i32) {
        self.seconds
    }

    fn set_stay(&mut self, s: i32) {
        self.seconds = s;
    }
}

impl Watched for Tag {
    open spec fn stay(&self) -> i32 {
        self.seconds
    }

    open spec fn with_stay(self, s: i32) -> Self {
        Tag { seconds: s, ..self }
    }

    fn stay_of(&self) -> (s: i32) {
        self.seconds
    }

    fn set_stay(&mut self, s: i32) {
        self.seconds = s;
    }
}

impl Watched for CookieUser {
    open spec fn stay(&self) -> i32 {
        self.seconds
    }

    open spec fn with_stay(self, s: i32) -> Self {
        CookieUser { seconds: s, ..self }
    }

    fn stay_of(&self) -> (s: i32) {
        self.seconds
    }

    fn set_stay(&mut self, s: i32) {
        self.seconds = s;
    }
}

/// The sum fits the column.
pub open spec fn fits_i32(n: int) -> bool {
    i32::MIN <= n <= i32::MAX
}

/// The table after a repeated visit of `seconds` to the row `id`: the first
/// row with the id has stayed that much longer. A first visit changes
/// nothing, and neither does a visit to a row that is not stored.
pub open spec fn stayed<R: Watched>(rows: Seq<R>, id: i32, seconds: i32, repeat: bool) -> Seq<R> {
    if repeat && exists|at: int| is_first_with(rows, id, at) {
        let at = choose|at: int| is_first_with(rows, id, at);
        rows.update(at, rows[at].with_stay((rows[at].stay() + seconds) as i32))
    } else {
        rows
    }
}

/// The repeated visit can be added without leaving the column.
pub open spec fn can_stay<R: Watched>(rows: Seq<R>, id: i32, seconds: i32, repeat: bool) -> bool {
    repeat ==> forall|at: int|
        is_first_with(rows, id, at) ==> fits_i32(#[trigger] rows[at].stay() + seconds)
}

/// Accumulates the seconds of a visit onto the row `id`, where the visit is
/// a repeated one.
pub fn add_stay<R: Watched>(rows: &mut Vec<R>, id: i32, seconds: i32, repeat: bool) -> (result:
    Result<(), Error>)
    ensures
        can_stay(old(rows)@, id, seconds, repeat) ==> result is Ok && final(rows)@ == stayed(
            old(rows)@,
            id,
            seconds,
            repeat,
        ),
        !can_stay(old(rows)@, id, seconds, repeat) ==> result == Err::<(), Error>(
            Error::Conflict(Clash::OutOfRange),
        ) && final(rows)@ == old(rows)@,
{
    if !repeat {
        return Ok(());
    }
    match find_row(rows, id) {
        Some(at) => {
            assert(is_first_with(rows@, id, at as int));
            proof {
                let chosen = choose|k: int| is_first_with(rows@, id, k);
                lemma_first_is_unique(rows@, id, at as int, chosen);
            }
            let sum: i64 = rows[at].stay_of() as i64 + seconds as i64;
            if sum < -0x8000_0000 || sum > 0x7fff_ffff {
                return Err(Error::Conflict(Clash::OutOfRange));
            }
            rows[at].set_stay(sum as i32);
            assert(rows@ =~= stayed(old(rows)@, id, seconds, repeat));
            Ok(())
        },
        None => {
            assert forall|k: int| !is_first_with(rows@, id, k) by {
                if 0 <= k < rows@.len() {
                    assert(rows@[k].key() != id);
                }
            }
            Ok(())
        },
    }
}

/// A row that counts how often it was looked at.
pub trait Viewed: Watched {
    /// The views counted so far.
    spec fn sight(&self) -> i32;

    /// The row with the views set to `v` and nothing else changed.
    spec fn with_sight(self, v: i32) -> Self;

    proof fn lemma_seen(self, s: i32, v: i32)
        ensures
            self.with_stay(s).key() == self.key(),
            self.with_stay(s).stay() == s,
            self.with_stay(s).sight() == self.sight(),
            self.with_stay(s).with_sight(v).key() == self.key(),
            self.with_stay(s).with_sight(v).stay() == s,
            self.with_stay(s).with_sight(v).sight() == v,
    ;

    fn sight_of(&self) -> (v: i32)
        ensures
            v == self.sight(),
    ;

    fn set_sight(&mut self, v: i32)
        ensures
            *final(self) == old(self).with_sight(v),
    ;
}

impl Viewed for Categories {
    open spec fn sight(&self) -> i32 {
        self.view
    }

    open spec fn with_sight(self, v: i32) -> Self {
        Categories { view: v, ..self }
    }

    proof fn lemma_seen(self, s: i32, v: i32) {
    }

    fn sight_of(&self) -> (v: i32) {
        self.view
    }

    fn set_sight(&mut self, v: i32) {
        self.view = v;
    }
}

impl Viewed for Item {
    open spec fn sight(&self) -> i32 {
        self.view
    }

    open spec fn with_sight(self, v: i32) -> Self {
        Item { view: v, ..self }
    }

    proof fn lemma_seen(self, s: i32, v: i32) {
    }

    fn sight_of(&self) -> (v: i32) {
        self.view
    }

    fn set_sight(&mut self, v: i32) {
        self.view = v;
    }
}

impl Viewed for Tag {
    open spec fn sight(&self) -> i32 {
        self.view
    }

    open spec fn with_sight(self, v: i32) -> Self {
        Tag { view: v, ..self }
    }

    proof fn lemma_seen(self, s: i32, v: i32) {
    }

    fn sight_of(&self) -> (v: i32) {
        self.view
    }

    fn set_sight(&mut self, v: i32) {
        self.view = v;
    }
}

/// A row after one more visit of `seconds`: it has stayed that much
/// longer, and a first visit has counted one view more. A repeated visit
/// counts no view again.
pub open spec fn seen_once_more<R: Viewed>(row: R, seconds: i32, repeat: bool) -> R {
    let longer = row.with_stay((row.stay() + seconds) as i32);
    if repeat {
        longer
    } else {
        longer.with_sight((row.sight() + 1) as i32)
    }
}

/// The table after a visit of `seconds` to the row `id`: the first row with
/// the id has been seen once more. A visit to a row that is not stored
/// changes nothing.
pub open spec fn visited<R: Viewed>(rows: Seq<R>, id: i32, seconds: i32, repeat: bool) -> Seq<R> {
    if has_none_with(rows, id) {
        rows
    } else {
        rows.update(
            place_of(rows, id),
            seen_once_more(rows[place_of(rows, id)], seconds, repeat),
        )
    }
}

/// The visit can be counted without leaving the columns.
pub open spec fn can_visit<R: Viewed>(rows: Seq<R>, id: i32, seconds: i32, repeat: bool) -> bool {
    has_none_with(rows, id) || (fits_i32(rows[place_of(rows, id)].stay() + seconds) && (repeat
        || rows[place_of(rows, id)].sight() < i32::MAX))
}

/// Tests whether a visit can be counted on the row `id`.
pub fn visit_fits<R: Viewed>(rows: &Vec<R>, id: i32, seconds: i32, repeat: bool) -> (ok: bool)
    ensures
        ok == can_visit(rows@, id, seconds, repeat),
{
    match locate(rows, id) {
        Some(at) => {
            let sum: i64 = rows[at].stay_of() as i64 + seconds as i64;
            -0x8000_0000 <= sum && sum <= 0x7fff_ffff && (repeat || rows[at].sight_of()
                < i32::MAX)
        },
        None => true,
    }
}

/// Counts a visit on the row `id`: adds its seconds and, for a first visit,
/// one view.
pub fn add_visit<R: Viewed>(rows: &mut Vec<R>, id: i32, seconds: i32, repeat: bool)
    requires
        can_visit(old(rows)@, id, seconds, repeat),
    ensures
        final(rows)@ == visited(old(rows)@, id, seconds, repeat),
{
    match locate(rows, id) {
        Some(at) => {
            let sum: i32 = rows[at].stay_of() + seconds;
            let views: i32 = rows[at].sight_of();
            rows[at].set_stay(sum);
            if !repeat {
                rows[at].set_sight(views + 1);
            }
            assert(rows@ =~= visited(old(rows)@, id, seconds, repeat));
        },
        None => {},
    }
}

/// A view is counted once. After the first visit to a stored row its views
/// are one more than before, so one on a row never visited, and it has
/// stayed the seconds of the visit longer. After a repeated visit the views
/// are as they were, and the seconds of that visit are added.
pub proof fn law_view_counted_once<R: Viewed>(rows: Seq<R>, id: i32, first: i32, second: i32)
    requires
        !has_none_with(rows, id),
        can_visit(rows, id, first, false),
        can_visit(visited(rows, id, first, false), id, second, true),
    ensures
        ({
            let at = place_of(rows, id);
            let once = visited(rows, id, first, false);
            let twice = visited(once, id, second, true);
            &&& place_of(once, id) == at
            &&& once[at].sight() == rows[at].sight() + 1
            &&& once[at].stay() == rows[at].stay() + first
            &&& twice[at].sight() == once[at].sight()
            &&& twice[at].stay() == once[at].stay() + second
            &&& forall|j: int| 0 <= j < rows.len() && j != at ==> twice[j] == rows[j]
        }),
{
    lemma_stays_first(rows, id, first, false);
    let at = place_of(rows, id);
    let once = visited(rows, id, first, false);
    rows[at].lemma_seen((rows[at].stay() + first) as i32, (rows[at].sight() + 1) as i32);
    once[at].lemma_seen((once[at].stay() + second) as i32, 0);
}

/// The row that a visit changes stays the first row with its id.
proof fn lemma_stays_first<R: Viewed>(rows: Seq<R>, id: i32, seconds: i32, repeat: bool)
    requires
        !has_none_with(rows, id),
    ensures
        !has_none_with(visited(rows, id, seconds, repeat), id),
        place_of(visited(rows, id, seconds, repeat), id) == place_of(rows, id),
        0 <= place_of(rows, id) < rows.len(),
        rows[place_of(rows, id)].key() == id,
{
    let k = choose|k: int| 0 <= k < rows.len() && (#[trigger] rows[k]).key() == id;
    lemma_has_first(rows, id, k);
    let at = place_of(rows, id);
    assert(is_first_with(rows, id, at));
    let next = visited(rows, id, seconds, repeat);
    rows[at].lemma_seen((rows[at].stay() + seconds) as i32, (rows[at].sight() + 1) as i32);
    assert(next[at].key() == id);
    assert(is_first_with(next, id, at)) by {
        assert forall|j: int| 0 <= j < at implies (#[trigger] next[j]).key() != id by {
            assert(next[j] == rows[j]);
            assert(rows[j].key() != id);
        }
    }
    lemma_first_is_unique(next, id, at, place_of(next, id));
}

/// Where some row has the id, some row is the first with it.
proof fn lemma_has_first<R: Keyed>(rows: Seq<R>, id: i32, k: int)
    requires
        0 <= k < rows.len(),
        rows[k].key() == id,
    ensures
        exists|at: int| is_first_with(rows, id, at),
    decreases k,
{
    if forall|j: int| 0 <= j < k ==> (#[trigger] rows[j]).key() != id {
        assert(is_first_with(rows, id, k));
    } else {
        let j = choose|j: int| 0 <= j < k && (#[trigger] rows[j]).key() == id;
        lemma_has_first(rows, id, j);
    }
}

/// Row `at` is the first statistics row of the page `types`.
pub open spec fn is_page_stat(rows: Seq<StatPage>, types: i16, at: int) -> bool {
    &&& 0 <= at < rows.len()
    &&& rows[at].types == types
    &&& forall|j: int| 0 <= j < at ==> (#[trigger] rows[j]).types != types
}

/// The page `types` has no statistics row.
pub open spec fn no_page_stat(rows: Seq<StatPage>, types: i16) -> bool {
    forall|j: int| 0 <= j < rows.len() ==> (#[trigger] rows[j]).types != types
}

/// The place of the statistics row of a page. It means something only
/// where the page has a row.
pub open spec fn stat_place(rows: Seq<StatPage>, types: i16) -> int {
    choose|at: int| is_page_stat(rows, types, at)
}

/// Finds the statistics row of a page.
pub fn find_page_stat(rows: &Vec<StatPage>, types: i16) -> (found: Option<usize>)
    ensures
        match found {
            Some(at) => is_page_stat(rows@, types, at as int) && stat_place(rows@, types) == at
                && !no_page_stat(rows@, types),
            None => no_page_stat(rows@, types),
        },
{
    let mut i: usize = 0;
    while i < rows.len()
        invariant
            i <= rows.len(),
            forall|j: int| 0 <= j < i ==> (#[trigger] rows@[j]).types != types,
        decreases rows.len() - i,
    {
        if rows[i].types == types {
            proof {
                assert(is_page_stat(rows@, types, i as int));
                let k = stat_place(rows@, types);
                assert(is_page_stat(rows@, types, k));
                if k < i {
                    assert(rows@[k].types != types);
                } else if i < k {
                    assert(rows@[i as int].types != types);
                }
            }
            return Some(i);
        }
        i += 1;
    }
    None
}

/// A page's row after one more visit: the seconds are added, and a first
/// visit counts one view more.
pub open spec fn page_seen_once_more(row: StatPage, seconds: i32, repeat: bool) -> StatPage {
    StatPage {
        seconds: (row.seconds + seconds) as i32,
        view: if repeat {
            row.view
        } else {
            (row.view + 1) as i32
        },
        ..row
    }
}

/// What a visit does to the statistics of a page that is no category, item
/// or tag.
///
/// A visit to a page without a row stores one, with one view and the
/// seconds of the visit. A visit to a page with a row adds its seconds; the
/// first visit of a visitor also counts one view more, a repeated visit
/// counts none again.
pub open spec fn page_visited(
    pre: Seq<StatPage>,
    post: Seq<StatPage>,
    types: i16,
    seconds: i32,
    repeat: bool,
) -> bool {
    if no_page_stat(pre, types) {
        post == pre.push(StatPage { id: (max_key(pre) + 1) as i32, types, view: 1, seconds })
    } else {
        post == pre.update(
            stat_place(pre, types),
            page_seen_once_more(pre[stat_place(pre, types)], seconds, repeat),
        )
    }
}

/// Why the visit cannot be counted on the page, if it cannot.
pub open spec fn page_visit_error(
    pre: Seq<StatPage>,
    types: i16,
    seconds: i32,
    repeat: bool,
) -> Option<Error> {
    if no_page_stat(pre, types) {
        if max_key(pre) == i32::MAX {
            Some(Error::Conflict(Clash::KeysExhausted))
        } else {
            None
        }
    } else if !fits_i32(pre[stat_place(pre, types)].seconds + seconds) || (!repeat
        && pre[stat_place(pre, types)].view == i32::MAX) {
        Some(Error::Conflict(Clash::OutOfRange))
    } else {
        None
    }
}

/// Tests whether a visit can be counted on a page.
pub fn check_page_visit(rows: &Vec<StatPage>, types: i16, seconds: i32, repeat: bool) -> (error:
    Option<Error>)
    ensures
        error == page_visit_error(rows@, types, seconds, repeat),
{
    match find_page_stat(rows, types) {
        Some(at) => {
            let sum: i64 = rows[at].seconds as i64 + seconds as i64;
            if sum < -0x8000_0000 || sum > 0x7fff_ffff || (!repeat && rows[at].view == i32::MAX) {
                Some(Error::Conflict(Clash::OutOfRange))
            } else {
                None
            }
        },
        None => {
            match fresh_id(rows) {
                Some(_) => None,
                None => Some(Error::Conflict(Clash::KeysExhausted)),
            }
        },
    }
}

/// Counts a visit on the statistics of a page that is no category, item or
/// tag. `is_update_needed` says that the visit is a repeated one.
pub fn plus_page_stat(catalog: &mut Catalog, types: i16, seconds: i32, is_update_needed: bool) -> (result:
    Result<(), Error>)
    ensures
        match page_visit_error(old(catalog).stat_pages@, types, seconds, is_update_needed) {
            Some(e) => result == Err::<(), Error>(e) && *final(catalog) == *old(catalog),
            None => result is Ok && page_visited(
                old(catalog).stat_pages@,
                final(catalog).stat_pages@,
                types,
                seconds,
                is_update_needed,
            ) && same_beside_stat_pages(*old(catalog), *final(catalog)),
        },
{
    match check_page_visit(&catalog.stat_pages, types, seconds, is_update_needed) {
        Some(e) => {
            return Err(e);
        },
        None => {},
    }
    match find_page_stat(&catalog.stat_pages, types) {
        Some(at) => {
            catalog.stat_pages[at].seconds = catalog.stat_pages[at].seconds + seconds;
            if !is_update_needed {
                catalog.stat_pages[at].view = catalog.stat_pages[at].view + 1;
            }
            assert(catalog.stat_pages@ =~= old(catalog).stat_pages@.update(
                at as int,
                page_seen_once_more(old(catalog).stat_pages@[at as int], seconds, is_update_needed),
            ));
        },
        None => {
            let id: i32 = match fresh_id(&catalog.stat_pages) {
                Some(id) => id,
                None => 0,
            };
            catalog.stat_pages.push(StatPage { id, types, view: 1, seconds });
        },
    }
    Ok(())
}

/// All tables but the page statistics are the same in both.
pub open spec fn same_beside_stat_pages(pre: Catalog, post: Catalog) -> bool {
    &&& post.items == pre.items
    &&& post.categories == pre.categories
    &&& post.category == pre.category
    &&& post.tags == pre.tags
    &&& post.tags_items == pre.tags_items
    &&& post.serve == pre.serve
    &&& post.serve_categories == pre.serve_categories
    &&& post.tech_categories == pre.tech_categories
    &&& post.serve_items == pre.serve_items
    &&& post.tech_categories_items == pre.tech_categories_items
    &&& post.files == pre.files
    &&& post.item_contents == pre.item_contents
    &&& post.users == pre.users
    &&& post.cookie_users == pre.cookie_users
    &&& post.cookie_stats == pre.cookie_stats
    &&& post.feedbacks == pre.feedbacks
    &&& post.orders == pre.orders
    &&& post.order_files == pre.order_files
}

/// Counts a visit on a category: adds its seconds and, for a first visit, one
/// view. `is_update_needed` says that the visit is a repeated one.
pub fn plus_category_stat(catalog: &mut Catalog, id: i32, seconds: i32, is_update_needed: bool) -> (result:
    Result<(), Error>)
    ensures
        if can_visit(old(catalog).categories@, id, seconds, is_update_needed) {
            &&& result is Ok
            &&& final(catalog).categories@ == visited(
                old(catalog).categories@,
                id,
                seconds,
                is_update_needed,
            )
            &&& same_beside(*old(catalog), *final(catalog), set![Table::Categories])
        } else {
            result == Err::<(), Error>(Error::Conflict(Clash::OutOfRange)) && *final(catalog)
                == *old(catalog)
        },
{
    if !visit_fits(&catalog.categories, id, seconds, is_update_needed) {
        return Err(Error::Conflict(Clash::OutOfRange));
    }
    add_visit(&mut catalog.categories, id, seconds, is_update_needed);
    Ok(())
}

/// Counts a visit on an item: adds its seconds and, for a first visit, one
/// view. `is_update_needed` says that the visit is a repeated one.
pub fn plus_item_stat(catalog: &mut Catalog, id: i32, seconds: i32, is_update_needed: bool) -> (result:
    Result<(), Error>)
    ensures
        if can_visit(old(catalog).items@, id, seconds, is_update_needed) {
            &&& result is Ok
            &&& final(catalog).items@ == visited(
                old(catalog).items@,
                id,
                seconds,
                is_update_needed,
            )
            &&& same_beside(*old(catalog), *final(catalog), set![Table::Items])
        } else {
            result == Err::<(), Error>(Error::Conflict(Clash::OutOfRange)) && *final(catalog)
                == *old(catalog)
        },
{
    if !visit_fits(&catalog.items, id, seconds, is_update_needed) {
        return Err(Error::Conflict(Clash::OutOfRange));
    }
    add_visit(&mut catalog.items, id, seconds, is_update_needed);
    Ok(())
}

/// Counts a visit on a tag: adds its seconds and, for a first visit, one
/// view. `is_update_needed` says that the visit is a repeated one.
pub fn plus_tag_stat(catalog: &mut Catalog, id: i32, seconds: i32, is_update_needed: bool) -> (result:
    Result<(), Error>)
    ensures
        if can_visit(old(catalog).tags@, id, seconds, is_update_needed) {
            &&& result is Ok
            &&& final(catalog).tags@ == visited(
                old(catalog).tags@,
                id,
                seconds,
                is_update_needed,
            )
            &&& same_beside(*old(catalog), *final(catalog), set![Table::Tags])
        } else {
            result == Err::<(), Error>(Error::Conflict(Clash::OutOfRange)) && *final(catalog)
                == *old(catalog)
        },
{
    if !visit_fits(&catalog.tags, id, seconds, is_update_needed) {
        return Err(Error::Conflict(Clash::OutOfRange));
    }
    add_visit(&mut catalog.tags, id, seconds, is_update_needed);
    Ok(())
}

/// What a visit report says, as far as it is made of whole numbers and
/// text: who visited (`user_id`, zero for a newcomer), what (`object_id`
/// on page `page_id`, or the page itself where `object_id` is zero), under
/// which link, and for how long.
pub struct HistoryData {
    pub token: String,
    pub user_id: i32,
    pub object_id: i32,
    pub page_id: i16,
    pub link: String,
    pub title: String,
    pub seconds: i32,
    pub template: String,
}

/// Where a visitor is, by name in two languages.
pub struct Location {
    pub city_ru: String,
    pub city_en: String,
    pub region_ru: String,
    pub region_en: String,
    pub country_ru: String,
    pub country_en: String,
}

/// A visitor that is about to be stored.
pub struct NewCookieUser {
    pub ip: String,
    pub device: i16,
    pub city_ru: Option<String>,
    pub city_en: Option<String>,
    pub region_ru: Option<String>,
    pub region_en: Option<String>,
    pub country_ru: Option<String>,
    pub country_en: Option<String>,
    pub seconds: i32,
    pub created: i64,
}

/// The device number of a user agent: two for a mobile browser, one for
/// every other and for a request without user agent.
pub open spec fn device_of(user_agent: Option<&str>) -> i16 {
    match user_agent {
        Some(agent) => if desktop_agent(agent@) {
            1
        } else {
            2
        },
        None => 1,
    }
}

/// Describes a newcomer: the address and device of the request, the place
/// that the address was resolved to, and the time.
pub fn create_c_user(ip: String, user_agent: Option<&str>, location: Location, now: i64) -> (user:
    NewCookieUser)
    requires
        now <= i64::MAX - 10_800_000_000,
    ensures
        user.ip == ip,
        user.device == device_of(user_agent),
        user.city_ru == Some(location.city_ru),
        user.city_en == Some(location.city_en),
        user.region_ru == Some(location.region_ru),
        user.region_en == Some(location.region_en),
        user.country_ru == Some(location.country_ru),
        user.country_en == Some(location.country_en),
        user.seconds == 0,
        user.created == stamp(now),
{
    let device: i16 = match user_agent {
        Some(agent) => if is_desctop(agent) {
            1
        } else {
            2
        },
        None => 1,
    };
    NewCookieUser {
        ip,
        device,
        city_ru: Some(location.city_ru),
        city_en: Some(location.city_en),
        region_ru: Some(location.region_ru),
        region_en: Some(location.region_en),
        country_ru: Some(location.country_ru),
        country_en: Some(location.country_en),
        seconds: 0,
        created: now + CLOCK_SHIFT,
    }
}

/// The stored visitor that a newcomer becomes under the id `id`.
pub open spec fn arrived(id: i32, user: NewCookieUser) -> CookieUser {
    CookieUser {
        id,
        ip: user.ip,
        device: user.device,
        city_ru: user.city_ru,
        city_en: user.city_en,
        region_ru: user.region_ru,
        region_en: user.region_en,
        country_ru: user.country_ru,
        country_en: user.country_en,
        seconds: user.seconds,
        created: user.created,
    }
}

/// What a visit is counted on.
#[derive(Clone, Copy, Debug, PartialEq, Eq, Structural)]
pub enum Subject {
    Page(i16),
    Category(i32),
    Item(i32),
    Tag(i32),
    Nothing,
}

/// What a visit to `object_id` on page `page_id` is counted on: the page
/// itself where there is no object; else the category, item or tag that the
/// page number stands for, and nothing for any other page number.
pub open spec fn subject_of(object_id: i32, page_id: i16) -> Subject {
    if object_id > 0 {
        if page_id == 42 || page_id == 62 || page_id == 72 || page_id == 82 || page_id == 92
            || page_id == 102 {
            Subject::Category(object_id)
        } else if page_id == 43 || page_id == 63 || page_id == 73 || page_id == 83 || page_id == 93
            || page_id == 103 {
            Subject::Item(object_id)
        } else if page_id == 32 {
            Subject::Tag(object_id)
        } else {
            Subject::Nothing
        }
    } else {
        Subject::Page(page_id)
    }
}

/// Decides what a visit is counted on.
pub fn visit_subject(object_id: i32, page_id: i16) -> (subject: Subject)
    ensures
        subject == subject_of(object_id, page_id),
{
    if object_id > 0 {
        if page_id == 42 || page_id == 62 || page_id == 72 || page_id == 82 || page_id == 92
            || page_id == 102 {
            Subject::Category(object_id)
        } else if page_id == 43 || page_id == 63 || page_id == 73 || page_id == 83 || page_id == 93
            || page_id == 103 {
            Subject::Item(object_id)
        } else if page_id == 32 {
            Subject::Tag(object_id)
        } else {
            Subject::Nothing
        }
    } else {
        Subject::Page(page_id)
    }
}

/// Row `at` is the first record of a visit of `visitor` to `link`.
pub open spec fn is_first_visit_row(
    rows: Seq<CookieStat>,
    visitor: i32,
    link: Seq<char>,
    at: int,
) -> bool {
    &&& 0 <= at < rows.len()
    &&& rows[at].user_id == visitor
    &&& rows[at].link@ == link
    &&& forall|j: int|
        0 <= j < at ==> !((#[trigger] rows[j]).user_id == visitor && rows[j].link@ == link)
}

/// The visitor has not been to the link before.
pub open spec fn never_seen(rows: Seq<CookieStat>, visitor: i32, link: Seq<char>) -> bool {
    forall|j: int|
        0 <= j < rows.len() ==> !((#[trigger] rows[j]).user_id == visitor && rows[j].link@ == link)
}

/// Finds the first record of a visit of `visitor` to `link`.
pub fn find_visit(rows: &Vec<CookieStat>, visitor: i32, link: &String) -> (found: Option<usize>)
    ensures
        match found {
            Some(at) => is_first_visit_row(rows@, visitor, link@, at as int),
            None => never_seen(rows@, visitor, link@),
        },
{
    let mut i: usize = 0;
    while i < rows.len()
        invariant
            i <= rows.len(),
            forall|j: int|
                0 <= j < i ==> !((#[trigger] rows@[j]).user_id == visitor && rows@[j].link@
                    == link@),
        decreases rows.len() - i,
    {
        if rows[i].user_id == visitor && rows[i].link == *link {
            return Some(i);
        }
        i += 1;
    }
    None
}

/// The visitor of the report is stored.
pub open spec fn is_known(c: Catalog, data: HistoryData) -> bool {
    data.user_id > 0 && !has_none_with(c.cookie_users@, data.user_id)
}

/// The id under which the visit is recorded: that of the report where its
/// visitor is stored, else the id that a newcomer gets.
pub open spec fn visitor_of(c: Catalog, data: HistoryData) -> i32 {
    if is_known(c, data) {
        data.user_id
    } else {
        (max_key(c.cookie_users@) + 1) as i32
    }
}

/// The visitors once the visitor of the report has arrived.
pub open spec fn visitors_with(
    c: Catalog,
    data: HistoryData,
    newcomer: Option<&NewCookieUser>,
) -> Seq<
    CookieUser,
> {
    if is_known(c, data) || newcomer is None {
        c.cookie_users@
    } else {
        c.cookie_users@.push(arrived(visitor_of(c, data), *newcomer->0))
    }
}

/// The visit is a repeated one: the visitor has been to the link before.
pub open spec fn is_repeat(c: Catalog, data: HistoryData) -> bool {
    !never_seen(c.cookie_stats@, visitor_of(c, data), data.link@)
}

/// The record of a first visit.
pub open spec fn visit_row(id: i32, visitor: i32, data: HistoryData, now: i64) -> CookieStat {
    CookieStat {
        id,
        user_id: visitor,
        page: data.page_id,
        link: data.link,
        title: data.title,
        seconds: data.seconds,
        created: stamp(now),
        template: data.template,
    }
}

/// Why a visit cannot be recorded, if it cannot.
pub open spec fn visit_error(
    c: Catalog,
    data: HistoryData,
    newcomer: Option<&NewCookieUser>,
) -> Option<
    Error,
> {
    let visitor = visitor_of(c, data);
    let repeat = is_repeat(c, data);
    let subject = subject_of(data.object_id, data.page_id);
    if data.token@ != token_text() {
        Some(Error::PermissionDenied(Denial::Forbidden))
    } else if !is_known(c, data) && newcomer is None {
        Some(Error::NotFound(Missing::Visitor))
    } else if !is_known(c, data) && max_key(c.cookie_users@) == i32::MAX {
        Some(Error::Conflict(Clash::KeysExhausted))
    } else if !repeat && max_key(c.cookie_stats@) == i32::MAX {
        Some(Error::Conflict(Clash::KeysExhausted))
    } else if !can_stay(visitors_with(c, data, newcomer), visitor, data.seconds, repeat) {
        Some(Error::Conflict(Clash::OutOfRange))
    } else {
        match subject {
            Subject::Page(types) => page_visit_error(c.stat_pages@, types, data.seconds, repeat),
            Subject::Category(id) => if can_visit(c.categories@, id, data.seconds, repeat) {
                None
            } else {
                Some(Error::Conflict(Clash::OutOfRange))
            },
            Subject::Item(id) => if can_visit(c.items@, id, data.seconds, repeat) {
                None
            } else {
                Some(Error::Conflict(Clash::OutOfRange))
            },
            Subject::Tag(id) => if can_visit(c.tags@, id, data.seconds, repeat) {
                None
            } else {
                Some(Error::Conflict(Clash::OutOfRange))
            },
            Subject::Nothing => None,
        }
    }
}

/// The tables that a visit never touches are the same in both.
pub open spec fn same_beside_visits(pre: Catalog, post: Catalog) -> bool {
    &&& post.category == pre.category
    &&& post.tags_items == pre.tags_items
    &&& post.serve == pre.serve
    &&& post.serve_categories == pre.serve_categories
    &&& post.tech_categories == pre.tech_categories
    &&& post.serve_items == pre.serve_items
    &&& post.tech_categories_items == pre.tech_categories_items
    &&& post.files == pre.files
    &&& post.item_contents == pre.item_contents
    &&& post.users == pre.users
    &&& post.feedbacks == pre.feedbacks
    &&& post.orders == pre.orders
    &&& post.order_files == pre.order_files
}

/// `post` is `pre` after the visit has been recorded.
///
/// A newcomer is stored. On a first visit of the visitor to the link the
/// visit gets its record and what was visited (page, category, item or tag)
/// counts one view more; a page without statistics gets its row with one
/// view. Every visit adds its seconds to what was visited. A repeated visit
/// also adds its seconds to the visitor, and counts no view again.
pub open spec fn visit_recorded(
    pre: Catalog,
    post: Catalog,
    data: HistoryData,
    newcomer: Option<&NewCookieUser>,
    now: i64,
) -> bool {
    let visitor = visitor_of(pre, data);
    let repeat = is_repeat(pre, data);
    let subject = subject_of(data.object_id, data.page_id);
    &&& post.cookie_users@ == stayed(
        visitors_with(pre, data, newcomer),
        visitor,
        data.seconds,
        repeat,
    )
    &&& post.cookie_stats@ == if repeat {
        pre.cookie_stats@
    } else {
        pre.cookie_stats@.push(
            visit_row((max_key(pre.cookie_stats@) + 1) as i32, visitor, data, now),
        )
    }
    &&& post.categories@ == if subject is Category {
        visited(pre.categories@, data.object_id, data.seconds, repeat)
    } else {
        pre.categories@
    }
    &&& post.items@ == if subject is Item {
        visited(pre.items@, data.object_id, data.seconds, repeat)
    } else {
        pre.items@
    }
    &&& post.tags@ == if subject is Tag {
        visited(pre.tags@, data.object_id, data.seconds, repeat)
    } else {
        pre.tags@
    }
    &&& match subject {
        Subject::Page(types) => page_visited(
            pre.stat_pages@,
            post.stat_pages@,
            types,
            data.seconds,
            repeat,
        ),
        _ => post.stat_pages@ == pre.stat_pages@,
    }
    &&& same_beside_visits(pre, post)
}

/// What recording a visit answers.
pub struct Visit {
    /// The record of the visitor's first visit to the link.
    pub stat: CookieStat,
    /// The id under which the visitor is stored.
    pub visitor_id: i32,
    /// Whether the visitor had been to the link before.
    pub repeat: bool,
    /// What the visit was counted on.
    pub subject: Subject,
}

impl Catalog {
    /// Records a visit: of the stored visitor that the report names, or of
    /// `newcomer` where it names none that is stored.
    ///
    /// The first visit of a visitor to a link gets a record and counts one
    /// view on what was visited (page, category, item or tag); a page
    /// without statistics gets a row with one view. Every visit adds its
    /// seconds to what was visited. A repeated visit also adds its seconds
    /// to the visitor and counts no view again. The answer says which of
    /// the two it was.
    pub fn create_history(
        &mut self,
        data: &HistoryData,
        newcomer: Option<&NewCookieUser>,
        now: i64,
    ) -> (result: Result<Visit, Error>)
        requires
            now <= i64::MAX - 10_800_000_000,
        ensures
            match visit_error(*old(self), *data, newcomer) {
                Some(e) => result == Err::<Visit, Error>(e) && *final(self) == *old(self),
                None => {
                    &&& visit_recorded(*old(self), *final(self), *data, newcomer, now)
                    &&& result matches Ok(visit) && {
                        &&& visit.visitor_id == visitor_of(*old(self), *data)
                        &&& visit.repeat == is_repeat(*old(self), *data)
                        &&& visit.subject == subject_of(data.object_id, data.page_id)
                        &&& if visit.repeat {
                            exists|at: int|
                                is_first_visit_row(
                                    old(self).cookie_stats@,
                                    visit.visitor_id,
                                    data.link@,
                                    at,
                                ) && visit.stat == old(self).cookie_stats@[at]
                        } else {
                            visit.stat == visit_row(
                                (max_key(old(self).cookie_stats@) + 1) as i32,
                                visit.visitor_id,
                                *data,
                                now,
                            )
                        }
                    }
                },
            },
    {
        if !token_ok(data.token.as_str()) {
            return Err(Error::PermissionDenied(Denial::Forbidden));
        }
        let known: Option<usize> = if data.user_id > 0 {
            find_row(&self.cookie_users, data.user_id)
        } else {
            None
        };
        let mut users: Vec<CookieUser> = copy_rows(&self.cookie_users);
        let visitor: i32 = match known {
            Some(_) => data.user_id,
            None => {
                let fresh: &NewCookieUser = match newcomer {
                    Some(fresh) => fresh,
                    None => {
                        return Err(Error::NotFound(Missing::Visitor));
                    },
                };
                let id: i32 = match fresh_id(&self.cookie_users) {
                    Some(id) => id,
                    None => {
                        return Err(Error::Conflict(Clash::KeysExhausted));
                    },
                };
                users.push(
                    CookieUser {
                        id,
                        ip: fresh.ip.clone(),
                        device: fresh.device,
                        city_ru: fresh.city_ru.clone(),
                        city_en: fresh.city_en.clone(),
                        region_ru: fresh.region_ru.clone(),
                        region_en: fresh.region_en.clone(),
                        country_ru: fresh.country_ru.clone(),
                        country_en: fresh.country_en.clone(),
                        seconds: fresh.seconds,
                        created: fresh.created,
                    },
                );
                id
            },
        };
        assert(visitor == visitor_of(*self, *data));
        assert(users@ == visitors_with(*self, *data, newcomer));
        let seen: Option<usize> = find_visit(&self.cookie_stats, visitor, &data.link);
        let repeat: bool = seen.is_some();
        assert(repeat == is_repeat(*self, *data)) by {
            if let Some(at) = seen {
                assert(self.cookie_stats@[at as int].user_id == visitor);
            }
        }
        let stat_id: i32 = if repeat {
            0
        } else {
            match fresh_id(&self.cookie_stats) {
                Some(id) => id,
                None => {
                    return Err(Error::Conflict(Clash::KeysExhausted));
                },
            }
        };
        match add_stay(&mut users, visitor, data.seconds, repeat) {
            Ok(_) => {},
            Err(e) => {
                return Err(e);
            },
        }
        let subject: Subject = visit_subject(data.object_id, data.page_id);
        match subject {
            Subject::Page(types) => {
                match check_page_visit(&self.stat_pages, types, data.seconds, repeat) {
                    Some(e) => {
                        return Err(e);
                    },
                    None => {},
                }
            },
            Subject::Category(id) => {
                if !visit_fits(&self.categories, id, data.seconds, repeat) {
                    return Err(Error::Conflict(Clash::OutOfRange));
                }
            },
            Subject::Item(id) => {
                if !visit_fits(&self.items, id, data.seconds, repeat) {
                    return Err(Error::Conflict(Clash::OutOfRange));
                }
            },
            Subject::Tag(id) => {
                if !visit_fits(&self.tags, id, data.seconds, repeat) {
                    return Err(Error::Conflict(Clash::OutOfRange));
                }
            },
            Subject::Nothing => {},
        }
        let stat: CookieStat = match seen {
            Some(at) => self.cookie_stats[at].clone(),
            None => CookieStat {
                id: stat_id,
                user_id: visitor,
                page: data.page_id,
                link: data.link.clone(),
                title: data.title.clone(),
                seconds: data.seconds,
                created: now + CLOCK_SHIFT,
                template: data.template.clone(),
            },
        };
        self.cookie_users = users;
        if !repeat {
            self.cookie_stats.push(stat.clone());
        }
        match subject {
            Subject::Page(types) => {
                let _ = plus_page_stat(self, types, data.seconds, repeat);
            },
            Subject::Category(id) => {
                add_visit(&mut self.categories, id, data.seconds, repeat);
            },
            Subject::Item(id) => {
                add_visit(&mut self.items, id, data.seconds, repeat);
            },
            Subject::Tag(id) => {
                add_visit(&mut self.tags, id, data.seconds, repeat);
            },
            Subject::Nothing => {},
        }
        Ok(Visit { stat, visitor_id: visitor, repeat, subject })
    }
}

/// A view of a page is counted once. The first visit of a visitor to a page
/// leaves the page with one view more, so with one view where it had no
/// row, and a second report of the same visitor for the same link leaves
/// the views as they are and adds its seconds.
pub proof fn law_page_view_counted_once(
    c0: Catalog,
    c1: Catalog,
    c2: Catalog,
    first: HistoryData,
    second: HistoryData,
    newcomer: Option<&NewCookieUser>,
    now1: i64,
    now2: i64,
)
    requires
        first.object_id <= 0,
        !is_repeat(c0, first),
        visit_error(c0, first, newcomer) is None,
        visit_recorded(c0, c1, first, newcomer, now1),
        second.user_id == visitor_of(c0, first),
        second.link@ == first.link@,
        second.object_id == first.object_id,
        second.page_id == first.page_id,
        visit_error(c1, second, None) is None,
        visit_recorded(c1, c2, second, None, now2),
    ensures
        is_repeat(c1, second),
        ({
            let types = first.page_id;
            let at = stat_place(c1.stat_pages@, types);
            &&& is_page_stat(c1.stat_pages@, types, at)
            &&& is_page_stat(c2.stat_pages@, types, at)
            &&& if no_page_stat(c0.stat_pages@, types) {
                c1.stat_pages@[at].view == 1 && c1.stat_pages@[at].seconds == first.seconds
            } else {
                let was = c0.stat_pages@[stat_place(c0.stat_pages@, types)];
                c1.stat_pages@[at].view == was.view + 1 && c1.stat_pages@[at].seconds
                    == was.seconds + first.seconds
            }
            &&& c2.stat_pages@[at].view == c1.stat_pages@[at].view
            &&& c2.stat_pages@[at].seconds == c1.stat_pages@[at].seconds + second.seconds
        }),
{
    lemma_second_is_repeat(c0, c1, first, second, newcomer, now1);
    let types = first.page_id;
    let pre = c0.stat_pages@;
    let place = if no_page_stat(pre, types) {
        pre.len() as int
    } else {
        stat_place(pre, types)
    };
    if !no_page_stat(pre, types) {
        let k = choose|k: int| 0 <= k < pre.len() && (#[trigger] pre[k]).types == types;
        lemma_has_page_stat(pre, types, k);
        assert(is_page_stat(pre, types, place));
    }
    assert(c1.stat_pages@[place].types == types);
    assert(is_page_stat(c1.stat_pages@, types, place)) by {
        assert forall|j: int| 0 <= j < place implies (#[trigger] c1.stat_pages@[j]).types
            != types by {
            assert(c1.stat_pages@[j] == pre[j]);
            if no_page_stat(pre, types) {
                assert(pre[j].types != types);
            } else {
                assert(pre[j].types != types);
            }
        }
    }
    lemma_page_stat_is_one(c1.stat_pages@, types, place, stat_place(c1.stat_pages@, types));
    assert(!no_page_stat(c1.stat_pages@, types));
    assert(is_page_stat(c2.stat_pages@, types, place)) by {
        assert forall|j: int| 0 <= j < place implies (#[trigger] c2.stat_pages@[j]).types
            != types by {
            assert(c2.stat_pages@[j] == c1.stat_pages@[j]);
            assert(c1.stat_pages@[j].types != types);
        }
    }
}

/// Where some row belongs to the page, some row is its first.
proof fn lemma_has_page_stat(rows: Seq<StatPage>, types: i16, k: int)
    requires
        0 <= k < rows.len(),
        rows[k].types == types,
    ensures
        is_page_stat(rows, types, stat_place(rows, types)),
    decreases k,
{
    if forall|j: int| 0 <= j < k ==> (#[trigger] rows[j]).types != types {
        assert(is_page_stat(rows, types, k));
    } else {
        let j = choose|j: int| 0 <= j < k && (#[trigger] rows[j]).types == types;
        lemma_has_page_stat(rows, types, j);
    }
}

/// The first row of a page is one row.
proof fn lemma_page_stat_is_one(rows: Seq<StatPage>, types: i16, a: int, b: int)
    requires
        is_page_stat(rows, types, a),
    ensures
        is_page_stat(rows, types, stat_place(rows, types)),
        b == stat_place(rows, types) ==> a == b,
{
    let k = stat_place(rows, types);
    assert(is_page_stat(rows, types, k));
    if k < a {
        assert(rows[k].types != types);
    } else if a < k {
        assert(rows[a].types != types);
    }
}

proof fn lemma_second_is_repeat(
    c0: Catalog,
    c1: Catalog,
    first: HistoryData,
    second: HistoryData,
    newcomer: Option<&NewCookieUser>,
    now1: i64,
)
    requires
        !is_repeat(c0, first),
        visit_error(c0, first, newcomer) is None,
        visit_recorded(c0, c1, first, newcomer, now1),
        second.user_id == visitor_of(c0, first),
        second.link@ == first.link@,
    ensures
        is_known(c1, second),
        visitor_of(c1, second) == visitor_of(c0, first),
        is_repeat(c1, second),
{
    let visitor = visitor_of(c0, first);
    lemma_max_key_bounds(c0.cookie_users@);
    let users = visitors_with(c0, first, newcomer);
    assert(c1.cookie_users@ == users);
    if is_known(c0, first) {
        let j = choose|j: int|
            0 <= j < c0.cookie_users@.len() && (#[trigger] c0.cookie_users@[j]).key()
                == first.user_id;
        assert(c1.cookie_users@[j].key() == visitor);
    } else {
        let j = c0.cookie_users@.len() as int;
        assert(users[j] == arrived(visitor, *newcomer->0));
        assert(c1.cookie_users@[j].key() == visitor);
    }
    let n = c0.cookie_stats@.len() as int;
    assert(c1.cookie_stats@[n].user_id == visitor && c1.cookie_stats@[n].link@ == second.link@);
}

/// A view of a category, an item or a tag is counted once. The first visit
/// of a visitor to a link counts one view on the stored row that was
/// visited and adds its seconds; a second report of the same visitor for
/// the same link is a repeated visit, which adds its seconds and counts no
/// view again. The table that holds what was visited goes through
/// `visited` twice, for which `law_view_counted_once` gives the numbers; the
/// other two tables stay as they are.
pub proof fn law_visit_counts_view_once(
    c0: Catalog,
    c1: Catalog,
    c2: Catalog,
    first: HistoryData,
    second: HistoryData,
    newcomer: Option<&NewCookieUser>,
    now1: i64,
    now2: i64,
)
    requires
        !is_repeat(c0, first),
        visit_error(c0, first, newcomer) is None,
        visit_recorded(c0, c1, first, newcomer, now1),
        second.user_id == visitor_of(c0, first),
        second.link@ == first.link@,
        second.object_id == first.object_id,
        second.page_id == first.page_id,
        visit_error(c1, second, None) is None,
        visit_recorded(c1, c2, second, None, now2),
    ensures
        is_repeat(c1, second),
        ({
            let id = first.object_id;
            let subject = subject_of(first.object_id, first.page_id);
            &&& subject is Category ==> c2.categories@ == visited(
                visited(c0.categories@, id, first.seconds, false),
                id,
                second.seconds,
                true,
            ) && c2.items@ == c0.items@ && c2.tags@ == c0.tags@
            &&& subject is Item ==> c2.items@ == visited(
                visited(c0.items@, id, first.seconds, false),
                id,
                second.seconds,
                true,
            ) && c2.categories@ == c0.categories@ && c2.tags@ == c0.tags@
            &&& subject is Tag ==> c2.tags@ == visited(
                visited(c0.tags@, id, first.seconds, false),
                id,
                second.seconds,
                true,
            ) && c2.categories@ == c0.categories@ && c2.items@ == c0.items@
            &&& subject is Item && !has_none_with(c0.items@, id) ==> {
                let at = place_of(c0.items@, id);
                &&& c1.items@[at].view == c0.items@[at].view + 1
                &&& c2.items@[at].view == c1.items@[at].view
                &&& c2.items@[at].seconds == c0.items@[at].seconds + first.seconds
                    + second.seconds
            }
            &&& subject is Category && !has_none_with(c0.categories@, id) ==> {
                let at = place_of(c0.categories@, id);
                &&& c1.categories@[at].view == c0.categories@[at].view + 1
                &&& c2.categories@[at].view == c1.categories@[at].view
                &&& c2.categories@[at].seconds == c0.categories@[at].seconds + first.seconds
                    + second.seconds
            }
            &&& subject is Tag && !has_none_with(c0.tags@, id) ==> {
                let at = place_of(c0.tags@, id);
                &&& c1.tags@[at].view == c0.tags@[at].view + 1
                &&& c2.tags@[at].view == c1.tags@[at].view
                &&& c2.tags@[at].seconds == c0.tags@[at].seconds + first.seconds + second.seconds
            }
        }),
{
    lemma_second_is_repeat(c0, c1, first, second, newcomer, now1);
    let id = first.object_id;
    let subject = subject_of(first.object_id, first.page_id);
    if subject is Item && !has_none_with(c0.items@, id) {
        law_view_counted_once(c0.items@, id, first.seconds, second.seconds);
    }
    if subject is Category && !has_none_with(c0.categories@, id) {
        law_view_counted_once(c0.categories@, id, first.seconds, second.seconds);
    }
    if subject is Tag && !has_none_with(c0.tags@, id) {
        law_view_counted_once(c0.tags@, id, first.seconds, second.seconds);
    }
}

/// A visitor as the page of an object names them.
pub struct ObjectResponse {
    pub id: i32,
    pub ip: String,
    pub device: i16,
    pub city_ru: Option<String>,
    pub city_en: Option<String>,
    pub region_ru: Option<String>,
    pub region_en: Option<String>,
    pub country_ru: Option<String>,
    pub country_en: Option<String>,
}

/// A visitor as the page of an object names them.
pub open spec fn object_response_of(user: CookieUser) -> ObjectResponse {
    ObjectResponse {
        id: user.id,
        ip: user.ip,
        device: user.device,
        city_ru: user.city_ru,
        city_en: user.city_en,
        region_ru: user.region_ru,
        region_en: user.region_en,
        country_ru: user.country_ru,
        country_en: user.country_en,
    }
}

/// Looks up the stored visitor with a positive id. Where there is none, the
/// caller has a newcomer before it.
pub fn get_c_user(catalog: &Catalog, id: i32) -> (user: Option<CookieUser>)
    ensures
        match user {
            Some(u) => id > 0 && !has_none_with(catalog.cookie_users@, id) && u
                == catalog.cookie_users@[place_of(catalog.cookie_users@, id)],
            None => id <= 0 || has_none_with(catalog.cookie_users@, id),
        },
{
    if id > 0 {
        match locate(&catalog.cookie_users, id) {
            Some(at) => Some(catalog.cookie_users[at].clone()),
            None => None,
        }
    } else {
        None
    }
}

/// Names the visitor with the id, or stores `newcomer` where no such
/// visitor is stored, and names them.
pub fn object_history(catalog: &mut Catalog, id: i32, newcomer: Option<&NewCookieUser>) -> (result:
    Result<ObjectResponse, Error>)
    ensures
        if id > 0 && !has_none_with(old(catalog).cookie_users@, id) {
            &&& result == Ok::<ObjectResponse, Error>(
                object_response_of(
                    old(catalog).cookie_users@[place_of(
                        old(catalog).cookie_users@,
                        id,
                    )],
                ),
            )
            &&& *final(catalog) == *old(catalog)
        } else if newcomer is None {
            result == Err::<ObjectResponse, Error>(Error::NotFound(Missing::Visitor)) && *final(catalog) == *old(catalog)
        } else if max_key(old(catalog).cookie_users@) == i32::MAX {
            result == Err::<ObjectResponse, Error>(Error::Conflict(Clash::KeysExhausted))
                && *final(catalog) == *old(catalog)
        } else {
            let user = arrived((max_key(old(catalog).cookie_users@) + 1) as i32, *newcomer->0);
            &&& result == Ok::<ObjectResponse, Error>(object_response_of(user))
            &&& final(catalog).cookie_users@ == old(catalog).cookie_users@.push(user)
            &&& same_beside(
                *old(catalog),
                *final(catalog),
                set![Table::CookieUsers],
            )
        },
{
    if id > 0 {
        match locate(&catalog.cookie_users, id) {
            Some(at) => {
                let user: &CookieUser = &catalog.cookie_users[at];
                return Ok(
                    ObjectResponse {
                        id: user.id,
                        ip: user.ip.clone(),
                        device: user.device,
                        city_ru: user.city_ru.clone(),
                        city_en: user.city_en.clone(),
                        region_ru: user.region_ru.clone(),
                        region_en: user.region_en.clone(),
                        country_ru: user.country_ru.clone(),
                        country_en: user.country_en.clone(),
                    },
                );
            },
            None => {},
        }
    }
    let fresh: &NewCookieUser = match newcomer {
        Some(fresh) => fresh,
        None => {
            return Err(Error::NotFound(Missing::Visitor));
        },
    };
    let new_id: i32 = match fresh_id(&catalog.cookie_users) {
        Some(id) => id,
        None => {
            return Err(Error::Conflict(Clash::KeysExhausted));
        },
    };
    catalog.cookie_users.push(
        CookieUser {
            id: new_id,
            ip: fresh.ip.clone(),
            device: fresh.device,
            city_ru: fresh.city_ru.clone(),
            city_en: fresh.city_en.clone(),
            region_ru: fresh.region_ru.clone(),
            region_en: fresh.region_en.clone(),
            country_ru: fresh.country_ru.clone(),
            country_en: fresh.country_en.clone(),
            seconds: fresh.seconds,
            created: fresh.created,
        },
    );
    Ok(
        ObjectResponse {
            id: new_id,
            ip: fresh.ip.clone(),
            device: fresh.device,
            city_ru: fresh.city_ru.clone(),
            city_en: fresh.city_en.clone(),
            region_ru: fresh.region_ru.clone(),
            region_en: fresh.region_en.clone(),
            country_ru: fresh.country_ru.clone(),
            country_en: fresh.country_en.clone(),
        },
    )
}

} // verus!
