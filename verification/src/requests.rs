//! What every request needs: who asks, the menus, queries and their defaults.

use vstd::prelude::*;
use vstd::string::StringExecFns;
use crate::catalog::{Catalog, has_none_with, Keyed, locate, place_of};
use crate::errors::{Error, Missing};
use crate::kinds::{image_or_default, image_text, kind_name, kind_name_text, stat_type_of};
use crate::models::{Categories, Cat, SmallCat, CatDetail, User, StatPage};
use crate::stat::{find_page_stat, no_page_stat, stat_place};
use crate::text::{
    contains_text, has_infix, chars_of, find_field_end, field_end, sub_chars, chars_eq,
    parse_i32_chars, parsed_within, count_to_string, decimal_text,
};

verus! {

/// The payload of a failed request.
pub struct ErrorParams {
    pub error: String,
}

/// The payload of a request that has only something to say.
pub struct InfoParams {
    pub info: String,
}

/// The query of a request that may ask for a partial answer.
pub struct IsAjaxData {
    pub is_ajax: Option<i16>,
}

/// The query of a request for a page of a listing.
pub struct IsAjaxPageData {
    pub is_ajax: Option<i16>,
    pub page: Option<i32>,
}

/// The visit statistics of a page, as far as they are whole numbers.
pub struct PageStatData {
    pub view: i32,
    pub seconds: i32,
}

/// The categories of the six kinds, as menus show them.
pub struct MenuCats {
    pub service_cats: Vec<Cat>,
    pub store_cats: Vec<Cat>,
    pub blog_cats: Vec<Cat>,
    pub wiki_cats: Vec<Cat>,
    pub work_cats: Vec<Cat>,
    pub help_cats: Vec<Cat>,
}

/// The user on whose behalf a request is answered.
pub struct UserResp {
    pub id: i32,
    pub username: String,
    pub image: String,
    pub perm: i16,
    pub device: bool,
    pub categories: MenuCats,
}

/// Who asks: the id of the account (zero for nobody) and its permission
/// level.
#[derive(Clone, Copy, Debug, PartialEq, Eq, Structural)]
pub struct Actor {
    pub id: i32,
    pub perm: i16,
}

/// The actor may change a row of `owner`: as the owner, or as an
/// administrator.
pub open spec fn may_change(actor: Actor, owner: i32) -> bool {
    owner == actor.id || actor.perm >= 60
}

/// Builds the payload of a failed request.
pub fn error_params(e: Error) -> (payload: ErrorParams)
    ensures
        payload.error@ == e.message_text(),
{
    ErrorParams { error: e.message() }
}

/// A category as menus show it.
pub open spec fn cat_of(row: Categories) -> Cat {
    Cat {
        name: row.name,
        slug: row.slug,
        count: row.count,
        id: row.id,
        image: row.image,
        types: row.types,
    }
}

/// Shows a category as menus show it.
pub fn to_cat(row: &Categories) -> (cat: Cat)
    ensures
        cat == cat_of(*row),
{
    Cat {
        name: row.name.clone(),
        slug: row.slug.clone(),
        count: row.count,
        id: row.id,
        image: row.image.clone(),
        types: row.types,
    }
}

/// A category reduced to name, slug and count.
pub open spec fn small_cat_of(row: Categories) -> SmallCat {
    SmallCat { name: row.name, slug: row.slug, count: row.count }
}

/// Reduces a category to name, slug and count.
pub fn to_small_cat(row: &Categories) -> (cat: SmallCat)
    ensures
        cat == small_cat_of(*row),
{
    SmallCat { name: row.name.clone(), slug: row.slug.clone(), count: row.count }
}

/// The categories of one kind, as menus show them, in the order of the table.
pub open spec fn cats_for(rows: Seq<Categories>, types: i16) -> Seq<Cat> {
    rows.filter(|r: Categories| r.types == types).map_values(|r: Categories| cat_of(r))
}

/// Collects the categories of one kind.
pub fn collect_cats_for(rows: &Vec<Categories>, types: i16) -> (out: Vec<Cat>)
    ensures
        out@ == cats_for(rows@, types),
{
    let ghost pred = |r: Categories| r.types == types;
    let ghost pick = |r: Categories| cat_of(r);
    let mut out: Vec<Cat> = Vec::new();
    let mut i: usize = 0;
    assert(rows@.take(0).filter(pred).map_values(pick) =~= out@);
    while i < rows.len()
        invariant
            i <= rows.len(),
            pred == |r: Categories| r.types == types,
            pick == |r: Categories| cat_of(r),
            out@ == rows@.take(i as int).filter(pred).map_values(pick),
        decreases rows.len() - i,
    {
        proof {
            assert(rows@.take(i + 1) =~= rows@.take(i as int).push(rows@[i as int]));
            Seq::lemma_filter_push(rows@.take(i as int), rows@[i as int], pred);
        }
        let r: &Categories = &rows[i];
        if r.types == types {
            out.push(to_cat(r));
            assert(out@ =~= rows@.take(i + 1).filter(pred).map_values(pick));
        }
        i += 1;
    }
    assert(rows@.take(rows.len() as int) =~= rows@);
    out
}

/// All categories, as menus show them, in the order of the table.
pub open spec fn all_cats(rows: Seq<Categories>) -> Seq<Cat> {
    rows.filter(|r: Categories| true).map_values(|r: Categories| cat_of(r))
}

/// Collects all categories.
pub fn collect_all_cats(rows: &Vec<Categories>) -> (out: Vec<Cat>)
    ensures
        out@ == all_cats(rows@),
{
    let ghost pred = |r: Categories| true;
    let ghost pick = |r: Categories| cat_of(r);
    let mut out: Vec<Cat> = Vec::new();
    let mut i: usize = 0;
    assert(rows@.take(0).filter(pred).map_values(pick) =~= out@);
    while i < rows.len()
        invariant
            i <= rows.len(),
            pred == |r: Categories| true,
            pick == |r: Categories| cat_of(r),
            out@ == rows@.take(i as int).filter(pred).map_values(pick),
        decreases rows.len() - i,
    {
        proof {
            assert(rows@.take(i + 1) =~= rows@.take(i as int).push(rows@[i as int]));
            Seq::lemma_filter_push(rows@.take(i as int), rows@[i as int], pred);
        }
        let r: &Categories = &rows[i];
        if true {
            out.push(to_cat(r));
            assert(out@ =~= rows@.take(i + 1).filter(pred).map_values(pick));
        }
        i += 1;
    }
    assert(rows@.take(rows.len() as int) =~= rows@);
    out
}

impl Categories {
    /// The categories of one kind.
    pub fn get_categories_for_types(
        catalog: &Catalog,
        types: i16,
    ) -> (result: Result<Vec<Cat>, Error>)
        ensures
            result matches Ok(cats) && cats@ == cats_for(catalog.categories@, types),
    {
        Ok(collect_cats_for(&catalog.categories, types))
    }

    /// All categories.
    pub fn get_categories(catalog: &Catalog) -> (result: Result<Vec<Cat>, Error>)
        ensures
            result matches Ok(cats) && cats@ == all_cats(catalog.categories@),
    {
        Ok(collect_all_cats(&catalog.categories))
    }

    /// The name of the category's kind.
    pub fn get_type(&self) -> (name: String)
        ensures
            name@ == kind_name_text(self.types),
    {
        kind_name(self.types)
    }

    /// The number of the statistics page of the category list of a kind.
    pub fn get_stat_type(types: i16) -> (page: i16)
        ensures
            page == stat_type_of(types),
    {
        if types == 2 {
            61
        } else if types == 3 {
            71
        } else if types == 4 {
            81
        } else if types == 5 {
            91
        } else if types == 6 {
            101
        } else {
            41
        }
    }
}

impl Cat {
    /// The image of the category, or the default image.
    pub fn get_image(&self) -> (path: String)
        ensures
            path@ == image_text(self.image),
    {
        image_or_default(&self.image)
    }
}

impl CatDetail {
    /// The image of the category, or the default image.
    pub fn get_image(&self) -> (path: String)
        ensures
            path@ == image_text(self.image),
    {
        image_or_default(&self.image)
    }
}

/// The menus of a full answer: the categories of each kind. A partial
/// answer (`is_ajax` other than zero) carries none.
pub open spec fn menu_is(menu: MenuCats, categories: Seq<Categories>, is_ajax: i16) -> bool {
    if is_ajax == 0 {
        &&& menu.blog_cats@ == cats_for(categories, 1)
        &&& menu.service_cats@ == cats_for(categories, 2)
        &&& menu.store_cats@ == cats_for(categories, 3)
        &&& menu.wiki_cats@ == cats_for(categories, 4)
        &&& menu.work_cats@ == cats_for(categories, 5)
        &&& menu.help_cats@ == cats_for(categories, 6)
    } else {
        &&& menu.blog_cats@.len() == 0
        &&& menu.service_cats@.len() == 0
        &&& menu.store_cats@.len() == 0
        &&& menu.wiki_cats@.len() == 0
        &&& menu.work_cats@.len() == 0
        &&& menu.help_cats@.len() == 0
    }
}

/// Sorts the categories into the menus of the six kinds.
pub fn get_categories_2(catalog: &Catalog, is_ajax: i16) -> (menu: MenuCats)
    ensures
        menu_is(menu, catalog.categories@, is_ajax),
{
    if is_ajax == 0 {
        MenuCats {
            service_cats: collect_cats_for(&catalog.categories, 2),
            store_cats: collect_cats_for(&catalog.categories, 3),
            blog_cats: collect_cats_for(&catalog.categories, 1),
            wiki_cats: collect_cats_for(&catalog.categories, 4),
            work_cats: collect_cats_for(&catalog.categories, 5),
            help_cats: collect_cats_for(&catalog.categories, 6),
        }
    } else {
        MenuCats {
            service_cats: Vec::new(),
            store_cats: Vec::new(),
            blog_cats: Vec::new(),
            wiki_cats: Vec::new(),
            work_cats: Vec::new(),
            help_cats: Vec::new(),
        }
    }
}

/// A browser that does not call itself mobile counts as a desktop.
pub open spec fn desktop_agent(user_agent: Seq<char>) -> bool {
    !has_infix(user_agent, "Mobile"@)
}

/// Tells from the user agent whether the request comes from a desktop.
pub fn is_desctop(user_agent: &str) -> (desktop: bool)
    ensures
        desktop == desktop_agent(user_agent@),
{
    !contains_text(user_agent, "Mobile")
}

/// The page that a query asks for: page one where it names none.
pub open spec fn page_of(params: Option<IsAjaxPageData>) -> i32 {
    match params {
        Some(p) => match p.page {
            Some(page) => page,
            None => 1,
        },
        None => 1,
    }
}

/// How partial an answer a query asks for: zero, the full answer, where it
/// does not say.
pub open spec fn is_ajax_of(is_ajax: Option<i16>) -> i16 {
    match is_ajax {
        Some(n) => n,
        None => 0,
    }
}

/// As `is_ajax_of`, with everything below one counted as zero.
pub open spec fn positive_is_ajax_of(is_ajax: Option<i16>) -> i16 {
    match is_ajax {
        Some(n) => if n > 0 {
            n
        } else {
            0
        },
        None => 0,
    }
}

/// Reads how partial an answer is asked for, with everything below one
/// counted as zero.
pub fn positive_is_ajax(is_ajax: Option<i16>) -> (n: i16)
    ensures
        n == positive_is_ajax_of(is_ajax),
{
    match is_ajax {
        Some(n) => if n > 0 {
            n
        } else {
            0
        },
        None => 0,
    }
}

/// The page of a listing that a query asks for: page one where it names
/// none or one below two.
pub open spec fn page_number_of(page: Option<i32>) -> i32 {
    match page {
        Some(n) => if n > 1 {
            n
        } else {
            1
        },
        None => 1,
    }
}

/// Reads the page of a listing that a query asks for.
pub fn page_number(page: Option<i32>) -> (n: i32)
    ensures
        n == page_number_of(page),
{
    match page {
        Some(n) => if n > 1 {
            n
        } else {
            1
        },
        None => 1,
    }
}

/// Reads the page from a query; `None` stands for a query that could not be
/// read.
pub fn get_page(params: Option<&IsAjaxPageData>) -> (page: i32)
    ensures
        page == page_of(
            match params {
                Some(p) => Some(*p),
                None => None,
            },
        ),
{
    match params {
        Some(p) => match p.page {
            Some(page) => page,
            None => 1,
        },
        None => 1,
    }
}

/// Reads from a query how partial the answer is to be.
pub fn get_is_ajax(params: Option<&IsAjaxData>) -> (is_ajax: i16)
    ensures
        is_ajax == match params {
            Some(p) => positive_is_ajax_of(p.is_ajax),
            None => 0,
        },
{
    match params {
        Some(p) => positive_is_ajax(p.is_ajax),
        None => 0,
    }
}

/// Reads from a query how partial the answer is to be, and the page.
pub fn get_is_ajax_page(params: Option<&IsAjaxPageData>) -> (result: (i16, i32))
    ensures
        result.0 == match params {
            Some(p) => is_ajax_of(p.is_ajax),
            None => 0,
        },
        result.1 == page_of(
            match params {
                Some(p) => Some(*p),
                None => None,
            },
        ),
{
    match params {
        Some(p) => {
            let is_ajax: i16 = match p.is_ajax {
                Some(n) => n,
                None => 0,
            };
            let page: i32 = match p.page {
                Some(n) => n,
                None => 1,
            };
            (is_ajax, page)
        },
        None => (0, 1),
    }
}

/// The remainder of a division that rounds toward zero.
pub open spec fn rem_toward_zero(n: int, d: int) -> int {
    if n >= 0 {
        n % d
    } else {
        -((-n) % d)
    }
}

/// Which of three word forms follows a number in Russian: the first after
/// a number that ends in one but not in eleven, the second after one that
/// ends in two, three or four but not in twelve to fourteen, the third
/// otherwise.
pub open spec fn word_form(count: i16) -> int {
    let a = rem_toward_zero(count as int, 10);
    let b = rem_toward_zero(count as int, 100);
    if a == 1 && b != 11 {
        1
    } else if a >= 2 && a <= 4 && (b < 10 || b >= 20) {
        2
    } else {
        3
    }
}

/// The number followed by the word in the form that fits it.
pub open spec fn count_text(
    count: i16,
    word1: Seq<char>,
    word2: Seq<char>,
    word3: Seq<char>,
) -> Seq<
    char,
> {
    decimal_text(count as int) + if word_form(count) == 1 {
        word1
    } else if word_form(count) == 2 {
        word2
    } else {
        word3
    }
}

/// Writes a number and, directly behind it, the word in the form that fits
/// the number.
pub fn get_count_for_ru(count: i16, word1: String, word2: String, word3: String) -> (text: String)
    ensures
        text@ == count_text(count, word1@, word2@, word3@),
{
    let n: i32 = count as i32;
    let a: i32 = if n >= 0 {
        n % 10
    } else {
        0 - ((0 - n) % 10)
    };
    let b: i32 = if n >= 0 {
        n % 100
    } else {
        0 - ((0 - n) % 100)
    };
    let count_str: String = count_to_string(count);
    if a == 1 && b != 11 {
        count_str.concat(word1.as_str())
    } else if a >= 2 && a <= 4 && (b < 10 || b >= 20) {
        count_str.concat(word2.as_str())
    } else {
        count_str.concat(word3.as_str())
    }
}

/// The visitor id that a cookie header carries, read from position `from`
/// on. The header is a list of pieces parted by `;`, each a name and a
/// value parted by `=`. The first piece whose name is exactly `user` decides:
/// its value is the id where it is a number, and zero where it is not or is
/// missing. Zero also where no piece is named `user`.
pub open spec fn cookie_user_from(s: Seq<char>, from: int) -> i32
    decreases s.len() - from,
{
    if from < 0 || from > s.len() {
        0
    } else {
        let end = field_end(s, from, ';');
        let piece = s.subrange(from, end);
        let name_end = field_end(piece, 0, '=');
        if piece.subrange(0, name_end) == "user"@ {
            if name_end >= piece.len() {
                0
            } else {
                let value_end = field_end(piece, name_end + 1, '=');
                match parsed_within(
                    piece.subrange(name_end + 1, value_end),
                    i32::MIN as int,
                    i32::MAX as int,
                ) {
                    Some(v) => v as i32,
                    None => 0,
                }
            }
        } else if end >= s.len() || end < from {
            0
        } else {
            cookie_user_from(s, end + 1)
        }
    }
}

proof fn lemma_field_end_bounds(s: Seq<char>, from: int, sep: char)
    requires
        0 <= from <= s.len(),
    ensures
        from <= field_end(s, from, sep) <= s.len(),
    decreases s.len() - from,
{
    if !(from >= s.len() || s[from] == sep) {
        lemma_field_end_bounds(s, from + 1, sep);
    }
}

/// Reads the id of the visitor from the cookie header of a request; zero
/// where the request has no such header or the header names no visitor.
pub fn get_cookie_user_id(cookie: Option<&str>) -> (id: i32)
    ensures
        id == match cookie {
            Some(text) => cookie_user_from(text@, 0),
            None => 0,
        },
{
    let text: &str = match cookie {
        Some(text) => text,
        None => {
            return 0;
        },
    };
    let s: Vec<char> = chars_of(text);
    let name: Vec<char> = chars_of("user");
    let mut from: usize = 0;
    loop
        invariant
            cookie == Some(text),
            from <= s.len(),
            s@ == text@,
            name@ == "user"@,
            cookie_user_from(text@, 0) == cookie_user_from(s@, from as int),
        decreases s.len() - from,
    {
        let end: usize = find_field_end(&s, from, ';');
        let piece: Vec<char> = sub_chars(&s, from, end);
        let name_end: usize = find_field_end(&piece, 0, '=');
        let head: Vec<char> = sub_chars(&piece, 0, name_end);
        if chars_eq(&head, &name) {
            if name_end >= piece.len() {
                return 0;
            }
            let value_end: usize = find_field_end(&piece, name_end + 1, '=');
            let value: Vec<char> = sub_chars(&piece, name_end + 1, value_end);
            return match parse_i32_chars(&value) {
                Some(v) => v,
                None => 0,
            };
        }
        if end >= s.len() {
            return 0;
        }
        from = end + 1;
    }
}

/// Why nobody can be named as the one who asks: the request carries the id
/// of an account that is not stored.
pub open spec fn request_user_error(catalog: Catalog, user_id: i32, is_ajax: i16) -> Option<Error> {
    if is_ajax <= 0 && user_id > 0 && has_none_with(catalog.users@, user_id) {
        Some(Error::NotFound(Missing::User))
    } else {
        None
    }
}

/// `user` is the one on whose behalf the request is answered.
///
/// A partial answer (`is_ajax` above zero) names nobody: the caller already
/// knows who asks. Otherwise the answer names the account `user_id`, or
/// nobody where `user_id` is not positive, and carries the menus.
pub open spec fn is_request_user(
    user: UserResp,
    catalog: Catalog,
    user_id: i32,
    is_ajax: i16,
    desktop: bool,
) -> bool {
    if is_ajax > 0 {
        &&& user.id == 0
        &&& user.username@.len() == 0
        &&& user.image@.len() == 0
        &&& user.perm == 0
        &&& user.device
        &&& menu_is(user.categories, catalog.categories@, 1)
    } else if user_id > 0 {
        let account = catalog.users@[place_of(catalog.users@, user_id)];
        &&& user.id == user_id
        &&& user.username == account.username
        &&& user.perm == account.perm
        &&& user.image@ == match account.image {
            Some(path) => path@,
            None => Seq::<char>::empty(),
        }
        &&& user.device == desktop
        &&& menu_is(user.categories, catalog.categories@, is_ajax)
    } else {
        &&& user.id == 0
        &&& user.username@.len() == 0
        &&& user.image@.len() == 0
        &&& user.perm == 0
        &&& user.device == desktop
        &&& menu_is(user.categories, catalog.categories@, is_ajax)
    }
}

/// Names the user on whose behalf a request is answered.
pub fn get_request_user(catalog: &Catalog, user_id: i32, is_ajax: i16, desktop: bool) -> (result:
    Result<UserResp, Error>)
    ensures
        match request_user_error(*catalog, user_id, is_ajax) {
            Some(e) => result == Err::<UserResp, Error>(e),
            None => result matches Ok(user) && is_request_user(
                user,
                *catalog,
                user_id,
                is_ajax,
                desktop,
            ),
        },
{
    if is_ajax > 0 {
        return Ok(
            UserResp {
                id: 0,
                username: String::new(),
                image: String::new(),
                perm: 0,
                device: true,
                categories: get_categories_2(catalog, 1),
            },
        );
    }
    if user_id > 0 {
        match locate(&catalog.users, user_id) {
            Some(at) => {
                let user: &User = &catalog.users[at];
                let image: String = match &user.image {
                    Some(path) => path.clone(),
                    None => String::new(),
                };
                Ok(
                    UserResp {
                        id: user.id,
                        username: user.username.clone(),
                        image,
                        perm: user.perm,
                        device: desktop,
                        categories: get_categories_2(catalog, is_ajax),
                    },
                )
            },
            None => Err(Error::NotFound(Missing::User)),
        }
    } else {
        Ok(
            UserResp {
                id: 0,
                username: String::new(),
                image: String::new(),
                perm: 0,
                device: desktop,
                categories: get_categories_2(catalog, is_ajax),
            },
        )
    }
}

/// The statistics shown on the first page of a listing: those of the front
/// page, whatever page asks. Later pages show none.
pub fn get_stat_page(
    catalog: &Catalog,
    types: i16,
    page: i32,
) -> (result: Result<PageStatData, Error>)
    ensures
        if page > 1 {
            result matches Ok(stat) && stat.view == 0 && stat.seconds == 0
        } else if no_page_stat(catalog.stat_pages@, 1) {
            result matches Err(e) && e == Error::NotFound(Missing::StatPage)
        } else {
            let row = catalog.stat_pages@[stat_place(catalog.stat_pages@, 1)];
            result matches Ok(stat) && stat.view == row.view && stat.seconds == row.seconds
        },
{
    if page > 1 {
        return Ok(PageStatData { view: 0, seconds: 0 });
    }
    match find_page_stat(&catalog.stat_pages, 1) {
        Some(at) => Ok(
            PageStatData {
                view: catalog.stat_pages[at].view,
                seconds: catalog.stat_pages[at].seconds,
            },
        ),
        None => Err(Error::NotFound(Missing::StatPage)),
    }
}

/// Why nobody can be identified as the sender of a request: it carries the
/// id of an account that is not stored.
pub open spec fn asker_error(c: Catalog, user_id: i32) -> Option<Error> {
    if user_id > 0 && has_none_with(c.users@, user_id) {
        Some(Error::NotFound(Missing::User))
    } else {
        None
    }
}

/// The permission level of the sender of a request: that of the account, and
/// zero for nobody.
pub open spec fn perm_of(c: Catalog, user_id: i32) -> i16 {
    if user_id <= 0 {
        0
    } else {
        c.users@[place_of(c.users@, user_id)].perm
    }
}

/// The id of the sender of a request, zero for nobody.
pub open spec fn asker_of(user_id: i32) -> i32 {
    if user_id <= 0 {
        0
    } else {
        user_id
    }
}

/// Identifies the sender of a request: the account with the id and its
/// permission level, or nobody where the id is not positive.
pub fn actor_of(catalog: &Catalog, user_id: i32) -> (result: Result<Actor, Error>)
    ensures
        match asker_error(*catalog, user_id) {
            Some(e) => result == Err::<Actor, Error>(e),
            None => result == Ok::<Actor, Error>(
                Actor { id: asker_of(user_id), perm: perm_of(*catalog, user_id) },
            ),
        },
{
    if user_id <= 0 {
        return Ok(Actor { id: 0, perm: 0 });
    }
    match locate(&catalog.users, user_id) {
        Some(at) => Ok(Actor { id: user_id, perm: catalog.users[at].perm }),
        None => Err(Error::NotFound(Missing::User)),
    }
}

} // verus!
