//! The page of one item: what is shown of it, its content, and its neighbours.

use vstd::prelude::*;
use crate::catalog::{Catalog, Keyed, has_none_with, locate, place_of};
use crate::getters::{
    item_small_tags, small_tags_of_item, contents_of, collect_contents_of, owner_of, is_nobody,
};
use crate::kinds::{SortRule, image_text, image_or_default, is_admin, is_admin_perm};
use crate::listing::{
    Projection, listing, shown, list_window, category_item_ids, collect_category_items, Selection,
};
use crate::models::{
    Item, Categories, Cat, SmallTag, OwnerResp, ContentBlock, ItemContent, FeaturedItem,
};
use crate::moments::{moment_text, plain_moment_text, shown_text, created_text, plain_created_text};
use crate::paging::window;

verus! {

/// An item as its own page shows it.
pub struct ItemDetailResp {
    pub id: i32,
    pub slug: String,
    pub title: String,
    pub link: Option<String>,
    pub item_types: i16,
    pub created: String,
    pub price: i32,
    pub price_acc: Option<i32>,
    pub image: String,
    pub view: i32,
    pub seconds: i32,
    pub tags: Vec<SmallTag>,
    pub owner: OwnerResp,
    pub contents: Vec<ContentBlock>,
}

/// An item as the page of its category list shows it.
pub struct ItemResp {
    pub id: i32,
    pub slug: String,
    pub title: String,
    pub description: Option<String>,
    pub created: String,
    pub price: i32,
    pub price_acc: Option<i32>,
    pub image: String,
}

/// A category with the newest of its items.
pub struct CatDataResp {
    pub category: Cat,
    pub object_list: Vec<ItemResp>,
}

/// `owner` is the owner shown for the account `id`: the account as readers
/// see it, or a nameless owner where the account is not stored.
pub open spec fn is_owner_of(owner: OwnerResp, c: Catalog, id: i32) -> bool {
    if has_none_with(c.users@, id) {
        is_nobody(owner)
    } else {
        owner == owner_of(c.users@[place_of(c.users@, id)])
    }
}

/// Names the owner shown for an account.
pub fn owner_resp(catalog: &Catalog, id: i32) -> (owner: OwnerResp)
    ensures
        is_owner_of(owner, *catalog, id),
{
    match locate(&catalog.users, id) {
        Some(at) => {
            let user = &catalog.users[at];
            OwnerResp {
                first_name: user.first_name.clone(),
                last_name: user.last_name.clone(),
                username: user.username.clone(),
                image: user.image.clone(),
                perm: user.perm,
            }
        },
        None => OwnerResp {
            first_name: String::new(),
            last_name: String::new(),
            username: String::new(),
            image: None,
            perm: 0,
        },
    }
}

/// `block` shows the content row with its author and the time of its
/// creation in the plain form.
pub open spec fn is_content_block(block: ContentBlock, c: Catalog, row: ItemContent) -> bool {
    &&& block.id == row.id
    &&& block.title == row.title
    &&& block.content == row.content
    &&& is_owner_of(block.user, c, row.user_id)
    &&& block.position == row.position
    &&& block.created@ == shown_text(plain_moment_text(row.created as int))
}

/// `blocks` show the content of the item, block by block.
pub open spec fn are_contents_of(blocks: Seq<ContentBlock>, c: Catalog, item: i32) -> bool {
    let rows = contents_of(c.item_contents@, item);
    &&& blocks.len() == rows.len()
    &&& forall|k: int| 0 <= k < rows.len() ==> is_content_block(#[trigger] blocks[k], c, rows[k])
}

impl Item {
    /// The content of the item, block by block, each with its author.
    pub fn get_contents(&self, catalog: &Catalog) -> (blocks: Vec<ContentBlock>)
        ensures
            are_contents_of(blocks@, *catalog, self.id),
    {
        let rows: Vec<ItemContent> = collect_contents_of(&catalog.item_contents, self.id);
        let mut stack: Vec<ContentBlock> = Vec::new();
        let mut k: usize = 0;
        while k < rows.len()
            invariant
                k <= rows.len(),
                stack.len() == k,
                forall|j: int|
                    0 <= j < k ==> is_content_block(#[trigger] stack@[j], *catalog, rows@[j]),
            decreases rows.len() - k,
        {
            let row: &ItemContent = &rows[k];
            stack.push(
                ContentBlock {
                    id: row.id,
                    title: row.title.clone(),
                    content: row.content.clone(),
                    user: owner_resp(catalog, row.user_id),
                    position: row.position,
                    created: plain_created_text(row.created),
                },
            );
            k += 1;
        }
        stack
    }
}

/// The item is shown in full to an actor of this permission level:
/// published items to everyone, hidden ones to administrators.
pub open spec fn shown_in_full(item: Item, perm: i16) -> bool {
    item.item_types < 10 || is_admin_perm(perm)
}

/// `detail` is what the page of the item shows to an actor of permission
/// level `perm`: everything, or, of an item that the actor may not see in
/// full, no more than id, slug, title and owner.
pub open spec fn is_item_data(detail: ItemDetailResp, c: Catalog, item: Item, perm: i16) -> bool {
    &&& detail.id == item.id
    &&& detail.slug == item.slug
    &&& detail.title == item.title
    &&& is_owner_of(detail.owner, c, item.user_id)
    &&& if shown_in_full(item, perm) {
        &&& detail.link == item.link
        &&& detail.item_types == item.item_types
        &&& detail.created@ == shown_text(moment_text(item.created as int))
        &&& detail.price == item.price
        &&& detail.price_acc == item.price_acc
        &&& detail.image@ == image_text(item.image)
        &&& detail.view == item.view
        &&& detail.seconds == item.seconds
        &&& detail.tags@ == item_small_tags(c, item.id, item.types)
        &&& are_contents_of(detail.contents@, c, item.id)
    } else {
        &&& detail.link is None
        &&& detail.item_types == 0
        &&& detail.created@.len() == 0
        &&& detail.price == 0
        &&& detail.price_acc is None
        &&& detail.image@.len() == 0
        &&& detail.view == 0
        &&& detail.seconds == 0
        &&& detail.tags@.len() == 0
        &&& detail.contents@.len() == 0
    }
}

/// Collects what the page of an item shows to an actor of permission level
/// `perm`.
pub fn get_item_data(catalog: &Catalog, object: &Item, perm: i16) -> (detail: ItemDetailResp)
    ensures
        is_item_data(detail, *catalog, *object, perm),
{
    if object.item_types < 10 || is_admin(perm) {
        ItemDetailResp {
            id: object.id,
            slug: object.slug.clone(),
            title: object.title.clone(),
            link: object.link.clone(),
            item_types: object.item_types,
            created: created_text(object.created),
            price: object.price,
            price_acc: object.price_acc,
            image: image_or_default(&object.image),
            view: object.view,
            seconds: object.seconds,
            tags: small_tags_of_item(catalog, object.id, object.types),
            owner: owner_resp(catalog, object.user_id),
            contents: object.get_contents(catalog),
        }
    } else {
        ItemDetailResp {
            id: object.id,
            slug: object.slug.clone(),
            title: object.title.clone(),
            link: None,
            item_types: 0,
            created: String::new(),
            price: 0,
            price_acc: None,
            image: String::new(),
            view: 0,
            seconds: 0,
            tags: Vec::new(),
            owner: owner_resp(catalog, object.user_id),
            contents: Vec::new(),
        }
    }
}

/// `shown` is the item as the page of its category list shows it.
pub open spec fn is_item_resp(shown: ItemResp, item: Item) -> bool {
    &&& shown.id == item.id
    &&& shown.slug == item.slug
    &&& shown.title == item.title
    &&& shown.description == item.description
    &&& shown.created@ == shown_text(moment_text(item.created as int))
    &&& shown.price == item.price
    &&& shown.price_acc == item.price_acc
    &&& shown.image@ == image_text(item.image)
}

/// Shows an item as the page of its category list shows it.
pub fn to_item_resp(item: &Item) -> (shown: ItemResp)
    ensures
        is_item_resp(shown, *item),
{
    ItemResp {
        id: item.id,
        slug: item.slug.clone(),
        title: item.title.clone(),
        description: item.description.clone(),
        created: created_text(item.created),
        price: item.price,
        price_acc: item.price_acc,
        image: image_or_default(&item.image),
    }
}

/// The newest items of kind `types` under a category, `limit` at most.
pub open spec fn newest_in_category(
    c: Catalog,
    cat_id: i32,
    limit: i64,
    types: i16,
    admin: bool,
) -> Seq<
    Item,
> {
    window(
        listing(
            c.items@,
            Selection {
                types,
                admin,
                ids: Some(category_item_ids(c.category@, cat_id, types)),
                rule: SortRule::CreatedDesc,
            },
        ),
        0,
        limit as int,
    )
}

impl Cat {
    /// The newest items of kind `types` under the category, `limit` at most.
    pub fn get_items_list(&self, catalog: &Catalog, limit: i64, types: i16, is_admin: bool) -> (items:
        Vec<Item>)
        ensures
            items@ == newest_in_category(*catalog, self.id, limit, types, is_admin),
    {
        let ids: Vec<i32> = collect_category_items(&catalog.category, self.id, types);
        let rows: Vec<Item> = list_window::<Item>(
            &catalog.items,
            types,
            is_admin,
            Some(&ids),
            SortRule::CreatedDesc,
            0,
            limit,
        );
        assert(rows@ =~= newest_in_category(*catalog, self.id, limit, types, is_admin));
        rows
    }
}

/// The last place at which `id` stands in `ids`.
pub open spec fn last_place(ids: Seq<i32>, id: i32) -> Option<int>
    decreases ids.len(),
{
    if ids.len() == 0 {
        None
    } else if ids.last() == id {
        Some(ids.len() - 1)
    } else {
        last_place(ids.drop_last(), id)
    }
}

/// Finds the last place at which `id` stands in `ids`.
pub fn find_last_place(ids: &Vec<i32>, id: i32) -> (found: Option<usize>)
    ensures
        match found {
            Some(at) => last_place(ids@, id) == Some(at as int) && at < ids.len(),
            None => last_place(ids@, id) is None,
        },
{
    let mut n: usize = ids.len();
    assert(ids@.take(n as int) =~= ids@);
    while n > 0
        invariant
            n <= ids.len(),
            last_place(ids@, id) == last_place(ids@.take(n as int), id),
        decreases n,
    {
        proof {
            assert(ids@.take(n as int).last() == ids@[n - 1]);
            assert(ids@.take(n as int).drop_last() =~= ids@.take(n - 1));
        }
        if ids[n - 1] == id {
            return Some(n - 1);
        }
        n -= 1;
    }
    None
}

/// Row `at` is the first published item with the id and the kind.
pub open spec fn is_first_shown(items: Seq<Item>, id: i32, kind: i16, at: int) -> bool {
    &&& 0 <= at < items.len()
    &&& items[at].id == id && items[at].types == kind && items[at].item_types < 10
    &&& forall|j: int|
        0 <= j < at ==> !((#[trigger] items[j]).id == id && items[j].types == kind
            && items[j].item_types < 10)
}

/// `featured` is the item with the id as a neighbour: slug and title of the
/// first published item with the id and the kind, or nothing where there is
/// none.
pub open spec fn is_featured(
    featured: Option<FeaturedItem>,
    items: Seq<Item>,
    id: i32,
    kind: i16,
) -> bool {
    match featured {
        Some(f) => exists|at: int|
            is_first_shown(items, id, kind, at) && f.slug == items[at].slug && f.title
                == items[at].title,
        None => forall|j: int|
            0 <= j < items.len() ==> !((#[trigger] items[j]).id == id && items[j].types == kind
                && items[j].item_types < 10),
    }
}

/// Looks up an item as a neighbour.
pub fn featured_item(items: &Vec<Item>, id: i32, kind: i16) -> (featured: Option<FeaturedItem>)
    ensures
        is_featured(featured, items@, id, kind),
{
    let mut i: usize = 0;
    while i < items.len()
        invariant
            i <= items.len(),
            forall|j: int|
                0 <= j < i ==> !((#[trigger] items@[j]).id == id && items@[j].types == kind
                    && items@[j].item_types < 10),
        decreases items.len() - i,
    {
        if items[i].id == id && items[i].types == kind && items[i].item_types < 10 {
            assert(is_first_shown(items@, id, kind, i as int));
            return Some(
                FeaturedItem { slug: items[i].slug.clone(), title: items[i].title.clone() },
            );
        }
        i += 1;
    }
    None
}

/// `around` are the neighbours of the item `id` among the items of a
/// category: the published items linked just before and just after the last
/// link of the item, and none on a side where no link stands or the linked
/// item is not a published item of the kind.
pub open spec fn are_neighbours(
    around: (Option<FeaturedItem>, Option<FeaturedItem>),
    c: Catalog,
    cat_id: i32,
    types: i16,
    id: i32,
) -> bool {
    let ids = category_item_ids(c.category@, cat_id, types);
    match last_place(ids, id) {
        Some(at) => {
            &&& if at > 0 {
                is_featured(around.0, c.items@, ids[at - 1], types)
            } else {
                around.0 is None
            }
            &&& if at + 1 < ids.len() {
                is_featured(around.1, c.items@, ids[at + 1], types)
            } else {
                around.1 is None
            }
        },
        None => around.0 is None && around.1 is None,
    }
}

impl Categories {
    /// The neighbours of an item among the items of the category: the one
    /// linked before it and the one linked after it.
    pub fn get_featured_items(&self, catalog: &Catalog, types: i16, id: i32) -> (around: (
        Option<FeaturedItem>,
        Option<FeaturedItem>,
    ))
        ensures
            are_neighbours(around, *catalog, self.id, types, id),
    {
        let ids: Vec<i32> = collect_category_items(&catalog.category, self.id, types);
        match find_last_place(&ids, id) {
            Some(at) => {
                let prev: Option<FeaturedItem> = if at > 0 {
                    featured_item(&catalog.items, ids[at - 1], types)
                } else {
                    None
                };
                let next: Option<FeaturedItem> = if at + 1 < ids.len() {
                    featured_item(&catalog.items, ids[at + 1], types)
                } else {
                    None
                };
                (prev, next)
            },
            None => (None, None),
        }
    }
}

} // verus!
