//! What belongs to an item, a category, a tag or a visitor.

use vstd::prelude::*;
use crate::catalog::{Catalog, Keyed, find_row, rows_page, is_first_with, has_none_with};
use crate::counter::{targets_of, collect_targets};
use crate::errors::{Error, Missing};
use crate::kinds::{kind_name, kind_name_text};
use crate::listing::contains_id;
use crate::models::{
    Item, Categories, Category, Tag, SmallTag, TagItems, SmallCat, Blog, Service, Store, Wiki, Work,
    Help, File, SmallFile, Serve, TechCategories, TechCategoriesItem, Message, OwnerResp, User,
    ItemContent, Feedback, CookieStat, CookieUser,
};
use crate::paging::{page_rows, next_page_number, next_page, probe, window_bounds};
use crate::ranking::{in_rank_order, rows_in_rank_order};
use crate::requests::{small_cat_of, to_small_cat};

verus! {

/// A tag reduced to name and count.
pub open spec fn small_tag_of(tag: Tag) -> SmallTag {
    SmallTag { name: tag.name, count: tag.count }
}

/// Reduces a tag to name and count.
pub fn to_small_tag(tag: &Tag) -> (small: SmallTag)
    ensures
        small == small_tag_of(*tag),
{
    SmallTag { name: tag.name.clone(), count: tag.count }
}

/// A file as an item page shows it.
pub open spec fn small_file_of(file: File) -> SmallFile {
    SmallFile { id: file.id, types: file.types, src: file.src, description: file.description }
}

/// Shows a file as an item page shows it.
pub fn to_small_file(file: &File) -> (small: SmallFile)
    ensures
        small == small_file_of(*file),
{
    SmallFile {
        id: file.id,
        types: file.types,
        src: file.src.clone(),
        description: file.description.clone(),
    }
}

/// The tags whose id is among `ids`, reduced to name and count, in the order of the tag table.
pub open spec fn small_tags_among(rows: Seq<Tag>, ids: Seq<i32>) -> Seq<SmallTag> {
    rows.filter(|r: Tag| ids.contains(r.id)).map_values(|r: Tag| small_tag_of(r))
}

/// Collects the tags whose id is among `ids`.
pub fn collect_small_tags(rows: &Vec<Tag>, ids: &Vec<i32>) -> (out: Vec<SmallTag>)
    ensures
        out@ == small_tags_among(rows@, ids@),
{
    let ghost pred = |r: Tag| ids@.contains(r.id);
    let ghost pick = |r: Tag| small_tag_of(r);
    let mut out: Vec<SmallTag> = Vec::new();
    let mut i: usize = 0;
    assert(rows@.take(0).filter(pred).map_values(pick) =~= out@);
    while i < rows.len()
        invariant
            i <= rows.len(),
            pred == |r: Tag| ids@.contains(r.id),
            pick == |r: Tag| small_tag_of(r),
            out@ == rows@.take(i as int).filter(pred).map_values(pick),
        decreases rows.len() - i,
    {
        proof {
            assert(rows@.take(i + 1) =~= rows@.take(i as int).push(rows@[i as int]));
            Seq::lemma_filter_push(rows@.take(i as int), rows@[i as int], pred);
        }
        let r: &Tag = &rows[i];
        if contains_id(ids, r.id) {
            out.push(to_small_tag(r));
            assert(out@ =~= rows@.take(i + 1).filter(pred).map_values(pick));
        }
        i += 1;
    }
    assert(rows@.take(rows.len() as int) =~= rows@);
    out
}

/// The tags whose id is among `ids`, in the order of the tag table.
pub open spec fn tags_among(rows: Seq<Tag>, ids: Seq<i32>) -> Seq<Tag> {
    rows.filter(|r: Tag| ids.contains(r.id)).map_values(|r: Tag| r)
}

/// Collects the tag rows whose id is among `ids`.
pub fn collect_tags(rows: &Vec<Tag>, ids: &Vec<i32>) -> (out: Vec<Tag>)
    ensures
        out@ == tags_among(rows@, ids@),
{
    let ghost pred = |r: Tag| ids@.contains(r.id);
    let ghost pick = |r: Tag| r;
    let mut out: Vec<Tag> = Vec::new();
    let mut i: usize = 0;
    assert(rows@.take(0).filter(pred).map_values(pick) =~= out@);
    while i < rows.len()
        invariant
            i <= rows.len(),
            pred == |r: Tag| ids@.contains(r.id),
            pick == |r: Tag| r,
            out@ == rows@.take(i as int).filter(pred).map_values(pick),
        decreases rows.len() - i,
    {
        proof {
            assert(rows@.take(i + 1) =~= rows@.take(i as int).push(rows@[i as int]));
            Seq::lemma_filter_push(rows@.take(i as int), rows@[i as int], pred);
        }
        let r: &Tag = &rows[i];
        if contains_id(ids, r.id) {
            out.push(r.clone());
            assert(out@ =~= rows@.take(i + 1).filter(pred).map_values(pick));
        }
        i += 1;
    }
    assert(rows@.take(rows.len() as int) =~= rows@);
    out
}

/// All tags, reduced to name and count, in the order of the tag table.
pub open spec fn all_small_tags(rows: Seq<Tag>) -> Seq<SmallTag> {
    rows.filter(|r: Tag| true).map_values(|r: Tag| small_tag_of(r))
}

/// Collects all tags, reduced to name and count.
pub fn collect_all_small_tags(rows: &Vec<Tag>) -> (out: Vec<SmallTag>)
    ensures
        out@ == all_small_tags(rows@),
{
    let ghost pred = |r: Tag| true;
    let ghost pick = |r: Tag| small_tag_of(r);
    let mut out: Vec<SmallTag> = Vec::new();
    let mut i: usize = 0;
    assert(rows@.take(0).filter(pred).map_values(pick) =~= out@);
    while i < rows.len()
        invariant
            i <= rows.len(),
            pred == |r: Tag| true,
            pick == |r: Tag| small_tag_of(r),
            out@ == rows@.take(i as int).filter(pred).map_values(pick),
        decreases rows.len() - i,
    {
        proof {
            assert(rows@.take(i + 1) =~= rows@.take(i as int).push(rows@[i as int]));
            Seq::lemma_filter_push(rows@.take(i as int), rows@[i as int], pred);
        }
        let r: &Tag = &rows[i];
        if true {
            out.push(to_small_tag(r));
            assert(out@ =~= rows@.take(i + 1).filter(pred).map_values(pick));
        }
        i += 1;
    }
    assert(rows@.take(rows.len() as int) =~= rows@);
    out
}

/// The categories whose id is among `ids`, reduced to name, slug and count.
pub open spec fn small_cats_among(rows: Seq<Categories>, ids: Seq<i32>) -> Seq<SmallCat> {
    rows.filter(|r: Categories| ids.contains(r.id)).map_values(|r: Categories| small_cat_of(r))
}

/// Collects the categories whose id is among `ids`.
pub fn collect_small_cats(rows: &Vec<Categories>, ids: &Vec<i32>) -> (out: Vec<SmallCat>)
    ensures
        out@ == small_cats_among(rows@, ids@),
{
    let ghost pred = |r: Categories| ids@.contains(r.id);
    let ghost pick = |r: Categories| small_cat_of(r);
    let mut out: Vec<SmallCat> = Vec::new();
    let mut i: usize = 0;
    assert(rows@.take(0).filter(pred).map_values(pick) =~= out@);
    while i < rows.len()
        invariant
            i <= rows.len(),
            pred == |r: Categories| ids@.contains(r.id),
            pick == |r: Categories| small_cat_of(r),
            out@ == rows@.take(i as int).filter(pred).map_values(pick),
        decreases rows.len() - i,
    {
        proof {
            assert(rows@.take(i + 1) =~= rows@.take(i as int).push(rows@[i as int]));
            Seq::lemma_filter_push(rows@.take(i as int), rows@[i as int], pred);
        }
        let r: &Categories = &rows[i];
        if contains_id(ids, r.id) {
            out.push(to_small_cat(r));
            assert(out@ =~= rows@.take(i + 1).filter(pred).map_values(pick));
        }
        i += 1;
    }
    assert(rows@.take(rows.len() as int) =~= rows@);
    out
}

/// The categories whose id is among `ids`, in the order of the category table.
pub open spec fn cats_among(rows: Seq<Categories>, ids: Seq<i32>) -> Seq<Categories> {
    rows.filter(|r: Categories| ids.contains(r.id)).map_values(|r: Categories| r)
}

/// Collects the category rows whose id is among `ids`.
pub fn collect_categories(rows: &Vec<Categories>, ids: &Vec<i32>) -> (out: Vec<Categories>)
    ensures
        out@ == cats_among(rows@, ids@),
{
    let ghost pred = |r: Categories| ids@.contains(r.id);
    let ghost pick = |r: Categories| r;
    let mut out: Vec<Categories> = Vec::new();
    let mut i: usize = 0;
    assert(rows@.take(0).filter(pred).map_values(pick) =~= out@);
    while i < rows.len()
        invariant
            i <= rows.len(),
            pred == |r: Categories| ids@.contains(r.id),
            pick == |r: Categories| r,
            out@ == rows@.take(i as int).filter(pred).map_values(pick),
        decreases rows.len() - i,
    {
        proof {
            assert(rows@.take(i + 1) =~= rows@.take(i as int).push(rows@[i as int]));
            Seq::lemma_filter_push(rows@.take(i as int), rows@[i as int], pred);
        }
        let r: &Categories = &rows[i];
        if contains_id(ids, r.id) {
            out.push(r.clone());
            assert(out@ =~= rows@.take(i + 1).filter(pred).map_values(pick));
        }
        i += 1;
    }
    assert(rows@.take(rows.len() as int) =~= rows@);
    out
}

/// The tags of all links of one kind, in the order of the link table.
pub open spec fn kind_tag_ids(rows: Seq<TagItems>, types: i16) -> Seq<i32> {
    rows.filter(|r: TagItems| r.types == types).map_values(|r: TagItems| r.tag_id)
}

/// Collects the tags of all links of one kind.
pub fn collect_kind_tag_ids(rows: &Vec<TagItems>, types: i16) -> (out: Vec<i32>)
    ensures
        out@ == kind_tag_ids(rows@, types),
{
    let ghost pred = |r: TagItems| r.types == types;
    let ghost pick = |r: TagItems| r.tag_id;
    let mut out: Vec<i32> = Vec::new();
    let mut i: usize = 0;
    assert(rows@.take(0).filter(pred).map_values(pick) =~= out@);
    while i < rows.len()
        invariant
            i <= rows.len(),
            pred == |r: TagItems| r.types == types,
            pick == |r: TagItems| r.tag_id,
            out@ == rows@.take(i as int).filter(pred).map_values(pick),
        decreases rows.len() - i,
    {
        proof {
            assert(rows@.take(i + 1) =~= rows@.take(i as int).push(rows@[i as int]));
            Seq::lemma_filter_push(rows@.take(i as int), rows@[i as int], pred);
        }
        let r: &TagItems = &rows[i];
        if r.types == types {
            out.push(r.tag_id);
            assert(out@ =~= rows@.take(i + 1).filter(pred).map_values(pick));
        }
        i += 1;
    }
    assert(rows@.take(rows.len() as int) =~= rows@);
    out
}

/// The files of one sort that belong to an item, as an item page shows them.
pub open spec fn files_of_kind(rows: Seq<File>, item: i32, kind: i16, sort: i16) -> Seq<SmallFile> {
    rows.filter(|r: File| r.item_id == item && r.item_types == kind && r.types == sort).map_values(|r: File| small_file_of(r))
}

/// Collects the files of one sort that belong to an item.
pub fn collect_files(rows: &Vec<File>, item: i32, kind: i16, sort: i16) -> (out: Vec<SmallFile>)
    ensures
        out@ == files_of_kind(rows@, item, kind, sort),
{
    let ghost pred = |r: File| r.item_id == item && r.item_types == kind && r.types == sort;
    let ghost pick = |r: File| small_file_of(r);
    let mut out: Vec<SmallFile> = Vec::new();
    let mut i: usize = 0;
    assert(rows@.take(0).filter(pred).map_values(pick) =~= out@);
    while i < rows.len()
        invariant
            i <= rows.len(),
            pred == |r: File| r.item_id == item && r.item_types == kind && r.types == sort,
            pick == |r: File| small_file_of(r),
            out@ == rows@.take(i as int).filter(pred).map_values(pick),
        decreases rows.len() - i,
    {
        proof {
            assert(rows@.take(i + 1) =~= rows@.take(i as int).push(rows@[i as int]));
            Seq::lemma_filter_push(rows@.take(i as int), rows@[i as int], pred);
        }
        let r: &File = &rows[i];
        if r.item_id == item && r.item_types == kind && r.types == sort {
            out.push(to_small_file(r));
            assert(out@ =~= rows@.take(i + 1).filter(pred).map_values(pick));
        }
        i += 1;
    }
    assert(rows@.take(rows.len() as int) =~= rows@);
    out
}

/// The ids of the images of an item, in the order of the file table.
pub open spec fn image_ids(rows: Seq<File>, item: i32) -> Seq<i32> {
    rows.filter(|r: File| r.item_id == item && r.types == 1).map_values(|r: File| r.id)
}

/// Collects the ids of the images of an item.
pub fn collect_image_ids(rows: &Vec<File>, item: i32) -> (out: Vec<i32>)
    ensures
        out@ == image_ids(rows@, item),
{
    let ghost pred = |r: File| r.item_id == item && r.types == 1;
    let ghost pick = |r: File| r.id;
    let mut out: Vec<i32> = Vec::new();
    let mut i: usize = 0;
    assert(rows@.take(0).filter(pred).map_values(pick) =~= out@);
    while i < rows.len()
        invariant
            i <= rows.len(),
            pred == |r: File| r.item_id == item && r.types == 1,
            pick == |r: File| r.id,
            out@ == rows@.take(i as int).filter(pred).map_values(pick),
        decreases rows.len() - i,
    {
        proof {
            assert(rows@.take(i + 1) =~= rows@.take(i as int).push(rows@[i as int]));
            Seq::lemma_filter_push(rows@.take(i as int), rows@[i as int], pred);
        }
        let r: &File = &rows[i];
        if r.item_id == item && r.types == 1 {
            out.push(r.id);
            assert(out@ =~= rows@.take(i + 1).filter(pred).map_values(pick));
        }
        i += 1;
    }
    assert(rows@.take(rows.len() as int) =~= rows@);
    out
}

/// The service options whose id is among `ids`, in the order of the table.
pub open spec fn serves_among(rows: Seq<Serve>, ids: Seq<i32>) -> Seq<Serve> {
    rows.filter(|r: Serve| ids.contains(r.id)).map_values(|r: Serve| r)
}

/// Collects the service options whose id is among `ids`.
pub fn collect_serves(rows: &Vec<Serve>, ids: &Vec<i32>) -> (out: Vec<Serve>)
    ensures
        out@ == serves_among(rows@, ids@),
{
    let ghost pred = |r: Serve| ids@.contains(r.id);
    let ghost pick = |r: Serve| r;
    let mut out: Vec<Serve> = Vec::new();
    let mut i: usize = 0;
    assert(rows@.take(0).filter(pred).map_values(pick) =~= out@);
    while i < rows.len()
        invariant
            i <= rows.len(),
            pred == |r: Serve| ids@.contains(r.id),
            pick == |r: Serve| r,
            out@ == rows@.take(i as int).filter(pred).map_values(pick),
        decreases rows.len() - i,
    {
        proof {
            assert(rows@.take(i + 1) =~= rows@.take(i as int).push(rows@[i as int]));
            Seq::lemma_filter_push(rows@.take(i as int), rows@[i as int], pred);
        }
        let r: &Serve = &rows[i];
        if contains_id(ids, r.id) {
            out.push(r.clone());
            assert(out@ =~= rows@.take(i + 1).filter(pred).map_values(pick));
        }
        i += 1;
    }
    assert(rows@.take(rows.len() as int) =~= rows@);
    out
}

/// The technical categories that are open (`is_active` one) or closed (two) for an item.
pub open spec fn tech_ids_of(
    rows: Seq<TechCategoriesItem>,
    item: i32,
    kind: i16,
    is_active: i16,
) -> Seq<i32> {
    rows.filter(|r: TechCategoriesItem| r.item_id == item && r.types == kind && r.is_active == is_active).map_values(|r: TechCategoriesItem| r.category_id)
}

/// Collects the technical categories that are open or closed for an item.
pub fn collect_tech_ids(
    rows: &Vec<TechCategoriesItem>,
    item: i32,
    kind: i16,
    is_active: i16,
) -> (out: Vec<i32>)
    ensures
        out@ == tech_ids_of(rows@, item, kind, is_active),
{
    let ghost pred = |r: TechCategoriesItem| r.item_id == item && r.types == kind && r.is_active == is_active;
    let ghost pick = |r: TechCategoriesItem| r.category_id;
    let mut out: Vec<i32> = Vec::new();
    let mut i: usize = 0;
    assert(rows@.take(0).filter(pred).map_values(pick) =~= out@);
    while i < rows.len()
        invariant
            i <= rows.len(),
            pred == |r: TechCategoriesItem| r.item_id == item && r.types == kind && r.is_active == is_active,
            pick == |r: TechCategoriesItem| r.category_id,
            out@ == rows@.take(i as int).filter(pred).map_values(pick),
        decreases rows.len() - i,
    {
        proof {
            assert(rows@.take(i + 1) =~= rows@.take(i as int).push(rows@[i as int]));
            Seq::lemma_filter_push(rows@.take(i as int), rows@[i as int], pred);
        }
        let r: &TechCategoriesItem = &rows[i];
        if r.item_id == item && r.types == kind && r.is_active == is_active {
            out.push(r.category_id);
            assert(out@ =~= rows@.take(i + 1).filter(pred).map_values(pick));
        }
        i += 1;
    }
    assert(rows@.take(rows.len() as int) =~= rows@);
    out
}

/// The technical categories whose id is among `ids`, in the order of the table.
pub open spec fn tech_among(rows: Seq<TechCategories>, ids: Seq<i32>) -> Seq<TechCategories> {
    rows.filter(|r: TechCategories| ids.contains(r.id)).map_values(|r: TechCategories| r)
}

/// Collects the technical categories whose id is among `ids`.
pub fn collect_tech(rows: &Vec<TechCategories>, ids: &Vec<i32>) -> (out: Vec<TechCategories>)
    ensures
        out@ == tech_among(rows@, ids@),
{
    let ghost pred = |r: TechCategories| ids@.contains(r.id);
    let ghost pick = |r: TechCategories| r;
    let mut out: Vec<TechCategories> = Vec::new();
    let mut i: usize = 0;
    assert(rows@.take(0).filter(pred).map_values(pick) =~= out@);
    while i < rows.len()
        invariant
            i <= rows.len(),
            pred == |r: TechCategories| ids@.contains(r.id),
            pick == |r: TechCategories| r,
            out@ == rows@.take(i as int).filter(pred).map_values(pick),
        decreases rows.len() - i,
    {
        proof {
            assert(rows@.take(i + 1) =~= rows@.take(i as int).push(rows@[i as int]));
            Seq::lemma_filter_push(rows@.take(i as int), rows@[i as int], pred);
        }
        let r: &TechCategories = &rows[i];
        if contains_id(ids, r.id) {
            out.push(r.clone());
            assert(out@ =~= rows@.take(i + 1).filter(pred).map_values(pick));
        }
        i += 1;
    }
    assert(rows@.take(rows.len() as int) =~= rows@);
    out
}

/// The technical categories of one level, in the order of the table.
pub open spec fn tech_of_level(rows: Seq<TechCategories>, level: i16) -> Seq<TechCategories> {
    rows.filter(|r: TechCategories| r.level == level).map_values(|r: TechCategories| r)
}

/// Collects the technical categories of one level.
pub fn collect_tech_of_level(rows: &Vec<TechCategories>, level: i16) -> (out: Vec<TechCategories>)
    ensures
        out@ == tech_of_level(rows@, level),
{
    let ghost pred = |r: TechCategories| r.level == level;
    let ghost pick = |r: TechCategories| r;
    let mut out: Vec<TechCategories> = Vec::new();
    let mut i: usize = 0;
    assert(rows@.take(0).filter(pred).map_values(pick) =~= out@);
    while i < rows.len()
        invariant
            i <= rows.len(),
            pred == |r: TechCategories| r.level == level,
            pick == |r: TechCategories| r,
            out@ == rows@.take(i as int).filter(pred).map_values(pick),
        decreases rows.len() - i,
    {
        proof {
            assert(rows@.take(i + 1) =~= rows@.take(i as int).push(rows@[i as int]));
            Seq::lemma_filter_push(rows@.take(i as int), rows@[i as int], pred);
        }
        let r: &TechCategories = &rows[i];
        if r.level == level {
            out.push(r.clone());
            assert(out@ =~= rows@.take(i + 1).filter(pred).map_values(pick));
        }
        i += 1;
    }
    assert(rows@.take(rows.len() as int) =~= rows@);
    out
}

/// The visit records of one visitor, in the order of the table.
pub open spec fn stats_of(rows: Seq<CookieStat>, user_id: i32) -> Seq<CookieStat> {
    rows.filter(|r: CookieStat| r.user_id == user_id).map_values(|r: CookieStat| r)
}

/// Collects the visit records of one visitor.
pub fn collect_stats_of(rows: &Vec<CookieStat>, user_id: i32) -> (out: Vec<CookieStat>)
    ensures
        out@ == stats_of(rows@, user_id),
{
    let ghost pred = |r: CookieStat| r.user_id == user_id;
    let ghost pick = |r: CookieStat| r;
    let mut out: Vec<CookieStat> = Vec::new();
    let mut i: usize = 0;
    assert(rows@.take(0).filter(pred).map_values(pick) =~= out@);
    while i < rows.len()
        invariant
            i <= rows.len(),
            pred == |r: CookieStat| r.user_id == user_id,
            pick == |r: CookieStat| r,
            out@ == rows@.take(i as int).filter(pred).map_values(pick),
        decreases rows.len() - i,
    {
        proof {
            assert(rows@.take(i + 1) =~= rows@.take(i as int).push(rows@[i as int]));
            Seq::lemma_filter_push(rows@.take(i as int), rows@[i as int], pred);
        }
        let r: &CookieStat = &rows[i];
        if r.user_id == user_id {
            out.push(r.clone());
            assert(out@ =~= rows@.take(i + 1).filter(pred).map_values(pick));
        }
        i += 1;
    }
    assert(rows@.take(rows.len() as int) =~= rows@);
    out
}

/// The content blocks of an item, in the order of the table.
pub open spec fn contents_of(rows: Seq<ItemContent>, item: i32) -> Seq<ItemContent> {
    rows.filter(|r: ItemContent| r.item_id == item).map_values(|r: ItemContent| r)
}

/// Collects the content blocks of an item.
pub fn collect_contents_of(rows: &Vec<ItemContent>, item: i32) -> (out: Vec<ItemContent>)
    ensures
        out@ == contents_of(rows@, item),
{
    let ghost pred = |r: ItemContent| r.item_id == item;
    let ghost pick = |r: ItemContent| r;
    let mut out: Vec<ItemContent> = Vec::new();
    let mut i: usize = 0;
    assert(rows@.take(0).filter(pred).map_values(pick) =~= out@);
    while i < rows.len()
        invariant
            i <= rows.len(),
            pred == |r: ItemContent| r.item_id == item,
            pick == |r: ItemContent| r,
            out@ == rows@.take(i as int).filter(pred).map_values(pick),
        decreases rows.len() - i,
    {
        proof {
            assert(rows@.take(i + 1) =~= rows@.take(i as int).push(rows@[i as int]));
            Seq::lemma_filter_push(rows@.take(i as int), rows@[i as int], pred);
        }
        let r: &ItemContent = &rows[i];
        if r.item_id == item {
            out.push(r.clone());
            assert(out@ =~= rows@.take(i + 1).filter(pred).map_values(pick));
        }
        i += 1;
    }
    assert(rows@.take(rows.len() as int) =~= rows@);
    out
}

/// The ranks that put technical categories in the order of their position,
/// highest first.
pub open spec fn position_desc_ranks(rows: Seq<TechCategories>) -> Seq<i64> {
    rows.map_values(|r: TechCategories| (-(r.position as int)) as i64)
}

/// The ranks that put technical categories in the order of their level,
/// lowest first.
pub open spec fn level_ranks(rows: Seq<TechCategories>) -> Seq<i64> {
    rows.map_values(|r: TechCategories| r.level as i64)
}

/// Computes the ranks by position, highest first.
pub fn ranks_by_position_desc(rows: &Vec<TechCategories>) -> (ranks: Vec<i64>)
    ensures
        ranks@ == position_desc_ranks(rows@),
{
    let mut ranks: Vec<i64> = Vec::new();
    let mut i: usize = 0;
    while i < rows.len()
        invariant
            i <= rows.len(),
            ranks.len() == i,
            forall|j: int| 0 <= j < i ==> ranks@[j] == (-(rows@[j].position as int)) as i64,
        decreases rows.len() - i,
    {
        ranks.push(0 - rows[i].position as i64);
        i += 1;
    }
    assert(ranks@ =~= position_desc_ranks(rows@));
    ranks
}

/// Computes the ranks by level, lowest first.
pub fn ranks_by_level(rows: &Vec<TechCategories>) -> (ranks: Vec<i64>)
    ensures
        ranks@ == level_ranks(rows@),
{
    let mut ranks: Vec<i64> = Vec::new();
    let mut i: usize = 0;
    while i < rows.len()
        invariant
            i <= rows.len(),
            ranks.len() == i,
            forall|j: int| 0 <= j < i ==> ranks@[j] == rows@[j].level as i64,
        decreases rows.len() - i,
    {
        ranks.push(rows[i].level as i64);
        i += 1;
    }
    assert(ranks@ =~= level_ranks(rows@));
    ranks
}

/// The technical categories that are open or closed for an item, highest
/// position first.
pub open spec fn item_tech_categories(c: Catalog, item: i32, kind: i16, is_active: i16) -> Seq<
    TechCategories,
> {
    let rows = tech_among(
        c.tech_categories@,
        tech_ids_of(c.tech_categories_items@, item, kind, is_active),
    );
    in_rank_order(rows, position_desc_ranks(rows))
}

/// The tags of an item, reduced to name and count.
pub open spec fn item_small_tags(c: Catalog, item: i32, kind: i16) -> Seq<SmallTag> {
    small_tags_among(c.tags@, targets_of(c.tags_items@, item, kind))
}

/// Collects the tags of an item, reduced to name and count.
pub fn small_tags_of_item(catalog: &Catalog, item: i32, kind: i16) -> (tags: Vec<SmallTag>)
    ensures
        tags@ == item_small_tags(*catalog, item, kind),
{
    let ids: Vec<i32> = collect_targets(&catalog.tags_items, item, kind);
    collect_small_tags(&catalog.tags, &ids)
}

/// The files of an item, by sort.
pub struct ItemFilesResp {
    pub photos: Vec<SmallFile>,
    pub videos: Vec<SmallFile>,
    pub audios: Vec<SmallFile>,
    pub docs: Vec<SmallFile>,
}

/// The technical categories and service options of an item.
pub struct ItemServeResp {
    pub open_tech_cats: Vec<TechCategories>,
    pub close_tech_cats: Vec<TechCategories>,
    pub serve_ids: Vec<i32>,
}

/// The owner of an item as readers see them.
pub open spec fn owner_of(user: User) -> OwnerResp {
    OwnerResp {
        first_name: user.first_name,
        last_name: user.last_name,
        username: user.username,
        image: user.image,
        perm: user.perm,
    }
}

/// The owner shown where the account is not stored.
pub open spec fn is_nobody(owner: OwnerResp) -> bool {
    &&& owner.first_name@.len() == 0
    &&& owner.last_name@.len() == 0
    &&& owner.username@.len() == 0
    &&& owner.image is None
    &&& owner.perm == 0
}

impl Item {
    /// The owner of an item: the account `id`, or a nameless owner where no
    /// such account is stored.
    pub fn get_owner(catalog: &Catalog, id: i32) -> (owner: OwnerResp)
        ensures
            has_none_with(catalog.users@, id) ==> is_nobody(owner),
            !has_none_with(catalog.users@, id) ==> exists|at: int|
                is_first_with(catalog.users@, id, at) && owner == owner_of(catalog.users@[at]),
    {
        match find_row(&catalog.users, id) {
            Some(at) => {
                let user: &User = &catalog.users[at];
                assert(!has_none_with(catalog.users@, id)) by {
                    assert(catalog.users@[at as int].key() == id);
                }
                OwnerResp {
                    first_name: user.first_name.clone(),
                    last_name: user.last_name.clone(),
                    username: user.username.clone(),
                    image: user.image.clone(),
                    perm: user.perm,
                }
            },
            None => OwnerResp {
                first_name: String::new(),
                last_name: String::new(),
                username: String::new(),
                image: None,
                perm: 0,
            },
        }
    }

    /// The name of the item's kind.
    pub fn get_type(&self) -> (name: String)
        ensures
            name@ == kind_name_text(self.types),
    {
        kind_name(self.types)
    }

    /// The files of the item, by sort: photos, videos, audios, documents.
    pub fn get_files(&self, catalog: &Catalog) -> (files: ItemFilesResp)
        ensures
            files.photos@ == files_of_kind(catalog.files@, self.id, self.types, 1),
            files.videos@ == files_of_kind(catalog.files@, self.id, self.types, 2),
            files.audios@ == files_of_kind(catalog.files@, self.id, self.types, 3),
            files.docs@ == files_of_kind(catalog.files@, self.id, self.types, 4),
    {
        ItemFilesResp {
            photos: collect_files(&catalog.files, self.id, self.types, 1),
            videos: collect_files(&catalog.files, self.id, self.types, 2),
            audios: collect_files(&catalog.files, self.id, self.types, 3),
            docs: collect_files(&catalog.files, self.id, self.types, 4),
        }
    }

    /// The ids of the item's images.
    pub fn get_images_ids(&self, catalog: &Catalog) -> (ids: Vec<i32>)
        ensures
            ids@ == image_ids(catalog.files@, self.id),
    {
        collect_image_ids(&catalog.files, self.id)
    }

    /// The categories of the item, reduced to name, slug and count.
    pub fn get_categories(&self, catalog: &Catalog) -> (result: Result<Vec<SmallCat>, Error>)
        ensures
            result matches Ok(cats) && cats@ == small_cats_among(
                catalog.categories@,
                targets_of(catalog.category@, self.id, self.types),
            ),
    {
        let ids: Vec<i32> = collect_targets(&catalog.category, self.id, self.types);
        Ok(collect_small_cats(&catalog.categories, &ids))
    }

    /// The categories of the item.
    pub fn get_categories_obj(&self, catalog: &Catalog) -> (result: Result<Vec<Categories>, Error>)
        ensures
            result matches Ok(cats) && cats@ == cats_among(
                catalog.categories@,
                targets_of(catalog.category@, self.id, self.types),
            ),
    {
        let ids: Vec<i32> = collect_targets(&catalog.category, self.id, self.types);
        Ok(collect_categories(&catalog.categories, &ids))
    }

    /// The tags of the item, reduced to name and count.
    pub fn get_tags(&self, catalog: &Catalog) -> (result: Result<Vec<SmallTag>, Error>)
        ensures
            result matches Ok(tags) && tags@ == item_small_tags(*catalog, self.id, self.types),
    {
        Ok(small_tags_of_item(catalog, self.id, self.types))
    }

    /// The tags of the item.
    pub fn get_tags_obj(&self, catalog: &Catalog) -> (result: Result<Vec<Tag>, Error>)
        ensures
            result matches Ok(tags) && tags@ == tags_among(
                catalog.tags@,
                targets_of(catalog.tags_items@, self.id, self.types),
            ),
    {
        let ids: Vec<i32> = collect_targets(&catalog.tags_items, self.id, self.types);
        Ok(collect_tags(&catalog.tags, &ids))
    }

    /// The ids of the item's service options.
    pub fn get_serves_ids(&self, catalog: &Catalog) -> (ids: Vec<i32>)
        ensures
            ids@ == targets_of(catalog.serve_items@, self.id, self.types),
    {
        collect_targets(&catalog.serve_items, self.id, self.types)
    }

    /// The item's service options.
    pub fn get_serves(&self, catalog: &Catalog) -> (serves: Vec<Serve>)
        ensures
            serves@ == serves_among(
                catalog.serve@,
                targets_of(catalog.serve_items@, self.id, self.types),
            ),
    {
        let ids: Vec<i32> = collect_targets(&catalog.serve_items, self.id, self.types);
        collect_serves(&catalog.serve, &ids)
    }

    /// The technical categories that are open for the item, highest position
    /// first.
    pub fn get_open_tech_categories(&self, catalog: &Catalog, types: i16) -> (cats: Vec<
        TechCategories,
    >)
        ensures
            cats@ == item_tech_categories(*catalog, self.id, types, 1),
    {
        let ids: Vec<i32> = collect_tech_ids(&catalog.tech_categories_items, self.id, types, 1);
        let rows: Vec<TechCategories> = collect_tech(&catalog.tech_categories, &ids);
        let ranks: Vec<i64> = ranks_by_position_desc(&rows);
        rows_in_rank_order(&rows, &ranks)
    }

    /// The technical categories that are closed for the item, highest
    /// position first.
    pub fn get_close_tech_categories(&self, catalog: &Catalog, types: i16) -> (cats: Vec<
        TechCategories,
    >)
        ensures
            cats@ == item_tech_categories(*catalog, self.id, types, 2),
    {
        let ids: Vec<i32> = collect_tech_ids(&catalog.tech_categories_items, self.id, types, 2);
        let rows: Vec<TechCategories> = collect_tech(&catalog.tech_categories, &ids);
        let ranks: Vec<i64> = ranks_by_position_desc(&rows);
        rows_in_rank_order(&rows, &ranks)
    }

    /// The ids of the technical categories that are closed for the item.
    pub fn get_close_tech_cats_ids(&self, catalog: &Catalog, types: i16) -> (ids: Vec<i32>)
        ensures
            ids@ == tech_ids_of(catalog.tech_categories_items@, self.id, types, 2),
    {
        collect_tech_ids(&catalog.tech_categories_items, self.id, types, 2)
    }
}

impl Message {
    /// The files of the message, by sort: photos, videos, audios, documents.
    pub fn get_files(&self, catalog: &Catalog) -> (files: ItemFilesResp)
        ensures
            files.photos@ == files_of_kind(catalog.files@, self.id, self.types, 11),
            files.videos@ == files_of_kind(catalog.files@, self.id, self.types, 12),
            files.audios@ == files_of_kind(catalog.files@, self.id, self.types, 13),
            files.docs@ == files_of_kind(catalog.files@, self.id, self.types, 14),
    {
        ItemFilesResp {
            photos: collect_files(&catalog.files, self.id, self.types, 11),
            videos: collect_files(&catalog.files, self.id, self.types, 12),
            audios: collect_files(&catalog.files, self.id, self.types, 13),
            docs: collect_files(&catalog.files, self.id, self.types, 14),
        }
    }
}

impl Categories {
    /// The tags that items of one kind carry, reduced to name and count.
    pub fn get_tags(catalog: &Catalog, types: i16) -> (result: Result<Vec<SmallTag>, Error>)
        ensures
            result matches Ok(tags) && tags@ == small_tags_among(
                catalog.tags@,
                kind_tag_ids(catalog.tags_items@, types),
            ),
    {
        let ids: Vec<i32> = collect_kind_tag_ids(&catalog.tags_items, types);
        Ok(collect_small_tags(&catalog.tags, &ids))
    }
}

impl Blog {
    /// The tags of the row, reduced to name and count.
    pub fn get_tags(&self, catalog: &Catalog) -> (tags: Vec<SmallTag>)
        ensures
            tags@ == item_small_tags(*catalog, self.id, 1),
    {
        small_tags_of_item(catalog, self.id, 1)
    }
}

impl Service {
    /// The tags of the row, reduced to name and count.
    pub fn get_tags(&self, catalog: &Catalog) -> (tags: Vec<SmallTag>)
        ensures
            tags@ == item_small_tags(*catalog, self.id, 2),
    {
        small_tags_of_item(catalog, self.id, 2)
    }
}

impl Store {
    /// The tags of the row, reduced to name and count.
    pub fn get_tags(&self, catalog: &Catalog) -> (tags: Vec<SmallTag>)
        ensures
            tags@ == item_small_tags(*catalog, self.id, 3),
    {
        small_tags_of_item(catalog, self.id, 3)
    }
}

impl Wiki {
    /// The tags of the row, reduced to name and count.
    pub fn get_tags(&self, catalog: &Catalog) -> (tags: Vec<SmallTag>)
        ensures
            tags@ == item_small_tags(*catalog, self.id, 4),
    {
        small_tags_of_item(catalog, self.id, 4)
    }
}

impl Work {
    /// The tags of the row, reduced to name and count.
    pub fn get_tags(&self, catalog: &Catalog) -> (tags: Vec<SmallTag>)
        ensures
            tags@ == item_small_tags(*catalog, self.id, 5),
    {
        small_tags_of_item(catalog, self.id, 5)
    }
}

impl Help {
    /// The tags of the row, reduced to name and count.
    pub fn get_tags(&self, catalog: &Catalog) -> (tags: Vec<SmallTag>)
        ensures
            tags@ == item_small_tags(*catalog, self.id, 6),
    {
        small_tags_of_item(catalog, self.id, 6)
    }
}

impl Help {
    /// The first category of the help article, reduced to name, slug and
    /// count.
    pub fn get_category(&self, catalog: &Catalog) -> (result: Result<SmallCat, Error>)
        ensures
            match result {
                Ok(cat) => {
                    let ids = targets_of(catalog.category@, self.id, 6);
                    &&& ids.len() > 0
                    &&& exists|at: int|
                        is_first_with(catalog.categories@, ids[0], at) && cat == small_cat_of(
                            catalog.categories@[at],
                        )
                },
                Err(e) => {
                    let ids = targets_of(catalog.category@, self.id, 6);
                    &&& e == Error::NotFound(Missing::Category)
                    &&& ids.len() == 0 || has_none_with(catalog.categories@, ids[0])
                },
            },
    {
        let ids: Vec<i32> = collect_targets(&catalog.category, self.id, 6);
        if ids.len() == 0 {
            return Err(Error::NotFound(Missing::Category));
        }
        match find_row(&catalog.categories, ids[0]) {
            Some(at) => Ok(to_small_cat(&catalog.categories[at])),
            None => Err(Error::NotFound(Missing::Category)),
        }
    }
}

impl Tag {
    /// One page of all tags, reduced to name and count, and the number of
    /// the next page or zero.
    pub fn get_tags_list(catalog: &Catalog, page: i32, limit: i32) -> (result: (Vec<SmallTag>, i32))
        requires
            page < i32::MAX,
        ensures
            result.0@ == page_rows(all_small_tags(catalog.tags@), page as int, limit as int),
            result.1 == next_page_number(all_small_tags(catalog.tags@), page as int, limit as int),
    {
        let all: Vec<SmallTag> = collect_all_small_tags(&catalog.tags);
        let (offset, probe_at) = probe(page, limit);
        let (start, end) = window_bounds(all.len(), offset, limit as i64);
        let (probe_start, probe_end) = window_bounds(all.len(), probe_at, 1);
        let mut out: Vec<SmallTag> = Vec::new();
        let mut k: usize = start;
        while k < end
            invariant
                start <= k <= end <= all.len(),
                out@ == all@.subrange(start as int, k as int),
            decreases end - k,
        {
            out.push(all[k].clone());
            assert(out@ =~= all@.subrange(start as int, k + 1));
            k += 1;
        }
        (out, next_page(page, probe_end - probe_start))
    }

    /// The number of tags.
    pub fn get_tags_count(catalog: &Catalog) -> (count: usize)
        ensures
            count == catalog.tags@.len(),
    {
        catalog.tags.len()
    }
}

impl Feedback {
    /// One page of the visitors' messages, and the number of the next page
    /// or zero.
    pub fn get_list(catalog: &Catalog, page: i32, limit: i32) -> (result: Result<
        (Vec<Feedback>, i32),
        Error,
    >)
        requires
            page < i32::MAX,
        ensures
            result matches Ok(found) && found.0@ == page_rows(
                catalog.feedbacks@,
                page as int,
                limit as int,
            ) && found.1 == next_page_number(catalog.feedbacks@, page as int, limit as int),
    {
        Ok(rows_page(&catalog.feedbacks, page, limit))
    }
}

impl CookieStat {
    /// One page of the visit records of a visitor, and the number of the
    /// next page or zero.
    pub fn get_stat_list(catalog: &Catalog, user_id: i32, page: i32, limit: i32) -> (result: Result<
        (Vec<CookieStat>, i32),
        Error,
    >)
        requires
            page < i32::MAX,
        ensures
            result matches Ok(found) && found.0@ == page_rows(
                stats_of(catalog.cookie_stats@, user_id),
                page as int,
                limit as int,
            ) && found.1 == next_page_number(
                stats_of(catalog.cookie_stats@, user_id),
                page as int,
                limit as int,
            ),
    {
        let own: Vec<CookieStat> = collect_stats_of(&catalog.cookie_stats, user_id);
        Ok(rows_page(&own, page, limit))
    }
}

impl CookieUser {
    /// One page of the visitors, and the number of the next page or zero.
    pub fn get_users_list(
        catalog: &Catalog,
        page: i32,
        limit: i32,
    ) -> (result: (Vec<CookieUser>, i32))
        requires
            page < i32::MAX,
        ensures
            result.0@ == page_rows(catalog.cookie_users@, page as int, limit as int),
            result.1 == next_page_number(catalog.cookie_users@, page as int, limit as int),
    {
        rows_page(&catalog.cookie_users, page, limit)
    }
}

} // verus!
