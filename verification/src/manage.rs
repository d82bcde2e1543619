//! Categories, tags, files and messages of visitors: creating, editing and deleting.

use vstd::prelude::*;
use vstd::string::StrSliceExecFns;
use crate::catalog::{
    Catalog, Keyed, Table, same_beside, locate, fresh_id, has_none_with, max_key, place_of,
    lemma_max_key_bounds,
};
use crate::counter::keys_left;
use crate::errors::{Error, Missing, Denial, Field, Clash};
use crate::items::{DeleteItemData, token_ok, token_text, request_error, check_request};
use crate::models::{Categories, Tag, TagItems, File, Feedback, Item};
use crate::requests::{Actor, may_change};
use crate::serve::{CategoriesForm, can_change, Owned};
use crate::text::{contains_text, has_infix};

verus! {

/// The fields of the form with which files are attached to an item.
pub struct FilesForm {
    pub token: String,
    pub id: i32,
    pub types: i16,
    pub item_types: i16,
    pub files: Vec<String>,
}

/// The fields of the form with which a visitor leaves a message.
pub struct FeedbackForm {
    pub token: String,
    pub username: String,
    pub email: String,
    pub message: String,
}

/// The category that a form creates.
pub open spec fn new_category(id: i32, user_id: i32, form: CategoriesForm) -> Categories {
    Categories {
        id,
        name: form.name,
        user_id,
        description: Some(form.description),
        position: form.position,
        image: Some(form.image),
        count: 0,
        view: 0,
        seconds: 0,
        types: form.types,
        slug: form.slug,
    }
}

/// A category after a form has edited it.
pub open spec fn edited_category(row: Categories, form: CategoriesForm) -> Categories {
    Categories {
        name: form.name,
        description: Some(form.description),
        position: form.position,
        image: Some(form.image),
        slug: form.slug,
        ..row
    }
}

/// The tag that a form creates.
pub open spec fn new_tag(id: i32, actor: Actor, form: CategoriesForm) -> Tag {
    Tag {
        id,
        name: form.name,
        position: form.position,
        count: 0,
        user_id: actor.id,
        view: 0,
        seconds: 0,
    }
}

/// The file table with one new row for each path, under ids that follow
/// the greatest id in the table.
pub open spec fn with_files(
    files: Seq<File>,
    user_id: i32,
    item: i32,
    kind: i16,
    sort: i16,
    paths: Seq<String>,
) -> Seq<File> {
    files + Seq::new(
        paths.len(),
        |k: int|
            File {
                id: (max_key(files) + 1 + k) as i32,
                user_id,
                item_id: item,
                item_types: kind,
                types: sort,
                src: paths[k],
                description: None,
                position: 0,
            },
    )
}

/// Appends one file row for each path.
pub fn append_files(
    files: &mut Vec<File>,
    user_id: i32,
    item: i32,
    kind: i16,
    sort: i16,
    paths: &Vec<String>,
)
    requires
        max_key(old(files)@) + paths.len() <= i32::MAX,
    ensures
        final(files)@ == with_files(old(files)@, user_id, item, kind, sort, paths@),
{
    let ghost before = files@;
    proof {
        lemma_max_key_bounds(before);
    }
    let first: i32 = match fresh_id(files) {
        Some(id) => id,
        None => 0,
    };
    let mut k: usize = 0;
    assert(files@ =~= with_files(before, user_id, item, kind, sort, paths@.take(0)));
    while k < paths.len()
        invariant
            k <= paths.len(),
            0 <= max_key(before),
            max_key(before) + paths.len() <= i32::MAX,
            paths.len() > 0 ==> first == max_key(before) + 1,
            files@ == with_files(before, user_id, item, kind, sort, paths@.take(k as int)),
        decreases paths.len() - k,
    {
        let id: i32 = (first as i64 + k as i64) as i32;
        files.push(
            File {
                id,
                user_id,
                item_id: item,
                item_types: kind,
                types: sort,
                src: paths[k].clone(),
                description: None,
                position: 0,
            },
        );
        assert(files@ =~= with_files(before, user_id, item, kind, sort, paths@.take(k + 1)));
        k += 1;
    }
    assert(paths@.take(paths.len() as int) =~= paths@);
}

/// Row `at` is the first item with the id and the kind.
pub open spec fn is_first_item_of(items: Seq<Item>, id: i32, kind: i16, at: int) -> bool {
    &&& 0 <= at < items.len()
    &&& items[at].id == id
    &&& items[at].types == kind
    &&& forall|j: int| 0 <= j < at ==> !((#[trigger] items[j]).id == id && items[j].types == kind)
}

/// No item has the id and the kind.
pub open spec fn no_item_of(items: Seq<Item>, id: i32, kind: i16) -> bool {
    forall|j: int| 0 <= j < items.len() ==> !((#[trigger] items[j]).id == id && items[j].types == kind)
}

/// The place of the first item with the id and the kind.
pub open spec fn item_place_of(items: Seq<Item>, id: i32, kind: i16) -> int {
    choose|at: int| is_first_item_of(items, id, kind, at)
}

/// Finds the first item with the id and the kind.
pub fn find_item_of(items: &Vec<Item>, id: i32, kind: i16) -> (found: Option<usize>)
    ensures
        match found {
            Some(at) => is_first_item_of(items@, id, kind, at as int) && item_place_of(
                items@,
                id,
                kind,
            ) == at && !no_item_of(items@, id, kind),
            None => no_item_of(items@, id, kind),
        },
{
    let mut i: usize = 0;
    while i < items.len()
        invariant
            i <= items.len(),
            forall|j: int|
                0 <= j < i ==> !((#[trigger] items@[j]).id == id && items@[j].types == kind),
        decreases items.len() - i,
    {
        if items[i].id == id && items[i].types == kind {
            proof {
                assert(is_first_item_of(items@, id, kind, i as int));
                let k = item_place_of(items@, id, kind);
                assert(is_first_item_of(items@, id, kind, k));
                if k < i {
                    assert(!(items@[k].id == id && items@[k].types == kind));
                } else if i < k {
                    assert(!(items@[i as int].id == id && items@[i as int].types == kind));
                }
            }
            return Some(i);
        }
        i += 1;
    }
    None
}

/// The number of messages that a visitor has left.
pub open spec fn feedback_count(rows: Seq<Feedback>, user_id: i32) -> nat {
    rows.filter(|f: Feedback| f.user_id == user_id).len()
}

/// Counts the messages that a visitor has left.
pub fn count_feedbacks(rows: &Vec<Feedback>, user_id: i32) -> (n: usize)
    ensures
        n == feedback_count(rows@, user_id),
{
    let ghost pred = |f: Feedback| f.user_id == user_id;
    let mut n: usize = 0;
    let mut i: usize = 0;
    assert(rows@.take(0).filter(pred) =~= Seq::<Feedback>::empty());
    while i < rows.len()
        invariant
            i <= rows.len(),
            pred == |f: Feedback| f.user_id == user_id,
            n == rows@.take(i as int).filter(pred).len(),
            n <= i,
        decreases rows.len() - i,
    {
        proof {
            assert(rows@.take(i + 1) =~= rows@.take(i as int).push(rows@[i as int]));
            Seq::lemma_filter_push(rows@.take(i as int), rows@[i as int], pred);
        }
        if rows[i].user_id == user_id {
            n += 1;
        }
        i += 1;
    }
    assert(rows@.take(rows.len() as int) =~= rows@);
    n
}

/// Why a visitor's message is turned away, if it is: the token is wrong,
/// the visitor is nobody or has left more than five messages already, the
/// message has fewer than thirty characters, or the address has no `@`.
pub open spec fn feedback_error(c: Catalog, user_id: i32, form: FeedbackForm) -> Option<Error> {
    if form.token@ != token_text() || user_id < 1 || feedback_count(c.feedbacks@, user_id) > 5 {
        Some(Error::PermissionDenied(Denial::Forbidden))
    } else if form.message@.len() < 30 || !has_infix(form.email@, "@"@) {
        Some(Error::ValidationFailed(Field::Message))
    } else if max_key(c.feedbacks@) == i32::MAX {
        Some(Error::Conflict(Clash::KeysExhausted))
    } else {
        None
    }
}

/// Why a category cannot be edited with a form, if it cannot.
pub open spec fn edit_category_error(
    c: Catalog,
    user_id: i32,
    form: CategoriesForm,
) -> Option<Error> {
    if user_id < 1 || form.token@ != token_text() {
        Some(Error::PermissionDenied(Denial::Forbidden))
    } else if form.id < 1 {
        Some(Error::ValidationFailed(Field::Id))
    } else if has_none_with(c.categories@, form.id) {
        Some(Error::NotFound(Missing::Category))
    } else if c.categories@[place_of(c.categories@, form.id)].user_id != user_id {
        Some(Error::PermissionDenied(Denial::Forbidden))
    } else {
        None
    }
}

/// Why files cannot be attached with a form, if they cannot.
pub open spec fn create_files_error(c: Catalog, user_id: i32, form: FilesForm) -> Option<Error> {
    if user_id < 1 {
        Some(Error::PermissionDenied(Denial::Forbidden))
    } else if form.id < 1 {
        Some(Error::ValidationFailed(Field::Id))
    } else if form.token@ != token_text() {
        Some(Error::PermissionDenied(Denial::Forbidden))
    } else if no_item_of(c.items@, form.id, form.item_types) {
        Some(Error::NotFound(Missing::Item))
    } else if c.items@[item_place_of(c.items@, form.id, form.item_types)].user_id != user_id {
        Some(Error::PermissionDenied(Denial::Forbidden))
    } else if max_key(c.files@) + form.files@.len() > i32::MAX {
        Some(Error::Conflict(Clash::KeysExhausted))
    } else {
        None
    }
}

/// Why a file cannot be edited with a form, if it cannot.
pub open spec fn edit_file_error(c: Catalog, user_id: i32, form: CategoriesForm) -> Option<Error> {
    if user_id < 1 {
        Some(Error::PermissionDenied(Denial::Forbidden))
    } else if form.id < 1 {
        Some(Error::ValidationFailed(Field::Id))
    } else if form.token@ != token_text() {
        Some(Error::PermissionDenied(Denial::Forbidden))
    } else if has_none_with(c.files@, form.id) {
        Some(Error::NotFound(Missing::File))
    } else if c.files@[place_of(c.files@, form.id)].user_id != user_id {
        Some(Error::PermissionDenied(Denial::Forbidden))
    } else {
        None
    }
}

/// Why the row that a request names cannot be deleted by `user_id`, if it
/// cannot. A missing row is reported as `missing`.
pub open spec fn delete_own_error<R: Owned>(
    rows: Seq<R>,
    user_id: i32,
    data: DeleteItemData,
    missing: Missing,
) -> Option<Error> {
    if request_error(user_id, data) is Some {
        request_error(user_id, data)
    } else if has_none_with(rows, data.id->0) {
        Some(Error::NotFound(missing))
    } else if rows[place_of(rows, data.id->0)].owner() != user_id {
        Some(Error::PermissionDenied(Denial::Forbidden))
    } else {
        None
    }
}

impl Owned for Categories {
    open spec fn owner(&self) -> i32 {
        self.user_id
    }
}

impl Owned for File {
    open spec fn owner(&self) -> i32 {
        self.user_id
    }
}

impl Owned for Tag {
    open spec fn owner(&self) -> i32 {
        self.user_id
    }
}

/// Why a tag cannot be edited with a form, if it cannot.
pub open spec fn edit_tag_error(c: Catalog, actor: Actor, form: CategoriesForm) -> Option<Error> {
    if actor.id < 1 {
        Some(Error::PermissionDenied(Denial::Forbidden))
    } else if form.id < 1 {
        Some(Error::ValidationFailed(Field::Id))
    } else if form.token@ != token_text() {
        Some(Error::PermissionDenied(Denial::Forbidden))
    } else if has_none_with(c.tags@, form.id) {
        Some(Error::NotFound(Missing::Tag))
    } else if !may_change(actor, c.tags@[place_of(c.tags@, form.id)].user_id) {
        Some(Error::PermissionDenied(Denial::Forbidden))
    } else {
        None
    }
}

/// Why a tag cannot be deleted, if it cannot.
pub open spec fn delete_tag_error(c: Catalog, actor: Actor, data: DeleteItemData) -> Option<Error> {
    if request_error(actor.id, data) is Some {
        request_error(actor.id, data)
    } else if has_none_with(c.tags@, data.id->0) {
        Some(Error::NotFound(Missing::Tag))
    } else if !may_change(actor, c.tags@[place_of(c.tags@, data.id->0)].user_id) {
        Some(Error::PermissionDenied(Denial::Forbidden))
    } else {
        None
    }
}

/// The tag links without those of one tag.
pub open spec fn without_tag(links: Seq<TagItems>, tag_id: i32) -> Seq<TagItems> {
    links.filter(|l: TagItems| l.tag_id != tag_id)
}

/// Removes the links of one tag.
pub fn links_without_tag(links: &Vec<TagItems>, tag_id: i32) -> (kept: Vec<TagItems>)
    ensures
        kept@ == without_tag(links@, tag_id),
{
    let ghost pred = |l: TagItems| l.tag_id != tag_id;
    let mut kept: Vec<TagItems> = Vec::new();
    let mut i: usize = 0;
    assert(links@.take(0).filter(pred) =~= kept@);
    while i < links.len()
        invariant
            i <= links.len(),
            pred == |l: TagItems| l.tag_id != tag_id,
            kept@ == links@.take(i as int).filter(pred),
        decreases links.len() - i,
    {
        proof {
            assert(links@.take(i + 1) =~= links@.take(i as int).push(links@[i as int]));
            Seq::lemma_filter_push(links@.take(i as int), links@[i as int], pred);
        }
        if links[i].tag_id != tag_id {
            kept.push(links[i].clone());
        }
        i += 1;
    }
    assert(links@.take(links.len() as int) =~= links@);
    kept
}

impl Catalog {
    /// Creates a category of the form's kind, owned by `user_id`, with no
    /// items counted.
    pub fn create_category(&mut self, user_id: i32, form: &CategoriesForm) -> (result: Result<
        i16,
        Error,
    >)
        ensures
            if user_id < 1 || form.token@ != token_text() {
                result == Err::<i16, Error>(Error::PermissionDenied(Denial::Forbidden)) && *final(self) == *old(self)
            } else if max_key(old(self).categories@) == i32::MAX {
                result == Err::<i16, Error>(Error::Conflict(Clash::KeysExhausted)) && *final(self)
                    == *old(self)
            } else {
                &&& result == Ok::<i16, Error>(1)
                &&& final(self).categories@ == old(self).categories@.push(
                    new_category((max_key(old(self).categories@) + 1) as i32, user_id, *form),
                )
                &&& same_beside(*old(self), *final(self), set![Table::Categories])
            },
    {
        if user_id < 1 || !token_ok(form.token.as_str()) {
            return Err(Error::PermissionDenied(Denial::Forbidden));
        }
        let id: i32 = match fresh_id(&self.categories) {
            Some(id) => id,
            None => {
                return Err(Error::Conflict(Clash::KeysExhausted));
            },
        };
        self.categories.push(
            Categories {
                id,
                name: form.name.clone(),
                user_id,
                description: Some(form.description.clone()),
                position: form.position,
                image: Some(form.image.clone()),
                count: 0,
                view: 0,
                seconds: 0,
                types: form.types,
                slug: form.slug.clone(),
            },
        );
        Ok(1)
    }

    /// Edits a category with a form, at the request of its owner: replaces
    /// its name, description, position, image and slug.
    pub fn edit_category(
        &mut self,
        user_id: i32,
        form: &CategoriesForm,
    ) -> (result: Result<i16, Error>)
        ensures
            match edit_category_error(*old(self), user_id, *form) {
                Some(e) => result == Err::<i16, Error>(e) && *final(self) == *old(self),
                None => {
                    let at = place_of(old(self).categories@, form.id);
                    &&& result == Ok::<i16, Error>(1)
                    &&& final(self).categories@ == old(self).categories@.update(
                        at,
                        edited_category(old(self).categories@[at], *form),
                    )
                    &&& same_beside(*old(self), *final(self), set![Table::Categories])
                },
            },
    {
        if user_id < 1 || !token_ok(form.token.as_str()) {
            return Err(Error::PermissionDenied(Denial::Forbidden));
        }
        if form.id < 1 {
            return Err(Error::ValidationFailed(Field::Id));
        }
        let at: usize = match locate(&self.categories, form.id) {
            Some(at) => at,
            None => {
                return Err(Error::NotFound(Missing::Category));
            },
        };
        if self.categories[at].user_id != user_id {
            return Err(Error::PermissionDenied(Denial::Forbidden));
        }
        self.categories[at].name = form.name.clone();
        self.categories[at].description = Some(form.description.clone());
        self.categories[at].position = form.position;
        self.categories[at].image = Some(form.image.clone());
        self.categories[at].slug = form.slug.clone();
        assert(self.categories@ =~= old(self).categories@.update(
            at as int,
            edited_category(old(self).categories@[at as int], *form),
        ));
        Ok(1)
    }

    /// Deletes a category at the request of its owner.
    pub fn delete_category(&mut self, user_id: i32, data: &DeleteItemData) -> (result: Result<
        i16,
        Error,
    >)
        ensures
            match delete_own_error(old(self).categories@, user_id, *data, Missing::Category) {
                Some(e) => result == Err::<i16, Error>(e) && *final(self) == *old(self),
                None => {
                    &&& result == Ok::<i16, Error>(1)
                    &&& final(self).categories@ == old(self).categories@.remove(
                        place_of(old(self).categories@, data.id->0),
                    )
                    &&& same_beside(*old(self), *final(self), set![Table::Categories])
                },
            },
    {
        let id: i32 = match check_request(user_id, data) {
            Ok(id) => id,
            Err(e) => {
                return Err(e);
            },
        };
        let at: usize = match locate(&self.categories, id) {
            Some(at) => at,
            None => {
                return Err(Error::NotFound(Missing::Category));
            },
        };
        if self.categories[at].user_id != user_id {
            return Err(Error::PermissionDenied(Denial::Forbidden));
        }
        self.categories.remove(at);
        Ok(1)
    }

    /// Attaches files to an item at the request of its owner: one file row
    /// for each path of the form.
    pub fn create_files(&mut self, user_id: i32, form: &FilesForm) -> (result: Result<i16, Error>)
        ensures
            match create_files_error(*old(self), user_id, *form) {
                Some(e) => result == Err::<i16, Error>(e) && *final(self) == *old(self),
                None => {
                    &&& result == Ok::<i16, Error>(1)
                    &&& final(self).files@ == with_files(
                        old(self).files@,
                        user_id,
                        form.id,
                        form.item_types,
                        form.types,
                        form.files@,
                    )
                    &&& same_beside(*old(self), *final(self), set![Table::Files])
                },
            },
    {
        if user_id < 1 {
            return Err(Error::PermissionDenied(Denial::Forbidden));
        }
        if form.id < 1 {
            return Err(Error::ValidationFailed(Field::Id));
        }
        if !token_ok(form.token.as_str()) {
            return Err(Error::PermissionDenied(Denial::Forbidden));
        }
        let at: usize = match find_item_of(&self.items, form.id, form.item_types) {
            Some(at) => at,
            None => {
                return Err(Error::NotFound(Missing::Item));
            },
        };
        if self.items[at].user_id != user_id {
            return Err(Error::PermissionDenied(Denial::Forbidden));
        }
        if !keys_left(&self.files, form.files.len()) {
            return Err(Error::Conflict(Clash::KeysExhausted));
        }
        append_files(&mut self.files, user_id, form.id, form.item_types, form.types, &form.files);
        Ok(1)
    }

    /// Edits a file at the request of its owner: replaces its description
    /// and position.
    pub fn edit_file(&mut self, user_id: i32, form: &CategoriesForm) -> (result: Result<i16, Error>)
        ensures
            match edit_file_error(*old(self), user_id, *form) {
                Some(e) => result == Err::<i16, Error>(e) && *final(self) == *old(self),
                None => {
                    let at = place_of(old(self).files@, form.id);
                    &&& result == Ok::<i16, Error>(1)
                    &&& final(self).files@ == old(self).files@.update(
                        at,
                        File {
                            description: Some(form.description),
                            position: form.position,
                            ..old(self).files@[at]
                        },
                    )
                    &&& same_beside(*old(self), *final(self), set![Table::Files])
                },
            },
    {
        if user_id < 1 {
            return Err(Error::PermissionDenied(Denial::Forbidden));
        }
        if form.id < 1 {
            return Err(Error::ValidationFailed(Field::Id));
        }
        if !token_ok(form.token.as_str()) {
            return Err(Error::PermissionDenied(Denial::Forbidden));
        }
        let at: usize = match locate(&self.files, form.id) {
            Some(at) => at,
            None => {
                return Err(Error::NotFound(Missing::File));
            },
        };
        if self.files[at].user_id != user_id {
            return Err(Error::PermissionDenied(Denial::Forbidden));
        }
        self.files[at].description = Some(form.description.clone());
        self.files[at].position = form.position;
        assert(self.files@ =~= old(self).files@.update(
            at as int,
            File {
                description: Some(form.description),
                position: form.position,
                ..old(self).files@[at as int]
            },
        ));
        Ok(1)
    }

    /// Deletes a file row at the request of its owner. Returns the path of
    /// the file, which the caller has to remove from the disk.
    pub fn delete_file(&mut self, user_id: i32, data: &DeleteItemData) -> (result: Result<
        String,
        Error,
    >)
        ensures
            match delete_own_error(old(self).files@, user_id, *data, Missing::File) {
                Some(e) => result == Err::<String, Error>(e) && *final(self) == *old(self),
                None => {
                    let at = place_of(old(self).files@, data.id->0);
                    &&& result == Ok::<String, Error>(old(self).files@[at].src)
                    &&& final(self).files@ == old(self).files@.remove(at)
                    &&& same_beside(*old(self), *final(self), set![Table::Files])
                },
            },
    {
        let id: i32 = match check_request(user_id, data) {
            Ok(id) => id,
            Err(e) => {
                return Err(e);
            },
        };
        let at: usize = match locate(&self.files, id) {
            Some(at) => at,
            None => {
                return Err(Error::NotFound(Missing::File));
            },
        };
        if self.files[at].user_id != user_id {
            return Err(Error::PermissionDenied(Denial::Forbidden));
        }
        let path: String = self.files[at].src.clone();
        self.files.remove(at);
        Ok(path)
    }

    /// Stores the message of a visitor.
    pub fn create_feedback(
        &mut self,
        user_id: i32,
        form: &FeedbackForm,
    ) -> (result: Result<i16, Error>)
        ensures
            match feedback_error(*old(self), user_id, *form) {
                Some(e) => result == Err::<i16, Error>(e) && *final(self) == *old(self),
                None => {
                    &&& result == Ok::<i16, Error>(1)
                    &&& final(self).feedbacks@ == old(self).feedbacks@.push(
                        Feedback {
                            id: (max_key(old(self).feedbacks@) + 1) as i32,
                            user_id,
                            username: form.username,
                            email: form.email,
                            message: form.message,
                        },
                    )
                    &&& same_beside(*old(self), *final(self), set![Table::Feedbacks])
                },
            },
    {
        if !token_ok(form.token.as_str()) || user_id < 1 {
            return Err(Error::PermissionDenied(Denial::Forbidden));
        }
        if count_feedbacks(&self.feedbacks, user_id) > 5 {
            return Err(Error::PermissionDenied(Denial::Forbidden));
        }
        if form.message.as_str().unicode_len() < 30 || !contains_text(form.email.as_str(), "@") {
            return Err(Error::ValidationFailed(Field::Message));
        }
        let id: i32 = match fresh_id(&self.feedbacks) {
            Some(id) => id,
            None => {
                return Err(Error::Conflict(Clash::KeysExhausted));
            },
        };
        self.feedbacks.push(
            Feedback {
                id,
                user_id,
                username: form.username.clone(),
                email: form.email.clone(),
                message: form.message.clone(),
            },
        );
        Ok(1)
    }

    /// Creates a tag that no item carries yet.
    pub fn create_tag(
        &mut self,
        actor: Actor,
        form: &CategoriesForm,
    ) -> (result: Result<i16, Error>)
        ensures
            if actor.id < 1 || form.token@ != token_text() {
                result == Err::<i16, Error>(Error::PermissionDenied(Denial::Forbidden)) && *final(self) == *old(self)
            } else if max_key(old(self).tags@) == i32::MAX {
                result == Err::<i16, Error>(Error::Conflict(Clash::KeysExhausted)) && *final(self)
                    == *old(self)
            } else {
                &&& result == Ok::<i16, Error>(1)
                &&& final(self).tags@ == old(self).tags@.push(
                    new_tag((max_key(old(self).tags@) + 1) as i32, actor, *form),
                )
                &&& same_beside(*old(self), *final(self), set![Table::Tags])
            },
    {
        if actor.id < 1 || !token_ok(form.token.as_str()) {
            return Err(Error::PermissionDenied(Denial::Forbidden));
        }
        let id: i32 = match fresh_id(&self.tags) {
            Some(id) => id,
            None => {
                return Err(Error::Conflict(Clash::KeysExhausted));
            },
        };
        self.tags.push(
            Tag {
                id,
                name: form.name.clone(),
                position: form.position,
                count: 0,
                user_id: actor.id,
                view: 0,
                seconds: 0,
            },
        );
        Ok(1)
    }

    /// Edits a tag at the request of its owner or of an administrator:
    /// replaces its name and position.
    pub fn edit_tag(&mut self, actor: Actor, form: &CategoriesForm) -> (result: Result<i16, Error>)
        ensures
            match edit_tag_error(*old(self), actor, *form) {
                Some(e) => result == Err::<i16, Error>(e) && *final(self) == *old(self),
                None => {
                    let at = place_of(old(self).tags@, form.id);
                    &&& result == Ok::<i16, Error>(1)
                    &&& final(self).tags@ == old(self).tags@.update(
                        at,
                        Tag { name: form.name, position: form.position, ..old(self).tags@[at] },
                    )
                    &&& same_beside(*old(self), *final(self), set![Table::Tags])
                },
            },
    {
        if actor.id < 1 {
            return Err(Error::PermissionDenied(Denial::Forbidden));
        }
        if form.id < 1 {
            return Err(Error::ValidationFailed(Field::Id));
        }
        if !token_ok(form.token.as_str()) {
            return Err(Error::PermissionDenied(Denial::Forbidden));
        }
        let at: usize = match locate(&self.tags, form.id) {
            Some(at) => at,
            None => {
                return Err(Error::NotFound(Missing::Tag));
            },
        };
        if !can_change(actor, self.tags[at].user_id) {
            return Err(Error::PermissionDenied(Denial::Forbidden));
        }
        self.tags[at].name = form.name.clone();
        self.tags[at].position = form.position;
        assert(self.tags@ =~= old(self).tags@.update(
            at as int,
            Tag { name: form.name, position: form.position, ..old(self).tags@[at as int] },
        ));
        Ok(1)
    }

    /// Deletes a tag, with all its links, at the request of its owner or of
    /// an administrator.
    pub fn delete_tag(
        &mut self,
        actor: Actor,
        data: &DeleteItemData,
    ) -> (result: Result<i16, Error>)
        ensures
            match delete_tag_error(*old(self), actor, *data) {
                Some(e) => result == Err::<i16, Error>(e) && *final(self) == *old(self),
                None => {
                    &&& result == Ok::<i16, Error>(1)
                    &&& final(self).tags@ == old(self).tags@.remove(
                        place_of(old(self).tags@, data.id->0),
                    )
                    &&& final(self).tags_items@ == without_tag(old(self).tags_items@, data.id->0)
                    &&& same_beside(*old(self), *final(self), set![Table::Tags, Table::TagsItems])
                },
            },
    {
        let id: i32 = match check_request(actor.id, data) {
            Ok(id) => id,
            Err(e) => {
                return Err(e);
            },
        };
        let at: usize = match locate(&self.tags, id) {
            Some(at) => at,
            None => {
                return Err(Error::NotFound(Missing::Tag));
            },
        };
        if !can_change(actor, self.tags[at].user_id) {
            return Err(Error::PermissionDenied(Denial::Forbidden));
        }
        let kept: Vec<TagItems> = links_without_tag(&self.tags_items, id);
        self.tags_items = kept;
        self.tags.remove(at);
        Ok(1)
    }
}

} // verus!
