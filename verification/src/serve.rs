//! Service options, their categories and technical categories.

use vstd::prelude::*;
use crate::catalog::{
    Catalog, Keyed, Table, same_beside, locate, fresh_id, has_none_with, max_key, place_of,
};
use crate::errors::{Error, Missing, Denial, Field, Clash};
use crate::forms::ServeForm;
use crate::items::{token_ok, token_text};
use crate::models::{Serve, ServeCategories, TechCategories};
use crate::requests::{Actor, may_change};

verus! {

/// The fields of the form with which categories of all sorts are created
/// and edited.
pub struct CategoriesForm {
    pub token: String,
    pub id: i32,
    pub name: String,
    pub description: String,
    pub position: i16,
    pub image: String,
    pub level: i16,
    pub types: i16,
    pub slug: String,
    pub tech_categories: i32,
}

/// The request to delete a service option or one of its categories.
pub struct DeleteServeData {
    pub token: Option<String>,
    pub id: Option<i32>,
}

/// Why a form is turned away before anything is looked up: its sender is
/// nobody, or its token is wrong.
pub open spec fn form_error(actor: Actor, token: Seq<char>) -> Option<Error> {
    if actor.id < 1 || token != token_text() {
        Some(Error::PermissionDenied(Denial::Forbidden))
    } else {
        None
    }
}

/// Why a delete request is turned away before anything is looked up.
pub open spec fn delete_request_error(actor: Actor, data: DeleteServeData) -> Option<Error> {
    if actor.id < 1 {
        Some(Error::PermissionDenied(Denial::NotAuthenticated))
    } else if data.id is None || data.id->0 < 1 {
        Some(Error::ValidationFailed(Field::Id))
    } else if data.token is None || data.token->0@ != token_text() {
        Some(Error::PermissionDenied(Denial::Forbidden))
    } else {
        None
    }
}

/// Checks a delete request and returns the id that it names.
pub fn check_delete_request(actor: Actor, data: &DeleteServeData) -> (result: Result<i32, Error>)
    ensures
        match delete_request_error(actor, *data) {
            Some(e) => result == Err::<i32, Error>(e),
            None => result == Ok::<i32, Error>(data.id->0),
        },
{
    if actor.id < 1 {
        return Err(Error::PermissionDenied(Denial::NotAuthenticated));
    }
    let id: i32 = match data.id {
        Some(id) => id,
        None => {
            return Err(Error::ValidationFailed(Field::Id));
        },
    };
    if id < 1 {
        return Err(Error::ValidationFailed(Field::Id));
    }
    match &data.token {
        Some(token) => {
            if !token_ok(token.as_str()) {
                return Err(Error::PermissionDenied(Denial::Forbidden));
            }
        },
        None => {
            return Err(Error::PermissionDenied(Denial::Forbidden));
        },
    }
    Ok(id)
}

/// Tests whether the actor may change a row of `owner`.
pub fn can_change(actor: Actor, owner: i32) -> (ok: bool)
    ensures
        ok == may_change(actor, owner),
{
    owner == actor.id || actor.perm >= 60
}

/// The technical category that a form creates.
pub open spec fn new_tech_category(id: i32, actor: Actor, form: CategoriesForm) -> TechCategories {
    TechCategories {
        id,
        name: form.name,
        description: Some(form.description),
        position: form.position,
        count: 0,
        level: form.level,
        user_id: actor.id,
        view: 0,
        seconds: 0,
    }
}

/// The category of service options that a form creates.
pub open spec fn new_serve_category(
    id: i32,
    actor: Actor,
    form: CategoriesForm,
) -> ServeCategories {
    ServeCategories {
        id,
        name: form.name,
        description: Some(form.description),
        tech_categories: form.tech_categories,
        position: form.position,
        count: 0,
        default_price: 0,
        user_id: actor.id,
        view: 0,
        seconds: 0,
    }
}

/// The service option that a form creates in a category.
pub open spec fn new_serve(
    id: i32,
    actor: Actor,
    form: ServeForm,
    category: ServeCategories,
) -> Serve {
    Serve {
        id,
        name: form.name,
        description: Some(form.description),
        position: form.position,
        serve_categories: form.serve_categories,
        price: form.price,
        man_hours: form.man_hours,
        is_default: form.is_default,
        user_id: actor.id,
        tech_cat_id: category.tech_categories,
        seconds: 0,
        serve_id: form.serve_id,
        view: 0,
    }
}

/// A service option after a form has edited it.
pub open spec fn edited_serve(serve: Serve, form: ServeForm) -> Serve {
    Serve {
        name: form.name,
        description: Some(form.description),
        position: form.position,
        price: form.price,
        man_hours: form.man_hours,
        is_default: form.is_default,
        serve_id: form.serve_id,
        ..serve
    }
}

/// A category of service options after its count and the sum of its default
/// prices have moved.
pub open spec fn moved(category: ServeCategories, count: int, price: int) -> ServeCategories {
    ServeCategories {
        count: (category.count + count) as i16,
        default_price: (category.default_price + price) as i32,
        ..category
    }
}

/// The category can move so without leaving its columns.
pub open spec fn can_move(category: ServeCategories, count: int, price: int) -> bool {
    &&& i16::MIN <= category.count + count <= i16::MAX
    &&& i32::MIN <= category.default_price + price <= i32::MAX
}

fn fits_move(rows: &Vec<ServeCategories>, at: usize, count: i16, price: i64) -> (ok: bool)
    requires
        at < rows.len(),
        -0x1_0000_0000 <= price <= 0x1_0000_0000,
    ensures
        ok == can_move(rows@[at as int], count as int, price as int),
{
    let n: i32 = rows[at].count as i32 + count as i32;
    let p: i64 = rows[at].default_price as i64 + price;
    !(n < -0x8000 || n > 0x7fff || p < -0x8000_0000 || p > 0x7fff_ffff)
}

fn move_category(rows: &mut Vec<ServeCategories>, at: usize, count: i16, price: i64)
    requires
        at < old(rows).len(),
        can_move(old(rows)@[at as int], count as int, price as int),
    ensures
        final(rows)@ == old(rows)@.update(
            at as int,
            moved(old(rows)@[at as int], count as int, price as int),
        ),
{
    let n: i32 = rows[at].count as i32 + count as i32;
    let p: i64 = rows[at].default_price as i64 + price;
    rows[at].count = n as i16;
    rows[at].default_price = p as i32;
    assert(rows@ =~= old(rows)@.update(
        at as int,
        moved(old(rows)@[at as int], count as int, price as int),
    ));
}

/// What a default option adds to the sum of default prices of its category.
pub open spec fn default_part(serve: Serve) -> int {
    if serve.is_default {
        serve.price as int
    } else {
        0
    }
}

impl Catalog {
    /// Creates a technical category.
    pub fn create_tech_categories(&mut self, actor: Actor, form: &CategoriesForm) -> (result: Result<
        i16,
        Error,
    >)
        ensures
            match form_error(actor, form.token@) {
                Some(e) => result == Err::<i16, Error>(e) && *final(self) == *old(self),
                None => if max_key(old(self).tech_categories@) == i32::MAX {
                    result == Err::<i16, Error>(Error::Conflict(Clash::KeysExhausted)) && *final(self) == *old(self)
                } else {
                    &&& result == Ok::<i16, Error>(1)
                    &&& final(self).tech_categories@ == old(self).tech_categories@.push(
                        new_tech_category(
                            (max_key(old(self).tech_categories@) + 1) as i32,
                            actor,
                            *form,
                        ),
                    )
                    &&& same_beside(*old(self), *final(self), set![Table::TechCategories])
                },
            },
    {
        if actor.id < 1 || !token_ok(form.token.as_str()) {
            return Err(Error::PermissionDenied(Denial::Forbidden));
        }
        let id: i32 = match fresh_id(&self.tech_categories) {
            Some(id) => id,
            None => {
                return Err(Error::Conflict(Clash::KeysExhausted));
            },
        };
        self.tech_categories.push(
            TechCategories {
                id,
                name: form.name.clone(),
                description: Some(form.description.clone()),
                position: form.position,
                count: 0,
                level: form.level,
                user_id: actor.id,
                view: 0,
                seconds: 0,
            },
        );
        Ok(1)
    }

    /// Creates a category of service options.
    pub fn create_serve_categories(&mut self, actor: Actor, form: &CategoriesForm) -> (result: Result<
        i16,
        Error,
    >)
        ensures
            match form_error(actor, form.token@) {
                Some(e) => result == Err::<i16, Error>(e) && *final(self) == *old(self),
                None => if max_key(old(self).serve_categories@) == i32::MAX {
                    result == Err::<i16, Error>(Error::Conflict(Clash::KeysExhausted)) && *final(self) == *old(self)
                } else {
                    &&& result == Ok::<i16, Error>(1)
                    &&& final(self).serve_categories@ == old(self).serve_categories@.push(
                        new_serve_category(
                            (max_key(old(self).serve_categories@) + 1) as i32,
                            actor,
                            *form,
                        ),
                    )
                    &&& same_beside(*old(self), *final(self), set![Table::ServeCategories])
                },
            },
    {
        if actor.id < 1 || !token_ok(form.token.as_str()) {
            return Err(Error::PermissionDenied(Denial::Forbidden));
        }
        let id: i32 = match fresh_id(&self.serve_categories) {
            Some(id) => id,
            None => {
                return Err(Error::Conflict(Clash::KeysExhausted));
            },
        };
        self.serve_categories.push(
            ServeCategories {
                id,
                name: form.name.clone(),
                description: Some(form.description.clone()),
                tech_categories: form.tech_categories,
                position: form.position,
                count: 0,
                default_price: 0,
                user_id: actor.id,
                view: 0,
                seconds: 0,
            },
        );
        Ok(1)
    }

    /// Edits a technical category at the request of its owner or of an
    /// administrator: replaces its name, description, position and level.
    pub fn edit_tech_category(&mut self, actor: Actor, form: &CategoriesForm) -> (result: Result<
        i16,
        Error,
    >)
        ensures
            match edit_error(actor, form.token@, form.id, old(self).tech_categories@) {
                Some(e) => result == Err::<i16, Error>(if e == Error::NotFound(Missing::Item) {
                    Error::NotFound(Missing::TechCategory)
                } else {
                    e
                }) && *final(self) == *old(self),
                None => {
                    &&& result == Ok::<i16, Error>(1)
                    &&& final(self).tech_categories@ == old(self).tech_categories@.update(
                        place_of(old(self).tech_categories@, form.id),
                        TechCategories {
                            name: form.name,
                            description: Some(form.description),
                            position: form.position,
                            level: form.level,
                            ..old(self).tech_categories@[place_of(
                                old(self).tech_categories@,
                                form.id,
                            )]
                        },
                    )
                    &&& same_beside(*old(self), *final(self), set![Table::TechCategories])
                },
            },
    {
        if actor.id < 1 || form.id < 1 || !token_ok(form.token.as_str()) {
            return Err(Error::PermissionDenied(Denial::Forbidden));
        }
        let at: usize = match locate(&self.tech_categories, form.id) {
            Some(at) => at,
            None => {
                return Err(Error::NotFound(Missing::TechCategory));
            },
        };
        if !can_change(actor, self.tech_categories[at].user_id) {
            return Err(Error::PermissionDenied(Denial::Forbidden));
        }
        self.tech_categories[at].name = form.name.clone();
        self.tech_categories[at].description = Some(form.description.clone());
        self.tech_categories[at].position = form.position;
        self.tech_categories[at].level = form.level;
        assert(self.tech_categories@ =~= old(self).tech_categories@.update(
            at as int,
            TechCategories {
                name: form.name,
                description: Some(form.description),
                position: form.position,
                level: form.level,
                ..old(self).tech_categories@[at as int]
            },
        ));
        Ok(1)
    }

    /// Edits a category of service options at the request of its owner or of
    /// an administrator: replaces its name, description and position.
    pub fn edit_serve_category(&mut self, actor: Actor, form: &CategoriesForm) -> (result: Result<
        i16,
        Error,
    >)
        ensures
            match edit_error(actor, form.token@, form.id, old(self).serve_categories@) {
                Some(e) => result == Err::<i16, Error>(if e == Error::NotFound(Missing::Item) {
                    Error::NotFound(Missing::ServeCategory)
                } else {
                    e
                }) && *final(self) == *old(self),
                None => {
                    &&& result == Ok::<i16, Error>(1)
                    &&& final(self).serve_categories@ == old(self).serve_categories@.update(
                        place_of(old(self).serve_categories@, form.id),
                        ServeCategories {
                            name: form.name,
                            description: Some(form.description),
                            position: form.position,
                            ..old(self).serve_categories@[place_of(
                                old(self).serve_categories@,
                                form.id,
                            )]
                        },
                    )
                    &&& same_beside(*old(self), *final(self), set![Table::ServeCategories])
                },
            },
    {
        if actor.id < 1 || form.id < 1 || !token_ok(form.token.as_str()) {
            return Err(Error::PermissionDenied(Denial::Forbidden));
        }
        let at: usize = match locate(&self.serve_categories, form.id) {
            Some(at) => at,
            None => {
                return Err(Error::NotFound(Missing::ServeCategory));
            },
        };
        if !can_change(actor, self.serve_categories[at].user_id) {
            return Err(Error::PermissionDenied(Denial::Forbidden));
        }
        self.serve_categories[at].name = form.name.clone();
        self.serve_categories[at].description = Some(form.description.clone());
        self.serve_categories[at].position = form.position;
        assert(self.serve_categories@ =~= old(self).serve_categories@.update(
            at as int,
            ServeCategories {
                name: form.name,
                description: Some(form.description),
                position: form.position,
                ..old(self).serve_categories@[at as int]
            },
        ));
        Ok(1)
    }

    /// Creates a service option in a category, at the request of the owner
    /// of the category or of an administrator. The category counts one
    /// option more and, for a default option, its price among the default
    /// prices.
    pub fn create_serve(&mut self, actor: Actor, form: &ServeForm) -> (result: Result<i16, Error>)
        ensures
            match create_serve_error(*old(self), actor, *form) {
                Some(e) => result == Err::<i16, Error>(e) && *final(self) == *old(self),
                None => {
                    &&& result == Ok::<i16, Error>(1)
                    &&& {
                        let at = place_of(old(self).serve_categories@, form.serve_categories);
                        let category = old(self).serve_categories@[at];
                        let serve = new_serve(
                            (max_key(old(self).serve@) + 1) as i32,
                            actor,
                            *form,
                            category,
                        );
                        &&& final(self).serve@ == old(self).serve@.push(serve)
                        &&& final(self).serve_categories@ == old(self).serve_categories@.update(
                            at,
                            moved(category, 1, default_part(serve)),
                        )
                    }
                    &&& same_beside(*old(self), *final(self), set![Table::Serve, Table::ServeCategories])
                },
            },
    {
        if actor.id < 1 || !token_ok(form.token.as_str()) {
            return Err(Error::PermissionDenied(Denial::Forbidden));
        }
        let at: usize = match locate(&self.serve_categories, form.serve_categories) {
            Some(at) => at,
            None => {
                return Err(Error::NotFound(Missing::ServeCategory));
            },
        };
        if !can_change(actor, self.serve_categories[at].user_id) {
            return Err(Error::PermissionDenied(Denial::Forbidden));
        }
        let id: i32 = match fresh_id(&self.serve) {
            Some(id) => id,
            None => {
                return Err(Error::Conflict(Clash::KeysExhausted));
            },
        };
        let part: i64 = if form.is_default {
            form.price as i64
        } else {
            0
        };
        let tech_cat_id: i32 = self.serve_categories[at].tech_categories;
        if !fits_move(&self.serve_categories, at, 1, part) {
            return Err(Error::Conflict(Clash::OutOfRange));
        }
        move_category(&mut self.serve_categories, at, 1, part);
        self.serve.push(
            Serve {
                id,
                name: form.name.clone(),
                description: Some(form.description.clone()),
                position: form.position,
                serve_categories: form.serve_categories,
                price: form.price,
                man_hours: form.man_hours,
                is_default: form.is_default,
                user_id: actor.id,
                tech_cat_id,
                seconds: 0,
                serve_id: form.serve_id,
                view: 0,
            },
        );
        Ok(1)
    }

    /// Edits a service option at the request of its owner or of an
    /// administrator. Where the option becomes or ceases to be a default
    /// option, its category adds its price so far to the default prices, or
    /// takes it from them.
    pub fn edit_serve(&mut self, actor: Actor, form: &ServeForm) -> (result: Result<i16, Error>)
        ensures
            match edit_serve_error(*old(self), actor, *form) {
                Some(e) => result == Err::<i16, Error>(e) && *final(self) == *old(self),
                None => {
                    &&& result == Ok::<i16, Error>(1)
                    &&& {
                        let at = place_of(old(self).serve@, form.id);
                        let serve = old(self).serve@[at];
                        let cat = place_of(old(self).serve_categories@, serve.serve_categories);
                        &&& final(self).serve@ == old(self).serve@.update(
                            at,
                            edited_serve(serve, *form),
                        )
                        &&& final(self).serve_categories@ == old(self).serve_categories@.update(
                            cat,
                            moved(old(self).serve_categories@[cat], 0, default_shift(serve, *form)),
                        )
                    }
                    &&& same_beside(*old(self), *final(self), set![Table::Serve, Table::ServeCategories])
                },
            },
    {
        if actor.id < 1 || !token_ok(form.token.as_str()) || form.id < 1 {
            return Err(Error::PermissionDenied(Denial::Forbidden));
        }
        let at: usize = match locate(&self.serve, form.id) {
            Some(at) => at,
            None => {
                return Err(Error::NotFound(Missing::Serve));
            },
        };
        let cat: usize = match locate(&self.serve_categories, self.serve[at].serve_categories) {
            Some(cat) => cat,
            None => {
                return Err(Error::NotFound(Missing::ServeCategory));
            },
        };
        if !can_change(actor, self.serve[at].user_id) {
            return Err(Error::PermissionDenied(Denial::Forbidden));
        }
        let shift: i64 = if self.serve[at].is_default && !form.is_default {
            0 - self.serve[at].price as i64
        } else if !self.serve[at].is_default && form.is_default {
            self.serve[at].price as i64
        } else {
            0
        };
        if !fits_move(&self.serve_categories, cat, 0, shift) {
            return Err(Error::Conflict(Clash::OutOfRange));
        }
        move_category(&mut self.serve_categories, cat, 0, shift);
        self.serve[at].name = form.name.clone();
        self.serve[at].description = Some(form.description.clone());
        self.serve[at].position = form.position;
        self.serve[at].price = form.price;
        self.serve[at].man_hours = form.man_hours;
        self.serve[at].is_default = form.is_default;
        self.serve[at].serve_id = form.serve_id;
        assert(self.serve@ =~= old(self).serve@.update(
            at as int,
            edited_serve(old(self).serve@[at as int], *form),
        ));
        Ok(1)
    }

    /// Deletes a service option at the request of its owner or of an
    /// administrator. Its category counts one option less and, for a default
    /// option, takes its price from the default prices.
    pub fn delete_serve(
        &mut self,
        actor: Actor,
        data: &DeleteServeData,
    ) -> (result: Result<i16, Error>)
        ensures
            match delete_serve_error(*old(self), actor, *data) {
                Some(e) => result == Err::<i16, Error>(e) && *final(self) == *old(self),
                None => {
                    &&& result == Ok::<i16, Error>(1)
                    &&& {
                        let at = place_of(old(self).serve@, data.id->0);
                        let serve = old(self).serve@[at];
                        let cat = place_of(old(self).serve_categories@, serve.serve_categories);
                        &&& final(self).serve@ == old(self).serve@.remove(at)
                        &&& final(self).serve_categories@ == old(self).serve_categories@.update(
                            cat,
                            moved(old(self).serve_categories@[cat], -1, -default_part(serve)),
                        )
                    }
                    &&& same_beside(*old(self), *final(self), set![Table::Serve, Table::ServeCategories])
                },
            },
    {
        let id: i32 = match check_delete_request(actor, data) {
            Ok(id) => id,
            Err(e) => {
                return Err(e);
            },
        };
        let at: usize = match locate(&self.serve, id) {
            Some(at) => at,
            None => {
                return Err(Error::NotFound(Missing::Serve));
            },
        };
        if !can_change(actor, self.serve[at].user_id) {
            return Err(Error::PermissionDenied(Denial::Forbidden));
        }
        let cat: usize = match locate(&self.serve_categories, self.serve[at].serve_categories) {
            Some(cat) => cat,
            None => {
                return Err(Error::NotFound(Missing::ServeCategory));
            },
        };
        let part: i64 = if self.serve[at].is_default {
            0 - self.serve[at].price as i64
        } else {
            0
        };
        if !fits_move(&self.serve_categories, cat, -1, part) {
            return Err(Error::Conflict(Clash::OutOfRange));
        }
        move_category(&mut self.serve_categories, cat, -1, part);
        self.serve.remove(at);
        Ok(1)
    }

    /// Deletes a technical category at the request of its owner or of an
    /// administrator.
    pub fn delete_tech_category(&mut self, actor: Actor, data: &DeleteServeData) -> (result: Result<
        i16,
        Error,
    >)
        ensures
            match delete_request_error(actor, *data) {
                Some(e) => result == Err::<i16, Error>(e) && *final(self) == *old(self),
                None => if has_none_with(old(self).tech_categories@, data.id->0) {
                    result == Err::<i16, Error>(Error::NotFound(Missing::TechCategory)) && *final(self) == *old(self)
                } else {
                    let at = place_of(old(self).tech_categories@, data.id->0);
                    if may_change(actor, old(self).tech_categories@[at].user_id) {
                        &&& result == Ok::<i16, Error>(1)
                        &&& final(self).tech_categories@ == old(self).tech_categories@.remove(at)
                        &&& same_beside(*old(self), *final(self), set![Table::TechCategories])
                    } else {
                        result == Err::<i16, Error>(Error::PermissionDenied(Denial::Forbidden))
                            && *final(self) == *old(self)
                    }
                },
            },
    {
        let id: i32 = match check_delete_request(actor, data) {
            Ok(id) => id,
            Err(e) => {
                return Err(e);
            },
        };
        let at: usize = match locate(&self.tech_categories, id) {
            Some(at) => at,
            None => {
                return Err(Error::NotFound(Missing::TechCategory));
            },
        };
        if !can_change(actor, self.tech_categories[at].user_id) {
            return Err(Error::PermissionDenied(Denial::Forbidden));
        }
        self.tech_categories.remove(at);
        Ok(1)
    }

    /// Deletes a category of service options at the request of its owner or
    /// of an administrator. Its technical category counts one less.
    pub fn delete_serve_category(&mut self, actor: Actor, data: &DeleteServeData) -> (result: Result<
        i16,
        Error,
    >)
        ensures
            match delete_serve_category_error(*old(self), actor, *data) {
                Some(e) => result == Err::<i16, Error>(e) && *final(self) == *old(self),
                None => {
                    &&& result == Ok::<i16, Error>(1)
                    &&& {
                        let at = place_of(old(self).serve_categories@, data.id->0);
                        let category = old(self).serve_categories@[at];
                        let tech = place_of(old(self).tech_categories@, category.tech_categories);
                        &&& final(self).serve_categories@ == old(self).serve_categories@.remove(at)
                        &&& final(self).tech_categories@ == old(self).tech_categories@.update(
                            tech,
                            TechCategories {
                                count: (old(self).tech_categories@[tech].count - 1) as i16,
                                ..old(self).tech_categories@[tech]
                            },
                        )
                    }
                    &&& same_beside(
                        *old(self),
                        *final(self),
                        set![Table::ServeCategories, Table::TechCategories],
                    )
                },
            },
    {
        match &data.token {
            Some(token) => {
                if actor.id >= 1 && !token_ok(token.as_str()) {
                    return Err(Error::PermissionDenied(Denial::Forbidden));
                }
            },
            None => {
                if actor.id >= 1 {
                    return Err(Error::PermissionDenied(Denial::Forbidden));
                }
            },
        }
        let id: i32 = match check_delete_request(actor, data) {
            Ok(id) => id,
            Err(e) => {
                return Err(e);
            },
        };
        let at: usize = match locate(&self.serve_categories, id) {
            Some(at) => at,
            None => {
                return Err(Error::NotFound(Missing::ServeCategory));
            },
        };
        if !can_change(actor, self.serve_categories[at].user_id) {
            return Err(Error::PermissionDenied(Denial::Forbidden));
        }
        let tech: usize = match locate(
            &self.tech_categories,
            self.serve_categories[at].tech_categories,
        ) {
            Some(tech) => tech,
            None => {
                return Err(Error::NotFound(Missing::TechCategory));
            },
        };
        if self.tech_categories[tech].count == i16::MIN {
            return Err(Error::Conflict(Clash::OutOfRange));
        }
        self.tech_categories[tech].count = self.tech_categories[tech].count - 1;
        assert(self.tech_categories@ =~= old(self).tech_categories@.update(
            tech as int,
            TechCategories {
                count: (old(self).tech_categories@[tech as int].count - 1) as i16,
                ..old(self).tech_categories@[tech as int]
            },
        ));
        self.serve_categories.remove(at);
        Ok(1)
    }
}

/// Why a form cannot edit the row that it names, if it cannot. A missing
/// row is reported as a missing item; each table names its own rows.
pub open spec fn edit_error<R: Owned>(
    actor: Actor,
    token: Seq<char>,
    id: i32,
    rows: Seq<R>,
) -> Option<
    Error,
> {
    if actor.id < 1 || id < 1 || token != token_text() {
        Some(Error::PermissionDenied(Denial::Forbidden))
    } else if has_none_with(rows, id) {
        Some(Error::NotFound(Missing::Item))
    } else if !may_change(actor, rows[place_of(rows, id)].owner()) {
        Some(Error::PermissionDenied(Denial::Forbidden))
    } else {
        None
    }
}

/// A row that belongs to an account.
pub trait Owned: Keyed {
    /// The account that owns the row.
    spec fn owner(&self) -> i32;
}

impl Owned for TechCategories {
    open spec fn owner(&self) -> i32 {
        self.user_id
    }
}

impl Owned for ServeCategories {
    open spec fn owner(&self) -> i32 {
        self.user_id
    }
}

impl Owned for Serve {
    open spec fn owner(&self) -> i32 {
        self.user_id
    }
}

/// Why a form cannot create a service option, if it cannot.
pub open spec fn create_serve_error(c: Catalog, actor: Actor, form: ServeForm) -> Option<Error> {
    if form_error(actor, form.token@) is Some {
        form_error(actor, form.token@)
    } else if has_none_with(c.serve_categories@, form.serve_categories) {
        Some(Error::NotFound(Missing::ServeCategory))
    } else {
        let at = place_of(c.serve_categories@, form.serve_categories);
        let category = c.serve_categories@[at];
        if !may_change(actor, category.user_id) {
            Some(Error::PermissionDenied(Denial::Forbidden))
        } else if max_key(c.serve@) == i32::MAX {
            Some(Error::Conflict(Clash::KeysExhausted))
        } else if !can_move(
            category,
            1,
            if form.is_default {
                form.price as int
            } else {
                0
            },
        ) {
            Some(Error::Conflict(Clash::OutOfRange))
        } else {
            None
        }
    }
}

/// By how much an edit moves the default prices of the option's category:
/// by the option's price so far, up where it becomes a default option and
/// down where it ceases to be one.
pub open spec fn default_shift(serve: Serve, form: ServeForm) -> int {
    if serve.is_default && !form.is_default {
        -(serve.price as int)
    } else if !serve.is_default && form.is_default {
        serve.price as int
    } else {
        0
    }
}

/// Why a form cannot edit a service option, if it cannot.
pub open spec fn edit_serve_error(c: Catalog, actor: Actor, form: ServeForm) -> Option<Error> {
    if actor.id < 1 || form.token@ != token_text() || form.id < 1 {
        Some(Error::PermissionDenied(Denial::Forbidden))
    } else if has_none_with(c.serve@, form.id) {
        Some(Error::NotFound(Missing::Serve))
    } else {
        let at = place_of(c.serve@, form.id);
        let serve = c.serve@[at];
        if has_none_with(c.serve_categories@, serve.serve_categories) {
            Some(Error::NotFound(Missing::ServeCategory))
        } else {
            let cat = place_of(c.serve_categories@, serve.serve_categories);
            if !may_change(actor, serve.user_id) {
                Some(Error::PermissionDenied(Denial::Forbidden))
            } else if !can_move(c.serve_categories@[cat], 0, default_shift(serve, form)) {
                Some(Error::Conflict(Clash::OutOfRange))
            } else {
                None
            }
        }
    }
}

/// Why a service option cannot be deleted, if it cannot.
pub open spec fn delete_serve_error(
    c: Catalog,
    actor: Actor,
    data: DeleteServeData,
) -> Option<Error> {
    if delete_request_error(actor, data) is Some {
        delete_request_error(actor, data)
    } else if has_none_with(c.serve@, data.id->0) {
        Some(Error::NotFound(Missing::Serve))
    } else {
        let at = place_of(c.serve@, data.id->0);
        let serve = c.serve@[at];
        if !may_change(actor, serve.user_id) {
            Some(Error::PermissionDenied(Denial::Forbidden))
        } else if has_none_with(c.serve_categories@, serve.serve_categories) {
            Some(Error::NotFound(Missing::ServeCategory))
        } else {
            let cat = place_of(c.serve_categories@, serve.serve_categories);
            if !can_move(c.serve_categories@[cat], -1, -default_part(serve)) {
                Some(Error::Conflict(Clash::OutOfRange))
            } else {
                None
            }
        }
    }
}

/// Why a category of service options cannot be deleted, if it cannot.
pub open spec fn delete_serve_category_error(
    c: Catalog,
    actor: Actor,
    data: DeleteServeData,
) -> Option<
    Error,
> {
    if actor.id < 1 {
        Some(Error::PermissionDenied(Denial::NotAuthenticated))
    } else if data.token is None || data.token->0@ != token_text() {
        Some(Error::PermissionDenied(Denial::Forbidden))
    } else if data.id is None || data.id->0 < 1 {
        Some(Error::ValidationFailed(Field::Id))
    } else if has_none_with(c.serve_categories@, data.id->0) {
        Some(Error::NotFound(Missing::ServeCategory))
    } else {
        let at = place_of(c.serve_categories@, data.id->0);
        let category = c.serve_categories@[at];
        if !may_change(actor, category.user_id) {
            Some(Error::PermissionDenied(Denial::Forbidden))
        } else if has_none_with(c.tech_categories@, category.tech_categories) {
            Some(Error::NotFound(Missing::TechCategory))
        } else {
            let tech = place_of(c.tech_categories@, category.tech_categories);
            if c.tech_categories@[tech].count == i16::MIN {
                Some(Error::Conflict(Clash::OutOfRange))
            } else {
                None
            }
        }
    }
}

} // verus!
