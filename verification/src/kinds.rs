//! The kinds of items, their status codes, and who sees what.

use vstd::prelude::*;
use vstd::string::StringExecFns;

verus! {

/// The kinds of content that share the item table.
#[derive(Clone, Copy, Debug, PartialEq, Eq, Structural)]
pub enum ItemKind {
    Blog,
    Service,
    Store,
    Wiki,
    Work,
    Help,
    Order,
}

impl ItemKind {
    /// The number under which the kind is stored.
    pub open spec fn spec_code(self) -> i16 {
        match self {
            ItemKind::Blog => 1,
            ItemKind::Service => 2,
            ItemKind::Store => 3,
            ItemKind::Wiki => 4,
            ItemKind::Work => 5,
            ItemKind::Help => 6,
            ItemKind::Order => 7,
        }
    }

    /// The kind stored under a number, if there is one.
    pub open spec fn spec_from_code(code: i16) -> Option<ItemKind> {
        if code == 1 {
            Some(ItemKind::Blog)
        } else if code == 2 {
            Some(ItemKind::Service)
        } else if code == 3 {
            Some(ItemKind::Store)
        } else if code == 4 {
            Some(ItemKind::Wiki)
        } else if code == 5 {
            Some(ItemKind::Work)
        } else if code == 6 {
            Some(ItemKind::Help)
        } else if code == 7 {
            Some(ItemKind::Order)
        } else {
            None
        }
    }

    /// The number under which the kind is stored.
    #[verifier::when_used_as_spec(spec_code)]
    pub fn code(self) -> (c: i16)
        ensures
            c == self.spec_code(),
            ItemKind::spec_from_code(c) == Some(self),
    {
        match self {
            ItemKind::Blog => 1,
            ItemKind::Service => 2,
            ItemKind::Store => 3,
            ItemKind::Wiki => 4,
            ItemKind::Work => 5,
            ItemKind::Help => 6,
            ItemKind::Order => 7,
        }
    }

    /// Reads a kind from the number under which it is stored.
    pub fn from_code(code: i16) -> (kind: Option<ItemKind>)
        ensures
            kind == ItemKind::spec_from_code(code),
            kind matches Some(k) ==> k.spec_code() == code,
    {
        if code == 1 {
            Some(ItemKind::Blog)
        } else if code == 2 {
            Some(ItemKind::Service)
        } else if code == 3 {
            Some(ItemKind::Store)
        } else if code == 4 {
            Some(ItemKind::Wiki)
        } else if code == 5 {
            Some(ItemKind::Work)
        } else if code == 6 {
            Some(ItemKind::Help)
        } else if code == 7 {
            Some(ItemKind::Order)
        } else {
            None
        }
    }

    /// How listings of the kind are ordered: help articles by position, all
    /// others newest first.
    pub open spec fn spec_sort_rule(self) -> SortRule {
        match self {
            ItemKind::Help => SortRule::PositionAsc,
            _ => SortRule::CreatedDesc,
        }
    }

    /// How listings of the kind are ordered.
    #[verifier::when_used_as_spec(spec_sort_rule)]
    pub fn sort_rule(self) -> (rule: SortRule)
        ensures
            rule == self.spec_sort_rule(),
    {
        match self {
            ItemKind::Help => SortRule::PositionAsc,
            _ => SortRule::CreatedDesc,
        }
    }
}

/// The order of a listing.
#[derive(Clone, Copy, Debug, PartialEq, Eq, Structural)]
pub enum SortRule {
    /// Newest first.
    CreatedDesc,
    /// Lowest position first.
    PositionAsc,
}

/// Whose eyes a listing is made for.
#[derive(Clone, Copy, Debug, PartialEq, Eq, Structural)]
pub enum Scope {
    /// Administrators see published and hidden items.
    Admin,
    /// Everyone else sees published items only.
    Public,
}

/// The scope of an actor of a permission level.
pub fn scope_of(perm: i16) -> (scope: Scope)
    ensures
        scope == if is_admin_perm(perm) {
            Scope::Admin
        } else {
            Scope::Public
        },
{
    if perm >= ADMIN_PERM {
        Scope::Admin
    } else {
        Scope::Public
    }
}

/// Whether an item is shown to the public.
#[derive(Clone, Copy, Debug, PartialEq, Eq, Structural)]
pub enum ItemStatus {
    Published,
    Hidden,
}

/// The status that a stored status code stands for: codes below ten are
/// published, all others hidden.
pub open spec fn status_of(item_types: i16) -> ItemStatus {
    if item_types < 10 {
        ItemStatus::Published
    } else {
        ItemStatus::Hidden
    }
}

/// Reads a stored status code.
pub fn item_status(item_types: i16) -> (status: ItemStatus)
    ensures
        status == status_of(item_types),
{
    if item_types < 10 {
        ItemStatus::Published
    } else {
        ItemStatus::Hidden
    }
}

/// The status code of an item after it is hidden: a published code from one
/// to nine moves up by ten; every other code becomes eleven.
pub open spec fn hidden_code(item_types: i16) -> i16 {
    if 1 <= item_types <= 9 {
        (item_types + 10) as i16
    } else {
        11
    }
}

/// The status code of an item after it is published: a hidden code from
/// eleven to nineteen moves down by ten; every other code becomes one.
pub open spec fn published_code(item_types: i16) -> i16 {
    if 11 <= item_types <= 19 {
        (item_types - 10) as i16
    } else {
        1
    }
}

/// Permission level from which an actor is an administrator.
pub const ADMIN_PERM: i16 = 60;

/// An actor of this permission level sees hidden items.
pub open spec fn is_admin_perm(perm: i16) -> bool {
    perm >= 60
}

/// Tests whether a permission level is that of an administrator.
pub fn is_admin(perm: i16) -> (admin: bool)
    ensures
        admin == is_admin_perm(perm),
{
    perm >= ADMIN_PERM
}

/// The name of a kind, by its number, as shown to readers.
pub open spec fn kind_name_text(types: i16) -> Seq<char> {
    if types == 1 {
        "блог"@
    } else if types == 2 {
        "услуга"@
    } else if types == 3 {
        "товар"@
    } else if types == 4 {
        "wiki"@
    } else if types == 5 {
        "работа"@
    } else if types == 6 {
        "помощь"@
    } else {
        "Непонятно"@
    }
}

/// Names a kind by its number.
pub fn kind_name(types: i16) -> (name: String)
    ensures
        name@ == kind_name_text(types),
{
    let text: &str = if types == 1 {
        "блог"
    } else if types == 2 {
        "услуга"
    } else if types == 3 {
        "товар"
    } else if types == 4 {
        "wiki"
    } else if types == 5 {
        "работа"
    } else if types == 6 {
        "помощь"
    } else {
        "Непонятно"
    };
    String::from_str(text)
}

/// The number of the statistics page that belongs to the category list of a
/// kind; unknown kinds share the page of the blog.
pub open spec fn stat_type_of(types: i16) -> i16 {
    if types == 2 {
        61
    } else if types == 3 {
        71
    } else if types == 4 {
        81
    } else if types == 5 {
        91
    } else if types == 6 {
        101
    } else {
        41
    }
}

/// The image shown where a row has none.
pub open spec fn default_image_text() -> Seq<char> {
    "/static/images/img.jpg"@
}

/// The image of a row: its own, or the default image where it has none.
pub open spec fn image_text(image: Option<String>) -> Seq<char> {
    match image {
        Some(path) => path@,
        None => default_image_text(),
    }
}

/// Resolves the image of a row.
pub fn image_or_default(image: &Option<String>) -> (path: String)
    ensures
        path@ == image_text(*image),
{
    match image {
        Some(own) => own.clone(),
        None => String::from_str("/static/images/img.jpg"),
    }
}

} // verus!
