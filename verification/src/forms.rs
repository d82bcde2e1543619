//! The form of a service option, read from the pieces of a multipart body.

use vstd::prelude::*;
use crate::errors::{Error, Field};
use crate::items::ItemForm;
use crate::manage::{FeedbackForm, FilesForm};
use crate::orders::OrderForm;
use crate::serve::CategoriesForm;
use crate::text::{parse_i32, parse_i16, parsed_within, str_eq};

verus! {

/// One piece of a multipart form: the name of its field and its text, or no
/// text where the piece is not valid UTF-8.
pub struct FormField {
    pub name: String,
    pub text: Option<String>,
}

/// The fields of the form with which a service option is created or edited.
pub struct ServeForm {
    pub token: String,
    pub id: i32,
    pub name: String,
    pub description: String,
    pub position: i16,
    pub serve_categories: i32,
    pub price: i32,
    pub man_hours: i16,
    pub is_default: bool,
    pub serve_id: Option<i32>,
}

/// The form before any field is read: empty, and a default option.
pub open spec fn is_blank(form: ServeForm) -> bool {
    &&& form.token@.len() == 0
    &&& form.id == 0
    &&& form.name@.len() == 0
    &&& form.description@.len() == 0
    &&& form.position == 0
    &&& form.serve_categories == 0
    &&& form.price == 0
    &&& form.man_hours == 0
    &&& form.is_default
    &&& form.serve_id is None
}

/// The 32-bit number that a text denotes, if it denotes one.
pub open spec fn as_i32(text: Seq<char>) -> Option<i32> {
    match parsed_within(text, i32::MIN as int, i32::MAX as int) {
        Some(v) => Some(v as i32),
        None => None,
    }
}

/// The 16-bit number that a text denotes, if it denotes one.
pub open spec fn as_i16(text: Seq<char>) -> Option<i16> {
    match parsed_within(text, i16::MIN as int, i16::MAX as int) {
        Some(v) => Some(v as i16),
        None => None,
    }
}

/// The form after one more piece has been read.
///
/// A piece without text changes nothing. The fields `id`, `position`,
/// `serve_categories`, `serve_id`, `price` and `man_hours` are numbers;
/// `is_default` is set by the text `on` and cleared by any other; `name`,
/// `description` and `token` are taken as they are; a piece of any other name
/// is passed over.
pub open spec fn with_field(form: ServeForm, field: FormField) -> Result<ServeForm, Error> {
    let bad = Err::<ServeForm, Error>(Error::ValidationFailed(Field::Number));
    match field.text {
        None => Ok(form),
        Some(text) => {
            if field.name@ == "id"@ {
                match as_i32(text@) {
                    Some(v) => Ok(ServeForm { id: v, ..form }),
                    None => bad,
                }
            } else if field.name@ == "position"@ {
                match as_i16(text@) {
                    Some(v) => Ok(ServeForm { position: v, ..form }),
                    None => bad,
                }
            } else if field.name@ == "serve_categories"@ {
                match as_i32(text@) {
                    Some(v) => Ok(ServeForm { serve_categories: v, ..form }),
                    None => bad,
                }
            } else if field.name@ == "serve_id"@ {
                match as_i32(text@) {
                    Some(v) => Ok(ServeForm { serve_id: Some(v), ..form }),
                    None => bad,
                }
            } else if field.name@ == "price"@ {
                match as_i32(text@) {
                    Some(v) => Ok(ServeForm { price: v, ..form }),
                    None => bad,
                }
            } else if field.name@ == "man_hours"@ {
                match as_i16(text@) {
                    Some(v) => Ok(ServeForm { man_hours: v, ..form }),
                    None => bad,
                }
            } else if field.name@ == "is_default"@ {
                Ok(ServeForm { is_default: text@ == "on"@, ..form })
            } else if field.name@ == "name"@ {
                Ok(ServeForm { name: text, ..form })
            } else if field.name@ == "description"@ {
                Ok(ServeForm { description: text, ..form })
            } else if field.name@ == "token"@ {
                Ok(ServeForm { token: text, ..form })
            } else {
                Ok(form)
            }
        },
    }
}

/// The form after the pieces have been read in turn, starting from `form`;
/// the first piece that should be a number and is none ends the reading.
pub open spec fn with_fields(form: ServeForm, fields: Seq<FormField>) -> Result<ServeForm, Error>
    decreases fields.len(),
{
    if fields.len() == 0 {
        Ok(form)
    } else {
        match with_fields(form, fields.drop_last()) {
            Ok(read) => with_field(read, fields.last()),
            Err(e) => Err(e),
        }
    }
}

/// Reads one piece into the form.
pub fn read_field(form: &mut ServeForm, field: &FormField) -> (result: Result<(), Error>)
    ensures
        match with_field(*old(form), *field) {
            Ok(read) => result is Ok && *final(form) == read,
            Err(e) => result == Err::<(), Error>(e) && *final(form) == *old(form),
        },
{
    let text: &String = match &field.text {
        Some(text) => text,
        None => {
            return Ok(());
        },
    };
    let name: &str = field.name.as_str();
    if str_eq(name, "id") {
        match parse_i32(text.as_str()) {
            Some(v) => {
                form.id = v;
            },
            None => {
                return Err(Error::ValidationFailed(Field::Number));
            },
        }
    } else if str_eq(name, "position") {
        match parse_i16(text.as_str()) {
            Some(v) => {
                form.position = v;
            },
            None => {
                return Err(Error::ValidationFailed(Field::Number));
            },
        }
    } else if str_eq(name, "serve_categories") {
        match parse_i32(text.as_str()) {
            Some(v) => {
                form.serve_categories = v;
            },
            None => {
                return Err(Error::ValidationFailed(Field::Number));
            },
        }
    } else if str_eq(name, "serve_id") {
        match parse_i32(text.as_str()) {
            Some(v) => {
                form.serve_id = Some(v);
            },
            None => {
                return Err(Error::ValidationFailed(Field::Number));
            },
        }
    } else if str_eq(name, "price") {
        match parse_i32(text.as_str()) {
            Some(v) => {
                form.price = v;
            },
            None => {
                return Err(Error::ValidationFailed(Field::Number));
            },
        }
    } else if str_eq(name, "man_hours") {
        match parse_i16(text.as_str()) {
            Some(v) => {
                form.man_hours = v;
            },
            None => {
                return Err(Error::ValidationFailed(Field::Number));
            },
        }
    } else if str_eq(name, "is_default") {
        form.is_default = str_eq(text.as_str(), "on");
    } else if str_eq(name, "name") {
        form.name = text.clone();
    } else if str_eq(name, "description") {
        form.description = text.clone();
    } else if str_eq(name, "token") {
        form.token = text.clone();
    }
    Ok(())
}

/// Reads the form of a service option from the pieces of a multipart body,
/// in the order in which they arrived.
pub fn serve_split_payload(fields: &Vec<FormField>) -> (result: Result<ServeForm, Error>)
    ensures
        exists|blank: ServeForm|
            is_blank(blank) && match with_fields(blank, fields@) {
                Ok(read) => result matches Ok(form) && form == read,
                Err(e) => result matches Err(f) && f == e,
            },
{
    let mut form = ServeForm {
        token: String::new(),
        id: 0,
        name: String::new(),
        description: String::new(),
        position: 0,
        serve_categories: 0,
        price: 0,
        man_hours: 0,
        is_default: true,
        serve_id: None,
    };
    let ghost blank = form;
    let mut i: usize = 0;
    assert(fields@.take(0) =~= Seq::<FormField>::empty());
    while i < fields.len()
        invariant
            i <= fields.len(),
            is_blank(blank),
            with_fields(blank, fields@.take(i as int)) == Ok::<ServeForm, Error>(form),
        decreases fields.len() - i,
    {
        proof {
            assert(fields@.take(i + 1).drop_last() =~= fields@.take(i as int));
            assert(fields@.take(i + 1).last() == fields@[i as int]);
        }
        match read_field(&mut form, &fields[i]) {
            Ok(_) => {},
            Err(e) => {
                proof {
                    lemma_error_stays(blank, fields@, i as int + 1);
                }
                return Err(e);
            },
        }
        i += 1;
    }
    assert(fields@.take(fields.len() as int) =~= fields@);
    Ok(form)
}

/// Once the reading has failed on a prefix of the pieces, it has failed on
/// all of them, with the same error.
proof fn lemma_error_stays(form: ServeForm, fields: Seq<FormField>, n: int)
    requires
        0 <= n <= fields.len(),
        with_fields(form, fields.take(n)) is Err,
    ensures
        with_fields(form, fields) == with_fields(form, fields.take(n)),
    decreases fields.len() - n,
{
    if n == fields.len() {
        assert(fields.take(n) =~= fields);
    } else {
        assert(fields.take(n + 1).drop_last() =~= fields.take(n));
        lemma_error_stays(form, fields, n + 1);
    }
}

/// The text of the last piece of the name that has text.
pub open spec fn last_text(fields: Seq<FormField>, name: Seq<char>) -> Option<String>
    decreases fields.len(),
{
    if fields.len() == 0 {
        None
    } else if fields.last().name@ == name && fields.last().text is Some {
        fields.last().text
    } else {
        last_text(fields.drop_last(), name)
    }
}

/// The texts of all pieces of the name, in the order of their arrival.
pub open spec fn all_texts(fields: Seq<FormField>, name: Seq<char>) -> Seq<String> {
    fields.filter(|f: FormField| f.name@ == name && f.text is Some).map_values(
        |f: FormField| f.text->0,
    )
}

/// The characters of a text that may be missing: none for a missing text.
pub open spec fn text_or_none(text: Option<String>) -> Seq<char> {
    match text {
        Some(t) => t@,
        None => Seq::empty(),
    }
}

/// The 32-bit number of a field that may be missing: zero for a missing
/// field, nothing for a text that is no number.
pub open spec fn number_or_zero(text: Option<String>) -> Option<i32> {
    match text {
        Some(t) => as_i32(t@),
        None => Some(0),
    }
}

/// The 16-bit number of a field that may be missing.
pub open spec fn small_number_or_zero(text: Option<String>) -> Option<i16> {
    match text {
        Some(t) => as_i16(t@),
        None => Some(0),
    }
}

/// The numbers that texts denote, or nothing where one of them denotes
/// none.
pub open spec fn numbers_of(texts: Seq<String>) -> Option<Seq<i32>>
    decreases texts.len(),
{
    if texts.len() == 0 {
        Some(Seq::empty())
    } else {
        match numbers_of(texts.drop_last()) {
            Some(front) => match as_i32(texts.last()@) {
                Some(v) => Some(front.push(v)),
                None => None,
            },
            None => None,
        }
    }
}

/// Finds the text of the last piece of the name that has text.
pub fn find_last_text(fields: &Vec<FormField>, name: &str) -> (text: Option<String>)
    ensures
        text == last_text(fields@, name@),
{
    let mut n: usize = fields.len();
    assert(fields@.take(n as int) =~= fields@);
    while n > 0
        invariant
            n <= fields.len(),
            last_text(fields@, name@) == last_text(fields@.take(n as int), name@),
        decreases n,
    {
        proof {
            assert(fields@.take(n as int).last() == fields@[n - 1]);
            assert(fields@.take(n as int).drop_last() =~= fields@.take(n - 1));
        }
        if str_eq(fields[n - 1].name.as_str(), name) {
            match &fields[n - 1].text {
                Some(text) => {
                    return Some(text.clone());
                },
                None => {},
            }
        }
        n -= 1;
    }
    None
}

/// Collects the texts of all pieces of the name.
pub fn collect_texts(fields: &Vec<FormField>, name: &str) -> (texts: Vec<String>)
    ensures
        texts@ == all_texts(fields@, name@),
{
    let ghost pred = |f: FormField| f.name@ == name@ && f.text is Some;
    let ghost pick = |f: FormField| f.text->0;
    let mut texts: Vec<String> = Vec::new();
    let mut i: usize = 0;
    assert(fields@.take(0).filter(pred).map_values(pick) =~= texts@);
    while i < fields.len()
        invariant
            i <= fields.len(),
            pred == |f: FormField| f.name@ == name@ && f.text is Some,
            pick == |f: FormField| f.text->0,
            texts@ == fields@.take(i as int).filter(pred).map_values(pick),
        decreases fields.len() - i,
    {
        proof {
            assert(fields@.take(i + 1) =~= fields@.take(i as int).push(fields@[i as int]));
            Seq::lemma_filter_push(fields@.take(i as int), fields@[i as int], pred);
        }
        if str_eq(fields[i].name.as_str(), name) {
            match &fields[i].text {
                Some(text) => {
                    texts.push(text.clone());
                    assert(texts@ =~= fields@.take(i + 1).filter(pred).map_values(pick));
                },
                None => {},
            }
        }
        i += 1;
    }
    assert(fields@.take(fields.len() as int) =~= fields@);
    texts
}

/// Once a prefix of the texts holds a text that is no number, so do all.
proof fn lemma_no_numbers(texts: Seq<String>, n: int)
    requires
        0 <= n <= texts.len(),
        numbers_of(texts.take(n)) is None,
    ensures
        numbers_of(texts) is None,
    decreases texts.len() - n,
{
    if n == texts.len() {
        assert(texts.take(n) =~= texts);
    } else {
        assert(texts.take(n + 1).drop_last() =~= texts.take(n));
        lemma_no_numbers(texts, n + 1);
    }
}

/// Reads the numbers that texts denote.
pub fn parse_numbers(texts: &Vec<String>) -> (numbers: Option<Vec<i32>>)
    ensures
        match numbers_of(texts@) {
            Some(seq) => numbers matches Some(v) && v@ == seq,
            None => numbers is None,
        },
{
    let mut out: Vec<i32> = Vec::new();
    let mut i: usize = 0;
    assert(texts@.take(0) =~= Seq::<String>::empty());
    while i < texts.len()
        invariant
            i <= texts.len(),
            numbers_of(texts@.take(i as int)) == Some(out@),
        decreases texts.len() - i,
    {
        proof {
            assert(texts@.take(i + 1).drop_last() =~= texts@.take(i as int));
            assert(texts@.take(i + 1).last() == texts@[i as int]);
        }
        match parse_i32(texts[i].as_str()) {
            Some(v) => {
                out.push(v);
            },
            None => {
                proof {
                    lemma_no_numbers(texts@, i as int + 1);
                }
                return None;
            },
        }
        i += 1;
    }
    assert(texts@.take(texts.len() as int) =~= texts@);
    Some(out)
}

/// Reads the text of a field; the empty text where the field is missing.
pub fn text_field(fields: &Vec<FormField>, name: &str) -> (text: String)
    ensures
        text@ == text_or_none(last_text(fields@, name@)),
{
    match find_last_text(fields, name) {
        Some(text) => text,
        None => String::new(),
    }
}

/// Reads the number of a field; zero where the field is missing.
pub fn number_field(fields: &Vec<FormField>, name: &str) -> (number: Option<i32>)
    ensures
        number == number_or_zero(last_text(fields@, name@)),
{
    match find_last_text(fields, name) {
        Some(text) => parse_i32(text.as_str()),
        None => Some(0),
    }
}

/// Reads the small number of a field; zero where the field is missing.
pub fn small_number_field(fields: &Vec<FormField>, name: &str) -> (number: Option<i16>)
    ensures
        number == small_number_or_zero(last_text(fields@, name@)),
{
    match find_last_text(fields, name) {
        Some(text) => parse_i16(text.as_str()),
        None => Some(0),
    }
}

/// Reads the numbers of all pieces of a name.
pub fn numbers_field(fields: &Vec<FormField>, name: &str) -> (numbers: Option<Vec<i32>>)
    ensures
        match numbers_of(all_texts(fields@, name@)) {
            Some(seq) => numbers matches Some(v) && v@ == seq,
            None => numbers is None,
        },
{
    let texts: Vec<String> = collect_texts(fields, name);
    parse_numbers(&texts)
}

/// `form` is the form of an item that the pieces of a body hold: texts as
/// they stand, the empty text for a missing one; numbers read from their
/// texts, zero for a missing one; and of each list every piece of its name.
pub open spec fn is_item_form(form: ItemForm, fields: Seq<FormField>) -> bool {
    &&& form.token@ == text_or_none(last_text(fields, "token"@))
    &&& Some(form.id) == number_or_zero(last_text(fields, "id"@))
    &&& form.title@ == text_or_none(last_text(fields, "title"@))
    &&& form.link == last_text(fields, "link"@)
    &&& form.main_image == last_text(fields, "main_image"@)
    &&& Some(form.position) == small_number_or_zero(last_text(fields, "position"@))
    &&& Some(form.types) == small_number_or_zero(last_text(fields, "types"@))
    &&& form.slug@ == text_or_none(last_text(fields, "slug"@))
    &&& Some(form.category_list@) == numbers_of(all_texts(fields, "category_list[]"@))
    &&& Some(form.tags_list@) == numbers_of(all_texts(fields, "tags_list[]"@))
    &&& Some(form.serve_list@) == numbers_of(all_texts(fields, "serve_list[]"@))
    &&& Some(form.close_tech_cats_list@) == numbers_of(
        all_texts(fields, "close_tech_cats_list[]"@),
    )
}

/// Every number of the form of an item is a number.
pub open spec fn item_form_reads(fields: Seq<FormField>) -> bool {
    &&& number_or_zero(last_text(fields, "id"@)) is Some
    &&& small_number_or_zero(last_text(fields, "position"@)) is Some
    &&& small_number_or_zero(last_text(fields, "types"@)) is Some
    &&& numbers_of(all_texts(fields, "category_list[]"@)) is Some
    &&& numbers_of(all_texts(fields, "tags_list[]"@)) is Some
    &&& numbers_of(all_texts(fields, "serve_list[]"@)) is Some
    &&& numbers_of(all_texts(fields, "close_tech_cats_list[]"@)) is Some
}

/// Reads the form of an item from the pieces of a multipart body.
pub fn item_form(fields: &Vec<FormField>) -> (result: Result<ItemForm, Error>)
    ensures
        match result {
            Ok(form) => item_form_reads(fields@) && is_item_form(form, fields@),
            Err(e) => e == Error::ValidationFailed(Field::Number) && !item_form_reads(fields@),
        },
{
    let bad = Error::ValidationFailed(Field::Number);
    let id: i32 = match number_field(fields, "id") {
        Some(v) => v,
        None => {
            return Err(bad);
        },
    };
    let position: i16 = match small_number_field(fields, "position") {
        Some(v) => v,
        None => {
            return Err(bad);
        },
    };
    let types: i16 = match small_number_field(fields, "types") {
        Some(v) => v,
        None => {
            return Err(bad);
        },
    };
    let category_list: Vec<i32> = match numbers_field(fields, "category_list[]") {
        Some(v) => v,
        None => {
            return Err(bad);
        },
    };
    let tags_list: Vec<i32> = match numbers_field(fields, "tags_list[]") {
        Some(v) => v,
        None => {
            return Err(bad);
        },
    };
    let serve_list: Vec<i32> = match numbers_field(fields, "serve_list[]") {
        Some(v) => v,
        None => {
            return Err(bad);
        },
    };
    let close_tech_cats_list: Vec<i32> = match numbers_field(fields, "close_tech_cats_list[]") {
        Some(v) => v,
        None => {
            return Err(bad);
        },
    };
    Ok(
        ItemForm {
            token: text_field(fields, "token"),
            id,
            title: text_field(fields, "title"),
            link: find_last_text(fields, "link"),
            main_image: find_last_text(fields, "main_image"),
            position,
            types,
            slug: text_field(fields, "slug"),
            category_list,
            tags_list,
            serve_list,
            close_tech_cats_list,
        },
    )
}

/// `form` is the form of a category of any sort that the pieces of a body
/// hold.
pub open spec fn is_category_form(form: CategoriesForm, fields: Seq<FormField>) -> bool {
    &&& form.token@ == text_or_none(last_text(fields, "token"@))
    &&& Some(form.id) == number_or_zero(last_text(fields, "id"@))
    &&& form.name@ == text_or_none(last_text(fields, "name"@))
    &&& form.description@ == text_or_none(last_text(fields, "description"@))
    &&& Some(form.position) == small_number_or_zero(last_text(fields, "position"@))
    &&& form.image@ == text_or_none(last_text(fields, "image"@))
    &&& Some(form.level) == small_number_or_zero(last_text(fields, "level"@))
    &&& Some(form.types) == small_number_or_zero(last_text(fields, "types"@))
    &&& form.slug@ == text_or_none(last_text(fields, "slug"@))
    &&& Some(form.tech_categories) == number_or_zero(last_text(fields, "tech_categories"@))
}

/// Every number of the form of a category is a number.
pub open spec fn category_form_reads(fields: Seq<FormField>) -> bool {
    &&& number_or_zero(last_text(fields, "id"@)) is Some
    &&& small_number_or_zero(last_text(fields, "position"@)) is Some
    &&& small_number_or_zero(last_text(fields, "level"@)) is Some
    &&& small_number_or_zero(last_text(fields, "types"@)) is Some
    &&& number_or_zero(last_text(fields, "tech_categories"@)) is Some
}

/// Reads the form of a category of any sort from the pieces of a multipart
/// body.
pub fn category_form(fields: &Vec<FormField>) -> (result: Result<CategoriesForm, Error>)
    ensures
        match result {
            Ok(form) => category_form_reads(fields@) && is_category_form(form, fields@),
            Err(e) => e == Error::ValidationFailed(Field::Number) && !category_form_reads(
                fields@,
            ),
        },
{
    let bad = Error::ValidationFailed(Field::Number);
    let id: i32 = match number_field(fields, "id") {
        Some(v) => v,
        None => {
            return Err(bad);
        },
    };
    let position: i16 = match small_number_field(fields, "position") {
        Some(v) => v,
        None => {
            return Err(bad);
        },
    };
    let level: i16 = match small_number_field(fields, "level") {
        Some(v) => v,
        None => {
            return Err(bad);
        },
    };
    let types: i16 = match small_number_field(fields, "types") {
        Some(v) => v,
        None => {
            return Err(bad);
        },
    };
    let tech_categories: i32 = match number_field(fields, "tech_categories") {
        Some(v) => v,
        None => {
            return Err(bad);
        },
    };
    Ok(
        CategoriesForm {
            token: text_field(fields, "token"),
            id,
            name: text_field(fields, "name"),
            description: text_field(fields, "description"),
            position,
            image: text_field(fields, "image"),
            level,
            types,
            slug: text_field(fields, "slug"),
            tech_categories,
        },
    )
}

/// `form` is the form of an order that the pieces of a body hold.
pub open spec fn is_order_form(form: OrderForm, fields: Seq<FormField>) -> bool {
    &&& form.token@ == text_or_none(last_text(fields, "token"@))
    &&& form.title@ == text_or_none(last_text(fields, "title"@))
    &&& Some(form.types) == small_number_or_zero(last_text(fields, "types"@))
    &&& Some(form.object_id) == number_or_zero(last_text(fields, "object_id"@))
    &&& form.username@ == text_or_none(last_text(fields, "username"@))
    &&& form.email@ == text_or_none(last_text(fields, "email"@))
    &&& form.description == last_text(fields, "description"@)
    &&& form.files@ == all_texts(fields, "files[]"@)
    &&& Some(form.serve_list@) == numbers_of(all_texts(fields, "serve_list[]"@))
}

/// Every number of the form of an order is a number.
pub open spec fn order_form_reads(fields: Seq<FormField>) -> bool {
    &&& small_number_or_zero(last_text(fields, "types"@)) is Some
    &&& number_or_zero(last_text(fields, "object_id"@)) is Some
    &&& numbers_of(all_texts(fields, "serve_list[]"@)) is Some
}

/// Reads the form of an order from the pieces of a multipart body.
pub fn order_form(fields: &Vec<FormField>) -> (result: Result<OrderForm, Error>)
    ensures
        match result {
            Ok(form) => order_form_reads(fields@) && is_order_form(form, fields@),
            Err(e) => e == Error::ValidationFailed(Field::Number) && !order_form_reads(fields@),
        },
{
    let bad = Error::ValidationFailed(Field::Number);
    let types: i16 = match small_number_field(fields, "types") {
        Some(v) => v,
        None => {
            return Err(bad);
        },
    };
    let object_id: i32 = match number_field(fields, "object_id") {
        Some(v) => v,
        None => {
            return Err(bad);
        },
    };
    let serve_list: Vec<i32> = match numbers_field(fields, "serve_list[]") {
        Some(v) => v,
        None => {
            return Err(bad);
        },
    };
    Ok(
        OrderForm {
            token: text_field(fields, "token"),
            title: text_field(fields, "title"),
            types,
            object_id,
            username: text_field(fields, "username"),
            email: text_field(fields, "email"),
            description: find_last_text(fields, "description"),
            files: collect_texts(fields, "files[]"),
            serve_list,
        },
    )
}

/// Reads the form of a visitor's message from the pieces of a multipart
/// body: each text as it stands, the empty text for a missing one.
pub fn feedback_form(fields: &Vec<FormField>) -> (form: FeedbackForm)
    ensures
        form.token@ == text_or_none(last_text(fields@, "token"@)),
        form.username@ == text_or_none(last_text(fields@, "username"@)),
        form.email@ == text_or_none(last_text(fields@, "email"@)),
        form.message@ == text_or_none(last_text(fields@, "message"@)),
{
    FeedbackForm {
        token: text_field(fields, "token"),
        username: text_field(fields, "username"),
        email: text_field(fields, "email"),
        message: text_field(fields, "message"),
    }
}

/// `form` is the form for the files of an item that the pieces of a body
/// hold.
pub open spec fn is_files_form(form: FilesForm, fields: Seq<FormField>) -> bool {
    &&& form.token@ == text_or_none(last_text(fields, "token"@))
    &&& Some(form.id) == number_or_zero(last_text(fields, "id"@))
    &&& Some(form.types) == small_number_or_zero(last_text(fields, "types"@))
    &&& Some(form.item_types) == small_number_or_zero(last_text(fields, "item_types"@))
    &&& form.files@ == all_texts(fields, "files[]"@)
}

/// Every number of the form for files is a number.
pub open spec fn files_form_reads(fields: Seq<FormField>) -> bool {
    &&& number_or_zero(last_text(fields, "id"@)) is Some
    &&& small_number_or_zero(last_text(fields, "types"@)) is Some
    &&& small_number_or_zero(last_text(fields, "item_types"@)) is Some
}

/// Reads the form for the files of an item from the pieces of a multipart
/// body.
pub fn files_form(fields: &Vec<FormField>) -> (result: Result<FilesForm, Error>)
    ensures
        match result {
            Ok(form) => files_form_reads(fields@) && is_files_form(form, fields@),
            Err(e) => e == Error::ValidationFailed(Field::Number) && !files_form_reads(fields@),
        },
{
    let bad = Error::ValidationFailed(Field::Number);
    let id: i32 = match number_field(fields, "id") {
        Some(v) => v,
        None => {
            return Err(bad);
        },
    };
    let types: i16 = match small_number_field(fields, "types") {
        Some(v) => v,
        None => {
            return Err(bad);
        },
    };
    let item_types: i16 = match small_number_field(fields, "item_types") {
        Some(v) => v,
        None => {
            return Err(bad);
        },
    };
    Ok(
        FilesForm {
            token: text_field(fields, "token"),
            id,
            types,
            item_types,
            files: collect_texts(fields, "files[]"),
        },
    )
}

} // verus!
