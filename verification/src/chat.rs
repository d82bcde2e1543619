//! Messages of a chat and their files.

use vstd::prelude::*;
use crate::catalog::{Catalog, Keyed, Table, same_beside, fresh_id, max_key, lemma_max_key_bounds};
use crate::counter::keys_left;
use crate::errors::{Error, Clash};
use crate::items::{stamp, CLOCK_SHIFT};
use crate::manage::{with_files, append_files};
use crate::models::{Message, File};

verus! {

impl Keyed for Message {
    open spec fn key(&self) -> i32 {
        self.id
    }

    fn id_of(&self) -> (id: i32) {
        self.id
    }

    fn copy(&self) -> (row: Self) {
        self.clone()
    }
}

/// The paths that a message brings along, or none.
pub open spec fn paths_of(paths: Option<Vec<String>>) -> Seq<String> {
    match paths {
        Some(v) => v@,
        None => Seq::empty(),
    }
}

/// The message that is stored for a user in a chat: an ordinary message
/// that has been created and not yet shown.
pub open spec fn new_message(
    id: i32,
    user_id: i32,
    chat_id: i32,
    content: Option<String>,
    now: i64,
) -> Message {
    Message { id, user_id, chat_id, created: stamp(now), content, view: 1, types: 1 }
}

/// The file table after the photos, videos, audios and documents of a
/// message have been stored, in this order.
pub open spec fn with_message_files(
    files: Seq<File>,
    user_id: i32,
    message: i32,
    photos: Seq<String>,
    videos: Seq<String>,
    audios: Seq<String>,
    docs: Seq<String>,
) -> Seq<File> {
    with_files(
        with_files(
            with_files(with_files(files, user_id, message, 11, 1, photos), user_id, message, 11, 2, videos),
            user_id,
            message,
            11,
            3,
            audios,
        ),
        user_id,
        message,
        11,
        4,
        docs,
    )
}

proof fn lemma_max_key_with_files(
    files: Seq<File>,
    user_id: i32,
    item: i32,
    kind: i16,
    sort: i16,
    paths: Seq<String>,
)
    requires
        max_key(files) + paths.len() <= i32::MAX,
    ensures
        max_key(with_files(files, user_id, item, kind, sort, paths)) == max_key(files) + paths.len(),
    decreases paths.len(),
{
    lemma_max_key_bounds(files);
    let all = with_files(files, user_id, item, kind, sort, paths);
    if paths.len() == 0 {
        assert(all =~= files);
    } else {
        let front = paths.drop_last();
        lemma_max_key_with_files(files, user_id, item, kind, sort, front);
        let shorter = with_files(files, user_id, item, kind, sort, front);
        assert(all.drop_last() =~= shorter);
    }
}

fn paths_or_none(paths: Option<Vec<String>>) -> (out: Vec<String>)
    ensures
        out@ == paths_of(paths),
{
    match paths {
        Some(v) => v,
        None => Vec::new(),
    }
}

impl Message {
    /// Stores a message of a user in a chat, and one file row for each file
    /// that it brings along. Returns the stored message.
    pub fn create(
        messages: &mut Vec<Message>,
        catalog: &mut Catalog,
        user_id: i32,
        chat_id: i32,
        content: Option<String>,
        photos: Option<Vec<String>>,
        videos: Option<Vec<String>>,
        audios: Option<Vec<String>>,
        docs: Option<Vec<String>>,
        now: i64,
    ) -> (result: Result<Message, Error>)
        requires
            now <= i64::MAX - 10_800_000_000,
        ensures
            if max_key(old(messages)@) == i32::MAX || max_key(old(catalog).files@) + paths_of(
                photos,
            ).len() + paths_of(videos).len() + paths_of(audios).len() + paths_of(docs).len()
                > i32::MAX {
                &&& result == Err::<Message, Error>(Error::Conflict(Clash::KeysExhausted))
                &&& final(messages)@ == old(messages)@
                &&& *final(catalog) == *old(catalog)
            } else {
                let id = (max_key(old(messages)@) + 1) as i32;
                &&& result == Ok::<Message, Error>(new_message(id, user_id, chat_id, content, now))
                &&& final(messages)@ == old(messages)@.push(
                    new_message(id, user_id, chat_id, content, now),
                )
                &&& final(catalog).files@ == with_message_files(
                    old(catalog).files@,
                    user_id,
                    id,
                    paths_of(photos),
                    paths_of(videos),
                    paths_of(audios),
                    paths_of(docs),
                )
                &&& same_beside(*old(catalog), *final(catalog), set![Table::Files])
            },
    {
        let id: i32 = match fresh_id(messages) {
            Some(id) => id,
            None => {
                return Err(Error::Conflict(Clash::KeysExhausted));
            },
        };
        let photos: Vec<String> = paths_or_none(photos);
        let videos: Vec<String> = paths_or_none(videos);
        let audios: Vec<String> = paths_or_none(audios);
        let docs: Vec<String> = paths_or_none(docs);
        let total: u128 = photos.len() as u128 + videos.len() as u128 + audios.len() as u128
            + docs.len() as u128;
        proof {
            lemma_max_key_bounds(catalog.files@);
        }
        if total > 0x7fff_ffff || !keys_left(&catalog.files, total as usize) {
            return Err(Error::Conflict(Clash::KeysExhausted));
        }
        proof {
            let f0 = catalog.files@;
            lemma_max_key_with_files(f0, user_id, id, 11, 1, photos@);
            let f1 = with_files(f0, user_id, id, 11, 1, photos@);
            lemma_max_key_with_files(f1, user_id, id, 11, 2, videos@);
            let f2 = with_files(f1, user_id, id, 11, 2, videos@);
            lemma_max_key_with_files(f2, user_id, id, 11, 3, audios@);
        }
        append_files(&mut catalog.files, user_id, id, 11, 1, &photos);
        append_files(&mut catalog.files, user_id, id, 11, 2, &videos);
        append_files(&mut catalog.files, user_id, id, 11, 3, &audios);
        append_files(&mut catalog.files, user_id, id, 11, 4, &docs);
        let message = Message {
            id,
            user_id,
            chat_id,
            created: now + CLOCK_SHIFT,
            content,
            view: 1,
            types: 1,
        };
        messages.push(message.clone());
        Ok(message)
    }
}

} // verus!
