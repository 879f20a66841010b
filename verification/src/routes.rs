//! What each request of the key-value service does to the store, and what
//! it is answered.
//!
//! ```text
//! GET    /keys              - list all keys
//! GET    /keys/:key         - get a value  (404 if missing)
//! POST   /keys              - create  { "key": "...", "value": "..." }  (409 if duplicate)
//! PUT    /keys/:key         - update  { "value": "..." }  (404 if missing)
//! DELETE /keys/:key         - delete  (404 if missing)
//! ```
use vstd::prelude::*;
use crate::store::KvStore;

verus! {

/// The body of a request that creates a key.
pub struct CreatePayload {
    pub key: String,
    pub value: String,
}

/// The body of a request that sets the value of an existing key.
pub struct UpdatePayload {
    pub value: String,
}

/// The answer to a request on a single key.
pub enum Reply {
    /// The key's value was read; answered with status 200 and the value.
    Found(String),
    /// The key's value was replaced; answered with status 200.
    Updated,
    /// The key was added; answered with status 201.
    Created,
    /// The key was removed; answered with status 204.
    Deleted,
    /// The key has no value; answered with status 404.
    NotFound,
    /// The key to be created already has a value; answered with status 409.
    Conflict,
}

/// A [`Reply`] with the value read as a sequence of characters.
pub enum ReplyView {
    Found(Seq<char>),
    Updated,
    Created,
    Deleted,
    NotFound,
    Conflict,
}

impl View for Reply {
    type V = ReplyView;

    open spec fn view(&self) -> ReplyView {
        match self {
            Reply::Found(value) => ReplyView::Found(value@),
            Reply::Updated => ReplyView::Updated,
            Reply::Created => ReplyView::Created,
            Reply::Deleted => ReplyView::Deleted,
            Reply::NotFound => ReplyView::NotFound,
            Reply::Conflict => ReplyView::Conflict,
        }
    }
}

/// The HTTP status code with which a reply is sent.
pub open spec fn status_of(reply: ReplyView) -> u16 {
    match reply {
        ReplyView::Found(_) => 200,
        ReplyView::Updated => 200,
        ReplyView::Created => 201,
        ReplyView::Deleted => 204,
        ReplyView::NotFound => 404,
        ReplyView::Conflict => 409,
    }
}

/// The answer to reading `key` from a store holding `m`.
pub open spec fn read_outcome(m: Map<Seq<char>, Seq<char>>, key: Seq<char>) -> ReplyView {
    if m.contains_key(key) {
        ReplyView::Found(m[key])
    } else {
        ReplyView::NotFound
    }
}

/// The store after, and the answer to, creating `key` with `value` in a
/// store holding `m`: an existing key is refused and left as it was.
pub open spec fn create_outcome(
    m: Map<Seq<char>, Seq<char>>,
    key: Seq<char>,
    value: Seq<char>,
) -> (Map<Seq<char>, Seq<char>>, ReplyView) {
    if m.contains_key(key) {
        (m, ReplyView::Conflict)
    } else {
        (m.insert(key, value), ReplyView::Created)
    }
}

/// The store after, and the answer to, setting `key` to `value` in a store
/// holding `m`: a missing key is refused and not added.
pub open spec fn update_outcome(
    m: Map<Seq<char>, Seq<char>>,
    key: Seq<char>,
    value: Seq<char>,
) -> (Map<Seq<char>, Seq<char>>, ReplyView) {
    if m.contains_key(key) {
        (m.insert(key, value), ReplyView::Updated)
    } else {
        (m, ReplyView::NotFound)
    }
}

/// The store after, and the answer to, deleting `key` from a store holding
/// `m`.
pub open spec fn delete_outcome(m: Map<Seq<char>, Seq<char>>, key: Seq<char>) -> (
    Map<Seq<char>, Seq<char>>,
    ReplyView,
) {
    if m.contains_key(key) {
        (m.remove(key), ReplyView::Deleted)
    } else {
        (m, ReplyView::NotFound)
    }
}

/// Whether `listed` names every key of `m`, each exactly once.
pub open spec fn lists_keys_of(listed: Seq<String>, m: Map<Seq<char>, Seq<char>>) -> bool {
    &&& listed.map_values(|k: String| k@).to_set() == m.dom()
    &&& listed.map_values(|k: String| k@).no_duplicates()
}

impl Reply {
    /// The HTTP status code with which this reply is sent.
    pub fn status(&self) -> (code: u16)
        ensures
            code == status_of(self@),
            self@ is Found ==> code == 200,
            self@ is Updated ==> code == 200,
            self@ is Created ==> code == 201,
            self@ is Deleted ==> code == 204,
            self@ is NotFound ==> code == 404,
            self@ is Conflict ==> code == 409,
    {
        match self {
            Reply::Found(_) => 200,
            Reply::Updated => 200,
            Reply::Created => 201,
            Reply::Deleted => 204,
            Reply::NotFound => 404,
            Reply::Conflict => 409,
        }
    }
}

/// `GET /keys`: every key of the store, each once, in no promised order.
pub fn list_keys(store: &KvStore) -> (keys: Vec<String>)
    ensures
        lists_keys_of(keys@, store@),
{
    store.keys()
}

/// `GET /keys/:key`: the value of `key`, or not found.
pub fn get_key(store: &KvStore, key: &str) -> (reply: Reply)
    ensures
        reply@ == read_outcome(store@, key@),
{
    match store.get(key) {
        Some(value) => Reply::Found(value.clone()),
        None => Reply::NotFound,
    }
}

/// `POST /keys`: adds the payload's key with its value, unless the key
/// already has a value, which is a conflict.
pub fn create_key(store: &mut KvStore, payload: CreatePayload) -> (reply: Reply)
    ensures
        final(store)@ == create_outcome(old(store)@, payload.key@, payload.value@).0,
        reply@ == create_outcome(old(store)@, payload.key@, payload.value@).1,
{
    if store.contains_key(payload.key.as_str()) {
        return Reply::Conflict;
    }
    store.insert(payload.key, payload.value);
    Reply::Created
}

/// `PUT /keys/:key`: sets the value of `key`, which must already have one.
pub fn update_key(store: &mut KvStore, key: String, payload: UpdatePayload) -> (reply: Reply)
    ensures
        final(store)@ == update_outcome(old(store)@, key@, payload.value@).0,
        reply@ == update_outcome(old(store)@, key@, payload.value@).1,
{
    if !store.contains_key(key.as_str()) {
        return Reply::NotFound;
    }
    store.insert(key, payload.value);
    Reply::Updated
}

/// `DELETE /keys/:key`: removes `key` and its value, or answers not found.
pub fn delete_key(store: &mut KvStore, key: &str) -> (reply: Reply)
    ensures
        final(store)@ == delete_outcome(old(store)@, key@).0,
        reply@ == delete_outcome(old(store)@, key@).1,
{
    if !store.remove(key) {
        return Reply::NotFound;
    }
    Reply::Deleted
}

} // verus!
