//! Properties of the service that span several requests, stated over the
//! outcomes that the handlers in `routes` are proved to follow.
use vstd::prelude::*;
use crate::routes::{create_outcome, delete_outcome, read_outcome, status_of, update_outcome, ReplyView};

verus! {

/// Creating a new key succeeds, and reading the key then gives the value
/// it was created with.
pub proof fn law_created_key_reads_back(m: Map<Seq<char>, Seq<char>>, key: Seq<char>, value: Seq<char>)
    requires
        !m.contains_key(key),
    ensures
        create_outcome(m, key, value).1 == ReplyView::Created,
        read_outcome(create_outcome(m, key, value).0, key) == ReplyView::Found(value),
{
}

/// Creating a key that already has a value is a conflict, and the key keeps
/// its old value.
pub proof fn law_duplicate_create_conflicts(m: Map<Seq<char>, Seq<char>>, key: Seq<char>, value: Seq<char>)
    requires
        m.contains_key(key),
    ensures
        create_outcome(m, key, value).1 == ReplyView::Conflict,
        create_outcome(m, key, value).0 == m,
        read_outcome(create_outcome(m, key, value).0, key) == ReplyView::Found(m[key]),
{
}

/// Updating an existing key succeeds, and reading the key then gives the new
/// value; the set of keys does not change.
pub proof fn law_updated_key_reads_back(m: Map<Seq<char>, Seq<char>>, key: Seq<char>, value: Seq<char>)
    requires
        m.contains_key(key),
    ensures
        update_outcome(m, key, value).1 == ReplyView::Updated,
        read_outcome(update_outcome(m, key, value).0, key) == ReplyView::Found(value),
        update_outcome(m, key, value).0.dom() == m.dom(),
{
    assert(update_outcome(m, key, value).0.dom() =~= m.dom());
}

/// Updating a key that has no value is answered not found and does not add
/// the key.
pub proof fn law_update_of_missing_key_refused(m: Map<Seq<char>, Seq<char>>, key: Seq<char>, value: Seq<char>)
    requires
        !m.contains_key(key),
    ensures
        update_outcome(m, key, value).1 == ReplyView::NotFound,
        update_outcome(m, key, value).0 == m,
        read_outcome(update_outcome(m, key, value).0, key) == ReplyView::NotFound,
{
}

/// After a delete, whatever it was answered, reading the key is answered not
/// found; the delete succeeds exactly when the key had a value.
pub proof fn law_deleted_key_reads_not_found(m: Map<Seq<char>, Seq<char>>, key: Seq<char>)
    ensures
        read_outcome(delete_outcome(m, key).0, key) == ReplyView::NotFound,
        (delete_outcome(m, key).1 == ReplyView::Deleted) == m.contains_key(key),
        delete_outcome(m, key).1 == ReplyView::Deleted || delete_outcome(m, key).1
            == ReplyView::NotFound,
{
}

/// Deleting a key that was just created gives back the store as it was
/// before the create.
pub proof fn law_delete_undoes_create(m: Map<Seq<char>, Seq<char>>, key: Seq<char>, value: Seq<char>)
    requires
        !m.contains_key(key),
    ensures
        delete_outcome(create_outcome(m, key, value).0, key).1 == ReplyView::Deleted,
        delete_outcome(create_outcome(m, key, value).0, key).0 == m,
{
    assert(delete_outcome(create_outcome(m, key, value).0, key).0 =~= m);
}

/// A second delete of the same key is answered not found and changes
/// nothing.
pub proof fn law_delete_twice(m: Map<Seq<char>, Seq<char>>, key: Seq<char>)
    ensures
        delete_outcome(delete_outcome(m, key).0, key).1 == ReplyView::NotFound,
        delete_outcome(delete_outcome(m, key).0, key).0 == delete_outcome(m, key).0,
{
}

/// Of two updates of the same key, the later one decides the store.
pub proof fn law_last_update_wins(
    m: Map<Seq<char>, Seq<char>>,
    key: Seq<char>,
    first: Seq<char>,
    second: Seq<char>,
)
    ensures
        update_outcome(update_outcome(m, key, first).0, key, second) == update_outcome(
            m,
            key,
            second,
        ),
{
    assert(update_outcome(update_outcome(m, key, first).0, key, second).0 =~= update_outcome(
        m,
        key,
        second,
    ).0);
}

/// A refused request (a conflict, or a key not found) leaves the store as it
/// was.
pub proof fn law_refusals_change_nothing(m: Map<Seq<char>, Seq<char>>, key: Seq<char>, value: Seq<char>)
    ensures
        create_outcome(m, key, value).1 == ReplyView::Conflict ==> create_outcome(m, key, value).0
            == m,
        update_outcome(m, key, value).1 == ReplyView::NotFound ==> update_outcome(m, key, value).0
            == m,
        delete_outcome(m, key).1 == ReplyView::NotFound ==> delete_outcome(m, key).0 == m,
{
}

/// A request on one key does not change what another key reads.
pub proof fn law_other_keys_unaffected(
    m: Map<Seq<char>, Seq<char>>,
    key: Seq<char>,
    value: Seq<char>,
    other: Seq<char>,
)
    requires
        other != key,
    ensures
        read_outcome(create_outcome(m, key, value).0, other) == read_outcome(m, other),
        read_outcome(update_outcome(m, key, value).0, other) == read_outcome(m, other),
        read_outcome(delete_outcome(m, key).0, other) == read_outcome(m, other),
{
}

/// The set of keys, which `list_keys` lists, grows by the key of a create,
/// keeps its members on an update, and loses the key of a delete.
pub proof fn law_key_set_after_writes(m: Map<Seq<char>, Seq<char>>, key: Seq<char>, value: Seq<char>)
    ensures
        create_outcome(m, key, value).0.dom() == m.dom().insert(key),
        update_outcome(m, key, value).0.dom() == m.dom(),
        delete_outcome(m, key).0.dom() == m.dom().remove(key),
{
    assert(create_outcome(m, key, value).0.dom() =~= m.dom().insert(key));
    assert(update_outcome(m, key, value).0.dom() =~= m.dom());
    assert(delete_outcome(m, key).0.dom() =~= m.dom().remove(key));
}

} // verus!

verus! {

/// Every reply is sent with the status of its kind, whatever value it
/// carries: a read value with 200, an update with 200, a create with 201, a
/// delete with 204, a missing key with 404 and a conflict with 409.
pub proof fn law_status_of_each_reply(value: Seq<char>)
    ensures
        status_of(ReplyView::Found(value)) == 200,
        status_of(ReplyView::Updated) == 200,
        status_of(ReplyView::Created) == 201,
        status_of(ReplyView::Deleted) == 204,
        status_of(ReplyView::NotFound) == 404,
        status_of(ReplyView::Conflict) == 409,
{
}

/// A read is answered 200, with the key's value, when the key is present,
/// and 404 exactly when it is missing.
pub proof fn law_read_status(m: Map<Seq<char>, Seq<char>>, key: Seq<char>)
    ensures
        status_of(read_outcome(m, key)) == (if m.contains_key(key) { 200u16 } else { 404u16 }),
        m.contains_key(key) ==> read_outcome(m, key) == ReplyView::Found(m[key]),
{
}

/// A create is answered 201 when the key is new and 409 when it exists; an
/// update 200 when the key exists and 404 when it is missing; a delete 204
/// when the key exists and 404 when it is missing.
pub proof fn law_write_statuses(m: Map<Seq<char>, Seq<char>>, key: Seq<char>, value: Seq<char>)
    ensures
        status_of(create_outcome(m, key, value).1) == (if m.contains_key(key) {
            409u16
        } else {
            201u16
        }),
        status_of(update_outcome(m, key, value).1) == (if m.contains_key(key) {
            200u16
        } else {
            404u16
        }),
        status_of(delete_outcome(m, key).1) == (if m.contains_key(key) {
            204u16
        } else {
            404u16
        }),
{
}

} // verus!
