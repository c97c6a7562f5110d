//! What holds of the operations taken together, proved over the model that
//! their contracts are stated in.
//!
//! A store that several tasks share is written under an exclusive lock, so
//! whatever they do at once happens in some order, one operation after the
//! other. A history is such an order; what is proved of every history holds
//! of every interleaving.

use vstd::prelude::*;
use crate::ident::is_random_uuid_text;
use crate::model::{fresh_project, ProjectView};
use crate::service::{created, fetched, replace_reply, replaced, ServiceError};
use crate::store::Records;

verus! {

/// One writing operation, by what it was called with.
pub enum Op {
    Create { id: Seq<char>, name: Seq<char> },
    Replace { id: Seq<char>, payload: ProjectView },
}

/// `op` creates a project under `id`.
pub open spec fn is_create_of(op: Op, id: Seq<char>) -> bool {
    match op {
        Op::Create { id: own, .. } => own == id,
        Op::Replace { .. } => false,
    }
}

/// `op` replaces the project under `id`.
pub open spec fn is_replace_of(op: Op, id: Seq<char>) -> bool {
    match op {
        Op::Create { .. } => false,
        Op::Replace { id: own, .. } => own == id,
    }
}

/// The record that `op` hands to the store.
pub open spec fn record_of(op: Op) -> ProjectView {
    match op {
        Op::Create { id, name } => fresh_project(id, name),
        Op::Replace { payload, .. } => payload,
    }
}

/// The store after `op`.
pub open spec fn step(records: Records, op: Op) -> Records {
    match op {
        Op::Create { id, name } => created(records, id, name),
        Op::Replace { id, payload } => replaced(records, id, payload),
    }
}

/// The store after the operations of `ops`, first to last.
pub open spec fn run(records: Records, ops: Seq<Op>) -> Records
    decreases ops.len(),
{
    if ops.len() == 0 {
        records
    } else {
        step(run(records, ops.drop_last()), ops.last())
    }
}

/// Some operation of `ops` creates a project under `id`.
pub open spec fn creates(ops: Seq<Op>, id: Seq<char>) -> bool {
    exists|k: int| 0 <= k < ops.len() && is_create_of(#[trigger] ops[k], id)
}

/// Every key of `records` is a non-empty identifier.
pub open spec fn ids_nonempty(records: Records) -> bool {
    forall|id: Seq<char>| #[trigger] records.contains_key(id) ==> id.len() > 0
}

/// Every record of `records` carries the identifier it is filed under.
pub open spec fn ids_match_keys(records: Records) -> bool {
    forall|id: Seq<char>| #[trigger] records.contains_key(id) ==> records[id].id == id
}

/// A created project has the given name and no walls, and a fetch of its
/// identifier right after the creation answers that very project.
pub proof fn law_create_then_fetch(records: Records, id: Seq<char>, name: Seq<char>)
    ensures
        fresh_project(id, name).id == id,
        fresh_project(id, name).name == name,
        fresh_project(id, name).walls.len() == 0,
        fetched(created(records, id, name), id) == Ok::<ProjectView, ServiceError>(
            fresh_project(id, name),
        ),
{
}

/// An identifier that a random draw produced is never empty.
pub proof fn law_drawn_id_nonempty(id: Seq<char>)
    requires
        is_random_uuid_text(id),
    ensures
        id.len() > 0,
{
}

/// Under an identifier that the store does not hold, a fetch and a
/// replacement both answer `NotFound`, and the replacement changes nothing.
pub proof fn law_unknown_id(records: Records, id: Seq<char>, payload: ProjectView)
    requires
        !records.contains_key(id),
    ensures
        fetched(records, id) == Err::<ProjectView, ServiceError>(ServiceError::NotFound),
        replace_reply(records, id, payload) == Err::<ProjectView, ServiceError>(
            ServiceError::NotFound,
        ),
        replaced(records, id, payload) == records,
{
}

/// After any history, the store holds an identifier exactly if it held it
/// before or some operation of the history created it. Replacements add none
/// and nothing removes one.
pub proof fn law_known_ids(records: Records, ops: Seq<Op>, id: Seq<char>)
    ensures
        run(records, ops).contains_key(id) <==> records.contains_key(id) || creates(ops, id),
    decreases ops.len(),
{
    if ops.len() > 0 {
        let front = ops.drop_last();
        law_known_ids(records, front, id);
        if creates(front, id) {
            let k = choose|k: int| 0 <= k < front.len() && is_create_of(#[trigger] front[k], id);
            assert(is_create_of(ops[k], id));
        }
        if is_create_of(ops.last(), id) {
            assert(is_create_of(ops[ops.len() - 1], id));
        }
        if creates(ops, id) && !is_create_of(ops.last(), id) {
            let k = choose|k: int| 0 <= k < ops.len() && is_create_of(#[trigger] ops[k], id);
            assert(is_create_of(front[k], id));
        }
    }
}

/// Starting from the empty store, an identifier that no operation so far has
/// created is unknown: a fetch and a replacement both answer `NotFound`.
pub proof fn law_never_created_not_found(ops: Seq<Op>, id: Seq<char>, payload: ProjectView)
    requires
        !creates(ops, id),
    ensures
        fetched(run(Records::empty(), ops), id) == Err::<ProjectView, ServiceError>(
            ServiceError::NotFound,
        ),
        replace_reply(run(Records::empty(), ops), id, payload) == Err::<
            ProjectView,
            ServiceError,
        >(ServiceError::NotFound),
        replaced(run(Records::empty(), ops), id, payload) == run(Records::empty(), ops),
{
    law_known_ids(Records::empty(), ops, id);
}

/// A replacement under an identifier that the store holds answers the
/// payload as it was given, and a fetch right after answers it too: the whole
/// record is overwritten, whatever stood there. Every other record stays.
pub proof fn law_replace_then_fetch(records: Records, id: Seq<char>, payload: ProjectView)
    requires
        records.contains_key(id),
    ensures
        replace_reply(records, id, payload) == Ok::<ProjectView, ServiceError>(payload),
        fetched(replaced(records, id, payload), id) == Ok::<ProjectView, ServiceError>(payload),
        forall|other: Seq<char>|
            other != id ==> fetched(replaced(records, id, payload), other) == fetched(
                records,
                other,
            ),
{
}

/// A replacement right after the creation of its identifier succeeds.
pub proof fn law_create_then_replace(
    records: Records,
    id: Seq<char>,
    name: Seq<char>,
    payload: ProjectView,
)
    ensures
        replace_reply(created(records, id, name), id, payload) == Ok::<ProjectView, ServiceError>(
            payload,
        ),
        fetched(replaced(created(records, id, name), id, payload), id) == Ok::<
            ProjectView,
            ServiceError,
        >(payload),
{
}

/// The same replacement made twice in a row leaves the store as one does,
/// and answers the same both times.
pub proof fn law_replace_idempotent(records: Records, id: Seq<char>, payload: ProjectView)
    ensures
        replaced(replaced(records, id, payload), id, payload) == replaced(records, id, payload),
        replace_reply(replaced(records, id, payload), id, payload) == replace_reply(
            records,
            id,
            payload,
        ),
{
    assert(replaced(replaced(records, id, payload), id, payload) =~= replaced(
        records,
        id,
        payload,
    ));
}

/// A replacement neither adds an identifier to the store nor takes one away.
pub proof fn law_replace_keeps_ids(records: Records, id: Seq<char>, payload: ProjectView)
    ensures
        replaced(records, id, payload).dom() == records.dom(),
{
    assert(replaced(records, id, payload).dom() =~= records.dom());
}

/// The identifier that `op` names.
pub open spec fn id_of(op: Op) -> Seq<char> {
    match op {
        Op::Create { id, .. } => id,
        Op::Replace { id, .. } => id,
    }
}

/// No operation of `ops` names `id`.
pub open spec fn leaves_alone(ops: Seq<Op>, id: Seq<char>) -> bool {
    forall|k: int| 0 <= k < ops.len() ==> id_of(#[trigger] ops[k]) != id
}

/// Every operation of `ops` is a creation, and no two of them create under
/// the same identifier.
pub open spec fn distinct_creates(ops: Seq<Op>) -> bool {
    &&& forall|k: int| 0 <= k < ops.len() ==> is_create_of(#[trigger] ops[k], id_of(ops[k]))
    &&& forall|j: int, k: int|
        0 <= j < k < ops.len() ==> id_of(#[trigger] ops[j]) != id_of(#[trigger] ops[k])
}

/// Every operation of `ops` is a replacement under `id`.
pub open spec fn replaces_of(ops: Seq<Op>, id: Seq<char>) -> bool {
    forall|k: int| 0 <= k < ops.len() ==> is_replace_of(#[trigger] ops[k], id)
}

/// Operations under other identifiers do not touch the project under `id`:
/// a fetch of `id` answers after them what it answered before.
pub proof fn law_other_ids_untouched(records: Records, ops: Seq<Op>, id: Seq<char>)
    requires
        leaves_alone(ops, id),
    ensures
        fetched(run(records, ops), id) == fetched(records, id),
    decreases ops.len(),
{
    if ops.len() > 0 {
        let front = ops.drop_last();
        assert forall|k: int| 0 <= k < front.len() implies id_of(#[trigger] front[k]) != id by {
            assert(front[k] == ops[k]);
        }
        law_other_ids_untouched(records, front, id);
        assert(id_of(ops[ops.len() - 1]) != id);
    }
}

/// Creations under identifiers that all differ, in whatever order they take
/// effect, do not overwrite one another: afterwards a fetch of each
/// identifier answers the project that was created under it.
pub proof fn law_distinct_creates_all_kept(records: Records, ops: Seq<Op>, k: int)
    requires
        distinct_creates(ops),
        0 <= k < ops.len(),
    ensures
        fetched(run(records, ops), id_of(ops[k])) == Ok::<ProjectView, ServiceError>(
            record_of(ops[k]),
        ),
    decreases ops.len(),
{
    let front = ops.drop_last();
    let last = ops[ops.len() - 1];
    assert(is_create_of(last, id_of(last)));
    if k < ops.len() - 1 {
        assert forall|j: int| 0 <= j < front.len() implies is_create_of(
            #[trigger] front[j],
            id_of(front[j]),
        ) by {
            assert(front[j] == ops[j]);
        }
        assert forall|i: int, j: int| 0 <= i < j < front.len() implies id_of(#[trigger] front[i])
            != id_of(#[trigger] front[j]) by {
            assert(front[i] == ops[i]);
            assert(front[j] == ops[j]);
        }
        law_distinct_creates_all_kept(records, front, k);
        assert(front[k] == ops[k]);
        assert(id_of(ops[k]) != id_of(last));
    } else {
        assert(is_create_of(ops[k], id_of(ops[k])));
    }
}

/// Replacements under one identifier, in whatever order they take effect.
///
/// Where the store holds the identifier, each of them succeeds and answers
/// its own payload, and the record stored at the end is the payload of the
/// one that came last: one of those submitted, whole, and no mixture of
/// several. Where the store does not hold it, each answers `NotFound` and the
/// store is at the end what it was. Either way no other record changes.
pub proof fn law_replaces_of_one_id(records: Records, ops: Seq<Op>, id: Seq<char>)
    requires
        replaces_of(ops, id),
    ensures
        !records.contains_key(id) ==> run(records, ops) == records,
        records.contains_key(id) && ops.len() > 0 ==> run(records, ops) == records.insert(
            id,
            record_of(ops.last()),
        ),
        records.contains_key(id) && ops.len() > 0 ==> fetched(run(records, ops), id) == Ok::<
            ProjectView,
            ServiceError,
        >(record_of(ops.last())),
        forall|k: int|
            0 <= k < ops.len() ==> replace_reply(
                run(records, #[trigger] ops.take(k)),
                id,
                record_of(ops[k]),
            ) == replace_reply(records, id, record_of(ops[k])),
    decreases ops.len(),
{
    if ops.len() > 0 {
        let front = ops.drop_last();
        let last = ops[ops.len() - 1];
        assert forall|k: int| 0 <= k < front.len() implies is_replace_of(
            #[trigger] front[k],
            id,
        ) by {
            assert(front[k] == ops[k]);
        }
        law_replaces_of_one_id(records, front, id);
        assert(is_replace_of(last, id));
        if records.contains_key(id) {
            if front.len() > 0 {
                assert(run(records, front).insert(id, record_of(last)) =~= records.insert(
                    id,
                    record_of(last),
                ));
            }
        }
        assert forall|k: int| 0 <= k < ops.len() implies replace_reply(
            run(records, #[trigger] ops.take(k)),
            id,
            record_of(ops[k]),
        ) == replace_reply(records, id, record_of(ops[k])) by {
            if k < front.len() {
                assert(ops.take(k) =~= front.take(k));
                assert(front[k] == ops[k]);
            } else {
                assert(ops.take(k) =~= front);
            }
        }
    }
}

/// Where every identifier in the store is non-empty and every creation of a
/// history is made under a non-empty identifier, every identifier in the
/// store is non-empty after it.
pub proof fn law_ids_stay_nonempty(records: Records, ops: Seq<Op>)
    requires
        ids_nonempty(records),
        forall|k: int|
            0 <= k < ops.len() && is_create_of(#[trigger] ops[k], id_of(ops[k])) ==> id_of(
                ops[k],
            ).len() > 0,
    ensures
        ids_nonempty(run(records, ops)),
{
    assert forall|id: Seq<char>| #[trigger] run(records, ops).contains_key(id) implies id.len()
        > 0 by {
        law_known_ids(records, ops, id);
        if !records.contains_key(id) {
            let k = choose|k: int| 0 <= k < ops.len() && is_create_of(#[trigger] ops[k], id);
            assert(id_of(ops[k]) == id);
        }
    }
}

/// A created project is filed under the identifier it carries, and stays so
/// as long as every replacement hands in a payload that carries the
/// identifier it is made under. A payload that carries another is stored as
/// given, and from then on the record and its key disagree.
pub proof fn law_ids_match_keys(records: Records, ops: Seq<Op>)
    requires
        ids_match_keys(records),
        forall|k: int|
            0 <= k < ops.len() && is_replace_of(#[trigger] ops[k], id_of(ops[k])) ==> record_of(
                ops[k],
            ).id == id_of(ops[k]),
    ensures
        ids_match_keys(run(records, ops)),
    decreases ops.len(),
{
    if ops.len() > 0 {
        let front = ops.drop_last();
        let last = ops[ops.len() - 1];
        assert forall|k: int|
            0 <= k < front.len() && is_replace_of(
                #[trigger] front[k],
                id_of(front[k]),
            ) implies record_of(front[k]).id == id_of(front[k]) by {
            assert(front[k] == ops[k]);
        }
        law_ids_match_keys(records, front);
        assert(is_replace_of(last, id_of(last)) ==> record_of(last).id == id_of(last));
    }
}

} // verus!
