//! What holds of the store and of its answers, whatever the requests: stated
//! over the values that the operations' contracts speak of, and proved.

use crate::handlers::answers;
use crate::model::{TodoItemView, UpdateTodoRequestView};
use crate::store::{StoreError, StoreView};
use crate::wire::{Method, PayloadView, ResponseView, Status};
use vstd::prelude::*;

verus! {

/// The empty store is valid, and every operation keeps a valid store valid.
pub proof fn law_operations_keep_validity(
    store: StoreView,
    id: u128,
    title: Seq<char>,
    new_title: Option<Seq<char>>,
    completed: Option<bool>,
)
    requires
        store.valid(),
    ensures
        StoreView::empty().valid(),
        store.create(id, title).valid(),
        store.update(id, new_title, completed).valid(),
        store.delete(id).valid(),
{
}

/// No operation takes an identifier out of the set of those issued, and only
/// a creation adds one: its own.
pub proof fn law_issued_only_grows(
    store: StoreView,
    id: u128,
    title: Seq<char>,
    new_title: Option<Seq<char>>,
    completed: Option<bool>,
)
    ensures
        store.create(id, title).issued == store.issued.insert(id),
        store.update(id, new_title, completed).issued == store.issued,
        store.delete(id).issued == store.issued,
{
}

/// A creation under an identifier that the store does not hold replaces
/// nothing: the store gains one record and keeps every record that it held.
pub proof fn law_creation_under_free_id(store: StoreView, id: u128, title: Seq<char>)
    requires
        store.valid(),
        !store.contains(id),
    ensures
        store.create(id, title).records.len() == store.records.len() + 1,
        forall|other: u128| #[trigger]
            store.contains(other) ==> store.create(id, title).get(other) == store.get(other),
{
}

/// A creation stores a record that is not completed, under the identifier it
/// was given and with the title it was given, and issues the identifier.
/// Where that identifier was not issued before, no record was ever held
/// under it, and the creation replaces nothing: the store gains one record
/// and keeps every record that it held.
pub proof fn law_creation_under_unissued_id(store: StoreView, id: u128, title: Seq<char>)
    requires
        store.valid(),
    ensures
        store.create(id, title).get(id) == Ok::<TodoItemView, StoreError>(
            TodoItemView { id, title, completed: false },
        ),
        store.create(id, title).issued.contains(id),
        !store.issued.contains(id) ==> !store.contains(id),
        !store.issued.contains(id) ==> store.create(id, title).records.len()
            == store.records.len() + 1,
        !store.issued.contains(id) ==> forall|other: u128| #[trigger]
            store.contains(other) ==> store.create(id, title).get(other) == store.get(other),
{
    if !store.issued.contains(id) {
        law_creation_under_free_id(store, id, title);
    }
}

/// Under an identifier that no creation issued the store holds nothing:
/// a request for the record, a change and a removal all find no record, leave
/// the store as it is, and are answered with 404.
pub proof fn law_unissued_id_is_not_found(
    store: StoreView,
    id: u128,
    title: Option<Seq<char>>,
    completed: Option<bool>,
)
    requires
        store.valid(),
        !store.issued.contains(id),
    ensures
        store.get(id) == Err::<TodoItemView, StoreError>(StoreError::NotFound),
        store.update_result(id, title, completed) == Err::<TodoItemView, StoreError>(
            StoreError::NotFound,
        ),
        store.delete_result(id) == Err::<(), StoreError>(StoreError::NotFound),
        store.update(id, title, completed) == store,
        store.delete(id) == store,
        ResponseView::got(store, id) == ResponseView::not_found(),
        ResponseView::updated(store, id, UpdateTodoRequestView { title, completed })
            == ResponseView::not_found(),
        ResponseView::deleted(store, id) == ResponseView::not_found(),
        ResponseView::not_found().status == Status::NotFound,
{
}

/// Of the removals of one identifier only the first can succeed: after a
/// removal the store holds no record under the identifier, so every further
/// removal finds none, is answered with 404 and changes nothing.
pub proof fn law_second_removal_is_not_found(store: StoreView, id: u128)
    ensures
        store.contains(id) ==> store.delete_result(id) == Ok::<(), StoreError>(()),
        store.contains(id) ==> ResponseView::deleted(store, id).status == Status::NoContent,
        !store.delete(id).contains(id),
        store.delete(id).get(id) == Err::<TodoItemView, StoreError>(StoreError::NotFound),
        store.delete(id).delete_result(id) == Err::<(), StoreError>(StoreError::NotFound),
        store.delete(id).delete(id) == store.delete(id),
        store.delete(id).delete(id).delete_result(id) == Err::<(), StoreError>(
            StoreError::NotFound,
        ),
        ResponseView::deleted(store.delete(id), id) == ResponseView::not_found(),
{
}

/// A change that gives no title and sets the flag changes the flag of its
/// record and nothing else: the record keeps its identifier and its title,
/// and every other record stays as it was.
pub proof fn law_flag_only_update_keeps_title(store: StoreView, id: u128)
    requires
        store.contains(id),
    ensures
        store.update_result(id, None, Some(true)) == Ok::<TodoItemView, StoreError>(
            TodoItemView {
                id: store.records[id].id,
                title: store.records[id].title,
                completed: true,
            },
        ),
        store.update(id, None, Some(true)).records[id] == (TodoItemView {
            id: store.records[id].id,
            title: store.records[id].title,
            completed: true,
        }),
        store.update(id, None, Some(true)).records.dom() == store.records.dom(),
        store.update(id, None, Some(true)).issued == store.issued,
        forall|other: u128|
            other != id ==> #[trigger] store.update(id, None, Some(true)).records[other]
                == store.records[other],
{
    assert(store.update(id, None, Some(true)).records.dom() =~= store.records.dom());
}

/// Creations under identifiers that differ from one another, none of them
/// held by the store, each add a record: after as many creations as there are
/// identifiers, made one after another, the store holds that many records
/// more, one under each of the identifiers, besides every record that it held;
/// and a listing of it has that many entries more.
pub proof fn law_creations_in_sequence(store: StoreView, ids: Seq<u128>, titles: Seq<Seq<char>>)
    requires
        store.valid(),
        ids.len() == titles.len(),
        ids.no_duplicates(),
        forall|i: int| 0 <= i < ids.len() ==> !store.contains(#[trigger] ids[i]),
    ensures
        store.create_all(ids, titles).valid(),
        store.create_all(ids, titles).records.len() == store.records.len() + ids.len(),
        store.create_all(ids, titles).records.dom() == store.records.dom().union(ids.to_set()),
        store.create_all(ids, titles).issued == store.issued.union(ids.to_set()),
        forall|i: int|
            0 <= i < ids.len() ==> store.create_all(ids, titles).get(#[trigger] ids[i]) == Ok::<
                TodoItemView,
                StoreError,
            >(TodoItemView { id: ids[i], title: titles[i], completed: false }),
        forall|other: u128| #[trigger]
            store.contains(other) ==> store.create_all(ids, titles).get(other) == store.get(other),
        forall|listing: Seq<TodoItemView>| #[trigger]
            store.create_all(ids, titles).is_listed_by(listing) ==> listing.len()
                == store.records.len() + ids.len(),
    decreases ids.len(),
{
    if ids.len() == 0 {
        assert(store.issued.union(ids.to_set()) =~= store.issued);
        assert(store.records.dom().union(ids.to_set()) =~= store.records.dom());
    } else {
        let head = ids.drop_last();
        let head_titles = titles.drop_last();
        let id = ids.last();
        law_creations_in_sequence(store, head, head_titles);
        let before = store.create_all(head, head_titles);
        let after = store.create_all(ids, titles);
        assert(after == before.create(id, titles.last()));
        assert(!head.to_set().contains(id)) by {
            if head.to_set().contains(id) {
                let j = choose|j: int| 0 <= j < head.len() && head[j] == id;
                assert(ids[j] == ids[ids.len() - 1]);
            }
        }
        assert(!store.contains(ids[ids.len() - 1]));
        assert(!before.contains(id));
        law_creation_under_free_id(before, id, titles.last());
        assert forall|x: u128| ids.to_set().contains(x) <==> head.to_set().contains(x) || x
            == id by {
            if ids.to_set().contains(x) {
                let j = choose|j: int| 0 <= j < ids.len() && ids[j] == x;
                if j < head.len() {
                    assert(head[j] == x);
                }
            }
            if head.to_set().contains(x) {
                let j = choose|j: int| 0 <= j < head.len() && head[j] == x;
                assert(ids[j] == x);
            }
            if x == id {
                assert(ids[ids.len() - 1] == x);
            }
        }
        assert(after.issued =~= store.issued.union(ids.to_set()));
        assert(after.records.dom() =~= store.records.dom().union(ids.to_set()));
        assert forall|i: int| 0 <= i < ids.len() implies after.get(#[trigger] ids[i]) == Ok::<
            TodoItemView,
            StoreError,
        >(TodoItemView { id: ids[i], title: titles[i], completed: false }) by {
            if i < head.len() {
                assert(head[i] == ids[i] && head_titles[i] == titles[i]);
                assert(before.contains(head[i]));
            }
        }
    }
}

/// A listing of a store shows every record of it: a sequence that holds only
/// records of the store, none twice, and as many as the store holds, leaves
/// none out.
pub proof fn law_listing_leaves_nothing_out(store: StoreView, listing: Seq<TodoItemView>, id: u128)
    requires
        store.valid(),
        store.is_listed_by(listing),
        store.contains(id),
    ensures
        exists|i: int| 0 <= i < listing.len() && #[trigger] listing[i] == store.records[id],
{
    let ids = listing.map_values(|item: TodoItemView| item.id);
    assert(ids.no_duplicates()) by {
        assert forall|i: int, j: int|
            0 <= i < ids.len() && 0 <= j < ids.len() && i != j implies ids[i] != ids[j] by {
            if i < j {
                assert(listing[i].id != listing[j].id);
            } else {
                assert(listing[j].id != listing[i].id);
            }
        }
    }
    ids.unique_seq_to_set();
    assert(ids.to_set().subset_of(store.records.dom())) by {
        assert forall|x: u128| ids.to_set().contains(x) implies store.records.dom().contains(x) by {
            let j = choose|j: int| 0 <= j < ids.len() && ids[j] == x;
            assert(store.records.contains_key(listing[j].id));
        }
    }
    vstd::set_lib::lemma_len_subset(ids.to_set(), store.records.dom());
    vstd::set_lib::lemma_subset_equality(ids.to_set(), store.records.dom());
    assert(ids.to_set().contains(id));
    let i = choose|i: int| 0 <= i < ids.len() && ids[i] == id;
    assert(store.records.contains_key(listing[i].id));
    assert(listing[i] == store.records[id]);
}

/// What was written is what is read: after a creation the store returns the
/// new record, after a change the record as changed, after a removal
/// `NotFound`; and none of the three touches a record under another
/// identifier.
pub proof fn law_reads_follow_writes(
    store: StoreView,
    id: u128,
    other: u128,
    title: Seq<char>,
    new_title: Option<Seq<char>>,
    completed: Option<bool>,
)
    requires
        other != id,
    ensures
        store.create(id, title).get(id) == Ok::<TodoItemView, StoreError>(
            TodoItemView::created(id, title),
        ),
        store.update(id, new_title, completed).get(id) == store.update_result(
            id,
            new_title,
            completed,
        ),
        store.delete(id).get(id) == Err::<TodoItemView, StoreError>(StoreError::NotFound),
        store.create(id, title).get(other) == store.get(other),
        store.update(id, new_title, completed).get(other) == store.get(other),
        store.delete(id).get(other) == store.get(other),
{
}

/// Every answer of the service either reports success and carries no error
/// body, or reports a failure, with 400 or 404, and carries one.
pub proof fn law_failure_carries_error_body(
    before: StoreView,
    method: Method,
    path: Seq<char>,
    payload: PayloadView,
    after: StoreView,
    response: ResponseView,
)
    requires
        answers(before, method, path, payload, after, response),
    ensures
        response.status.success() <==> !response.has_error_body(),
        !response.status.success() ==> response.status == Status::BadRequest || response.status
            == Status::NotFound,
{
}

/// A request that is answered with a failure leaves the store as it was, and
/// so does every request that only reads.
pub proof fn law_failure_changes_nothing(
    before: StoreView,
    method: Method,
    path: Seq<char>,
    payload: PayloadView,
    after: StoreView,
    response: ResponseView,
)
    requires
        answers(before, method, path, payload, after, response),
    ensures
        !response.status.success() ==> after == before,
        method == Method::Get ==> after == before,
{
}

/// A change leaves untouched each field for which it gives nothing, and never
/// touches the identifier.
pub proof fn law_update_is_partial(
    item: TodoItemView,
    title: Option<Seq<char>>,
    completed: Option<bool>,
)
    ensures
        item.updated(title, completed).id == item.id,
        title is None ==> item.updated(title, completed).title == item.title,
        completed is None ==> item.updated(title, completed).completed == item.completed,
        title matches Some(t) ==> item.updated(title, completed).title == t,
        completed matches Some(c) ==> item.updated(title, completed).completed == c,
        item.updated(None, None) == item,
{
}

} // verus!
