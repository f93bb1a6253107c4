//! Who may search which index: the rule that the search routes apply before
//! they query.

use vstd::prelude::*;

verus! {

/// What a role may be granted.
#[derive(Clone, Copy, Debug, PartialEq, Eq, Structural)]
pub enum Permission {
    Analytics,
    PaymentRead,
    PaymentWrite,
    RefundRead,
    RefundWrite,
    DisputeRead,
    DisputeWrite,
    CustomerRead,
    CustomerWrite,
    MerchantAccountRead,
    MerchantAccountWrite,
}

/// The indexes that can be searched.
#[derive(Clone, Copy, Debug, PartialEq, Eq, Structural)]
pub enum SearchIndex {
    PaymentAttempts,
    PaymentIntents,
    Refunds,
    Disputes,
}

/// An index, and the permissions of which any one opens it.
#[derive(Clone, Debug, PartialEq, Eq)]
pub struct IndexPermissions {
    pub index: SearchIndex,
    pub permissions: Vec<Permission>,
}

/// Why a search was refused.
#[derive(Clone, Copy, Debug, PartialEq, Eq, Structural)]
pub enum OpenSearchError {
    IndexAccessNotPermittedError(SearchIndex),
}

/// One of the permissions in `required` is among those `granted`.
pub open spec fn grants_access(required: Seq<Permission>, granted: Seq<Permission>) -> bool {
    exists|i: int| 0 <= i < required.len() && granted.contains(#[trigger] required[i])
}

/// The indexes of `table`, in its order, that the `granted` permissions open.
pub open spec fn accessible_indexes_of(
    table: Seq<IndexPermissions>,
    granted: Seq<Permission>,
) -> Seq<SearchIndex>
    decreases table.len(),
{
    if table.len() == 0 {
        Seq::empty()
    } else {
        let rest = accessible_indexes_of(table.drop_last(), granted);
        if grants_access(table.last().permissions@, granted) {
            rest.push(table.last().index)
        } else {
            rest
        }
    }
}

/// Some entry of `table` is for `index` and is opened by the `granted`
/// permissions.
pub open spec fn index_is_accessible(
    table: Seq<IndexPermissions>,
    granted: Seq<Permission>,
    index: SearchIndex,
) -> bool {
    exists|i: int|
        0 <= i < table.len() && (#[trigger] table[i]).index == index && grants_access(
            table[i].permissions@,
            granted,
        )
}

fn is_granted(granted: &Vec<Permission>, permission: Permission) -> (found: bool)
    ensures
        found == granted@.contains(permission),
{
    let mut at: usize = 0;
    while at < granted.len()
        invariant
            at <= granted.len(),
            forall|j: int| 0 <= j < at ==> granted@[j] != permission,
        decreases granted.len() - at,
    {
        if granted[at] == permission {
            return true;
        }
        at += 1;
    }
    false
}

/// Whether any of the `required` permissions is among those `granted`.
pub fn has_any_permission(required: &Vec<Permission>, granted: &Vec<Permission>) -> (opened: bool)
    ensures
        opened == grants_access(required@, granted@),
{
    let mut at: usize = 0;
    while at < required.len()
        invariant
            at <= required.len(),
            forall|j: int| 0 <= j < at ==> !granted@.contains(#[trigger] required@[j]),
        decreases required.len() - at,
    {
        if is_granted(granted, required[at]) {
            return true;
        }
        at += 1;
    }
    false
}

/// The indexes that a role with the `granted` permissions may search, in the
/// order of the table.
pub fn accessible_indexes(table: &Vec<IndexPermissions>, granted: &Vec<Permission>) -> (indexes: Vec<
    SearchIndex,
>)
    ensures
        indexes@ == accessible_indexes_of(table@, granted@),
{
    let mut indexes: Vec<SearchIndex> = Vec::new();
    let mut at: usize = 0;
    while at < table.len()
        invariant
            at <= table.len(),
            indexes@ == accessible_indexes_of(table@.take(at as int), granted@),
        decreases table.len() - at,
    {
        assert(table@.take(at + 1).drop_last() == table@.take(at as int));
        if has_any_permission(&table[at].permissions, granted) {
            indexes.push(table[at].index);
        }
        at += 1;
    }
    assert(table@.take(at as int) == table@);
    indexes
}

/// Admits a search of `index` by a role with the `granted` permissions, or
/// refuses it, naming the index.
pub fn check_index_access(
    table: &Vec<IndexPermissions>,
    granted: &Vec<Permission>,
    index: SearchIndex,
) -> (admitted: Result<(), OpenSearchError>)
    ensures
        index_is_accessible(table@, granted@, index) ==> admitted is Ok,
        !index_is_accessible(table@, granted@, index) ==> admitted == Err::<(), OpenSearchError>(
            OpenSearchError::IndexAccessNotPermittedError(index),
        ),
{
    let mut at: usize = 0;
    while at < table.len()
        invariant
            at <= table.len(),
            forall|j: int|
                0 <= j < at ==> !((#[trigger] table@[j]).index == index && grants_access(
                    table@[j].permissions@,
                    granted@,
                )),
        decreases table.len() - at,
    {
        if table[at].index == index && has_any_permission(&table[at].permissions, granted) {
            return Ok(());
        }
        at += 1;
    }
    Err(OpenSearchError::IndexAccessNotPermittedError(index))
}

/// An index may be searched on its own exactly when it is among the indexes
/// that a search of all of them covers.
pub proof fn lemma_accessible_indexes_agree(
    table: Seq<IndexPermissions>,
    granted: Seq<Permission>,
    index: SearchIndex,
)
    ensures
        accessible_indexes_of(table, granted).contains(index) <==> index_is_accessible(
            table,
            granted,
            index,
        ),
    decreases table.len(),
{
    if table.len() > 0 {
        let rest = table.drop_last();
        lemma_accessible_indexes_agree(rest, granted, index);
        let all = accessible_indexes_of(table, granted);
        let before = accessible_indexes_of(rest, granted);
        let opened = grants_access(table.last().permissions@, granted);
        if index_is_accessible(table, granted, index) {
            let i = choose|i: int|
                0 <= i < table.len() && (#[trigger] table[i]).index == index && grants_access(
                    table[i].permissions@,
                    granted,
                );
            if i < table.len() - 1 {
                assert(rest[i] == table[i]);
                let k = choose|k: int| 0 <= k < before.len() && before[k] == index;
                assert(all[k] == index);
            } else {
                assert(all[all.len() - 1] == index);
            }
        }
        if all.contains(index) {
            let k = choose|k: int| 0 <= k < all.len() && all[k] == index;
            if !(opened && k == all.len() - 1) {
                let i = choose|i: int|
                    0 <= i < rest.len() && (#[trigger] rest[i]).index == index && grants_access(
                        rest[i].permissions@,
                        granted,
                    );
                assert(table[i] == rest[i]);
            }
        }
    }
}

} // verus!
