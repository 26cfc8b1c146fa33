use vstd::prelude::*;

use crate::entity::MetaModel;
use crate::outcome::{not_found_model, ErrKind, ErrModel};
use crate::rdbc::{DeleteModel, UpdateModel};
use crate::service::{
    batch_remove_model, batch_status_model, disable_model, disabled_value, enable_model,
    enabled_value, find_model, find_query_model, order_column, remove_model, status_column,
    update_order_model,
};

verus! {

/// Law: a status toggle on a record the lookup found writes the toggle's
/// value — the enabled value for `enable`, the disabled value for `disable` —
/// to the status column, and its only filter is equality of the primary key
/// with the given identifier, so a later lookup of that identifier reads the
/// written status.
pub proof fn lemma_status_toggle_targets_record<T>(
    meta: MetaModel,
    id: Seq<char>,
    found: Result<Option<T>, ErrModel>,
)
    requires
        found matches Ok(info) && info is Some,
    ensures
        enable_model(meta, Some(id), found) matches Ok(u) && {
            &&& u.set_texts == seq![(status_column(), enabled_value())]
            &&& u.set_ints == Seq::<(Seq<char>, int)>::empty()
            &&& u.eq_filters == seq![(meta.primary_key, id)]
            &&& u.in_filters == Seq::<(Seq<char>, Seq<Seq<char>>)>::empty()
            &&& u.tables == seq![meta.table]
        },
        disable_model(meta, Some(id), found) matches Ok(u) && {
            &&& u.set_texts == seq![(status_column(), disabled_value())]
            &&& u.eq_filters == seq![(meta.primary_key, id)]
        },
        enable_model(meta, Some(id), found) matches Ok(u) && u.eq_filters == find_query_model(
            meta,
            id,
        ).eq_filters,
{
}

/// Law: when the existence lookup reports that no record carries the
/// identifier — or when no identifier was given at all — every single-record
/// mutation returns the service-category not-found failure, and no mutation
/// statement is produced for the mapper to run.
pub proof fn lemma_missing_record_blocks_mutation<T>(
    meta: MetaModel,
    id: Option<Seq<char>>,
    order: Option<i32>,
    found: Result<Option<T>, ErrModel>,
)
    requires
        found matches Ok(info) && (info is None || id is None),
    ensures
        enable_model(meta, id, found) == Err::<UpdateModel, ErrModel>(not_found_model()),
        disable_model(meta, id, found) == Err::<UpdateModel, ErrModel>(not_found_model()),
        remove_model(meta, id, found) == Err::<DeleteModel, ErrModel>(not_found_model()),
        update_order_model(meta, id, order, found) == Err::<UpdateModel, ErrModel>(
            not_found_model(),
        ),
        not_found_model().kind == ErrKind::Service,
{
}

/// Law: a failure of the existence lookup itself — a mapper failure — passes
/// through every guarded verb unchanged: no wrapping, no swallowing, and no
/// mutation statement.
pub proof fn lemma_lookup_failure_passes_through<T>(
    meta: MetaModel,
    id: Option<Seq<char>>,
    order: Option<i32>,
    found: Result<Option<T>, ErrModel>,
)
    requires
        found matches Err(e),
    ensures
        enable_model(meta, id, found) == Err::<UpdateModel, ErrModel>(found->Err_0),
        disable_model(meta, id, found) == Err::<UpdateModel, ErrModel>(found->Err_0),
        remove_model(meta, id, found) == Err::<DeleteModel, ErrModel>(found->Err_0),
        update_order_model(meta, id, order, found) == Err::<UpdateModel, ErrModel>(
            found->Err_0,
        ),
{
}

/// Law: a batch toggle issues exactly one update statement whatever the
/// identifiers are — existing or not, even none at all. Its only filter is
/// set-membership of the primary key in the given identifiers; there is no
/// existence check, so no equality filter and no failure branch.
pub proof fn lemma_batch_toggle_single_update(meta: MetaModel, ids: Seq<Seq<char>>)
    ensures
        batch_status_model(meta, ids, enabled_value()).in_filters == seq![(meta.primary_key, ids)],
        batch_status_model(meta, ids, enabled_value()).eq_filters == Seq::<
            (Seq<char>, Seq<char>),
        >::empty(),
        batch_status_model(meta, ids, enabled_value()).tables == seq![meta.table],
        batch_status_model(meta, ids, disabled_value()).in_filters == seq![
            (meta.primary_key, ids),
        ],
        batch_status_model(meta, ids, disabled_value()).eq_filters == Seq::<
            (Seq<char>, Seq<char>),
        >::empty(),
        batch_remove_model(meta, ids).in_filters == seq![(meta.primary_key, ids)],
        batch_remove_model(meta, ids).eq_filters == Seq::<(Seq<char>, Seq<char>)>::empty(),
{
}

/// Law: an existence lookup with no identifier makes no mapper call at all;
/// its result is already success with no record.
pub proof fn lemma_absent_id_skips_lookup(meta: MetaModel)
    ensures
        find_model(meta, None) is None,
{
}

/// Law: an ordering change with no order given writes zero to the ordering
/// column when the record exists.
pub proof fn lemma_default_order_is_zero<T>(
    meta: MetaModel,
    id: Seq<char>,
    found: Result<Option<T>, ErrModel>,
)
    requires
        found matches Ok(info) && info is Some,
    ensures
        update_order_model(meta, Some(id), None, found) matches Ok(u) && u.set_ints == seq![
            (order_column(), 0int),
        ],
{
}

} // verus!
