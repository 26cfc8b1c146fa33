use vstd::prelude::*;

use crate::entity::{EntityMeta, MetaModel};
use crate::outcome::{not_found_model, CurdError, ErrModel};
use crate::rdbc::{
    delete_eq, delete_in_values, delete_model, delete_new, delete_table, query_eq, query_eq_filters,
    query_model, query_new, query_select, query_selects, query_table, query_tables, update_eq,
    update_in_values, update_model, update_new, update_set_int, update_set_text, update_table,
    views_of, DeleteModel, QueryModel, UpdateModel,
};

verus! {

/// The service layer: entity lifecycle verbs composed from Dao calls. Each
/// verb here is the decision step of one lifecycle operation: from the
/// entity's capability set, the caller's arguments and (for guarded verbs)
/// the outcome of the existence lookup, it decides whether the operation
/// fails outright or proceeds, and builds the exact mapper statement that
/// proceeds. The caller runs the returned statement against a connection and
/// hands its outcome to the matching Dao function.
pub struct BmbpCurdService;

/// The next move of an existence lookup: nothing to ask the mapper (the
/// caller gave no identifier, and the result is already success-with-none),
/// or a single-row query to run.
pub enum FindStep {
    Done,
    Query(bmbp_rdbc::QueryWrapper),
}

impl View for FindStep {
    type V = Option<QueryModel>;

    open spec fn view(&self) -> Option<QueryModel> {
        match self {
            FindStep::Done => None,
            FindStep::Query(q) => Some(query_model(*q)),
        }
    }
}

/// The next move of a guarded update verb: fail with the given error and
/// issue no mapper call, or run the one update statement built here.
pub enum UpdateStep {
    Fail(CurdError),
    Run(bmbp_rdbc::UpdateWrapper),
}

impl View for UpdateStep {
    type V = Result<UpdateModel, ErrModel>;

    open spec fn view(&self) -> Result<UpdateModel, ErrModel> {
        match self {
            UpdateStep::Fail(e) => Err(e@),
            UpdateStep::Run(u) => Ok(update_model(*u)),
        }
    }
}

/// The next move of a guarded remove verb: fail with the given error and
/// issue no mapper call, or run the one delete statement built here.
pub enum DeleteStep {
    Fail(CurdError),
    Run(bmbp_rdbc::DeleteWrapper),
}

impl View for DeleteStep {
    type V = Result<DeleteModel, ErrModel>;

    open spec fn view(&self) -> Result<DeleteModel, ErrModel> {
        match self {
            DeleteStep::Fail(e) => Err(e@),
            DeleteStep::Run(d) => Ok(delete_model(*d)),
        }
    }
}

/// The view of an optional borrowed identifier.
pub open spec fn id_view(id: Option<&String>) -> Option<Seq<char>> {
    match id {
        Some(s) => Some(s@),
        None => None,
    }
}

/// The view of an existence-lookup outcome: the optional record passes
/// through; a failure is taken to its model.
pub open spec fn found_view<T>(found: Result<Option<T>, CurdError>) -> Result<
    Option<T>,
    ErrModel,
> {
    match found {
        Ok(v) => Ok(v),
        Err(e) => Err(e@),
    }
}

/// The soft-status column every entity table carries.
pub open spec fn status_column() -> Seq<char> {
    "data_status"@
}

/// The ordering column every entity table carries.
pub open spec fn order_column() -> Seq<char> {
    "data_order"@
}

/// The status value that marks a record enabled.
pub open spec fn enabled_value() -> Seq<char> {
    "1"@
}

/// The status value that marks a record disabled.
pub open spec fn disabled_value() -> Seq<char> {
    "0"@
}

/// The query an existence lookup runs: the entity's table, all its columns
/// projected, filtered by primary key equal to the identifier.
pub open spec fn find_query_model(meta: MetaModel, id: Seq<char>) -> QueryModel {
    QueryModel {
        tables: seq![meta.table],
        selects: meta.columns,
        eq_filters: seq![(meta.primary_key, id)],
    }
}

/// What the existence lookup decides: no identifier means no mapper call;
/// otherwise the single-row query above.
pub open spec fn find_model(meta: MetaModel, id: Option<Seq<char>>) -> Option<QueryModel> {
    match id {
        None => None,
        Some(i) => Some(find_query_model(meta, i)),
    }
}

/// The update a status toggle runs when the guard passes: set the status
/// column to the given value on the one record whose primary key equals the
/// identifier.
pub open spec fn status_update_model(meta: MetaModel, id: Seq<char>, status: Seq<char>) -> UpdateModel {
    UpdateModel {
        tables: seq![meta.table],
        set_texts: seq![(status_column(), status)],
        set_ints: Seq::<(Seq<char>, int)>::empty(),
        eq_filters: seq![(meta.primary_key, id)],
        in_filters: Seq::<(Seq<char>, Seq<Seq<char>>)>::empty(),
    }
}

/// What a guarded status toggle decides: a lookup failure passes through
/// unchanged; a missing record (or a missing identifier, which the lookup
/// answers with no record) is the service-level not-found failure; otherwise
/// the one status update above.
pub open spec fn status_toggle_model<T>(
    meta: MetaModel,
    id: Option<Seq<char>>,
    found: Result<Option<T>, ErrModel>,
    status: Seq<char>,
) -> Result<UpdateModel, ErrModel> {
    match found {
        Err(e) => Err(e),
        Ok(info) => match (info, id) {
            (Some(_), Some(i)) => Ok(status_update_model(meta, i, status)),
            _ => Err(not_found_model()),
        },
    }
}

pub open spec fn enable_model<T>(
    meta: MetaModel,
    id: Option<Seq<char>>,
    found: Result<Option<T>, ErrModel>,
) -> Result<UpdateModel, ErrModel> {
    status_toggle_model(meta, id, found, enabled_value())
}

pub open spec fn disable_model<T>(
    meta: MetaModel,
    id: Option<Seq<char>>,
    found: Result<Option<T>, ErrModel>,
) -> Result<UpdateModel, ErrModel> {
    status_toggle_model(meta, id, found, disabled_value())
}

/// The update a batch status toggle always runs: set the status column on
/// every record whose primary key is a member of the given identifiers, with
/// no existence check.
pub open spec fn batch_status_model(meta: MetaModel, ids: Seq<Seq<char>>, status: Seq<char>) -> UpdateModel {
    UpdateModel {
        tables: seq![meta.table],
        set_texts: seq![(status_column(), status)],
        set_ints: Seq::<(Seq<char>, int)>::empty(),
        eq_filters: Seq::<(Seq<char>, Seq<char>)>::empty(),
        in_filters: seq![(meta.primary_key, ids)],
    }
}

/// The delete a guarded remove runs when the guard passes.
pub open spec fn remove_delete_model(meta: MetaModel, id: Seq<char>) -> DeleteModel {
    DeleteModel {
        tables: seq![meta.table],
        eq_filters: seq![(meta.primary_key, id)],
        in_filters: Seq::<(Seq<char>, Seq<Seq<char>>)>::empty(),
    }
}

/// What a guarded remove decides, shaped as the status toggles are.
pub open spec fn remove_model<T>(
    meta: MetaModel,
    id: Option<Seq<char>>,
    found: Result<Option<T>, ErrModel>,
) -> Result<DeleteModel, ErrModel> {
    match found {
        Err(e) => Err(e),
        Ok(info) => match (info, id) {
            (Some(_), Some(i)) => Ok(remove_delete_model(meta, i)),
            _ => Err(not_found_model()),
        },
    }
}

/// The delete a batch remove always runs: no existence check, filtered by
/// set-membership of the identifiers.
pub open spec fn batch_remove_model(meta: MetaModel, ids: Seq<Seq<char>>) -> DeleteModel {
    DeleteModel {
        tables: seq![meta.table],
        eq_filters: Seq::<(Seq<char>, Seq<char>)>::empty(),
        in_filters: seq![(meta.primary_key, ids)],
    }
}

/// The order value an ordering update writes: the given order, or zero.
pub open spec fn order_or_default(order: Option<i32>) -> int {
    match order {
        Some(o) => o as int,
        None => 0,
    }
}

/// The update a guarded ordering change runs when the guard passes.
pub open spec fn order_update_model(meta: MetaModel, id: Seq<char>, ord: int) -> UpdateModel {
    UpdateModel {
        tables: seq![meta.table],
        set_texts: Seq::<(Seq<char>, Seq<char>)>::empty(),
        set_ints: seq![(order_column(), ord)],
        eq_filters: seq![(meta.primary_key, id)],
        in_filters: Seq::<(Seq<char>, Seq<Seq<char>>)>::empty(),
    }
}

/// What a guarded ordering change decides, shaped as the status toggles are.
pub open spec fn update_order_model<T>(
    meta: MetaModel,
    id: Option<Seq<char>>,
    order: Option<i32>,
    found: Result<Option<T>, ErrModel>,
) -> Result<UpdateModel, ErrModel> {
    match found {
        Err(e) => Err(e),
        Ok(info) => match (info, id) {
            (Some(_), Some(i)) => Ok(order_update_model(meta, i, order_or_default(order))),
            _ => Err(not_found_model()),
        },
    }
}

impl BmbpCurdService {
    /// The existence lookup. With no identifier it decides that no mapper
    /// call is made and the result is success with no record; with one it
    /// builds the single-row query on the entity's table filtered by primary
    /// key. The caller runs the query and normalizes its outcome through
    /// `BmbpCurdDao::execute_query_one`.
    pub fn find_info_by_id(meta: &EntityMeta, data_id: Option<&String>) -> (r: FindStep)
        ensures
            r@ == find_model(meta@, id_view(data_id)),
    {
        match data_id {
            None => FindStep::Done,
            Some(id) => {
                let mut q = query_new();
                query_table(&mut q, &meta.table);
                let n = meta.columns.len();
                let mut i: usize = 0;
                while i < n
                    invariant
                        i <= n,
                        n == meta.columns@.len(),
                        query_tables(q) =~= seq![meta@.table],
                        query_selects(q) =~= views_of(meta.columns@.subrange(0, i as int)),
                        query_eq_filters(q) == Seq::<(Seq<char>, Seq<char>)>::empty(),
                    decreases n - i,
                {
                    query_select(&mut q, &meta.columns[i]);
                    proof {
                        assert(meta.columns@.subrange(0, i + 1 as int) =~= meta.columns@.subrange(
                            0,
                            i as int,
                        ).push(meta.columns@[i as int]));
                        assert(views_of(meta.columns@.subrange(0, i + 1 as int)) =~= views_of(
                            meta.columns@.subrange(0, i as int),
                        ).push(meta.columns@[i as int]@));
                    }
                    i += 1;
                }
                query_eq(&mut q, &meta.primary_key, id);
                proof {
                    assert(meta.columns@.subrange(0, n as int) =~= meta.columns@);
                    assert(query_model(q) =~~= find_query_model(meta@, id@));
                }
                FindStep::Query(q)
            },
        }
    }

    /// The enable verb's decision: given the existence lookup's outcome,
    /// either the failure it owes (the lookup's own failure unchanged, or the
    /// service-level not-found failure when the record is absent), or the one
    /// update that sets the status column to the enabled value on the record
    /// with the given primary key.
    pub fn enable<T>(
        meta: &EntityMeta,
        data_id: Option<&String>,
        found: Result<Option<T>, CurdError>,
    ) -> (r: UpdateStep)
        ensures
            r@ == enable_model(meta@, id_view(data_id), found_view(found)),
    {
        Self::status_toggle(meta, data_id, found, true)
    }

    /// The disable verb's decision: as `enable`, with the disabled value.
    pub fn disable<T>(
        meta: &EntityMeta,
        data_id: Option<&String>,
        found: Result<Option<T>, CurdError>,
    ) -> (r: UpdateStep)
        ensures
            r@ == disable_model(meta@, id_view(data_id), found_view(found)),
    {
        Self::status_toggle(meta, data_id, found, false)
    }

    /// The shared body of the two status toggles: the explicit guard policy
    /// of single-record mutations (check existence first, mutate only what
    /// exists).
    fn status_toggle<T>(
        meta: &EntityMeta,
        data_id: Option<&String>,
        found: Result<Option<T>, CurdError>,
        enable: bool,
    ) -> (r: UpdateStep)
        ensures
            r@ == status_toggle_model(
                meta@,
                id_view(data_id),
                found_view(found),
                if enable {
                    enabled_value()
                } else {
                    disabled_value()
                },
            ),
    {
        match found {
            Err(e) => UpdateStep::Fail(e),
            Ok(info) => match (info, data_id) {
                (Some(_), Some(id)) => {
                    let status_col = String::from_str("data_status");
                    let status_val = if enable {
                        String::from_str("1")
                    } else {
                        String::from_str("0")
                    };
                    let mut u = update_new();
                    update_set_text(&mut u, &status_col, &status_val);
                    update_table(&mut u, &meta.table);
                    update_eq(&mut u, &meta.primary_key, id);
                    proof {
                        assert(update_model(u) =~~= status_update_model(
                            meta@,
                            id@,
                            if enable {
                                enabled_value()
                            } else {
                                disabled_value()
                            },
                        ));
                    }
                    UpdateStep::Run(u)
                },
                _ => UpdateStep::Fail(CurdError::service_not_found()),
            },
        }
    }

    /// The batch enable verb: with no existence check, one update that sets
    /// the status column to the enabled value on every record whose primary
    /// key is among the given identifiers.
    pub fn batch_enable(meta: &EntityMeta, data_id: &Vec<String>) -> (u: bmbp_rdbc::UpdateWrapper)
        ensures
            update_model(u) == batch_status_model(meta@, views_of(data_id@), enabled_value()),
    {
        Self::batch_status_toggle(meta, data_id, true)
    }

    /// The batch disable verb: as `batch_enable`, with the disabled value.
    pub fn batch_disable(meta: &EntityMeta, data_id: &Vec<String>) -> (u: bmbp_rdbc::UpdateWrapper)
        ensures
            update_model(u) == batch_status_model(meta@, views_of(data_id@), disabled_value()),
    {
        Self::batch_status_toggle(meta, data_id, false)
    }

    /// The shared body of the two batch toggles: the explicit guard policy of
    /// batch mutations (no existence check; absent identifiers silently
    /// affect nothing at the mapper).
    fn batch_status_toggle(meta: &EntityMeta, data_id: &Vec<String>, enable: bool) -> (u:
        bmbp_rdbc::UpdateWrapper)
        ensures
            update_model(u) == batch_status_model(
                meta@,
                views_of(data_id@),
                if enable {
                    enabled_value()
                } else {
                    disabled_value()
                },
            ),
    {
        let status_col = String::from_str("data_status");
        let status_val = if enable {
            String::from_str("1")
        } else {
            String::from_str("0")
        };
        let mut u = update_new();
        update_set_text(&mut u, &status_col, &status_val);
        update_table(&mut u, &meta.table);
        update_in_values(&mut u, &meta.primary_key, data_id);
        proof {
            assert(update_model(u) =~~= batch_status_model(
                meta@,
                views_of(data_id@),
                if enable {
                    enabled_value()
                } else {
                    disabled_value()
                },
            ));
        }
        u
    }

    /// The remove verb's decision: the same guard as the status toggles, and
    /// on a present record the one delete filtered by primary key.
    pub fn remove<T>(
        meta: &EntityMeta,
        data_id: Option<&String>,
        found: Result<Option<T>, CurdError>,
    ) -> (r: DeleteStep)
        ensures
            r@ == remove_model(meta@, id_view(data_id), found_view(found)),
    {
        match found {
            Err(e) => DeleteStep::Fail(e),
            Ok(info) => match (info, data_id) {
                (Some(_), Some(id)) => {
                    let mut d = delete_new();
                    delete_table(&mut d, &meta.table);
                    delete_eq(&mut d, &meta.primary_key, id);
                    proof {
                        assert(delete_model(d) =~~= remove_delete_model(meta@, id@));
                    }
                    DeleteStep::Run(d)
                },
                _ => DeleteStep::Fail(CurdError::service_not_found()),
            },
        }
    }

    /// The batch remove verb: with no existence check, one delete filtered by
    /// set-membership of the identifiers.
    pub fn batch_remove(meta: &EntityMeta, data_id: &Vec<String>) -> (d: bmbp_rdbc::DeleteWrapper)
        ensures
            delete_model(d) == batch_remove_model(meta@, views_of(data_id@)),
    {
        let mut d = delete_new();
        delete_table(&mut d, &meta.table);
        delete_in_values(&mut d, &meta.primary_key, data_id);
        proof {
            assert(delete_model(d) =~~= batch_remove_model(meta@, views_of(data_id@)));
        }
        d
    }

    /// The ordering verb's decision: the same guard as the status toggles,
    /// and on a present record the one update that sets the ordering column
    /// to the given order, or to zero when none is given, on the record with
    /// the given primary key.
    pub fn update_order<T>(
        meta: &EntityMeta,
        data_id: Option<&String>,
        order: Option<i32>,
        found: Result<Option<T>, CurdError>,
    ) -> (r: UpdateStep)
        ensures
            r@ == update_order_model(meta@, id_view(data_id), order, found_view(found)),
    {
        match found {
            Err(e) => UpdateStep::Fail(e),
            Ok(info) => match (info, data_id) {
                (Some(_), Some(id)) => {
                    let order_col = String::from_str("data_order");
                    let ord = match order {
                        Some(o) => o,
                        None => 0,
                    };
                    let mut u = update_new();
                    update_set_int(&mut u, &order_col, ord);
                    update_table(&mut u, &meta.table);
                    update_eq(&mut u, &meta.primary_key, id);
                    proof {
                        assert(update_model(u) =~~= order_update_model(
                            meta@,
                            id@,
                            order_or_default(order),
                        ));
                    }
                    UpdateStep::Run(u)
                },
                _ => UpdateStep::Fail(CurdError::service_not_found()),
            },
        }
    }
}

} // verus!
