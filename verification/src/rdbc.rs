use vstd::prelude::*;

use bmbp_rdbc::RdbcTableFilter;
use bmbp_rdbc::RdbcTableWrapper;

verus! {

// ---------------------------------------------------------------------------
// Declared outside types.
//
// The query, update and delete builders of the mapper crate are opaque here:
// this layer fills them and hands them to the caller, which runs them against
// a connection. Their contents are modelled by the uninterpreted functions
// below, and every builder method this layer calls states over those models
// exactly what the mapper crate's source shows it does.
// ---------------------------------------------------------------------------

#[verifier::external_type_specification]
#[verifier::external_body]
pub struct ExQueryWrapper(bmbp_rdbc::QueryWrapper);

#[verifier::external_type_specification]
#[verifier::external_body]
pub struct ExUpdateWrapper(bmbp_rdbc::UpdateWrapper);

#[verifier::external_type_specification]
#[verifier::external_body]
pub struct ExDeleteWrapper(bmbp_rdbc::DeleteWrapper);

#[verifier::external_type_specification]
#[verifier::external_body]
pub struct ExRdbcError(bmbp_rdbc::RdbcError);

/// The views of a sequence of strings.
pub open spec fn views_of(v: Seq<String>) -> Seq<Seq<char>> {
    v.map_values(|s: String| s@)
}

// ---------------------------------------------------------------------------
// Models of the builders' contents.
// ---------------------------------------------------------------------------

/// The target tables a query builder holds, in insertion order.
pub uninterp spec fn query_tables(q: bmbp_rdbc::QueryWrapper) -> Seq<Seq<char>>;

/// The projected columns a query builder holds, in insertion order.
pub uninterp spec fn query_selects(q: bmbp_rdbc::QueryWrapper) -> Seq<Seq<char>>;

/// The equality predicates (column, value) a query builder holds, in order.
pub uninterp spec fn query_eq_filters(q: bmbp_rdbc::QueryWrapper) -> Seq<(Seq<char>, Seq<char>)>;

/// The target tables an update builder holds, in insertion order.
pub uninterp spec fn update_tables(u: bmbp_rdbc::UpdateWrapper) -> Seq<Seq<char>>;

/// The column assignments with text values an update builder holds, in order.
pub uninterp spec fn update_set_texts(u: bmbp_rdbc::UpdateWrapper) -> Seq<(Seq<char>, Seq<char>)>;

/// The column assignments with integer values an update builder holds, in order.
pub uninterp spec fn update_set_ints(u: bmbp_rdbc::UpdateWrapper) -> Seq<(Seq<char>, int)>;

/// The equality predicates (column, value) an update builder holds, in order.
pub uninterp spec fn update_eq_filters(u: bmbp_rdbc::UpdateWrapper) -> Seq<(Seq<char>, Seq<char>)>;

/// The set-membership predicates (column, values) an update builder holds, in order.
pub uninterp spec fn update_in_filters(u: bmbp_rdbc::UpdateWrapper) -> Seq<(Seq<char>, Seq<Seq<char>>)>;

/// The target tables a delete builder holds, in insertion order.
pub uninterp spec fn delete_tables(d: bmbp_rdbc::DeleteWrapper) -> Seq<Seq<char>>;

/// The equality predicates (column, value) a delete builder holds, in order.
pub uninterp spec fn delete_eq_filters(d: bmbp_rdbc::DeleteWrapper) -> Seq<(Seq<char>, Seq<char>)>;

/// The set-membership predicates (column, values) a delete builder holds, in order.
pub uninterp spec fn delete_in_filters(d: bmbp_rdbc::DeleteWrapper) -> Seq<(Seq<char>, Seq<Seq<char>>)>;

/// The message text a mapper error carries, a function of the error alone.
pub uninterp spec fn rdbc_err_msg(e: bmbp_rdbc::RdbcError) -> Seq<char>;

/// Everything the contracts state of a filled query builder.
#[verifier::ext_equal]
pub ghost struct QueryModel {
    pub tables: Seq<Seq<char>>,
    pub selects: Seq<Seq<char>>,
    pub eq_filters: Seq<(Seq<char>, Seq<char>)>,
}

/// Everything the contracts state of a filled update builder.
#[verifier::ext_equal]
pub ghost struct UpdateModel {
    pub tables: Seq<Seq<char>>,
    pub set_texts: Seq<(Seq<char>, Seq<char>)>,
    pub set_ints: Seq<(Seq<char>, int)>,
    pub eq_filters: Seq<(Seq<char>, Seq<char>)>,
    pub in_filters: Seq<(Seq<char>, Seq<Seq<char>>)>,
}

/// Everything the contracts state of a filled delete builder.
#[verifier::ext_equal]
pub ghost struct DeleteModel {
    pub tables: Seq<Seq<char>>,
    pub eq_filters: Seq<(Seq<char>, Seq<char>)>,
    pub in_filters: Seq<(Seq<char>, Seq<Seq<char>>)>,
}

pub open spec fn query_model(q: bmbp_rdbc::QueryWrapper) -> QueryModel {
    QueryModel {
        tables: query_tables(q),
        selects: query_selects(q),
        eq_filters: query_eq_filters(q),
    }
}

pub open spec fn update_model(u: bmbp_rdbc::UpdateWrapper) -> UpdateModel {
    UpdateModel {
        tables: update_tables(u),
        set_texts: update_set_texts(u),
        set_ints: update_set_ints(u),
        eq_filters: update_eq_filters(u),
        in_filters: update_in_filters(u),
    }
}

pub open spec fn delete_model(d: bmbp_rdbc::DeleteWrapper) -> DeleteModel {
    DeleteModel {
        tables: delete_tables(d),
        eq_filters: delete_eq_filters(d),
        in_filters: delete_in_filters(d),
    }
}

// ---------------------------------------------------------------------------
// Builder construction.
// ---------------------------------------------------------------------------

/// Relies on bmbp_rdbc's QueryWrapper::new: a fresh query builder holds no
/// table, no projected column and no filter.
#[verifier::external_body]
pub(crate) fn query_new() -> (q: bmbp_rdbc::QueryWrapper)
    ensures
        query_tables(q) == Seq::<Seq<char>>::empty(),
        query_selects(q) == Seq::<Seq<char>>::empty(),
        query_eq_filters(q) == Seq::<(Seq<char>, Seq<char>)>::empty(),
{
    bmbp_rdbc::QueryWrapper::new()
}

/// Relies on bmbp_rdbc's RdbcTableWrapper::table for QueryWrapper: it pushes
/// the given name onto the builder's table list and changes nothing else.
#[verifier::external_body]
pub(crate) fn query_table(q: &mut bmbp_rdbc::QueryWrapper, name: &String)
    ensures
        query_tables(*final(q)) == query_tables(*old(q)).push(name@),
        query_selects(*final(q)) == query_selects(*old(q)),
        query_eq_filters(*final(q)) == query_eq_filters(*old(q)),
{
    q.table(name.clone());
}

/// Relies on bmbp_rdbc's QueryWrapper::select: it pushes the given column
/// onto the builder's projection list and changes nothing else.
#[verifier::external_body]
pub(crate) fn query_select(q: &mut bmbp_rdbc::QueryWrapper, column: &String)
    ensures
        query_tables(*final(q)) == query_tables(*old(q)),
        query_selects(*final(q)) == query_selects(*old(q)).push(column@),
        query_eq_filters(*final(q)) == query_eq_filters(*old(q)),
{
    q.select(column.clone());
}

/// Relies on bmbp_rdbc's RdbcTableFilter::eq_ for QueryWrapper: it adds the
/// equality predicate (column = value) to the builder's filter and changes
/// nothing else.
#[verifier::external_body]
pub(crate) fn query_eq(q: &mut bmbp_rdbc::QueryWrapper, column: &String, value: &String)
    ensures
        query_tables(*final(q)) == query_tables(*old(q)),
        query_selects(*final(q)) == query_selects(*old(q)),
        query_eq_filters(*final(q)) == query_eq_filters(*old(q)).push((column@, value@)),
{
    q.eq_(column.clone(), value.clone());
}

/// Relies on bmbp_rdbc's UpdateWrapper::new: a fresh update builder holds no
/// table, no assignment and no filter.
#[verifier::external_body]
pub(crate) fn update_new() -> (u: bmbp_rdbc::UpdateWrapper)
    ensures
        update_tables(u) == Seq::<Seq<char>>::empty(),
        update_set_texts(u) == Seq::<(Seq<char>, Seq<char>)>::empty(),
        update_set_ints(u) == Seq::<(Seq<char>, int)>::empty(),
        update_eq_filters(u) == Seq::<(Seq<char>, Seq<char>)>::empty(),
        update_in_filters(u) == Seq::<(Seq<char>, Seq<Seq<char>>)>::empty(),
{
    bmbp_rdbc::UpdateWrapper::new()
}

/// Relies on bmbp_rdbc's RdbcTableWrapper::table for UpdateWrapper: it pushes
/// the given name onto the builder's table list and changes nothing else.
#[verifier::external_body]
pub(crate) fn update_table(u: &mut bmbp_rdbc::UpdateWrapper, name: &String)
    ensures
        update_tables(*final(u)) == update_tables(*old(u)).push(name@),
        update_set_texts(*final(u)) == update_set_texts(*old(u)),
        update_set_ints(*final(u)) == update_set_ints(*old(u)),
        update_eq_filters(*final(u)) == update_eq_filters(*old(u)),
        update_in_filters(*final(u)) == update_in_filters(*old(u)),
{
    u.table(name.clone());
}

/// Relies on bmbp_rdbc's UpdateWrapper::set with a text value: it pushes the
/// assignment (column, value) onto the builder's set list and changes nothing
/// else.
#[verifier::external_body]
pub(crate) fn update_set_text(u: &mut bmbp_rdbc::UpdateWrapper, column: &String, value: &String)
    ensures
        update_tables(*final(u)) == update_tables(*old(u)),
        update_set_texts(*final(u)) == update_set_texts(*old(u)).push((column@, value@)),
        update_set_ints(*final(u)) == update_set_ints(*old(u)),
        update_eq_filters(*final(u)) == update_eq_filters(*old(u)),
        update_in_filters(*final(u)) == update_in_filters(*old(u)),
{
    u.set(column.clone(), value.clone());
}

/// Relies on bmbp_rdbc's UpdateWrapper::set with an integer value: it pushes
/// the assignment (column, value) onto the builder's set list and changes
/// nothing else.
#[verifier::external_body]
pub(crate) fn update_set_int(u: &mut bmbp_rdbc::UpdateWrapper, column: &String, value: i32)
    ensures
        update_tables(*final(u)) == update_tables(*old(u)),
        update_set_texts(*final(u)) == update_set_texts(*old(u)),
        update_set_ints(*final(u)) == update_set_ints(*old(u)).push((column@, value as int)),
        update_eq_filters(*final(u)) == update_eq_filters(*old(u)),
        update_in_filters(*final(u)) == update_in_filters(*old(u)),
{
    u.set(column.clone(), value);
}

/// Relies on bmbp_rdbc's RdbcTableFilter::eq_ for UpdateWrapper: it adds the
/// equality predicate (column = value) to the builder's filter and changes
/// nothing else.
#[verifier::external_body]
pub(crate) fn update_eq(u: &mut bmbp_rdbc::UpdateWrapper, column: &String, value: &String)
    ensures
        update_tables(*final(u)) == update_tables(*old(u)),
        update_set_texts(*final(u)) == update_set_texts(*old(u)),
        update_set_ints(*final(u)) == update_set_ints(*old(u)),
        update_eq_filters(*final(u)) == update_eq_filters(*old(u)).push((column@, value@)),
        update_in_filters(*final(u)) == update_in_filters(*old(u)),
{
    u.eq_(column.clone(), value.clone());
}

/// Relies on bmbp_rdbc's RdbcTableFilter::in_v_slice for UpdateWrapper: it
/// adds the set-membership predicate (column in values) to the builder's
/// filter and changes nothing else.
#[verifier::external_body]
pub(crate) fn update_in_values(u: &mut bmbp_rdbc::UpdateWrapper, column: &String, values: &Vec<String>)
    ensures
        update_tables(*final(u)) == update_tables(*old(u)),
        update_set_texts(*final(u)) == update_set_texts(*old(u)),
        update_set_ints(*final(u)) == update_set_ints(*old(u)),
        update_eq_filters(*final(u)) == update_eq_filters(*old(u)),
        update_in_filters(*final(u)) == update_in_filters(*old(u)).push((column@, views_of(values@))),
{
    u.in_v_slice(column.clone(), values.as_slice());
}

/// Relies on bmbp_rdbc's DeleteWrapper::new: a fresh delete builder holds no
/// table and no filter.
#[verifier::external_body]
pub(crate) fn delete_new() -> (d: bmbp_rdbc::DeleteWrapper)
    ensures
        delete_tables(d) == Seq::<Seq<char>>::empty(),
        delete_eq_filters(d) == Seq::<(Seq<char>, Seq<char>)>::empty(),
        delete_in_filters(d) == Seq::<(Seq<char>, Seq<Seq<char>>)>::empty(),
{
    bmbp_rdbc::DeleteWrapper::new()
}

/// Relies on bmbp_rdbc's RdbcTableWrapper::table for DeleteWrapper: it pushes
/// the given name onto the builder's table list and changes nothing else.
#[verifier::external_body]
pub(crate) fn delete_table(d: &mut bmbp_rdbc::DeleteWrapper, name: &String)
    ensures
        delete_tables(*final(d)) == delete_tables(*old(d)).push(name@),
        delete_eq_filters(*final(d)) == delete_eq_filters(*old(d)),
        delete_in_filters(*final(d)) == delete_in_filters(*old(d)),
{
    d.table(name.clone());
}

/// Relies on bmbp_rdbc's RdbcTableFilter::eq_ for DeleteWrapper: it adds the
/// equality predicate (column = value) to the builder's filter and changes
/// nothing else.
#[verifier::external_body]
pub(crate) fn delete_eq(d: &mut bmbp_rdbc::DeleteWrapper, column: &String, value: &String)
    ensures
        delete_tables(*final(d)) == delete_tables(*old(d)),
        delete_eq_filters(*final(d)) == delete_eq_filters(*old(d)).push((column@, value@)),
        delete_in_filters(*final(d)) == delete_in_filters(*old(d)),
{
    d.eq_(column.clone(), value.clone());
}

/// Relies on bmbp_rdbc's RdbcTableFilter::in_v_slice for DeleteWrapper: it
/// adds the set-membership predicate (column in values) to the builder's
/// filter and changes nothing else.
#[verifier::external_body]
pub(crate) fn delete_in_values(d: &mut bmbp_rdbc::DeleteWrapper, column: &String, values: &Vec<String>)
    ensures
        delete_tables(*final(d)) == delete_tables(*old(d)),
        delete_eq_filters(*final(d)) == delete_eq_filters(*old(d)),
        delete_in_filters(*final(d)) == delete_in_filters(*old(d)).push((column@, views_of(values@))),
{
    d.in_v_slice(column.clone(), values.as_slice());
}

/// Relies on bmbp_rdbc's RdbcError::get_msg: it returns the error's message
/// text, a function of the error value alone.
#[verifier::external_body]
pub(crate) fn rdbc_error_message(e: &bmbp_rdbc::RdbcError) -> (r: String)
    ensures
        r@ == rdbc_err_msg(*e),
{
    e.get_msg()
}

} // verus!
