use bmbp_curd::dao::BmbpCurdDao;
use bmbp_curd::entity::EntityMeta;
use bmbp_curd::outcome::{CurdError, ErrKind};
use bmbp_curd::service::{BmbpCurdService, DeleteStep, FindStep, UpdateStep};
use bmbp_rdbc::{
    DeleteWrapper, QueryFilterItem, QueryWrapper, RdbcColumn, RdbcError, RdbcErrorType,
    RdbcTableInner, RdbcValue, UpdateWrapper,
};

fn dict_meta() -> EntityMeta {
    EntityMeta {
        table: String::from("bmbp_dict"),
        primary_key: String::from("data_id"),
        columns: vec![
            String::from("data_id"),
            String::from("data_status"),
            String::from("data_order"),
        ],
    }
}

fn column_name(c: &RdbcColumn) -> String {
    match c {
        RdbcColumn::Table(t) => t.get_name().clone(),
        _ => panic!("unexpected column shape"),
    }
}

fn table_name(t: &RdbcTableInner) -> String {
    match t {
        RdbcTableInner::Table(t) => t.get_name().clone(),
        _ => panic!("unexpected table shape"),
    }
}

/// The (column, compare, value) triples of a filter's items.
fn value_filters(f: &bmbp_rdbc::QueryFilter) -> Vec<(String, String, RdbcValue)> {
    f.get_item()
        .iter()
        .map(|i| match i {
            QueryFilterItem::Value(v) => (
                column_name(v.get_column()),
                v.get_compare().name(),
                v.get_value().expect("filter value").clone(),
            ),
            _ => panic!("unexpected filter item shape"),
        })
        .collect()
}

fn text(v: &RdbcValue) -> String {
    match v {
        RdbcValue::String(s) => s.clone(),
        _ => panic!("expected a text value"),
    }
}

fn query_filters(q: &QueryWrapper) -> Vec<(String, String, RdbcValue)> {
    value_filters(q.get_filter().expect("query filter"))
}

fn update_filters(u: &UpdateWrapper) -> Vec<(String, String, RdbcValue)> {
    value_filters(u.get_filter().expect("update filter"))
}

fn delete_filters(d: &DeleteWrapper) -> Vec<(String, String, RdbcValue)> {
    value_filters(d.get_filter().expect("delete filter"))
}

/// The (column, value) pairs an update assigns.
fn update_sets(u: &UpdateWrapper) -> Vec<(String, RdbcValue)> {
    u.get_set_values()
        .iter()
        .map(|(c, v)| {
            let v = match v.as_ref().expect("set value") {
                bmbp_rdbc::RdbcDmlValue::VALUE(v) => v.clone(),
                _ => panic!("expected a plain set value"),
            };
            (column_name(c), v)
        })
        .collect()
}

fn ok_some() -> Result<Option<String>, CurdError> {
    Ok(Some(String::from("a record")))
}

#[test]
fn find_without_id_skips_dao() {
    let step = BmbpCurdService::find_info_by_id(&dict_meta(), None);
    assert!(matches!(step, FindStep::Done));
}

#[test]
fn find_builds_primary_key_query() {
    let id = String::from("d-1");
    let step = BmbpCurdService::find_info_by_id(&dict_meta(), Some(&id));
    let q = match step {
        FindStep::Query(q) => q,
        FindStep::Done => panic!("expected a query"),
    };
    let tables: Vec<String> = q.get_table().iter().map(table_name).collect();
    assert_eq!(tables, vec![String::from("bmbp_dict")]);
    let selects: Vec<String> = q.get_select().iter().map(column_name).collect();
    assert_eq!(
        selects,
        vec![
            String::from("data_id"),
            String::from("data_status"),
            String::from("data_order")
        ]
    );
    let filters = query_filters(&q);
    assert_eq!(filters.len(), 1);
    assert_eq!(filters[0].0, "data_id");
    assert_eq!(filters[0].1, "=");
    assert_eq!(text(&filters[0].2), "d-1");
}

#[test]
fn enable_missing_record_fails_service() {
    let id = String::from("d-1");
    let step = BmbpCurdService::enable::<String>(&dict_meta(), Some(&id), Ok(None));
    match step {
        UpdateStep::Fail(e) => {
            assert_eq!(e.kind, ErrKind::Service);
            assert_eq!(e.msg, "record not found");
        }
        UpdateStep::Run(_) => panic!("a missing record must not reach the mapper"),
    }
}

#[test]
fn disable_missing_record_fails_service() {
    let id = String::from("d-1");
    let step = BmbpCurdService::disable::<String>(&dict_meta(), Some(&id), Ok(None));
    assert!(matches!(step, UpdateStep::Fail(e) if e.kind == ErrKind::Service));
}

#[test]
fn remove_missing_record_fails_service() {
    let id = String::from("d-1");
    let step = BmbpCurdService::remove::<String>(&dict_meta(), Some(&id), Ok(None));
    assert!(matches!(step, DeleteStep::Fail(e) if e.kind == ErrKind::Service));
}

#[test]
fn update_order_missing_record_fails_service() {
    let id = String::from("d-1");
    let step = BmbpCurdService::update_order::<String>(&dict_meta(), Some(&id), Some(3), Ok(None));
    assert!(matches!(step, UpdateStep::Fail(e) if e.kind == ErrKind::Service));
}

#[test]
fn enable_sets_status_one() {
    let id = String::from("d-1");
    let step = BmbpCurdService::enable(&dict_meta(), Some(&id), ok_some());
    let u = match step {
        UpdateStep::Run(u) => u,
        UpdateStep::Fail(_) => panic!("expected an update"),
    };
    let sets = update_sets(&u);
    assert_eq!(sets.len(), 1);
    assert_eq!(sets[0].0, "data_status");
    assert_eq!(text(&sets[0].1), "1");
    let filters = update_filters(&u);
    assert_eq!(filters.len(), 1);
    assert_eq!(filters[0].0, "data_id");
    assert_eq!(filters[0].1, "=");
    assert_eq!(text(&filters[0].2), "d-1");
    let tables: Vec<String> = u.get_table().iter().map(table_name).collect();
    assert_eq!(tables, vec![String::from("bmbp_dict")]);
}

#[test]
fn disable_sets_status_zero() {
    let id = String::from("d-9");
    let step = BmbpCurdService::disable(&dict_meta(), Some(&id), ok_some());
    let u = match step {
        UpdateStep::Run(u) => u,
        UpdateStep::Fail(_) => panic!("expected an update"),
    };
    let sets = update_sets(&u);
    assert_eq!(sets.len(), 1);
    assert_eq!(sets[0].0, "data_status");
    assert_eq!(text(&sets[0].1), "0");
    assert_eq!(text(&update_filters(&u)[0].2), "d-9");
}

#[test]
fn lookup_failure_passes_through_enable() {
    let id = String::from("d-1");
    let found: Result<Option<String>, CurdError> = Err(CurdError {
        kind: ErrKind::Db,
        msg: String::from("connection refused"),
    });
    let step = BmbpCurdService::enable(&dict_meta(), Some(&id), found);
    match step {
        UpdateStep::Fail(e) => {
            assert_eq!(e.kind, ErrKind::Db);
            assert_eq!(e.msg, "connection refused");
        }
        UpdateStep::Run(_) => panic!("a failed lookup must not reach the mapper"),
    }
}

#[test]
fn batch_enable_single_update_in_filter() {
    let ids = vec![String::from("d-1"), String::from("missing")];
    let u = BmbpCurdService::batch_enable(&dict_meta(), &ids);
    let sets = update_sets(&u);
    assert_eq!(sets.len(), 1);
    assert_eq!(sets[0].0, "data_status");
    assert_eq!(text(&sets[0].1), "1");
    let filters = update_filters(&u);
    assert_eq!(filters.len(), 1);
    assert_eq!(filters[0].0, "data_id");
    assert_eq!(filters[0].1, "IN");
    match &filters[0].2 {
        RdbcValue::Vec(vs) => {
            let vs: Vec<String> = vs.iter().map(text).collect();
            assert_eq!(vs, vec![String::from("d-1"), String::from("missing")]);
        }
        _ => panic!("expected a value list"),
    }
}

#[test]
fn batch_disable_sets_status_zero() {
    let ids = vec![String::from("d-1")];
    let u = BmbpCurdService::batch_disable(&dict_meta(), &ids);
    let sets = update_sets(&u);
    assert_eq!(sets.len(), 1);
    assert_eq!(text(&sets[0].1), "0");
    assert_eq!(update_filters(&u)[0].1, "IN");
}

#[test]
fn batch_enable_empty_ids_still_one_update() {
    let ids: Vec<String> = vec![];
    let u = BmbpCurdService::batch_enable(&dict_meta(), &ids);
    assert_eq!(update_sets(&u).len(), 1);
    let filters = update_filters(&u);
    assert_eq!(filters.len(), 1);
    assert_eq!(filters[0].1, "IN");
    match &filters[0].2 {
        RdbcValue::Vec(vs) => assert_eq!(vs.len(), 0),
        _ => panic!("expected a value list"),
    }
}

#[test]
fn remove_builds_delete_by_primary_key() {
    let id = String::from("d-2");
    let step = BmbpCurdService::remove(&dict_meta(), Some(&id), ok_some());
    let d = match step {
        DeleteStep::Run(d) => d,
        DeleteStep::Fail(_) => panic!("expected a delete"),
    };
    let tables: Vec<String> = d.get_table().iter().map(table_name).collect();
    assert_eq!(tables, vec![String::from("bmbp_dict")]);
    let filters = delete_filters(&d);
    assert_eq!(filters.len(), 1);
    assert_eq!(filters[0].0, "data_id");
    assert_eq!(filters[0].1, "=");
    assert_eq!(text(&filters[0].2), "d-2");
}

#[test]
fn batch_remove_in_filter() {
    let ids = vec![String::from("a"), String::from("b")];
    let d = BmbpCurdService::batch_remove(&dict_meta(), &ids);
    let filters = delete_filters(&d);
    assert_eq!(filters.len(), 1);
    assert_eq!(filters[0].0, "data_id");
    assert_eq!(filters[0].1, "IN");
}

#[test]
fn update_order_none_sets_zero() {
    let id = String::from("d-1");
    let step = BmbpCurdService::update_order(&dict_meta(), Some(&id), None, ok_some());
    let u = match step {
        UpdateStep::Run(u) => u,
        UpdateStep::Fail(_) => panic!("expected an update"),
    };
    let sets = update_sets(&u);
    assert_eq!(sets.len(), 1);
    assert_eq!(sets[0].0, "data_order");
    assert!(matches!(sets[0].1, RdbcValue::BigInt(0)));
    assert_eq!(text(&update_filters(&u)[0].2), "d-1");
}

#[test]
fn update_order_some_sets_value() {
    let id = String::from("d-1");
    let step = BmbpCurdService::update_order(&dict_meta(), Some(&id), Some(7), ok_some());
    let u = match step {
        UpdateStep::Run(u) => u,
        UpdateStep::Fail(_) => panic!("expected an update"),
    };
    assert!(matches!(update_sets(&u)[0].1, RdbcValue::BigInt(7)));
}

#[test]
fn insert_round_trip_ok() {
    let r = BmbpCurdDao::execute_insert(Ok(42));
    match r {
        Ok(Some(n)) => assert_eq!(n, 42),
        _ => panic!("expected the inserted count"),
    }
}

#[test]
fn insert_connection_refused_is_db_failure() {
    let e = RdbcError::new(RdbcErrorType::ConnectError, "connection refused");
    let r = BmbpCurdDao::execute_insert(Err(e));
    match r {
        Err(c) => {
            assert_eq!(c.kind, ErrKind::Db);
            assert_eq!(c.msg, "connection refused");
        }
        Ok(_) => panic!("expected a failure"),
    }
}

#[test]
fn update_ok_wraps_count() {
    assert!(matches!(BmbpCurdDao::execute_update(Ok(0)), Ok(Some(0))));
}

#[test]
fn delete_db_failure_carries_message() {
    let e = RdbcError::new(RdbcErrorType::SQLError, "table gone");
    match BmbpCurdDao::execute_delete(Err(e)) {
        Err(c) => {
            assert_eq!(c.kind, ErrKind::Db);
            assert_eq!(c.msg, "table gone");
        }
        Ok(_) => panic!("expected a failure"),
    }
}

#[test]
fn query_one_absent_is_success_none() {
    let r = BmbpCurdDao::execute_query_one::<String>(Ok(None));
    assert!(matches!(r, Ok(None)));
}

#[test]
fn query_one_present_passes_through() {
    let r = BmbpCurdDao::execute_query_one(Ok(Some(String::from("row"))));
    assert!(matches!(r, Ok(Some(s)) if s == "row"));
}

#[test]
fn query_list_passes_through() {
    let rows = vec![String::from("a"), String::from("b")];
    let r = BmbpCurdDao::execute_query_list(Ok(Some(rows.clone())));
    assert!(matches!(r, Ok(Some(v)) if v == rows));
}

#[test]
fn page_defaults_to_one_and_ten() {
    let (num, size) = BmbpCurdDao::page_params(None, None);
    assert_eq!(num, 1);
    assert_eq!(size, 10);
    let (num, size) = BmbpCurdDao::page_params(Some(3), Some(25));
    assert_eq!(num, 3);
    assert_eq!(size, 25);
}

#[test]
fn page_with_default_size_bounds_items() {
    let (num, size) = BmbpCurdDao::page_params(None, None);
    let rows: Vec<u32> = (0..3).collect();
    let r = BmbpCurdDao::execute_query_page(Ok((num, size, 3, Some(rows))));
    let page = r.expect("success").expect("a page");
    assert_eq!(page.page_no, 1);
    assert_eq!(page.page_size, 10);
    assert_eq!(page.total, 3);
    assert_eq!(page.data, vec![0, 1, 2]);
    assert!(page.data.len() <= 10);
}

#[test]
fn page_without_rows_yields_empty_items() {
    let r = BmbpCurdDao::execute_query_page::<u32>(Ok((1, 10, 0, None)));
    let page = r.expect("success").expect("a page");
    assert_eq!(page.data, Vec::<u32>::new());
    assert_eq!(page.total, 0);
}

#[test]
fn page_db_failure_carries_message() {
    let e = RdbcError::new(RdbcErrorType::TimeOut, "timed out");
    let r = BmbpCurdDao::execute_query_page::<u32>(Err(e));
    match r {
        Err(c) => {
            assert_eq!(c.kind, ErrKind::Db);
            assert_eq!(c.msg, "timed out");
        }
        Ok(_) => panic!("expected a failure"),
    }
}

#[test]
fn not_found_failure_has_fixed_message() {
    let e = CurdError::service_not_found();
    assert_eq!(e.kind, ErrKind::Service);
    assert_eq!(e.msg, "record not found");
}

#[test]
fn find_with_no_columns_projects_nothing() {
    let meta = EntityMeta {
        table: String::from("bmbp_dict"),
        primary_key: String::from("data_id"),
        columns: vec![],
    };
    let id = String::from("d-1");
    let step = BmbpCurdService::find_info_by_id(&meta, Some(&id));
    let q = match step {
        FindStep::Query(q) => q,
        FindStep::Done => panic!("expected a query"),
    };
    assert_eq!(q.get_select().len(), 0);
    assert_eq!(query_filters(&q).len(), 1);
}

#[test]
fn query_list_absent_is_success_none() {
    let r = BmbpCurdDao::execute_query_list::<String>(Ok(None));
    assert!(matches!(r, Ok(None)));
}
