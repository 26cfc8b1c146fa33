use vstd::prelude::*;

use crate::outcome::{db_err_model, CurdError};
use crate::page::CurdPage;
use crate::rdbc::{rdbc_err_msg, rdbc_error_message};

verus! {

/// The data-access layer: the sole place that interprets mapper outcomes.
/// Every mapper-level failure is normalized into the uniform `Db` failure
/// category carrying the mapper's message verbatim; every success payload is
/// normalized into a success-with-optional-value shape. The mapper round trip
/// itself is the caller's: each function here takes the mapper's outcome as
/// an argument, so it is verified for every outcome the mapper can produce.
pub struct BmbpCurdDao;

/// The page number sent to the mapper: the asked-for number, or one.
pub open spec fn page_num_or_default(page_num: Option<usize>) -> usize {
    match page_num {
        Some(n) => n,
        None => 1,
    }
}

/// The page size sent to the mapper: the asked-for size, or ten.
pub open spec fn page_size_or_default(page_size: Option<usize>) -> usize {
    match page_size {
        Some(n) => n,
        None => 10,
    }
}

impl BmbpCurdDao {
    /// The page number and page size a paged query sends to the mapper, with
    /// the defaults (page one, ten rows) filled in where the caller gave none.
    pub fn page_params(page_num: Option<usize>, page_size: Option<usize>) -> (r: (usize, usize))
        ensures
            r.0 == page_num_or_default(page_num),
            r.1 == page_size_or_default(page_size),
    {
        let num = match page_num {
            Some(n) => n,
            None => 1,
        };
        let size = match page_size {
            Some(n) => n,
            None => 10,
        };
        (num, size)
    }

    /// Normalizes a paged-query outcome. On mapper success the internal page
    /// fields (page number, page size, total, optional rows) are re-wrapped
    /// into the public page shape, a missing row set becoming the empty row
    /// set; on mapper failure the result is the `Db` failure carrying the
    /// mapper's message.
    pub fn execute_query_page<T>(
        outcome: Result<(usize, usize, usize, Option<Vec<T>>), bmbp_rdbc::RdbcError>,
    ) -> (r: Result<Option<CurdPage<T>>, CurdError>)
        ensures
            (outcome matches Ok(p) ==> r matches Ok(op) && op matches Some(page) && {
                &&& page.page_no == p.0 as u32
                &&& page.page_size == p.1 as u32
                &&& page.total == p.2 as u32
                &&& page.data@ == (match p.3 {
                    Some(rows) => rows@,
                    None => Seq::<T>::empty(),
                })
            }),
            (outcome matches Err(e) ==> r matches Err(c) && c@ == db_err_model(rdbc_err_msg(e))),
            ((outcome matches Ok(p) && 1 <= p.0 <= u32::MAX && p.1 <= u32::MAX && (match p.3 {
                Some(rows) => rows@.len() <= p.1,
                None => true,
            })) ==> (r matches Ok(op) && op matches Some(page) && page.is_well_formed())),
    {
        match outcome {
            Ok((page_no, page_size, total, rows)) => {
                let data = match rows {
                    Some(rows) => rows,
                    None => Vec::new(),
                };
                Ok(Some(CurdPage {
                    page_no: #[verifier::truncate] (page_no as u32),
                    page_size: #[verifier::truncate] (page_size as u32),
                    total: #[verifier::truncate] (total as u32),
                    data,
                }))
            },
            Err(e) => Err(CurdError::db_failure(rdbc_error_message(&e))),
        }
    }

    /// Normalizes a list-query outcome: the mapper's optional row list passes
    /// through unchanged; a mapper failure becomes the `Db` failure carrying
    /// the mapper's message.
    pub fn execute_query_list<T>(
        outcome: Result<Option<Vec<T>>, bmbp_rdbc::RdbcError>,
    ) -> (r: Result<Option<Vec<T>>, CurdError>)
        ensures
            (outcome matches Ok(v) ==> r matches Ok(w) && w == v),
            (outcome matches Err(e) ==> r matches Err(c) && c@ == db_err_model(rdbc_err_msg(e))),
    {
        match outcome {
            Ok(v) => Ok(v),
            Err(e) => Err(CurdError::db_failure(rdbc_error_message(&e))),
        }
    }

    /// Normalizes a single-row-query outcome: absence of a matching row is
    /// success with no value, not a failure; a mapper failure becomes the
    /// `Db` failure carrying the mapper's message.
    pub fn execute_query_one<T>(
        outcome: Result<Option<T>, bmbp_rdbc::RdbcError>,
    ) -> (r: Result<Option<T>, CurdError>)
        ensures
            (outcome matches Ok(v) ==> r matches Ok(w) && w == v),
            (outcome matches Err(e) ==> r matches Err(c) && c@ == db_err_model(rdbc_err_msg(e))),
    {
        match outcome {
            Ok(v) => Ok(v),
            Err(e) => Err(CurdError::db_failure(rdbc_error_message(&e))),
        }
    }

    /// Normalizes an insert outcome: the mapper's reported count is wrapped
    /// in a present value; a mapper failure becomes the `Db` failure carrying
    /// the mapper's message.
    pub fn execute_insert(outcome: Result<u64, bmbp_rdbc::RdbcError>) -> (r: Result<
        Option<u64>,
        CurdError,
    >)
        ensures
            (outcome matches Ok(n) ==> r matches Ok(c) && c matches Some(m) && m == n),
            (outcome matches Err(e) ==> r matches Err(c) && c@ == db_err_model(rdbc_err_msg(e))),
    {
        match outcome {
            Ok(n) => Ok(Some(n)),
            Err(e) => Err(CurdError::db_failure(rdbc_error_message(&e))),
        }
    }

    /// Normalizes an update outcome: the affected-row count is wrapped in a
    /// present value; a mapper failure becomes the `Db` failure carrying the
    /// mapper's message.
    pub fn execute_update(outcome: Result<u64, bmbp_rdbc::RdbcError>) -> (r: Result<
        Option<u64>,
        CurdError,
    >)
        ensures
            (outcome matches Ok(n) ==> r matches Ok(c) && c matches Some(m) && m == n),
            (outcome matches Err(e) ==> r matches Err(c) && c@ == db_err_model(rdbc_err_msg(e))),
    {
        match outcome {
            Ok(n) => Ok(Some(n)),
            Err(e) => Err(CurdError::db_failure(rdbc_error_message(&e))),
        }
    }

    /// Normalizes a delete outcome: the affected-row count is wrapped in a
    /// present value; a mapper failure becomes the `Db` failure carrying the
    /// mapper's message.
    pub fn execute_delete(outcome: Result<u64, bmbp_rdbc::RdbcError>) -> (r: Result<
        Option<u64>,
        CurdError,
    >)
        ensures
            (outcome matches Ok(n) ==> r matches Ok(c) && c matches Some(m) && m == n),
            (outcome matches Err(e) ==> r matches Err(c) && c@ == db_err_model(rdbc_err_msg(e))),
    {
        match outcome {
            Ok(n) => Ok(Some(n)),
            Err(e) => Err(CurdError::db_failure(rdbc_error_message(&e))),
        }
    }
}

} // verus!
