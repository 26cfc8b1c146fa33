use vstd::prelude::*;

verus! {

/// Which layer produced a failure: the mapper (`Db`) or a business-rule
/// guard in the service layer (`Service`).
#[derive(Clone, Copy, Debug, PartialEq, Eq, Structural)]
pub enum ErrKind {
    Db,
    Service,
}

/// Mathematical model of a `CurdError`: its category and its message text.
#[verifier::ext_equal]
pub ghost struct ErrModel {
    pub kind: ErrKind,
    pub msg: Seq<char>,
}

/// Uniform failure value. Every operation of this library reports failure as
/// data of this shape; nothing panics across the Dao/Service boundary.
#[derive(Debug)]
pub struct CurdError {
    pub kind: ErrKind,
    pub msg: String,
}

impl View for CurdError {
    type V = ErrModel;

    open spec fn view(&self) -> ErrModel {
        ErrModel { kind: self.kind, msg: self.msg@ }
    }
}

/// The fixed message of the only service-level failure: the record a
/// single-record mutation was asked to touch does not exist.
pub open spec fn not_found_msg() -> Seq<char> {
    "record not found"@
}

/// Model of a mapper-level failure carrying the mapper's own message.
pub open spec fn db_err_model(msg: Seq<char>) -> ErrModel {
    ErrModel { kind: ErrKind::Db, msg: msg }
}

/// Model of the service-level not-found failure.
pub open spec fn not_found_model() -> ErrModel {
    ErrModel { kind: ErrKind::Service, msg: not_found_msg() }
}

impl CurdError {
    /// The failure synthesized by the existence-check guard.
    pub fn service_not_found() -> (e: CurdError)
        ensures
            e@ == not_found_model(),
    {
        CurdError { kind: ErrKind::Service, msg: String::from_str("record not found") }
    }

    /// A mapper failure, carrying the mapper's diagnostic text verbatim.
    pub fn db_failure(msg: String) -> (e: CurdError)
        ensures
            e@ == db_err_model(msg@),
    {
        CurdError { kind: ErrKind::Db, msg }
    }
}

} // verus!
