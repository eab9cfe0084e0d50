//! What the HTTP handlers decide around a use case: the status shown while it
//! runs, the status shown after it, and the failure answered to the caller.

use vstd::prelude::*;
use crate::application::error::UseCasesError;
use crate::domain::error::DomainError;
use crate::infra::status::{AppStatus, AppStatusView, StatusKind, standby_view};
use crate::text::{decimal, decimal_string};

verus! {

broadcast use vstd::string::group_string_axioms;

/// The text shown for a failed use case: an automation failure shows its own
/// text, any other failure its description.
pub open spec fn failure_text(e: UseCasesError) -> Seq<char> {
    match e {
        UseCasesError::Domain(DomainError::AutomationError(m)) => m@,
        _ => e.message(),
    }
}

/// The text shown for a failed use case.
pub fn failure_message(e: &UseCasesError) -> (r: String)
    ensures
        r@ == failure_text(*e),
{
    match e {
        UseCasesError::Domain(DomainError::AutomationError(m)) => m.clone(),
        _ => e.to_string(),
    }
}

/// A failure answered to the HTTP caller.
#[derive(Debug)]
pub struct Failure {
    pub http_status: u16,
    pub message: String,
}

/// What a handler does once its use case answered.
#[derive(Debug)]
pub struct HandlerReport {
    /// The status to show.
    pub status: AppStatus,
    /// When present, the status goes back to standby after this many seconds.
    pub reset_after_secs: Option<u64>,
    /// When present, the request fails with this answer.
    pub failure: Option<Failure>,
}

/// How long a success stays shown before going back to standby.
pub const SUCCESS_SHOWN_SECS: u64 = 8;

/// How long a failure stays shown before going back to standby.
pub const FAILURE_SHOWN_SECS: u64 = 12;

/// The HTTP status of a refused request.
pub const BAD_REQUEST: u16 = 400;

/// The HTTP status of a failure on the server's side.
pub const INTERNAL_SERVER_ERROR: u16 = 500;

/// The report of a failed use case, shown as an error for a while and
/// answered as a refused request.
fn failed_report(e: &UseCasesError) -> (r: HandlerReport)
    ensures
        r.status@ == (AppStatusView { kind: StatusKind::Erro, message: failure_text(*e) }),
        r.reset_after_secs == Some(FAILURE_SHOWN_SECS),
        r.failure matches Some(f) && f.http_status == BAD_REQUEST && f.message@ == failure_text(*e),
{
    let msg = failure_message(e);
    let status = AppStatus::erro(msg.as_str());
    HandlerReport {
        status,
        reset_after_secs: Some(FAILURE_SHOWN_SECS),
        failure: Some(Failure { http_status: BAD_REQUEST, message: msg }),
    }
}

/// The status shown while a home is being published.
pub fn property_publishing_status() -> (r: AppStatus)
    ensures
        r@ == (AppStatusView { kind: StatusKind::Publicando, message: "Publicando imóvel no Marketplace..."@ }),
{
    AppStatus::publicando("Publicando imóvel no Marketplace...")
}

/// The status shown while a vehicle is being published.
pub fn vehicle_publishing_status() -> (r: AppStatus)
    ensures
        r@ == (AppStatusView { kind: StatusKind::Publicando, message: "Publicando veículo no Marketplace..."@ }),
{
    AppStatus::publicando("Publicando veículo no Marketplace...")
}

/// The status shown while listings are being renewed.
pub fn renewing_status() -> (r: AppStatus)
    ensures
        r@ == (AppStatusView { kind: StatusKind::Publicando, message: "Renovando anúncios..."@ }),
{
    AppStatus::publicando("Renovando anúncios...")
}

/// After a publication: on success `success_text` is shown as published for
/// a while; on failure the failure is shown for a while and answered as a
/// refused request.
pub fn publication_report(result: &Result<(), UseCasesError>, success_text: &str) -> (r: HandlerReport)
    ensures
        result is Ok ==> {
            &&& r.status@ == (AppStatusView { kind: StatusKind::Publicado, message: success_text@ })
            &&& r.reset_after_secs == Some(SUCCESS_SHOWN_SECS)
            &&& r.failure is None
        },
        *result matches Err(e) ==> {
            &&& r.status@ == (AppStatusView { kind: StatusKind::Erro, message: failure_text(e) })
            &&& r.reset_after_secs == Some(FAILURE_SHOWN_SECS)
            &&& r.failure matches Some(f) && f.http_status == BAD_REQUEST && f.message@ == failure_text(e)
        },
{
    match result {
        Ok(()) => HandlerReport {
            status: AppStatus::publicado(success_text),
            reset_after_secs: Some(SUCCESS_SHOWN_SECS),
            failure: None,
        },
        Err(e) => failed_report(e),
    }
}

/// The report after a home was published, or failed to be.
pub fn property_report(result: &Result<(), UseCasesError>) -> (r: HandlerReport)
    ensures
        result is Ok ==> {
            &&& r.status@ == (AppStatusView { kind: StatusKind::Publicado, message: "Imóvel publicado com sucesso!"@ })
            &&& r.reset_after_secs == Some(SUCCESS_SHOWN_SECS)
            &&& r.failure is None
        },
        *result matches Err(e) ==> {
            &&& r.status@ == (AppStatusView { kind: StatusKind::Erro, message: failure_text(e) })
            &&& r.reset_after_secs == Some(FAILURE_SHOWN_SECS)
            &&& r.failure matches Some(f) && f.http_status == BAD_REQUEST && f.message@ == failure_text(e)
        },
{
    publication_report(result, "Imóvel publicado com sucesso!")
}

/// The report after a vehicle was published, or failed to be.
pub fn vehicle_report(result: &Result<(), UseCasesError>) -> (r: HandlerReport)
    ensures
        result is Ok ==> {
            &&& r.status@ == (AppStatusView { kind: StatusKind::Publicado, message: "Veículo publicado com sucesso!"@ })
            &&& r.reset_after_secs == Some(SUCCESS_SHOWN_SECS)
            &&& r.failure is None
        },
        *result matches Err(e) ==> {
            &&& r.status@ == (AppStatusView { kind: StatusKind::Erro, message: failure_text(e) })
            &&& r.reset_after_secs == Some(FAILURE_SHOWN_SECS)
            &&& r.failure matches Some(f) && f.http_status == BAD_REQUEST && f.message@ == failure_text(e)
        },
{
    publication_report(result, "Veículo publicado com sucesso!")
}

/// The text shown after `renewed` listings were renewed.
pub open spec fn renewed_text(renewed: u32) -> Seq<char> {
    decimal(renewed as nat) + " anúncio(s) renovado(s)"@
}

/// After a renewal: the number renewed is shown as published for a while, or
/// the failure is shown for a while and answered as a refused request.
pub fn renewal_report(result: &Result<u32, UseCasesError>) -> (r: HandlerReport)
    ensures
        *result matches Ok(n) ==> {
            &&& r.status@ == (AppStatusView { kind: StatusKind::Publicado, message: renewed_text(n) })
            &&& r.reset_after_secs == Some(SUCCESS_SHOWN_SECS)
            &&& r.failure is None
        },
        *result matches Err(e) ==> {
            &&& r.status@ == (AppStatusView { kind: StatusKind::Erro, message: failure_text(e) })
            &&& r.reset_after_secs == Some(FAILURE_SHOWN_SECS)
            &&& r.failure matches Some(f) && f.http_status == BAD_REQUEST && f.message@ == failure_text(e)
        },
{
    match result {
        Ok(n) => {
            let mut text = decimal_string(*n as u64);
            text.append(" anúncio(s) renovado(s)");
            HandlerReport {
                status: AppStatus::publicado(text.as_str()),
                reset_after_secs: Some(SUCCESS_SHOWN_SECS),
                failure: None,
            }
        },
        Err(e) => failed_report(e),
    }
}

/// After a sign-out: back to standby at once, or the failure is shown for a
/// while and answered as a refused request.
pub fn signout_report(result: &Result<(), UseCasesError>) -> (r: HandlerReport)
    ensures
        result is Ok ==> {
            &&& r.status@ == standby_view()
            &&& r.reset_after_secs is None
            &&& r.failure is None
        },
        *result matches Err(e) ==> {
            &&& r.status@ == (AppStatusView { kind: StatusKind::Erro, message: failure_text(e) })
            &&& r.reset_after_secs == Some(FAILURE_SHOWN_SECS)
            &&& r.failure matches Some(f) && f.http_status == BAD_REQUEST && f.message@ == failure_text(e)
        },
{
    match result {
        Ok(()) => HandlerReport { status: AppStatus::standby(), reset_after_secs: None, failure: None },
        Err(e) => failed_report(e),
    }
}

/// The text answered when the account check failed.
pub open spec fn account_check_failure_text(e: UseCasesError) -> Seq<char> {
    "Falha ao verificar login no Facebook: "@ + e.message()
}

/// After an account check: back to standby at once either way; a failure is
/// answered as a failure on the server's side.
pub fn account_check_report(result: &Result<bool, UseCasesError>) -> (r: HandlerReport)
    ensures
        r.status@ == standby_view(),
        r.reset_after_secs is None,
        result is Ok ==> r.failure is None,
        *result matches Err(e) ==> (r.failure matches Some(f) && f.http_status == INTERNAL_SERVER_ERROR
            && f.message@ == account_check_failure_text(e)),
{
    match result {
        Ok(_) => HandlerReport { status: AppStatus::standby(), reset_after_secs: None, failure: None },
        Err(e) => {
            let mut msg = String::from_str("Falha ao verificar login no Facebook: ");
            let detail = e.to_string();
            msg.append(detail.as_str());
            HandlerReport {
                status: AppStatus::standby(),
                reset_after_secs: None,
                failure: Some(Failure { http_status: INTERNAL_SERVER_ERROR, message: msg }),
            }
        },
    }
}

} // verus!
