use fast_marketplace::application::error::UseCasesError;
use fast_marketplace::domain::error::DomainError;
use fast_marketplace::infra::dtos::healthz_response;
use fast_marketplace::infra::handlers::{
    account_check_report, failure_message, property_publishing_status, property_report,
    renewal_report, renewing_status, signout_report, vehicle_publishing_status, vehicle_report,
    BAD_REQUEST, INTERNAL_SERVER_ERROR,
};
use fast_marketplace::infra::status::StatusKind;

#[test]
fn failure_messages() {
    let automation = UseCasesError::Domain(DomainError::AutomationError("Elemento sumiu".to_string()));
    assert_eq!(failure_message(&automation), "Elemento sumiu");
    assert_eq!(
        failure_message(&UseCasesError::Domain(DomainError::NotFound)),
        "The requested resource was not found"
    );
    assert_eq!(failure_message(&UseCasesError::Forbidden), "The request was valid, but the server is refusing action");
}

#[test]
fn publishing_statuses() {
    let s = property_publishing_status();
    assert_eq!(s.kind, StatusKind::Publicando);
    assert_eq!(s.message, "Publicando imóvel no Marketplace...");
    assert_eq!(vehicle_publishing_status().message, "Publicando veículo no Marketplace...");
    assert_eq!(renewing_status().message, "Renovando anúncios...");
}

#[test]
fn publication_reports() {
    let ok = property_report(&Ok(()));
    assert_eq!(ok.status.kind, StatusKind::Publicado);
    assert_eq!(ok.status.message, "Imóvel publicado com sucesso!");
    assert_eq!(ok.reset_after_secs, Some(8));
    assert!(ok.failure.is_none());

    let ok = vehicle_report(&Ok(()));
    assert_eq!(ok.status.message, "Veículo publicado com sucesso!");

    let failed = vehicle_report(&Err(UseCasesError::Domain(DomainError::AutomationError("sem fotos".to_string()))));
    assert_eq!(failed.status.kind, StatusKind::Erro);
    assert_eq!(failed.status.message, "sem fotos");
    assert_eq!(failed.reset_after_secs, Some(12));
    let f = failed.failure.unwrap();
    assert_eq!(f.http_status, BAD_REQUEST);
    assert_eq!(f.message, "sem fotos");
}

#[test]
fn renewal_reports() {
    let ok = renewal_report(&Ok(3));
    assert_eq!(ok.status.kind, StatusKind::Publicado);
    assert_eq!(ok.status.message, "3 anúncio(s) renovado(s)");
    assert_eq!(ok.reset_after_secs, Some(8));
    let failed = renewal_report(&Err(UseCasesError::InternalError));
    assert_eq!(failed.status.message, "An unexpected internal server error occurred");
    assert_eq!(failed.failure.unwrap().http_status, 400);
}

#[test]
fn signout_reports() {
    let ok = signout_report(&Ok(()));
    assert_eq!(ok.status.kind, StatusKind::Standby);
    assert_eq!(ok.reset_after_secs, None);
    assert!(ok.failure.is_none());
    let failed = signout_report(&Err(UseCasesError::Domain(DomainError::NotFound)));
    assert_eq!(failed.status.kind, StatusKind::Erro);
    assert_eq!(failed.reset_after_secs, Some(12));
}

#[test]
fn account_check_reports() {
    let ok = account_check_report(&Ok(false));
    assert_eq!(ok.status.kind, StatusKind::Standby);
    assert!(ok.failure.is_none());
    let failed = account_check_report(&Err(UseCasesError::Domain(DomainError::AutomationError("x".to_string()))));
    assert_eq!(failed.status.kind, StatusKind::Standby);
    let f = failed.failure.unwrap();
    assert_eq!(f.http_status, INTERNAL_SERVER_ERROR);
    assert_eq!(f.message, "Falha ao verificar login no Facebook: Automation failed at step: x");
}

#[test]
fn healthz_body() {
    let r = healthz_response("1.2.3");
    assert_eq!(r.status, "ok");
    assert_eq!(r.version, "1.2.3");
}
