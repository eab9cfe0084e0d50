use fast_marketplace::infra::status::{AppStatus, StatusHandle, StatusKind};

#[test]
fn status_constructors() {
    let s = AppStatus::standby();
    assert_eq!(s.kind, StatusKind::Standby);
    assert_eq!(s.message, "Aguardando");
    let s = AppStatus::verificando();
    assert_eq!(s.kind, StatusKind::Verificando);
    assert_eq!(s.message, "Verificando conta...");
    let s = AppStatus::entrando();
    assert_eq!(s.kind, StatusKind::Entrando);
    assert_eq!(s.message, "Aguardando login no Facebook...");
    let s = AppStatus::publicando("Publicando...");
    assert_eq!(s.kind, StatusKind::Publicando);
    assert_eq!(s.message, "Publicando...");
    let s = AppStatus::publicado("Feito");
    assert_eq!(s.kind, StatusKind::Publicado);
    assert_eq!(s.message, "Feito");
    let s = AppStatus::erro("Falhou");
    assert_eq!(s.kind, StatusKind::Erro);
    assert_eq!(s.message, "Falhou");
}

#[test]
fn new_handle_is_standby() {
    let h = StatusHandle::new();
    let s = h.get();
    assert_eq!(s.kind, StatusKind::Standby);
    assert_eq!(s.message, "Aguardando");
}

#[test]
fn get_returns_last_set() {
    let mut h = StatusHandle::new();
    h.set(AppStatus::verificando());
    h.set(AppStatus::publicando("Publicando imóvel no Marketplace..."));
    let s = h.get();
    assert_eq!(s.kind, StatusKind::Publicando);
    assert_eq!(s.message, "Publicando imóvel no Marketplace...");
}

#[test]
fn reset_returns_to_standby_when_nothing_newer() {
    let mut h = StatusHandle::new();
    let ticket = h.set_with_reset(AppStatus::publicado("ok"), 8);
    assert_eq!(ticket.secs, 8);
    assert_eq!(h.get().kind, StatusKind::Publicado);
    h.apply_reset(ticket);
    let s = h.get();
    assert_eq!(s.kind, StatusKind::Standby);
    assert_eq!(s.message, "Aguardando");
}

#[test]
fn reset_spares_newer_status() {
    let mut h = StatusHandle::new();
    let ticket = h.set_with_reset(AppStatus::erro("falhou"), 12);
    h.set(AppStatus::publicando("Publicando..."));
    h.apply_reset(ticket);
    let s = h.get();
    assert_eq!(s.kind, StatusKind::Publicando);
    assert_eq!(s.message, "Publicando...");
}

#[test]
fn older_reset_does_not_cancel_newer_reset() {
    let mut h = StatusHandle::new();
    let first = h.set_with_reset(AppStatus::publicado("um"), 8);
    let second = h.set_with_reset(AppStatus::publicado("dois"), 8);
    h.apply_reset(first);
    assert_eq!(h.get().message, "dois");
    h.apply_reset(second);
    assert_eq!(h.get().kind, StatusKind::Standby);
}

#[test]
fn each_set_advances_generation() {
    let mut h = StatusHandle::new();
    let first = h.set_with_reset(AppStatus::publicado("um"), 8);
    assert_eq!(first.generation, 1);
    h.set(AppStatus::verificando());
    let third = h.set_with_reset(AppStatus::erro("tres"), 8);
    assert_eq!(third.generation, 3);
    assert_ne!(first.generation, third.generation);
}

#[test]
fn set_internal_gives_next_generation() {
    let mut h = StatusHandle::new();
    assert_eq!(h.set_internal(AppStatus::verificando()), 1);
    assert_eq!(h.get().kind, StatusKind::Verificando);
    assert_eq!(h.set_internal(AppStatus::erro("x")), 2);
    assert_eq!(h.get().message, "x");
}
