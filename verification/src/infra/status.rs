//! The application status shown to the user, and the tracker that holds it.
//!
//! The tracker counts every change in a generation number. A reset to standby
//! that was scheduled together with a status only takes effect while that
//! status is still the latest one, so a reset never wipes out a newer status.

use vstd::prelude::*;

verus! {

/// What the application is doing right now.
#[derive(Clone, Copy, Debug, PartialEq, Eq, Structural)]
pub enum StatusKind {
    Standby,
    Verificando,
    Entrando,
    Publicando,
    Publicado,
    Erro,
}

/// A status together with the text shown for it.
#[derive(Clone, Debug)]
pub struct AppStatus {
    pub kind: StatusKind,
    pub message: String,
}

/// The contents of an `AppStatus`, its text taken as characters.
pub struct AppStatusView {
    pub kind: StatusKind,
    pub message: Seq<char>,
}

impl View for AppStatus {
    type V = AppStatusView;

    open spec fn view(&self) -> AppStatusView {
        AppStatusView { kind: self.kind, message: self.message@ }
    }
}

/// The idle status.
pub open spec fn standby_view() -> AppStatusView {
    AppStatusView { kind: StatusKind::Standby, message: "Aguardando"@ }
}

impl AppStatus {
    pub fn standby() -> (r: Self)
        ensures
            r@ == standby_view(),
    {
        AppStatus { kind: StatusKind::Standby, message: String::from_str("Aguardando") }
    }

    pub fn verificando() -> (r: Self)
        ensures
            r@ == (AppStatusView {
                kind: StatusKind::Verificando,
                message: "Verificando conta..."@,
            }),
    {
        AppStatus {
            kind: StatusKind::Verificando,
            message: String::from_str("Verificando conta..."),
        }
    }

    pub fn entrando() -> (r: Self)
        ensures
            r@ == (AppStatusView {
                kind: StatusKind::Entrando,
                message: "Aguardando login no Facebook..."@,
            }),
    {
        AppStatus {
            kind: StatusKind::Entrando,
            message: String::from_str("Aguardando login no Facebook..."),
        }
    }

    pub fn publicando(msg: &str) -> (r: Self)
        ensures
            r@ == (AppStatusView { kind: StatusKind::Publicando, message: msg@ }),
    {
        AppStatus { kind: StatusKind::Publicando, message: String::from_str(msg) }
    }

    pub fn publicado(msg: &str) -> (r: Self)
        ensures
            r@ == (AppStatusView { kind: StatusKind::Publicado, message: msg@ }),
    {
        AppStatus { kind: StatusKind::Publicado, message: String::from_str(msg) }
    }

    pub fn erro(msg: &str) -> (r: Self)
        ensures
            r@ == (AppStatusView { kind: StatusKind::Erro, message: msg@ }),
    {
        AppStatus { kind: StatusKind::Erro, message: String::from_str(msg) }
    }

    /// An independent copy of this status.
    pub fn copy(&self) -> (r: Self)
        ensures
            r@ == self@,
    {
        AppStatus { kind: self.kind, message: self.message.clone() }
    }
}

/// The tracker of the current status and of how many times it was set.
pub struct StatusHandle {
    current: AppStatus,
    generation: u64,
}

/// The contents of a `StatusHandle`.
pub struct StatusHandleView {
    pub status: AppStatusView,
    pub generation: u64,
}

/// The generation that follows `g`; it wraps around after the largest `u64`.
pub open spec fn next_generation(g: u64) -> u64 {
    if g == u64::MAX {
        0
    } else {
        (g + 1) as u64
    }
}

impl StatusHandleView {
    /// The tracker after `status` was set.
    pub open spec fn after_set(self, status: AppStatusView) -> StatusHandleView {
        StatusHandleView { status, generation: next_generation(self.generation) }
    }

    /// The tracker after a reset scheduled at `generation` fired: back to
    /// standby if nothing was set since, unchanged otherwise.
    pub open spec fn after_reset(self, generation: u64) -> StatusHandleView {
        if self.generation == generation {
            self.after_set(standby_view())
        } else {
            self
        }
    }

    /// The tracker after each status of `statuses` was set, in order.
    pub open spec fn after_sets(self, statuses: Seq<AppStatusView>) -> StatusHandleView
        decreases statuses.len(),
    {
        if statuses.len() == 0 {
            self
        } else {
            self.after_sets(statuses.drop_last()).after_set(statuses.last())
        }
    }
}

impl View for StatusHandle {
    type V = StatusHandleView;

    closed spec fn view(&self) -> StatusHandleView {
        StatusHandleView { status: self.current@, generation: self.generation }
    }
}

/// A reset to standby that the caller is to fire after `secs` seconds.
#[derive(Clone, Copy, Debug)]
pub struct ResetTicket {
    pub generation: u64,
    pub secs: u64,
}

impl StatusHandle {
    /// A tracker in standby that has not been set yet.
    pub fn new() -> (r: Self)
        ensures
            r@ == (StatusHandleView { status: standby_view(), generation: 0 }),
    {
        StatusHandle { current: AppStatus::standby(), generation: 0 }
    }

    /// Sets the status and gives the generation that it was assigned.
    pub fn set_internal(&mut self, status: AppStatus) -> (r: u64)
        ensures
            final(self)@ == old(self)@.after_set(status@),
            r == final(self)@.generation,
    {
        self.generation = if self.generation == u64::MAX {
            0
        } else {
            self.generation + 1
        };
        self.current = status;
        self.generation
    }

    pub fn set(&mut self, status: AppStatus)
        ensures
            final(self)@ == old(self)@.after_set(status@),
    {
        self.set_internal(status);
    }

    /// The current status.
    pub fn get(&self) -> (r: AppStatus)
        ensures
            r@ == self@.status,
    {
        self.current.copy()
    }

    /// Sets the status, and hands back the reset to standby that the caller is
    /// to fire after `secs` seconds with `apply_reset`.
    pub fn set_with_reset(&mut self, status: AppStatus, secs: u64) -> (r: ResetTicket)
        ensures
            final(self)@ == old(self)@.after_set(status@),
            r.generation == final(self)@.generation,
            r.secs == secs,
    {
        let generation = self.set_internal(status);
        ResetTicket { generation, secs }
    }

    /// Fires a scheduled reset: back to standby only if no status was set
    /// since the reset was scheduled.
    pub fn apply_reset(&mut self, ticket: ResetTicket)
        ensures
            final(self)@ == old(self)@.after_reset(ticket.generation),
    {
        if self.generation == ticket.generation {
            self.set_internal(AppStatus::standby());
        }
    }
}

/// Reading the status gives back the status that was set last.
pub proof fn lemma_get_after_set(h: StatusHandleView, status: AppStatusView)
    ensures
        h.after_set(status).status == status,
{
}

/// Each set advances the generation by one, wrapping around after the
/// largest `u64`, so two successive sets are told apart by their generations.
pub proof fn lemma_set_advances_generation(h: StatusHandleView, first: AppStatusView, second: AppStatusView)
    ensures
        h.after_set(first).generation as int == (h.generation + 1) % 0x1_0000_0000_0000_0000,
        h.after_set(first).after_set(second).generation != h.after_set(first).generation,
{
}

/// A reset fired while its status is still the latest brings the tracker back
/// to standby.
pub proof fn lemma_reset_returns_to_standby(h: StatusHandleView, status: AppStatusView)
    ensures
        ({
            let scheduled = h.after_set(status);
            scheduled.after_reset(scheduled.generation).status == standby_view()
        }),
{
}

/// After `n` sets the generation has advanced by `n`, modulo 2^64.
pub proof fn lemma_generation_counts_sets(h: StatusHandleView, statuses: Seq<AppStatusView>)
    ensures
        h.after_sets(statuses).generation as int == (h.generation + statuses.len()) % 0x1_0000_0000_0000_0000,
    decreases statuses.len(),
{
    if statuses.len() > 0 {
        lemma_generation_counts_sets(h, statuses.drop_last());
        let g = h.after_sets(statuses.drop_last()).generation as int;
        let n = statuses.len() as int;
        assert(g == (h.generation + (n - 1)) % 0x1_0000_0000_0000_0000);
        assert(((h.generation + (n - 1)) % 0x1_0000_0000_0000_0000 + 1) % 0x1_0000_0000_0000_0000
            == (h.generation + n) % 0x1_0000_0000_0000_0000) by (nonlinear_arith);
    }
}

/// A scheduled reset never wipes out a newer status: once between one and
/// 2^64 - 1 statuses were set after the one it belongs to, the reset leaves
/// the tracker unchanged.
pub proof fn lemma_reset_spares_newer_status(
    h: StatusHandleView,
    status: AppStatusView,
    newer: Seq<AppStatusView>,
)
    requires
        0 < newer.len() < 0x1_0000_0000_0000_0000,
    ensures
        ({
            let scheduled = h.after_set(status);
            let later = scheduled.after_sets(newer);
            later.after_reset(scheduled.generation) == later
        }),
{
    let scheduled = h.after_set(status);
    lemma_generation_counts_sets(scheduled, newer);
    let g = scheduled.generation as int;
    let n = newer.len() as int;
    assert((g + n) % 0x1_0000_0000_0000_0000 != g) by (nonlinear_arith)
        requires
            0 <= g < 0x1_0000_0000_0000_0000,
            0 < n < 0x1_0000_0000_0000_0000,
    ;
}

} // verus!
