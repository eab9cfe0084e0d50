//! Where the HTTP interface listens and which web origins may call it.

use vstd::prelude::*;

verus! {

/// The port the HTTP interface listens on.
pub const SERVER_PORT: u16 = 15137;

/// The host the HTTP interface listens on: this machine only.
pub const SERVER_HOST: &'static str = "127.0.0.1";

/// The web origins allowed to call the HTTP interface: the desktop shell in
/// development and in production, and the service's own web front ends.
pub open spec fn allowed_origin_list() -> Seq<Seq<char>> {
    seq![
        "http://localhost:1420"@,
        "http://localhost:4000"@,
        "http://tauri.localhost"@,
        "tauri://localhost"@,
        "https://soultech.agency"@,
        "https://fast-marketplace-dev-frontend.soultech.agency"@,
        "https://fast-marketplace-frontend.soultech.agency"@,
    ]
}

/// The web origins allowed to call the HTTP interface.
pub fn allowed_origins() -> (r: Vec<&'static str>)
    ensures
        r.deep_view() == allowed_origin_list(),
{
    let r = vec![
        "http://localhost:1420",
        "http://localhost:4000",
        "http://tauri.localhost",
        "tauri://localhost",
        "https://soultech.agency",
        "https://fast-marketplace-dev-frontend.soultech.agency",
        "https://fast-marketplace-frontend.soultech.agency",
    ];
    assert(r.deep_view() =~= allowed_origin_list());
    r
}

} // verus!
