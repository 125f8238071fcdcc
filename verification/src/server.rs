//! Settings of the HTTP server: its address and the security headers that
//! every answer carries.

use vstd::prelude::*;
use vstd::string::*;
use crate::antwort::kopfzeilen_sicht;

verus! {

/// The `Content-Security-Policy` of every answer.
pub const CSP: &'static str = "default-src 'self'; script-src 'self' 'unsafe-inline' https://unpkg.com; style-src 'self' 'unsafe-inline' https://unpkg.com; img-src 'self' data:; connect-src 'self'";

/// The security headers that every answer carries, in the order in which
/// they are set.
pub open spec fn sicherheits_kopf() -> Seq<(Seq<char>, Seq<char>)> {
    seq![
        ("X-Frame-Options"@, "DENY"@),
        ("X-Content-Type-Options"@, "nosniff"@),
        ("Strict-Transport-Security"@, "max-age=31536000; includeSubDomains"@),
        ("Content-Security-Policy"@, CSP@),
        ("Referrer-Policy"@, "strict-origin-when-cross-origin"@),
        ("Permissions-Policy"@, "camera=(), microphone=(), geolocation=()"@),
    ]
}

fn paar(name: &str, wert: &str) -> (r: (String, String))
    ensures
        r.0@ == name@,
        r.1@ == wert@,
{
    (String::from_str(name), String::from_str(wert))
}

/// The security headers of every answer.
pub fn sicherheits_header() -> (r: Vec<(String, String)>)
    ensures
        kopfzeilen_sicht(r@) == sicherheits_kopf(),
{
    let mut r: Vec<(String, String)> = Vec::new();
    r.push(paar("X-Frame-Options", "DENY"));
    r.push(paar("X-Content-Type-Options", "nosniff"));
    r.push(paar("Strict-Transport-Security", "max-age=31536000; includeSubDomains"));
    r.push(paar("Content-Security-Policy", CSP));
    r.push(paar("Referrer-Policy", "strict-origin-when-cross-origin"));
    r.push(paar("Permissions-Policy", "camera=(), microphone=(), geolocation=()"));
    assert(kopfzeilen_sicht(r@) =~= sicherheits_kopf());
    r
}

/// The port in the setting `SERVER_PORT`, or `3000`.
pub fn port_oder_standard(port: Option<String>) -> (r: String)
    ensures
        port matches Some(p) ==> r@ == p@,
        port is None ==> r@ == "3000"@,
{
    match port {
        Some(p) => p,
        None => String::from_str("3000"),
    }
}

/// The address the server listens on: every interface, on `port`.
pub fn server_adresse(port: &str) -> (r: String)
    ensures
        r@ == "0.0.0.0:"@ + port@,
{
    let mut r = String::from_str("0.0.0.0:");
    r.append(port);
    r
}

} // verus!
