//! Login rules: the session cookie and the token in it, the login address,
//! the steps of the OAuth callback, and the three request guards.

use vstd::prelude::*;
use vstd::string::*;
use crate::zeit::utc_jetzt;
use crate::antwort::{
    kopfzeilen_sicht, text_antwort, weiterleitung_mit_cookie, HttpAntwort, Inhalt, InhaltSicht,
};
use crate::text::{
    aufteilen, getrimmt, ist_leerraum, lemma_teile_erstes, lemma_teile_nicht_leer, lemma_teile_vorne,
    ohne_folgende,
    ohne_fuehrende, teile, trimmen,
};

verus! {

/// The claims of a session token.
pub struct Claims {
    pub email: String,
    pub exp: usize,
}

/// The query of the OAuth callback.
pub struct AuthCallback {
    pub code: String,
}

/// Who is logged in, as `/api/v1/auth/me` reports it.
pub struct UserInfo {
    pub email: String,
    pub eingeloggt: bool,
}

/// Admits requests that carry a valid session cookie.
pub struct AuthGuard;

/// Admits requests that carry the right `X-Api-Key` header.
pub struct ApiKeyGuard;

/// Admits requests that carry a valid session cookie or the right API key.
pub struct FirmwareGuard;

/// Why a guard turned a request away: always `401 Unauthorized`.
pub struct Ablehnung {
    pub status: u16,
    pub nachricht: String,
}

/// The settings that login and the guards need.
pub struct AuthKonfiguration {
    pub google_client_id: String,
    pub google_client_secret: String,
    pub google_redirect_uri: String,
    pub erlaubte_emails: Vec<String>,
    pub jwt_secret: String,
    pub api_key: String,
}

/// The text `token=` that starts the session cookie.
pub open spec fn token_praefix() -> Seq<char> {
    seq!['t', 'o', 'k', 'e', 'n', '=']
}

/// Whether `s` starts with `p`.
pub open spec fn beginnt_mit(s: Seq<char>, p: Seq<char>) -> bool {
    p.len() <= s.len() && s.subrange(0, p.len() as int) == p
}

/// The token of the first cookie piece that, trimmed, starts with `token=`.
pub open spec fn erstes_token(stuecke: Seq<Seq<char>>) -> Option<Seq<char>>
    decreases stuecke.len(),
{
    if stuecke.len() == 0 {
        None
    } else if beginnt_mit(getrimmt(stuecke[0]), token_praefix()) {
        Some(getrimmt(stuecke[0]).subrange(6, getrimmt(stuecke[0]).len() as int))
    } else {
        erstes_token(stuecke.drop_first())
    }
}

/// The session token in a `Cookie` header: the pieces between `;` are
/// trimmed, and the first that starts with `token=` gives what follows it.
pub open spec fn token_im_cookie(kopf: Seq<char>) -> Option<Seq<char>> {
    erstes_token(teile(kopf, ';'))
}

fn beginnt_mit_token(s: &str) -> (r: bool)
    ensures
        r == beginnt_mit(s@, token_praefix()),
{
    let n = s.unicode_len();
    if n < 6 {
        return false;
    }
    let r = s.get_char(0) == 't' && s.get_char(1) == 'o' && s.get_char(2) == 'k' && s.get_char(3)
        == 'e' && s.get_char(4) == 'n' && s.get_char(5) == '=';
    proof {
        let t = s@.subrange(0, 6);
        if r {
            assert(t =~= token_praefix());
        } else if t == token_praefix() {
            assert(t[0] == s@[0] && t[1] == s@[1] && t[2] == s@[2]);
            assert(t[3] == s@[3] && t[4] == s@[4] && t[5] == s@[5]);
        }
    }
    r
}

/// The session token in a `Cookie` header, if there is one.
pub fn token_aus_cookie(cookie_kopf: &str) -> (r: Option<String>)
    ensures
        r is Some == token_im_cookie(cookie_kopf@) is Some,
        r is Some ==> r->0@ == token_im_cookie(cookie_kopf@)->0,
{
    let stuecke = aufteilen(cookie_kopf, ';');
    let ghost t = teile(cookie_kopf@, ';');
    let mut i: usize = 0;
    assert(t.skip(0) =~= t);
    while i < stuecke.len()
        invariant
            stuecke@.len() == t.len(),
            forall|j: int| 0 <= j < stuecke@.len() ==> #[trigger] stuecke@[j]@ == t[j],
            0 <= i <= stuecke@.len(),
            t == teile(cookie_kopf@, ';'),
            erstes_token(t) == erstes_token(t.skip(i as int)),
        decreases stuecke@.len() - i,
    {
        let g = trimmen(stuecke[i].as_str());
        proof {
            assert(t.skip(i as int)[0] == t[i as int]);
            assert(t.skip(i as int).drop_first() =~= t.skip(i + 1));
        }
        if beginnt_mit_token(g) {
            let n = g.unicode_len();
            return Some(String::from_str(g.substring_char(6, n)));
        }
        i = i + 1;
    }
    None
}

/// The name of the outcome of `jsonwebtoken::encode` for the claims
/// `{"email": email, "exp": exp}` under the default header (HS256) and the
/// HMAC key made from the bytes of `secret`.
pub uninterp spec fn jwt_hs256(email: Seq<char>, exp: int, secret: Seq<char>) -> Seq<char>;

/// The name of the claims that `jsonwebtoken::decode` reads out of `token`
/// under `Validation::default()` where nothing but the signature and the
/// clock could refuse it: the part between the last two dots decodes from
/// base64url and reads as JSON, passes the claim checks other than the
/// expiry (it reads as jsonwebtoken's validation claims, holds an `exp`
/// number and no `aud`), and holds an `email` text and an `exp` written as a
/// whole number within `u64`; then the name is `Some` of these two, else
/// `None`. It depends on the token alone, not on the key or the clock.
pub uninterp spec fn jwt_inhalt(token: Seq<char>) -> Option<(Seq<char>, int)>;

/// The name of whether the signature check of `jsonwebtoken::decode` under
/// `Validation::default()` passes for `token` and the HMAC key made from the
/// bytes of `secret` (its step `verify_signature`): the token has three
/// parts, its first part decodes to a header that names HS256, and the third
/// part is the base64url HMAC-SHA256 of the first two under the key.
/// It depends on the token and the secret alone, not on the clock.
pub uninterp spec fn jwt_signatur_gueltig(token: Seq<char>, secret: Seq<char>) -> bool;

/// A character of a JWT: the base64url alphabet and the dot.
pub open spec fn ist_jwt_zeichen(c: char) -> bool {
    ('A' <= c && c <= 'Z') || ('a' <= c && c <= 'z') || ('0' <= c && c <= '9') || c == '-' || c == '_'
        || c == '.'
}

/// Calls `jsonwebtoken::encode` with the default header (HS256), the claims
/// `{"email": .., "exp": ..}` and `EncodingKey::from_secret` of the bytes of
/// `secret`. The token that comes back is a function of the claims and the
/// secret alone; its text is named `jwt_hs256`. Where `encode` reports an
/// error the wrapper would give `None`; it reports none here: the key from
/// `from_secret` and the HS256 header are both of the HMAC family, the header
/// and a JSON object of a text and a number always serialise, and HMAC
/// signing cannot fail. `encode` joins three base64url texts
/// (`URL_SAFE_NO_PAD`) with dots, the second of them the JSON of the claims,
/// which `decode` reads back, the third the HMAC of the first two under the
/// key, which `decode` accepts: the contract states all three.
#[verifier::external_body]
fn jwt_erstellen(claims: &Claims, secret: &str) -> (r: Option<String>)
    ensures
        r is Some,
        r matches Some(t) ==> jwt_signatur_gueltig(t@, secret@),
        r matches Some(t) ==> t@ == jwt_hs256(claims.email@, claims.exp as int, secret@),
        r matches Some(t) ==> jwt_inhalt(t@) == Some((claims.email@, claims.exp as int)),
        r matches Some(t) ==> forall|i: int| 0 <= i < t@.len() ==> ist_jwt_zeichen(#[trigger] t@[i]),
{
    let mut felder = serde_json::Map::new();
    felder.insert("email".to_string(), serde_json::Value::String(claims.email.clone()));
    felder.insert("exp".to_string(), serde_json::Value::from(claims.exp));
    jsonwebtoken::encode(
        &jsonwebtoken::Header::default(),
        &serde_json::Value::Object(felder),
        &jsonwebtoken::EncodingKey::from_secret(secret.as_bytes()),
    ).ok()
}

/// The `exp` claim of a token that never expires: `u64::MAX` seconds.
pub open spec fn nie_ablaufend() -> int {
    0xFFFF_FFFF_FFFF_FFFF
}

/// Whether `jwt_pruefen` accepts `t` under `secret` whatever the clock reads:
/// its signature checks, its claims are readable and its `exp` never passes.
pub open spec fn immer_gueltig(t: Seq<char>, secret: Seq<char>) -> bool {
    &&& jwt_signatur_gueltig(t, secret)
    &&& jwt_inhalt(t) matches Some((_, x)) && x == nie_ablaufend()
}

/// Whether `t` holds no `.`: then it has not the three parts of a JWT.
pub open spec fn ohne_punkt(t: Seq<char>) -> bool {
    forall|i: int| 0 <= i < t.len() ==> #[trigger] t[i] != '.'
}

/// Calls `jsonwebtoken::decode` with `DecodingKey::from_secret` of the bytes
/// of `secret` and `Validation::default()`, and gives the `email` and `exp`
/// claims where the token is accepted and carries both. `decode` splits the
/// token at its last two dots and refuses a token without them; it accepts
/// only a token whose signature checks under the key (`jwt_signatur_gueltig`);
/// the claims it gives back are those that the token carries (`jwt_inhalt`).
/// The contract states these three, and one case of acceptance that does not
/// depend on the clock: `decode` refuses a token only where its `exp` is
/// below the current second less 60, which no `exp` of `u64::MAX` is; so a
/// token whose signature checks and whose claims are readable with that `exp`
/// is accepted. The claims are read through a JSON value,
/// so where a signed token repeats a key, the last one counts. Nothing else is stated of the result:
/// `Validation::default()` compares the `exp` claim with the clock of the
/// machine, so one token is accepted at one moment and refused at a later one.
#[verifier::external_body]
fn jwt_pruefen(token: &str, secret: &str) -> (r: Option<Claims>)
    ensures
        ohne_punkt(token@) ==> r is None,
        r is Some ==> jwt_signatur_gueltig(token@, secret@),
        immer_gueltig(token@, secret@) ==> r is Some,
        r matches Some(c) ==> (jwt_inhalt(token@) matches Some((e, x)) && c.email@ == e && c.exp == x as usize),
{
    let daten = jsonwebtoken::decode::<serde_json::Value>(
        token,
        &jsonwebtoken::DecodingKey::from_secret(secret.as_bytes()),
        &jsonwebtoken::Validation::default(),
    ).ok()?;
    let email = match daten.claims.get("email") {
        Some(serde_json::Value::String(e)) => e.clone(),
        _ => return None,
    };
    let exp = match daten.claims.get("exp") {
        Some(serde_json::Value::Number(n)) => n.as_u64()?,
        _ => return None,
    };
    Some(Claims { email, exp: exp as usize })
}

/// The e-mail address of accepted claims.
pub fn email_aus_claims(claims: Option<Claims>) -> (r: Option<String>)
    ensures
        r is Some == claims is Some,
        r is Some ==> r->0@ == claims->0.email@,
{
    match claims {
        Some(c) => Some(c.email),
        None => None,
    }
}

/// The e-mail address of the session in a `Cookie` header. Without a header,
/// or without a `token=` piece in it, there is none; otherwise the token is
/// checked with `jsonwebtoken` against `jwt_secret` and the clock.
pub fn email_aus_cookie(cookie_kopf: Option<&str>, jwt_secret: &str) -> (r: Option<String>)
    ensures
        cookie_kopf is None ==> r is None,
        cookie_kopf matches Some(k) && token_im_cookie(k@) is None ==> r is None,
        cookie_kopf matches Some(k) ==> (token_im_cookie(k@) matches Some(t) && ohne_punkt(t) ==> r is None),
        r matches Some(e) ==> (cookie_kopf matches Some(k) && token_im_cookie(k@) matches Some(t)
            && jwt_inhalt(t) matches Some((e2, _)) && e@ == e2 && jwt_signatur_gueltig(t, jwt_secret@)),
        cookie_kopf matches Some(k) ==> (token_im_cookie(k@) matches Some(t) ==> (immer_gueltig(t, jwt_secret@)
            ==> r is Some && jwt_inhalt(t) == Some((r->0@, nie_ablaufend())))),
{
    match cookie_kopf {
        None => None,
        Some(k) => match token_aus_cookie(k) {
            None => None,
            Some(token) => email_aus_claims(jwt_pruefen(token.as_str(), jwt_secret)),
        },
    }
}


/// The login page of Google that `/api/v1/auth/login` sends the browser to.
pub open spec fn login_adresse(client_id: Seq<char>, redirect_uri: Seq<char>) -> Seq<char> {
    "https://accounts.google.com/o/oauth2/v2/auth?client_id="@ + client_id + "&redirect_uri="@
        + redirect_uri + "&response_type=code&scope=email&access_type=offline"@
}

/// The address that `/api/v1/auth/login` redirects to.
pub fn login_url(cfg: &AuthKonfiguration) -> (r: String)
    ensures
        r@ == login_adresse(cfg.google_client_id@, cfg.google_redirect_uri@),
{
    let mut r = String::from_str("https://accounts.google.com/o/oauth2/v2/auth?client_id=");
    r.append(cfg.google_client_id.as_str());
    r.append("&redirect_uri=");
    r.append(cfg.google_redirect_uri.as_str());
    r.append("&response_type=code&scope=email&access_type=offline");
    r
}

/// Whether `email` is one of `erlaubte`.
pub open spec fn ist_erlaubt(email: Seq<char>, erlaubte: Seq<String>) -> bool {
    exists|i: int| 0 <= i < erlaubte.len() && #[trigger] erlaubte[i]@ == email
}

/// Whether `email` is on the list of allowed addresses.
pub fn email_erlaubt(email: &String, erlaubte: &Vec<String>) -> (r: bool)
    ensures
        r == ist_erlaubt(email@, erlaubte@),
{
    let mut i: usize = 0;
    while i < erlaubte.len()
        invariant
            0 <= i <= erlaubte@.len(),
            forall|j: int| 0 <= j < i ==> #[trigger] erlaubte@[j]@ != email@,
        decreases erlaubte@.len() - i,
    {
        if erlaubte[i] == *email {
            return true;
        }
        i = i + 1;
    }
    false
}

/// The list of allowed addresses in the setting `ERLAUBTE_EMAILS`: the
/// pieces between commas, each trimmed.
pub fn erlaubte_emails_parsen(s: &str) -> (r: Vec<String>)
    ensures
        r@.len() == teile(s@, ',').len(),
        forall|i: int| 0 <= i < r@.len() ==> #[trigger] r@[i]@ == getrimmt(teile(s@, ',')[i]),
{
    let stuecke = aufteilen(s, ',');
    let mut r: Vec<String> = Vec::new();
    let mut i: usize = 0;
    while i < stuecke.len()
        invariant
            stuecke@.len() == teile(s@, ',').len(),
            forall|j: int| 0 <= j < stuecke@.len() ==> #[trigger] stuecke@[j]@ == teile(s@, ',')[j],
            0 <= i <= stuecke@.len(),
            r@.len() == i,
            forall|j: int| 0 <= j < i ==> #[trigger] r@[j]@ == getrimmt(teile(s@, ',')[j]),
        decreases stuecke@.len() - i,
    {
        r.push(String::from_str(trimmen(stuecke[i].as_str())));
        i = i + 1;
    }
    r
}

/// The page shown to a Google account that is not on the list, before the
/// address.
pub const VERWEIGERT_ANFANG: &'static str = r#"
<!DOCTYPE html>
<html lang="de">
<head>
    <meta charset="UTF-8">
    <meta name="viewport" content="width=device-width, initial-scale=1.0">
    <title>Zugriff verweigert – Freezer Monitor</title>
    <style>
        * { margin: 0; padding: 0; box-sizing: border-box; }
        body {
            background: #0f172a;
            color: #e2e8f0;
            font-family: -apple-system, BlinkMacSystemFont, 'Segoe UI', sans-serif;
            min-height: 100vh;
            display: flex;
            align-items: center;
            justify-content: center;
        }
        .karte {
            background: #1e293b;
            border: 1px solid #2d3a4f;
            border-radius: 16px;
            padding: 48px 40px;
            max-width: 460px;
            width: 90%;
            text-align: center;
        }
        .icon { font-size: 64px; margin-bottom: 24px; }
        h1 {
            font-size: 24px;
            font-weight: 700;
            color: #f1f5f9;
            margin-bottom: 12px;
        }
        .email {
            background: #0f172a;
            border: 1px solid #334155;
            border-radius: 8px;
            padding: 10px 16px;
            margin: 16px 0 24px;
            font-size: 14px;
            color: #94a3b8;
            word-break: break-all;
        }
        p {
            color: #94a3b8;
            font-size: 15px;
            line-height: 1.6;
            margin-bottom: 32px;
        }
        .buttons {
            display: flex;
            flex-direction: column;
            gap: 12px;
        }
        .btn {
            display: block;
            padding: 12px 24px;
            border-radius: 8px;
            font-size: 15px;
            font-weight: 600;
            text-decoration: none;
            transition: opacity 0.2s;
        }
        .btn:hover { opacity: 0.85; }
        .btn-primary {
            background: #3b82f6;
            color: white;
        }
        .btn-secondary {
            background: #1e293b;
            color: #94a3b8;
            border: 1px solid #334155;
        }
    </style>
</head>
<body>
    <div class="karte">
        <div class="icon">🔒</div>
        <h1>Zugriff nicht erlaubt</h1>
        <div class="email">"#;

/// The page shown to a Google account that is not on the list, after the
/// address.
pub const VERWEIGERT_ENDE: &'static str = r#"</div>
        <p>Dieses Google-Konto ist nicht für den Freezer Monitor freigeschaltet. Bitte wende dich an den Administrator.</p>
        <div class="buttons">
            <a href="/api/v1/auth/login" class="btn btn-primary">🔄 Mit anderem Konto anmelden</a>
            <a href="/" class="btn btn-secondary">← Zurück zur Hauptseite</a>
        </div>
    </div>
</body>
</html>
        "#;

/// The page that refuses `email`.
pub open spec fn verweigert_seite(email: Seq<char>) -> Seq<char> {
    VERWEIGERT_ANFANG@ + email + VERWEIGERT_ENDE@
}

/// The cookie attributes of the session cookie.
pub const SITZUNG_ATTRIBUTE: &'static str = "; Path=/; HttpOnly; Secure; SameSite=Lax; Max-Age=86400";

/// The `Set-Cookie` value that starts a session with `token`.
pub open spec fn sitzungs_cookie(token: Seq<char>) -> Seq<char> {
    token_praefix() + token + SITZUNG_ATTRIBUTE@
}

/// The `Set-Cookie` value that ends a session.
pub const ABMELDE_COOKIE: &'static str = "token=; Path=/; HttpOnly; Secure; SameSite=Lax; Max-Age=0";

/// The `exp` claim of a session started at `jetzt` (seconds since 1970):
/// 24 hours later, as a `usize`.
pub open spec fn ablauf(jetzt: int) -> usize {
    (jetzt + 86400) as usize
}

/// The `exp` claim of a session started at `jetzt`.
pub fn ablauf_berechnen(jetzt: i64) -> (r: usize)
    ensures
        r == ablauf(jetzt as int),
        0 <= jetzt && jetzt + 86400 <= usize::MAX ==> r == jetzt + 24 * 60 * 60,
{
    ((jetzt as i128) + 86400i128) as usize
}

/// Whether `r` starts a session for `email` at the time `jetzt`: a `302`
/// to `/` that sets the session cookie with the token for `email`, valid for
/// 24 hours from `jetzt`.
pub open spec fn sitzung_gestartet(r: HttpAntwort, email: Seq<char>, secret: Seq<char>, jetzt: int) -> bool {
    &&& r.status == 302
    &&& r.kopf() == seq![
        ("set-cookie"@, sitzungs_cookie(jwt_hs256(email, ablauf(jetzt) as int, secret))),
        ("location"@, "/"@),
    ]
    &&& r.inhalt@ == InhaltSicht::Leer
    &&& jwt_inhalt(jwt_hs256(email, ablauf(jetzt) as int, secret)) == Some((email, ablauf(jetzt) as int))
    &&& jwt_signatur_gueltig(jwt_hs256(email, ablauf(jetzt) as int, secret), secret)
    &&& forall|i: int| 0 <= i < jwt_hs256(email, ablauf(jetzt) as int, secret).len()
        ==> ist_jwt_zeichen(#[trigger] jwt_hs256(email, ablauf(jetzt) as int, secret)[i])
}

/// The answer to a login whose Google account has the address `email`, at the
/// time `jetzt`: a refusal page for an address that is not on the list;
/// otherwise a session token for the address, valid for 24 hours, in a cookie,
/// and a redirect to `/`.
pub fn anmeldung_abschliessen(email: String, cfg: &AuthKonfiguration, jetzt: i64) -> (r: HttpAntwort)
    ensures
        !ist_erlaubt(email@, cfg.erlaubte_emails@) ==> {
            &&& r.status == 403
            &&& r.kopf() == Seq::<(Seq<char>, Seq<char>)>::empty()
            &&& r.inhalt@ == InhaltSicht::Html(verweigert_seite(email@))
        },
        ist_erlaubt(email@, cfg.erlaubte_emails@) ==> sitzung_gestartet(r, email@, cfg.jwt_secret@, jetzt as int),
        ist_erlaubt(email@, cfg.erlaubte_emails@) && 0 <= jetzt && jetzt + 86400 <= usize::MAX ==> {
            &&& r.kopf()[0] == ("set-cookie"@, sitzungs_cookie(jwt_hs256(email@, jetzt + 24 * 60 * 60, cfg.jwt_secret@)))
            &&& jwt_inhalt(jwt_hs256(email@, jetzt + 24 * 60 * 60, cfg.jwt_secret@)) == Some((email@, jetzt + 24 * 60 * 60))
        },
{
    if !email_erlaubt(&email, &cfg.erlaubte_emails) {
        let mut seite = String::from_str(VERWEIGERT_ANFANG);
        seite.append(email.as_str());
        seite.append(VERWEIGERT_ENDE);
        let r = HttpAntwort { status: 403, kopfzeilen: Vec::new(), inhalt: Inhalt::Html(seite) };
        assert(r.kopf() =~= Seq::<(Seq<char>, Seq<char>)>::empty());
        return r;
    }
    let claims = Claims { email, exp: ablauf_berechnen(jetzt) };
    let token = jwt_erstellen(&claims, cfg.jwt_secret.as_str()).unwrap();
    let mut cookie = String::from_str("token=");
    proof {
        reveal_strlit("token=");
    }
    cookie.append(token.as_str());
    cookie.append(SITZUNG_ATTRIBUTE);
    assert(cookie@ =~= sitzungs_cookie(token@));
    weiterleitung_mit_cookie(cookie)
}

/// The answer to `/api/v1/auth/logout`: the session cookie is cleared and the
/// browser is sent to `/`.
pub fn abmelden() -> (r: HttpAntwort)
    ensures
        r.status == 302,
        r.kopf() == seq![("set-cookie"@, ABMELDE_COOKIE@), ("location"@, "/"@)],
        r.inhalt@ == InhaltSicht::Leer,
{
    weiterleitung_mit_cookie(String::from_str(ABMELDE_COOKIE))
}

impl UserInfo {
    /// What `/api/v1/auth/me` reports for the address of a session, if any.
    pub fn aus_email(email: Option<String>) -> (r: UserInfo)
        ensures
            r.eingeloggt == email is Some,
            email matches Some(e) ==> r.email@ == e@,
            email is None ==> r.email@ == Seq::<char>::empty(),
    {
        match email {
            Some(e) => UserInfo { email: e, eingeloggt: true },
            None => UserInfo { email: String::new(), eingeloggt: false },
        }
    }
}

/// Whether a session was found.
pub open spec fn sitzung_zugelassen(email: Option<String>) -> bool {
    email is Some
}

/// Whether the `X-Api-Key` header carries the API key.
pub open spec fn api_key_zugelassen(schluessel: Option<&str>, api_key: Seq<char>) -> bool {
    schluessel matches Some(k) && k@ == api_key
}

/// Whether the firmware may be fetched: with a session or with the API key.
pub open spec fn firmware_zugelassen(email: Option<String>, schluessel: Option<&str>, api_key: Seq<char>) -> bool {
    email is Some || (schluessel matches Some(k) && k@ == api_key)
}

fn ablehnung(nachricht: &str) -> (r: Ablehnung)
    ensures
        r.status == 401,
        r.nachricht@ == nachricht@,
{
    Ablehnung { status: 401, nachricht: String::from_str(nachricht) }
}

fn schluessel_passt(schluessel: Option<&str>, api_key: &String) -> (r: bool)
    ensures
        r == api_key_zugelassen(schluessel, api_key@),
{
    match schluessel {
        Some(k) => String::from_str(k) == *api_key,
        None => false,
    }
}

impl AuthGuard {
    /// Admits a request for which a session was found.
    pub fn entscheiden(email: &Option<String>) -> (r: Result<AuthGuard, Ablehnung>)
        ensures
            r is Ok == sitzung_zugelassen(*email),
            r matches Err(a) ==> a.status == 401 && a.nachricht@ == "Nicht eingeloggt"@,
    {
        match email {
            Some(_) => Ok(AuthGuard),
            None => Err(ablehnung("Nicht eingeloggt")),
        }
    }

    /// Checks the `Cookie` header of a request.
    pub fn pruefen(cookie_kopf: Option<&str>, cfg: &AuthKonfiguration) -> (r: Result<AuthGuard, Ablehnung>)
        ensures
            r is Ok ==> (cookie_kopf matches Some(k) && token_im_cookie(k@) matches Some(t) && !ohne_punkt(t)
                && jwt_signatur_gueltig(t, cfg.jwt_secret@) && jwt_inhalt(t) is Some),
            cookie_kopf matches Some(k) ==> (token_im_cookie(k@) matches Some(t) ==> (immer_gueltig(t, cfg.jwt_secret@)
                ==> r is Ok)),
            r matches Err(a) ==> a.status == 401 && a.nachricht@ == "Nicht eingeloggt"@,
    {
        let email = email_aus_cookie(cookie_kopf, cfg.jwt_secret.as_str());
        AuthGuard::entscheiden(&email)
    }
}

impl ApiKeyGuard {
    /// Admits a request whose `X-Api-Key` header is the API key.
    pub fn entscheiden(schluessel: Option<&str>, api_key: &String) -> (r: Result<ApiKeyGuard, Ablehnung>)
        ensures
            r is Ok == api_key_zugelassen(schluessel, api_key@),
            r matches Err(a) ==> a.status == 401 && a.nachricht@ == "Ungültiger API-Key"@,
    {
        if schluessel_passt(schluessel, api_key) {
            Ok(ApiKeyGuard)
        } else {
            Err(ablehnung("Ungültiger API-Key"))
        }
    }

    /// Checks the `X-Api-Key` header of a request.
    pub fn pruefen(schluessel: Option<&str>, cfg: &AuthKonfiguration) -> (r: Result<ApiKeyGuard, Ablehnung>)
        ensures
            r is Ok == api_key_zugelassen(schluessel, cfg.api_key@),
            r matches Err(a) ==> a.status == 401 && a.nachricht@ == "Ungültiger API-Key"@,
    {
        ApiKeyGuard::entscheiden(schluessel, &cfg.api_key)
    }
}

impl FirmwareGuard {
    /// Admits a request for which a session was found, or else whose
    /// `X-Api-Key` header is the API key.
    pub fn entscheiden(email: &Option<String>, schluessel: Option<&str>, api_key: &String) -> (r: Result<FirmwareGuard, Ablehnung>)
        ensures
            r is Ok == firmware_zugelassen(*email, schluessel, api_key@),
            r matches Err(a) ==> a.status == 401 && a.nachricht@ == "Nicht autorisiert"@,
    {
        if email.is_some() {
            return Ok(FirmwareGuard);
        }
        if schluessel_passt(schluessel, api_key) {
            Ok(FirmwareGuard)
        } else {
            Err(ablehnung("Nicht autorisiert"))
        }
    }

    /// Checks the `Cookie` header, then the `X-Api-Key` header, of a request.
    pub fn pruefen(cookie_kopf: Option<&str>, schluessel: Option<&str>, cfg: &AuthKonfiguration) -> (r: Result<FirmwareGuard, Ablehnung>)
        ensures
            api_key_zugelassen(schluessel, cfg.api_key@) ==> r is Ok,
            cookie_kopf matches Some(k) ==> (token_im_cookie(k@) matches Some(t) ==> (immer_gueltig(t, cfg.jwt_secret@)
                ==> r is Ok)),
            r is Ok ==> (cookie_kopf matches Some(k) && token_im_cookie(k@) matches Some(t) && !ohne_punkt(t)
                && jwt_signatur_gueltig(t, cfg.jwt_secret@) && jwt_inhalt(t) is Some) || api_key_zugelassen(schluessel, cfg.api_key@),
            r matches Err(a) ==> a.status == 401 && a.nachricht@ == "Nicht autorisiert"@,
    {
        let email = email_aus_cookie(cookie_kopf, cfg.jwt_secret.as_str());
        FirmwareGuard::entscheiden(&email, schluessel, &cfg.api_key)
    }
}


/// The Google endpoint that trades the code of the callback for a token.
pub const TOKEN_URL: &'static str = "https://oauth2.googleapis.com/token";

/// The Google endpoint that reports the address of an account.
pub const NUTZER_URL: &'static str = "https://www.googleapis.com/oauth2/v2/userinfo";

/// A form `POST` that trades the code of the callback for an access token.
pub struct TokenAnfrage {
    pub url: String,
    pub formular: Vec<(String, String)>,
}

/// A `GET` that asks for the address of the account, with an
/// `Authorization` header.
pub struct NutzerAnfrage {
    pub url: String,
    pub autorisierung: String,
}

/// How a request to Google failed: it could not be sent or answered, or its
/// answer could not be read as the expected JSON.
pub enum AbrufFehler {
    Anfrage,
    Auswertung,
}

/// What the callback does after the token trade.
pub enum NachTokenTausch {
    /// Ask Google for the address of the account.
    NutzerAbfragen(NutzerAnfrage),
    /// Answer the browser.
    Antworten(HttpAntwort),
}

/// The first step of the OAuth callback: the form that trades `code` for a
/// token.
pub fn anmeldung_beginnen(callback: &AuthCallback, cfg: &AuthKonfiguration) -> (r: TokenAnfrage)
    ensures
        r.url@ == TOKEN_URL@,
        kopfzeilen_sicht(r.formular@) == seq![
            ("code"@, callback.code@),
            ("client_id"@, cfg.google_client_id@),
            ("client_secret"@, cfg.google_client_secret@),
            ("redirect_uri"@, cfg.google_redirect_uri@),
            ("grant_type"@, "authorization_code"@),
        ],
{
    let mut f: Vec<(String, String)> = Vec::new();
    f.push((String::from_str("code"), callback.code.clone()));
    f.push((String::from_str("client_id"), cfg.google_client_id.clone()));
    f.push((String::from_str("client_secret"), cfg.google_client_secret.clone()));
    f.push((String::from_str("redirect_uri"), cfg.google_redirect_uri.clone()));
    f.push((String::from_str("grant_type"), String::from_str("authorization_code")));
    assert(kopfzeilen_sicht(f@) =~= seq![
        ("code"@, callback.code@),
        ("client_id"@, cfg.google_client_id@),
        ("client_secret"@, cfg.google_client_secret@),
        ("redirect_uri"@, cfg.google_redirect_uri@),
        ("grant_type"@, "authorization_code"@),
    ]);
    TokenAnfrage { url: String::from_str(TOKEN_URL), formular: f }
}

/// The second step of the OAuth callback, once the token trade is over: a
/// failure is answered with `500`; an access token leads to the question for
/// the address, with the header `Authorization: Bearer <token>`.
pub fn nach_token_tausch(ergebnis: Result<String, AbrufFehler>) -> (r: NachTokenTausch)
    ensures
        ergebnis matches Ok(t) ==> (r matches NachTokenTausch::NutzerAbfragen(a) && a.url@ == NUTZER_URL@
            && a.autorisierung@ == "Bearer "@ + t@),
        ergebnis matches Err(AbrufFehler::Anfrage) ==> (r matches NachTokenTausch::Antworten(a) && a.status == 500
            && a.kopf() == Seq::<(Seq<char>, Seq<char>)>::empty()
            && a.inhalt@ == InhaltSicht::Text("Token-Anfrage fehlgeschlagen"@)),
        ergebnis matches Err(AbrufFehler::Auswertung) ==> (r matches NachTokenTausch::Antworten(a) && a.status == 500
            && a.kopf() == Seq::<(Seq<char>, Seq<char>)>::empty()
            && a.inhalt@ == InhaltSicht::Text("Token-Parsing fehlgeschlagen"@)),
{
    match ergebnis {
        Ok(token) => {
            let mut autorisierung = String::from_str("Bearer ");
            autorisierung.append(token.as_str());
            NachTokenTausch::NutzerAbfragen(NutzerAnfrage { url: String::from_str(NUTZER_URL), autorisierung })
        },
        Err(AbrufFehler::Anfrage) => NachTokenTausch::Antworten(text_antwort(500, "Token-Anfrage fehlgeschlagen")),
        Err(AbrufFehler::Auswertung) => NachTokenTausch::Antworten(text_antwort(500, "Token-Parsing fehlgeschlagen")),
    }
}

/// The last step of the OAuth callback, once Google has been asked for the
/// address: a failure is answered with `500`; an address is checked against
/// the list and, where it is on it, gets a session that starts now.
pub fn nach_nutzer_abfrage(ergebnis: Result<String, AbrufFehler>, cfg: &AuthKonfiguration) -> (r: HttpAntwort)
    ensures
        ergebnis matches Err(AbrufFehler::Anfrage) ==> r.status == 500 && r.kopf() == Seq::<(Seq<char>, Seq<char>)>::empty()
            && r.inhalt@ == InhaltSicht::Text("User-Anfrage fehlgeschlagen"@),
        ergebnis matches Err(AbrufFehler::Auswertung) ==> r.status == 500 && r.kopf() == Seq::<(Seq<char>, Seq<char>)>::empty()
            && r.inhalt@ == InhaltSicht::Text("User-Info fehlgeschlagen"@),
        ergebnis matches Ok(email) ==> (!ist_erlaubt(email@, cfg.erlaubte_emails@) ==> r.status == 403
            && r.kopf() == Seq::<(Seq<char>, Seq<char>)>::empty()
            && r.inhalt@ == InhaltSicht::Html(verweigert_seite(email@))),
        ergebnis matches Ok(email) ==> (ist_erlaubt(email@, cfg.erlaubte_emails@) ==> exists|jetzt: int|
            #[trigger] sitzung_gestartet(r, email@, cfg.jwt_secret@, jetzt)),
{
    match ergebnis {
        Ok(email) => {
            let ghost e = email@;
            let jetzt = utc_jetzt().sekunden;
            let r = anmeldung_abschliessen(email, cfg, jetzt);
            assert(ist_erlaubt(e, cfg.erlaubte_emails@) ==> sitzung_gestartet(r, e, cfg.jwt_secret@, jetzt as int));
            assert(ist_erlaubt(e, cfg.erlaubte_emails@) ==> exists|j: int| #[trigger] sitzung_gestartet(r, e, cfg.jwt_secret@, j));
            r
        },
        Err(AbrufFehler::Anfrage) => text_antwort(500, "User-Anfrage fehlgeschlagen"),
        Err(AbrufFehler::Auswertung) => text_antwort(500, "User-Info fehlgeschlagen"),
    }
}

impl UserInfo {
    /// What `/api/v1/auth/me` reports for the `Cookie` header of a request.
    pub fn fuer_cookie(cookie_kopf: Option<&str>, cfg: &AuthKonfiguration) -> (r: UserInfo)
        ensures
            r.eingeloggt ==> (cookie_kopf matches Some(k) && token_im_cookie(k@) matches Some(t) && !ohne_punkt(t)),
            r.eingeloggt ==> (cookie_kopf matches Some(k) && token_im_cookie(k@) matches Some(t)
                && jwt_inhalt(t) matches Some((e, _)) && r.email@ == e && jwt_signatur_gueltig(t, cfg.jwt_secret@)),
            !r.eingeloggt ==> r.email@ == Seq::<char>::empty(),
            cookie_kopf matches Some(k) ==> (token_im_cookie(k@) matches Some(t) ==> (immer_gueltig(t, cfg.jwt_secret@)
                ==> r.eingeloggt && jwt_inhalt(t) == Some((r.email@, nie_ablaufend())))),
    {
        UserInfo::aus_email(email_aus_cookie(cookie_kopf, cfg.jwt_secret.as_str()))
    }
}

/// A cookie header whose first piece is `token=<token>` carries `token`,
/// for a token without `;` that does not end in whitespace.
proof fn lemma_token_vorne(kopf: Seq<char>, token: Seq<char>)
    requires
        forall|i: int| 0 <= i < token.len() ==> #[trigger] token[i] != ';',
        token.len() == 0 || !ist_leerraum(token.last()),
        kopf.len() >= 6 + token.len() as int,
        kopf.take(6 + token.len() as int) == token_praefix() + token,
        kopf.len() == 6 + token.len() as int || kopf[6 + token.len() as int] == ';',
    ensures
        token_im_cookie(kopf) == Some(token),
{
    let k: int = 6 + token.len() as int;
    let stueck = token_praefix() + token;
    assert forall|i: int| 0 <= i < k implies #[trigger] kopf[i] != ';' by {
        assert(kopf[i] == kopf.take(k)[i]);
        if i >= 6 {
            assert(stueck[i] == token[i - 6]);
        }
    }
    lemma_teile_erstes(kopf, ';', k);
    lemma_teile_nicht_leer(kopf, ';');
    assert(ohne_fuehrende(stueck) == stueck);
    assert(stueck.last() == if token.len() == 0 { '=' } else { token.last() });
    assert(ohne_folgende(stueck) == stueck);
    assert(getrimmt(stueck) == stueck);
    assert(stueck.subrange(0, 6) =~= token_praefix());
    assert(stueck.subrange(6, stueck.len() as int) =~= token);
}

/// Reading back the cookie that a login sets: the `Set-Cookie` value of a
/// session, and the `Cookie` header `token=<token>` that the browser sends
/// back, both carry the token of the session, for a token without `;` that
/// does not end in whitespace.
pub proof fn gesetz_sitzungs_cookie_zuruecklesen(token: Seq<char>)
    requires
        forall|i: int| 0 <= i < token.len() ==> #[trigger] token[i] != ';',
        token.len() == 0 || !ist_leerraum(token.last()),
    ensures
        token_im_cookie(sitzungs_cookie(token)) == Some(token),
        token_im_cookie(token_praefix() + token) == Some(token),
{
    reveal_strlit("; Path=/; HttpOnly; Secure; SameSite=Lax; Max-Age=86400");
    let c = sitzungs_cookie(token);
    assert(c.take(6 + token.len() as int) =~= token_praefix() + token);
    assert(c[6 + token.len() as int] == SITZUNG_ATTRIBUTE@[0]);
    lemma_token_vorne(c, token);
    let c2 = token_praefix() + token;
    assert(c2.take(6 + token.len() as int) =~= c2);
    lemma_token_vorne(c2, token);
}

/// What a login writes is read back: the cookie of a started session, and
/// the `Cookie` header `token=<token>` that the browser sends back, carry the
/// session token, and its claims hold the address of the login and the end of
/// the session. `email_aus_cookie` gives no other address than these claims.
pub proof fn gesetz_anmeldung_zuruecklesen(r: HttpAntwort, email: Seq<char>, secret: Seq<char>, jetzt: int)
    requires
        sitzung_gestartet(r, email, secret, jetzt),
    ensures
        r.kopf()[0].1 == sitzungs_cookie(jwt_hs256(email, ablauf(jetzt) as int, secret)),
        token_im_cookie(r.kopf()[0].1) == Some(jwt_hs256(email, ablauf(jetzt) as int, secret)),
        token_im_cookie(token_praefix() + jwt_hs256(email, ablauf(jetzt) as int, secret))
            == Some(jwt_hs256(email, ablauf(jetzt) as int, secret)),
        jwt_inhalt(jwt_hs256(email, ablauf(jetzt) as int, secret)) == Some((email, ablauf(jetzt) as int)),
{
    let token = jwt_hs256(email, ablauf(jetzt) as int, secret);
    assert forall|i: int| 0 <= i < token.len() implies #[trigger] token[i] != ';' by {
        assert(ist_jwt_zeichen(token[i]));
    }
    if token.len() > 0 {
        assert(ist_jwt_zeichen(token[token.len() - 1]));
    }
    gesetz_sitzungs_cookie_zuruecklesen(token);
}

/// A cookie in front of the session cookie does not hide it: a first piece
/// that is not the session cookie leaves the token of the header as that of
/// the rest, wherever in the header the session cookie stands.
pub proof fn gesetz_anderes_cookie_davor(vorne: Seq<char>, rest: Seq<char>)
    requires
        forall|i: int| 0 <= i < vorne.len() ==> #[trigger] vorne[i] != ';',
        !beginnt_mit(getrimmt(vorne), token_praefix()),
    ensures
        token_im_cookie(vorne + seq![';'] + rest) == token_im_cookie(rest),
{
    lemma_teile_vorne(vorne, rest, ';');
    let stuecke = seq![vorne] + teile(rest, ';');
    assert(stuecke[0] == vorne);
    assert(stuecke.drop_first() =~= teile(rest, ';'));
}

/// A session lasts a day: its `exp` claim is 24 hours after the second at
/// which it starts, as long as that fits in a `usize`.
pub proof fn gesetz_sitzung_dauert_einen_tag(jetzt: int)
    requires
        0 <= jetzt,
        jetzt + 86400 <= usize::MAX,
    ensures
        ablauf(jetzt) == jetzt + 24 * 60 * 60,
{
}

/// The cookie that a logout sets carries the empty token, which holds no
/// dot, so that `email_aus_cookie` finds no session in it.
pub proof fn gesetz_abmelde_cookie_leer()
    ensures
        token_im_cookie(ABMELDE_COOKIE@) == Some(Seq::<char>::empty()),
        ohne_punkt(Seq::<char>::empty()),
{
    reveal_strlit("token=; Path=/; HttpOnly; Secure; SameSite=Lax; Max-Age=0");
    let c = ABMELDE_COOKIE@;
    assert(c.take(6) =~= token_praefix() + Seq::<char>::empty());
    lemma_token_vorne(c, Seq::<char>::empty());
}

/// The firmware guard admits exactly the requests that the session guard or
/// the API key guard admits.
pub proof fn gesetz_firmware_guard(email: Option<String>, schluessel: Option<&str>, api_key: Seq<char>)
    ensures
        firmware_zugelassen(email, schluessel, api_key) == (sitzung_zugelassen(email) || api_key_zugelassen(schluessel, api_key)),
{
}

} // verus!
