use freezer_monitor::antwort::{HttpAntwort, Inhalt};
use freezer_monitor::auth::{
    abmelden, anmeldung_abschliessen, anmeldung_beginnen, email_aus_cookie, email_erlaubt,
    erlaubte_emails_parsen, login_url, nach_nutzer_abfrage, nach_token_tausch, token_aus_cookie,
    AbrufFehler, ApiKeyGuard, AuthCallback, AuthGuard, AuthKonfiguration, FirmwareGuard,
    NachTokenTausch, UserInfo, ABMELDE_COOKIE, NUTZER_URL, TOKEN_URL, VERWEIGERT_ANFANG,
    VERWEIGERT_ENDE,
};

fn konfiguration() -> AuthKonfiguration {
    AuthKonfiguration {
        google_client_id: "id-123".to_string(),
        google_client_secret: "geheim".to_string(),
        google_redirect_uri: "https://freezer.example/api/v1/auth/callback".to_string(),
        erlaubte_emails: erlaubte_emails_parsen("anna@example.org, bernd@example.org"),
        jwt_secret: "jwt-geheimnis".to_string(),
        api_key: "esp32-schluessel".to_string(),
    }
}

fn kopf<'a>(a: &'a HttpAntwort, name: &str) -> Option<&'a str> {
    a.kopfzeilen.iter().find(|(n, _)| n == name).map(|(_, w)| w.as_str())
}

fn sitzungs_cookie_von(a: &HttpAntwort) -> String {
    kopf(a, "set-cookie").expect("Set-Cookie").to_string()
}

#[test]
fn token_aus_cookie_beispiele() {
    assert_eq!(token_aus_cookie("token=abc"), Some("abc".to_string()));
    assert_eq!(token_aus_cookie("theme=dark; token=abc.def; lang=de"), Some("abc.def".to_string()));
    assert_eq!(token_aus_cookie("  token=x  ;token=y"), Some("x".to_string()));
    assert_eq!(token_aus_cookie("mytoken=x"), None);
    assert_eq!(token_aus_cookie(""), None);
    assert_eq!(token_aus_cookie("token="), Some(String::new()));
}

#[test]
fn sitzungs_cookie_zuruecklesen() {
    for t in ["eyJ0.eyJ1.sig", "", "a-b_c"] {
        let set_cookie = format!("token={}; Path=/; HttpOnly; Secure; SameSite=Lax; Max-Age=86400", t);
        assert_eq!(token_aus_cookie(&set_cookie), Some(t.to_string()));
        assert_eq!(token_aus_cookie(&format!("token={}", t)), Some(t.to_string()));
    }
}

#[test]
fn abmelde_cookie_traegt_leeres_token() {
    assert_eq!(token_aus_cookie(ABMELDE_COOKIE), Some(String::new()));
    let a = abmelden();
    assert_eq!(a.status, 302);
    assert_eq!(kopf(&a, "set-cookie"), Some("token=; Path=/; HttpOnly; Secure; SameSite=Lax; Max-Age=0"));
    assert_eq!(kopf(&a, "location"), Some("/"));
    assert!(matches!(a.inhalt, Inhalt::Leer));
    assert_eq!(email_aus_cookie(Some(ABMELDE_COOKIE), "jwt-geheimnis"), None);
    assert!(AuthGuard::pruefen(Some(ABMELDE_COOKIE), &konfiguration()).is_err());
}

#[test]
fn erlaubte_emails_werden_getrimmt() {
    assert_eq!(
        erlaubte_emails_parsen(" a@x.de ,b@y.de,, c@z.de"),
        vec!["a@x.de".to_string(), "b@y.de".to_string(), String::new(), "c@z.de".to_string()]
    );
    assert_eq!(erlaubte_emails_parsen(""), vec![String::new()]);
}

#[test]
fn email_erlaubt_prueft_die_liste() {
    let k = konfiguration();
    assert!(email_erlaubt(&"anna@example.org".to_string(), &k.erlaubte_emails));
    assert!(!email_erlaubt(&"eve@example.org".to_string(), &k.erlaubte_emails));
    assert!(!email_erlaubt(&"Anna@example.org".to_string(), &k.erlaubte_emails));
}

#[test]
fn login_url_beispiel() {
    let k = konfiguration();
    assert_eq!(
        login_url(&k),
        "https://accounts.google.com/o/oauth2/v2/auth?client_id=id-123&redirect_uri=https://freezer.example/api/v1/auth/callback&response_type=code&scope=email&access_type=offline"
    );
}

#[test]
fn anmeldung_ablauf() {
    let k = konfiguration();
    let anfrage = anmeldung_beginnen(&AuthCallback { code: "4/abc".to_string() }, &k);
    assert_eq!(anfrage.url, TOKEN_URL);
    assert_eq!(
        anfrage.formular,
        vec![
            ("code".to_string(), "4/abc".to_string()),
            ("client_id".to_string(), "id-123".to_string()),
            ("client_secret".to_string(), "geheim".to_string()),
            ("redirect_uri".to_string(), "https://freezer.example/api/v1/auth/callback".to_string()),
            ("grant_type".to_string(), "authorization_code".to_string()),
        ]
    );
    match nach_token_tausch(Ok("ya29.zugang".to_string())) {
        NachTokenTausch::NutzerAbfragen(a) => {
            assert_eq!(a.url, NUTZER_URL);
            assert_eq!(a.autorisierung, "Bearer ya29.zugang");
        }
        NachTokenTausch::Antworten(_) => panic!("Nutzerabfrage erwartet"),
    }
}

fn text_von(a: &HttpAntwort) -> &str {
    match &a.inhalt {
        Inhalt::Text(t) => t.as_str(),
        _ => panic!("Textantwort erwartet"),
    }
}

#[test]
fn anmeldung_fehler() {
    let k = konfiguration();
    for (f, text) in [(AbrufFehler::Anfrage, "Token-Anfrage fehlgeschlagen"), (AbrufFehler::Auswertung, "Token-Parsing fehlgeschlagen")] {
        match nach_token_tausch(Err(f)) {
            NachTokenTausch::Antworten(a) => {
                assert_eq!(a.status, 500);
                assert_eq!(text_von(&a), text);
            }
            NachTokenTausch::NutzerAbfragen(_) => panic!("Antwort erwartet"),
        }
    }
    let a = nach_nutzer_abfrage(Err(AbrufFehler::Anfrage), &k);
    assert_eq!((a.status, text_von(&a)), (500, "User-Anfrage fehlgeschlagen"));
    let a = nach_nutzer_abfrage(Err(AbrufFehler::Auswertung), &k);
    assert_eq!((a.status, text_von(&a)), (500, "User-Info fehlgeschlagen"));
}

#[test]
fn nicht_erlaubte_email_wird_abgewiesen() {
    let k = konfiguration();
    let a = anmeldung_abschliessen("eve@example.org".to_string(), &k, 1_700_000_000);
    assert_eq!(a.status, 403);
    assert!(a.kopfzeilen.is_empty());
    let b = nach_nutzer_abfrage(Ok("eve@example.org".to_string()), &k);
    assert_eq!(b.status, 403);
    assert!(b.kopfzeilen.is_empty());
    assert_eq!(kopf(&b, "set-cookie"), None);
    match &a.inhalt {
        Inhalt::Html(h) => {
            assert_eq!(h, &format!("{}eve@example.org{}", VERWEIGERT_ANFANG, VERWEIGERT_ENDE));
            assert!(h.contains("<div class=\"email\">eve@example.org</div>"));
            assert!(h.contains("Zugriff nicht erlaubt"));
        }
        _ => panic!("HTML erwartet"),
    }
}

#[test]
fn anmeldung_und_sitzung_zuruecklesen() {
    let k = konfiguration();
    let a = nach_nutzer_abfrage(Ok("anna@example.org".to_string()), &k);
    assert_eq!(a.status, 302);
    assert_eq!(kopf(&a, "location"), Some("/"));
    let cookie = sitzungs_cookie_von(&a);
    assert!(cookie.starts_with("token="));
    assert!(cookie.ends_with("; Path=/; HttpOnly; Secure; SameSite=Lax; Max-Age=86400"));
    let token = token_aus_cookie(&cookie).unwrap();
    assert_eq!(token.split('.').count(), 3);
    assert!(token.chars().all(|c| c.is_ascii_alphanumeric() || c == '-' || c == '_' || c == '.'));
    let kopfzeile = format!("token={}", token);
    assert_eq!(email_aus_cookie(Some(&kopfzeile), "jwt-geheimnis"), Some("anna@example.org".to_string()));
    assert_eq!(email_aus_cookie(Some(&kopfzeile), "anderes-geheimnis"), None);
    let info = UserInfo::fuer_cookie(Some(&kopfzeile), &k);
    assert!(info.eingeloggt);
    assert_eq!(info.email, "anna@example.org");
}

#[test]
fn abgelaufene_sitzung_gilt_nicht() {
    let k = konfiguration();
    let a = anmeldung_abschliessen("anna@example.org".to_string(), &k, 1_000_000_000);
    assert_eq!(a.status, 302);
    let token = token_aus_cookie(&sitzungs_cookie_von(&a)).unwrap();
    assert_eq!(email_aus_cookie(Some(&format!("token={}", token)), "jwt-geheimnis"), None);
}

#[test]
fn gleiches_token_fuer_gleiche_anmeldung() {
    let k = konfiguration();
    let a = anmeldung_abschliessen("anna@example.org".to_string(), &k, 1_700_000_000);
    let b = anmeldung_abschliessen("anna@example.org".to_string(), &k, 1_700_000_000);
    let c = anmeldung_abschliessen("anna@example.org".to_string(), &k, 1_700_000_001);
    assert_eq!(sitzungs_cookie_von(&a), sitzungs_cookie_von(&b));
    assert_ne!(sitzungs_cookie_von(&a), sitzungs_cookie_von(&c));
}

#[test]
fn ohne_cookie_keine_sitzung() {
    let k = konfiguration();
    assert_eq!(email_aus_cookie(None, "jwt-geheimnis"), None);
    assert_eq!(email_aus_cookie(Some("theme=dark"), "jwt-geheimnis"), None);
    assert_eq!(email_aus_cookie(Some("token=kein.gueltiges.token"), "jwt-geheimnis"), None);
    let info = UserInfo::fuer_cookie(None, &k);
    assert!(!info.eingeloggt);
    assert_eq!(info.email, "");
}

#[test]
fn waechter() {
    let k = konfiguration();
    let a = nach_nutzer_abfrage(Ok("bernd@example.org".to_string()), &k);
    let kopfzeile = format!("token={}", token_aus_cookie(&sitzungs_cookie_von(&a)).unwrap());

    assert!(AuthGuard::pruefen(Some(&kopfzeile), &k).is_ok());
    let e = AuthGuard::pruefen(None, &k).err().unwrap();
    assert_eq!((e.status, e.nachricht.as_str()), (401, "Nicht eingeloggt"));

    assert!(ApiKeyGuard::pruefen(Some("esp32-schluessel"), &k).is_ok());
    let e = ApiKeyGuard::pruefen(Some("falsch"), &k).err().unwrap();
    assert_eq!((e.status, e.nachricht.as_str()), (401, "Ungültiger API-Key"));
    assert!(ApiKeyGuard::pruefen(None, &k).is_err());

    assert!(FirmwareGuard::pruefen(Some(&kopfzeile), None, &k).is_ok());
    assert!(FirmwareGuard::pruefen(None, Some("esp32-schluessel"), &k).is_ok());
    assert!(FirmwareGuard::pruefen(Some("token=x"), Some("esp32-schluessel"), &k).is_ok());
    let e = FirmwareGuard::pruefen(Some("token=x"), Some("falsch"), &k).err().unwrap();
    assert_eq!((e.status, e.nachricht.as_str()), (401, "Nicht autorisiert"));
}

#[test]
fn firmware_waechter_ist_oder_der_beiden() {
    let schluessel = "k".to_string();
    for email in [None, Some("a@b.de".to_string())] {
        for key in [None, Some("k"), Some("x")] {
            let f = FirmwareGuard::entscheiden(&email, key, &schluessel).is_ok();
            let s = AuthGuard::entscheiden(&email).is_ok();
            let a = ApiKeyGuard::entscheiden(key, &schluessel).is_ok();
            assert_eq!(f, s || a);
        }
    }
}

#[test]
fn user_info_aus_email() {
    let u = UserInfo::aus_email(Some("a@b.de".to_string()));
    assert!(u.eingeloggt);
    assert_eq!(u.email, "a@b.de");
    let u = UserInfo::aus_email(None);
    assert!(!u.eingeloggt);
    assert_eq!(u.email, "");
}
