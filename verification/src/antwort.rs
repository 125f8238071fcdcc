//! HTTP answers as plain values: a status code, header lines and a body.

use vstd::prelude::*;

verus! {

/// The body of an answer.
pub enum Inhalt {
    /// No body.
    Leer,
    /// A `text/plain` body.
    Text(String),
    /// A `text/html` body.
    Html(String),
}

/// An answer to an HTTP request.
pub struct HttpAntwort {
    pub status: u16,
    pub kopfzeilen: Vec<(String, String)>,
    pub inhalt: Inhalt,
}

/// The view of a body.
pub enum InhaltSicht {
    Leer,
    Text(Seq<char>),
    Html(Seq<char>),
}

impl View for Inhalt {
    type V = InhaltSicht;

    open spec fn view(&self) -> InhaltSicht {
        match self {
            Inhalt::Leer => InhaltSicht::Leer,
            Inhalt::Text(t) => InhaltSicht::Text(t@),
            Inhalt::Html(h) => InhaltSicht::Html(h@),
        }
    }
}

/// Header lines as pairs of texts.
pub open spec fn kopfzeilen_sicht(k: Seq<(String, String)>) -> Seq<(Seq<char>, Seq<char>)> {
    k.map_values(|p: (String, String)| (p.0@, p.1@))
}

impl HttpAntwort {
    /// The header lines of the answer, as texts.
    pub open spec fn kopf(&self) -> Seq<(Seq<char>, Seq<char>)> {
        kopfzeilen_sicht(self.kopfzeilen@)
    }
}

/// An answer with a status and a plain text body and no header lines.
pub fn text_antwort(status: u16, text: &str) -> (r: HttpAntwort)
    ensures
        r.status == status,
        r.kopf() == Seq::<(Seq<char>, Seq<char>)>::empty(),
        r.inhalt@ == InhaltSicht::Text(text@),
{
    let r = HttpAntwort { status, kopfzeilen: Vec::new(), inhalt: Inhalt::Text(String::from_str(text)) };
    assert(r.kopf() =~= Seq::<(Seq<char>, Seq<char>)>::empty());
    r
}

/// A `302 Found` answer that sets a cookie and sends the browser to `/`.
pub fn weiterleitung_mit_cookie(cookie: String) -> (r: HttpAntwort)
    ensures
        r.status == 302,
        r.kopf() == seq![("set-cookie"@, cookie@), ("location"@, "/"@)],
        r.inhalt@ == InhaltSicht::Leer,
{
    let mut k: Vec<(String, String)> = Vec::new();
    k.push((String::from_str("set-cookie"), cookie));
    k.push((String::from_str("location"), String::from_str("/")));
    let r = HttpAntwort { status: 302, kopfzeilen: k, inhalt: Inhalt::Leer };
    assert(r.kopf() =~= seq![("set-cookie"@, r.kopfzeilen@[0].1@), ("location"@, "/"@)]);
    r
}

} // verus!
