//! The errors of the request handlers and how they are answered.

use vstd::prelude::*;
use vstd::string::*;
use crate::antwort::{text_antwort, HttpAntwort, InhaltSicht};

verus! {

/// Why a request failed.
pub enum AppError {
    /// The database reported an error; it carries the error's text.
    DatenbankFehler(String),
    /// Something was not found.
    NichtGefunden(String),
    /// An upload could not be read.
    UploadFehler(String),
}

impl AppError {
    /// The answer to a failed request: `500` with `Datenbankfehler: <text>`
    /// for a database error, `404` or `400` with the message otherwise.
    pub fn antwort(&self) -> (r: HttpAntwort)
        ensures
            r.kopf() == Seq::<(Seq<char>, Seq<char>)>::empty(),
            self matches AppError::DatenbankFehler(e) ==> r.status == 500
                && r.inhalt@ == InhaltSicht::Text("Datenbankfehler: "@ + e@),
            self matches AppError::NichtGefunden(m) ==> r.status == 404 && r.inhalt@ == InhaltSicht::Text(m@),
            self matches AppError::UploadFehler(m) ==> r.status == 400 && r.inhalt@ == InhaltSicht::Text(m@),
    {
        match self {
            AppError::DatenbankFehler(e) => {
                let mut text = String::from_str("Datenbankfehler: ");
                text.append(e.as_str());
                text_antwort(500, text.as_str())
            },
            AppError::NichtGefunden(m) => text_antwort(404, m.as_str()),
            AppError::UploadFehler(m) => text_antwort(400, m.as_str()),
        }
    }
}

} // verus!
