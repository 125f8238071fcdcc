//! Firmware rules: the version that an uploaded file name announces, the
//! name and version a firmware upload falls back to, and the version the
//! server starts with.

use vstd::prelude::*;
use vstd::string::*;
use crate::text::{aufteilen, ist_u32, ist_u32_text, ist_ziffer, lemma_teile_letztes, lemma_teile_nicht_leer, ohne_plus, teile};

verus! {

/// The suffix `.bin`.
pub open spec fn bin_endung() -> Seq<char> {
    seq!['.', 'b', 'i', 'n']
}

/// Whether `s` ends with `p`.
pub open spec fn endet_mit(s: Seq<char>, p: Seq<char>) -> bool {
    p.len() <= s.len() && s.subrange(s.len() - p.len(), s.len() as int) == p
}

/// `str::trim_end_matches(".bin")`: every trailing `.bin` removed.
pub open spec fn ohne_bin(s: Seq<char>) -> Seq<char>
    decreases s.len(),
{
    if endet_mit(s, bin_endung()) {
        ohne_bin(s.subrange(0, s.len() - 4))
    } else {
        s
    }
}

/// What follows the first `c` in `s`, if `c` occurs: the second piece of
/// `str::splitn(2, c)`.
pub open spec fn nach_erstem(s: Seq<char>, c: char) -> Option<Seq<char>>
    decreases s.len(),
{
    if s.len() == 0 {
        None
    } else if s[0] == c {
        Some(s.drop_first())
    } else {
        nach_erstem(s.drop_first(), c)
    }
}

/// A version text: at least two pieces between dots, each a `u32` numeral.
pub open spec fn ist_versionstext(v: Seq<char>) -> bool {
    &&& teile(v, '.').len() >= 2
    &&& forall|i: int| 0 <= i < teile(v, '.').len() ==> ist_u32_text(#[trigger] teile(v, '.')[i])
}

/// The version in a firmware file name such as `firmware_1.0.1.bin`: the part
/// after the first `_`, once every trailing `.bin` is gone, if that part is a
/// version text.
pub open spec fn version_im_dateinamen(d: Seq<char>) -> Option<Seq<char>> {
    match nach_erstem(ohne_bin(d), '_') {
        Some(v) => if ist_versionstext(v) { Some(v) } else { None },
        None => None,
    }
}

proof fn lemma_nach_erstem(s: Seq<char>, c: char, k: int)
    requires
        0 <= k <= s.len(),
        forall|j: int| 0 <= j < k ==> #[trigger] s[j] != c,
    ensures
        k == s.len() ==> nach_erstem(s, c) is None,
        k < s.len() && s[k] == c ==> nach_erstem(s, c) == Some(s.subrange(k + 1, s.len() as int)),
    decreases k,
{
    if k > 0 {
        assert forall|j: int| 0 <= j < k - 1 implies #[trigger] s.drop_first()[j] != c by {
            assert(s.drop_first()[j] == s[j + 1]);
        }
        lemma_nach_erstem(s.drop_first(), c, k - 1);
        if k < s.len() {
            assert(s.drop_first().subrange(k, s.len() - 1) =~= s.subrange(k + 1, s.len() as int));
        }
    } else {
        if s.len() > 0 && s[0] == c {
            assert(s.drop_first() =~= s.subrange(1, s.len() as int));
        }
    }
}

fn endet_mit_bin(s: &str, e: usize) -> (r: bool)
    requires
        e <= s@.len(),
    ensures
        r == endet_mit(s@.take(e as int), bin_endung()),
{
    if e < 4 {
        return false;
    }
    let r = s.get_char(e - 4) == '.' && s.get_char(e - 3) == 'b' && s.get_char(e - 2) == 'i'
        && s.get_char(e - 1) == 'n';
    proof {
        let t = s@.take(e as int).subrange(e - 4, e as int);
        if r {
            assert(t =~= bin_endung());
        } else {
            if t == bin_endung() {
                assert(t[0] == s@[e - 4]);
                assert(t[1] == s@[e - 3]);
                assert(t[2] == s@[e - 2]);
                assert(t[3] == s@[e - 1]);
            }
        }
    }
    r
}

/// The version announced by a firmware file name (`firmware_1.0.1.bin` gives
/// `1.0.1`), or `None` where the name announces none.
pub fn version_aus_dateiname(dateiname: &str) -> (r: Option<String>)
    ensures
        r is Some == version_im_dateinamen(dateiname@) is Some,
        r is Some ==> r->0@ == version_im_dateinamen(dateiname@)->0,
{
    let n = dateiname.unicode_len();
    let mut e: usize = n;
    proof {
        assert(dateiname@.take(n as int) =~= dateiname@);
    }
    while endet_mit_bin(dateiname, e)
        invariant
            n == dateiname@.len(),
            e <= n,
            ohne_bin(dateiname@) == ohne_bin(dateiname@.take(e as int)),
        decreases e,
    {
        proof {
            assert(dateiname@.take(e as int).subrange(0, e - 4) =~= dateiname@.take(e - 4));
        }
        e = e - 4;
    }
    let ghost o = dateiname@.take(e as int);
    assert(ohne_bin(dateiname@) == o);
    let mut i: usize = 0;
    while i < e && dateiname.get_char(i) != '_'
        invariant
            n == dateiname@.len(),
            e <= n,
            o == dateiname@.take(e as int),
            0 <= i <= e,
            forall|j: int| 0 <= j < i ==> #[trigger] o[j] != '_',
        decreases e - i,
    {
        i = i + 1;
    }
    proof {
        lemma_nach_erstem(o, '_', i as int);
    }
    if i == e {
        return None;
    }
    let v = dateiname.substring_char(i + 1, e);
    proof {
        assert(v@ =~= o.subrange(i + 1, o.len() as int));
        assert(nach_erstem(ohne_bin(dateiname@), '_') == Some(v@));
    }
    let segmente = aufteilen(v, '.');
    if segmente.len() < 2 {
        return None;
    }
    let mut k: usize = 0;
    while k < segmente.len()
        invariant
            nach_erstem(ohne_bin(dateiname@), '_') == Some(v@),
            segmente@.len() >= 2,
            segmente@.len() == teile(v@, '.').len(),
            forall|j: int| 0 <= j < segmente@.len() ==> #[trigger] segmente@[j]@ == teile(v@, '.')[j],
            0 <= k <= segmente@.len(),
            forall|j: int| 0 <= j < k ==> ist_u32_text(#[trigger] teile(v@, '.')[j]),
        decreases segmente@.len() - k,
    {
        if !ist_u32(segmente[k].as_str()) {
            assert(!ist_u32_text(teile(v@, '.')[k as int]));
            return None;
        }
        k = k + 1;
    }
    Some(String::from_str(v))
}

/// The version of an uploaded firmware file: the one in its file name,
/// else the version that was current before the upload.
pub fn neue_firmware_version(dateiname: &str, aktuell: &str) -> (r: String)
    ensures
        version_im_dateinamen(dateiname@) matches Some(v) ==> r@ == v,
        version_im_dateinamen(dateiname@) is None ==> r@ == aktuell@,
{
    match version_aus_dateiname(dateiname) {
        Some(v) => v,
        None => String::from_str(aktuell),
    }
}

/// Whether a field of a multipart upload is the firmware: its name is
/// `firmware` (a field without a name counts as the empty name).
pub fn ist_firmware_feld(name: Option<&str>) -> (r: bool)
    ensures
        r == (name matches Some(n) && n@ == "firmware"@),
{
    match name {
        Some(n) => String::from_str(n) == String::from_str("firmware"),
        None => false,
    }
}

/// The file name of an uploaded firmware: the given one, or `firmware.bin`.
pub fn upload_dateiname(dateiname: Option<&str>) -> (r: String)
    ensures
        dateiname matches Some(d) ==> r@ == d@,
        dateiname is None ==> r@ == "firmware.bin"@,
{
    match dateiname {
        Some(d) => String::from_str(d),
        None => String::from_str("firmware.bin"),
    }
}

/// The firmware version the server starts with: the content of
/// `firmware/version.txt` if it could be read, else the setting
/// `FIRMWARE_VERSION` if there is one, else `1.0.0`.
pub fn firmware_version_beim_start(datei: Option<String>, umgebung: Option<String>) -> (r: String)
    ensures
        datei matches Some(d) ==> r@ == d@,
        datei is None ==> (umgebung matches Some(u) ==> r@ == u@),
        datei is None && umgebung is None ==> r@ == "1.0.0"@,
{
    match datei {
        Some(d) => d,
        None => match umgebung {
            Some(u) => u,
            None => String::from_str("1.0.0"),
        },
    }
}

/// The last character of a version text is a digit.
proof fn lemma_versionstext_endet_mit_ziffer(v: Seq<char>)
    requires
        ist_versionstext(v),
    ensures
        v.len() > 0,
        ist_ziffer(v.last()),
{
    lemma_teile_nicht_leer(v, '.');
    lemma_teile_letztes(v, '.');
    let stuecke = teile(v, '.');
    let l = stuecke.last();
    assert(ist_u32_text(stuecke[stuecke.len() - 1]));
    let d = ohne_plus(l);
    assert(ist_ziffer(d[d.len() - 1]));
    assert(d.last() == l.last());
    assert(v[v.len() - 1] == v.subrange(v.len() - l.len(), v.len() as int)[l.len() - 1]);
}

/// The version a file name announces is read back: for a name made of a
/// prefix without `_`, an `_`, a version text and `.bin`, the version is the
/// version text.
pub proof fn gesetz_version_zuruecklesen(praefix: Seq<char>, version: Seq<char>)
    requires
        forall|i: int| 0 <= i < praefix.len() ==> #[trigger] praefix[i] != '_',
        ist_versionstext(version),
    ensures
        version_im_dateinamen(praefix + seq!['_'] + version + bin_endung()) == Some(version),
{
    let w = praefix + seq!['_'] + version;
    let d = w + bin_endung();
    assert(d.subrange(d.len() - 4, d.len() as int) =~= bin_endung());
    assert(d.subrange(0, d.len() - 4) =~= w);
    lemma_versionstext_endet_mit_ziffer(version);
    assert(w.last() == version.last());
    if endet_mit(w, bin_endung()) {
        assert(w.subrange(w.len() - 4, w.len() as int)[3] == w.last());
    }
    assert(ohne_bin(w) == w);
    assert(ohne_bin(d) == w);
    assert forall|j: int| 0 <= j < praefix.len() implies #[trigger] w[j] != '_' by {
        assert(w[j] == praefix[j]);
    }
    lemma_nach_erstem(w, '_', praefix.len() as int);
    assert(w.subrange(praefix.len() as int + 1, w.len() as int) =~= version);
}

/// Removing trailing `.bin` never reaches back past an `_`.
proof fn lemma_ohne_bin_hinter_unterstrich(a: Seq<char>, r: Seq<char>)
    requires
        a.len() > 0,
        a.last() == '_',
    ensures
        ohne_bin(a + r) == a + ohne_bin(r),
    decreases r.len(),
{
    let w = a + r;
    if endet_mit(w, bin_endung()) {
        if r.len() < 4 {
            let k = w.len() - 1 - r.len();
            assert(w[k] == '_');
            assert(w.subrange(w.len() - 4, w.len() as int)[k - (w.len() - 4)] == w[k]);
            assert(false);
        }
        assert(r.subrange(r.len() - 4, r.len() as int) =~= w.subrange(w.len() - 4, w.len() as int));
        assert(w.subrange(0, w.len() - 4) =~= a + r.subrange(0, r.len() - 4));
        lemma_ohne_bin_hinter_unterstrich(a, r.subrange(0, r.len() - 4));
    } else {
        if endet_mit(r, bin_endung()) {
            assert(r.subrange(r.len() - 4, r.len() as int) =~= w.subrange(w.len() - 4, w.len() as int));
        }
        assert(ohne_bin(r) == r);
    }
}

/// The version a file name `<prefix>_<rest>` announces, for a prefix
/// without `_`: the rest without its trailing `.bin`, if that is a version
/// text.
proof fn lemma_version_nach_praefix(praefix: Seq<char>, rest: Seq<char>)
    requires
        forall|i: int| 0 <= i < praefix.len() ==> #[trigger] praefix[i] != '_',
    ensures
        version_im_dateinamen(praefix + seq!['_'] + rest) == (if ist_versionstext(ohne_bin(rest)) {
            Some(ohne_bin(rest))
        } else {
            None
        }),
{
    let a = praefix + seq!['_'];
    assert(praefix + seq!['_'] + rest =~= a + rest);
    lemma_ohne_bin_hinter_unterstrich(a, rest);
    let w = a + ohne_bin(rest);
    assert forall|j: int| 0 <= j < praefix.len() implies #[trigger] w[j] != '_' by {
        assert(w[j] == praefix[j]);
    }
    lemma_nach_erstem(w, '_', praefix.len() as int);
    assert(w.subrange(praefix.len() as int + 1, w.len() as int) =~= ohne_bin(rest));
}

/// The text before the first `_` of a firmware file name never changes the
/// version it announces: any two prefixes without `_` give the same version
/// for the same rest.
pub proof fn gesetz_version_unabhaengig_vom_praefix(p: Seq<char>, q: Seq<char>, rest: Seq<char>)
    requires
        forall|i: int| 0 <= i < p.len() ==> #[trigger] p[i] != '_',
        forall|i: int| 0 <= i < q.len() ==> #[trigger] q[i] != '_',
    ensures
        version_im_dateinamen(p + seq!['_'] + rest) == version_im_dateinamen(q + seq!['_'] + rest),
{
    lemma_version_nach_praefix(p, rest);
    lemma_version_nach_praefix(q, rest);
}

} // verus!
