//! Text helpers with exact specifications: whitespace trimming, splitting at a
//! separator, decimal rendering of integers and recognising `u32` numerals.

use vstd::prelude::*;
use vstd::string::*;

verus! {

/// Unicode `White_Space` property, as `char::is_whitespace` documents it.
pub open spec fn ist_leerraum(c: char) -> bool {
    ||| ('\u{9}' <= c && c <= '\u{d}')
    ||| c == ' '
    ||| c == '\u{85}'
    ||| c == '\u{a0}'
    ||| c == '\u{1680}'
    ||| ('\u{2000}' <= c && c <= '\u{200a}')
    ||| c == '\u{2028}'
    ||| c == '\u{2029}'
    ||| c == '\u{202f}'
    ||| c == '\u{205f}'
    ||| c == '\u{3000}'
}

/// `s` without its leading whitespace.
pub open spec fn ohne_fuehrende(s: Seq<char>) -> Seq<char>
    decreases s.len(),
{
    if s.len() > 0 && ist_leerraum(s[0]) {
        ohne_fuehrende(s.drop_first())
    } else {
        s
    }
}

/// `s` without its trailing whitespace.
pub open spec fn ohne_folgende(s: Seq<char>) -> Seq<char>
    decreases s.len(),
{
    if s.len() > 0 && ist_leerraum(s.last()) {
        ohne_folgende(s.drop_last())
    } else {
        s
    }
}

/// What `str::trim` gives back.
pub open spec fn getrimmt(s: Seq<char>) -> Seq<char> {
    ohne_folgende(ohne_fuehrende(s))
}

/// Whether `c` is whitespace, as `char::is_whitespace` tells.
pub fn ist_leerraum_exec(c: char) -> (r: bool)
    ensures
        r == ist_leerraum(c),
{
    ('\u{9}' <= c && c <= '\u{d}') || c == ' ' || c == '\u{85}' || c == '\u{a0}' || c == '\u{1680}'
        || ('\u{2000}' <= c && c <= '\u{200a}') || c == '\u{2028}' || c == '\u{2029}' || c
        == '\u{202f}' || c == '\u{205f}' || c == '\u{3000}'
}

proof fn lemma_ohne_fuehrende(s: Seq<char>, a: int)
    requires
        0 <= a <= s.len(),
        forall|i: int| 0 <= i < a ==> ist_leerraum(#[trigger] s[i]),
        a == s.len() || !ist_leerraum(s[a]),
    ensures
        ohne_fuehrende(s) == s.subrange(a, s.len() as int),
    decreases a,
{
    if a > 0 {
        assert forall|i: int| 0 <= i < a - 1 implies ist_leerraum(#[trigger] s.drop_first()[i]) by {
            assert(s.drop_first()[i] == s[i + 1]);
        }
        lemma_ohne_fuehrende(s.drop_first(), a - 1);
        assert(s.drop_first().subrange(a - 1, s.len() - 1) =~= s.subrange(a, s.len() as int));
    } else {
        assert(s.subrange(0, s.len() as int) =~= s);
    }
}

proof fn lemma_ohne_folgende(s: Seq<char>, b: int)
    requires
        0 <= b <= s.len(),
        forall|i: int| b <= i < s.len() ==> ist_leerraum(#[trigger] s[i]),
        b == 0 || !ist_leerraum(s[b - 1]),
    ensures
        ohne_folgende(s) == s.subrange(0, b),
    decreases s.len() - b,
{
    if b < s.len() {
        assert forall|i: int| b <= i < s.len() - 1 implies ist_leerraum(#[trigger] s.drop_last()[i]) by {
            assert(s.drop_last()[i] == s[i]);
        }
        lemma_ohne_folgende(s.drop_last(), b);
        assert(s.drop_last().subrange(0, b) =~= s.subrange(0, b));
    } else {
        assert(s.subrange(0, b) =~= s);
    }
}

/// `str::trim`: drops leading and trailing whitespace.
pub fn trimmen(s: &str) -> (r: &str)
    ensures
        r@ == getrimmt(s@),
{
    let n = s.unicode_len();
    let mut a: usize = 0;
    while a < n && ist_leerraum_exec(s.get_char(a))
        invariant
            n == s@.len(),
            0 <= a <= n,
            forall|i: int| 0 <= i < a ==> ist_leerraum(#[trigger] s@[i]),
        decreases n - a,
    {
        a = a + 1;
    }
    let mut b: usize = n;
    while b > a && ist_leerraum_exec(s.get_char(b - 1))
        invariant
            n == s@.len(),
            0 <= a <= b <= n,
            forall|i: int| b <= i < n ==> ist_leerraum(#[trigger] s@[i]),
        decreases b - a,
    {
        b = b - 1;
    }
    proof {
        lemma_ohne_fuehrende(s@, a as int);
        let t = s@.subrange(a as int, n as int);
        assert forall|i: int| b - a <= i < t.len() implies ist_leerraum(#[trigger] t[i]) by {
            assert(t[i] == s@[a + i]);
        }
        if b > a {
            assert(t[b - a - 1] == s@[b - 1]);
        }
        lemma_ohne_folgende(t, b - a);
        assert(t.subrange(0, b - a) =~= s@.subrange(a as int, b as int));
    }
    s.substring_char(a, b)
}


/// The pieces of `s` between the occurrences of `t`, as `str::split` with a
/// `char` pattern yields them: one more piece than `t` occurs in `s`.
pub open spec fn teile(s: Seq<char>, t: char) -> Seq<Seq<char>>
    decreases s.len(),
{
    if s.len() == 0 {
        seq![Seq::<char>::empty()]
    } else {
        let vorher = teile(s.drop_last(), t);
        if s.last() == t {
            vorher.push(Seq::<char>::empty())
        } else {
            vorher.update(vorher.len() - 1, vorher.last().push(s.last()))
        }
    }
}

/// Splitting always gives at least one piece.
pub proof fn lemma_teile_nicht_leer(s: Seq<char>, t: char)
    ensures
        teile(s, t).len() >= 1,
    decreases s.len(),
{
    if s.len() > 0 {
        lemma_teile_nicht_leer(s.drop_last(), t);
    }
}

/// `str::split` with a `char` pattern, each piece as an owned `String`.
pub fn aufteilen(s: &str, t: char) -> (r: Vec<String>)
    ensures
        r@.len() == teile(s@, t).len(),
        forall|i: int| 0 <= i < r@.len() ==> #[trigger] r@[i]@ == teile(s@, t)[i],
{
    let n = s.unicode_len();
    let mut r: Vec<String> = Vec::new();
    let mut start: usize = 0;
    let mut i: usize = 0;
    while i < n
        invariant
            n == s@.len(),
            0 <= start <= i <= n,
            r@.len() + 1 == teile(s@.take(i as int), t).len(),
            forall|k: int| 0 <= k < r@.len() ==> #[trigger] r@[k]@ == teile(s@.take(i as int), t)[k],
            teile(s@.take(i as int), t).last() == s@.subrange(start as int, i as int),
        decreases n - i,
    {
        let c = s.get_char(i);
        proof {
            lemma_teile_nicht_leer(s@.take(i as int), t);
            assert(s@.take(i + 1).drop_last() =~= s@.take(i as int));
            assert(s@.take(i + 1).last() == c);
        }
        if c == t {
            let stueck = s.substring_char(start, i);
            r.push(String::from_str(stueck));
            start = i + 1;
            proof {
                assert(s@.subrange(start as int, i + 1) =~= Seq::<char>::empty());
            }
        } else {
            proof {
                assert(s@.subrange(start as int, i as int).push(c) =~= s@.subrange(start as int, i + 1));
            }
        }
        i = i + 1;
    }
    let stueck = s.substring_char(start, n);
    r.push(String::from_str(stueck));
    proof {
        assert(s@.take(n as int) =~= s@);
    }
    r
}


/// The decimal digit for `d` in `0..10`.
pub open spec fn ziffer(d: int) -> char {
    if d == 0 { '0' }
    else if d == 1 { '1' }
    else if d == 2 { '2' }
    else if d == 3 { '3' }
    else if d == 4 { '4' }
    else if d == 5 { '5' }
    else if d == 6 { '6' }
    else if d == 7 { '7' }
    else if d == 8 { '8' }
    else { '9' }
}

/// Decimal digits of `n`, most significant first, without leading zeros.
pub open spec fn ziffern(n: nat) -> Seq<char>
    decreases n,
{
    if n < 10 {
        seq![ziffer(n as int)]
    } else {
        ziffern(n / 10).push(ziffer((n % 10) as int))
    }
}

/// What `Display` writes for an integer: a minus sign for negative values,
/// then the decimal digits of the magnitude.
pub open spec fn dezimal_text(n: int) -> Seq<char> {
    if n < 0 {
        seq!['-'] + ziffern((-n) as nat)
    } else {
        ziffern(n as nat)
    }
}

fn ziffer_text(d: u64) -> (r: &'static str)
    requires
        d < 10,
    ensures
        r@ == seq![ziffer(d as int)],
{
    if d == 0 {
        proof { reveal_strlit("0"); }
        "0"
    } else if d == 1 {
        proof { reveal_strlit("1"); }
        "1"
    } else if d == 2 {
        proof { reveal_strlit("2"); }
        "2"
    } else if d == 3 {
        proof { reveal_strlit("3"); }
        "3"
    } else if d == 4 {
        proof { reveal_strlit("4"); }
        "4"
    } else if d == 5 {
        proof { reveal_strlit("5"); }
        "5"
    } else if d == 6 {
        proof { reveal_strlit("6"); }
        "6"
    } else if d == 7 {
        proof { reveal_strlit("7"); }
        "7"
    } else if d == 8 {
        proof { reveal_strlit("8"); }
        "8"
    } else {
        proof { reveal_strlit("9"); }
        "9"
    }
}

fn ziffern_exec(n: u64) -> (r: String)
    ensures
        r@ == ziffern(n as nat),
    decreases n,
{
    if n < 10 {
        String::from_str(ziffer_text(n))
    } else {
        let mut r = ziffern_exec(n / 10);
        r.append(ziffer_text(n % 10));
        r
    }
}

/// Decimal text of an `i64`, as `format!("{}", n)` writes it.
pub fn dezimal(n: i64) -> (r: String)
    ensures
        r@ == dezimal_text(n as int),
{
    if n < 0 {
        let betrag: u64 = if n == i64::MIN {
            9223372036854775808u64
        } else {
            (-n) as u64
        };
        let mut r = String::from_str("-");
        proof { reveal_strlit("-"); }
        r.append(ziffern_exec(betrag).as_str());
        r
    } else {
        ziffern_exec(n as u64)
    }
}

/// An ASCII decimal digit.
pub open spec fn ist_ziffer(c: char) -> bool {
    '0' <= c && c <= '9'
}

/// The numeric value of a sequence of decimal digits.
pub open spec fn ziffernfolge_wert(s: Seq<char>) -> int
    decreases s.len(),
{
    if s.len() == 0 {
        0
    } else {
        ziffernfolge_wert(s.drop_last()) * 10 + (s.last() as int - '0' as int)
    }
}

/// `s` without one leading `+`.
pub open spec fn ohne_plus(s: Seq<char>) -> Seq<char> {
    if s.len() > 0 && s[0] == '+' {
        s.drop_first()
    } else {
        s
    }
}

/// The texts that `str::parse::<u32>` accepts: an optional `+`, then at least
/// one ASCII digit and nothing else, with a value that fits in a `u32`.
pub open spec fn ist_u32_text(s: Seq<char>) -> bool {
    let d = ohne_plus(s);
    &&& d.len() > 0
    &&& forall|i: int| 0 <= i < d.len() ==> ist_ziffer(#[trigger] d[i])
    &&& ziffernfolge_wert(d) <= u32::MAX
}

proof fn lemma_wert_monoton(s: Seq<char>, i: int, j: int)
    requires
        0 <= i <= j <= s.len(),
        forall|k: int| 0 <= k < s.len() ==> ist_ziffer(#[trigger] s[k]),
    ensures
        0 <= ziffernfolge_wert(s.take(i)) <= ziffernfolge_wert(s.take(j)),
    decreases j - i,
{
    if i == j {
        lemma_wert_nicht_negativ(s.take(i));
    } else {
        lemma_wert_monoton(s, i, j - 1);
        assert(s.take(j).drop_last() =~= s.take(j - 1));
        assert(s.take(j).last() == s[j - 1]);
        assert(ist_ziffer(s[j - 1]));
    }
}

proof fn lemma_wert_nicht_negativ(s: Seq<char>)
    requires
        forall|k: int| 0 <= k < s.len() ==> ist_ziffer(#[trigger] s[k]),
    ensures
        ziffernfolge_wert(s) >= 0,
    decreases s.len(),
{
    if s.len() > 0 {
        assert forall|k: int| 0 <= k < s.drop_last().len() implies ist_ziffer(#[trigger] s.drop_last()[k]) by {
            assert(s.drop_last()[k] == s[k]);
        }
        lemma_wert_nicht_negativ(s.drop_last());
        assert(ist_ziffer(s[s.len() - 1]));
    }
}

/// Whether `s.parse::<u32>()` succeeds.
pub fn ist_u32(s: &str) -> (r: bool)
    ensures
        r == ist_u32_text(s@),
{
    let n = s.unicode_len();
    let o: usize = if n > 0 && s.get_char(0) == '+' { 1 } else { 0 };
    let ghost d = ohne_plus(s@);
    proof {
        if o == 1 {
            assert(d =~= s@.subrange(1, n as int));
        } else {
            assert(d =~= s@.subrange(0, n as int));
        }
    }
    if o == n {
        return false;
    }
    let mut wert: u64 = 0;
    let mut i: usize = o;
    while i < n
        invariant
            n == s@.len(),
            o <= i <= n,
            d == s@.subrange(o as int, n as int),
            d == ohne_plus(s@),
            forall|k: int| 0 <= k < i - o ==> ist_ziffer(#[trigger] d[k]),
            wert == ziffernfolge_wert(d.take(i - o)),
            wert <= u32::MAX,
        decreases n - i,
    {
        let c = s.get_char(i);
        if !('0' <= c && c <= '9') {
            assert(d[i - o] == c);
            assert(!ist_ziffer(d[i - o]));
            return false;
        }
        proof {
            assert(d[i - o] == c);
            assert(d.take(i - o + 1).drop_last() =~= d.take(i - o));
            assert(d.take(i - o + 1).last() == c);
        }
        let neu: u64 = wert * 10 + ((c as u32) - ('0' as u32)) as u64;
        assert(neu == ziffernfolge_wert(d.take(i - o + 1)));
        if neu > 4294967295u64 {
            proof {
                if forall|k: int| 0 <= k < d.len() ==> ist_ziffer(#[trigger] d[k]) {
                    lemma_wert_monoton(d, i - o + 1, d.len() as int);
                    assert(d.take(d.len() as int) =~= d);
                }
            }
            return false;
        }
        wert = neu;
        i = i + 1;
    }
    proof {
        assert(d.take(n - o) =~= d);
    }
    true
}

/// Without `t` in `s`, splitting gives `s` alone.
pub proof fn lemma_teile_ohne_trenner(s: Seq<char>, t: char)
    requires
        forall|i: int| 0 <= i < s.len() ==> #[trigger] s[i] != t,
    ensures
        teile(s, t) == seq![s],
    decreases s.len(),
{
    if s.len() > 0 {
        assert forall|i: int| 0 <= i < s.drop_last().len() implies #[trigger] s.drop_last()[i] != t by {
            assert(s.drop_last()[i] == s[i]);
        }
        lemma_teile_ohne_trenner(s.drop_last(), t);
        assert(s.drop_last().push(s.last()) =~= s);
        assert(teile(s, t) =~= seq![s]);
    } else {
        assert(s =~= Seq::<char>::empty());
    }
}

/// With `t` in `s`, splitting gives at least two pieces.
pub proof fn lemma_teile_mit_trenner(s: Seq<char>, t: char, j: int)
    requires
        0 <= j < s.len(),
        s[j] == t,
    ensures
        teile(s, t).len() >= 2,
    decreases s.len(),
{
    lemma_teile_nicht_leer(s.drop_last(), t);
    if j < s.len() - 1 {
        assert(s.drop_last()[j] == t);
        lemma_teile_mit_trenner(s.drop_last(), t, j);
    }
}

/// The first piece of a split is everything before the first `t`.
pub proof fn lemma_teile_erstes(s: Seq<char>, t: char, k: int)
    requires
        0 <= k <= s.len(),
        forall|i: int| 0 <= i < k ==> #[trigger] s[i] != t,
        k == s.len() || s[k] == t,
    ensures
        teile(s, t)[0] == s.take(k),
    decreases s.len(),
{
    if k == s.len() {
        lemma_teile_ohne_trenner(s, t);
        assert(s.take(k) =~= s);
    } else {
        let s2 = s.drop_last();
        lemma_teile_nicht_leer(s2, t);
        assert forall|i: int| 0 <= i < k implies #[trigger] s2[i] != t by {
            assert(s2[i] == s[i]);
        }
        if k < s2.len() {
            assert(s2[k] == t);
            lemma_teile_mit_trenner(s2, t, k);
        }
        lemma_teile_erstes(s2, t, k);
        assert(s2.take(k) =~= s.take(k));
    }
}

/// A piece without `t` in front of `t` is the first piece, and the rest is
/// split as it would be alone.
pub proof fn lemma_teile_vorne(a: Seq<char>, b: Seq<char>, t: char)
    requires
        forall|i: int| 0 <= i < a.len() ==> #[trigger] a[i] != t,
    ensures
        teile(a + seq![t] + b, t) == seq![a] + teile(b, t),
    decreases b.len(),
{
    let s = a + seq![t] + b;
    if b.len() == 0 {
        lemma_teile_ohne_trenner(a, t);
        assert(s.drop_last() =~= a);
        assert(teile(s, t) =~= seq![a] + teile(b, t));
    } else {
        let b2 = b.drop_last();
        assert(s.drop_last() =~= a + seq![t] + b2);
        lemma_teile_vorne(a, b2, t);
        lemma_teile_nicht_leer(b2, t);
        assert(s.last() == b.last());
        assert(teile(s, t) =~= seq![a] + teile(b, t));
    }
}

/// The last piece of a split is a suffix of the text.
pub proof fn lemma_teile_letztes(s: Seq<char>, t: char)
    ensures
        teile(s, t).last().len() <= s.len(),
        s.subrange(s.len() - teile(s, t).last().len(), s.len() as int) == teile(s, t).last(),
    decreases s.len(),
{
    if s.len() == 0 {
        assert(s.subrange(0, 0) =~= Seq::<char>::empty());
    } else {
        let s2 = s.drop_last();
        lemma_teile_nicht_leer(s2, t);
        lemma_teile_letztes(s2, t);
        let l = teile(s, t).last();
        if s.last() == t {
            assert(s.subrange(s.len() as int, s.len() as int) =~= l);
        } else {
            let l2 = teile(s2, t).last();
            assert(l == l2.push(s.last()));
            assert(s.subrange(s.len() - l.len(), s.len() as int) =~= s2.subrange(s2.len() - l2.len(), s2.len() as int).push(s.last()));
        }
    }
}

proof fn lemma_ohne_fuehrende_eigenschaften(s: Seq<char>)
    ensures
        ohne_fuehrende(s).len() == 0 || !ist_leerraum(ohne_fuehrende(s)[0]),
    decreases s.len(),
{
    if s.len() > 0 && ist_leerraum(s[0]) {
        lemma_ohne_fuehrende_eigenschaften(s.drop_first());
    }
}

proof fn lemma_ohne_folgende_eigenschaften(s: Seq<char>)
    ensures
        ohne_folgende(s).len() <= s.len(),
        ohne_folgende(s) == s.take(ohne_folgende(s).len() as int),
        ohne_folgende(s).len() == 0 || !ist_leerraum(ohne_folgende(s).last()),
    decreases s.len(),
{
    if s.len() > 0 && ist_leerraum(s.last()) {
        lemma_ohne_folgende_eigenschaften(s.drop_last());
        let r = ohne_folgende(s.drop_last());
        assert(s.drop_last().take(r.len() as int) =~= s.take(r.len() as int));
    } else {
        assert(s.take(s.len() as int) =~= s);
    }
}

/// Trimming a trimmed text changes nothing.
pub proof fn gesetz_trimmen_idempotent(s: Seq<char>)
    ensures
        getrimmt(getrimmt(s)) == getrimmt(s),
{
    let a = ohne_fuehrende(s);
    let x = ohne_folgende(a);
    lemma_ohne_fuehrende_eigenschaften(s);
    lemma_ohne_folgende_eigenschaften(a);
    if x.len() > 0 {
        assert(x[0] == a[0]);
    }
    assert(ohne_fuehrende(x) == x);
    assert(ohne_folgende(x) == x);
}

proof fn lemma_ziffer_wert(d: int)
    requires
        0 <= d < 10,
    ensures
        ist_ziffer(ziffer(d)),
        ziffer(d) as int - '0' as int == d,
{
}

/// The decimal digits of `n` have the value `n`.
pub proof fn lemma_ziffern_wert(n: nat)
    ensures
        ziffern(n).len() > 0,
        forall|i: int| 0 <= i < ziffern(n).len() ==> ist_ziffer(#[trigger] ziffern(n)[i]),
        ziffernfolge_wert(ziffern(n)) == n,
    decreases n,
{
    if n < 10 {
        lemma_ziffer_wert(n as int);
        let z = ziffern(n);
        assert(z.drop_last() =~= Seq::<char>::empty());
        assert(ziffernfolge_wert(z.drop_last()) == 0);
        assert(z.last() == ziffer(n as int));
    } else {
        lemma_ziffern_wert(n / 10);
        lemma_ziffer_wert((n % 10) as int);
        let z = ziffern(n);
        assert(z.drop_last() =~= ziffern(n / 10));
        assert(z.last() == ziffer((n % 10) as int));
        assert((n / 10) * 10 + n % 10 == n);
        assert(ziffernfolge_wert(z) == ziffernfolge_wert(z.drop_last()) * 10 + (z.last() as int - '0' as int));
        assert forall|i: int| 0 <= i < z.len() implies ist_ziffer(#[trigger] z[i]) by {
            if i < z.len() - 1 {
                assert(z[i] == ziffern(n / 10)[i]);
            }
        }
    }
}

/// The decimal text of a number that fits in a `u32` is read back as that
/// number by `str::parse::<u32>`.
pub proof fn gesetz_dezimal_ist_u32_text(n: int)
    requires
        0 <= n <= u32::MAX,
    ensures
        ist_u32_text(dezimal_text(n)),
        ziffernfolge_wert(ohne_plus(dezimal_text(n))) == n,
{
    lemma_ziffern_wert(n as nat);
    lemma_ziffer_wert(0);
    assert(ohne_plus(dezimal_text(n)) == ziffern(n as nat)) by {
        let z = ziffern(n as nat);
        assert(ist_ziffer(z[0]));
    }
}

} // verus!
