//! Alarm rules: which alarms a new measurement raises, when a sensor counts
//! as offline, and the texts of the notifications.

use vstd::prelude::*;
use vstd::string::*;
use crate::text::{dezimal, dezimal_text};
use crate::zeit::{utc_jetzt, Zeitpunkt};

verus! {

/// The integer part of the alarm settings of a sensor: the lowest battery
/// level in percent, the minutes without data after which the sensor counts as
/// offline, and whether the alarm was acknowledged (`1`).
#[derive(Clone, Copy)]
pub struct AlarmGrenzen {
    pub id: i64,
    pub sensor_id: i64,
    pub akku_min: i64,
    pub offline_minuten: i64,
    pub alarm_quittiert: i64,
}

/// A notification, as it is stored in the alarm history and sent to ntfy.
pub struct Alarm {
    pub sensor_id: i64,
    pub typ: String,
    pub titel: String,
    pub nachricht: String,
}

/// Which alarms a new measurement raises.
pub struct AlarmBefund {
    pub temperatur: bool,
    pub akku: bool,
}

/// Whether the alarms of a sensor are silenced: no settings, or acknowledged.
pub open spec fn stumm(grenzen: Option<AlarmGrenzen>) -> bool {
    match grenzen {
        None => true,
        Some(g) => g.alarm_quittiert == 1,
    }
}

/// The alarms that a measurement raises. Without settings, or when the alarm
/// is acknowledged, none; otherwise a temperature alarm when the temperature
/// is above its limit (compared by the caller) and a battery alarm when the
/// battery level is below `akku_min`.
pub fn alarme_pruefen(grenzen: &Option<AlarmGrenzen>, temperatur_ueber_grenze: bool, akku_prozent: i64) -> (r: AlarmBefund)
    ensures
        stumm(*grenzen) ==> !r.temperatur && !r.akku,
        grenzen matches Some(g) ==> (g.alarm_quittiert != 1 ==> (r.temperatur == temperatur_ueber_grenze
            && r.akku == (akku_prozent < g.akku_min))),
{
    match grenzen {
        None => AlarmBefund { temperatur: false, akku: false },
        Some(g) => {
            if g.alarm_quittiert == 1 {
                AlarmBefund { temperatur: false, akku: false }
            } else {
                AlarmBefund { temperatur: temperatur_ueber_grenze, akku: akku_prozent < g.akku_min }
            }
        },
    }
}

/// Whether alarms of a sensor with these settings are raised at all.
pub fn alarme_aktiv(grenzen: &Option<AlarmGrenzen>) -> (r: bool)
    ensures
        r == !stumm(*grenzen),
{
    match grenzen {
        None => false,
        Some(g) => g.alarm_quittiert != 1,
    }
}

/// The title of a temperature alarm.
pub open spec fn temperatur_titel(name: Seq<char>) -> Seq<char> {
    "🚨 TEMPERATUR-ALARM: "@ + name
}

/// The title of a battery alarm.
pub open spec fn akku_titel(name: Seq<char>) -> Seq<char> {
    "🔋 AKKU-WARNUNG: "@ + name
}

/// The text of a battery alarm.
pub open spec fn akku_nachricht(akku: int, minimum: int) -> Seq<char> {
    "Akkustand "@ + dezimal_text(akku) + "% unter Minimum "@ + dezimal_text(minimum) + "%!"@
}

/// The title of an offline alarm.
pub open spec fn offline_titel(name: Seq<char>) -> Seq<char> {
    "📡 OFFLINE-ALARM: "@ + name
}

/// The text of an offline alarm.
pub open spec fn offline_nachricht(name: Seq<char>, minuten: int) -> Seq<char> {
    name + " hat seit "@ + dezimal_text(minuten) + " Minuten keine Daten gesendet!"@
}

/// The temperature alarm of sensor `sensor_id` named `name`, with the text
/// that the caller wrote with the two temperatures.
pub fn temperatur_alarm(sensor_id: i64, name: &str, nachricht: String) -> (r: Alarm)
    ensures
        r.sensor_id == sensor_id,
        r.typ@ == "temperatur"@,
        r.titel@ == temperatur_titel(name@),
        r.nachricht@ == nachricht@,
{
    let mut titel = String::from_str("🚨 TEMPERATUR-ALARM: ");
    titel.append(name);
    Alarm { sensor_id, typ: String::from_str("temperatur"), titel, nachricht }
}

/// The battery alarm of sensor `sensor_id` named `name`.
pub fn akku_alarm(sensor_id: i64, name: &str, akku_prozent: i64, akku_min: i64) -> (r: Alarm)
    ensures
        r.sensor_id == sensor_id,
        r.typ@ == "akku"@,
        r.titel@ == akku_titel(name@),
        r.nachricht@ == akku_nachricht(akku_prozent as int, akku_min as int),
{
    let mut titel = String::from_str("🔋 AKKU-WARNUNG: ");
    titel.append(name);
    let mut nachricht = String::from_str("Akkustand ");
    nachricht.append(dezimal(akku_prozent).as_str());
    nachricht.append("% unter Minimum ");
    nachricht.append(dezimal(akku_min).as_str());
    nachricht.append("%!");
    Alarm { sensor_id, typ: String::from_str("akku"), titel, nachricht }
}

/// The offline alarm for a sensor named `name` whose last measurement is
/// `alter_minuten` old, if that is more than `offline_minuten`.
pub fn offline_alarm(sensor_id: i64, name: &str, offline_minuten: i64, alter_minuten: i64) -> (r: Option<Alarm>)
    ensures
        r is Some == (alter_minuten > offline_minuten),
        r matches Some(a) ==> a.sensor_id == sensor_id && a.typ@ == "offline"@ && a.titel@ == offline_titel(name@)
            && a.nachricht@ == offline_nachricht(name@, alter_minuten as int),
{
    if alter_minuten > offline_minuten {
        let mut titel = String::from_str("📡 OFFLINE-ALARM: ");
        titel.append(name);
        let mut nachricht = String::from_str(name);
        nachricht.append(" hat seit ");
        nachricht.append(dezimal(alter_minuten).as_str());
        nachricht.append(" Minuten keine Daten gesendet!");
        Some(Alarm { sensor_id, typ: String::from_str("offline"), titel, nachricht })
    } else {
        None
    }
}

/// The alarms of a new measurement, in the order in which they are stored
/// and sent: first the temperature alarm, with the text that the caller wrote
/// with the two temperatures, then the battery alarm.
pub fn pruefe_alarm(
    sensor_id: i64,
    grenzen: &Option<AlarmGrenzen>,
    temperatur_ueber_grenze: bool,
    temperatur_nachricht: String,
    akku_prozent: i64,
    name: &str,
) -> (r: Vec<Alarm>)
    ensures
        stumm(*grenzen) ==> r@.len() == 0,
        grenzen matches Some(g) ==> (g.alarm_quittiert != 1 ==> {
            let akku = akku_prozent < g.akku_min;
            &&& r@.len() == (if temperatur_ueber_grenze { 1int } else { 0int }) + (if akku { 1int } else { 0int })
            &&& temperatur_ueber_grenze ==> r@[0].typ@ == "temperatur"@ && r@[0].titel@ == temperatur_titel(name@)
                && r@[0].nachricht@ == temperatur_nachricht@
            &&& akku ==> r@.last().typ@ == "akku"@ && r@.last().titel@ == akku_titel(name@)
                && r@.last().nachricht@ == akku_nachricht(akku_prozent as int, g.akku_min as int)
            &&& forall|i: int| 0 <= i < r@.len() ==> #[trigger] r@[i].sensor_id == sensor_id
        }),
{
    let befund = alarme_pruefen(grenzen, temperatur_ueber_grenze, akku_prozent);
    let mut r: Vec<Alarm> = Vec::new();
    if befund.temperatur {
        r.push(temperatur_alarm(sensor_id, name, temperatur_nachricht));
    }
    if befund.akku {
        match grenzen {
            Some(g) => r.push(akku_alarm(sensor_id, name, akku_prozent, g.akku_min)),
            None => {},
        }
    }
    r
}

/// The name of a sensor as the database gives it, or `Sensor <id>`.
pub open spec fn sensorname(name: Option<Seq<char>>, id: int) -> Seq<char> {
    match name {
        Some(n) => n,
        None => "Sensor "@ + dezimal_text(id),
    }
}

/// The name of a sensor for notifications: the stored one, or `Sensor <id>`.
pub fn sensorname_oder_standard(name: Option<String>, sensor_id: i64) -> (r: String)
    ensures
        r@ == sensorname(
            match name {
                Some(n) => Some(n@),
                None => None,
            },
            sensor_id as int,
        ),
{
    match name {
        Some(n) => n,
        None => {
            let mut r = String::from_str("Sensor ");
            r.append(dezimal(sensor_id).as_str());
            r
        },
    }
}

/// The ntfy address of channel `kanal`.
pub fn ntfy_url(kanal: &str) -> (r: String)
    ensures
        r@ == "https://ntfy.sh/"@ + kanal@,
{
    let mut r = String::from_str("https://ntfy.sh/");
    r.append(kanal);
    r
}

/// The layout of the time stamps in the database.
pub const ZEIT_FORMAT: &'static str = "%Y-%m-%d %H:%M:%S";

/// The name of whether `chrono::NaiveDateTime::parse_from_str` accepts `s`
/// in the layout `format`.
pub uninterp spec fn naive_gueltig(s: Seq<char>, format: Seq<char>) -> bool;

/// The name of the whole minutes from the time stamp `s` (read in the
/// layout `format`) to the moment `sekunden`/`nanos` since 1970, as
/// `chrono` computes them; `None` where either cannot be read.
pub uninterp spec fn minuten_zwischen(sekunden: int, nanos: int, s: Seq<char>, format: Seq<char>) -> Option<int>;

/// Calls `chrono::DateTime::from_timestamp(sekunden, nanos)` and
/// `chrono::NaiveDateTime::parse_from_str(s, format)`, subtracts the second
/// from the first (as naive UTC times) and gives `TimeDelta::num_minutes` of
/// the difference: a function of the four arguments alone, named
/// `minuten_zwischen`. Where `parse_from_str` refuses `s`, which it does
/// exactly when `naive_gueltig` does not hold, there is no result.
#[verifier::external_body]
fn minuten_seit(sekunden: i64, nanos: u32, s: &str, format: &str) -> (r: Option<i64>)
    ensures
        r matches Some(m) ==> minuten_zwischen(sekunden as int, nanos as int, s@, format@) == Some(m as int),
        r is None ==> minuten_zwischen(sekunden as int, nanos as int, s@, format@) is None,
        !naive_gueltig(s@, format@) ==> r is None,
{
    let jetzt = chrono::DateTime::from_timestamp(sekunden, nanos)?.naive_utc();
    let ts = chrono::NaiveDateTime::parse_from_str(s, format).ok()?;
    Some((jetzt - ts).num_minutes())
}

/// The age in minutes of the time stamp `s` at the moment `jetzt`, or `0`
/// where it cannot be computed.
pub open spec fn alter_bei(jetzt: Zeitpunkt, s: Seq<char>) -> int {
    match minuten_zwischen(jetzt.sekunden as int, jetzt.nanos as int, s, ZEIT_FORMAT@) {
        Some(m) => m,
        None => 0,
    }
}

/// The age in minutes of a time stamp in `ZEIT_FORMAT` at the moment
/// `jetzt`; `0` for a time stamp that does not fit the layout.
pub fn alter_minuten_bei(jetzt: &Zeitpunkt, zeitstempel: &str) -> (r: i64)
    ensures
        r == alter_bei(*jetzt, zeitstempel@),
        !naive_gueltig(zeitstempel@, ZEIT_FORMAT@) ==> r == 0,
{
    match minuten_seit(jetzt.sekunden, jetzt.nanos, zeitstempel, ZEIT_FORMAT) {
        Some(m) => m,
        None => 0,
    }
}

/// The age in minutes of a time stamp in `ZEIT_FORMAT`, at the moment the
/// clock is read; `0` for a time stamp that does not fit the layout.
pub fn berechne_alter_minuten(zeitstempel: &str) -> (r: i64)
    ensures
        !naive_gueltig(zeitstempel@, ZEIT_FORMAT@) ==> r == 0,
        exists|jetzt: Zeitpunkt| #[trigger] alter_bei(jetzt, zeitstempel@) == r,
{
    let jetzt = utc_jetzt();
    alter_minuten_bei(&jetzt, zeitstempel)
}

/// Whether `r` is the outcome of the offline check of sensor `sensor_id`
/// named `name` whose last measurement is `alter` minutes old: an offline
/// alarm exactly when that is more than `offline_minuten`.
pub open spec fn offline_ergebnis(r: Option<Alarm>, sensor_id: i64, offline_minuten: i64, name: Seq<char>, alter: int) -> bool {
    &&& r is Some == (alter > offline_minuten)
    &&& r matches Some(a) ==> a.sensor_id == sensor_id && a.typ@ == "offline"@ && a.titel@ == offline_titel(name)
        && a.nachricht@ == offline_nachricht(name, alter)
}

/// The offline check of one sensor at the moment `jetzt`, given the time
/// stamp of its last measurement, if the database has one, and its name. An
/// acknowledged alarm, a sensor without measurements and a measurement without
/// time stamp give no alarm; otherwise the age of the time stamp at `jetzt` is
/// compared with `offline_minuten`.
pub fn offline_pruefen_bei(
    grenzen: &AlarmGrenzen,
    letzter_zeitstempel: Option<Option<String>>,
    name: &str,
    jetzt: &Zeitpunkt,
) -> (r: Option<Alarm>)
    ensures
        grenzen.alarm_quittiert == 1 ==> r is None,
        !(letzter_zeitstempel matches Some(Some(_))) ==> r is None,
        letzter_zeitstempel matches Some(Some(ts)) ==> (grenzen.alarm_quittiert != 1 ==> offline_ergebnis(
            r,
            grenzen.sensor_id,
            grenzen.offline_minuten,
            name@,
            alter_bei(*jetzt, ts@),
        )),
        letzter_zeitstempel matches Some(Some(ts)) ==> (grenzen.alarm_quittiert != 1 && !naive_gueltig(ts@, ZEIT_FORMAT@)
            ==> (r is Some == (0 > grenzen.offline_minuten))),
{
    if grenzen.alarm_quittiert == 1 {
        return None;
    }
    match letzter_zeitstempel {
        Some(Some(ts)) => {
            let alter = alter_minuten_bei(jetzt, ts.as_str());
            offline_alarm(grenzen.sensor_id, name, grenzen.offline_minuten, alter)
        },
        _ => None,
    }
}

/// The offline check of one sensor at the moment the clock is read: as
/// `offline_pruefen_bei` at that moment.
pub fn offline_pruefen(grenzen: &AlarmGrenzen, letzter_zeitstempel: Option<Option<String>>, name: &str) -> (r: Option<Alarm>)
    ensures
        grenzen.alarm_quittiert == 1 ==> r is None,
        !(letzter_zeitstempel matches Some(Some(_))) ==> r is None,
        letzter_zeitstempel matches Some(Some(ts)) ==> (grenzen.alarm_quittiert != 1 ==> exists|jetzt: Zeitpunkt|
            offline_ergebnis(r, grenzen.sensor_id, grenzen.offline_minuten, name@, #[trigger] alter_bei(jetzt, ts@))),
        letzter_zeitstempel matches Some(Some(ts)) ==> (grenzen.alarm_quittiert != 1 && !naive_gueltig(ts@, ZEIT_FORMAT@)
            ==> (r is Some == (0 > grenzen.offline_minuten))),
{
    let jetzt = utc_jetzt();
    let ghost letzter = letzter_zeitstempel;
    let r = offline_pruefen_bei(grenzen, letzter_zeitstempel, name, &jetzt);
    proof {
        match letzter {
            Some(Some(ts)) => {
                if grenzen.alarm_quittiert != 1 {
                    assert(offline_ergebnis(r, grenzen.sensor_id, grenzen.offline_minuten, name@, alter_bei(jetzt, ts@)));
                }
            },
            _ => {},
        }
    }
    r
}

} // verus!
