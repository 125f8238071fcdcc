//! The records of the service and the rules that create and change them.

use vstd::prelude::*;
use vstd::string::*;
use crate::alarm::AlarmGrenzen;
use crate::text::{dezimal, dezimal_text};

verus! {

/// A sensor.
pub struct Sensor {
    pub id: i64,
    pub name: String,
    pub standort: Option<String>,
    pub sleep_minuten: i64,
}

/// A sensor to be created.
pub struct NeuerSensor {
    pub name: String,
    pub standort: Option<String>,
}

/// A change of a sensor; a missing field is left as it is.
pub struct SensorUpdate {
    pub name: Option<String>,
    pub standort: Option<String>,
    pub sleep_minuten: Option<i64>,
}

/// An entry of the alarm history.
pub struct AlarmHistorie {
    pub id: i64,
    pub sensor_id: i64,
    pub alarm_typ: String,
    pub nachricht: String,
    pub zeitstempel: Option<String>,
}

/// The version and size in bytes of the stored firmware.
pub struct FirmwareInfo {
    pub version: String,
    pub groesse: u64,
}

/// The query of the measurement list: the number of days back, and a sensor.
pub struct MesswertFilter {
    pub tage: Option<i64>,
    pub sensor_id: Option<i64>,
}

/// The answer to a stored measurement: its id and how long the sensor sleeps.
pub struct MesswertAntwort {
    pub id: i64,
    pub sleep_minuten: i64,
}

/// A change of the integer alarm settings; a missing field is left as it is.
pub struct AlarmGrenzenUpdate {
    pub akku_min: Option<i64>,
    pub offline_minuten: Option<i64>,
    pub alarm_quittiert: Option<i64>,
}

/// The minutes a new sensor sleeps between measurements.
pub const STANDARD_SLEEP_MINUTEN: i64 = 120;

/// The days of measurements listed when the query names none.
pub const STANDARD_TAGE: i64 = 21;

/// The lowest battery level of new alarm settings, unless given.
pub const STANDARD_AKKU_MIN: i64 = 20;

/// The offline minutes of new alarm settings, unless given.
pub const STANDARD_OFFLINE_MINUTEN: i64 = 270;

/// A sensor as plain values.
pub struct SensorSicht {
    pub id: int,
    pub name: Seq<char>,
    pub standort: Option<Seq<char>>,
    pub sleep_minuten: int,
}

/// A change of a sensor as plain values.
pub struct SensorUpdateSicht {
    pub name: Option<Seq<char>>,
    pub standort: Option<Seq<char>>,
    pub sleep_minuten: Option<int>,
}

/// An optional text as plain values.
pub open spec fn text_sicht(o: Option<String>) -> Option<Seq<char>> {
    match o {
        Some(s) => Some(s@),
        None => None,
    }
}

impl View for Sensor {
    type V = SensorSicht;

    open spec fn view(&self) -> SensorSicht {
        SensorSicht {
            id: self.id as int,
            name: self.name@,
            standort: text_sicht(self.standort),
            sleep_minuten: self.sleep_minuten as int,
        }
    }
}

impl View for SensorUpdate {
    type V = SensorUpdateSicht;

    open spec fn view(&self) -> SensorUpdateSicht {
        SensorUpdateSicht {
            name: text_sicht(self.name),
            standort: text_sicht(self.standort),
            sleep_minuten: match self.sleep_minuten {
                Some(m) => Some(m as int),
                None => None,
            },
        }
    }
}

/// `o` if it holds a value, else `standard`.
pub open spec fn oder<T>(o: Option<T>, standard: T) -> T {
    match o {
        Some(v) => v,
        None => standard,
    }
}

/// Sensor `s` after the change `u`, with the id `id`.
pub open spec fn sensor_aktualisiert(u: SensorUpdateSicht, s: SensorSicht, id: int) -> SensorSicht {
    SensorSicht {
        id: id,
        name: oder(u.name, s.name),
        standort: match u.standort {
            Some(o) => Some(o),
            None => s.standort,
        },
        sleep_minuten: oder(u.sleep_minuten, s.sleep_minuten),
    }
}

/// The change that changes nothing.
pub open spec fn leeres_sensor_update() -> SensorUpdateSicht {
    SensorUpdateSicht { name: None, standort: None, sleep_minuten: None }
}

impl Sensor {
    /// The sensor that was created from `neu` under the id `id`.
    pub fn neu_angelegt(id: i64, neu: NeuerSensor) -> (r: Sensor)
        ensures
            r@ == (SensorSicht {
                id: id as int,
                name: neu.name@,
                standort: text_sicht(neu.standort),
                sleep_minuten: 120,
            }),
    {
        Sensor { id, name: neu.name, standort: neu.standort, sleep_minuten: STANDARD_SLEEP_MINUTEN }
    }

    /// The sensor that is created for a measurement of an unknown sensor:
    /// named `Sensor <id>`, without location.
    pub fn fuer_messwert(sensor_id: i64) -> (r: Sensor)
        ensures
            r@ == (SensorSicht {
                id: sensor_id as int,
                name: "Sensor "@ + dezimal_text(sensor_id as int),
                standort: None,
                sleep_minuten: 120,
            }),
    {
        let mut name = String::from_str("Sensor ");
        name.append(dezimal(sensor_id).as_str());
        Sensor { id: sensor_id, name, standort: None, sleep_minuten: STANDARD_SLEEP_MINUTEN }
    }
}

/// The sensor to create for a measurement: none where the sensor exists.
pub fn neuer_sensor_fuer_messwert(sensor_id: i64, existiert: bool) -> (r: Option<Sensor>)
    ensures
        r is Some == !existiert,
        r matches Some(s) ==> s@ == (SensorSicht {
            id: sensor_id as int,
            name: "Sensor "@ + dezimal_text(sensor_id as int),
            standort: None,
            sleep_minuten: 120,
        }),
{
    if existiert {
        None
    } else {
        Some(Sensor::fuer_messwert(sensor_id))
    }
}

impl SensorUpdate {
    /// Sensor `aktuell` after this change, under the id `id`: each field that
    /// the change holds replaces the current one.
    pub fn anwenden(self, id: i64, aktuell: Sensor) -> (r: Sensor)
        ensures
            r@ == sensor_aktualisiert(self@, aktuell@, id as int),
            r.id == id,
            self.name matches Some(n) ==> r.name@ == n@,
            self.name is None ==> r.name@ == aktuell.name@,
            self.standort matches Some(o) ==> r@.standort == Some(o@),
            self.standort is None ==> r@.standort == aktuell@.standort,
            self.sleep_minuten matches Some(m) ==> r.sleep_minuten == m,
            self.sleep_minuten is None ==> r.sleep_minuten == aktuell.sleep_minuten,
    {
        let name = match self.name {
            Some(n) => n,
            None => aktuell.name,
        };
        let standort = match self.standort {
            Some(o) => Some(o),
            None => aktuell.standort,
        };
        let sleep_minuten = match self.sleep_minuten {
            Some(m) => m,
            None => aktuell.sleep_minuten,
        };
        Sensor { id, name, standort, sleep_minuten }
    }
}

/// Applying the change that changes nothing leaves a sensor as it is.
pub proof fn gesetz_leeres_sensor_update(s: SensorSicht)
    ensures
        sensor_aktualisiert(leeres_sensor_update(), s, s.id) == s,
{
}

/// Each field that a change of a sensor holds replaces the stored one,
/// whatever it was; each field it leaves out keeps the stored value.
pub proof fn gesetz_sensor_update_setzt_felder(u: SensorUpdateSicht, s: SensorSicht, id: int)
    ensures
        u.name matches Some(n) ==> sensor_aktualisiert(u, s, id).name == n,
        u.name is None ==> sensor_aktualisiert(u, s, id).name == s.name,
        u.standort matches Some(o) ==> sensor_aktualisiert(u, s, id).standort == Some(o),
        u.standort is None ==> sensor_aktualisiert(u, s, id).standort == s.standort,
        u.sleep_minuten matches Some(m) ==> sensor_aktualisiert(u, s, id).sleep_minuten == m,
        u.sleep_minuten is None ==> sensor_aktualisiert(u, s, id).sleep_minuten == s.sleep_minuten,
        sensor_aktualisiert(u, s, id).id == id,
{
}

/// Applying a change twice is applying it once.
pub proof fn gesetz_sensor_update_idempotent(u: SensorUpdateSicht, s: SensorSicht, id: int)
    ensures
        sensor_aktualisiert(u, sensor_aktualisiert(u, s, id), id) == sensor_aktualisiert(u, s, id),
{
}

impl MesswertFilter {
    /// The number of days to list: the given one, or 21.
    pub fn tage_oder_standard(&self) -> (r: i64)
        ensures
            r == oder(self.tage, 21),
    {
        match self.tage {
            Some(t) => t,
            None => STANDARD_TAGE,
        }
    }
}

/// Alarm settings `g` of sensor `sensor_id` after the change `u`.
pub open spec fn grenzen_aktualisiert(u: AlarmGrenzenUpdate, g: AlarmGrenzen, sensor_id: i64) -> AlarmGrenzen {
    AlarmGrenzen {
        id: g.id,
        sensor_id: sensor_id,
        akku_min: oder(u.akku_min, g.akku_min),
        offline_minuten: oder(u.offline_minuten, g.offline_minuten),
        alarm_quittiert: oder(u.alarm_quittiert, g.alarm_quittiert),
    }
}

/// The change of alarm settings that changes nothing.
pub open spec fn leeres_grenzen_update() -> AlarmGrenzenUpdate {
    AlarmGrenzenUpdate { akku_min: None, offline_minuten: None, alarm_quittiert: None }
}

impl AlarmGrenzenUpdate {
    /// Alarm settings `aktuell` of sensor `sensor_id` after this change: each
    /// field that the change holds replaces the current one.
    pub fn anwenden(&self, sensor_id: i64, aktuell: &AlarmGrenzen) -> (r: AlarmGrenzen)
        ensures
            r == grenzen_aktualisiert(*self, *aktuell, sensor_id),
            r.id == aktuell.id,
            r.sensor_id == sensor_id,
            self.akku_min matches Some(v) ==> r.akku_min == v,
            self.akku_min is None ==> r.akku_min == aktuell.akku_min,
            self.offline_minuten matches Some(v) ==> r.offline_minuten == v,
            self.offline_minuten is None ==> r.offline_minuten == aktuell.offline_minuten,
            self.alarm_quittiert matches Some(v) ==> r.alarm_quittiert == v,
            self.alarm_quittiert is None ==> r.alarm_quittiert == aktuell.alarm_quittiert,
    {
        AlarmGrenzen {
            id: aktuell.id,
            sensor_id,
            akku_min: match self.akku_min {
                Some(v) => v,
                None => aktuell.akku_min,
            },
            offline_minuten: match self.offline_minuten {
                Some(v) => v,
                None => aktuell.offline_minuten,
            },
            alarm_quittiert: match self.alarm_quittiert {
                Some(v) => v,
                None => aktuell.alarm_quittiert,
            },
        }
    }
}

/// Applying the change that changes nothing leaves alarm settings as they are.
pub proof fn gesetz_leeres_grenzen_update(g: AlarmGrenzen)
    ensures
        grenzen_aktualisiert(leeres_grenzen_update(), g, g.sensor_id) == g,
{
}

/// Each field that a change of alarm settings holds replaces the stored one,
/// whatever it was; each field it leaves out keeps the stored value; the
/// settings keep their id and belong to the sensor named in the request.
pub proof fn gesetz_grenzen_update_setzt_felder(u: AlarmGrenzenUpdate, g: AlarmGrenzen, sensor_id: i64)
    ensures
        u.akku_min matches Some(v) ==> grenzen_aktualisiert(u, g, sensor_id).akku_min == v,
        u.akku_min is None ==> grenzen_aktualisiert(u, g, sensor_id).akku_min == g.akku_min,
        u.offline_minuten matches Some(v) ==> grenzen_aktualisiert(u, g, sensor_id).offline_minuten == v,
        u.offline_minuten is None ==> grenzen_aktualisiert(u, g, sensor_id).offline_minuten == g.offline_minuten,
        u.alarm_quittiert matches Some(v) ==> grenzen_aktualisiert(u, g, sensor_id).alarm_quittiert == v,
        u.alarm_quittiert is None ==> grenzen_aktualisiert(u, g, sensor_id).alarm_quittiert == g.alarm_quittiert,
        grenzen_aktualisiert(u, g, sensor_id).id == g.id,
        grenzen_aktualisiert(u, g, sensor_id).sensor_id == sensor_id,
{
}

/// Applying a change of alarm settings twice is applying it once.
pub proof fn gesetz_grenzen_update_idempotent(u: AlarmGrenzenUpdate, g: AlarmGrenzen, sensor_id: i64)
    ensures
        grenzen_aktualisiert(u, grenzen_aktualisiert(u, g, sensor_id), sensor_id) == grenzen_aktualisiert(u, g, sensor_id),
{
}

impl AlarmGrenzen {
    /// New alarm settings with the id `id`: the given battery minimum and
    /// offline minutes, or 20 and 270, not acknowledged.
    pub fn neu_angelegt(id: i64, sensor_id: i64, akku_min: Option<i64>, offline_minuten: Option<i64>) -> (r: AlarmGrenzen)
        ensures
            r == (AlarmGrenzen {
                id: id,
                sensor_id: sensor_id,
                akku_min: oder(akku_min, 20),
                offline_minuten: oder(offline_minuten, 270),
                alarm_quittiert: 0,
            }),
    {
        AlarmGrenzen {
            id,
            sensor_id,
            akku_min: match akku_min {
                Some(v) => v,
                None => STANDARD_AKKU_MIN,
            },
            offline_minuten: match offline_minuten {
                Some(v) => v,
                None => STANDARD_OFFLINE_MINUTEN,
            },
            alarm_quittiert: 0,
        }
    }
}

} // verus!
