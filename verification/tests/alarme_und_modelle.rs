use freezer_monitor::alarm::{
    akku_alarm, alarme_aktiv, alarme_pruefen, alter_minuten_bei, berechne_alter_minuten, ntfy_url,
    offline_alarm, offline_pruefen, offline_pruefen_bei, pruefe_alarm, sensorname_oder_standard, temperatur_alarm, AlarmGrenzen,
};
use freezer_monitor::antwort::Inhalt;
use freezer_monitor::fehler::AppError;
use freezer_monitor::modelle::{
    neuer_sensor_fuer_messwert, AlarmGrenzenUpdate, MesswertFilter, NeuerSensor, Sensor, SensorUpdate,
};
use freezer_monitor::server::{port_oder_standard, server_adresse, sicherheits_header};
use freezer_monitor::zeit::Zeitpunkt;

fn grenzen(quittiert: i64) -> AlarmGrenzen {
    AlarmGrenzen { id: 3, sensor_id: 7, akku_min: 20, offline_minuten: 270, alarm_quittiert: quittiert }
}

#[test]
fn akku_alarm_unter_minimum() {
    let b = alarme_pruefen(&Some(grenzen(0)), false, 19);
    assert!(b.akku && !b.temperatur);
    let b = alarme_pruefen(&Some(grenzen(0)), true, 20);
    assert!(!b.akku && b.temperatur);
}

#[test]
fn quittierte_alarme_schweigen() {
    for akku in [-5, 0, 19, 100] {
        for temp in [false, true] {
            assert!(pruefe_alarm(7, &Some(grenzen(1)), temp, "t".into(), akku, "Truhe").is_empty());
            assert!(pruefe_alarm(7, &None, temp, "t".into(), akku, "Truhe").is_empty());
        }
    }
    assert!(!alarme_aktiv(&Some(grenzen(1))));
    assert!(!alarme_aktiv(&None));
    assert!(alarme_aktiv(&Some(grenzen(0))));
    assert!(alarme_aktiv(&Some(grenzen(2))));
}

#[test]
fn pruefe_alarm_reihenfolge_und_texte() {
    let a = pruefe_alarm(7, &Some(grenzen(0)), true, "Temperatur -10.0°C überschreitet Grenzwert -15.0°C!".into(), 12, "Keller");
    assert_eq!(a.len(), 2);
    assert_eq!(a[0].typ, "temperatur");
    assert_eq!(a[0].titel, "🚨 TEMPERATUR-ALARM: Keller");
    assert_eq!(a[0].nachricht, "Temperatur -10.0°C überschreitet Grenzwert -15.0°C!");
    assert_eq!(a[1].typ, "akku");
    assert_eq!(a[1].titel, "🔋 AKKU-WARNUNG: Keller");
    assert_eq!(a[1].nachricht, "Akkustand 12% unter Minimum 20%!");
    assert!(a.iter().all(|x| x.sensor_id == 7));
}

#[test]
fn einzelne_alarme() {
    let t = temperatur_alarm(1, "A", "n".to_string());
    assert_eq!((t.typ.as_str(), t.titel.as_str(), t.nachricht.as_str()), ("temperatur", "🚨 TEMPERATUR-ALARM: A", "n"));
    let a = akku_alarm(1, "A", -3, 20);
    assert_eq!(a.nachricht, "Akkustand -3% unter Minimum 20%!");
    assert!(offline_alarm(1, "A", 270, 270).is_none());
    let o = offline_alarm(1, "Truhe 2", 270, 271).unwrap();
    assert_eq!(o.typ, "offline");
    assert_eq!(o.titel, "📡 OFFLINE-ALARM: Truhe 2");
    assert_eq!(o.nachricht, "Truhe 2 hat seit 271 Minuten keine Daten gesendet!");
}

#[test]
fn alter_von_zeitstempeln() {
    assert_eq!(berechne_alter_minuten("kein Datum"), 0);
    assert_eq!(berechne_alter_minuten("2024-01-01T10:00:00"), 0);
    assert_eq!(berechne_alter_minuten("2024-13-01 10:00:00"), 0);
    let alt = berechne_alter_minuten("2000-01-01 00:00:00");
    assert!(alt > 12_000_000, "{}", alt);
    let zukunft = berechne_alter_minuten("2999-01-01 00:00:00");
    assert!(zukunft < 0);
}

const JAHR_2000: i64 = 946_684_800;

#[test]
fn alter_zu_festem_zeitpunkt() {
    let jetzt = Zeitpunkt { sekunden: JAHR_2000 + 600, nanos: 0 };
    assert_eq!(alter_minuten_bei(&jetzt, "2000-01-01 00:00:00"), 10);
    let knapp = Zeitpunkt { sekunden: JAHR_2000 + 659, nanos: 999_999_999 };
    assert_eq!(alter_minuten_bei(&knapp, "2000-01-01 00:00:00"), 10);
    let vorher = Zeitpunkt { sekunden: JAHR_2000, nanos: 0 };
    assert_eq!(alter_minuten_bei(&vorher, "2000-01-01 00:10:30"), -10);
    assert_eq!(alter_minuten_bei(&jetzt, "2000-01-01T00:00:00"), 0);
}

#[test]
fn offline_pruefung_zu_festem_zeitpunkt() {
    let g = grenzen(0);
    let ts = Some(Some("2000-01-01 00:00:00".to_string()));
    let genau = Zeitpunkt { sekunden: JAHR_2000 + 270 * 60, nanos: 0 };
    assert!(offline_pruefen_bei(&g, ts.clone(), "Truhe", &genau).is_none());
    let spaeter = Zeitpunkt { sekunden: JAHR_2000 + 271 * 60, nanos: 0 };
    let a = offline_pruefen_bei(&g, ts.clone(), "Truhe", &spaeter).unwrap();
    assert_eq!(a.sensor_id, 7);
    assert_eq!(a.typ, "offline");
    assert_eq!(a.titel, "📡 OFFLINE-ALARM: Truhe");
    assert_eq!(a.nachricht, "Truhe hat seit 271 Minuten keine Daten gesendet!");
    assert!(offline_pruefen_bei(&grenzen(1), ts.clone(), "Truhe", &spaeter).is_none());
    assert!(offline_pruefen_bei(&g, Some(None), "Truhe", &spaeter).is_none());
    assert!(offline_pruefen_bei(&g, None, "Truhe", &spaeter).is_none());
}

#[test]
fn offline_pruefung() {
    let g = grenzen(0);
    let a = offline_pruefen(&g, Some(Some("2000-01-01 00:00:00".to_string())), "Truhe").unwrap();
    assert_eq!(a.typ, "offline");
    assert_eq!(a.sensor_id, 7);
    assert!(a.nachricht.starts_with("Truhe hat seit "));
    assert!(offline_pruefen(&grenzen(1), Some(Some("2000-01-01 00:00:00".to_string())), "Truhe").is_none());
    assert!(offline_pruefen(&g, Some(None), "Truhe").is_none());
    assert!(offline_pruefen(&g, None, "Truhe").is_none());
    assert!(offline_pruefen(&g, Some(Some("2999-01-01 00:00:00".to_string())), "Truhe").is_none());
    assert!(offline_pruefen(&g, Some(Some("kaputt".to_string())), "Truhe").is_none());
    let negativ = AlarmGrenzen { offline_minuten: -1, ..grenzen(0) };
    assert!(offline_pruefen(&negativ, Some(Some("kaputt".to_string())), "Truhe").is_some());
}

#[test]
fn namen_und_adressen() {
    assert_eq!(sensorname_oder_standard(Some("Keller".into()), 4), "Keller");
    assert_eq!(sensorname_oder_standard(None, 4), "Sensor 4");
    assert_eq!(ntfy_url("meine-truhe"), "https://ntfy.sh/meine-truhe");
}

#[test]
fn sensoren_anlegen() {
    let s = Sensor::neu_angelegt(5, NeuerSensor { name: "Garage".into(), standort: Some("hinten".into()) });
    assert_eq!((s.id, s.name.as_str(), s.standort.as_deref(), s.sleep_minuten), (5, "Garage", Some("hinten"), 120));
    assert!(neuer_sensor_fuer_messwert(9, true).is_none());
    let n = neuer_sensor_fuer_messwert(9, false).unwrap();
    assert_eq!((n.id, n.name.as_str(), n.standort.is_none(), n.sleep_minuten), (9, "Sensor 9", true, 120));
}

fn sensor() -> Sensor {
    Sensor { id: 2, name: "Alt".into(), standort: Some("Keller".into()), sleep_minuten: 60 }
}

#[test]
fn sensor_aktualisieren() {
    let leer = SensorUpdate { name: None, standort: None, sleep_minuten: None };
    let s = leer.anwenden(2, sensor());
    assert_eq!((s.id, s.name.as_str(), s.standort.as_deref(), s.sleep_minuten), (2, "Alt", Some("Keller"), 60));
    let u = SensorUpdate { name: Some("Neu".into()), standort: None, sleep_minuten: Some(30) };
    let s = u.anwenden(2, sensor());
    assert_eq!((s.name.as_str(), s.standort.as_deref(), s.sleep_minuten), ("Neu", Some("Keller"), 30));
    let u2 = SensorUpdate { name: Some("Neu".into()), standort: None, sleep_minuten: Some(30) };
    let s2 = u2.anwenden(2, s);
    assert_eq!((s2.name.as_str(), s2.standort.as_deref(), s2.sleep_minuten), ("Neu", Some("Keller"), 30));
    let u3 = SensorUpdate { name: None, standort: Some("Garage".into()), sleep_minuten: None };
    assert_eq!(u3.anwenden(2, sensor()).standort.as_deref(), Some("Garage"));
}

#[test]
fn alarm_grenzen_anlegen_und_aendern() {
    let g = AlarmGrenzen::neu_angelegt(11, 7, None, None);
    assert_eq!((g.id, g.sensor_id, g.akku_min, g.offline_minuten, g.alarm_quittiert), (11, 7, 20, 270, 0));
    let g = AlarmGrenzen::neu_angelegt(11, 7, Some(10), Some(60));
    assert_eq!((g.akku_min, g.offline_minuten), (10, 60));
    let leer = AlarmGrenzenUpdate { akku_min: None, offline_minuten: None, alarm_quittiert: None };
    let h = leer.anwenden(7, &g);
    assert_eq!((h.id, h.akku_min, h.offline_minuten, h.alarm_quittiert), (11, 10, 60, 0));
    let u = AlarmGrenzenUpdate { akku_min: Some(5), offline_minuten: None, alarm_quittiert: Some(1) };
    let h = u.anwenden(7, &g);
    assert_eq!((h.akku_min, h.offline_minuten, h.alarm_quittiert), (5, 60, 1));
    let h2 = u.anwenden(7, &h);
    assert_eq!((h2.akku_min, h2.offline_minuten, h2.alarm_quittiert), (5, 60, 1));
}

#[test]
fn messwert_filter_tage() {
    assert_eq!(MesswertFilter { tage: None, sensor_id: None }.tage_oder_standard(), 21);
    assert_eq!(MesswertFilter { tage: Some(3), sensor_id: Some(1) }.tage_oder_standard(), 3);
}

#[test]
fn fehler_antworten() {
    let a = AppError::DatenbankFehler("no rows returned".into()).antwort();
    assert_eq!(a.status, 500);
    assert!(matches!(&a.inhalt, Inhalt::Text(t) if t == "Datenbankfehler: no rows returned"));
    let a = AppError::NichtGefunden("Keine Firmware vorhanden".into()).antwort();
    assert_eq!(a.status, 404);
    assert!(matches!(&a.inhalt, Inhalt::Text(t) if t == "Keine Firmware vorhanden"));
    let a = AppError::UploadFehler("kaputt".into()).antwort();
    assert_eq!(a.status, 400);
    assert!(a.kopfzeilen.is_empty());
}

#[test]
fn server_einstellungen() {
    assert_eq!(port_oder_standard(None), "3000");
    assert_eq!(port_oder_standard(Some("8080".into())), "8080");
    assert_eq!(server_adresse("3000"), "0.0.0.0:3000");
    let h = sicherheits_header();
    assert_eq!(h.len(), 6);
    assert_eq!(h[0], ("X-Frame-Options".to_string(), "DENY".to_string()));
    assert_eq!(h[5], ("Permissions-Policy".to_string(), "camera=(), microphone=(), geolocation=()".to_string()));
}
