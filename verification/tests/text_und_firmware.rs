use freezer_monitor::firmware::{
    firmware_version_beim_start, ist_firmware_feld, neue_firmware_version, upload_dateiname,
    version_aus_dateiname,
};
use freezer_monitor::text::{aufteilen, dezimal, ist_u32, trimmen};

#[test]
fn trimmen_entfernt_leerraum_an_beiden_enden() {
    assert_eq!(trimmen("  a b \t\n"), "a b");
    assert_eq!(trimmen(""), "");
    assert_eq!(trimmen(" \u{3000} "), "");
    assert_eq!(trimmen("\u{a0}x\u{2009}"), "x");
}

#[test]
fn trimmen_zweimal_wie_einmal() {
    for s in ["  x  ", "x", "", " \t ", "a  b"] {
        let einmal = trimmen(s);
        assert_eq!(trimmen(einmal), einmal);
    }
}

#[test]
fn aufteilen_wie_split() {
    for (s, t) in [("a,b,,c", ','), ("", ','), (",", ','), ("abc", ';'), ("ä;ö;", ';')] {
        let erwartet: Vec<String> = s.split(t).map(|x| x.to_string()).collect();
        assert_eq!(aufteilen(s, t), erwartet);
    }
}

#[test]
fn dezimal_wie_display() {
    for n in [0i64, 7, 10, 42, -1, -120, 1234567890, i64::MAX, i64::MIN] {
        assert_eq!(dezimal(n), format!("{}", n));
    }
}

#[test]
fn ist_u32_wie_parse() {
    for s in [
        "0", "42", "+7", "+", "", "-1", "4294967295", "4294967296", "00012", "1a", " 1", "99999999999999999999",
    ] {
        assert_eq!(ist_u32(s), s.parse::<u32>().is_ok(), "{:?}", s);
    }
}

#[test]
fn dezimal_wird_als_u32_gelesen() {
    for n in [0i64, 1, 9, 10, 65535, 4294967295] {
        let text = dezimal(n);
        assert!(ist_u32(&text));
        assert_eq!(text.parse::<u32>().unwrap() as i64, n);
    }
}

#[test]
fn version_aus_dateiname_beispiele() {
    assert_eq!(version_aus_dateiname("firmware_1.0.1.bin"), Some("1.0.1".to_string()));
    assert_eq!(version_aus_dateiname("firmware_2.3.bin"), Some("2.3".to_string()));
    assert_eq!(version_aus_dateiname("firmware_1.0.1.bin.bin"), Some("1.0.1".to_string()));
    assert_eq!(version_aus_dateiname("firmware_1.0.1"), Some("1.0.1".to_string()));
    assert_eq!(version_aus_dateiname("a_b_1.0.bin"), None);
    assert_eq!(version_aus_dateiname("_1.2.bin"), Some("1.2".to_string()));
    assert_eq!(version_aus_dateiname("firmware.bin"), None);
    assert_eq!(version_aus_dateiname("firmware_1.bin"), None);
    assert_eq!(version_aus_dateiname("firmware_1..2.bin"), None);
    assert_eq!(version_aus_dateiname("firmware_1.x.bin"), None);
    assert_eq!(version_aus_dateiname("firmware_+1.2.bin"), Some("+1.2".to_string()));
    assert_eq!(version_aus_dateiname("firmware_1.4294967296.bin"), None);
    assert_eq!(version_aus_dateiname(""), None);
}

#[test]
fn version_zuruecklesen() {
    for praefix in ["firmware", "", "fw-neu"] {
        for version in ["1.0", "1.0.1", "10.20.30.40", "0.4294967295"] {
            let name = format!("{}_{}.bin", praefix, version);
            assert_eq!(version_aus_dateiname(&name), Some(version.to_string()));
        }
    }
}

#[test]
fn upload_felder() {
    assert!(ist_firmware_feld(Some("firmware")));
    assert!(!ist_firmware_feld(Some("Firmware")));
    assert!(!ist_firmware_feld(None));
    assert_eq!(upload_dateiname(Some("firmware_1.2.bin")), "firmware_1.2.bin");
    assert_eq!(upload_dateiname(None), "firmware.bin");
}

#[test]
fn firmware_version_beim_start_reihenfolge() {
    assert_eq!(firmware_version_beim_start(Some("2.0.0".into()), Some("1.5.0".into())), "2.0.0");
    assert_eq!(firmware_version_beim_start(None, Some("1.5.0".into())), "1.5.0");
    assert_eq!(firmware_version_beim_start(None, None), "1.0.0");
}

#[test]
fn praefix_aendert_die_version_nicht() {
    for rest in ["1.0.1.bin", "2.3", "1.x.bin", "_9.9.bin", ""] {
        let erwartet = version_aus_dateiname(&format!("firmware_{}", rest));
        for praefix in ["", "fw", "esp32-neu", "a.b.c"] {
            assert_eq!(version_aus_dateiname(&format!("{}_{}", praefix, rest)), erwartet);
        }
    }
}

#[test]
fn version_nach_upload() {
    assert_eq!(neue_firmware_version("firmware_2.1.0.bin", "1.0.0"), "2.1.0");
    assert_eq!(neue_firmware_version("firmware.bin", "1.0.0"), "1.0.0");
    assert_eq!(neue_firmware_version("firmware_beta.bin", "1.4"), "1.4");
}
