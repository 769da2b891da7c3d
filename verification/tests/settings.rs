use chrono_tz::Asia::Kolkata;
use chrono_tz::Tz;
use tz::system::{current_tz_in, strip_prefix, ZONEINFO_DIR};
use tz::{current_tz, Catalog, CurrentTzError, Zone, ZoneSetting};

fn zone(tz: Tz) -> Zone {
    Catalog::iana().find(tz.name()).unwrap()
}

#[test]
fn test_current_tz() {
    let setting = ZoneSetting::NameFile("Asia/Kolkata".to_string());
    assert_eq!(current_tz(&setting).unwrap(), zone(Kolkata));
}

#[test]
fn a_link_into_the_zone_data_names_its_zone() {
    let setting = ZoneSetting::DataLink("/var/db/timezone/zoneinfo/Asia/Kolkata".to_string());
    assert_eq!(current_tz(&setting), Ok(zone(Kolkata)));
    let setting = ZoneSetting::DataLink("/var/db/timezone/zoneinfo/America/Indiana/Knox".to_string());
    assert_eq!(current_tz(&setting), Ok(zone(Tz::America__Indiana__Knox)));
}

#[test]
fn a_machine_that_tells_nothing_has_no_zone() {
    assert_eq!(current_tz(&ZoneSetting::Absent), Err(CurrentTzError::NotConfigured));
}

#[test]
fn a_link_that_points_elsewhere_has_no_zone() {
    for target in [
        "/usr/share/zoneinfo/Asia/Kolkata",
        "/var/db/timezone/zoneinfo",
        "/var/db/timezone/zoneinfoAsia/Kolkata",
        "var/db/timezone/zoneinfo/Asia/Kolkata",
        "Asia/Kolkata",
        "",
    ]
    .iter()
    {
        let setting = ZoneSetting::DataLink(target.to_string());
        assert_eq!(current_tz(&setting), Err(CurrentTzError::LinkOutsideZoneinfo));
    }
}

#[test]
fn a_name_that_the_catalog_lacks_is_no_zone() {
    for name in ["Asia/Kolkata\n", "asia/kolkata", "kolkata", "", " Asia/Kolkata", "Mars/Olympus"].iter() {
        let setting = ZoneSetting::NameFile(name.to_string());
        assert_eq!(current_tz(&setting), Err(CurrentTzError::UnknownZone));
    }
    for target in ["/var/db/timezone/zoneinfo/", "/var/db/timezone/zoneinfo/Mars/Olympus", "/var/db/timezone/zoneinfo//UTC"].iter() {
        let setting = ZoneSetting::DataLink(target.to_string());
        assert_eq!(current_tz(&setting), Err(CurrentTzError::UnknownZone));
    }
}

#[test]
fn the_setting_is_looked_up_in_the_catalog_given() {
    let catalog = Catalog::from_names(vec!["Moon/Tranquility".to_string()]);
    let file = ZoneSetting::NameFile("Moon/Tranquility".to_string());
    assert_eq!(current_tz_in(&catalog, &file).map(|zone| zone.name().to_string()), Ok("Moon/Tranquility".to_string()));
    assert_eq!(current_tz(&file), Err(CurrentTzError::UnknownZone));
    let link = ZoneSetting::DataLink("/var/db/timezone/zoneinfo/Moon/Tranquility".to_string());
    assert_eq!(current_tz_in(&catalog, &link).map(|zone| zone.name().to_string()), Ok("Moon/Tranquility".to_string()));
    let earth = ZoneSetting::NameFile("Asia/Kolkata".to_string());
    assert_eq!(current_tz_in(&catalog, &earth), Err(CurrentTzError::UnknownZone));
    assert_eq!(current_tz_in(&catalog, &ZoneSetting::Absent), Err(CurrentTzError::NotConfigured));
}

#[test]
fn a_prefix_is_stripped_where_it_stands() {
    assert_eq!(ZONEINFO_DIR, "/var/db/timezone/zoneinfo/");
    assert_eq!(strip_prefix("/var/db/timezone/zoneinfo/UTC", ZONEINFO_DIR), Some("UTC"));
    assert_eq!(strip_prefix("abc", "ab"), Some("c"));
    assert_eq!(strip_prefix("abc", "abc"), Some(""));
    assert_eq!(strip_prefix("abc", ""), Some("abc"));
    assert_eq!(strip_prefix("", ""), Some(""));
    assert_eq!(strip_prefix("abc", "abcd"), None);
    assert_eq!(strip_prefix("abc", "bc"), None);
    assert_eq!(strip_prefix("abc", "aB"), None);
    assert_eq!(strip_prefix("żółw/łódź", "żółw/"), Some("łódź"));
    assert_eq!(strip_prefix("żółw/łódź", "zolw/"), None);
}
