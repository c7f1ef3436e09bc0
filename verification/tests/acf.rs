use glaunch::acf::{AcfData, AcfParser};

fn manifest(lines: &[&str]) -> String {
    let mut s = String::from("\"AppState\"\n{\n");
    for l in lines {
        s.push_str("\t");
        s.push_str(l);
        s.push('\n');
    }
    s.push_str("}\n");
    s
}

#[test]
fn manifest_without_size_defaults_to_zero() {
    let text = manifest(&[
        "\"appid\"\t\t\"730\"",
        "\"name\"\t\t\"Game X\"",
        "\"installdir\"\t\t\"GameX\"",
    ]);
    let data = AcfParser::new(text).parse().unwrap();
    assert_eq!(data.app_id, "730");
    assert_eq!(data.name, "Game X");
    assert_eq!(data.install_dir, "GameX");
    assert_eq!(data.size_on_disk, 0);
    assert_eq!(data.buildid, "0");
    assert_eq!(data.last_updated, None);
    assert_eq!(data.state, 0);
}

#[test]
fn manifest_with_every_field() {
    let text = manifest(&[
        "\"appid\"\t\t\"440\"",
        "\"Universe\"\t\t\"1\"",
        "\"name\"\t\t\"Team Fortress 2\"",
        "\"StateFlags\"\t\t\"4\"",
        "\"installdir\"\t\t\"Team Fortress 2\"",
        "\"LastUpdated\"\t\t\"1700000000\"",
        "\"SizeOnDisk\"\t\t\"27000000000\"",
        "\"buildid\"\t\t\"12345678\"",
    ]);
    let data = AcfParser::new(text).parse().unwrap();
    assert_eq!(data.app_id, "440");
    assert_eq!(data.name, "Team Fortress 2");
    assert_eq!(data.install_dir, "Team Fortress 2");
    assert_eq!(data.size_on_disk, 27_000_000_000);
    assert_eq!(data.buildid, "12345678");
    assert_eq!(data.last_updated, Some(1_700_000_000));
    assert_eq!(data.state, 4);
}

#[test]
fn manifest_missing_required_fields() {
    let no_appid = manifest(&["\"name\" \"A\"", "\"installdir\" \"a\""]);
    assert_eq!(AcfParser::new(no_appid).parse().unwrap_err().message, "Missing appid");
    let no_name = manifest(&["\"appid\" \"1\"", "\"installdir\" \"a\""]);
    assert_eq!(AcfParser::new(no_name).parse().unwrap_err().message, "Missing name");
    let no_dir = manifest(&["\"appid\" \"1\"", "\"name\" \"A\""]);
    assert_eq!(AcfParser::new(no_dir).parse().unwrap_err().message, "Missing installdir");
    assert_eq!(AcfParser::new(String::new()).parse().unwrap_err().message, "Missing appid");
}

#[test]
fn manifest_values_are_trimmed_and_later_lines_win() {
    let text = manifest(&[
        "\"appid\" \"1\"",
        "\" name \" \"  Spaced Out  \"",
        "\"installdir\" \"first\"",
        "\"installdir\" \"second\"",
        "\"SizeOnDisk\" \"not a number\"",
        "\"LastUpdated\" \"-5\"",
        "\"StateFlags\" \"99999999999\"",
    ]);
    let data = AcfParser::new(text).parse().unwrap();
    assert_eq!(data.name, "Spaced Out");
    assert_eq!(data.install_dir, "second");
    assert_eq!(data.size_on_disk, 0);
    assert_eq!(data.last_updated, Some(-5));
    assert_eq!(data.state, 0);
}

#[test]
fn manifest_lines_without_a_pair_are_skipped() {
    let parser = AcfParser::new(manifest(&["garbage", "\"appid\"", "\"appid\" \"9\"", "{", "}"]));
    let entries = parser.entries();
    assert_eq!(entries, vec![("appid".to_string(), "9".to_string())]);
}

#[test]
fn record_from_pairs_directly() {
    let pairs = vec![
        ("appid".to_string(), "730".to_string()),
        ("name".to_string(), "Game X".to_string()),
        ("installdir".to_string(), "GameX".to_string()),
        ("SizeOnDisk".to_string(), "1024".to_string()),
    ];
    let data = AcfData::from_entries(&pairs).unwrap();
    assert_eq!(data.size_on_disk, 1024);
    assert_eq!(data.buildid, "0");
    assert!(AcfData::from_entries(&Vec::new()).is_err());
}
