use wicked_migration::document::generate_json;
use wicked_migration::file::{File, FileType};

fn file(name: &str, content: &str, kind: FileType) -> File {
    File { file_content: content.to_string(), file_name: name.to_string(), file_type: kind }
}

#[test]
fn report_without_files() {
    let files: Vec<File> = Vec::new();
    assert_eq!(generate_json("ok", &files), "{\"log\":\"ok\",\"files\":[]}");
}

#[test]
fn report_with_one_file() {
    let files = vec![file("a-converted.xml", "<data/>", FileType::Xml)];
    assert_eq!(
        generate_json("ok", &files),
        "{\"log\":\"ok\",\"files\":[{\"fileName\":\"a-converted.xml\",\"fileContent\":\"<data/>\"}]}"
    );
}

#[test]
fn report_keeps_the_order_of_the_files() {
    let files = vec![
        file("b.nmconnection", "[connection]", FileType::Ifcfg),
        file("a.nmconnection", "[ipv4]", FileType::Ifcfg),
    ];
    assert_eq!(
        generate_json("", &files),
        "{\"log\":\"\",\"files\":[{\"fileName\":\"b.nmconnection\",\"fileContent\":\"[connection]\"},{\"fileName\":\"a.nmconnection\",\"fileContent\":\"[ipv4]\"}]}"
    );
}

#[test]
fn report_escapes_quotes_and_line_breaks() {
    let files = vec![file("e\"th0", "id=\"x\"\nk=\\v\t", FileType::Ifcfg)];
    assert_eq!(
        generate_json("line 1\nline 2", &files),
        "{\"log\":\"line 1\\nline 2\",\"files\":[{\"fileName\":\"e\\\"th0\",\"fileContent\":\"id=\\\"x\\\"\\nk=\\\\v\\t\"}]}"
    );
}

#[test]
fn report_with_a_long_log_is_printed_whole() {
    let log = "x".repeat(100);
    let files: Vec<File> = Vec::new();
    assert_eq!(generate_json(&log, &files), format!("{{\"log\":\"{}\",\"files\":[]}}", log));
}

#[test]
fn report_read_back_gives_the_same_pairs() {
    let pairs = [
        ("eth0.nmconnection", "[connection]\nid=eth0\n"),
        ("br0.xml", "<interface>\n  <name>br0</name>\n</interface>"),
        ("odd \"name\".txt", "tab\there, backslash \\ and unicode \u{00e9}\u{4e16}"),
    ];
    let files: Vec<File> =
        pairs.iter().map(|(name, content)| file(name, content, FileType::Ifcfg)).collect();
    let text = generate_json("some log", &files);
    let parsed = json::parse(&text).unwrap();
    assert_eq!(parsed["log"].as_str(), Some("some log"));
    assert_eq!(parsed["files"].len(), pairs.len());
    for (i, (name, content)) in pairs.iter().enumerate() {
        assert_eq!(parsed["files"][i]["fileName"].as_str(), Some(*name));
        assert_eq!(parsed["files"][i]["fileContent"].as_str(), Some(*content));
    }
}

#[test]
fn written_files_are_read_back_and_reported_as_they_were() {
    let pairs = [
        ("ifcfg-eth0", "BOOTPROTO='dhcp'\nSTARTMODE='auto'\n"),
        ("eth0.nmconnection", "[connection]\nid=eth0\n"),
        ("br0.xml", "<interface>\n  <name>br\u{00e9}</name>\n</interface>"),
        ("README", ""),
    ];
    let mut read = Vec::new();
    for (name, content) in pairs {
        let extension = name.rsplit_once('.').map(|(_, extension)| extension);
        read.push(File::from_artifact(Some(name), extension, content.as_bytes().to_vec()).unwrap());
    }
    let parsed = json::parse(&generate_json("", &read)).unwrap();
    assert_eq!(parsed["files"].len(), pairs.len());
    for (i, (name, content)) in pairs.iter().enumerate() {
        assert_eq!(parsed["files"][i]["fileName"].as_str(), Some(*name));
        assert_eq!(parsed["files"][i]["fileContent"].as_str(), Some(*content));
    }
}
