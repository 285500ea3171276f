use downloader::coords::{dots_to_slashes, parse_coordinate};
use downloader::errors::InstallError;
use downloader::fabric::coordinate_paths;

#[test]
fn coordinate_parsing_example() {
    let c = parse_coordinate(&String::from("net.fabricmc:fabric-loader:0.11.3")).unwrap();
    assert_eq!(c.group, "net.fabricmc");
    assert_eq!(c.id, "fabric-loader");
    assert_eq!(c.version, "0.11.3");

    let plan = coordinate_paths(
        &c,
        &String::from("https://maven.fabricmc.net"),
        &String::from("./libraries"),
    );
    assert_eq!(
        plan.jar_url,
        "https://maven.fabricmc.net/net/fabricmc/fabric-loader/0.11.3/fabric-loader-0.11.3.jar"
    );
    assert_eq!(
        plan.sha1_url,
        "https://maven.fabricmc.net/net/fabricmc/fabric-loader/0.11.3/fabric-loader-0.11.3.jar.sha1"
    );
    assert_eq!(plan.dir, "./libraries/net/fabricmc/fabric-loader/0.11.3");
    assert_eq!(plan.file_name, "fabric-loader-0.11.3.jar");
}

#[test]
fn coordinate_needs_two_colons() {
    assert!(matches!(parse_coordinate(&String::from("nocolons")), Err(InstallError::ParseError)));
    assert!(matches!(parse_coordinate(&String::from("group:only")), Err(InstallError::ParseError)));
}

#[test]
fn coordinate_extra_segments_are_ignored() {
    let c = parse_coordinate(&String::from("a.b:c:1.0:extra")).unwrap();
    assert_eq!(c.group, "a.b");
    assert_eq!(c.id, "c");
    assert_eq!(c.version, "1.0");
}

#[test]
fn coordinate_empty_segments_are_kept() {
    let c = parse_coordinate(&String::from("::")).unwrap();
    assert_eq!(c.group, "");
    assert_eq!(c.id, "");
    assert_eq!(c.version, "");
}

#[test]
fn group_dots_become_slashes() {
    assert_eq!(dots_to_slashes(&String::from("net.fabricmc")), "net/fabricmc/");
    assert_eq!(dots_to_slashes(&String::from("single")), "single/");
    assert_eq!(dots_to_slashes(&String::from("")), "/");
    assert_eq!(dots_to_slashes(&String::from("a..b")), "a//b/");
}
