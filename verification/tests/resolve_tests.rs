use downloader::errors::InstallError;
use downloader::mc_data::{
    Artifact, AssetIndex, Classifiers, Downloads, File, Library, LibraryDownload, Logging,
    LoggingConfig, MojangVersionData, Os, Rule, RuleAction,
};
use downloader::resolve::{
    asset_index_task, asset_object_task, client_task, find_dest_conflict, get_needed_libraries,
    library_task, logging_task, resolve_tasks, rsplit_slash, AssetObject,
};
use downloader::sync::SyncTask;

fn artifact(path: Option<&str>, sha1: &str, url: &str) -> Artifact {
    Artifact {
        path: path.map(String::from),
        sha1: String::from(sha1),
        size: 10,
        url: String::from(url),
    }
}

fn sample_version(libraries: Vec<Library>) -> MojangVersionData {
    MojangVersionData {
        arguments: None,
        asset_index: AssetIndex {
            id: String::from("1.16"),
            sha1: String::from("1111111111111111111111111111111111111111"),
            size: 100,
            total_size: 1000,
            url: String::from("https://example.com/indexes/1.16.json"),
        },
        assets: String::from("1.16"),
        downloads: Downloads {
            client: artifact(None, "cccccccccccccccccccccccccccccccccccccccc", "https://example.com/client.jar"),
            server: artifact(None, "5555555555555555555555555555555555555555", "https://example.com/server.jar"),
        },
        id: String::from("1.16.5"),
        libraries,
        logging: Logging {
            client: LoggingConfig {
                argument: String::from("-Dlog4j.configurationFile=${path}"),
                file: File {
                    id: String::from("client-1.12.xml"),
                    sha1: String::from("dddddddddddddddddddddddddddddddddddddddd"),
                    size: 888,
                    url: String::from("https://example.com/client.xml"),
                },
                file_type: String::from("log4j2-xml"),
            },
        },
        main_class: String::from("net.minecraft.client.main.Main"),
        minecraft_arguments: None,
        minimum_launcher_version: 21,
        release_time: String::from("2021-01-14T16:05:32+00:00"),
        time: String::from("2021-01-14T16:05:32+00:00"),
        release_type: String::from("release"),
    }
}

#[test]
fn asset_path_derivation() {
    let hash = String::from("abcdef0123456789abcdef0123456789abcdef01");
    let t = asset_object_task(&hash).unwrap();
    assert_eq!(t.dir, "./assets/objects/ab");
    assert_eq!(t.name, hash);
    assert_eq!(t.sha1, hash);
    assert_eq!(
        t.url,
        "https://resources.download.minecraft.net/ab/abcdef0123456789abcdef0123456789abcdef01"
    );
}

#[test]
fn asset_hash_too_short_is_rejected() {
    assert!(matches!(asset_object_task(&String::from("a")), Err(InstallError::ParseError)));
}

#[test]
fn rsplit_slash_cases() {
    let (d, f) = rsplit_slash(&String::from("a/b/c.jar"));
    assert_eq!(d, "a/b");
    assert_eq!(f, "c.jar");
    let (d, f) = rsplit_slash(&String::from("c.jar"));
    assert_eq!(d, "");
    assert_eq!(f, "c.jar");
    let (d, f) = rsplit_slash(&String::from("a/b/"));
    assert_eq!(d, "a/b");
    assert_eq!(f, "");
}

#[test]
fn library_task_destination() {
    let a = artifact(
        Some("com/example/lib/1.0/lib-1.0.jar"),
        "aaaaaaaaaaaaaaaaaaaaaaaaaaaaaaaaaaaaaaaa",
        "https://example.com/lib-1.0.jar",
    );
    let t = library_task(&a, &String::from("./libraries")).unwrap();
    assert_eq!(t.dir, "./libraries/com/example/lib/1.0");
    assert_eq!(t.name, "lib-1.0.jar");
    assert_eq!(t.sha1, "aaaaaaaaaaaaaaaaaaaaaaaaaaaaaaaaaaaaaaaa");
    assert_eq!(t.url, "https://example.com/lib-1.0.jar");
}

#[test]
fn library_task_rejects_missing_or_empty_path() {
    let none = artifact(None, "aaaaaaaaaaaaaaaaaaaaaaaaaaaaaaaaaaaaaaaa", "https://example.com/a");
    assert!(matches!(library_task(&none, &String::from("./libraries")), Err(InstallError::ParseError)));
    let trailing = artifact(
        Some("com/example/"),
        "aaaaaaaaaaaaaaaaaaaaaaaaaaaaaaaaaaaaaaaa",
        "https://example.com/a",
    );
    assert!(matches!(library_task(&trailing, &String::from("./libraries")), Err(InstallError::ParseError)));
}

#[test]
fn client_logging_and_index_tasks() {
    let v = sample_version(Vec::new());
    let dir = String::from("./installations/1.16.5");
    let c = client_task(&v, &dir);
    assert_eq!(c.url, "https://example.com/client.jar");
    assert_eq!(c.dir, "./installations/1.16.5");
    assert_eq!(c.name, "client.jar");
    let l = logging_task(&v, &dir);
    assert_eq!(l.url, "https://example.com/client.xml");
    assert_eq!(l.name, "client.xml");
    let i = asset_index_task(&v);
    assert_eq!(i.dir, "./assets/indexes");
    assert_eq!(i.name, "1.16.json");
    assert_eq!(i.sha1, "1111111111111111111111111111111111111111");
}

#[test]
fn needed_libraries_respect_rules_and_classifiers() {
    let plain = Library {
        downloads: LibraryDownload {
            classifiers: None,
            artifact: Some(artifact(
                Some("a/plain.jar"),
                "aaaaaaaaaaaaaaaaaaaaaaaaaaaaaaaaaaaaaaaa",
                "https://example.com/plain.jar",
            )),
        },
        extract: None,
        name: String::from("com.example:plain:1.0"),
        natives: None,
        rules: None,
    };
    let osx_denied = Library {
        downloads: LibraryDownload {
            classifiers: Some(Classifiers {
                natives_linux: Some(artifact(
                    Some("a/natives-linux.jar"),
                    "bbbbbbbbbbbbbbbbbbbbbbbbbbbbbbbbbbbbbbbb",
                    "https://example.com/natives-linux.jar",
                )),
                natives_osx: None,
                natives_windows: None,
            }),
            artifact: Some(artifact(
                Some("a/denied.jar"),
                "cccccccccccccccccccccccccccccccccccccccc",
                "https://example.com/denied.jar",
            )),
        },
        extract: None,
        name: String::from("com.example:denied:1.0"),
        natives: None,
        rules: Some(vec![
            Rule { action: RuleAction::Allow, os: None },
            Rule {
                action: RuleAction::Deny,
                os: Some(Os { name: Some(String::from("osx")), arch: None }),
            },
        ]),
    };
    let v = sample_version(vec![plain, osx_denied]);

    let (libs, nats) = get_needed_libraries(&v, &String::from("linux"), &String::from("x86_64"));
    assert_eq!(libs.len(), 2);
    assert_eq!(nats.len(), 1);
    assert_eq!(nats[0].path, Some(String::from("a/natives-linux.jar")));

    let (libs, nats) = get_needed_libraries(&v, &String::from("osx"), &String::from("x86_64"));
    assert_eq!(libs.len(), 1);
    assert_eq!(libs[0].path, Some(String::from("a/plain.jar")));
    assert_eq!(nats.len(), 0);
}

#[test]
fn resolve_tasks_assembles_full_list() {
    let lib = Library {
        downloads: LibraryDownload {
            classifiers: None,
            artifact: Some(artifact(
                Some("com/example/lib/1.0/lib-1.0.jar"),
                "aaaaaaaaaaaaaaaaaaaaaaaaaaaaaaaaaaaaaaaa",
                "https://example.com/lib-1.0.jar",
            )),
        },
        extract: None,
        name: String::from("com.example:lib:1.0"),
        natives: None,
        rules: None,
    };
    let v = sample_version(vec![lib]);
    let objects = vec![AssetObject {
        name: String::from("some/asset.png"),
        hash: String::from("abcdef0123456789abcdef0123456789abcdef01"),
        size: 10,
    }];
    let tasks = resolve_tasks(
        &v,
        &objects,
        &String::from("linux"),
        &String::from("x86_64"),
        &String::from("./installations/1.16.5"),
    )
    .unwrap();
    assert_eq!(tasks.len(), 4);
    assert_eq!(tasks[0].name, "client.jar");
    assert_eq!(tasks[1].name, "client.xml");
    assert_eq!(tasks[2].name, "lib-1.0.jar");
    assert_eq!(tasks[2].dir, "./libraries/com/example/lib/1.0");
    assert_eq!(tasks[3].dir, "./assets/objects/ab");
    assert!(find_dest_conflict(&tasks).is_none());
}

#[test]
fn resolve_tasks_rejects_malformed_asset_hash() {
    let v = sample_version(Vec::new());
    let objects = vec![AssetObject { name: String::from("x"), hash: String::from("a"), size: 1 }];
    let r = resolve_tasks(
        &v,
        &objects,
        &String::from("linux"),
        &String::from("x86_64"),
        &String::from("./installations/1.16.5"),
    );
    assert!(matches!(r, Err(InstallError::ParseError)));
}

#[test]
fn conflicting_destinations_are_found() {
    let a = SyncTask {
        url: String::from("https://example.com/1"),
        sha1: String::from("aaaaaaaaaaaaaaaaaaaaaaaaaaaaaaaaaaaaaaaa"),
        dir: String::from("./libraries/x"),
        name: String::from("x.jar"),
    };
    let b = SyncTask {
        url: String::from("https://example.com/2"),
        sha1: String::from("bbbbbbbbbbbbbbbbbbbbbbbbbbbbbbbbbbbbbbbb"),
        dir: String::from("./libraries/x"),
        name: String::from("x.jar"),
    };
    let c = SyncTask {
        url: String::from("https://example.com/3"),
        sha1: String::from("cccccccccccccccccccccccccccccccccccccccc"),
        dir: String::from("./libraries/y"),
        name: String::from("y.jar"),
    };
    let conflict = find_dest_conflict(&vec![c.clone(), a.clone(), b.clone()]);
    assert_eq!(conflict, Some((1, 2)));
    // Same destination with the same digest is no conflict.
    let same = find_dest_conflict(&vec![a.clone(), a.clone()]);
    assert!(same.is_none());
}
