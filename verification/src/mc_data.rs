use vstd::prelude::*;

use crate::types::{Or, OrVec};

verus! {

/// The remote catalogue of all published versions, with a pointer to the
/// latest release and snapshot.
#[derive(Debug)]
pub struct MojangVersionManifest {
    pub latest: MojangVersionManifestLatest,
    pub versions: Vec<MojangReleaseProfile>,
}

impl MojangVersionManifest {
    /// The first catalogue entry whose id equals `version`, if any.
    pub fn look_up_version(&self, version: String) -> (r: Option<&MojangReleaseProfile>)
        ensures
            match r {
                Some(p) => exists|i: int|
                    0 <= i < self.versions@.len() && (#[trigger] self.versions@[i]).id@
                        == version@ && p == &self.versions@[i] && (forall|j: int|
                        0 <= j < i ==> (#[trigger] self.versions@[j]).id@ != version@),
                None => forall|i: int|
                    0 <= i < self.versions@.len() ==> (#[trigger] self.versions@[i]).id@
                        != version@,
            },
    {
        let mut i: usize = 0;
        while i < self.versions.len()
            invariant
                0 <= i <= self.versions@.len(),
                forall|j: int| 0 <= j < i ==> (#[trigger] self.versions@[j]).id@ != version@,
            decreases self.versions@.len() - i,
        {
            if self.versions[i].id == version {
                return Some(&self.versions[i]);
            }
            i = i + 1;
        }
        None
    }
}

#[derive(Debug)]
pub struct MojangVersionManifestLatest {
    pub release: String,
    pub snapshot: String,
}

#[derive(Debug)]
pub struct MojangReleaseProfile {
    pub id: String,
    pub release_type: String,
    pub url: String,
    pub time: String,
    pub release_time: String,
}

/// The per-version document: where the client binary, libraries, assets and
/// logging configuration live, and under which digests.
#[derive(Debug)]
pub struct MojangVersionData {
    pub arguments: Option<Arguments>,
    pub asset_index: AssetIndex,
    pub assets: String,
    pub downloads: Downloads,
    pub id: String,
    pub libraries: Vec<Library>,
    pub logging: Logging,
    pub main_class: String,
    pub minecraft_arguments: Option<String>,
    pub minimum_launcher_version: u16,
    pub release_time: String,
    pub time: String,
    pub release_type: String,
}

#[derive(Debug)]
pub struct Arguments {
    pub game: Vec<Or<String, Argument>>,
    pub jvm: Vec<Or<String, Argument>>,
}

#[derive(Debug)]
pub struct Argument {
    pub rules: Option<Vec<Rule>>,
    pub value: OrVec<String>,
}

#[derive(Debug)]
pub struct Logging {
    pub client: LoggingConfig,
}

#[derive(Debug)]
pub struct LoggingConfig {
    pub argument: String,
    pub file: File,
    pub file_type: String,
}

#[derive(Debug)]
pub struct Library {
    pub downloads: LibraryDownload,
    pub extract: Option<Extract>,
    pub name: String,
    pub natives: Option<Natives>,
    pub rules: Option<Vec<Rule>>,
}

#[derive(Debug)]
pub struct LibraryDownload {
    pub classifiers: Option<Classifiers>,
    pub artifact: Option<Artifact>,
}

#[derive(Debug)]
pub struct Extract {
    pub exclude: Vec<String>,
}

#[derive(Debug)]
pub struct Natives {
    pub linux: Option<String>,
    pub osx: Option<String>,
    pub windows: Option<String>,
}

/// Whether a matching rule includes or excludes the artifact.
#[derive(Debug, Clone, Copy, PartialEq, Eq, Structural)]
pub enum RuleAction {
    Allow,
    Deny,
}

/// One platform-applicability rule: an action, guarded by an optional
/// operating-system predicate.
#[derive(Debug)]
pub struct Rule {
    pub action: RuleAction,
    pub os: Option<Os>,
}

/// An operating-system predicate; only present fields are compared.
#[derive(Debug)]
pub struct Os {
    pub name: Option<String>,
    pub arch: Option<String>,
}

/// The per-platform native artifacts of a library.
#[derive(Debug)]
pub struct Classifiers {
    pub natives_linux: Option<Artifact>,
    pub natives_osx: Option<Artifact>,
    pub natives_windows: Option<Artifact>,
}

#[derive(Debug)]
pub struct Downloads {
    pub client: Artifact,
    pub server: Artifact,
}

/// One content-addressable downloadable unit.
#[derive(Debug)]
pub struct Artifact {
    pub path: Option<String>,
    pub sha1: String,
    pub size: u32,
    pub url: String,
}

impl Clone for Artifact {
    fn clone(&self) -> (r: Self)
        ensures
            r == *self,
    {
        Artifact {
            path: match &self.path {
                Some(p) => Some(p.clone()),
                None => None,
            },
            sha1: self.sha1.clone(),
            size: self.size,
            url: self.url.clone(),
        }
    }
}

#[derive(Debug)]
pub struct File {
    pub id: String,
    pub sha1: String,
    pub size: u32,
    pub url: String,
}

/// The reference to the asset-index document, with its own digest.
#[derive(Debug)]
pub struct AssetIndex {
    pub id: String,
    pub sha1: String,
    pub size: u32,
    pub total_size: u32,
    pub url: String,
}

} // verus!
