use vstd::prelude::*;

use crate::coords::{spec_dots_to_slashes, dots_to_slashes, MavenCoordinate};
use crate::types::Or;

verus! {

/// Which loader builds or game versions a query asks for.
#[derive(Debug, Clone, Copy, PartialEq, Eq, Structural)]
pub enum Stability {
    Stable,
    Unstable,
    Both,
}

/// One published loader build: the loader, its intermediary mappings, and the
/// launcher metadata carrying the library list.
#[derive(Debug)]
pub struct FabricBuild {
    pub loader: FabricBuildLoader,
    pub intermediary: FabricBuildIntermediary,
    pub launcher_meta: FabricBuildMeta,
}

#[derive(Debug)]
pub struct FabricBuildLoader {
    pub separator: String,
    pub build: u32,
    pub maven: String,
    pub version: String,
    pub stable: bool,
}

#[derive(Debug)]
pub struct FabricBuildIntermediary {
    pub maven: String,
    pub version: String,
    pub stable: bool,
}

#[derive(Debug)]
pub struct FabricBuildMeta {
    pub version: u16,
    pub libraries: FabricBuildLibraries,
    pub main_class: Or<FabricMainClass, String>,
}

#[derive(Debug)]
pub struct FabricMainClass {
    pub client: String,
    pub server: String,
}

#[derive(Debug)]
pub struct FabricBuildLibraries {
    pub client: Vec<FabricLibrary>,
    pub common: Vec<FabricLibrary>,
    pub server: Vec<FabricLibrary>,
}

/// One library the loader needs: a coordinate, and the repository it comes
/// from (a library without one is not downloaded).
#[derive(Debug)]
pub struct FabricLibrary {
    pub name: String,
    pub url: Option<String>,
}

impl Clone for FabricLibrary {
    fn clone(&self) -> (r: Self)
        ensures
            r == *self,
    {
        FabricLibrary {
            name: self.name.clone(),
            url: match &self.url {
                Some(u) => Some(u.clone()),
                None => None,
            },
        }
    }
}

/// One game version the loader is published for.
#[derive(Debug)]
pub struct FabricGameVersion {
    pub version: String,
    pub stable: bool,
}

/// The builds a stability query keeps, in order: by the loader's stable flag,
/// or all of them.
pub open spec fn spec_filter_builds(builds: Seq<FabricBuild>, stability: Stability) -> Seq<
    FabricBuild,
>
    decreases builds.len(),
{
    if builds.len() == 0 {
        Seq::empty()
    } else {
        let rest = spec_filter_builds(builds.drop_last(), stability);
        let keep = match stability {
            Stability::Stable => builds.last().loader.stable,
            Stability::Unstable => !builds.last().loader.stable,
            Stability::Both => true,
        };
        if keep {
            rest.push(builds.last())
        } else {
            rest
        }
    }
}

/// Keep the loader builds the stability query asks for, in their given order.
pub fn filter_builds_by_stability(builds: Vec<FabricBuild>, stability: Stability) -> (r: Vec<
    FabricBuild,
>)
    ensures
        r@ == spec_filter_builds(builds@, stability),
{
    let ghost orig = builds@;
    let mut rem = builds;
    let mut r: Vec<FabricBuild> = Vec::new();
    while rem.len() > 0
        invariant
            rem@.len() <= orig.len(),
            rem@ =~= orig.subrange(orig.len() - rem@.len(), orig.len() as int),
            r@ == spec_filter_builds(orig.take(orig.len() - rem@.len()), stability),
        decreases rem@.len(),
    {
        let ghost i = orig.len() - rem@.len();
        let b = rem.remove(0);
        proof {
            assert(b == orig[i as int]);
            assert(orig.take(i + 1 as int).drop_last() =~= orig.take(i as int));
            assert(orig.take(i + 1 as int).last() == orig[i as int]);
            assert(rem@ =~= orig.subrange(orig.len() - rem@.len(), orig.len() as int));
        }
        let keep = match stability {
            Stability::Stable => b.loader.stable,
            Stability::Unstable => !b.loader.stable,
            Stability::Both => true,
        };
        if keep {
            r.push(b);
        }
    }
    proof {
        assert(orig.take(orig.len() as int) =~= orig);
    }
    r
}

/// The game versions a stability query keeps, in order.
pub open spec fn spec_filter_versions(versions: Seq<FabricGameVersion>, stability: Stability) -> Seq<
    FabricGameVersion,
>
    decreases versions.len(),
{
    if versions.len() == 0 {
        Seq::empty()
    } else {
        let rest = spec_filter_versions(versions.drop_last(), stability);
        let keep = match stability {
            Stability::Stable => versions.last().stable,
            Stability::Unstable => !versions.last().stable,
            Stability::Both => true,
        };
        if keep {
            rest.push(versions.last())
        } else {
            rest
        }
    }
}

/// Keep the game versions the stability query asks for, in their given order.
pub fn filter_versions_by_stability(versions: Vec<FabricGameVersion>, stability: Stability) -> (r:
    Vec<FabricGameVersion>)
    ensures
        r@ == spec_filter_versions(versions@, stability),
{
    let ghost orig = versions@;
    let mut rem = versions;
    let mut r: Vec<FabricGameVersion> = Vec::new();
    while rem.len() > 0
        invariant
            rem@.len() <= orig.len(),
            rem@ =~= orig.subrange(orig.len() - rem@.len(), orig.len() as int),
            r@ == spec_filter_versions(orig.take(orig.len() - rem@.len()), stability),
        decreases rem@.len(),
    {
        let ghost i = orig.len() - rem@.len();
        let v = rem.remove(0);
        proof {
            assert(v == orig[i as int]);
            assert(orig.take(i + 1 as int).drop_last() =~= orig.take(i as int));
            assert(orig.take(i + 1 as int).last() == orig[i as int]);
            assert(rem@ =~= orig.subrange(orig.len() - rem@.len(), orig.len() as int));
        }
        let keep = match stability {
            Stability::Stable => v.stable,
            Stability::Unstable => !v.stable,
            Stability::Both => true,
        };
        if keep {
            r.push(v);
        }
    }
    proof {
        assert(orig.take(orig.len() as int) =~= orig);
    }
    r
}

/// The effective library list of a build: its declared client and common
/// libraries, then the loader and intermediary artifacts themselves, both
/// resolved against the fixed repository.
pub fn fabric_effective_libraries(build: &FabricBuild) -> (r: Vec<FabricLibrary>)
    ensures
        r@.len() == build.launcher_meta.libraries.client@.len()
            + build.launcher_meta.libraries.common@.len() + 2,
        r@.subrange(0, build.launcher_meta.libraries.client@.len() as int)
            == build.launcher_meta.libraries.client@,
        r@.subrange(
            build.launcher_meta.libraries.client@.len() as int,
            r@.len() - 2,
        ) == build.launcher_meta.libraries.common@,
        r@[r@.len() - 2].name == build.loader.maven,
        r@[r@.len() - 2].url matches Some(u) && u@ == "https://maven.fabricmc.net"@,
        r@[r@.len() - 1].name == build.intermediary.maven,
        r@[r@.len() - 1].url matches Some(u) && u@ == "https://maven.fabricmc.net"@,
{
    let client = &build.launcher_meta.libraries.client;
    let common = &build.launcher_meta.libraries.common;
    let mut r: Vec<FabricLibrary> = Vec::new();
    let mut i: usize = 0;
    while i < client.len()
        invariant
            0 <= i <= client@.len(),
            client@ == build.launcher_meta.libraries.client@,
            r@ =~= client@.take(i as int),
        decreases client@.len() - i,
    {
        r.push(client[i].clone());
        i = i + 1;
    }
    proof {
        assert(client@.take(client@.len() as int) =~= client@);
    }
    let mut j: usize = 0;
    while j < common.len()
        invariant
            0 <= j <= common@.len(),
            client@ == build.launcher_meta.libraries.client@,
            common@ == build.launcher_meta.libraries.common@,
            r@ =~= client@ + common@.take(j as int),
        decreases common@.len() - j,
    {
        r.push(common[j].clone());
        proof {
            assert(client@ + common@.take(j + 1 as int) =~= (client@ + common@.take(j as int)).push(
                common@[j as int],
            ));
        }
        j = j + 1;
    }
    proof {
        assert(common@.take(common@.len() as int) =~= common@);
    }
    let loader = FabricLibrary {
        name: build.loader.maven.clone(),
        url: Some(String::from_str("https://maven.fabricmc.net")),
    };
    let intermediary = FabricLibrary {
        name: build.intermediary.maven.clone(),
        url: Some(String::from_str("https://maven.fabricmc.net")),
    };
    r.push(loader);
    r.push(intermediary);
    proof {
        assert(r@.subrange(0, client@.len() as int) =~= client@);
        assert(r@.subrange(client@.len() as int, r@.len() - 2) =~= common@);
    }
    r
}

/// Where a library coordinate lives under a maven repository and under the
/// local library root.
#[derive(Debug)]
pub struct FabricLibraryPlan {
    /// The artifact's jar, under the repository.
    pub jar_url: String,
    /// The sidecar text file holding the jar's expected digest.
    pub sha1_url: String,
    /// The local directory the jar is placed in.
    pub dir: String,
    /// The jar's file name.
    pub file_name: String,
}

/// The maven directory of a coordinate under `base`:
/// `base/group/path/id/version`.
pub open spec fn spec_maven_dir(c: MavenCoordinate, base: Seq<char>) -> Seq<char> {
    base + "/"@ + spec_dots_to_slashes(c.group@) + c.id@ + "/"@ + c.version@
}

/// The jar name of a coordinate: `id-version.jar`.
pub open spec fn spec_jar_name(c: MavenCoordinate) -> Seq<char> {
    c.id@ + "-"@ + c.version@ + ".jar"@
}

/// Derive, for one coordinate, where its jar and digest sidecar live under
/// `base_url`, and where the jar is placed under `lib_root`.
pub fn coordinate_paths(c: &MavenCoordinate, base_url: &String, lib_root: &String) -> (plan:
    FabricLibraryPlan)
    ensures
        plan.jar_url@ == spec_maven_dir(*c, base_url@) + "/"@ + spec_jar_name(*c),
        plan.sha1_url@ == spec_maven_dir(*c, base_url@) + "/"@ + spec_jar_name(*c) + ".sha1"@,
        plan.dir@ == spec_maven_dir(*c, lib_root@),
        plan.file_name@ == spec_jar_name(*c),
{
    let slashed = dots_to_slashes(&c.group);

    let mut file_name = c.id.clone();
    file_name.append("-");
    file_name.append(c.version.as_str());
    file_name.append(".jar");

    let mut jar_url = base_url.clone();
    jar_url.append("/");
    jar_url.append(slashed.as_str());
    jar_url.append(c.id.as_str());
    jar_url.append("/");
    jar_url.append(c.version.as_str());
    jar_url.append("/");
    jar_url.append(file_name.as_str());

    let mut sha1_url = jar_url.clone();
    sha1_url.append(".sha1");

    let mut dir = lib_root.clone();
    dir.append("/");
    dir.append(slashed.as_str());
    dir.append(c.id.as_str());
    dir.append("/");
    dir.append(c.version.as_str());

    let plan = FabricLibraryPlan { jar_url, sha1_url, dir, file_name };
    proof {
        assert(plan.file_name@ =~= spec_jar_name(*c));
        assert(plan.jar_url@ =~= spec_maven_dir(*c, base_url@) + "/"@ + spec_jar_name(*c));
        assert(plan.sha1_url@ =~= spec_maven_dir(*c, base_url@) + "/"@ + spec_jar_name(*c)
            + ".sha1"@);
        assert(plan.dir@ =~= spec_maven_dir(*c, lib_root@));
    }
    plan
}

} // verus!
