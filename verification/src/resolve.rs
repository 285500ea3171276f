use vstd::prelude::*;

use crate::errors::InstallError;
use crate::mc_data::{Artifact, Library, MojangVersionData};
use crate::rules::{evaluate_rules, select_classifier, spec_classifier_of, spec_evaluate_rules};
use crate::sync::{SyncTask, TaskSpec};

verus! {

/// One entry of the asset-index document: a logical name and the hash and
/// size of its content.
#[derive(Debug)]
pub struct AssetObject {
    pub name: String,
    pub hash: String,
    pub size: u32,
}

/// The task for one asset-index entry: the object is fetched from and stored
/// under a fan-out directory named by the first two characters of its hash.
pub open spec fn spec_asset_object_task(hash: Seq<char>) -> TaskSpec {
    TaskSpec {
        url: "https://resources.download.minecraft.net/"@ + hash.subrange(0, 2) + "/"@ + hash,
        sha1: hash,
        dir: "./assets/objects/"@ + hash.subrange(0, 2),
        name: hash,
    }
}

/// Build the download task for one asset-index entry. A hash shorter than the
/// two fan-out characters is malformed.
pub fn asset_object_task(hash: &String) -> (r: Result<SyncTask, InstallError>)
    ensures
        r is Ok <==> hash@.len() >= 2,
        r matches Ok(t) ==> t@ == spec_asset_object_task(hash@),
        r matches Err(e) ==> e == InstallError::ParseError,
{
    let hs = hash.as_str();
    if hs.unicode_len() < 2 {
        return Err(InstallError::ParseError);
    }
    let prefix = hs.substring_char(0, 2);
    let mut url = String::from_str("https://resources.download.minecraft.net/");
    url.append(prefix);
    url.append("/");
    url.append(hs);
    let mut dir = String::from_str("./assets/objects/");
    dir.append(prefix);
    let t = SyncTask { url, sha1: hash.clone(), dir, name: hash.clone() };
    proof {
        assert(t@.url =~= spec_asset_object_task(hash@).url);
        assert(t@.dir =~= spec_asset_object_task(hash@).dir);
    }
    Ok(t)
}

/// The fixed task for the client binary, placed as `client.jar` in the
/// instance directory.
pub open spec fn spec_client_task(version: MojangVersionData, instance_dir: Seq<char>) -> TaskSpec {
    TaskSpec {
        url: version.downloads.client.url@,
        sha1: version.downloads.client.sha1@,
        dir: instance_dir,
        name: "client.jar"@,
    }
}

/// Build the task for the version's client binary.
pub fn client_task(version: &MojangVersionData, instance_dir: &String) -> (t: SyncTask)
    ensures
        t@ == spec_client_task(*version, instance_dir@),
{
    SyncTask {
        url: version.downloads.client.url.clone(),
        sha1: version.downloads.client.sha1.clone(),
        dir: instance_dir.clone(),
        name: String::from_str("client.jar"),
    }
}

/// The fixed task for the logging configuration, placed as `client.xml` in
/// the instance directory.
pub open spec fn spec_logging_task(version: MojangVersionData, instance_dir: Seq<char>) -> TaskSpec {
    TaskSpec {
        url: version.logging.client.file.url@,
        sha1: version.logging.client.file.sha1@,
        dir: instance_dir,
        name: "client.xml"@,
    }
}

/// Build the task for the version's logging configuration file.
pub fn logging_task(version: &MojangVersionData, instance_dir: &String) -> (t: SyncTask)
    ensures
        t@ == spec_logging_task(*version, instance_dir@),
{
    SyncTask {
        url: version.logging.client.file.url.clone(),
        sha1: version.logging.client.file.sha1.clone(),
        dir: instance_dir.clone(),
        name: String::from_str("client.xml"),
    }
}

/// The task for the asset-index document itself, checked against its own
/// digest before its entries are trusted.
pub open spec fn spec_asset_index_task(version: MojangVersionData) -> TaskSpec {
    TaskSpec {
        url: version.asset_index.url@,
        sha1: version.asset_index.sha1@,
        dir: "./assets/indexes"@,
        name: version.assets@ + ".json"@,
    }
}

/// Build the task for the version's asset-index document.
pub fn asset_index_task(version: &MojangVersionData) -> (t: SyncTask)
    ensures
        t@ == spec_asset_index_task(*version),
{
    let mut name = version.assets.clone();
    name.append(".json");
    SyncTask {
        url: version.asset_index.url.clone(),
        sha1: version.asset_index.sha1.clone(),
        dir: String::from_str("./assets/indexes"),
        name,
    }
}

/// Split a relative path at its last `/` into the directory part and the
/// file name; a path without `/` is all file name.
pub open spec fn spec_rsplit_slash(p: Seq<char>) -> (Seq<char>, Seq<char>)
    decreases p.len(),
{
    if p.len() == 0 {
        (Seq::empty(), Seq::empty())
    } else if p.last() == '/' {
        (p.drop_last(), Seq::empty())
    } else {
        let (d, f) = spec_rsplit_slash(p.drop_last());
        (d, f.push(p.last()))
    }
}

proof fn lemma_rsplit_at(p: Seq<char>, k: int)
    requires
        0 <= k < p.len(),
        p[k] == '/',
        forall|j: int| k < j < p.len() ==> p[j] != '/',
    ensures
        spec_rsplit_slash(p).0 == p.subrange(0, k),
        spec_rsplit_slash(p).1 == p.subrange(k + 1, p.len() as int),
    decreases p.len(),
{
    if k == p.len() - 1 {
        assert(p.last() == '/');
        assert(p.drop_last() =~= p.subrange(0, k));
        assert(p.subrange(k + 1, p.len() as int) =~= Seq::<char>::empty());
    } else {
        assert(p.last() != '/');
        lemma_rsplit_at(p.drop_last(), k);
        assert(p.drop_last().subrange(0, k) =~= p.subrange(0, k));
        assert(p.drop_last().subrange(k + 1, p.len() - 1).push(p.last()) =~= p.subrange(
            k + 1,
            p.len() as int,
        ));
    }
}

proof fn lemma_rsplit_none(p: Seq<char>)
    requires
        forall|j: int| 0 <= j < p.len() ==> p[j] != '/',
    ensures
        spec_rsplit_slash(p).0 == Seq::<char>::empty(),
        spec_rsplit_slash(p).1 == p,
    decreases p.len(),
{
    if p.len() == 0 {
        assert(p =~= Seq::<char>::empty());
    } else {
        lemma_rsplit_none(p.drop_last());
        assert(p.drop_last().push(p.last()) =~= p);
    }
}

/// Split a path at its last `/`, exactly as `spec_rsplit_slash` says.
pub fn rsplit_slash(p: &String) -> (r: (String, String))
    ensures
        r.0@ == spec_rsplit_slash(p@).0,
        r.1@ == spec_rsplit_slash(p@).1,
{
    let ps = p.as_str();
    let n = ps.unicode_len();
    let mut j: usize = n;
    while j > 0
        invariant
            0 <= j <= n,
            n == p@.len(),
            ps@ == p@,
            forall|m: int| j <= m < n ==> p@[m] != '/',
        decreases j,
    {
        if ps.get_char(j - 1) == '/' {
            let d = ps.substring_char(0, j - 1);
            let f = ps.substring_char(j, n);
            proof {
                lemma_rsplit_at(p@, j - 1);
            }
            return (String::from_str(d), String::from_str(f));
        }
        j = j - 1;
    }
    proof {
        lemma_rsplit_none(p@);
    }
    (String::new(), String::from_str(ps))
}

/// The task for a library artifact: fetched from the artifact's URL and
/// placed under the library root along its declared relative path.
pub open spec fn spec_library_task(a: Artifact, lib_root: Seq<char>) -> TaskSpec {
    let p = a.path->Some_0@;
    let d = spec_rsplit_slash(p).0;
    let f = spec_rsplit_slash(p).1;
    TaskSpec {
        url: a.url@,
        sha1: a.sha1@,
        dir: if d.len() == 0 {
            lib_root
        } else {
            lib_root + "/"@ + d
        },
        name: f,
    }
}

/// A library artifact yields a task only when it declares a destination path
/// with a non-empty file name.
pub open spec fn spec_library_task_ok(a: Artifact) -> bool {
    a.path matches Some(p) && spec_rsplit_slash(p@).1.len() > 0
}

/// Build the download task for one library artifact.
pub fn library_task(a: &Artifact, lib_root: &String) -> (r: Result<SyncTask, InstallError>)
    ensures
        r is Ok <==> spec_library_task_ok(*a),
        r matches Ok(t) ==> t@ == spec_library_task(*a, lib_root@),
        r matches Err(e) ==> e == InstallError::ParseError,
{
    match &a.path {
        None => Err(InstallError::ParseError),
        Some(p) => {
            let (d, f) = rsplit_slash(p);
            if f.as_str().unicode_len() == 0 {
                return Err(InstallError::ParseError);
            }
            let dir = if d.as_str().unicode_len() == 0 {
                lib_root.clone()
            } else {
                let mut dd = lib_root.clone();
                dd.append("/");
                dd.append(d.as_str());
                dd
            };
            let t = SyncTask { url: a.url.clone(), sha1: a.sha1.clone(), dir, name: f };
            proof {
                assert(t@.dir =~= spec_library_task(*a, lib_root@).dir);
            }
            Ok(t)
        },
    }
}

/// The artifacts of the libraries whose rules keep them on this platform, in
/// document order.
pub open spec fn spec_lib_artifacts(libs: Seq<Library>, os_name: Seq<char>, arch: Seq<char>) -> Seq<
    Artifact,
>
    decreases libs.len(),
{
    if libs.len() == 0 {
        Seq::empty()
    } else {
        let rest = spec_lib_artifacts(libs.drop_last(), os_name, arch);
        let l = libs.last();
        if spec_evaluate_rules(l.rules, os_name, arch) && l.downloads.artifact is Some {
            rest.push(l.downloads.artifact->Some_0)
        } else {
            rest
        }
    }
}

/// The platform-native classifier artifacts of the kept libraries, in
/// document order.
pub open spec fn spec_lib_natives(libs: Seq<Library>, os_name: Seq<char>, arch: Seq<char>) -> Seq<
    Artifact,
>
    decreases libs.len(),
{
    if libs.len() == 0 {
        Seq::empty()
    } else {
        let rest = spec_lib_natives(libs.drop_last(), os_name, arch);
        let l = libs.last();
        if spec_evaluate_rules(l.rules, os_name, arch) && (l.downloads.classifiers matches Some(c)
            && spec_classifier_of(c, os_name) is Some) {
            rest.push(spec_classifier_of(l.downloads.classifiers->Some_0, os_name)->Some_0)
        } else {
            rest
        }
    }
}

/// Walk the version's library list and return the artifacts to install: the
/// main artifacts of the kept libraries, and separately their platform-native
/// classifier artifacts.
pub fn get_needed_libraries(version: &MojangVersionData, os_name: &String, arch: &String) -> (r: (
    Vec<Artifact>,
    Vec<Artifact>,
))
    ensures
        r.0@ == spec_lib_artifacts(version.libraries@, os_name@, arch@),
        r.1@ == spec_lib_natives(version.libraries@, os_name@, arch@),
{
    let mut libs: Vec<Artifact> = Vec::new();
    let mut nats: Vec<Artifact> = Vec::new();
    let mut i: usize = 0;
    while i < version.libraries.len()
        invariant
            0 <= i <= version.libraries@.len(),
            libs@ == spec_lib_artifacts(version.libraries@.take(i as int), os_name@, arch@),
            nats@ == spec_lib_natives(version.libraries@.take(i as int), os_name@, arch@),
        decreases version.libraries@.len() - i,
    {
        let lib = &version.libraries[i];
        let keep = evaluate_rules(&lib.rules, os_name, arch);
        if keep {
            match &lib.downloads.artifact {
                Some(a) => libs.push(a.clone()),
                None => {},
            }
            match &lib.downloads.classifiers {
                Some(c) => match select_classifier(c, os_name) {
                    Some(a) => nats.push(a),
                    None => {},
                },
                None => {},
            }
        }
        proof {
            let pre = version.libraries@.take(i as int);
            let post = version.libraries@.take(i + 1 as int);
            assert(post.drop_last() =~= pre);
            assert(post.last() == version.libraries@[i as int]);
        }
        i = i + 1;
    }
    proof {
        assert(version.libraries@.take(version.libraries@.len() as int) =~= version.libraries@);
    }
    (libs, nats)
}

/// The views of a task list.
pub open spec fn spec_task_views(tasks: Seq<SyncTask>) -> Seq<TaskSpec> {
    tasks.map_values(|t: SyncTask| t@)
}

/// Every asset hash carries at least the two fan-out characters.
pub open spec fn spec_assets_ok(objects: Seq<AssetObject>) -> bool {
    forall|i: int| 0 <= i < objects.len() ==> (#[trigger] objects[i]).hash@.len() >= 2
}

/// The asset-store tasks of an index's entries, in order.
pub open spec fn spec_asset_tasks(objects: Seq<AssetObject>) -> Seq<TaskSpec>
    decreases objects.len(),
{
    if objects.len() == 0 {
        Seq::empty()
    } else {
        spec_asset_tasks(objects.drop_last()).push(spec_asset_object_task(objects.last().hash@))
    }
}

/// Every artifact declares a destination path with a non-empty file name.
pub open spec fn spec_artifacts_ok(arts: Seq<Artifact>) -> bool {
    forall|i: int| 0 <= i < arts.len() ==> spec_library_task_ok(#[trigger] arts[i])
}

/// The library tasks of an artifact list, in order.
pub open spec fn spec_artifact_tasks(arts: Seq<Artifact>, lib_root: Seq<char>) -> Seq<TaskSpec>
    decreases arts.len(),
{
    if arts.len() == 0 {
        Seq::empty()
    } else {
        spec_artifact_tasks(arts.drop_last(), lib_root).push(spec_library_task(arts.last(), lib_root))
    }
}

/// The complete task list of an installation run: the client binary, the
/// logging configuration, the kept libraries, their platform natives, and
/// every asset object.
pub open spec fn spec_resolved_tasks(
    version: MojangVersionData,
    objects: Seq<AssetObject>,
    os_name: Seq<char>,
    arch: Seq<char>,
    instance_dir: Seq<char>,
) -> Seq<TaskSpec> {
    seq![spec_client_task(version, instance_dir), spec_logging_task(version, instance_dir)]
        + spec_artifact_tasks(spec_lib_artifacts(version.libraries@, os_name, arch), "./libraries"@)
        + spec_artifact_tasks(spec_lib_natives(version.libraries@, os_name, arch), "./libraries"@)
        + spec_asset_tasks(objects)
}

/// Resolve a version document and its asset index to the concrete download
/// task list, or reject a malformed document.
pub fn resolve_tasks(
    version: &MojangVersionData,
    objects: &Vec<AssetObject>,
    os_name: &String,
    arch: &String,
    instance_dir: &String,
) -> (r: Result<Vec<SyncTask>, InstallError>)
    ensures
        r is Ok <==> spec_assets_ok(objects@) && spec_artifacts_ok(
            spec_lib_artifacts(version.libraries@, os_name@, arch@),
        ) && spec_artifacts_ok(spec_lib_natives(version.libraries@, os_name@, arch@)),
        r matches Ok(ts) ==> spec_task_views(ts@) == spec_resolved_tasks(
            *version,
            objects@,
            os_name@,
            arch@,
            instance_dir@,
        ),
        r matches Err(e) ==> e == InstallError::ParseError,
{
    let lib_root = String::from_str("./libraries");
    let (lib_arts, nat_arts) = get_needed_libraries(version, os_name, arch);
    let mut tasks: Vec<SyncTask> = Vec::new();

    tasks.push(client_task(version, instance_dir));
    tasks.push(logging_task(version, instance_dir));
    proof {
        assert(spec_task_views(tasks@) =~= seq![
            spec_client_task(*version, instance_dir@),
            spec_logging_task(*version, instance_dir@),
        ]);
    }
    let ghost head = spec_task_views(tasks@);
    proof {
        assert(lib_arts@.take(0) =~= Seq::<Artifact>::empty());
        assert(head + spec_artifact_tasks(lib_arts@.take(0), "./libraries"@) =~= head);
    }

    let mut i: usize = 0;
    while i < lib_arts.len()
        invariant
            0 <= i <= lib_arts@.len(),
            lib_arts@ == spec_lib_artifacts(version.libraries@, os_name@, arch@),
            spec_artifacts_ok(lib_arts@.take(i as int)),
            spec_task_views(tasks@) == head + spec_artifact_tasks(
                lib_arts@.take(i as int),
                "./libraries"@,
            ),
            lib_root@ == "./libraries"@,
        decreases lib_arts@.len() - i,
    {
        match library_task(&lib_arts[i], &lib_root) {
            Ok(t) => {
                proof {
                    assert(lib_arts@.take(i + 1 as int).drop_last() =~= lib_arts@.take(i as int));
                    assert(lib_arts@.take(i + 1 as int).last() == lib_arts@[i as int]);
                }
                let ghost pre = tasks@;
                tasks.push(t);
                proof {
                    assert(spec_task_views(tasks@) =~= spec_task_views(pre).push(t@));
                    assert(spec_artifact_tasks(lib_arts@.take(i + 1 as int), "./libraries"@)
                        == spec_artifact_tasks(lib_arts@.take(i as int), "./libraries"@).push(
                        spec_library_task(lib_arts@[i as int], "./libraries"@),
                    ));
                    assert(head + spec_artifact_tasks(lib_arts@.take(i + 1 as int), "./libraries"@)
                        =~= (head + spec_artifact_tasks(lib_arts@.take(i as int), "./libraries"@)).push(
                        spec_library_task(lib_arts@[i as int], "./libraries"@),
                    ));
                }
            },
            Err(e) => {
                proof {
                    assert(!spec_artifacts_ok(lib_arts@));
                }
                return Err(e);
            },
        }
        i = i + 1;
    }
    proof {
        assert(lib_arts@.take(lib_arts@.len() as int) =~= lib_arts@);
    }
    let ghost head2 = spec_task_views(tasks@);
    proof {
        assert(nat_arts@.take(0) =~= Seq::<Artifact>::empty());
        assert(head2 + spec_artifact_tasks(nat_arts@.take(0), "./libraries"@) =~= head2);
    }

    let mut j: usize = 0;
    while j < nat_arts.len()
        invariant
            0 <= j <= nat_arts@.len(),
            lib_arts@ == spec_lib_artifacts(version.libraries@, os_name@, arch@),
            nat_arts@ == spec_lib_natives(version.libraries@, os_name@, arch@),
            spec_artifacts_ok(lib_arts@),
            spec_artifacts_ok(nat_arts@.take(j as int)),
            spec_task_views(tasks@) == head2 + spec_artifact_tasks(
                nat_arts@.take(j as int),
                "./libraries"@,
            ),
            head2 == head + spec_artifact_tasks(lib_arts@, "./libraries"@),
            lib_root@ == "./libraries"@,
        decreases nat_arts@.len() - j,
    {
        match library_task(&nat_arts[j], &lib_root) {
            Ok(t) => {
                proof {
                    assert(nat_arts@.take(j + 1 as int).drop_last() =~= nat_arts@.take(j as int));
                    assert(nat_arts@.take(j + 1 as int).last() == nat_arts@[j as int]);
                }
                let ghost pre = tasks@;
                tasks.push(t);
                proof {
                    assert(spec_task_views(tasks@) =~= spec_task_views(pre).push(t@));
                    assert(spec_artifact_tasks(nat_arts@.take(j + 1 as int), "./libraries"@)
                        == spec_artifact_tasks(nat_arts@.take(j as int), "./libraries"@).push(
                        spec_library_task(nat_arts@[j as int], "./libraries"@),
                    ));
                    assert(head2 + spec_artifact_tasks(nat_arts@.take(j + 1 as int), "./libraries"@)
                        =~= (head2 + spec_artifact_tasks(nat_arts@.take(j as int), "./libraries"@)).push(
                        spec_library_task(nat_arts@[j as int], "./libraries"@),
                    ));
                }
            },
            Err(e) => {
                proof {
                    assert(!spec_artifacts_ok(nat_arts@));
                }
                return Err(e);
            },
        }
        j = j + 1;
    }
    proof {
        assert(nat_arts@.take(nat_arts@.len() as int) =~= nat_arts@);
    }
    let ghost head3 = spec_task_views(tasks@);
    proof {
        assert(objects@.take(0) =~= Seq::<AssetObject>::empty());
        assert(head3 + spec_asset_tasks(objects@.take(0)) =~= head3);
    }

    let mut k: usize = 0;
    while k < objects.len()
        invariant
            0 <= k <= objects@.len(),
            spec_assets_ok(objects@.take(k as int)),
            spec_task_views(tasks@) == head3 + spec_asset_tasks(objects@.take(k as int)),
            lib_arts@ == spec_lib_artifacts(version.libraries@, os_name@, arch@),
            nat_arts@ == spec_lib_natives(version.libraries@, os_name@, arch@),
            spec_artifacts_ok(lib_arts@),
            spec_artifacts_ok(nat_arts@),
            head3 == head + spec_artifact_tasks(lib_arts@, "./libraries"@)
                + spec_artifact_tasks(nat_arts@, "./libraries"@),
        decreases objects@.len() - k,
    {
        match asset_object_task(&objects[k].hash) {
            Ok(t) => {
                proof {
                    assert(objects@.take(k + 1 as int).drop_last() =~= objects@.take(k as int));
                    assert(objects@.take(k + 1 as int).last() == objects@[k as int]);
                }
                let ghost pre = tasks@;
                tasks.push(t);
                proof {
                    assert(spec_task_views(tasks@) =~= spec_task_views(pre).push(t@));
                    assert(spec_asset_tasks(objects@.take(k + 1 as int)) == spec_asset_tasks(
                        objects@.take(k as int),
                    ).push(spec_asset_object_task(objects@[k as int].hash@)));
                    assert(head3 + spec_asset_tasks(objects@.take(k + 1 as int)) =~= (head3
                        + spec_asset_tasks(objects@.take(k as int))).push(
                        spec_asset_object_task(objects@[k as int].hash@),
                    ));
                }
            },
            Err(e) => {
                proof {
                    assert(!spec_assets_ok(objects@));
                }
                return Err(e);
            },
        }
        k = k + 1;
    }
    proof {
        assert(objects@.take(objects@.len() as int) =~= objects@);
        assert(spec_task_views(tasks@) =~= spec_resolved_tasks(
            *version,
            objects@,
            os_name@,
            arch@,
            instance_dir@,
        ));
    }
    Ok(tasks)
}

/// Two tasks conflict when they target the same destination with different
/// expected digests: the mark of a malformed version document.
pub open spec fn spec_tasks_conflict(a: TaskSpec, b: TaskSpec) -> bool {
    a.dir == b.dir && a.name == b.name && a.sha1 != b.sha1
}

/// Look for a pair of tasks that target one destination with two different
/// digests; `None` means destinations are consistent and a parallel dispatch
/// cannot race two different contents into one file.
pub fn find_dest_conflict(tasks: &Vec<SyncTask>) -> (r: Option<(usize, usize)>)
    ensures
        r matches Some(p) ==> p.0 < p.1 < tasks@.len() && spec_tasks_conflict(
            tasks@[p.0 as int]@,
            tasks@[p.1 as int]@,
        ),
        r is None ==> forall|i: int, j: int|
            0 <= i < j < tasks@.len() ==> !spec_tasks_conflict(
                (#[trigger] tasks@[i])@,
                (#[trigger] tasks@[j])@,
            ),
{
    let n = tasks.len();
    let mut i: usize = 0;
    while i < n
        invariant
            0 <= i <= n,
            n == tasks@.len(),
            forall|a: int, b: int|
                0 <= a < b < tasks@.len() && a < i ==> !spec_tasks_conflict(
                    (#[trigger] tasks@[a])@,
                    (#[trigger] tasks@[b])@,
                ),
        decreases n - i,
    {
        let mut j: usize = i + 1;
        while j < n
            invariant
                0 <= i < j <= n,
                n == tasks@.len(),
                forall|b: int|
                    i < b < j ==> !spec_tasks_conflict(tasks@[i as int]@, (#[trigger] tasks@[b])@),
            decreases n - j,
        {
            let same_dest = tasks[i].dir == tasks[j].dir && tasks[i].name == tasks[j].name;
            if same_dest && !(tasks[i].sha1 == tasks[j].sha1) {
                return Some((i, j));
            }
            j = j + 1;
        }
        i = i + 1;
    }
    None
}

} // verus!
