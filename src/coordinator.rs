//! The coordinator's messages as plain values, and what the worker makes of
//! them: platforms from the catalog, projects assembled from project
//! binaries, assignments bound to their project, and the result report.
use vstd::prelude::*;

use std::collections::HashMap;

use crate::assignment::{Assignment, AssignmentResult, AssignmentView};
use crate::checksum::{lemma_sha256_literal, sha256_checksum, Checksum};
use crate::download::{Download, DownloadView};
use crate::platform::{platform_map_view, Platform, PlatformView};
use crate::project::{Project, ProjectPlatform, ProjectPlatformView, ProjectView};
use crate::worker::projects_view;

verus! {

broadcast use vstd::std_specs::hash::group_hash_axioms;

/// A binary as the coordinator describes it: its SHA-256 checksum in
/// hexadecimal and where to download it.
#[derive(Clone, Debug)]
pub struct BinaryInfo {
    pub id: i64,
    pub checksum: String,
    pub download_url: String,
}

/// One entry of the platform catalog.
#[derive(Clone, Debug)]
pub struct PlatformInfo {
    pub id: i64,
    pub name: String,
    pub detector_binary: BinaryInfo,
}

/// The request for the projects compatible with the validated platforms.
#[derive(Clone, Debug)]
pub struct GetProjectsForPlatformsRequest {
    pub platform_ids: Vec<i64>,
}

/// A project as the coordinator names it.
#[derive(Clone, Debug)]
pub struct ProjectInfo {
    pub id: i64,
    pub name: String,
}

/// That a project runs on a platform through a binary, with a priority.
#[derive(Clone, Debug)]
pub struct ProjectBinary {
    pub id: i64,
    pub priority: i32,
    pub platform_id: i64,
    pub binary: BinaryInfo,
    pub project: ProjectInfo,
}

/// The coordinator's answer on compatible projects.
#[derive(Clone, Debug)]
pub struct GetProjectsForPlatformsResponse {
    pub project_ids: Vec<i32>,
    pub project_binaries: Vec<ProjectBinary>,
}

/// The request for at most `task_count` tasks per listed project.
#[derive(Clone, Debug)]
pub struct RetrieveTaskOfProjectsRequest {
    pub project_ids: Vec<i64>,
    pub task_count: i32,
}

/// A task as the coordinator hands it out.
#[derive(Clone, Debug)]
pub struct TaskInfo {
    pub id: i64,
    pub group_id: i64,
    pub project_id: i64,
    pub input_data: String,
}

/// One assignment of a task to this worker.
#[derive(Clone, Debug)]
pub struct AssignmentInfo {
    pub id: i64,
    pub task: TaskInfo,
}

/// The coordinator's answer to a poll.
#[derive(Clone, Debug)]
pub struct RetrieveTaskOfProjectsResponse {
    pub assignments: Vec<AssignmentInfo>,
}

/// The report of one executed assignment.
#[derive(Clone, Debug)]
pub struct SubmitResultRequest {
    pub execution_time: u128,
    pub assignment_id: i64,
    pub std_err: String,
    pub std_out: String,
    pub exit_code: i64,
}

/// The coordinator's acknowledgement of a report.
#[derive(Clone, Debug)]
pub struct SubmitResultResponse {
    pub id: i64,
}

/// Why the coordinator's answers could not be turned into the model.
#[derive(Clone, Copy, Debug, PartialEq, Eq, Structural)]
pub enum CatalogError {
    /// A project binary names a platform outside the validated set.
    UnknownPlatform(i64),
    /// An assignment names a project outside the worker's project list.
    UnknownProject(i64),
}

impl BinaryInfo {
    /// The download that this binary stands for: its URL, with its one
    /// SHA-256 checksum.
    pub open spec fn download_view(self) -> DownloadView {
        DownloadView { url: self.download_url@, checksums: seq![sha256_checksum(self.checksum@)] }
    }

    pub fn as_download(&self) -> (r: Download)
        ensures
            r@ == self.download_view(),
    {
        let mut checksums: Vec<Checksum> = Vec::new();
        let c = Checksum::new("sha256", self.checksum.as_str());
        proof {
            lemma_sha256_literal();
            assert(c@ =~= sha256_checksum(self.checksum@));
        }
        checksums.push(c);
        let r = Download::new(self.download_url.as_str(), checksums);
        assert(r@.checksums =~= seq![sha256_checksum(self.checksum@)]);
        r
    }
}

impl PlatformInfo {
    /// The platform that this catalog entry describes.
    pub open spec fn platform_view(self) -> PlatformView {
        PlatformView {
            id: self.id,
            name: self.name@,
            detector: self.detector_binary.download_view(),
        }
    }
}

/// The platforms of the catalog, in its order.
pub fn platforms_from_catalog(catalog: &Vec<PlatformInfo>) -> (r: Vec<Platform>)
    ensures
        r@.len() == catalog@.len(),
        forall|i: int| 0 <= i < catalog@.len() ==> #[trigger] r@[i]@ == catalog@[i].platform_view(),
{
    let mut platforms: Vec<Platform> = Vec::new();
    let mut i: usize = 0;
    while i < catalog.len()
        invariant
            i <= catalog@.len(),
            platforms@.len() == i,
            forall|k: int| 0 <= k < i ==> #[trigger] platforms@[k]@ == catalog@[k].platform_view(),
        decreases catalog.len() - i,
    {
        let info = &catalog[i];
        platforms.push(
            Platform::new(info.id, info.name.as_str(), info.detector_binary.as_download()),
        );
        i = i + 1;
    }
    platforms
}

/// The binary entry that a project binary adds to its project.
pub open spec fn binary_entry(b: ProjectBinary, platforms: Map<i64, PlatformView>) -> ProjectPlatformView {
    ProjectPlatformView {
        platform: platforms[b.platform_id],
        binary: b.binary.download_view(),
        priority: b.priority,
    }
}

/// The projects built from a list of project binaries, keyed by project
/// identifier: one project per identifier, named at its first binary, with
/// one entry per platform, a later binary for the same platform replacing
/// an earlier one.
pub open spec fn assembled(bins: Seq<ProjectBinary>, platforms: Map<i64, PlatformView>) -> Map<
    i64,
    ProjectView,
>
    decreases bins.len(),
{
    if bins.len() == 0 {
        Map::empty()
    } else {
        let before = assembled(bins.drop_last(), platforms);
        let b = bins.last();
        let project = if before.contains_key(b.project.id) {
            before[b.project.id]
        } else {
            ProjectView { id: b.project.id, name: b.project.name@, platforms: Map::empty() }
        };
        before.insert(b.project.id, project.with_platform(binary_entry(b, platforms)))
    }
}

/// `list` holds the projects of `m` in ascending order of identifier,
/// each once.
pub open spec fn lists_in_order(list: Seq<ProjectView>, m: Map<i64, ProjectView>) -> bool {
    &&& forall|i: int, j: int| 0 <= i < j < list.len() ==> list[i].id < list[j].id
    &&& forall|i: int|
        0 <= i < list.len() ==> m.contains_key(#[trigger] list[i].id) && m[list[i].id] == list[i]
    &&& forall|k: i64| #[trigger] m.contains_key(k) ==> exists|i: int| 0 <= i < list.len() && list[i].id == k
}

proof fn lemma_lists_update(list: Seq<ProjectView>, m: Map<i64, ProjectView>, pos: int, p: ProjectView)
    requires
        lists_in_order(list, m),
        0 <= pos < list.len(),
        list[pos].id == p.id,
    ensures
        lists_in_order(list.update(pos, p), m.insert(p.id, p)),
{
    let l2 = list.update(pos, p);
    let m2 = m.insert(p.id, p);
    assert forall|i: int| 0 <= i < l2.len() implies m2.contains_key(#[trigger] l2[i].id) && m2[l2[i].id]
        == l2[i] by {
        if i != pos {
            assert(list[i].id != p.id);
        }
    }
    assert forall|k: i64| #[trigger] m2.contains_key(k) implies exists|i: int|
        0 <= i < l2.len() && l2[i].id == k by {
        if k == p.id {
            assert(l2[pos].id == k);
        } else {
            let i = choose|i: int| 0 <= i < list.len() && list[i].id == k;
            assert(l2[i].id == k);
        }
    }
}

proof fn lemma_lists_insert(list: Seq<ProjectView>, m: Map<i64, ProjectView>, pos: int, p: ProjectView)
    requires
        lists_in_order(list, m),
        0 <= pos <= list.len(),
        forall|j: int| 0 <= j < pos ==> list[j].id < p.id,
        pos < list.len() ==> list[pos].id > p.id,
    ensures
        lists_in_order(list.insert(pos, p), m.insert(p.id, p)),
        !m.contains_key(p.id),
{
    let l2 = list.insert(pos, p);
    let m2 = m.insert(p.id, p);
    assert forall|i: int, j: int| 0 <= i < j < l2.len() implies l2[i].id < l2[j].id by {
        if j > pos {
            assert(list[pos].id > p.id);
        }
    }
    assert forall|i: int| 0 <= i < l2.len() implies m2.contains_key(#[trigger] l2[i].id) && m2[l2[i].id]
        == l2[i] by {
        if i < pos {
            assert(l2[i] == list[i]);
        } else if i > pos {
            assert(l2[i] == list[i - 1]);
            assert(list[pos].id > p.id);
        }
    }
    if m.contains_key(p.id) {
        let i = choose|i: int| 0 <= i < list.len() && list[i].id == p.id;
        if i >= pos {
            assert(list[pos].id > p.id);
        }
    }
    assert forall|k: i64| #[trigger] m2.contains_key(k) implies exists|i: int|
        0 <= i < l2.len() && l2[i].id == k by {
        if k == p.id {
            assert(l2[pos].id == k);
        } else {
            let i = choose|i: int| 0 <= i < list.len() && list[i].id == k;
            if i < pos {
                assert(l2[i].id == k);
            } else {
                assert(l2[i + 1].id == k);
            }
        }
    }
}

/// Where a project with identifier `id` belongs in the ordered list: the
/// first position whose project has an identifier not below `id`.
fn find_slot(projects: &Vec<Project>, id: i64) -> (pos: usize)
    ensures
        pos <= projects@.len(),
        forall|j: int| 0 <= j < pos ==> #[trigger] projects_view(projects@)[j].id < id,
        pos < projects@.len() ==> projects_view(projects@)[pos as int].id >= id,
{
    let mut pos: usize = 0;
    while pos < projects.len() && projects[pos].id < id
        invariant
            pos <= projects@.len(),
            forall|j: int| 0 <= j < pos ==> #[trigger] projects_view(projects@)[j].id < id,
        decreases projects.len() - pos,
    {
        pos = pos + 1;
    }
    pos
}

/// Builds the projects from the coordinator's project binaries: one
/// project per identifier, one entry per platform, in ascending order of
/// project identifier. Fails on the first binary whose platform is not in
/// the validated set.
pub fn assemble_projects(
    platforms: &HashMap<i64, Platform>,
    binaries: &Vec<ProjectBinary>,
) -> (r: Result<Vec<Project>, CatalogError>)
    ensures
        match r {
            Ok(list) => {
                &&& forall|i: int|
                    0 <= i < binaries@.len() ==> platforms@.contains_key(
                        #[trigger] binaries@[i].platform_id,
                    )
                &&& lists_in_order(
                    projects_view(list@),
                    assembled(binaries@, platform_map_view(platforms@)),
                )
            },
            Err(e) => exists|i: int|
                0 <= i < binaries@.len() && e == CatalogError::UnknownPlatform(
                    binaries@[i].platform_id,
                ) && !platforms@.contains_key(binaries@[i].platform_id) && forall|j: int|
                    0 <= j < i ==> platforms@.contains_key(#[trigger] binaries@[j].platform_id),
        },
{
    let ghost pm = platform_map_view(platforms@);
    let mut list: Vec<Project> = Vec::new();
    let n = binaries.len();
    let mut i: usize = 0;
    assert(binaries@.subrange(0, 0) =~= Seq::<ProjectBinary>::empty());
    assert(projects_view(list@) =~= Seq::<ProjectView>::empty());
    while i < n
        invariant
            n == binaries@.len(),
            i <= n,
            pm == platform_map_view(platforms@),
            forall|j: int| 0 <= j < i ==> platforms@.contains_key(#[trigger] binaries@[j].platform_id),
            lists_in_order(projects_view(list@), assembled(binaries@.subrange(0, i as int), pm)),
        decreases n - i,
    {
        let b = &binaries[i];
        let ghost before = assembled(binaries@.subrange(0, i as int), pm);
        let ghost lv = projects_view(list@);
        assert(binaries@.subrange(0, i as int + 1).drop_last() =~= binaries@.subrange(0, i as int));
        assert(binaries@.subrange(0, i as int + 1).last() == *b);
        let platform = match platforms.get(&b.platform_id) {
            Some(p) => p.duplicate(),
            None => {
                return Err(CatalogError::UnknownPlatform(b.platform_id));
            },
        };
        let entry = ProjectPlatform::new(platform, b.binary.as_download(), b.priority);
        assert(entry@ == binary_entry(*b, pm));
        let pos = find_slot(&list, b.project.id);
        if pos < list.len() && list[pos].id == b.project.id {
            let mut project = list[pos].duplicate();
            assert(lv[pos as int].id == b.project.id);
            assert(before.contains_key(b.project.id) && before[b.project.id] == lv[pos as int]);
            project.add_platform(entry);
            let ghost pv = project@;
            list.set(pos, project);
            proof {
                lemma_lists_update(lv, before, pos as int, pv);
                assert(projects_view(list@) =~= lv.update(pos as int, pv));
            }
        } else {
            let mut project = Project::new(b.project.id, b.project.name.as_str());
            project.add_platform(entry);
            let ghost pv = project@;
            list.insert(pos, project);
            proof {
                lemma_lists_insert(lv, before, pos as int, pv);
                assert(projects_view(list@) =~= lv.insert(pos as int, pv));
            }
        }
        i = i + 1;
    }
    assert(binaries@.subrange(0, n as int) =~= binaries@);
    Ok(list)
}

impl RetrieveTaskOfProjectsRequest {
    /// The poll for one task of each listed project.
    pub fn for_projects(projects: &Vec<Project>) -> (r: RetrieveTaskOfProjectsRequest)
        ensures
            r.task_count == 1,
            r.project_ids@ == projects@.map_values(|p: Project| p.id),
    {
        let mut ids: Vec<i64> = Vec::new();
        let mut i: usize = 0;
        while i < projects.len()
            invariant
                i <= projects@.len(),
                ids@ == projects@.subrange(0, i as int).map_values(|p: Project| p.id),
            decreases projects.len() - i,
        {
            ids.push(projects[i].id);
            i = i + 1;
            assert(ids@ =~= projects@.subrange(0, i as int).map_values(|p: Project| p.id));
        }
        assert(projects@.subrange(0, projects@.len() as int) =~= projects@);
        RetrieveTaskOfProjectsRequest { project_ids: ids, task_count: 1 }
    }
}

/// `k` is the first position of `projects` whose identifier is `id`.
pub open spec fn first_with_id(projects: Seq<ProjectView>, id: i64, k: int) -> bool {
    0 <= k < projects.len() && projects[k].id == id && forall|j: int|
        0 <= j < k ==> #[trigger] projects[j].id != id
}

/// `a` is the assignment that `info` describes, bound to the first project
/// of `projects` with the task's project identifier.
pub open spec fn bound_to(info: AssignmentInfo, projects: Seq<ProjectView>, a: AssignmentView) -> bool {
    exists|k: int|
        #[trigger] first_with_id(projects, info.task.project_id, k) && a == (AssignmentView {
            id: info.id,
            project: projects[k],
            input_data: info.task.input_data@,
        })
}

/// Some project of `projects` has identifier `id`.
pub open spec fn has_project(projects: Seq<ProjectView>, id: i64) -> bool {
    exists|k: int| 0 <= k < projects.len() && projects[k].id == id
}

fn find_project(projects: &Vec<Project>, id: i64) -> (r: Option<usize>)
    ensures
        match r {
            Some(k) => first_with_id(projects_view(projects@), id, k as int),
            None => forall|j: int| 0 <= j < projects@.len() ==> #[trigger] projects@[j].id != id,
        },
{
    let mut k: usize = 0;
    while k < projects.len()
        invariant
            k <= projects@.len(),
            forall|j: int| 0 <= j < k ==> #[trigger] projects@[j].id != id,
        decreases projects.len() - k,
    {
        if projects[k].id == id {
            assert forall|j: int| 0 <= j < k implies #[trigger] projects_view(projects@)[j].id != id by {
                assert(projects@[j].id != id);
            }
            return Some(k);
        }
        k = k + 1;
    }
    None
}

/// Binds each handed-out task to its project: the first project of the
/// list with the task's project identifier. Fails on the first assignment
/// whose project is not in the list.
pub fn assignments_from_response(
    projects: &Vec<Project>,
    response: &RetrieveTaskOfProjectsResponse,
) -> (r: Result<Vec<Assignment>, CatalogError>)
    ensures
        ({
            let infos = response.assignments@;
            let pv = projects_view(projects@);
            match r {
                Ok(list) => {
                    &&& list@.len() == infos.len()
                    &&& forall|i: int|
                        0 <= i < infos.len() ==> bound_to(infos[i], pv, #[trigger] list@[i]@)
                },
                Err(e) => exists|i: int|
                    0 <= i < infos.len() && e == CatalogError::UnknownProject(
                        infos[i].task.project_id,
                    ) && !has_project(pv, infos[i].task.project_id) && forall|j: int|
                        0 <= j < i ==> #[trigger] has_project(pv, infos[j].task.project_id),
            }
        }),
{
    let ghost infos = response.assignments@;
    let ghost pv = projects_view(projects@);
    let ghost mut ks: Seq<int> = Seq::empty();
    let mut list: Vec<Assignment> = Vec::new();
    let n = response.assignments.len();
    let mut i: usize = 0;
    while i < n
        invariant
            n == infos.len(),
            infos == response.assignments@,
            pv == projects_view(projects@),
            i <= n,
            list@.len() == i,
            ks.len() == i,
            forall|j: int|
                0 <= j < i ==> first_with_id(pv, infos[j].task.project_id, #[trigger] ks[j])
                    && list@[j]@ == (AssignmentView {
                    id: infos[j].id,
                    project: pv[ks[j]],
                    input_data: infos[j].task.input_data@,
                }),
        decreases n - i,
    {
        let info = &response.assignments[i];
        match find_project(projects, info.task.project_id) {
            Some(k) => {
                let a = Assignment::new(
                    info.id,
                    projects[k].duplicate(),
                    info.task.input_data.clone(),
                );
                list.push(a);
                proof {
                    ks = ks.push(k as int);
                }
            },
            None => {
                assert forall|j: int| 0 <= j < i implies #[trigger] has_project(
                    pv,
                    infos[j].task.project_id,
                ) by {
                    assert(first_with_id(pv, infos[j].task.project_id, ks[j]));
                }
                assert(!has_project(pv, infos[i as int].task.project_id)) by {
                    if has_project(pv, infos[i as int].task.project_id) {
                        let k = choose|k: int|
                            0 <= k < pv.len() && pv[k].id == infos[i as int].task.project_id;
                        assert(projects@[k].id == info.task.project_id);
                    }
                }
                return Err(CatalogError::UnknownProject(info.task.project_id));
            },
        }
        i = i + 1;
    }
    assert forall|j: int| 0 <= j < infos.len() implies bound_to(infos[j], pv, #[trigger] list@[j]@) by {
        assert(first_with_id(pv, infos[j].task.project_id, ks[j]));
    }
    Ok(list)
}

impl SubmitResultRequest {
    /// The report of a result: its assignment, streams, exit code and
    /// duration.
    pub fn for_result(result: &AssignmentResult) -> (r: SubmitResultRequest)
        ensures
            r.execution_time == result.execution_time,
            r.assignment_id == result.id,
            r.std_err == result.error,
            r.std_out == result.output,
            r.exit_code == result.status as i64,
    {
        SubmitResultRequest {
            execution_time: result.execution_time,
            assignment_id: result.id,
            std_err: result.error.clone(),
            std_out: result.output.clone(),
            exit_code: result.status as i64,
        }
    }
}

} // verus!
