//! Projects: units of work offered by the coordinator, each runnable on
//! one or more platforms through a binary of its own.
use vstd::prelude::*;

use std::collections::HashMap;

use crate::download::{Download, DownloadView};
use crate::platform::{Platform, PlatformView};

verus! {

broadcast use vstd::std_specs::hash::group_hash_axioms;

/// That a project can run on a platform, and the binary it runs there. The
/// priority is the coordinator's metadata; platform selection does not
/// consult it.
#[derive(Clone, Debug)]
pub struct ProjectPlatform {
    pub platform: Platform,
    pub binary: Download,
    pub priority: i32,
}

pub struct ProjectPlatformView {
    pub platform: PlatformView,
    pub binary: DownloadView,
    pub priority: i32,
}

impl View for ProjectPlatform {
    type V = ProjectPlatformView;

    open spec fn view(&self) -> ProjectPlatformView {
        ProjectPlatformView {
            platform: self.platform@,
            binary: self.binary@,
            priority: self.priority,
        }
    }
}

/// A project: its identifier, its name, and its binaries keyed by the
/// identifier of their platform, so that no platform occurs twice.
#[derive(Clone, Debug)]
pub struct Project {
    pub id: i64,
    pub name: String,
    pub platforms: HashMap<i64, ProjectPlatform>,
}

pub struct ProjectView {
    pub id: i64,
    pub name: Seq<char>,
    pub platforms: Map<i64, ProjectPlatformView>,
}

/// The views of a map of project platforms.
pub open spec fn project_platforms_view(m: Map<i64, ProjectPlatform>) -> Map<i64, ProjectPlatformView> {
    m.map_values(|p: ProjectPlatform| p@)
}

impl View for Project {
    type V = ProjectView;

    open spec fn view(&self) -> ProjectView {
        ProjectView {
            id: self.id,
            name: self.name@,
            platforms: project_platforms_view(self.platforms@),
        }
    }
}

impl ProjectView {
    /// This project with `p` attached, replacing any binary of the same platform.
    pub open spec fn with_platform(self, p: ProjectPlatformView) -> ProjectView {
        ProjectView { platforms: self.platforms.insert(p.platform.id, p), ..self }
    }
}

impl Project {
    pub fn new(id: i64, name: &str) -> (r: Project)
        ensures
            r@ == (ProjectView { id, name: name@, platforms: Map::empty() }),
    {
        let r = Project { id, name: name.to_string(), platforms: HashMap::new() };
        assert(r@.platforms =~= Map::<i64, ProjectPlatformView>::empty());
        r
    }

    /// Attaches a binary, keyed by the identifier of its platform.
    pub fn add_platform(&mut self, platform: ProjectPlatform)
        ensures
            final(self)@ == old(self)@.with_platform(platform@),
    {
        let ghost pv = platform@;
        self.platforms.insert(platform.platform.id, platform);
        assert(self@.platforms =~= old(self)@.platforms.insert(pv.platform.id, pv));
    }

    /// A copy of this project.
    pub fn duplicate(&self) -> (r: Project)
        ensures
            r@ == self@,
    {
        Project { id: self.id, name: self.name.clone(), platforms: self.platforms.clone() }
    }
}

impl ProjectPlatform {
    pub fn new(platform: Platform, binary: Download, priority: i32) -> (r: ProjectPlatform)
        ensures
            r@ == (ProjectPlatformView { platform: platform@, binary: binary@, priority }),
    {
        ProjectPlatform { platform, binary, priority }
    }

    /// A copy of this binary entry.
    pub fn duplicate(&self) -> (r: ProjectPlatform)
        ensures
            r@ == self@,
    {
        ProjectPlatform {
            platform: self.platform.duplicate(),
            binary: self.binary.duplicate(),
            priority: self.priority,
        }
    }
}

} // verus!
