//! Platforms: named execution environments, each confirmed usable by
//! running its detector binary, and the registry that collects the
//! platforms whose detector passed.
use vstd::prelude::*;

use std::collections::HashMap;

use crate::download::{Download, DownloadView};
use crate::text::{decimal, decimal_text};

verus! {

broadcast use vstd::std_specs::hash::group_hash_axioms;

/// An execution environment: its identifier, its display name, and the
/// detector binary whose zero exit status certifies it on this machine.
#[derive(Clone, Debug)]
pub struct Platform {
    pub id: i64,
    pub name: String,
    pub detector: Download,
}

pub struct PlatformView {
    pub id: i64,
    pub name: Seq<char>,
    pub detector: DownloadView,
}

impl View for Platform {
    type V = PlatformView;

    open spec fn view(&self) -> PlatformView {
        PlatformView { id: self.id, name: self.name@, detector: self.detector@ }
    }
}

/// Where the detector of platform `id` is stored.
pub open spec fn detector_path_of(id: i64) -> Seq<char> {
    "platforms/"@ + decimal_text(id as int) + ".bin"@
}

/// A detector passes exactly when its process exited with status 0; a
/// non-zero status, a crash or a failure to start it (`None`) fails it.
pub open spec fn passes(exit_code: Option<i32>) -> bool {
    exit_code == Some(0i32)
}

impl Platform {
    pub fn new(id: i64, name: &str, detector: Download) -> (r: Platform)
        ensures
            r@ == (PlatformView { id, name: name@, detector: detector@ }),
    {
        Platform { id, name: name.to_string(), detector }
    }

    /// A copy of this platform.
    pub fn duplicate(&self) -> (r: Platform)
        ensures
            r@ == self@,
    {
        Platform { id: self.id, name: self.name.clone(), detector: self.detector.duplicate() }
    }

    /// Where this platform's detector is stored: `platforms/<id>.bin`.
    pub fn detector_path(&self) -> (r: String)
        ensures
            r@ == detector_path_of(self.id),
    {
        let mut path = String::from_str("platforms/");
        path.append(decimal(self.id).as_str());
        path.append(".bin");
        path
    }

    /// Classifies a detector run by its exit code (`None` when the process
    /// could not be started or gave no code).
    pub fn detection_passed(exit_code: Option<i32>) -> (r: bool)
        ensures
            r == passes(exit_code),
    {
        match exit_code {
            Some(code) => code == 0,
            None => false,
        }
    }
}

/// The platforms whose detector passed, keyed by identifier; for an
/// identifier that occurs twice the later platform wins. `exit_codes[i]`
/// is the outcome of the detector of `platforms[i]`; a platform without an
/// outcome has not passed.
pub open spec fn valid_platforms(platforms: Seq<PlatformView>, exit_codes: Seq<Option<i32>>) -> Map<
    i64,
    PlatformView,
>
    decreases platforms.len(),
{
    if platforms.len() == 0 {
        Map::empty()
    } else {
        let i = platforms.len() - 1;
        let before = valid_platforms(platforms.drop_last(), exit_codes);
        if i < exit_codes.len() && passes(exit_codes[i]) {
            before.insert(platforms[i].id, platforms[i])
        } else {
            before
        }
    }
}

/// The views of a map of platforms.
pub open spec fn platform_map_view(m: Map<i64, Platform>) -> Map<i64, PlatformView> {
    m.map_values(|p: Platform| p@)
}

/// The registry of candidate platforms, in the order they were added.
pub struct PlatformManager {
    platforms: Vec<Platform>,
}

impl View for PlatformManager {
    type V = Seq<PlatformView>;

    closed spec fn view(&self) -> Seq<PlatformView> {
        self.platforms@.map_values(|p: Platform| p@)
    }
}

impl PlatformManager {
    pub fn new() -> (r: PlatformManager)
        ensures
            r@ == Seq::<PlatformView>::empty(),
    {
        let r = PlatformManager { platforms: Vec::new() };
        assert(r@ =~= Seq::<PlatformView>::empty());
        r
    }

    /// Registers one more candidate platform.
    pub fn add(&mut self, platform: Platform)
        ensures
            final(self)@ == old(self)@.push(platform@),
    {
        self.platforms.push(platform);
        assert(self@ =~= old(self)@.push(platform@));
    }

    /// The candidate platforms, in the order they were added.
    pub fn platforms(&self) -> (r: &Vec<Platform>)
        ensures
            r@.map_values(|p: Platform| p@) == self@,
    {
        &self.platforms
    }

    /// The directory that holds the detector binaries.
    pub fn cache_dir() -> (r: &'static str)
        ensures
            r@ == "platforms"@,
    {
        "platforms"
    }

    /// The validated set: the platforms whose detector passed, keyed by
    /// identifier. `exit_codes[i]` is the outcome of running the detector of
    /// the i-th platform.
    pub fn collect_valid(&self, exit_codes: &Vec<Option<i32>>) -> (r: HashMap<i64, Platform>)
        ensures
            platform_map_view(r@) == valid_platforms(self@, exit_codes@),
    {
        let mut valid: HashMap<i64, Platform> = HashMap::new();
        let n = self.platforms.len();
        let mut i: usize = 0;
        assert(self@.subrange(0, 0) =~= Seq::<PlatformView>::empty());
        assert(platform_map_view(valid@) =~= Map::<i64, PlatformView>::empty());
        while i < n
            invariant
                n == self.platforms@.len(),
                n == self@.len(),
                i <= n,
                platform_map_view(valid@) == valid_platforms(self@.subrange(0, i as int), exit_codes@),
            decreases n - i,
        {
            let ghost before = valid@;
            let ghost pre = self@.subrange(0, i as int + 1);
            assert(pre.drop_last() =~= self@.subrange(0, i as int));
            if i < exit_codes.len() && Platform::detection_passed(exit_codes[i]) {
                let p = self.platforms[i].duplicate();
                let ghost pv = p@;
                valid.insert(p.id, p);
                assert(platform_map_view(valid@) =~= platform_map_view(before).insert(pv.id, pv));
            }
            i = i + 1;
        }
        assert(self@.subrange(0, n as int) =~= self@);
        valid
    }
}

} // verus!
