//! Downloads: a URL with the checksums that its bytes must match, how a
//! downloaded artifact is invoked, and the cache-first materialize policy.
use vstd::prelude::*;

use crate::checksum::{sha256_digest, sha256_of, Checksum, ChecksumView};
use crate::text::{ends_with, has_suffix, last_segment, last_segment_of};

verus! {

/// Why a download could not be had.
#[derive(Clone, Copy, Debug, PartialEq, Eq, Structural)]
pub enum FetchError {
    /// The transfer itself failed.
    Transport,
    /// The bytes that came back match none of the checksums.
    Rejected,
}

/// A fetchable artifact: where it comes from and the checksums that its
/// bytes must match.
#[derive(Clone, Debug)]
pub struct Download {
    pub url: String,
    pub checksums: Vec<Checksum>,
}

pub struct DownloadView {
    pub url: Seq<char>,
    pub checksums: Seq<ChecksumView>,
}

/// The views of a list of checksums.
pub open spec fn checksums_view(s: Seq<Checksum>) -> Seq<ChecksumView> {
    s.map_values(|c: Checksum| c@)
}

impl View for Download {
    type V = DownloadView;

    open spec fn view(&self) -> DownloadView {
        DownloadView { url: self.url@, checksums: checksums_view(self.checksums@) }
    }
}

impl DownloadView {
    /// Some checksum accepts bytes whose SHA-256 digest is `digest`.
    pub open spec fn trusts_digest(self, digest: Seq<u8>) -> bool {
        exists|i: int|
            0 <= i < self.checksums.len() && #[trigger] self.checksums[i].accepts_digest(digest)
    }

    /// The artifact is trusted to be `data`: at least one checksum accepts it.
    pub open spec fn trusts(self, data: Seq<u8>) -> bool {
        self.trusts_digest(sha256_of(data))
    }

    /// The file name: the last path segment of the URL.
    pub open spec fn filename(self) -> Seq<char> {
        last_segment(self.url)
    }

    /// The artifact is a Java archive.
    pub open spec fn is_jar(self) -> bool {
        ends_with(self.filename(), ".jar"@)
    }
}

/// How to run a program: what to start and the arguments to hand it.
#[derive(Clone, Debug)]
pub struct CommandSpec {
    pub program: String,
    pub args: Vec<String>,
}

pub struct CommandView {
    pub program: Seq<char>,
    pub args: Seq<Seq<char>>,
}

impl View for CommandSpec {
    type V = CommandView;

    open spec fn view(&self) -> CommandView {
        CommandView { program: self.program@, args: self.args@.map_values(|a: String| a@) }
    }
}

impl CommandSpec {
    /// Adds one argument at the end.
    pub fn arg(&mut self, a: &str)
        ensures
            final(self)@ == (CommandView { program: old(self)@.program, args: old(self)@.args.push(a@) }),
    {
        self.args.push(a.to_string());
        assert(self@.args =~= old(self)@.args.push(a@));
    }
}

/// How the artifact at `path` is invoked: a Java archive through the Java
/// launcher with the path as its jar argument, anything else directly.
pub open spec fn command_for(d: DownloadView, path: Seq<char>) -> CommandView {
    if d.is_jar() {
        CommandView { program: "java"@, args: seq!["-jar"@, path] }
    } else {
        CommandView { program: path, args: Seq::empty() }
    }
}

/// What a materialize does after looking for a cached file.
#[derive(Clone, Copy, Debug, PartialEq, Eq, Structural)]
pub enum CacheDecision {
    /// The cached file verifies: use it, with no network access.
    Reuse,
    /// There is no cached file, or it fails every checksum: fetch anew.
    Fetch,
}

/// The decision for the cached bytes, `None` when no file is there.
pub open spec fn cache_decision_of(d: DownloadView, cached: Option<Seq<u8>>) -> CacheDecision {
    match cached {
        Some(bytes) => if d.trusts(bytes) {
            CacheDecision::Reuse
        } else {
            CacheDecision::Fetch
        },
        None => CacheDecision::Fetch,
    }
}

/// What a fetch yields once its bytes are checked: the bytes when some
/// checksum accepts them, the transfer's own error when it failed.
pub open spec fn fetch_outcome(d: DownloadView, fetched: Result<Seq<u8>, FetchError>) -> Result<
    Seq<u8>,
    FetchError,
> {
    match fetched {
        Ok(bytes) => if d.trusts(bytes) {
            Ok(bytes)
        } else {
            Err(FetchError::Rejected)
        },
        Err(e) => Err(e),
    }
}

/// The bytes of a byte-vector result, for contracts.
pub open spec fn bytes_of(r: Result<Vec<u8>, FetchError>) -> Result<Seq<u8>, FetchError> {
    match r {
        Ok(v) => Ok(v@),
        Err(e) => Err(e),
    }
}

/// What a materialize leaves in the file: `None` when it failed. The
/// cached bytes are kept when they verify; otherwise the fetch is made
/// and its bytes written when they verify.
pub open spec fn materialized(
    d: DownloadView,
    cached: Option<Seq<u8>>,
    fetched: Result<Seq<u8>, FetchError>,
) -> Option<Seq<u8>> {
    match cache_decision_of(d, cached) {
        CacheDecision::Reuse => cached,
        CacheDecision::Fetch => match fetch_outcome(d, fetched) {
            Ok(bytes) => Some(bytes),
            Err(_) => None,
        },
    }
}

impl Download {
    pub fn new(url: &str, checksums: Vec<Checksum>) -> (r: Download)
        ensures
            r@ == (DownloadView { url: url@, checksums: checksums_view(checksums@) }),
    {
        Download { url: url.to_string(), checksums }
    }

    /// A copy of this download.
    pub fn duplicate(&self) -> (r: Download)
        ensures
            r@ == self@,
    {
        let mut checksums: Vec<Checksum> = Vec::new();
        let mut i: usize = 0;
        while i < self.checksums.len()
            invariant
                i <= self.checksums@.len(),
                checksums@ == self.checksums@.subrange(0, i as int),
            decreases self.checksums.len() - i,
        {
            checksums.push(self.checksums[i].duplicate());
            i = i + 1;
            assert(checksums@ =~= self.checksums@.subrange(0, i as int));
        }
        assert(checksums@ =~= self.checksums@);
        Download { url: self.url.clone(), checksums }
    }

    /// Whether some checksum accepts bytes whose SHA-256 digest is `digest`.
    pub fn matches_digest(&self, digest: &[u8]) -> (r: bool)
        ensures
            r == self@.trusts_digest(digest@),
    {
        let mut i: usize = 0;
        while i < self.checksums.len()
            invariant
                i <= self.checksums@.len(),
                forall|k: int| 0 <= k < i ==> !(#[trigger] self@.checksums[k].accepts_digest(digest@)),
            decreases self.checksums.len() - i,
        {
            if self.checksums[i].matches_digest(digest) {
                assert(self@.checksums[i as int].accepts_digest(digest@));
                assert(self@.trusts_digest(digest@));
                return true;
            }
            i = i + 1;
        }
        false
    }

    /// Whether `data` is trusted: at least one checksum accepts it.
    pub fn verify(&self, data: &[u8]) -> (r: bool)
        ensures
            r == self@.trusts(data@),
    {
        let digest = sha256_digest(data);
        self.matches_digest(digest.as_slice())
    }

    /// The file name of the artifact: the last path segment of its URL.
    pub fn get_filename(&self) -> (r: String)
        ensures
            r@ == self@.filename(),
    {
        last_segment_of(self.url.as_str())
    }

    /// How to invoke this artifact once it is stored at `path`.
    pub fn get_command(&self, path: &str) -> (r: CommandSpec)
        ensures
            r@ == command_for(self@, path@),
    {
        let name = self.get_filename();
        if has_suffix(name.as_str(), ".jar") {
            let mut args: Vec<String> = Vec::new();
            args.push("-jar".to_string());
            args.push(path.to_string());
            let r = CommandSpec { program: "java".to_string(), args };
            assert(r@.args =~= seq!["-jar"@, path@]);
            r
        } else {
            let r = CommandSpec { program: path.to_string(), args: Vec::new() };
            assert(r@.args =~= Seq::<Seq<char>>::empty());
            r
        }
    }

    /// Decides, from the bytes of the cached file (`None` when there is
    /// none), whether it can be used as it is or must be fetched anew.
    pub fn cache_decision(&self, cached: Option<&[u8]>) -> (r: CacheDecision)
        ensures
            r == cache_decision_of(
                self@,
                match cached {
                    Some(b) => Some(b@),
                    None => None,
                },
            ),
    {
        match cached {
            Some(bytes) => if self.verify(bytes) {
                CacheDecision::Reuse
            } else {
                CacheDecision::Fetch
            },
            None => CacheDecision::Fetch,
        }
    }

    /// Checks what a fetch brought: its bytes when some checksum accepts
    /// them, `Rejected` when none does, the transfer's error unchanged.
    pub fn accept_fetched(&self, fetched: Result<Vec<u8>, FetchError>) -> (r: Result<
        Vec<u8>,
        FetchError,
    >)
        ensures
            bytes_of(r) == fetch_outcome(self@, bytes_of(fetched)),
    {
        match fetched {
            Ok(bytes) => if self.verify(bytes.as_slice()) {
                Ok(bytes)
            } else {
                Err(FetchError::Rejected)
            },
            Err(e) => Err(e),
        }
    }
}

/// After a materialize that succeeded, the file holds bytes that verify, so
/// a second materialize reuses them without fetching, and succeeds even
/// when the network fails.
pub proof fn materialize_round_trip(
    d: DownloadView,
    cached: Option<Seq<u8>>,
    fetched: Result<Seq<u8>, FetchError>,
    refetched: Result<Seq<u8>, FetchError>,
)
    ensures
        materialized(d, cached, fetched) matches Some(on_disk) ==> {
            &&& cache_decision_of(d, Some(on_disk)) == CacheDecision::Reuse
            &&& materialized(d, Some(on_disk), refetched) == Some(on_disk)
        },
{
}

/// A cached file that fails every checksum is never used: exactly one fetch
/// is made, and its bytes are written when they verify; when they do not,
/// or the transfer fails, the materialize fails.
pub proof fn materialize_replaces_corrupt_cache(
    d: DownloadView,
    cached: Seq<u8>,
    fetched: Result<Seq<u8>, FetchError>,
)
    requires
        forall|i: int| 0 <= i < d.checksums.len() ==> !(#[trigger] d.checksums[i].accepts(cached)),
    ensures
        cache_decision_of(d, Some(cached)) == CacheDecision::Fetch,
        materialized(d, Some(cached), fetched) == match fetched {
            Ok(bytes) => if d.trusts(bytes) {
                Some(bytes)
            } else {
                None::<Seq<u8>>
            },
            Err(_) => None,
        },
        fetched matches Ok(bytes) && !d.trusts(bytes) ==> fetch_outcome(d, fetched) == Err::<
            Seq<u8>,
            FetchError,
        >(FetchError::Rejected),
{
    assert(!d.trusts(cached)) by {
        if d.trusts(cached) {
            let i = choose|i: int|
                0 <= i < d.checksums.len() && #[trigger] d.checksums[i].accepts_digest(
                    sha256_of(cached),
                );
            assert(d.checksums[i].accepts(cached));
        }
    }
}

} // verus!
