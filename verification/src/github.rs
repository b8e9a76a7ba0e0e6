//! GitHub API types, and the resolution of a version of a GitHub
//! repository through releases, tags and branches.
//!
//! Resolution alternates requests to the GitHub API with decisions. The
//! decisions live here as a state machine: each step says which request
//! to make next, or gives the outcome; the caller makes the request and
//! hands back the reply.
use vstd::prelude::*;
use crate::error::DepotError;
use crate::text::{chars_of, push_str, str_eq, string_from, string_of};

verus! {

/// Type of Git reference
#[derive(Debug, Clone, Copy, PartialEq, Eq, Structural)]
pub enum RefType {
    Release,
    Tag,
    Branch,
    Commit,
}

/// The lowercase name of a reference type.
pub open spec fn ref_type_name(r: RefType) -> Seq<char> {
    match r {
        RefType::Release => "release"@,
        RefType::Tag => "tag"@,
        RefType::Branch => "branch"@,
        RefType::Commit => "commit"@,
    }
}

impl RefType {
    /// The lowercase name of this reference type.
    pub fn to_string(&self) -> (r: String)
        ensures
            r@ == ref_type_name(*self),
    {
        match self {
            RefType::Release => string_of("release"),
            RefType::Tag => string_of("tag"),
            RefType::Branch => string_of("branch"),
            RefType::Commit => string_of("commit"),
        }
    }
}

/// GitHub release information
#[derive(Debug, Clone)]
pub struct GitHubRelease {
    pub tag_name: String,
    pub name: Option<String>,
    pub draft: bool,
    pub prerelease: bool,
    pub tarball_url: String,
    pub zipball_url: String,
    pub assets: Vec<ReleaseAsset>,
    pub body: Option<String>,
    pub published_at: Option<String>,
}

/// GitHub release asset
#[derive(Debug, Clone)]
pub struct ReleaseAsset {
    pub name: String,
    pub browser_download_url: String,
    pub size: u64,
    pub content_type: String,
}

/// GitHub tag information
#[derive(Debug, Clone)]
pub struct GitHubTag {
    pub name: String,
    pub commit: TagCommit,
    pub tarball_url: String,
    pub zipball_url: String,
}

/// Commit information in a tag
#[derive(Debug, Clone)]
pub struct TagCommit {
    pub sha: String,
    pub url: String,
}

/// GitHub repository information
#[derive(Debug, Clone)]
pub struct GitHubRepo {
    pub name: String,
    pub full_name: String,
    pub default_branch: String,
    pub description: Option<String>,
}

/// Resolved version information
#[derive(Debug, Clone)]
pub struct ResolvedVersion {
    pub ref_type: RefType,
    pub ref_value: String,
    pub commit_sha: String,
    pub tarball_url: String,
}

/// GitHub API rate limit information
#[derive(Debug, Clone, Copy)]
pub struct RateLimit {
    pub limit: u64,
    pub remaining: u64,
    pub reset: u64,
}

/// A request that version resolution asks for.
#[derive(Debug, Clone, Copy, PartialEq, Eq, Structural)]
pub enum GitHubQuery {
    /// All releases of the repository.
    Releases,
    /// The latest release.
    LatestRelease,
    /// All tags.
    Tags,
    /// The name of the default branch.
    DefaultBranch,
}

/// The reply to a request.
#[derive(Debug)]
pub enum GitHubReply {
    Releases(Vec<GitHubRelease>),
    LatestRelease(GitHubRelease),
    Tags(Vec<GitHubTag>),
    DefaultBranch(String),
    /// The request failed.
    Failed(DepotError),
}

/// What resolution does next.
#[derive(Debug)]
pub enum ResolveStep {
    /// Make this request and hand back its reply.
    Fetch(GitHubQuery),
    /// The version is resolved.
    Resolved(ResolvedVersion),
    /// Resolution failed.
    Failed(DepotError),
}

/// Where resolution stands.
#[derive(Debug, Clone, Copy, PartialEq, Eq, Structural)]
pub enum ResolveStage {
    /// A requested version: waiting for the releases.
    VersionReleases,
    /// A requested version: waiting for the tags.
    VersionTags,
    /// A requested version: waiting for the default branch.
    VersionBranch,
    /// The fallback chain: waiting for the reply to the strategy at this
    /// position.
    Chain(usize),
    /// Resolution is over.
    Finished,
}

/// The state of one version resolution.
#[derive(Debug)]
pub struct VersionResolution {
    pub api_url: String,
    pub owner: String,
    pub repo: String,
    pub version_spec: Option<String>,
    pub fallback_chain: Vec<String>,
    pub stage: ResolveStage,
}

/// The position of the first release whose tag is `v`.
pub open spec fn release_named(rs: Seq<GitHubRelease>, v: Seq<char>) -> Option<int>
    decreases rs.len(),
{
    if rs.len() == 0 {
        None
    } else {
        match release_named(rs.drop_last(), v) {
            Some(i) => Some(i),
            None => if rs.last().tag_name@ == v {
                Some(rs.len() - 1)
            } else {
                None
            },
        }
    }
}

/// The position of the first tag named `v`.
pub open spec fn tag_named(ts: Seq<GitHubTag>, v: Seq<char>) -> Option<int>
    decreases ts.len(),
{
    if ts.len() == 0 {
        None
    } else {
        match tag_named(ts.drop_last(), v) {
            Some(i) => Some(i),
            None => if ts.last().name@ == v {
                Some(ts.len() - 1)
            } else {
                None
            },
        }
    }
}

/// The request that a fallback strategy makes, if it is one.
pub open spec fn strategy_query(s: Seq<char>) -> Option<GitHubQuery> {
    if s == "release"@ {
        Some(GitHubQuery::LatestRelease)
    } else if s == "tag"@ {
        Some(GitHubQuery::Tags)
    } else if s == "branch"@ {
        Some(GitHubQuery::DefaultBranch)
    } else {
        None
    }
}

/// The first position at or after `from` that holds a known strategy.
pub open spec fn next_strategy(chain: Seq<String>, from: int) -> Option<int>
    decreases chain.len() - from,
{
    if from < 0 || from >= chain.len() {
        None
    } else if strategy_query(chain[from]@) is Some {
        Some(from)
    } else {
        next_strategy(chain, from + 1)
    }
}

/// A position that `next_strategy` gives holds a known strategy.
pub proof fn lemma_next_strategy(chain: Seq<String>, from: int)
    requires
        next_strategy(chain, from) is Some,
    ensures
        from <= next_strategy(chain, from).unwrap() < chain.len(),
        strategy_query(chain[next_strategy(chain, from).unwrap()]@) is Some,
    decreases chain.len() - from,
{
    if strategy_query(chain[from]@) is None {
        lemma_next_strategy(chain, from + 1);
    }
}

/// The archive address of a reference of a repository.
pub open spec fn tarball_address(api_url: Seq<char>, owner: Seq<char>, repo: Seq<char>, r: Seq<
    char,
>) -> Seq<char> {
    api_url + "/repos/"@ + owner + "/"@ + repo + "/tarball/"@ + r
}

/// Whether a resolved version is the one that a release gives.
pub open spec fn from_release(v: ResolvedVersion, r: GitHubRelease) -> bool {
    v.ref_type == RefType::Release && v.ref_value@ == r.tag_name@ && v.commit_sha@
        == Seq::<char>::empty() && v.tarball_url@ == r.tarball_url@
}

/// Whether a resolved version is the one that a tag gives.
pub open spec fn from_tag(v: ResolvedVersion, t: GitHubTag) -> bool {
    v.ref_type == RefType::Tag && v.ref_value@ == t.name@ && v.commit_sha@ == t.commit.sha@
        && v.tarball_url@ == t.tarball_url@
}

/// Whether a resolved version is the one that a branch gives.
pub open spec fn from_branch(v: ResolvedVersion, s: VersionResolution, branch: Seq<char>) -> bool {
    v.ref_type == RefType::Branch && v.ref_value@ == branch && v.commit_sha@ == Seq::<
        char,
    >::empty() && v.tarball_url@ == tarball_address(s.api_url@, s.owner@, s.repo@, branch)
}

/// The message when a requested version is not found.
pub open spec fn not_found_message(v: Seq<char>, owner: Seq<char>, repo: Seq<char>) -> Seq<char> {
    "Version "@ + v + " not found for "@ + owner + "/"@ + repo
}

/// The message when the fallback chain is exhausted.
pub open spec fn unresolved_message(owner: Seq<char>, repo: Seq<char>) -> Seq<char> {
    "Could not resolve version for "@ + owner + "/"@ + repo
}

/// What the fallback chain does from position `from`: ask for the next known
/// strategy, or fail when none is left.
pub open spec fn chain_continues(s: VersionResolution, from: int, step: ResolveStep) -> bool {
    match next_strategy(s.fallback_chain@, from) {
        Some(j) => s.stage == ResolveStage::Chain(j as usize) && step == ResolveStep::Fetch(
            strategy_query(s.fallback_chain@[j]@).unwrap(),
        ),
        None => s.stage == ResolveStage::Finished && (step matches ResolveStep::Failed(
            DepotError::Package(m),
        ) && m@ == unresolved_message(s.owner@, s.repo@)),
    }
}

/// Whether `s` is still resolving the same request as `t`.
pub open spec fn same_request(s: VersionResolution, t: VersionResolution) -> bool {
    s.api_url@ == t.api_url@ && s.owner@ == t.owner@ && s.repo@ == t.repo@ && s.version_spec
        == t.version_spec && s.fallback_chain@ == t.fallback_chain@
}

/// The view of an optional string.
pub open spec fn opt_view(o: Option<String>) -> Option<Seq<char>> {
    match o {
        Some(s) => Some(s@),
        None => None,
    }
}

/// What resolution does after a reply, from the state `s` that awaited it.
pub open spec fn after_reply(s: VersionResolution, reply: GitHubReply, t: VersionResolution, step: ResolveStep) -> bool {
    &&& same_request(s, t)
    &&& match s.stage {
        ResolveStage::VersionReleases => {
            let v = s.version_spec.unwrap()@;
            match reply {
                GitHubReply::Releases(rs) if release_named(rs@, v) is Some =>
                    t.stage == ResolveStage::Finished && (step matches ResolveStep::Resolved(r)
                    && from_release(r, rs@[release_named(rs@, v).unwrap()])),
                _ => t.stage == ResolveStage::VersionTags && step == ResolveStep::Fetch(GitHubQuery::Tags),
            }
        },
        ResolveStage::VersionTags => {
            let v = s.version_spec.unwrap()@;
            match reply {
                GitHubReply::Tags(ts) if tag_named(ts@, v) is Some =>
                    t.stage == ResolveStage::Finished && (step matches ResolveStep::Resolved(r)
                    && from_tag(r, ts@[tag_named(ts@, v).unwrap()])),
                _ => t.stage == ResolveStage::VersionBranch && step == ResolveStep::Fetch(GitHubQuery::DefaultBranch),
            }
        },
        ResolveStage::VersionBranch => {
            let v = s.version_spec.unwrap()@;
            &&& t.stage == ResolveStage::Finished
            &&& match reply {
                GitHubReply::DefaultBranch(b) => if b@ == v {
                    step matches ResolveStep::Resolved(r) && from_branch(r, s, v)
                } else {
                    step matches ResolveStep::Failed(DepotError::Package(m))
                        && m@ == not_found_message(v, s.owner@, s.repo@)
                },
                GitHubReply::Failed(e) => step == ResolveStep::Failed(e),
                _ => step matches ResolveStep::Failed(DepotError::Package(m))
                    && m@ == not_found_message(v, s.owner@, s.repo@),
            }
        },
        ResolveStage::Chain(i) => {
            let strategy = s.fallback_chain@[i as int]@;
            if strategy == "release"@ {
                match reply {
                    GitHubReply::LatestRelease(r) if !r.draft && !r.prerelease =>
                        t.stage == ResolveStage::Finished && (step matches ResolveStep::Resolved(v)
                        && from_release(v, r)),
                    _ => chain_continues(t, i + 1, step),
                }
            } else if strategy == "tag"@ {
                match reply {
                    GitHubReply::Tags(ts) if ts.len() > 0 =>
                        t.stage == ResolveStage::Finished && (step matches ResolveStep::Resolved(v)
                        && from_tag(v, ts@[0])),
                    _ => chain_continues(t, i + 1, step),
                }
            } else {
                &&& t.stage == ResolveStage::Finished
                &&& match reply {
                    GitHubReply::DefaultBranch(b) => step matches ResolveStep::Resolved(v)
                        && from_branch(v, s, b@),
                    GitHubReply::Failed(e) => step == ResolveStep::Failed(e),
                    _ => step matches ResolveStep::Failed(DepotError::Package(m))
                        && m@ == unresolved_message(s.owner@, s.repo@),
                }
            }
        },
        ResolveStage::Finished => t.stage == ResolveStage::Finished && (step matches ResolveStep::Failed(
            DepotError::Package(m),
        ) && m@ == unresolved_message(s.owner@, s.repo@)),
    }
}

/// The well-formed states: a version stage has a requested version, a
/// chain stage points at a known strategy.
pub open spec fn resolution_wf(s: VersionResolution) -> bool {
    match s.stage {
        ResolveStage::VersionReleases | ResolveStage::VersionTags | ResolveStage::VersionBranch =>
            s.version_spec is Some,
        ResolveStage::Chain(i) => i < s.fallback_chain.len() && strategy_query(
            s.fallback_chain@[i as int]@,
        ) is Some,
        ResolveStage::Finished => true,
    }
}

fn failure(message: String) -> (r: ResolveStep)
    ensures
        r matches ResolveStep::Failed(DepotError::Package(m)) && m@ == message@,
{
    ResolveStep::Failed(DepotError::Package(message))
}

/// Which request a known strategy makes.
fn query_of(strategy: &str) -> (r: Option<GitHubQuery>)
    ensures
        r == strategy_query(strategy@),
{
    if str_eq(strategy, "release") {
        Some(GitHubQuery::LatestRelease)
    } else if str_eq(strategy, "tag") {
        Some(GitHubQuery::Tags)
    } else if str_eq(strategy, "branch") {
        Some(GitHubQuery::DefaultBranch)
    } else {
        None
    }
}

/// The position of the first release tagged `v`.
pub(crate) fn find_release(rs: &Vec<GitHubRelease>, v: &str) -> (r: Option<usize>)
    ensures
        match r {
            Some(i) => i < rs.len() && release_named(rs@, v@) == Some(i as int),
            None => release_named(rs@, v@) is None,
        },
{
    let mut i: usize = 0;
    assert(rs@.take(0) =~= Seq::<GitHubRelease>::empty());
    while i < rs.len()
        invariant
            i <= rs.len(),
            release_named(rs@.take(i as int), v@) is None,
        decreases rs.len() - i,
    {
        assert(rs@.take(i as int + 1).drop_last() =~= rs@.take(i as int));
        if str_eq(rs[i].tag_name.as_str(), v) {
            proof { lemma_release_prefix(rs@, v@, i as int + 1); }
            return Some(i);
        }
        i = i + 1;
    }
    assert(rs@.take(rs.len() as int) =~= rs@);
    None
}

proof fn lemma_release_prefix(rs: Seq<GitHubRelease>, v: Seq<char>, n: int)
    requires
        0 < n <= rs.len(),
        release_named(rs.take(n), v) is Some,
    ensures
        release_named(rs, v) == release_named(rs.take(n), v),
    decreases rs.len() - n,
{
    if n < rs.len() {
        assert(rs.take(n + 1).drop_last() =~= rs.take(n));
        lemma_release_prefix(rs, v, n + 1);
    } else {
        assert(rs.take(n) =~= rs);
    }
}

/// The position of the first tag named `v`.
pub(crate) fn find_tag(ts: &Vec<GitHubTag>, v: &str) -> (r: Option<usize>)
    ensures
        match r {
            Some(i) => i < ts.len() && tag_named(ts@, v@) == Some(i as int),
            None => tag_named(ts@, v@) is None,
        },
{
    let mut i: usize = 0;
    assert(ts@.take(0) =~= Seq::<GitHubTag>::empty());
    while i < ts.len()
        invariant
            i <= ts.len(),
            tag_named(ts@.take(i as int), v@) is None,
        decreases ts.len() - i,
    {
        assert(ts@.take(i as int + 1).drop_last() =~= ts@.take(i as int));
        if str_eq(ts[i].name.as_str(), v) {
            proof { lemma_tag_prefix(ts@, v@, i as int + 1); }
            return Some(i);
        }
        i = i + 1;
    }
    assert(ts@.take(ts.len() as int) =~= ts@);
    None
}

proof fn lemma_tag_prefix(ts: Seq<GitHubTag>, v: Seq<char>, n: int)
    requires
        0 < n <= ts.len(),
        tag_named(ts.take(n), v) is Some,
    ensures
        tag_named(ts, v) == tag_named(ts.take(n), v),
    decreases ts.len() - n,
{
    if n < ts.len() {
        assert(ts.take(n + 1).drop_last() =~= ts.take(n));
        lemma_tag_prefix(ts, v, n + 1);
    } else {
        assert(ts.take(n) =~= ts);
    }
}

fn resolved_release(r: &GitHubRelease) -> (v: ResolvedVersion)
    ensures
        from_release(v, *r),
{
    ResolvedVersion {
        ref_type: RefType::Release,
        ref_value: r.tag_name.clone(),
        commit_sha: String::new(),
        tarball_url: r.tarball_url.clone(),
    }
}

fn resolved_tag(t: &GitHubTag) -> (v: ResolvedVersion)
    ensures
        from_tag(v, *t),
{
    ResolvedVersion {
        ref_type: RefType::Tag,
        ref_value: t.name.clone(),
        commit_sha: t.commit.sha.clone(),
        tarball_url: t.tarball_url.clone(),
    }
}

impl VersionResolution {
    /// The archive address of a branch of the repository.
    fn branch_tarball(&self, branch: &str) -> (r: String)
        ensures
            r@ == tarball_address(self.api_url@, self.owner@, self.repo@, branch@),
    {
        let mut v = chars_of(self.api_url.as_str());
        push_str(&mut v, "/repos/");
        push_str(&mut v, self.owner.as_str());
        push_str(&mut v, "/");
        push_str(&mut v, self.repo.as_str());
        push_str(&mut v, "/tarball/");
        push_str(&mut v, branch);
        string_from(&v)
    }

    fn resolved_branch(&self, branch: &str) -> (v: ResolvedVersion)
        ensures
            from_branch(v, *self, branch@),
    {
        ResolvedVersion {
            ref_type: RefType::Branch,
            ref_value: string_of(branch),
            commit_sha: String::new(),
            tarball_url: self.branch_tarball(branch),
        }
    }

    fn unresolved(&self) -> (r: ResolveStep)
        ensures
            r matches ResolveStep::Failed(DepotError::Package(m)) && m@ == unresolved_message(
                self.owner@,
                self.repo@,
            ),
    {
        let mut v = chars_of("Could not resolve version for ");
        push_str(&mut v, self.owner.as_str());
        push_str(&mut v, "/");
        push_str(&mut v, self.repo.as_str());
        let m = string_from(&v);
        failure(m)
    }

    fn not_found(&self, v: &str) -> (r: ResolveStep)
        ensures
            r matches ResolveStep::Failed(DepotError::Package(m)) && m@ == not_found_message(
                v@,
                self.owner@,
                self.repo@,
            ),
    {
        let mut w = chars_of("Version ");
        push_str(&mut w, v);
        push_str(&mut w, " not found for ");
        push_str(&mut w, self.owner.as_str());
        push_str(&mut w, "/");
        push_str(&mut w, self.repo.as_str());
        let m = string_from(&w);
        failure(m)
    }

    /// Move to the next known strategy at or after `from`, or finish.
    fn continue_chain(&mut self, from: usize) -> (step: ResolveStep)
        requires
            from <= old(self).fallback_chain.len(),
        ensures
            same_request(*old(self), *final(self)),
            chain_continues(*final(self), from as int, step),
    {
        let mut j: usize = from;
        while j < self.fallback_chain.len()
            invariant
                from <= j <= self.fallback_chain.len(),
                *self == *old(self),
                next_strategy(self.fallback_chain@, from as int) == next_strategy(self.fallback_chain@, j as int),
            decreases self.fallback_chain.len() - j,
        {
            match query_of(self.fallback_chain[j].as_str()) {
                Some(q) => {
                    self.stage = ResolveStage::Chain(j);
                    return ResolveStep::Fetch(q);
                },
                None => {},
            }
            j = j + 1;
        }
        self.stage = ResolveStage::Finished;
        self.unresolved()
    }

    /// Begin resolving a version of `owner/repo`: a requested version is
    /// looked up among releases, tags and the default branch; without one,
    /// the strategies of the fallback chain are tried in order.
    pub fn start(
        api_url: &str,
        owner: &str,
        repo: &str,
        version_spec: Option<&str>,
        fallback_chain: &[String],
    ) -> (r: (VersionResolution, ResolveStep))
        ensures
            r.0.api_url@ == api_url@,
            r.0.owner@ == owner@,
            r.0.repo@ == repo@,
            opt_view(r.0.version_spec) == (match version_spec {
                Some(v) => Some(v@),
                None => None,
            }),
            r.0.fallback_chain@ == fallback_chain@,
            resolution_wf(r.0),
            match version_spec {
                Some(_) => r.0.stage == ResolveStage::VersionReleases && r.1 == ResolveStep::Fetch(
                    GitHubQuery::Releases,
                ),
                None => chain_continues(r.0, 0, r.1),
            },
    {
        let mut chain: Vec<String> = Vec::new();
        let mut i: usize = 0;
        while i < fallback_chain.len()
            invariant
                i <= fallback_chain.len(),
                chain@ == fallback_chain@.take(i as int),
            decreases fallback_chain.len() - i,
        {
            chain.push(fallback_chain[i].clone());
            assert(chain@ =~= fallback_chain@.take(i as int + 1));
            i = i + 1;
        }
        assert(fallback_chain@.take(fallback_chain.len() as int) =~= fallback_chain@);
        let requested = match version_spec {
            Some(v) => Some(string_of(v)),
            None => None,
        };
        assert(version_spec is Some ==> requested is Some);
        let mut s = VersionResolution {
            api_url: string_of(api_url),
            owner: string_of(owner),
            repo: string_of(repo),
            version_spec: requested,
            fallback_chain: chain,
            stage: ResolveStage::VersionReleases,
        };
        match version_spec {
            Some(_) => {
                assert(resolution_wf(s));
                (s, ResolveStep::Fetch(GitHubQuery::Releases))
            },
            None => {
                let step = s.continue_chain(0);
                proof {
                    if next_strategy(s.fallback_chain@, 0) is Some {
                        lemma_next_strategy(s.fallback_chain@, 0);
                    }
                }
                (s, step)
            },
        }
    }
    /// Take the reply to the last request and decide what comes next.
    ///
    /// A reply of another kind than the request asked for counts as a
    /// failed request.
    pub fn advance(&mut self, reply: GitHubReply) -> (step: ResolveStep)
        requires
            resolution_wf(*old(self)),
        ensures
            after_reply(*old(self), reply, *final(self), step),
            resolution_wf(*final(self)),
    {
        let requested: String = match &self.version_spec {
            Some(v) => v.clone(),
            None => String::new(),
        };
        match self.stage {
            ResolveStage::VersionReleases => {
                match &reply {
                    GitHubReply::Releases(rs) => match find_release(rs, requested.as_str()) {
                        Some(i) => {
                            self.stage = ResolveStage::Finished;
                            return ResolveStep::Resolved(resolved_release(&rs[i]));
                        },
                        None => {},
                    },
                    _ => {},
                }
                self.stage = ResolveStage::VersionTags;
                ResolveStep::Fetch(GitHubQuery::Tags)
            },
            ResolveStage::VersionTags => {
                match &reply {
                    GitHubReply::Tags(ts) => match find_tag(ts, requested.as_str()) {
                        Some(i) => {
                            self.stage = ResolveStage::Finished;
                            return ResolveStep::Resolved(resolved_tag(&ts[i]));
                        },
                        None => {},
                    },
                    _ => {},
                }
                self.stage = ResolveStage::VersionBranch;
                ResolveStep::Fetch(GitHubQuery::DefaultBranch)
            },
            ResolveStage::VersionBranch => {
                self.stage = ResolveStage::Finished;
                match reply {
                    GitHubReply::DefaultBranch(b) => {
                        if str_eq(b.as_str(), requested.as_str()) {
                            ResolveStep::Resolved(self.resolved_branch(requested.as_str()))
                        } else {
                            self.not_found(requested.as_str())
                        }
                    },
                    GitHubReply::Failed(e) => ResolveStep::Failed(e),
                    _ => self.not_found(requested.as_str()),
                }
            },
            ResolveStage::Chain(i) => {
                let strategy = self.fallback_chain[i].clone();
                if str_eq(strategy.as_str(), "release") {
                    match &reply {
                        GitHubReply::LatestRelease(r) => {
                            if !r.draft && !r.prerelease {
                                self.stage = ResolveStage::Finished;
                                return ResolveStep::Resolved(resolved_release(r));
                            }
                        },
                        _ => {},
                    }
                    let step = self.continue_chain(i + 1);
                    proof {
                        if next_strategy(self.fallback_chain@, i + 1) is Some {
                            lemma_next_strategy(self.fallback_chain@, i + 1);
                        }
                    }
                    step
                } else if str_eq(strategy.as_str(), "tag") {
                    match &reply {
                        GitHubReply::Tags(ts) => {
                            if ts.len() > 0 {
                                self.stage = ResolveStage::Finished;
                                return ResolveStep::Resolved(resolved_tag(&ts[0]));
                            }
                        },
                        _ => {},
                    }
                    let step = self.continue_chain(i + 1);
                    proof {
                        if next_strategy(self.fallback_chain@, i + 1) is Some {
                            lemma_next_strategy(self.fallback_chain@, i + 1);
                        }
                    }
                    step
                } else {
                    self.stage = ResolveStage::Finished;
                    match reply {
                        GitHubReply::DefaultBranch(b) => ResolveStep::Resolved(
                            self.resolved_branch(b.as_str()),
                        ),
                        GitHubReply::Failed(e) => ResolveStep::Failed(e),
                        _ => self.unresolved(),
                    }
                }
            },
            ResolveStage::Finished => self.unresolved(),
        }
    }
}

} // verus!
