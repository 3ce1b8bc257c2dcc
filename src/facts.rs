use vstd::prelude::*;

verus! {

/// Number of leading characters of a branch tip's object id shown to the user.
pub const SHORT_ID_LEN: usize = 7;

/// Whether a branch lives in this repository or mirrors one of a remote.
#[derive(Clone, Copy, Debug, PartialEq, Eq, Structural)]
pub enum BranchKind {
    Local,
    Remote,
}

/// What happened when the branch's upstream reference was resolved.
#[derive(Clone, Debug)]
pub enum UpstreamLookup {
    /// The upstream reference exists.
    Resolved,
    /// The lookup failed because the upstream reference does not exist.
    NotFound,
    /// The lookup failed for another reason; the message describes it.
    Failed(String),
}

/// Everything the classifier needs to know about one branch, as read from
/// the repository.
#[derive(Clone, Debug)]
pub struct BranchFacts {
    pub kind: BranchKind,
    /// The branch's short name, or `None` when it cannot be read as text.
    pub name: Option<String>,
    /// True when this branch is the one currently checked out.
    pub is_head: bool,
    /// True when the configuration names a remote for this branch.
    pub has_upstream_configured: bool,
    /// Outcome of resolving the upstream reference.
    pub upstream: UpstreamLookup,
    /// Hexadecimal object id of the branch tip, when the branch points
    /// directly at an object.
    pub tip: Option<String>,
}

/// Where a branch ends up once it has been examined.
#[derive(Clone, Copy, Debug, PartialEq, Eq, Structural)]
pub enum Verdict {
    /// A remote branch: never considered.
    Skipped,
    /// A local branch whose tracking relationship is intact or absent.
    UpToDate,
    /// A gone branch that is checked out: reported, never deleted.
    CheckedOutGone,
    /// A gone branch that may be deleted.
    Deletable,
}

/// Why a branch could not be examined.
#[derive(Clone, Copy, Debug, PartialEq, Eq, Structural)]
pub enum Fault {
    /// The branch name is not valid text.
    UnreadableName,
    /// Resolving the configured upstream failed for a reason other than
    /// the upstream being absent.
    UpstreamUnresolvable,
    /// The branch to delete has no object id of at least `SHORT_ID_LEN` characters.
    InvalidTip,
}

/// A gone branch has an upstream configured that no longer resolves.
pub open spec fn is_gone(b: BranchFacts) -> bool {
    b.has_upstream_configured && b.upstream is NotFound
}

pub open spec fn tip_is_valid(b: BranchFacts) -> bool {
    b.tip is Some && b.tip->Some_0@.len() >= SHORT_ID_LEN
}

pub open spec fn verdict(b: BranchFacts) -> Verdict {
    if b.kind == BranchKind::Remote {
        Verdict::Skipped
    } else if !is_gone(b) {
        Verdict::UpToDate
    } else if b.is_head {
        Verdict::CheckedOutGone
    } else {
        Verdict::Deletable
    }
}

/// The first problem met while examining a branch, in the order in which
/// its facts are consulted: name, then upstream, then tip.
pub open spec fn fault_of(b: BranchFacts) -> Option<Fault> {
    if b.kind == BranchKind::Remote {
        None
    } else if b.name is None {
        Some(Fault::UnreadableName)
    } else if b.has_upstream_configured && b.upstream is Failed {
        Some(Fault::UpstreamUnresolvable)
    } else if verdict(b) == Verdict::Deletable && !tip_is_valid(b) {
        Some(Fault::InvalidTip)
    } else {
        None
    }
}

pub open spec fn outcome(b: BranchFacts) -> Result<Verdict, Fault> {
    match fault_of(b) {
        Some(f) => Err(f),
        None => Ok(verdict(b)),
    }
}

/// Examines one branch: says where it belongs, or why it cannot be placed.
pub fn examine(b: &BranchFacts) -> (r: Result<Verdict, Fault>)
    ensures
        r == outcome(*b),
{
    if b.kind == BranchKind::Remote {
        return Ok(Verdict::Skipped);
    }
    if b.name.is_none() {
        return Err(Fault::UnreadableName);
    }
    let gone = if b.has_upstream_configured {
        match &b.upstream {
            UpstreamLookup::Resolved => false,
            UpstreamLookup::NotFound => true,
            UpstreamLookup::Failed(_) => {
                return Err(Fault::UpstreamUnresolvable);
            },
        }
    } else {
        false
    };
    if !gone {
        Ok(Verdict::UpToDate)
    } else if b.is_head {
        Ok(Verdict::CheckedOutGone)
    } else {
        match &b.tip {
            Some(t) => {
                if t.as_str().unicode_len() >= SHORT_ID_LEN {
                    Ok(Verdict::Deletable)
                } else {
                    Err(Fault::InvalidTip)
                }
            },
            None => Err(Fault::InvalidTip),
        }
    }
}

/// A local branch with no upstream configured is never gone, whatever its
/// upstream lookup reports.
pub proof fn lemma_unconfigured_is_up_to_date(b: BranchFacts)
    requires
        b.kind == BranchKind::Local,
        b.name is Some,
        !b.has_upstream_configured,
    ensures
        !is_gone(b),
        outcome(b) == Ok::<Verdict, Fault>(Verdict::UpToDate),
{
}

/// A local branch whose configured upstream resolves is up to date.
pub proof fn lemma_resolved_is_up_to_date(b: BranchFacts)
    requires
        b.kind == BranchKind::Local,
        b.name is Some,
        b.has_upstream_configured,
        b.upstream is Resolved,
    ensures
        !is_gone(b),
        outcome(b) == Ok::<Verdict, Fault>(Verdict::UpToDate),
{
}

/// A local branch whose configured upstream is not found is gone: it is only
/// reported when checked out, and deletable otherwise.
pub proof fn lemma_not_found_is_gone(b: BranchFacts)
    requires
        b.kind == BranchKind::Local,
        b.name is Some,
        b.has_upstream_configured,
        b.upstream is NotFound,
    ensures
        is_gone(b),
        b.is_head ==> outcome(b) == Ok::<Verdict, Fault>(Verdict::CheckedOutGone),
        !b.is_head && tip_is_valid(b) ==> outcome(b) == Ok::<Verdict, Fault>(Verdict::Deletable),
        !b.is_head && !tip_is_valid(b) ==> outcome(b) == Err::<Verdict, Fault>(Fault::InvalidTip),
{
}

/// A remote branch is skipped, whatever else is known of it.
pub proof fn lemma_remote_is_skipped(b: BranchFacts)
    requires
        b.kind == BranchKind::Remote,
    ensures
        outcome(b) == Ok::<Verdict, Fault>(Verdict::Skipped),
{
}

} // verus!
