use vstd::prelude::*;

use crate::facts::{examine, fault_of, verdict, BranchFacts, BranchKind, Fault, Verdict, SHORT_ID_LEN};

verus! {

/// A gone branch chosen for deletion, captured before anything is deleted.
#[derive(Clone, Debug)]
pub struct DeletionCandidate {
    pub name: String,
    /// The first `SHORT_ID_LEN` characters of the tip's object id.
    pub short_id: String,
}

pub struct CandidateView {
    pub name: Seq<char>,
    pub short_id: Seq<char>,
}

impl View for DeletionCandidate {
    type V = CandidateView;

    open spec fn view(&self) -> CandidateView {
        CandidateView { name: self.name@, short_id: self.short_id@ }
    }
}

/// The local branches split by what is to be done with them, each part in
/// the order in which the branches were listed.
#[derive(Clone, Debug)]
pub struct Classification {
    /// Names of gone branches that are checked out.
    pub warnings: Vec<String>,
    /// Gone branches that may be deleted.
    pub deletable: Vec<DeletionCandidate>,
    /// Names of branches that are not gone.
    pub up_to_date: Vec<String>,
}

pub struct ClassificationView {
    pub warnings: Seq<Seq<char>>,
    pub deletable: Seq<CandidateView>,
    pub up_to_date: Seq<Seq<char>>,
}

pub open spec fn texts(v: Seq<String>) -> Seq<Seq<char>> {
    v.map_values(|s: String| s@)
}

pub open spec fn candidate_views(v: Seq<DeletionCandidate>) -> Seq<CandidateView> {
    v.map_values(|c: DeletionCandidate| c@)
}

impl View for Classification {
    type V = ClassificationView;

    open spec fn view(&self) -> ClassificationView {
        ClassificationView {
            warnings: texts(self.warnings@),
            deletable: candidate_views(self.deletable@),
            up_to_date: texts(self.up_to_date@),
        }
    }
}

/// The branch at `index` could not be examined, for the reason `fault`.
#[derive(Clone, Copy, Debug, PartialEq, Eq, Structural)]
pub struct ClassifyError {
    pub index: usize,
    pub fault: Fault,
}

pub open spec fn name_of(b: BranchFacts) -> Seq<char> {
    b.name->Some_0@
}

pub open spec fn candidate_of(b: BranchFacts) -> CandidateView {
    CandidateView { name: name_of(b), short_id: b.tip->Some_0@.subrange(0, SHORT_ID_LEN as int) }
}

pub open spec fn warned_entry(b: BranchFacts) -> Option<Seq<char>> {
    if verdict(b) == Verdict::CheckedOutGone {
        Some(name_of(b))
    } else {
        None
    }
}

pub open spec fn deletable_entry(b: BranchFacts) -> Option<CandidateView> {
    if verdict(b) == Verdict::Deletable {
        Some(candidate_of(b))
    } else {
        None
    }
}

pub open spec fn up_to_date_entry(b: BranchFacts) -> Option<Seq<char>> {
    if verdict(b) == Verdict::UpToDate {
        Some(name_of(b))
    } else {
        None
    }
}

pub open spec fn warned_names(s: Seq<BranchFacts>) -> Seq<Seq<char>> {
    s.filter_map(|b: BranchFacts| warned_entry(b))
}

pub open spec fn deletable_candidates(s: Seq<BranchFacts>) -> Seq<CandidateView> {
    s.filter_map(|b: BranchFacts| deletable_entry(b))
}

pub open spec fn up_to_date_names(s: Seq<BranchFacts>) -> Seq<Seq<char>> {
    s.filter_map(|b: BranchFacts| up_to_date_entry(b))
}

/// The fault of the first branch, in listing order, that cannot be examined.
pub open spec fn first_fault(s: Seq<BranchFacts>) -> Option<ClassifyError>
    decreases s.len(),
{
    if s.len() == 0 {
        None
    } else {
        match first_fault(s.drop_last()) {
            Some(e) => Some(e),
            None => match fault_of(s.last()) {
                Some(f) => Some(ClassifyError { index: (s.len() - 1) as usize, fault: f }),
                None => None,
            },
        }
    }
}

pub open spec fn classification(s: Seq<BranchFacts>) -> Result<ClassificationView, ClassifyError> {
    match first_fault(s) {
        Some(e) => Err(e),
        None => Ok(
            ClassificationView {
                warnings: warned_names(s),
                deletable: deletable_candidates(s),
                up_to_date: up_to_date_names(s),
            },
        ),
    }
}

/// A fault found in a prefix of the list is the first fault of the whole list.
proof fn lemma_first_fault_of_prefix(s: Seq<BranchFacts>, k: int)
    requires
        0 <= k <= s.len(),
        first_fault(s.take(k)) is Some,
    ensures
        first_fault(s) == first_fault(s.take(k)),
    decreases s.len(),
{
    if k == s.len() {
        assert(s.take(k) =~= s);
    } else {
        assert(s.drop_last().take(k) =~= s.take(k));
        lemma_first_fault_of_prefix(s.drop_last(), k);
    }
}

/// Whatever `f` keeps of the element at `i` is among `s.filter_map(f)`.
proof fn lemma_filter_map_keeps<A, B>(s: Seq<A>, f: spec_fn(A) -> Option<B>, i: int)
    requires
        0 <= i < s.len(),
        f(s[i]) is Some,
    ensures
        s.filter_map(f).contains(f(s[i])->Some_0),
    decreases s.len(),
{
    let y = f(s[i])->Some_0;
    let p = s.drop_last().filter_map(f);
    if i == s.len() - 1 {
        assert(s.filter_map(f) == p + seq![y]);
        assert(s.filter_map(f)[p.len() as int] == y);
    } else {
        assert(s.drop_last()[i] == s[i]);
        lemma_filter_map_keeps(s.drop_last(), f, i);
        let k = choose|k: int| 0 <= k < p.len() && p[k] == y;
        assert(s.filter_map(f)[k] == y);
    }
}

/// When classification succeeds, each local branch stands in the part that
/// its verdict names: checked-out gone branches among the warnings, other
/// gone branches among the deletable ones, the rest among the up-to-date ones.
pub proof fn lemma_branch_is_placed(s: Seq<BranchFacts>, i: int)
    requires
        0 <= i < s.len(),
        classification(s) is Ok,
    ensures
        verdict(s[i]) == Verdict::CheckedOutGone ==> classification(s)->Ok_0.warnings.contains(
            name_of(s[i]),
        ),
        verdict(s[i]) == Verdict::Deletable ==> classification(s)->Ok_0.deletable.contains(
            candidate_of(s[i]),
        ),
        verdict(s[i]) == Verdict::UpToDate ==> classification(s)->Ok_0.up_to_date.contains(
            name_of(s[i]),
        ),
{
    if verdict(s[i]) == Verdict::CheckedOutGone {
        lemma_filter_map_keeps(s, |b: BranchFacts| warned_entry(b), i);
    }
    if verdict(s[i]) == Verdict::Deletable {
        lemma_filter_map_keeps(s, |b: BranchFacts| deletable_entry(b), i);
    }
    if verdict(s[i]) == Verdict::UpToDate {
        lemma_filter_map_keeps(s, |b: BranchFacts| up_to_date_entry(b), i);
    }
}

/// Every entry of a successful classification stands for some local branch
/// of the list whose verdict is that part's: remote branches appear nowhere,
/// and a checked-out branch is never offered for deletion.
pub proof fn lemma_entries_come_from_local_branches(s: Seq<BranchFacts>)
    requires
        classification(s) is Ok,
    ensures
        forall|x: CandidateView| #[trigger]
            classification(s)->Ok_0.deletable.contains(x) ==> exists|b: BranchFacts|
                #[trigger] s.contains(b) && b.kind == BranchKind::Local && !b.is_head && verdict(b)
                    == Verdict::Deletable && candidate_of(b) == x,
        forall|n: Seq<char>| #[trigger]
            classification(s)->Ok_0.warnings.contains(n) ==> exists|b: BranchFacts|
                #[trigger] s.contains(b) && b.kind == BranchKind::Local && b.is_head && verdict(b)
                    == Verdict::CheckedOutGone && name_of(b) == n,
        forall|n: Seq<char>| #[trigger]
            classification(s)->Ok_0.up_to_date.contains(n) ==> exists|b: BranchFacts|
                #[trigger] s.contains(b) && b.kind == BranchKind::Local && verdict(b)
                    == Verdict::UpToDate && name_of(b) == n,
{
    assert forall|x: CandidateView| #[trigger]
        classification(s)->Ok_0.deletable.contains(x) implies exists|b: BranchFacts|
            #[trigger] s.contains(b) && b.kind == BranchKind::Local && !b.is_head && verdict(b)
                == Verdict::Deletable && candidate_of(b) == x by {
        s.lemma_filter_map_contains(|b: BranchFacts| deletable_entry(b), x);
    }
    assert forall|n: Seq<char>| #[trigger]
        classification(s)->Ok_0.warnings.contains(n) implies exists|b: BranchFacts|
            #[trigger] s.contains(b) && b.kind == BranchKind::Local && b.is_head && verdict(b)
                == Verdict::CheckedOutGone && name_of(b) == n by {
        s.lemma_filter_map_contains(|b: BranchFacts| warned_entry(b), n);
    }
    assert forall|n: Seq<char>| #[trigger]
        classification(s)->Ok_0.up_to_date.contains(n) implies exists|b: BranchFacts|
            #[trigger] s.contains(b) && b.kind == BranchKind::Local && verdict(b)
                == Verdict::UpToDate && name_of(b) == n by {
        s.lemma_filter_map_contains(|b: BranchFacts| up_to_date_entry(b), n);
    }
}

/// The abbreviated object id shown for a branch tip.
pub fn short_id(tip: &str) -> (r: String)
    requires
        tip@.len() >= SHORT_ID_LEN,
    ensures
        r@ == tip@.subrange(0, SHORT_ID_LEN as int),
{
    String::from_str(tip.substring_char(0, SHORT_ID_LEN))
}

/// Splits the listed branches into checked-out gone branches, deletable gone
/// branches and branches that are not gone. Remote branches are left out;
/// the first branch that cannot be examined stops the whole classification.
pub fn classify(branches: &Vec<BranchFacts>) -> (r: Result<Classification, ClassifyError>)
    ensures
        match r {
            Ok(c) => classification(branches@) == Ok::<ClassificationView, ClassifyError>(c@),
            Err(e) => classification(branches@) == Err::<ClassificationView, ClassifyError>(e),
        },
{
    let mut warnings: Vec<String> = Vec::new();
    let mut deletable: Vec<DeletionCandidate> = Vec::new();
    let mut up_to_date: Vec<String> = Vec::new();
    let mut i: usize = 0;
    while i < branches.len()
        invariant
            i <= branches.len(),
            first_fault(branches@.take(i as int)) is None,
            texts(warnings@) == warned_names(branches@.take(i as int)),
            candidate_views(deletable@) == deletable_candidates(branches@.take(i as int)),
            texts(up_to_date@) == up_to_date_names(branches@.take(i as int)),
        decreases branches.len() - i,
    {
        let b = &branches[i];
        let ghost s = branches@;
        proof {
            assert(s.take(i + 1).drop_last() =~= s.take(i as int));
            assert(s.take(i + 1).last() == s[i as int]);
            s.lemma_filter_map_take_succ(|b: BranchFacts| warned_entry(b), i as int);
            s.lemma_filter_map_take_succ(|b: BranchFacts| deletable_entry(b), i as int);
            s.lemma_filter_map_take_succ(|b: BranchFacts| up_to_date_entry(b), i as int);
        }
        match examine(b) {
            Err(f) => {
                proof {
                    lemma_first_fault_of_prefix(s, i + 1);
                }
                return Err(ClassifyError { index: i, fault: f });
            },
            Ok(Verdict::Skipped) => {},
            Ok(Verdict::UpToDate) => {
                up_to_date.push(b.name.as_ref().unwrap().clone());
            },
            Ok(Verdict::CheckedOutGone) => {
                warnings.push(b.name.as_ref().unwrap().clone());
            },
            Ok(Verdict::Deletable) => {
                let id = short_id(b.tip.as_ref().unwrap().as_str());
                deletable.push(DeletionCandidate { name: b.name.as_ref().unwrap().clone(), short_id: id });
            },
        }
        proof {
            assert(texts(warnings@) =~= warned_names(s.take(i + 1)));
            assert(candidate_views(deletable@) =~= deletable_candidates(s.take(i + 1)));
            assert(texts(up_to_date@) =~= up_to_date_names(s.take(i + 1)));
        }
        i = i + 1;
    }
    proof {
        assert(branches@.take(i as int) =~= branches@);
    }
    Ok(Classification { warnings, deletable, up_to_date })
}

} // verus!
