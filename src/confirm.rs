use vstd::prelude::*;

use crate::classify::{
    classification, lemma_entries_come_from_local_branches, name_of, texts, CandidateView,
    Classification, ClassificationView,
};
use crate::facts::{is_gone, BranchFacts, BranchKind};

verus! {

/// The one answer that approves deletion.
pub open spec fn approval() -> Seq<char> {
    "y\n"@
}

pub open spec fn candidate_line(c: CandidateView) -> Seq<char> {
    "  - "@ + c.name + " ("@ + c.short_id + ")\n"@
}

pub open spec fn candidate_lines(s: Seq<CandidateView>) -> Seq<char>
    decreases s.len(),
{
    if s.len() == 0 {
        Seq::empty()
    } else {
        candidate_lines(s.drop_last()) + candidate_line(s.last())
    }
}

/// What is shown before asking: nothing when no branch can be deleted;
/// otherwise a blank line if a warning was given, the list of candidates and
/// the question, which ends without a newline.
pub open spec fn prompt_spec(c: ClassificationView) -> Seq<char> {
    if c.deletable.len() == 0 {
        Seq::empty()
    } else {
        (if c.warnings.len() > 0 {
            "\n"@
        } else {
            Seq::empty()
        }) + "Do you want to delete the following branches?\n"@ + candidate_lines(c.deletable)
            + "Are you sure? [y/n]: "@
    }
}

pub open spec fn candidate_names(s: Seq<CandidateView>) -> Seq<Seq<char>> {
    s.map_values(|c: CandidateView| c.name)
}

/// The branches to delete given the answer read: all candidates when the
/// answer approves, none otherwise.
pub open spec fn chosen_names(c: ClassificationView, answer: Seq<char>) -> Seq<Seq<char>> {
    if answer == approval() {
        candidate_names(c.deletable)
    } else {
        Seq::empty()
    }
}

/// After a successful classification, a refusal deletes nothing, and every
/// name chosen for deletion is that of a listed local branch that is gone and
/// not checked out.
pub proof fn lemma_only_gone_branches_are_deleted(s: Seq<BranchFacts>, answer: Seq<char>)
    requires
        classification(s) is Ok,
    ensures
        answer != approval() ==> chosen_names(classification(s)->Ok_0, answer).len() == 0,
        forall|n: Seq<char>| #[trigger]
            chosen_names(classification(s)->Ok_0, answer).contains(n) ==> exists|b: BranchFacts|
                #[trigger] s.contains(b) && b.kind == BranchKind::Local && is_gone(b) && !b.is_head
                    && name_of(b) == n,
{
    let c = classification(s)->Ok_0;
    lemma_entries_come_from_local_branches(s);
    assert forall|n: Seq<char>| #[trigger] chosen_names(c, answer).contains(n) implies exists|
        b: BranchFacts,
    | #[trigger] s.contains(b) && b.kind == BranchKind::Local && is_gone(b) && !b.is_head
        && name_of(b) == n by {
        let k = choose|k: int| 0 <= k < chosen_names(c, answer).len() && chosen_names(c, answer)[k] == n;
        assert(c.deletable.contains(c.deletable[k]));
    }
}

/// True exactly when the line read is `y` followed by a newline; any other
/// line, including `Y`, `yes` or an empty one, is a refusal.
pub fn confirms(answer: &str) -> (r: bool)
    ensures
        r == (answer@ == approval()),
{
    proof {
        reveal_strlit("y\n");
    }
    if answer.unicode_len() != 2 {
        return false;
    }
    let first = answer.get_char(0);
    let second = answer.get_char(1);
    proof {
        if first == 'y' && second == '\n' {
            assert(answer@ =~= approval());
        }
    }
    first == 'y' && second == '\n'
}

/// The text printed before reading the answer; empty when there is nothing
/// to delete, in which case no question is asked.
pub fn prompt_text(c: &Classification) -> (r: String)
    ensures
        r@ == prompt_spec(c@),
        c.deletable@.len() == 0 <==> r@.len() == 0,
{
    let mut text = String::new();
    if c.deletable.len() == 0 {
        return text;
    }
    if c.warnings.len() > 0 {
        text.append("\n");
    }
    text.append("Do you want to delete the following branches?\n");
    let ghost start = text@;
    let mut i: usize = 0;
    while i < c.deletable.len()
        invariant
            i <= c.deletable.len(),
            text@ == start + candidate_lines(c@.deletable.take(i as int)),
        decreases c.deletable.len() - i,
    {
        let d = &c.deletable[i];
        text.append("  - ");
        text.append(d.name.as_str());
        text.append(" (");
        text.append(d.short_id.as_str());
        text.append(")\n");
        proof {
            let t = c@.deletable.take(i + 1);
            assert(t.drop_last() =~= c@.deletable.take(i as int));
            assert(t.last() == d@);
            assert(text@ =~= start + candidate_lines(t));
        }
        i = i + 1;
    }
    text.append("Are you sure? [y/n]: ");
    proof {
        assert(c@.deletable.take(i as int) =~= c@.deletable);
        reveal_strlit("Are you sure? [y/n]: ");
    }
    text
}

/// The names of the branches to delete once `answer` has been read.
pub fn branches_to_delete(c: &Classification, answer: &str) -> (r: Vec<String>)
    ensures
        texts(r@) == chosen_names(c@, answer@),
{
    let mut names: Vec<String> = Vec::new();
    if !confirms(answer) {
        assert(texts(names@) =~= Seq::<Seq<char>>::empty());
        return names;
    }
    let mut i: usize = 0;
    while i < c.deletable.len()
        invariant
            i <= c.deletable.len(),
            answer@ == approval(),
            names@.len() == i,
            forall|j: int| 0 <= j < i ==> #[trigger] names@[j]@ == c.deletable@[j].name@,
        decreases c.deletable.len() - i,
    {
        let name = c.deletable[i].name.clone();
        names.push(name);
        i = i + 1;
    }
    proof {
        assert(texts(names@) =~= candidate_names(c@.deletable));
    }
    names
}

} // verus!
