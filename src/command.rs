use vstd::prelude::*;

use crate::classify::texts;

verus! {

/// The configuration key that records which remote a local branch tracks.
pub open spec fn upstream_config_key_spec(name: Seq<char>) -> Seq<char> {
    "branch."@ + name + ".remote"@
}

/// Builds `branch.<name>.remote`, the key whose presence says that `name`
/// has an upstream configured.
pub fn upstream_config_key(name: &str) -> (r: String)
    ensures
        r@ == upstream_config_key_spec(name@),
{
    let mut key = String::from_str("branch.");
    key.append(name);
    key.append(".remote");
    key
}

/// The arguments handed to `git` to force-delete the named local branches in
/// one invocation: `branch -D` followed by the names, in order.
pub fn delete_command_args(names: &Vec<String>) -> (r: Vec<String>)
    ensures
        texts(r@) == seq!["branch"@, "-D"@] + texts(names@),
{
    let mut args: Vec<String> = Vec::new();
    args.push(String::from_str("branch"));
    args.push(String::from_str("-D"));
    let mut i: usize = 0;
    while i < names.len()
        invariant
            i <= names.len(),
            args@.len() == i + 2,
            args@[0]@ == "branch"@,
            args@[1]@ == "-D"@,
            forall|j: int| 0 <= j < i ==> #[trigger] args@[j + 2]@ == names@[j]@,
        decreases names.len() - i,
    {
        args.push(names[i].clone());
        i = i + 1;
    }
    proof {
        let want = seq!["branch"@, "-D"@] + texts(names@);
        assert forall|j: int| 0 <= j < args@.len() implies texts(args@)[j] == want[j] by {
            if j >= 2 {
                assert(args@[(j - 2) + 2]@ == names@[j - 2]@);
            }
        }
        assert(texts(args@) =~= want);
    }
    args
}

} // verus!
