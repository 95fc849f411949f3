//! The engine's helper process.
use vstd::prelude::*;
use vstd::string::*;
use crate::text::after_prefix;

verus! {

/// Whether argument `i` is the first that names an engine.
pub open spec fn names_engine(args: Seq<&str>, i: int) -> bool {
    &&& 0 <= i < args.len()
    &&& "--buffr-engine-id="@.is_prefix_of(args[i]@)
    &&& forall|k: int| 0 <= k < i ==> !"--buffr-engine-id="@.is_prefix_of((#[trigger] args[k])@)
}

/// The engine that the arguments name: what follows `--buffr-engine-id=` in the
/// first argument that begins with it.
pub fn extract_engine_id(args: &[&str]) -> (r: Option<String>)
    ensures
        match r {
            Some(id) => exists|i: int| #[trigger]
                names_engine(args@, i) && args@[i]@ == "--buffr-engine-id="@ + id@,
            None => forall|i: int|
                0 <= i < args@.len() ==> !"--buffr-engine-id="@.is_prefix_of((#[trigger] args@[i])@),
        },
{
    let mut i: usize = 0;
    while i < args.len()
        invariant
            i <= args@.len(),
            forall|k: int|
                0 <= k < i ==> !"--buffr-engine-id="@.is_prefix_of((#[trigger] args@[k])@),
        decreases args.len() - i,
    {
        if let Some(id) = after_prefix(args[i], "--buffr-engine-id=") {
            proof {
                assert(names_engine(args@, i as int));
            }
            return Some(id);
        }
        i = i + 1;
    }
    None
}

/// Law: only one argument names the engine, the first that begins so; others that
/// begin so later play no part.
pub proof fn law_first_argument_names_the_engine(args: Seq<&str>, more: Seq<&str>, i: int, j: int)
    requires
        names_engine(args, i),
    ensures
        "--buffr-engine-id="@.is_prefix_of(args[i]@),
        names_engine(args + more, i),
        names_engine(args + more, j) ==> i == j,
{
    let all = args + more;
    assert forall|k: int| 0 <= k < i implies !"--buffr-engine-id="@.is_prefix_of(
        (#[trigger] all[k])@,
    ) by {
        assert(all[k] == args[k]);
    }
    assert(all[i] == args[i]);
    if names_engine(all, j) {
        if i < j {
            assert(!"--buffr-engine-id="@.is_prefix_of(all[i]@));
        } else if j < i {
            assert(!"--buffr-engine-id="@.is_prefix_of(args[j]@));
            assert(all[j] == args[j]);
        }
    }
}

} // verus!
