//! The placeholder that points at the real downloads.
use vstd::prelude::*;
use vstd::string::*;
use crate::text::{chars_of, string_of};

verus! {

/// A text without the slashes at its end.
pub open spec fn without_slashes(s: Seq<char>) -> Seq<char>
    decreases s.len(),
{
    if s.len() > 0 && s.last() == '/' {
        without_slashes(s.drop_last())
    } else {
        s
    }
}

/// Where the releases are.
pub open spec fn releases_text(repo: Seq<char>) -> Seq<char> {
    if repo.len() == 0 {
        "https://github.com/kryptic-sh/buffr/releases"@
    } else {
        without_slashes(repo) + "/releases"@
    }
}

/// Where the releases are.
pub fn releases_url(repo: &str) -> (r: String)
    ensures
        r@ == releases_text(repo@),
{
    if repo.is_empty() {
        return "https://github.com/kryptic-sh/buffr/releases".to_owned();
    }
    let v = chars_of(repo);
    let mut n: usize = v.len();
    proof {
        assert(v@.take(v@.len() as int) =~= v@);
    }
    while n > 0 && v[n - 1] == '/'
        invariant
            n <= v@.len(),
            without_slashes(v@.take(n as int)) == without_slashes(v@),
        decreases n,
    {
        proof {
            assert(v@.take(n as int).drop_last() =~= v@.take(n - 1));
        }
        n = n - 1;
    }
    let mut out = string_of(&v, 0, n);
    proof {
        assert(out@ =~= v@.take(n as int));
        assert(out@ == without_slashes(v@)) by {
            if n > 0 {
                assert(v@.take(n as int).last() == v@[n - 1]);
            }
        }
    }
    out.append("/releases");
    out
}

/// Law: the releases lie right below the repository, however many slashes its
/// address ends with; without an address they are looked for at the project's own.
pub proof fn law_releases_lie_below_the_repository(repo: Seq<char>)
    ensures
        repo.len() > 0 && repo.last() != '/' ==> releases_text(repo) == repo + "/releases"@,
        repo.len() > 0 ==> releases_text(repo.push('/')) == releases_text(repo),
        releases_text(Seq::empty()) == "https://github.com/kryptic-sh/buffr/releases"@,
{
    assert(repo.push('/').drop_last() =~= repo);
    assert(repo.push('/').last() == '/');
}

} // verus!
