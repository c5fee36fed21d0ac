//! Where a command may be found: one candidate file per directory of a
//! colon-separated search path.
use vstd::prelude::*;
use vstd::string::StringExecFns;
use crate::bar::ids_of;

verus! {

/// The pieces of `s` between the occurrences of `sep`; an empty `s` is one
/// empty piece.
pub open spec fn split_on(s: Seq<char>, sep: char) -> Seq<Seq<char>>
    decreases s.len(),
{
    if s.len() == 0 {
        seq![Seq::empty()]
    } else {
        let prev = split_on(s.drop_last(), sep);
        if s.last() == sep {
            prev.push(Seq::empty())
        } else {
            prev.update(prev.len() - 1, prev.last().push(s.last()))
        }
    }
}

/// Relies on str::split with a `char` pattern: the substrings between the
/// occurrences of `sep`, in order, an empty one included wherever two
/// separators meet or one stands at an end.
#[verifier::external_body]
fn split_text(s: &str, sep: char) -> (r: Vec<String>)
    ensures
        ids_of(r@) == split_on(s@, sep),
{
    s.split(sep).map(|p| p.to_string()).collect()
}

/// The files at which `cmd` may be found: `<dir>/<cmd>` for each directory
/// `dir` of the colon-separated `search_path`, in order.
pub fn command_candidates(search_path: &String, cmd: &String) -> (r: Vec<String>)
    ensures
        r@.len() == split_on(search_path@, ':').len(),
        forall|i: int|
            0 <= i < r@.len() ==> #[trigger] r@[i]@ == split_on(search_path@, ':')[i] + "/"@
                + cmd@,
{
    let dirs = split_text(search_path.as_str(), ':');
    let ghost pieces = split_on(search_path@, ':');
    let mut out: Vec<String> = Vec::new();
    let mut i: usize = 0;
    while i < dirs.len()
        invariant
            i <= dirs@.len(),
            ids_of(dirs@) == pieces,
            out@.len() == i,
            forall|j: int| 0 <= j < i ==> #[trigger] out@[j]@ == pieces[j] + "/"@ + cmd@,
        decreases dirs@.len() - i,
    {
        let mut candidate = dirs[i].clone();
        candidate.append("/");
        candidate.append(cmd.as_str());
        assert(pieces[i as int] == dirs@[i as int]@);
        out.push(candidate);
        i = i + 1;
    }
    out
}

} // verus!
