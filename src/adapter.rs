//! What one run of an external listing command hands back.
use vstd::prelude::*;

verus! {

/// The captured result of one external query: whether it reported
/// success, and its standard output and error as text.
#[derive(Debug, PartialEq, Eq)]
pub struct QueryOutput {
    pub success: bool,
    pub stdout: String,
    pub stderr: String,
}

impl QueryOutput {
    pub fn new(success: bool, stdout: String, stderr: String) -> (r: Self)
        ensures
            r.success == success,
            r.stdout == stdout,
            r.stderr == stderr,
    {
        QueryOutput { success, stdout, stderr }
    }
}

/// The first element of each `Some`, in order.
pub open spec fn somes<T>(s: Seq<Option<T>>) -> Seq<T>
    decreases s.len(),
{
    if s.len() == 0 {
        Seq::empty()
    } else {
        let prev = somes(s.drop_last());
        match s.last() {
            Some(x) => prev.push(x),
            None => prev,
        }
    }
}

/// The lines of a listing after its column header.
pub open spec fn body_lines(out: Seq<char>) -> Seq<Seq<char>> {
    let ls = crate::text::lines_of(out);
    if ls.len() == 0 {
        ls
    } else {
        ls.drop_first()
    }
}

} // verus!
