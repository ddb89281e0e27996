//! What the library asks of its surroundings.
//!
//! The library never looks at the machine itself. Where it needs to know
//! whether a file exists or whether a program runs, the caller hands it a
//! function from a path to an answer. The contracts speak of such a function
//! through the set of paths of which it says yes.

use vstd::prelude::*;

verus! {

/// `f` can be asked about every path.
pub open spec fn answers_all<F: Fn(&str) -> bool>(f: F) -> bool {
    forall|s: &str| call_requires(f, (s,))
}

/// Asked about the path `p`, `f` may answer `b`.
pub open spec fn may_say<F: Fn(&str) -> bool>(f: F, p: Seq<char>, b: bool) -> bool {
    exists|s: &str| s@ == p && call_ensures(f, (s,), b)
}

/// Every answer of `f` says whether the path it was asked about is in
/// `facts`.
pub open spec fn reports<F: Fn(&str) -> bool>(f: F, facts: Set<Seq<char>>) -> bool {
    forall|s: &str, b: bool| call_ensures(f, (s,), b) ==> b == facts.contains(s@)
}

} // verus!
