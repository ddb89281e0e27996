//! Finding the `ffmpeg` binary: the first place, in order of preference,
//! where a file is present and answers when it is asked for its version.

use vstd::prelude::*;
use crate::capability::{answers_all, may_say, reports};
use crate::path::{join, joined};
use crate::platform::{tool, tool_name, Platform};

verus! {

/// What is true of the machine while a search runs: which paths hold a
/// file, and which programs, called by a path or by their bare name, run
/// and end well when asked for their version.
pub struct Machine {
    pub files: Set<Seq<char>>,
    pub working: Set<Seq<char>>,
}

impl Machine {
    /// The two capabilities tell the truth about this machine: `file_exists`
    /// about its files, `runs` about its programs.
    pub open spec fn shown_by<E: Fn(&str) -> bool, P: Fn(&str) -> bool>(
        self,
        file_exists: E,
        runs: P,
    ) -> bool {
        reports(file_exists, self.files) && reports(runs, self.working)
    }

    /// The candidate `c` can be used: it is the bare `command`, which the
    /// system looks up by itself, or a file that is present; and it runs.
    pub open spec fn accepts(self, command: Seq<char>, c: Seq<char>) -> bool {
        (c == command || self.files.contains(c)) && self.working.contains(c)
    }

    /// The fallback `f` can be used: the file is present and runs.
    pub open spec fn accepts_fallback(self, f: Seq<char>) -> bool {
        self.files.contains(f) && self.working.contains(f)
    }
}

/// The answers that the capabilities may give let the candidate `c` pass:
/// it is the bare `command` or `file_exists` may say yes, and `runs` may say
/// yes.
pub open spec fn may_pass<E: Fn(&str) -> bool, P: Fn(&str) -> bool>(
    command: Seq<char>,
    file_exists: E,
    runs: P,
    c: Seq<char>,
) -> bool {
    (c == command || may_say(file_exists, c, true)) && may_say(runs, c, true)
}

/// The answers that the capabilities may give let the candidate `c` fail:
/// it is not the bare `command` and `file_exists` may say no, or `runs` may
/// say no.
pub open spec fn may_fail<E: Fn(&str) -> bool, P: Fn(&str) -> bool>(
    command: Seq<char>,
    file_exists: E,
    runs: P,
    c: Seq<char>,
) -> bool {
    (c != command && may_say(file_exists, c, false)) || may_say(runs, c, false)
}

/// `r` is what a search may end in, given the answers that the capabilities
/// may give: a candidate that passes after all before it failed; or, after
/// all candidates failed, the fallback, of which both said yes; or nothing,
/// after all candidates failed and one of the two said no of the fallback,
/// if there is one.
pub open spec fn may_locate<E: Fn(&str) -> bool, P: Fn(&str) -> bool>(
    command: Seq<char>,
    candidates: Seq<Seq<char>>,
    fallback: Option<Seq<char>>,
    file_exists: E,
    runs: P,
    r: Option<Seq<char>>,
) -> bool {
    let all_fail = forall|j: int|
        0 <= j < candidates.len() ==> may_fail(command, file_exists, runs, #[trigger] candidates[j]);
    match r {
        Some(path) => {
            ||| exists|i: int|
                {
                    &&& 0 <= i < candidates.len()
                    &&& path == candidates[i]
                    &&& may_pass(command, file_exists, runs, candidates[i])
                    &&& forall|j: int|
                        0 <= j < i ==> may_fail(command, file_exists, runs, #[trigger] candidates[j])
                }
            ||| {
                &&& all_fail
                &&& fallback == Some(path)
                &&& may_say(file_exists, path, true)
                &&& may_say(runs, path, true)
            }
        },
        None => {
            &&& all_fail
            &&& fallback matches Some(f) ==> may_say(file_exists, f, false) || may_say(
                runs,
                f,
                false,
            )
        },
    }
}

/// Candidate `i` can be used and none before it can.
pub open spec fn is_first_accepted(
    command: Seq<char>,
    candidates: Seq<Seq<char>>,
    m: Machine,
    i: int,
) -> bool {
    &&& 0 <= i < candidates.len()
    &&& m.accepts(command, candidates[i])
    &&& forall|j: int| 0 <= j < i ==> !m.accepts(command, #[trigger] candidates[j])
}

/// The result of a search on the machine `m`: the first candidate that can
/// be used; where there is none, the fallback if it can be used; else
/// nothing.
pub open spec fn located(
    command: Seq<char>,
    candidates: Seq<Seq<char>>,
    fallback: Option<Seq<char>>,
    m: Machine,
) -> Option<Seq<char>> {
    if exists|i: int| is_first_accepted(command, candidates, m, i) {
        Some(candidates[choose|i: int| is_first_accepted(command, candidates, m, i)])
    } else if fallback is Some && m.accepts_fallback(fallback->0) {
        fallback
    } else {
        None
    }
}

/// The place of the copy that the application installs for itself, below
/// the home directory `home`; none where the user has no home directory.
pub open spec fn local_copy(p: Platform, home: Option<Seq<char>>) -> Option<Seq<char>> {
    match home {
        Some(dir) => Some(joined(p, dir, p.local_binary_text())),
        None => None,
    }
}

/// Only one candidate can be the first that can be used.
pub proof fn lemma_first_accepted_unique(
    command: Seq<char>,
    candidates: Seq<Seq<char>>,
    m: Machine,
    i: int,
    j: int,
)
    requires
        is_first_accepted(command, candidates, m, i),
        is_first_accepted(command, candidates, m, j),
    ensures
        i == j,
{
    if i < j {
        assert(!m.accepts(command, candidates[i]));
    } else if j < i {
        assert(!m.accepts(command, candidates[j]));
    }
}

/// The first candidate that can be used is the one that is found, whatever
/// follows it in the list and whatever the fallback is.
pub proof fn lemma_located_first(
    command: Seq<char>,
    candidates: Seq<Seq<char>>,
    fallback: Option<Seq<char>>,
    m: Machine,
    i: int,
)
    requires
        is_first_accepted(command, candidates, m, i),
    ensures
        located(command, candidates, fallback, m) == Some(candidates[i]),
{
    let c = choose|c: int| is_first_accepted(command, candidates, m, c);
    lemma_first_accepted_unique(command, candidates, m, i, c);
}

/// Where no candidate can be used, the search comes down to the fallback.
pub proof fn lemma_located_fallback(
    command: Seq<char>,
    candidates: Seq<Seq<char>>,
    fallback: Option<Seq<char>>,
    m: Machine,
)
    requires
        forall|j: int| 0 <= j < candidates.len() ==> !m.accepts(command, #[trigger] candidates[j]),
    ensures
        located(command, candidates, fallback, m) == if fallback is Some && m.accepts_fallback(
            fallback->0,
        ) {
            fallback
        } else {
            None
        },
{
}

/// Among candidates of which some can be used, one is the first.
proof fn lemma_some_first_accepted(
    command: Seq<char>,
    candidates: Seq<Seq<char>>,
    m: Machine,
    i: int,
)
    requires
        0 <= i < candidates.len(),
        m.accepts(command, candidates[i]),
    ensures
        exists|k: int| 0 <= k <= i && is_first_accepted(command, candidates, m, k),
    decreases i,
{
    if exists|j: int| 0 <= j < i && m.accepts(command, candidates[j]) {
        let j = choose|j: int| 0 <= j < i && m.accepts(command, candidates[j]);
        lemma_some_first_accepted(command, candidates, m, j);
    } else {
        assert(is_first_accepted(command, candidates, m, i));
    }
}

/// Where no listed file is present and the bare command does not run, and
/// the fallback cannot be used either, nothing is found.
pub proof fn lemma_nothing_usable_not_found(
    command: Seq<char>,
    candidates: Seq<Seq<char>>,
    fallback: Option<Seq<char>>,
    m: Machine,
)
    requires
        forall|j: int|
            0 <= j < candidates.len() ==> if #[trigger] candidates[j] == command {
                !m.working.contains(candidates[j])
            } else {
                !m.files.contains(candidates[j])
            },
        fallback is Some ==> !m.accepts_fallback(fallback->0),
    ensures
        located(command, candidates, fallback, m) is None,
{
    lemma_located_fallback(command, candidates, fallback, m);
}

/// Where exactly one entry of the list can be used, it is found, wherever in
/// the list it stands.
pub proof fn lemma_only_usable_found(
    command: Seq<char>,
    candidates: Seq<Seq<char>>,
    fallback: Option<Seq<char>>,
    m: Machine,
    i: int,
)
    requires
        0 <= i < candidates.len(),
        m.accepts(command, candidates[i]),
        forall|j: int|
            0 <= j < candidates.len() && j != i ==> !m.accepts(command, #[trigger] candidates[j]),
    ensures
        located(command, candidates, fallback, m) == Some(candidates[i]),
{
    assert(is_first_accepted(command, candidates, m, i));
    lemma_located_first(command, candidates, fallback, m, i);
}

/// Where two entries of the list can be used, the one that stands earlier
/// is found.
pub proof fn lemma_earlier_usable_found(
    command: Seq<char>,
    candidates: Seq<Seq<char>>,
    fallback: Option<Seq<char>>,
    m: Machine,
    i: int,
    j: int,
)
    requires
        0 <= i < j < candidates.len(),
        m.accepts(command, candidates[i]),
        m.accepts(command, candidates[j]),
        forall|k: int|
            0 <= k < candidates.len() && k != i && k != j ==> !m.accepts(
                command,
                #[trigger] candidates[k],
            ),
    ensures
        located(command, candidates, fallback, m) == Some(candidates[i]),
{
    assert(is_first_accepted(command, candidates, m, i));
    lemma_located_first(command, candidates, fallback, m, i);
}

/// What is found is the earliest usable entry of the list: no entry before
/// it can be used. Where the list holds no usable entry, what is found is
/// the usable fallback or nothing.
pub proof fn lemma_located_is_earliest(
    command: Seq<char>,
    candidates: Seq<Seq<char>>,
    fallback: Option<Seq<char>>,
    m: Machine,
)
    ensures
        (exists|i: int| 0 <= i < candidates.len() && m.accepts(command, candidates[i])) ==> exists|
            k: int,
        |
            is_first_accepted(command, candidates, m, k) && located(
                command,
                candidates,
                fallback,
                m,
            ) == Some(candidates[k]),
        !(exists|i: int| 0 <= i < candidates.len() && m.accepts(command, candidates[i])) ==> located(
            command,
            candidates,
            fallback,
            m,
        ) == if fallback is Some && m.accepts_fallback(fallback->0) {
            fallback
        } else {
            None
        },
{
    if exists|i: int| 0 <= i < candidates.len() && m.accepts(command, candidates[i]) {
        let i = choose|i: int| 0 <= i < candidates.len() && m.accepts(command, candidates[i]);
        lemma_some_first_accepted(command, candidates, m, i);
        let k = choose|k: int| 0 <= k <= i && is_first_accepted(command, candidates, m, k);
        lemma_located_first(command, candidates, fallback, m, k);
    } else {
        lemma_located_fallback(command, candidates, fallback, m);
    }
}

/// The home directory of the user, as `dirs::home_dir` gives it, written as
/// text. Nothing is claimed of the answer: it depends on the variables of
/// the process and on the user database of the system, and there may be
/// none.
#[verifier::external_body]
fn home_dir() -> Option<String> {
    match dirs::home_dir() {
        Some(dir) => Some(dir.to_string_lossy().into_owned()),
        None => None,
    }
}

/// Searches for a program among `candidates`, in their order, and then at
/// `fallback`.
///
/// A candidate equal to `command` is a bare command name: the system finds
/// it by itself, so `file_exists` is not asked about it. Of every other
/// candidate, and of the fallback, `file_exists` is asked first, and `runs`
/// only where it said yes. The first place of which `runs` says yes is
/// returned; `None` says that there is none, which is no failure.
pub fn locate<E: Fn(&str) -> bool, P: Fn(&str) -> bool>(
    command: &str,
    candidates: &Vec<String>,
    fallback: &Option<String>,
    file_exists: E,
    runs: P,
) -> (r: Option<String>)
    requires
        answers_all(file_exists),
        answers_all(runs),
    ensures
        may_locate(
            command@,
            candidates.deep_view(),
            fallback.deep_view(),
            file_exists,
            runs,
            r.deep_view(),
        ),
        forall|m: Machine| #[trigger]
            m.shown_by(file_exists, runs) ==> r.deep_view() == located(
                command@,
                candidates.deep_view(),
                fallback.deep_view(),
                m,
            ),
{
    let bare = String::from_str(command);
    let ghost list = candidates.deep_view();
    let mut i: usize = 0;
    while i < candidates.len()
        invariant
            i <= candidates.len(),
            answers_all(file_exists),
            answers_all(runs),
            bare@ == command@,
            list == candidates.deep_view(),
            forall|m: Machine, j: int| #[trigger]
                m.shown_by(file_exists, runs) && 0 <= j < i ==> !m.accepts(
                    command@,
                    #[trigger] list[j],
                ),
            forall|j: int| 0 <= j < i ==> may_fail(command@, file_exists, runs, #[trigger] list[j]),
        decreases candidates.len() - i,
    {
        let c = &candidates[i];
        assert(list[i as int] == c@);
        let present = if *c == bare {
            true
        } else {
            file_exists(c.as_str())
        };
        if present {
            if runs(c.as_str()) {
                let found = c.clone();
                assert forall|m: Machine| #[trigger]
                    m.shown_by(file_exists, runs) implies Some(found@) == located(
                    command@,
                    list,
                    fallback.deep_view(),
                    m,
                ) by {
                    assert(is_first_accepted(command@, list, m, i as int));
                    lemma_located_first(command@, list, fallback.deep_view(), m, i as int);
                }
                return Some(found);
            }
        }
        i = i + 1;
    }
    let r = match fallback {
        Some(f) => {
            if file_exists(f.as_str()) {
                if runs(f.as_str()) {
                    Some(f.clone())
                } else {
                    None
                }
            } else {
                None
            }
        },
        None => None,
    };
    assert forall|m: Machine| #[trigger] m.shown_by(file_exists, runs) implies r.deep_view()
        == located(command@, list, fallback.deep_view(), m) by {
        lemma_located_fallback(command@, list, fallback.deep_view(), m);
    }
    r
}

/// `r` is what the search for `ffmpeg` on `platform` gives for a user whose
/// home directory is `home`: the search through the usual places of the
/// platform in their order, and then at the copy below the home directory
/// that the application installs for itself. It is what such a search may
/// end in, given the answers that the capabilities may give; and on every
/// machine that the two capabilities tell the truth about, it is what is
/// found there.
pub open spec fn is_found_for<E: Fn(&str) -> bool, P: Fn(&str) -> bool>(
    platform: Platform,
    home: Option<Seq<char>>,
    file_exists: E,
    runs: P,
    r: Option<Seq<char>>,
) -> bool {
    &&& may_locate(
        tool_name(),
        platform.candidate_texts(),
        local_copy(platform, home),
        file_exists,
        runs,
        r,
    )
    &&& forall|m: Machine| #[trigger]
        m.shown_by(file_exists, runs) ==> r == located(
            tool_name(),
            platform.candidate_texts(),
            local_copy(platform, home),
            m,
        )
}

/// The search for `ffmpeg` on `platform`, for a user whose home directory is
/// `home`.
pub fn find_ffmpeg_from<E: Fn(&str) -> bool, P: Fn(&str) -> bool>(
    platform: Platform,
    home: &Option<String>,
    file_exists: E,
    runs: P,
) -> (r: Option<String>)
    requires
        answers_all(file_exists),
        answers_all(runs),
    ensures
        is_found_for(platform, home.deep_view(), file_exists, runs, r.deep_view()),
{
    let candidates = platform.candidates();
    let fallback = match home {
        Some(dir) => Some(join(platform, dir.as_str(), platform.local_binary())),
        None => None,
    };
    locate(tool(), &candidates, &fallback, file_exists, runs)
}

/// The search for `ffmpeg` on `platform`, for the user who runs the
/// process. The home directory is asked of the system; the result is that of
/// [`find_ffmpeg_from`] for whatever home directory was given.
pub fn find_ffmpeg<E: Fn(&str) -> bool, P: Fn(&str) -> bool>(
    platform: Platform,
    file_exists: E,
    runs: P,
) -> (r: Option<String>)
    requires
        answers_all(file_exists),
        answers_all(runs),
    ensures
        exists|home: Option<Seq<char>>| #[trigger]
            is_found_for(platform, home, file_exists, runs, r.deep_view()),
{
    let home = home_dir();
    let r = find_ffmpeg_from(platform, &home, file_exists, runs);
    assert(is_found_for(platform, home.deep_view(), file_exists, runs, r.deep_view()));
    r
}

} // verus!
