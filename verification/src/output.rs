//! The path that a conversion writes to: beside the input, with the
//! extension `mp4`, and numbered where that name is taken.

use vstd::prelude::*;
use crate::capability::{answers_all, may_say, reports};
use crate::path::{file_stem, file_stem_of, join, joined, parent, parent_of};
use crate::platform::Platform;
use crate::text::{decimal, decimal_text, lemma_decimal_distinct, lemma_decimal_len};

verus! {

/// Why no output path was given.
#[derive(Clone, Copy, Debug, PartialEq, Eq, Structural)]
pub enum OutputPathError {
    /// Every path up to the highest number allowed is taken.
    Exhausted,
}

impl OutputPathError {
    /// The words in which the failure is reported.
    pub open spec fn message_text(self) -> Seq<char> {
        "could not allocate output path"@
    }

    /// The words in which the failure is reported.
    pub fn message(&self) -> (r: String)
        ensures
            r@ == self.message_text(),
    {
        String::from_str("could not allocate output path")
    }
}

/// The directory that the output is written to: that of the input, or the
/// current directory where the input has none.
pub open spec fn output_dir(p: Platform, input: Seq<char>) -> Seq<char> {
    match parent_of(p, input) {
        Some(dir) => dir,
        None => "."@,
    }
}

/// The stem of the output's name: that of the input, or nothing where the
/// input names no file.
pub open spec fn output_stem(p: Platform, input: Seq<char>) -> Seq<char> {
    match file_stem_of(p, input) {
        Some(stem) => stem,
        None => Seq::empty(),
    }
}

/// The name of attempt `k`: `stem.mp4` for the first, `stem_k.mp4` after it.
pub open spec fn output_name(stem: Seq<char>, k: nat) -> Seq<char> {
    if k == 0 {
        stem + ".mp4"@
    } else {
        stem + "_"@ + decimal(k) + ".mp4"@
    }
}

/// The path of attempt `k` for the input path `input`.
pub open spec fn candidate(p: Platform, input: Seq<char>, k: nat) -> Seq<char> {
    joined(p, output_dir(p, input), output_name(output_stem(p, input), k))
}

/// Attempt `k` is free and every attempt before it is taken.
pub open spec fn is_first_free(
    p: Platform,
    input: Seq<char>,
    occupied: Set<Seq<char>>,
    k: nat,
) -> bool {
    &&& !occupied.contains(candidate(p, input, k))
    &&& forall|j: nat| j < k ==> occupied.contains(#[trigger] candidate(p, input, j))
}

/// The path of the first attempt, none numbered above `limit`, that is not
/// in `occupied`; `None` where all of them are.
pub open spec fn first_free(
    p: Platform,
    input: Seq<char>,
    limit: nat,
    occupied: Set<Seq<char>>,
) -> Option<Seq<char>> {
    if exists|k: nat| k <= limit && is_first_free(p, input, occupied, k) {
        Some(candidate(p, input, choose|k: nat| k <= limit && is_first_free(p, input, occupied, k)))
    } else {
        None
    }
}

/// Asked about attempt `k`, `is_taken` may say that it is free, and asked
/// about each attempt before it, that it is taken.
pub open spec fn was_first_free<F: Fn(&str) -> bool>(
    p: Platform,
    input: Seq<char>,
    is_taken: F,
    k: nat,
) -> bool {
    &&& may_say(is_taken, candidate(p, input, k), false)
    &&& forall|j: nat| j < k ==> may_say(is_taken, #[trigger] candidate(p, input, j), true)
}

/// No two attempts have the same path.
pub proof fn lemma_attempts_differ(p: Platform, input: Seq<char>, j: nat, k: nat)
    requires
        candidate(p, input, j) == candidate(p, input, k),
    ensures
        j == k,
{
    reveal_strlit(".mp4");
    reveal_strlit("_");
    let dir = output_dir(p, input);
    let stem = output_stem(p, input);
    let a = output_name(stem, j);
    let b = output_name(stem, k);
    let before = if dir.len() > 0 && !p.separates(dir.last()) {
        dir.push(p.separator())
    } else {
        dir
    };
    assert(candidate(p, input, j) == before + a);
    assert(candidate(p, input, k) == before + b);
    assert((before + a).len() == (before + b).len());
    assert((before + a).subrange(before.len() as int, (before + a).len() as int) =~= a);
    assert((before + b).subrange(before.len() as int, (before + b).len() as int) =~= b);
    assert(a == b);
    lemma_decimal_len(j);
    lemma_decimal_len(k);
    if j > 0 && k > 0 {
        let front = stem + "_"@;
        let n = decimal(j).len() as int;
        assert(a == front + decimal(j) + ".mp4"@);
        assert(b == front + decimal(k) + ".mp4"@);
        assert(decimal(k).len() == n);
        assert(a.subrange(front.len() as int, front.len() + n) =~= decimal(j));
        assert(b.subrange(front.len() as int, front.len() + n) =~= decimal(k));
        lemma_decimal_distinct(j, k);
    }
}

/// Only one attempt can be the first free one.
pub proof fn lemma_first_free_unique(
    p: Platform,
    input: Seq<char>,
    occupied: Set<Seq<char>>,
    k1: nat,
    k2: nat,
)
    requires
        is_first_free(p, input, occupied, k1),
        is_first_free(p, input, occupied, k2),
    ensures
        k1 == k2,
{
    if k1 < k2 {
        assert(occupied.contains(candidate(p, input, k1)));
    } else if k2 < k1 {
        assert(occupied.contains(candidate(p, input, k2)));
    }
}

/// Where attempt `k` is the first free one and `k` is within the limit, it
/// is the path that is given.
pub proof fn lemma_first_free_at(
    p: Platform,
    input: Seq<char>,
    limit: nat,
    occupied: Set<Seq<char>>,
    k: nat,
)
    requires
        k <= limit,
        is_first_free(p, input, occupied, k),
    ensures
        first_free(p, input, limit, occupied) == Some(candidate(p, input, k)),
{
    let c = choose|c: nat| c <= limit && is_first_free(p, input, occupied, c);
    lemma_first_free_unique(p, input, occupied, k, c);
}

/// Where every attempt within the limit is taken, no path is given.
pub proof fn lemma_first_free_none(
    p: Platform,
    input: Seq<char>,
    limit: nat,
    occupied: Set<Seq<char>>,
)
    requires
        forall|j: nat| j <= limit ==> occupied.contains(#[trigger] candidate(p, input, j)),
    ensures
        first_free(p, input, limit, occupied) is None,
{
}

/// The path that is given is one of the attempts within the limit, it is
/// free, and every attempt before it is taken.
pub proof fn lemma_first_free_is_free(
    p: Platform,
    input: Seq<char>,
    limit: nat,
    occupied: Set<Seq<char>>,
)
    ensures
        match first_free(p, input, limit, occupied) {
            Some(path) => !occupied.contains(path) && exists|k: nat|
                k <= limit && path == candidate(p, input, k) && is_first_free(
                    p,
                    input,
                    occupied,
                    k,
                ),
            None => forall|j: nat|
                j <= limit ==> occupied.contains(#[trigger] candidate(p, input, j)),
        },
{
    if first_free(p, input, limit, occupied) is None {
        assert forall|j: nat| j <= limit implies occupied.contains(
            #[trigger] candidate(p, input, j),
        ) by {
            lemma_taken_up_to(p, input, limit, occupied, j);
        }
    }
}

/// Where no path is given, every attempt within the limit is taken.
proof fn lemma_taken_up_to(
    p: Platform,
    input: Seq<char>,
    limit: nat,
    occupied: Set<Seq<char>>,
    j: nat,
)
    requires
        first_free(p, input, limit, occupied) is None,
        j <= limit,
    ensures
        forall|i: nat| i <= j ==> occupied.contains(#[trigger] candidate(p, input, i)),
    decreases j,
{
    if j > 0 {
        lemma_taken_up_to(p, input, limit, occupied, (j - 1) as nat);
    }
    if !occupied.contains(candidate(p, input, j)) {
        assert(is_first_free(p, input, occupied, j));
    }
}

/// The path depends on nothing but which attempts are taken: two states of
/// the file system that agree on every attempt within the limit give the
/// same path. So asking again, while no attempt was created or removed,
/// gives the same path again.
pub proof fn lemma_same_state_same_path(
    p: Platform,
    input: Seq<char>,
    limit: nat,
    before: Set<Seq<char>>,
    after: Set<Seq<char>>,
)
    requires
        forall|j: nat|
            j <= limit ==> before.contains(#[trigger] candidate(p, input, j)) == after.contains(
                candidate(p, input, j),
            ),
    ensures
        first_free(p, input, limit, before) == first_free(p, input, limit, after),
{
    lemma_first_free_is_free(p, input, limit, before);
    match first_free(p, input, limit, before) {
        Some(path) => {
            let k = choose|k: nat|
                k <= limit && path == candidate(p, input, k) && is_first_free(
                    p,
                    input,
                    before,
                    k,
                );
            assert forall|j: nat| j < k implies after.contains(
                #[trigger] candidate(p, input, j),
            ) by {
                assert(before.contains(candidate(p, input, j)));
            }
            lemma_first_free_at(p, input, limit, after, k);
        },
        None => {
            assert forall|j: nat| j <= limit implies after.contains(
                #[trigger] candidate(p, input, j),
            ) by {
                assert(before.contains(candidate(p, input, j)));
            }
            lemma_first_free_none(p, input, limit, after);
        },
    }
}

/// The name of attempt `k`.
fn name_for(stem: &str, k: u32) -> (r: String)
    ensures
        r@ == output_name(stem@, k as nat),
{
    let mut r = String::from_str(stem);
    if k > 0 {
        r.append("_");
        let number = decimal_text(k);
        r.append(number.as_str());
    }
    r.append(".mp4");
    r
}

/// A path beside `input_path` that ends in `.mp4` and that `is_taken` says
/// is free: `stem.mp4` first, then `stem_1.mp4`, `stem_2.mp4` and so on, the
/// last one numbered `limit`. Nothing is written; `is_taken` is asked about
/// one path after the other until it says no.
pub fn get_unique_output_path<F: Fn(&str) -> bool>(
    input_path: &str,
    platform: Platform,
    limit: u32,
    is_taken: F,
) -> (r: Result<String, OutputPathError>)
    requires
        answers_all(is_taken),
    ensures
        match r {
            Ok(path) => exists|k: nat|
                k <= limit && path@ == candidate(platform, input_path@, k) && was_first_free(
                    platform,
                    input_path@,
                    is_taken,
                    k,
                ),
            Err(e) => e == OutputPathError::Exhausted && forall|j: nat|
                j <= limit ==> may_say(is_taken, #[trigger] candidate(platform, input_path@, j), true),
        },
        forall|occupied: Set<Seq<char>>| #[trigger]
            reports(is_taken, occupied) ==> match r {
                Ok(path) => first_free(platform, input_path@, limit as nat, occupied) == Some(
                    path@,
                ),
                Err(_) => first_free(platform, input_path@, limit as nat, occupied) is None,
            },
{
    let dir = match parent(platform, input_path) {
        Some(dir) => dir,
        None => String::from_str("."),
    };
    let stem = match file_stem(platform, input_path) {
        Some(stem) => stem,
        None => String::new(),
    };
    let mut k: u32 = 0;
    loop
        invariant
            k <= limit,
            answers_all(is_taken),
            dir@ == output_dir(platform, input_path@),
            stem@ == output_stem(platform, input_path@),
            forall|occupied: Set<Seq<char>>, j: nat| #[trigger]
                reports(is_taken, occupied) && j < k ==> occupied.contains(
                    #[trigger] candidate(platform, input_path@, j),
                ),
            forall|j: nat|
                j < k ==> may_say(is_taken, #[trigger] candidate(platform, input_path@, j), true),
        decreases limit - k,
    {
        let name = name_for(stem.as_str(), k);
        let path = join(platform, dir.as_str(), name.as_str());
        assert(path@ == candidate(platform, input_path@, k as nat));
        let taken = is_taken(path.as_str());
        assert(may_say(is_taken, candidate(platform, input_path@, k as nat), taken));
        if !taken {
            assert(was_first_free(platform, input_path@, is_taken, k as nat));
            assert forall|occupied: Set<Seq<char>>| #[trigger]
                reports(is_taken, occupied) implies first_free(
                platform,
                input_path@,
                limit as nat,
                occupied,
            ) == Some(path@) by {
                assert(is_first_free(platform, input_path@, occupied, k as nat));
                lemma_first_free_at(platform, input_path@, limit as nat, occupied, k as nat);
            }
            return Ok(path);
        }
        if k == limit {
            assert forall|occupied: Set<Seq<char>>| #[trigger]
                reports(is_taken, occupied) implies first_free(
                platform,
                input_path@,
                limit as nat,
                occupied,
            ) is None by {
                assert forall|j: nat| j <= limit implies occupied.contains(
                    #[trigger] candidate(platform, input_path@, j),
                ) by {}
                lemma_first_free_none(platform, input_path@, limit as nat, occupied);
            }
            return Err(OutputPathError::Exhausted);
        }
        k = k + 1;
    }
}

} // verus!
