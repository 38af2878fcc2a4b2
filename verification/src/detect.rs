//! Telling games by the names of the running processes.
use vstd::prelude::*;

use crate::encode::texts;
use crate::operations::{
    a_detected_game_holds_a_target, a_target_anywhere_in_a_name_is_a_game, stands_at_letter,
};
use crate::text::{
    all_ascii, ascii_lowercase, contains, contains_text, lowercase, to_lowercase,
};

verus! {

/// Some target occurs in `name`.
pub open spec fn names_target(name: Seq<char>, targets: Seq<Seq<char>>) -> bool {
    exists|i: int| 0 <= i < targets.len() && contains_text(name, #[trigger] targets[i])
}

/// Position `at` holds the first of `names` in which a target occurs.
pub open spec fn first_named(names: Seq<Seq<char>>, targets: Seq<Seq<char>>, at: int) -> bool {
    &&& 0 <= at < names.len()
    &&& names_target(names[at], targets)
    &&& forall|j: int| 0 <= j < at ==> !names_target(#[trigger] names[j], targets)
}

/// The lowercase of each text.
pub open spec fn lowercase_all(all: Seq<Seq<char>>) -> Seq<Seq<char>> {
    all.map_values(|text: Seq<char>| lowercase(text))
}

/// Each text with its ASCII letters lowercase.
pub open spec fn ascii_lowercase_all(all: Seq<Seq<char>>) -> Seq<Seq<char>> {
    all.map_values(|text: Seq<char>| ascii_lowercase(text))
}

/// All texts are ASCII.
pub open spec fn all_texts_ascii(all: Seq<Seq<char>>) -> bool {
    forall|i: int| 0 <= i < all.len() ==> all_ascii(#[trigger] all[i])
}

/// The process is taken for a game: without regard to case, a target occurs in its name.
pub open spec fn is_game(process: Seq<char>, targets: Seq<Seq<char>>) -> bool {
    names_target(lowercase(process), lowercase_all(targets))
}

/// The first of `processes` whose place in `names` holds a name in which a target occurs.
pub open spec fn first_game(
    processes: Seq<Seq<char>>,
    names: Seq<Seq<char>>,
    targets: Seq<Seq<char>>,
) -> Option<Seq<char>>
    decreases processes.len(),
{
    if processes.len() == 0 {
        None
    } else if names_target(names.first(), targets) {
        Some(processes.first())
    } else {
        first_game(processes.drop_first(), names.drop_first(), targets)
    }
}

/// The first process that is taken for a game, if there is one.
pub open spec fn detected_game(
    processes: Seq<Seq<char>>,
    targets: Seq<Seq<char>>,
) -> Option<Seq<char>> {
    first_game(processes, lowercase_all(processes), lowercase_all(targets))
}

/// The first process that is taken for a game where only the case of ASCII letters is
/// ignored.
pub open spec fn ascii_detected_game(
    processes: Seq<Seq<char>>,
    targets: Seq<Seq<char>>,
) -> Option<Seq<char>> {
    first_game(processes, ascii_lowercase_all(processes), ascii_lowercase_all(targets))
}

/// The text of a string, if there is one.
pub open spec fn optional_text(string: Option<String>) -> Option<Seq<char>> {
    match string {
        Some(s) => Some(s@),
        None => None,
    }
}

/// Whether some target occurs in `name`.
fn has_target(name: &str, targets: &Vec<String>) -> (found: bool)
    ensures
        found == names_target(name@, texts(targets@)),
        found <==> exists|t: int, k: int, e: int|
            0 <= t < targets@.len() && 0 <= k && e == k + targets@[t]@.len() && e <= name@.len()
                && #[trigger] name@.subrange(k, e) == #[trigger] targets@[t]@,
{
    let mut i: usize = 0;
    while i < targets.len()
        invariant
            i <= targets@.len(),
            forall|j: int| 0 <= j < i ==> !contains_text(name@, #[trigger] texts(targets@)[j]),
            forall|j: int, k: int, e: int|
                0 <= j < i && 0 <= k && e == k + targets@[j]@.len() && e <= name@.len()
                    ==> #[trigger] name@.subrange(k, e) != #[trigger] targets@[j]@,
        decreases targets@.len() - i,
    {
        if contains(name, targets[i].as_str()) {
            assert(contains_text(name@, texts(targets@)[i as int]));
            return true;
        }
        i += 1;
    }
    false
}

/// Finds the first of `names` in which one of `targets` occurs.
pub fn find_named(names: &Vec<String>, targets: &Vec<String>) -> (found: Option<usize>)
    ensures
        match found {
            Some(at) => first_named(texts(names@), texts(targets@), at as int),
            None => forall|j: int|
                0 <= j < names@.len() ==> !names_target(
                    #[trigger] texts(names@)[j],
                    texts(targets@),
                ),
        },
{
    let mut i: usize = 0;
    while i < names.len()
        invariant
            i <= names@.len(),
            forall|j: int|
                0 <= j < i ==> !names_target(#[trigger] texts(names@)[j], texts(targets@)),
        decreases names@.len() - i,
    {
        if has_target(names[i].as_str(), targets) {
            assert(texts(names@)[i as int] == names@[i as int]@);
            return Some(i);
        }
        i += 1;
    }
    None
}

/// The lowercase of each string.
fn to_lowercase_all(strings: &Vec<String>) -> (lowered: Vec<String>)
    ensures
        texts(lowered@) == lowercase_all(texts(strings@)),
        all_texts_ascii(texts(strings@)) ==> texts(lowered@) == ascii_lowercase_all(
            texts(strings@),
        ),
        forall|i: int|
            0 <= i < strings@.len() ==> (#[trigger] lowered@[i]@.len() == 0 <==> strings@[i]@.len()
                == 0),
{
    let mut lowered: Vec<String> = Vec::new();
    let mut i: usize = 0;
    while i < strings.len()
        invariant
            i <= strings@.len(),
            lowered@.len() == i,
            forall|j: int| 0 <= j < i ==> #[trigger] lowered@[j]@ == lowercase(strings@[j]@),
            forall|j: int|
                0 <= j < i && all_ascii(strings@[j]@) ==> #[trigger] lowered@[j]@
                    == ascii_lowercase(strings@[j]@),
            forall|j: int|
                0 <= j < i ==> (#[trigger] lowered@[j]@.len() == 0 <==> strings@[j]@.len() == 0),
        decreases strings@.len() - i,
    {
        assert(strings@[i as int]@.len() == 0 ==> all_ascii(strings@[i as int]@));
        lowered.push(to_lowercase(strings[i].as_str()));
        i += 1;
    }
    proof {
        assert(texts(lowered@) =~= lowercase_all(texts(strings@)));
        if all_texts_ascii(texts(strings@)) {
            assert forall|j: int| 0 <= j < strings@.len() implies #[trigger] texts(lowered@)[j]
                == ascii_lowercase_all(texts(strings@))[j] by {
                assert(all_ascii(texts(strings@)[j]));
                assert(lowered@[j]@ == ascii_lowercase(strings@[j]@));
            }
            assert(texts(lowered@) =~= ascii_lowercase_all(texts(strings@)));
        }
    }
    lowered
}

/// The first game is the process at the first place that names a target.
proof fn first_named_is_first_game(
    processes: Seq<Seq<char>>,
    names: Seq<Seq<char>>,
    targets: Seq<Seq<char>>,
    at: int,
)
    requires
        processes.len() == names.len(),
        first_named(names, targets, at),
    ensures
        first_game(processes, names, targets) == Some(processes[at]),
    decreases processes.len(),
{
    if at > 0 {
        let rest = names.drop_first();
        assert(!names_target(names[0], targets));
        assert(forall|j: int| 0 <= j < rest.len() ==> #[trigger] rest[j] == names[j + 1]);
        first_named_is_first_game(processes.drop_first(), rest, targets, at - 1);
    }
}

/// There is no first game where no name names a target.
proof fn none_named_is_no_game(
    processes: Seq<Seq<char>>,
    names: Seq<Seq<char>>,
    targets: Seq<Seq<char>>,
)
    requires
        processes.len() == names.len(),
        forall|j: int| 0 <= j < names.len() ==> !names_target(#[trigger] names[j], targets),
    ensures
        first_game(processes, names, targets) is None,
    decreases processes.len(),
{
    if processes.len() > 0 {
        let rest = names.drop_first();
        assert(!names_target(names[0], targets));
        assert(forall|j: int| 0 <= j < rest.len() ==> #[trigger] rest[j] == names[j + 1]);
        none_named_is_no_game(processes.drop_first(), rest, targets);
    }
}

/// A game is detected exactly where a target stands somewhere in a name.
proof fn ascii_games_by_place(processes: Seq<String>, targets: Seq<String>)
    ensures
        ascii_detected_game(texts(processes), texts(targets)) is Some <==> exists|
            p: int,
            t: int,
            k: int,
        |
            0 <= p < processes.len() && 0 <= t < targets.len() && 0 <= k
                && #[trigger] stands_at_letter(processes[p]@, targets[t]@, k),
{
    if exists|p: int, t: int, k: int|
        0 <= p < processes.len() && 0 <= t < targets.len() && 0 <= k && #[trigger] stands_at_letter(
            processes[p]@,
            targets[t]@,
            k,
        ) {
        let (p, t, k) = choose|p: int, t: int, k: int|
            0 <= p < processes.len() && 0 <= t < targets.len() && 0 <= k
                && #[trigger] stands_at_letter(processes[p]@, targets[t]@, k);
        a_target_anywhere_in_a_name_is_a_game(texts(processes), texts(targets), p, t, k);
    }
    if ascii_detected_game(texts(processes), texts(targets)) is Some {
        let (p, t, k) = a_detected_game_holds_a_target(texts(processes), texts(targets));
        assert(stands_at_letter(processes[p]@, targets[t]@, k));
    }
}

/// No text is empty.
pub open spec fn none_empty(all: Seq<Seq<char>>) -> bool {
    forall|i: int| 0 <= i < all.len() ==> #[trigger] all[i].len() > 0
}

/// Finds the first process that is taken for a game, and returns its name as it stands.
/// Where no target is empty, neither is the name.
pub fn find_game(processes: &Vec<String>, targets: &Vec<String>) -> (game: Option<String>)
    ensures
        optional_text(game) == detected_game(texts(processes@), texts(targets@)),
        all_texts_ascii(texts(processes@)) && all_texts_ascii(texts(targets@)) ==> optional_text(
            game,
        ) == ascii_detected_game(texts(processes@), texts(targets@)),
        none_empty(texts(targets@)) ==> (game matches Some(name) ==> name@.len() > 0),
        all_texts_ascii(texts(processes@)) && all_texts_ascii(texts(targets@)) ==> (game is Some
            <==> exists|p: int, t: int, k: int|
            0 <= p < processes@.len() && 0 <= t < targets@.len() && 0 <= k
                && #[trigger] stands_at_letter(processes@[p]@, targets@[t]@, k)),
{
    proof {
        if all_texts_ascii(texts(processes@)) && all_texts_ascii(texts(targets@)) {
            ascii_games_by_place(processes@, targets@);
        }
    }
    let names = to_lowercase_all(processes);
    let lowered = to_lowercase_all(targets);
    assert(names@.len() == texts(names@).len());
    match find_named(&names, &lowered) {
        Some(at) => {
            proof {
                first_named_is_first_game(
                    texts(processes@),
                    texts(names@),
                    texts(lowered@),
                    at as int,
                );
                if none_empty(texts(targets@)) {
                    let name = texts(names@)[at as int];
                    let i = choose|i: int|
                        0 <= i < texts(lowered@).len() && contains_text(
                            name,
                            #[trigger] texts(lowered@)[i],
                        );
                    assert(texts(targets@)[i].len() > 0);
                    assert(lowered@[i]@.len() > 0);
                    assert(names@[at as int]@.len() > 0);
                }
            }
            Some(processes[at].clone())
        },
        None => {
            proof {
                none_named_is_no_game(texts(processes@), texts(names@), texts(lowered@));
            }
            None
        },
    }
}

/// Detection ignores case: processes whose lowercase names are the same, looked for with
/// targets whose lowercase is the same, are all games or all not.
pub proof fn detection_ignores_case(
    a: Seq<char>,
    b: Seq<char>,
    targets_a: Seq<Seq<char>>,
    targets_b: Seq<Seq<char>>,
)
    requires
        lowercase(a) == lowercase(b),
        lowercase_all(targets_a) == lowercase_all(targets_b),
    ensures
        is_game(a, targets_a) == is_game(b, targets_b),
{
}

/// A further target never hides a game.
pub proof fn further_targets_keep_games(
    process: Seq<char>,
    targets: Seq<Seq<char>>,
    target: Seq<char>,
)
    requires
        is_game(process, targets),
    ensures
        is_game(process, targets.push(target)),
{
    let lowered = lowercase_all(targets);
    let i = choose|i: int|
        0 <= i < lowered.len() && contains_text(lowercase(process), #[trigger] lowered[i]);
    assert(lowercase_all(targets.push(target))[i] == lowered[i]);
}

/// A game is detected exactly where one of the processes is taken for a game, and what is
/// detected is such a process.
pub proof fn detection_finds_a_game(processes: Seq<Seq<char>>, targets: Seq<Seq<char>>)
    ensures
        detected_game(processes, targets) is Some <==> exists|i: int|
            0 <= i < processes.len() && is_game(#[trigger] processes[i], targets),
        detected_game(processes, targets) matches Some(game) ==> processes.contains(game)
            && is_game(game, targets),
    decreases processes.len(),
{
    if processes.len() > 0 {
        let rest = processes.drop_first();
        detection_finds_a_game(rest, targets);
        assert(lowercase_all(processes).drop_first() =~= lowercase_all(rest));
        assert(processes[0] == processes.first());
        assert(forall|i: int| 0 <= i < rest.len() ==> #[trigger] rest[i] == processes[i + 1]);
        assert(forall|i: int|
            1 <= i < processes.len() ==> #[trigger] processes[i] == rest[i - 1]);
    }
}

} // verus!
