//! Where an external plugin is looked for.
//!
//! A plugin is an executable outside this program. It is looked for in three
//! places, always in the same order: the system search path, the directory of
//! the running executable, and the per-user extensions directory. The first
//! place that has it decides.

use std::path::PathBuf;
use vstd::prelude::*;

verus! {

/// One of the three places in which a plugin is looked for.
#[derive(Clone, Copy, Debug, PartialEq, Eq, Structural)]
pub enum Stage {
    /// The directories of the system search path.
    SystemPath,
    /// The directory that holds the running executable.
    ExeDir,
    /// The per-user extensions directory.
    ExtensionsDir,
}

impl Stage {
    /// The position of the stage in the search order, from 0.
    pub open spec fn rank(self) -> int {
        match self {
            Stage::SystemPath => 0,
            Stage::ExeDir => 1,
            Stage::ExtensionsDir => 2,
        }
    }
}

/// The two directories of the search that may be unknown. The system search
/// path is not held here: the lookup reads it from the environment.
#[derive(Debug)]
pub struct SearchPath {
    /// The directory of the running executable, where it could be found.
    pub exe_dir: Option<PathBuf>,
    /// The per-user extensions directory, where it could be found.
    pub extensions_dir: Option<PathBuf>,
}

impl SearchPath {
    /// The directory that a stage searches. The system search path has none
    /// of its own.
    pub open spec fn dir(self, stage: Stage) -> Option<PathBuf> {
        match stage {
            Stage::SystemPath => None,
            Stage::ExeDir => self.exe_dir,
            Stage::ExtensionsDir => self.extensions_dir,
        }
    }

    /// Whether a stage can be searched at all: the system search path always,
    /// the other two where their directory is known.
    pub open spec fn searches(self, stage: Stage) -> bool {
        stage == Stage::SystemPath || self.dir(stage) is Some
    }
}

/// The first of the three outcomes that holds a match, in stage order.
pub open spec fn first_match(
    system_path: Option<PathBuf>,
    exe_dir: Option<PathBuf>,
    extensions_dir: Option<PathBuf>,
) -> Option<PathBuf> {
    if system_path is Some {
        system_path
    } else if exe_dir is Some {
        exe_dir
    } else {
        extensions_dir
    }
}

/// What `locate` promises of its result, for a lookup that may answer
/// differently each time it is asked: a match is the answer of one stage, and
/// every earlier stage had none; no match means that no stage had one.
pub open spec fn located<F: Fn(Stage) -> Option<PathBuf>>(lookup: F, found: Option<PathBuf>) -> bool {
    match found {
        Some(path) => exists|stage: Stage|
            {
                &&& #[trigger] call_ensures(lookup, (stage,), Some(path))
                &&& forall|earlier: Stage|
                    earlier.rank() < stage.rank() ==> #[trigger] call_ensures(
                        lookup,
                        (earlier,),
                        None::<PathBuf>,
                    )
            },
        None => forall|stage: Stage| #[trigger] call_ensures(lookup, (stage,), None::<PathBuf>),
    }
}

/// Asks `lookup` stage by stage, in the fixed order, and stops at the first
/// stage that has a match.
pub fn locate<F: Fn(Stage) -> Option<PathBuf>>(lookup: F) -> (found: Option<PathBuf>)
    requires
        forall|stage: Stage| call_requires(lookup, (stage,)),
    ensures
        located(lookup, found),
{
    let system_path = lookup(Stage::SystemPath);
    if system_path.is_some() {
        proof {
            assert(call_ensures(lookup, (Stage::SystemPath,), Some(system_path.unwrap())));
        }
        return system_path;
    }
    let exe_dir = lookup(Stage::ExeDir);
    if exe_dir.is_some() {
        proof {
            assert(call_ensures(lookup, (Stage::ExeDir,), Some(exe_dir.unwrap())));
            assert forall|earlier: Stage| earlier.rank() < Stage::ExeDir.rank() implies #[trigger] call_ensures(
                lookup,
                (earlier,),
                None::<PathBuf>,
            ) by {
                assert(earlier == Stage::SystemPath);
            }
        }
        return exe_dir;
    }
    let extensions_dir = lookup(Stage::ExtensionsDir);
    proof {
        if extensions_dir is Some {
            assert(call_ensures(lookup, (Stage::ExtensionsDir,), Some(extensions_dir.unwrap())));
            assert forall|earlier: Stage|
                earlier.rank() < Stage::ExtensionsDir.rank() implies #[trigger] call_ensures(
                lookup,
                (earlier,),
                None::<PathBuf>,
            ) by {
                assert(earlier == Stage::SystemPath || earlier == Stage::ExeDir);
            }
        } else {
            assert forall|stage: Stage| #[trigger]
                call_ensures(lookup, (stage,), None::<PathBuf>) by {
                assert(stage == Stage::SystemPath || stage == Stage::ExeDir || stage
                    == Stage::ExtensionsDir);
            }
        }
    }
    extensions_dir
}

/// Where each stage has one answer only, the search returns the first match
/// in stage order.
pub proof fn lemma_locate_returns_first_match<F: Fn(Stage) -> Option<PathBuf>>(
    lookup: F,
    outcome: spec_fn(Stage) -> Option<PathBuf>,
    found: Option<PathBuf>,
)
    requires
        located(lookup, found),
        forall|stage: Stage, answer: Option<PathBuf>|
            call_ensures(lookup, (stage,), answer) ==> answer == outcome(stage),
    ensures
        found == first_match(
            outcome(Stage::SystemPath),
            outcome(Stage::ExeDir),
            outcome(Stage::ExtensionsDir),
        ),
{
    match found {
        Some(path) => {
            let stage = choose|stage: Stage|
                {
                    &&& #[trigger] call_ensures(lookup, (stage,), Some(path))
                    &&& forall|earlier: Stage|
                        earlier.rank() < stage.rank() ==> #[trigger] call_ensures(
                            lookup,
                            (earlier,),
                            None::<PathBuf>,
                        )
                };
            assert(outcome(stage) == Some(path));
            if stage.rank() > 0 {
                assert(call_ensures(lookup, (Stage::SystemPath,), None::<PathBuf>));
            }
            if stage.rank() > 1 {
                assert(call_ensures(lookup, (Stage::ExeDir,), None::<PathBuf>));
            }
        },
        None => {
            assert(call_ensures(lookup, (Stage::SystemPath,), None::<PathBuf>));
            assert(call_ensures(lookup, (Stage::ExeDir,), None::<PathBuf>));
            assert(call_ensures(lookup, (Stage::ExtensionsDir,), None::<PathBuf>));
        },
    }
}

/// A match on the system search path is returned whatever the two later
/// stages hold.
pub proof fn lemma_system_path_preempts<F: Fn(Stage) -> Option<PathBuf>>(
    lookup: F,
    outcome: spec_fn(Stage) -> Option<PathBuf>,
    found: Option<PathBuf>,
)
    requires
        located(lookup, found),
        forall|stage: Stage, answer: Option<PathBuf>|
            call_ensures(lookup, (stage,), answer) ==> answer == outcome(stage),
        outcome(Stage::SystemPath) is Some,
    ensures
        found == outcome(Stage::SystemPath),
{
    lemma_locate_returns_first_match(lookup, outcome, found);
}

/// With no match at any stage the search returns nothing, and it returns
/// nothing only then.
pub proof fn lemma_no_match_is_none<F: Fn(Stage) -> Option<PathBuf>>(
    lookup: F,
    outcome: spec_fn(Stage) -> Option<PathBuf>,
    found: Option<PathBuf>,
)
    requires
        located(lookup, found),
        forall|stage: Stage, answer: Option<PathBuf>|
            call_ensures(lookup, (stage,), answer) ==> answer == outcome(stage),
    ensures
        found is None <==> {
            &&& outcome(Stage::SystemPath) is None
            &&& outcome(Stage::ExeDir) is None
            &&& outcome(Stage::ExtensionsDir) is None
        },
{
    lemma_locate_returns_first_match(lookup, outcome, found);
}

/// `which::Error`, the reason for which a lookup found nothing.
#[verifier::external_type_specification]
#[verifier::external_body]
pub struct ExWhichError(which::Error);

/// Calls `which::which`, which looks for an executable file called `name` in
/// the directories of the `PATH` of the environment. Nothing is claimed of
/// the result: it depends on the environment and on what is on disk.
#[verifier::external_body]
fn which_on_system_path(name: &str) -> (found: Result<PathBuf, which::Error>) {
    which::which(name)
}

/// Calls `which::which_in`, which looks for an executable file called `name`
/// in `dir`, taking a relative path as relative to `cwd`. Nothing is claimed
/// of the result: it depends on what is on disk.
#[verifier::external_body]
fn which_in_dir(name: &str, dir: &PathBuf, cwd: &str) -> (found: Result<PathBuf, which::Error>) {
    which::which_in(name, Some(dir), cwd)
}

/// What a lookup gave, with the reason for a miss left out.
pub open spec fn matched(answer: Result<PathBuf, which::Error>) -> Option<PathBuf> {
    match answer {
        Ok(path) => Some(path),
        Err(_) => None,
    }
}

/// Whether `found` is what the lookup of a stage gave for `name`. On the
/// system search path that is the answer of `which::which` to `name`. At the
/// two other stages it is the answer of `which::which_in` to `name`, the
/// directory of the stage and `.` as the directory that relative paths start
/// from; a stage whose directory is unknown has no match.
pub closed spec fn probed(name: &str, stage: Stage, search: &SearchPath, found: Option<PathBuf>) -> bool {
    match search.dir(stage) {
        None => if stage == Stage::SystemPath {
            exists|answer: Result<PathBuf, which::Error>|
                #[trigger] call_ensures(which_on_system_path, (name,), answer) && found == matched(
                    answer,
                )
        } else {
            found is None
        },
        Some(dir) => exists|cwd: &str, answer: Result<PathBuf, which::Error>|
            {
                &&& cwd@ == "."@
                &&& #[trigger] call_ensures(which_in_dir, (name, &dir, cwd), answer)
                &&& found == matched(answer)
            },
    }
}

/// Looks for `name` at one stage. A stage whose directory is unknown is
/// passed over and has no match.
pub fn probe(name: &str, stage: Stage, search: &SearchPath) -> (found: Option<PathBuf>)
    ensures
        !search.searches(stage) ==> found is None,
        probed(name, stage, search, found),
{
    match stage {
        Stage::SystemPath => {
            let answer = which_on_system_path(name);
            assert(call_ensures(which_on_system_path, (name,), answer));
            answer.ok()
        },
        Stage::ExeDir => match &search.exe_dir {
            Some(dir) => {
                let answer = which_in_dir(name, dir, ".");
                assert(call_ensures(which_in_dir, (name, dir, "."), answer));
                answer.ok()
            },
            None => None,
        },
        Stage::ExtensionsDir => match &search.extensions_dir {
            Some(dir) => {
                let answer = which_in_dir(name, dir, ".");
                assert(call_ensures(which_in_dir, (name, dir, "."), answer));
                answer.ok()
            },
            None => None,
        },
    }
}

/// What `find_plugin` promises of its result. A match is what `probe`
/// answered for `name` at a stage that is searched, after it had answered
/// nothing at every earlier stage; no match means that `probe` answered
/// nothing at every stage.
pub open spec fn found_along(name: &str, search: &SearchPath, found: Option<PathBuf>) -> bool {
    match found {
        Some(path) => exists|stage: Stage|
            {
                &&& search.searches(stage)
                &&& #[trigger] call_ensures(probe, (name, stage, search), Some(path))
                &&& forall|earlier: Stage|
                    earlier.rank() < stage.rank() ==> #[trigger] call_ensures(
                        probe,
                        (name, earlier, search),
                        None::<PathBuf>,
                    )
            },
        None => forall|stage: Stage| #[trigger]
            call_ensures(probe, (name, stage, search), None::<PathBuf>),
    }
}

/// Looks for the plugin `name`: on the system search path, then in the
/// directory of the running executable, then in the extensions directory.
/// Returns the first match, or nothing where no stage has one.
pub fn find_plugin(name: &str, search: &SearchPath) -> (found: Option<PathBuf>)
    ensures
        found_along(name, search, found),
{
    let lookup = |stage: Stage| -> (answer: Option<PathBuf>)
        ensures
            call_ensures(probe, (name, stage, search), answer),
            !search.searches(stage) ==> answer is None,
        { probe(name, stage, search) };
    let found = locate(lookup);
    proof {
        if found is Some {
            let path = found.unwrap();
            let stage = choose|stage: Stage|
                {
                    &&& #[trigger] call_ensures(lookup, (stage,), Some(path))
                    &&& forall|earlier: Stage|
                        earlier.rank() < stage.rank() ==> #[trigger] call_ensures(
                            lookup,
                            (earlier,),
                            None::<PathBuf>,
                        )
                };
            assert(call_ensures(probe, (name, stage, search), Some(path)));
            assert forall|earlier: Stage| earlier.rank() < stage.rank() implies #[trigger] call_ensures(
                probe,
                (name, earlier, search),
                None::<PathBuf>,
            ) by {
                assert(call_ensures(lookup, (earlier,), None::<PathBuf>));
            }
        } else {
            assert forall|stage: Stage| #[trigger]
                call_ensures(probe, (name, stage, search), None::<PathBuf>) by {
                assert(call_ensures(lookup, (stage,), None::<PathBuf>));
            }
        }
    }
    found
}

} // verus!
