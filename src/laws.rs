//! What an import does to a file system, as a whole run.
//!
//! A file system is modelled as the set of paths that exist, on which every
//! operation succeeds: probing answers membership, creating a directory or
//! copying a file adds its path. A run feeds a job these answers until it
//! finishes, and records what it asked for. What a write puts in a file is
//! not modelled here: the write request itself carries it.
use vstd::prelude::*;
use crate::action::{Failure, Reply, Request};
use crate::import::JobModel;
use crate::layout::{assets_dir, dest_file, game_dir, public_root, web_path, ROOT_COUNT};

verus! {

/// How a file system on which every operation succeeds answers `request`,
/// and what it holds afterwards.
pub open spec fn answer(request: Request, fs: Set<Seq<char>>) -> (Reply, Set<Seq<char>>) {
    match request {
        Request::Exists(p) => (Reply::Exists(fs.contains(p)), fs),
        Request::CreateDirAll(p) => (Reply::Done, fs.insert(p)),
        Request::Copy(_, to) => (Reply::Done, fs.insert(to)),
        Request::Write(p, _) => (Reply::Done, fs.insert(p)),
        Request::Finish(_) => (Reply::Done, fs),
    }
}

/// The record of a run: its outcome (none if it was cut short), the file
/// system it left, and the requests it made before finishing.
pub struct Run {
    pub outcome: Option<Result<Seq<char>, Failure>>,
    pub fs: Set<Seq<char>>,
    pub requests: Seq<Request>,
}

/// Runs `job` on `fs` for at most `fuel` requests.
pub open spec fn run(job: JobModel, fs: Set<Seq<char>>, fuel: nat) -> Run
    decreases fuel,
{
    match job.pending() {
        Request::Finish(r) => Run { outcome: Some(r), fs, requests: seq![] },
        request => if fuel == 0 {
            Run { outcome: None, fs, requests: seq![] }
        } else {
            let (reply, after) = answer(request, fs);
            let rest = run(job.next(reply), after, (fuel - 1) as nat);
            Run { outcome: rest.outcome, fs: rest.fs, requests: seq![request] + rest.requests }
        },
    }
}

/// Enough requests for any import: the source, every root, the game's
/// directory, its creation and the copy.
pub open spec fn import_fuel() -> nat {
    ROOT_COUNT as nat + 4
}

impl JobModel {
    /// A job that has not started: it is about to probe its source, with a
    /// probe count and a fallback root in range.
    pub open spec fn is_fresh(self) -> bool {
        &&& self.phase is CheckSource
        &&& 1 <= self.probes <= ROOT_COUNT
        &&& self.fallback < ROOT_COUNT
    }
}

/// A whole run of the import `job` on `fs`.
pub open spec fn import_run(job: JobModel, fs: Set<Seq<char>>) -> Run {
    run(job, fs, import_fuel())
}

/// The root an import settles on: the first of the roots it probes whose
/// assets directory exists, else its fallback.
pub open spec fn chosen_root(job: JobModel, fs: Set<Seq<char>>) -> int {
    if job.probes > 0 && fs.contains(assets_dir(0)) {
        0
    } else if job.probes > 1 && fs.contains(assets_dir(1)) {
        1
    } else if job.probes > 2 && fs.contains(assets_dir(2)) {
        2
    } else {
        job.fallback as int
    }
}

/// Whether a run never asked for a directory to be created.
pub open spec fn creates_no_dir(r: Run) -> bool {
    forall|k: int| 0 <= k < r.requests.len() ==> !(r.requests[k] is CreateDirAll)
}

proof fn lemma_root_lengths(i: int)
    requires
        0 <= i < ROOT_COUNT,
    ensures
        6 <= public_root(i).len() <= 12,
{
    reveal_strlit("../public");
    reveal_strlit("public");
    reveal_strlit("../../public");
}

/// A game's directory and files are never taken for an assets directory.
proof fn lemma_game_paths_not_assets(i: int, j: int, game_id: Seq<char>, file_name: Seq<char>)
    requires
        0 <= i < ROOT_COUNT,
        0 <= j < ROOT_COUNT,
    ensures
        game_dir(i, game_id) != assets_dir(j),
        dest_file(i, game_id, file_name) != assets_dir(j),
{
    lemma_root_lengths(i);
    lemma_root_lengths(j);
    reveal_strlit("/assets");
    reveal_strlit("/games/");
    reveal_strlit("/");
    assert(game_dir(i, game_id).len() > assets_dir(j).len());
    assert(dest_file(i, game_id, file_name).len() > assets_dir(j).len());
}

/// An import of an existing source ends in success on a file system where
/// every operation succeeds: it returns the web path of the copy and leaves
/// the copy, and the game's directory, under the chosen root.
pub proof fn lemma_import_succeeds(job: JobModel, fs: Set<Seq<char>>)
    requires
        job.is_fresh(),
        fs.contains(job.source),
    ensures
        ({
            let r = import_run(job, fs);
            let root = chosen_root(job, fs);
            let dir = game_dir(root, job.game_id);
            let file = dest_file(root, job.game_id, job.file_name);
            &&& r.outcome == Some(Ok::<Seq<char>, Failure>(web_path(job.game_id, job.file_name)))
            &&& r.fs == fs.insert(dir).insert(file)
            &&& r.requests.contains(Request::Copy(job.source, file))
            &&& (fs.contains(dir) ==> creates_no_dir(r))
        }),
{
    reveal_with_fuel(run, 8);
    let r = import_run(job, fs);
    let root = chosen_root(job, fs);
    let dir = game_dir(root, job.game_id);
    let file = dest_file(root, job.game_id, job.file_name);
    if fs.contains(dir) {
        assert(fs.insert(dir) =~= fs);
    }
    assert(r.fs =~= fs.insert(dir).insert(file));
    let k = r.requests.len() - 1;
    assert(r.requests[k] == Request::Copy(job.source, file));
}

/// An import whose source does not exist fails with the missing-source
/// error, having asked only whether the source exists: the file system is
/// left as it was.
pub proof fn lemma_missing_source(job: JobModel, fs: Set<Seq<char>>)
    requires
        job.is_fresh(),
        !fs.contains(job.source),
    ensures
        import_run(job, fs) == (Run {
            outcome: Some(Err(Failure::SourceMissing)),
            fs,
            requests: seq![Request::Exists(job.source)],
        }),
{
    reveal_with_fuel(run, 3);
    assert(import_run(job, fs).requests =~= seq![Request::Exists(job.source)]);
}

/// Running the same import a second time succeeds again with the same web
/// path, copies onto the same path as the first time, and leaves the file
/// system as the first run left it.
pub proof fn lemma_reimport_overwrites(job: JobModel, fs: Set<Seq<char>>)
    requires
        job.is_fresh(),
        fs.contains(job.source),
    ensures
        ({
            let first = import_run(job, fs);
            let second = import_run(job, first.fs);
            let target = dest_file(chosen_root(job, fs), job.game_id, job.file_name);
            &&& second.outcome == first.outcome
            &&& second.outcome == Some(Ok::<Seq<char>, Failure>(web_path(job.game_id, job.file_name)))
            &&& first.requests.contains(Request::Copy(job.source, target))
            &&& second.requests.contains(Request::Copy(job.source, target))
            &&& second.fs == first.fs
        }),
{
    lemma_rerun_keeps_root(job, fs);
    let first = import_run(job, fs);
    lemma_import_succeeds(job, fs);
    lemma_import_succeeds(job, first.fs);
    let root = chosen_root(job, fs);
    let dir = game_dir(root, job.game_id);
    let file = dest_file(root, job.game_id, job.file_name);
    assert(first.fs.insert(dir).insert(file) =~= first.fs);
}

/// A second run of the same import never asks to create the game's
/// directory: the first one left it in place.
pub proof fn lemma_directory_creation_idempotent(job: JobModel, fs: Set<Seq<char>>)
    requires
        job.is_fresh(),
        fs.contains(job.source),
    ensures
        ({
            let first = import_run(job, fs);
            let second = import_run(job, first.fs);
            &&& first.outcome is Some && first.outcome->0 is Ok
            &&& second.outcome is Some && second.outcome->0 is Ok
            &&& creates_no_dir(second)
        }),
{
    lemma_rerun_keeps_root(job, fs);
    let first = import_run(job, fs);
    lemma_import_succeeds(job, fs);
    lemma_import_succeeds(job, first.fs);
}

/// The file system a first run leaves still holds the source, and a second
/// run settles on the same root.
proof fn lemma_rerun_keeps_root(job: JobModel, fs: Set<Seq<char>>)
    requires
        job.is_fresh(),
        fs.contains(job.source),
    ensures
        ({
            let first = import_run(job, fs);
            &&& first.fs.contains(job.source)
            &&& first.fs.contains(game_dir(chosen_root(job, fs), job.game_id))
            &&& chosen_root(job, first.fs) == chosen_root(job, fs)
        }),
{
    lemma_import_succeeds(job, fs);
    let root = chosen_root(job, fs);
    lemma_game_paths_not_assets(root, 0, job.game_id, job.file_name);
    lemma_game_paths_not_assets(root, 1, job.game_id, job.file_name);
    lemma_game_paths_not_assets(root, 2, job.game_id, job.file_name);
}

} // verus!
