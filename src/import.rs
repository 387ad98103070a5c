//! Importing a game's video or cover image into the assets tree.
//!
//! A job first checks that the source file exists, then picks the first of
//! the roots it probes whose assets directory exists (its fallback root when
//! none does), creates the game's directory there if it is missing, and
//! copies the source into it under a fixed name. Its outcome is the web path
//! of the copy.
//!
//! A video import probes only the parent of the project root and otherwise
//! takes the project root; a cover import probes all three roots in order and
//! otherwise takes the first.
use vstd::prelude::*;
use crate::action::{
    copy_failure, copy_failure_text, create_dir_failure, create_dir_failure_text,
    duplicate_outcome, outcome_view, Action, Event, Failure, ImportError, Reply, Request,
};
use crate::layout::{
    assets_dir, assets_dir_at, cover_name, default_cover_ext, dest_file, dest_file_at, game_dir,
    game_dir_at, video_name, web_path, web_path_of, ROOT_COUNT,
};
use vstd::string::*;

verus! {

/// How many roots a video import probes.
pub const VIDEO_PROBES: usize = 1;

/// The root a video import takes when no probed assets directory exists.
pub const VIDEO_FALLBACK: usize = 1;

/// How many roots a cover import probes.
pub const COVER_PROBES: usize = 3;

/// The root a cover import takes when no probed assets directory exists.
pub const COVER_FALLBACK: usize = 0;

/// Where an import job stands.
#[derive(Debug)]
pub enum Stage {
    /// Waiting to learn whether the source exists.
    CheckSource,
    /// Waiting to learn whether this candidate's assets directory exists.
    ProbeRoot(usize),
    /// Waiting to learn whether the game's directory exists.
    CheckDir,
    /// Waiting for the game's directory to be created.
    CreateDir,
    /// Waiting for the copy.
    Copy,
    /// Over, with this outcome.
    Finished(Result<String, ImportError>),
}

/// The mathematical value of a [`Stage`].
pub enum Phase {
    CheckSource,
    ProbeRoot(nat),
    CheckDir,
    CreateDir,
    Copy,
    Finished(Result<Seq<char>, Failure>),
}

impl View for Stage {
    type V = Phase;

    open spec fn view(&self) -> Phase {
        match self {
            Stage::CheckSource => Phase::CheckSource,
            Stage::ProbeRoot(i) => Phase::ProbeRoot(*i as nat),
            Stage::CheckDir => Phase::CheckDir,
            Stage::CreateDir => Phase::CreateDir,
            Stage::Copy => Phase::Copy,
            Stage::Finished(r) => Phase::Finished(outcome_view(*r)),
        }
    }
}

/// One import of a file into a game's directory.
#[derive(Debug)]
pub struct ImportJob {
    pub source: String,
    pub game_id: String,
    /// The name the copy is stored under.
    pub file_name: String,
    /// How many candidate roots are probed, in order.
    pub probes: usize,
    /// The root taken when none of the probed ones has an assets directory.
    pub fallback: usize,
    /// The candidate root chosen; meaningful once the roots are probed.
    pub root: usize,
    pub stage: Stage,
}

/// The mathematical value of an [`ImportJob`].
pub struct JobModel {
    pub source: Seq<char>,
    pub game_id: Seq<char>,
    pub file_name: Seq<char>,
    pub probes: nat,
    pub fallback: nat,
    pub root: nat,
    pub phase: Phase,
}

impl View for ImportJob {
    type V = JobModel;

    open spec fn view(&self) -> JobModel {
        JobModel {
            source: self.source@,
            game_id: self.game_id@,
            file_name: self.file_name@,
            probes: self.probes as nat,
            fallback: self.fallback as nat,
            root: self.root as nat,
            phase: self.stage@,
        }
    }
}

/// A fresh job that imports `source` as the file `file_name` of `game_id`,
/// probing the first `probes` roots and falling back to `fallback`.
pub open spec fn fresh_job(
    source: Seq<char>,
    game_id: Seq<char>,
    file_name: Seq<char>,
    probes: nat,
    fallback: nat,
) -> JobModel {
    JobModel { source, game_id, file_name, probes, fallback, root: fallback, phase: Phase::CheckSource }
}

/// A fresh import of `source` as the video of `game_id`.
pub open spec fn video_job(source: Seq<char>, game_id: Seq<char>) -> JobModel {
    fresh_job(source, game_id, video_name(), VIDEO_PROBES as nat, VIDEO_FALLBACK as nat)
}

/// A fresh import of `source` as the cover of `game_id`, for the source's
/// extension, if it has one.
pub open spec fn cover_job(source: Seq<char>, game_id: Seq<char>, ext: Option<Seq<char>>) -> JobModel {
    fresh_job(source, game_id, cover_file_name(ext), COVER_PROBES as nat, COVER_FALLBACK as nat)
}

/// The text after the last `/` of a path (all of it where there is none).
pub open spec fn last_segment(p: Seq<char>) -> Seq<char>
    decreases p.len(),
{
    if p.len() == 0 {
        p
    } else if p.last() == '/' {
        Seq::empty()
    } else {
        last_segment(p.drop_last()).push(p.last())
    }
}

/// The index of the last dot of `s`, or -1 where it has none.
pub open spec fn last_dot(s: Seq<char>) -> int
    decreases s.len(),
{
    if s.len() == 0 {
        -1
    } else if s.last() == '.' {
        s.len() - 1
    } else {
        last_dot(s.drop_last())
    }
}

/// A relative or absolute path whose last segment is a plain file name: no
/// backslash or colon anywhere, not empty, not ending in `/`, and not ending
/// in the segment `.` or `..`.
pub open spec fn simple_path(p: Seq<char>) -> bool {
    &&& forall|i: int| 0 <= i < p.len() ==> p[i] != '\\' && p[i] != ':'
    &&& last_segment(p).len() > 0
    &&& last_segment(p) != "."@
    &&& last_segment(p) != ".."@
}

/// The extension of a simple path: the text after the last dot of its file
/// name, where that dot is not the name's first character.
pub open spec fn path_extension(p: Seq<char>) -> Option<Seq<char>> {
    let name = last_segment(p);
    let k = last_dot(name);
    if k <= 0 {
        None
    } else {
        Some(name.subrange(k + 1, name.len() as int))
    }
}

/// No dot and no path separator: a single file-name segment without extension.
pub open spec fn plain_segment(s: Seq<char>) -> bool {
    forall|i: int| 0 <= i < s.len() ==> s[i] != '/' && s[i] != '.'
}

/// The cover's file name for the source's extension, if it has one.
pub open spec fn cover_file_name(ext: Option<Seq<char>>) -> Seq<char> {
    match ext {
        Some(e) => cover_name(e),
        None => cover_name(default_cover_ext()),
    }
}

/// The mathematical value of an optional extension.
pub open spec fn extension_view(ext: Option<String>) -> Option<Seq<char>> {
    match ext {
        Some(e) => Some(e@),
        None => None,
    }
}

impl JobModel {
    pub open spec fn with_phase(self, phase: Phase) -> JobModel {
        JobModel { phase, ..self }
    }

    /// The game's directory under the chosen root.
    pub open spec fn target_dir(self) -> Seq<char> {
        game_dir(self.root as int, self.game_id)
    }

    /// The copy's path under the chosen root.
    pub open spec fn target_file(self) -> Seq<char> {
        dest_file(self.root as int, self.game_id, self.file_name)
    }

    /// What the job asks for in its present state.
    pub open spec fn pending(self) -> Request {
        match self.phase {
            Phase::CheckSource => Request::Exists(self.source),
            Phase::ProbeRoot(i) => Request::Exists(assets_dir(i as int)),
            Phase::CheckDir => Request::Exists(self.target_dir()),
            Phase::CreateDir => Request::CreateDirAll(self.target_dir()),
            Phase::Copy => Request::Copy(self.source, self.target_file()),
            Phase::Finished(r) => Request::Finish(r),
        }
    }

    /// The state after `reply` comes in. A reply that does not answer the
    /// pending request leaves the state as it is.
    pub open spec fn next(self, reply: Reply) -> JobModel {
        match self.phase {
            Phase::CheckSource => match reply {
                Reply::Exists(found) => if found {
                    self.with_phase(Phase::ProbeRoot(0))
                } else {
                    self.with_phase(Phase::Finished(Err(Failure::SourceMissing)))
                },
                _ => self,
            },
            Phase::ProbeRoot(i) => match reply {
                Reply::Exists(found) => if found {
                    JobModel { root: i, phase: Phase::CheckDir, ..self }
                } else if i + 1 < self.probes {
                    self.with_phase(Phase::ProbeRoot(i + 1))
                } else {
                    JobModel { root: self.fallback, phase: Phase::CheckDir, ..self }
                },
                _ => self,
            },
            Phase::CheckDir => match reply {
                Reply::Exists(found) => if found {
                    self.with_phase(Phase::Copy)
                } else {
                    self.with_phase(Phase::CreateDir)
                },
                _ => self,
            },
            Phase::CreateDir => match reply {
                Reply::Done => self.with_phase(Phase::Copy),
                Reply::Failed(e) => self.with_phase(
                    Phase::Finished(Err(Failure::Io(create_dir_failure(self.target_dir(), e)))),
                ),
                _ => self,
            },
            Phase::Copy => match reply {
                Reply::Done => self.with_phase(
                    Phase::Finished(Ok(web_path(self.game_id, self.file_name))),
                ),
                Reply::Failed(e) => self.with_phase(
                    Phase::Finished(
                        Err(Failure::Io(copy_failure(self.source, self.target_file(), e))),
                    ),
                ),
                _ => self,
            },
            Phase::Finished(_) => self,
        }
    }
}

/// Relies on std::path::Path::extension (with OsStr::to_str): the part of the
/// path's file name after its last dot, which holds no dot and no separator;
/// none where the name has no dot but at its start. For a simple path the
/// file name is its last segment.
#[verifier::external_body]
fn file_extension(path: &str) -> (r: Option<String>)
    ensures
        r matches Some(e) ==> plain_segment(e@),
        simple_path(path@) ==> extension_view(r) == path_extension(path@),
{
    match std::path::Path::new(path).extension() {
        Some(e) => match e.to_str() {
            Some(s) => Some(s.to_owned()),
            None => None,
        },
        None => None,
    }
}

impl ImportJob {
    /// Whether the job's indices are in range.
    pub open spec fn wf(&self) -> bool {
        &&& 1 <= self.probes <= ROOT_COUNT
        &&& self.fallback < ROOT_COUNT
        &&& self.root < ROOT_COUNT
        &&& self.stage matches Stage::ProbeRoot(i) ==> i < self.probes
    }

    fn start(source_path: String, game_id: String, file_name: String, probes: usize, fallback: usize) -> (r: ImportJob)
        requires
            1 <= probes <= ROOT_COUNT,
            fallback < ROOT_COUNT,
        ensures
            r.wf(),
            r@ == fresh_job(source_path@, game_id@, file_name@, probes as nat, fallback as nat),
    {
        ImportJob {
            source: source_path,
            game_id,
            file_name,
            probes,
            fallback,
            root: fallback,
            stage: Stage::CheckSource,
        }
    }

    /// A job that imports `source_path` as the video of `game_id`.
    pub fn video(source_path: String, game_id: String) -> (r: ImportJob)
        ensures
            r.wf(),
            r@ == video_job(source_path@, game_id@),
    {
        ImportJob::start(source_path, game_id, "video.mp4".to_owned(), VIDEO_PROBES, VIDEO_FALLBACK)
    }

    /// A job that imports `source_path` as the cover of `game_id`, where
    /// `extension` is the source's extension, if it has one.
    pub fn cover(source_path: String, game_id: String, extension: Option<String>) -> (r: ImportJob)
        ensures
            r.wf(),
            r@ == cover_job(source_path@, game_id@, extension_view(extension)),
    {
        let mut name = "cover.".to_owned();
        match &extension {
            Some(e) => name.append(e.as_str()),
            None => name.append("jpg"),
        }
        ImportJob::start(source_path, game_id, name, COVER_PROBES, COVER_FALLBACK)
    }

    /// A job that imports `source_path` as the cover of `game_id`, keeping
    /// the source's extension (`jpg` where it has none).
    pub fn image(source_path: String, game_id: String) -> (r: ImportJob)
        ensures
            r.wf(),
            simple_path(source_path@) ==> r@ == cover_job(
                source_path@,
                game_id@,
                path_extension(source_path@),
            ),
            exists|ext: Option<Seq<char>>|
                {
                    &&& (ext matches Some(e) ==> plain_segment(e))
                    &&& r@ == cover_job(source_path@, game_id@, ext)
                },
    {
        let extension = file_extension(source_path.as_str());
        let ghost ext = extension_view(extension);
        let r = ImportJob::cover(source_path, game_id, extension);
        assert(ext matches Some(e) ==> plain_segment(e));
        r
    }

    /// Whether the job's indices are in range, for callers outside the proofs.
    pub fn well_formed(&self) -> (r: bool)
        ensures
            r == self.wf(),
    {
        1 <= self.probes && self.probes <= ROOT_COUNT && self.fallback < ROOT_COUNT
            && self.root < ROOT_COUNT && match self.stage {
            Stage::ProbeRoot(i) => i < self.probes,
            _ => true,
        }
    }

    /// What the job asks for in its present state.
    pub fn pending(&self) -> (a: Action)
        requires
            self.wf(),
        ensures
            a@ == self@.pending(),
    {
        match &self.stage {
            Stage::CheckSource => Action::CheckExists(self.source.clone()),
            Stage::ProbeRoot(i) => Action::CheckExists(assets_dir_at(*i)),
            Stage::CheckDir => Action::CheckExists(
                game_dir_at(self.root, self.game_id.as_str()),
            ),
            Stage::CreateDir => Action::CreateDirAll(
                game_dir_at(self.root, self.game_id.as_str()),
            ),
            Stage::Copy => Action::CopyFile(
                self.source.clone(),
                dest_file_at(self.root, self.game_id.as_str(), self.file_name.as_str()),
            ),
            Stage::Finished(r) => Action::Finish(duplicate_outcome(r)),
        }
    }

    /// Takes in what came of the pending action and returns the next one.
    pub fn step(&mut self, event: Event) -> (a: Action)
        requires
            old(self).wf(),
        ensures
            final(self).wf(),
            final(self)@ == old(self)@.next(event@),
            a@ == final(self)@.pending(),
    {
        let new_stage: Option<Stage> = match &self.stage {
            Stage::CheckSource => match &event {
                Event::Exists(found) => if *found {
                    Some(Stage::ProbeRoot(0))
                } else {
                    Some(Stage::Finished(Err(ImportError::SourceMissing)))
                },
                _ => None,
            },
            Stage::ProbeRoot(i) => match &event {
                Event::Exists(found) => if *found {
                    self.root = *i;
                    Some(Stage::CheckDir)
                } else if *i + 1 < self.probes {
                    Some(Stage::ProbeRoot(*i + 1))
                } else {
                    self.root = self.fallback;
                    Some(Stage::CheckDir)
                },
                _ => None,
            },
            Stage::CheckDir => match &event {
                Event::Exists(found) => if *found {
                    Some(Stage::Copy)
                } else {
                    Some(Stage::CreateDir)
                },
                _ => None,
            },
            Stage::CreateDir => match &event {
                Event::Done => Some(Stage::Copy),
                Event::Failed(e) => {
                    let dir = game_dir_at(self.root, self.game_id.as_str());
                    let text = create_dir_failure_text(dir.as_str(), e.as_str());
                    Some(Stage::Finished(Err(ImportError::Io(text))))
                },
                _ => None,
            },
            Stage::Copy => match &event {
                Event::Done => Some(
                    Stage::Finished(
                        Ok(web_path_of(self.game_id.as_str(), self.file_name.as_str())),
                    ),
                ),
                Event::Failed(e) => {
                    let to = dest_file_at(
                        self.root,
                        self.game_id.as_str(),
                        self.file_name.as_str(),
                    );
                    let text = copy_failure_text(self.source.as_str(), to.as_str(), e.as_str());
                    Some(Stage::Finished(Err(ImportError::Io(text))))
                },
                _ => None,
            },
            Stage::Finished(_) => None,
        };
        match new_stage {
            Some(s) => {
                self.stage = s;
            },
            None => {},
        }
        self.pending()
    }
}

} // verus!
