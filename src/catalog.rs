//! Writing the game catalogue (`games.json`).
//!
//! The job probes the candidate catalogue paths in order and writes to the
//! first that exists, or to the one under the project root when none does.
//! The previous file is replaced; nothing is kept of it.
use vstd::prelude::*;
use crate::action::{
    duplicate_outcome, outcome_view, write_failure, write_failure_text, Action, Event, Failure,
    ImportError, Reply, Request,
};
use crate::layout::{catalog_path, catalog_path_at, ROOT_COUNT};

verus! {

/// The root written to when no candidate catalogue exists: the working
/// directory is taken to be the project root.
pub const DEFAULT_CATALOG_ROOT: usize = 1;

/// Where a catalogue job stands.
#[derive(Debug)]
pub enum CatalogStage {
    /// Waiting to learn whether this candidate's catalogue exists.
    Probe(usize),
    /// Waiting for the write to this candidate's catalogue.
    Write(usize),
    /// Over, with this outcome: the path written, or why not.
    Finished(Result<String, ImportError>),
}

/// The mathematical value of a [`CatalogStage`].
pub enum CatalogPhase {
    Probe(nat),
    Write(nat),
    Finished(Result<Seq<char>, Failure>),
}

impl View for CatalogStage {
    type V = CatalogPhase;

    open spec fn view(&self) -> CatalogPhase {
        match self {
            CatalogStage::Probe(i) => CatalogPhase::Probe(*i as nat),
            CatalogStage::Write(i) => CatalogPhase::Write(*i as nat),
            CatalogStage::Finished(r) => CatalogPhase::Finished(outcome_view(*r)),
        }
    }
}

/// One write of the catalogue.
#[derive(Debug)]
pub struct CatalogJob {
    /// What the catalogue file is to hold, written as it is.
    pub content: String,
    pub stage: CatalogStage,
}

/// The mathematical value of a [`CatalogJob`].
pub struct CatalogModel {
    pub content: Seq<char>,
    pub phase: CatalogPhase,
}

impl View for CatalogJob {
    type V = CatalogModel;

    open spec fn view(&self) -> CatalogModel {
        CatalogModel { content: self.content@, phase: self.stage@ }
    }
}

impl CatalogModel {
    /// What the job asks for in this state: the write carries the content.
    pub open spec fn pending(self) -> Request {
        match self.phase {
            CatalogPhase::Probe(i) => Request::Exists(catalog_path(i as int)),
            CatalogPhase::Write(i) => Request::Write(catalog_path(i as int), self.content),
            CatalogPhase::Finished(r) => Request::Finish(r),
        }
    }

    /// The state after `reply` comes in; the content never changes.
    pub open spec fn next(self, reply: Reply) -> CatalogModel {
        CatalogModel { content: self.content, phase: self.phase.next(reply) }
    }
}

impl CatalogPhase {
    /// The state after `reply` comes in. A reply that does not answer the
    /// pending request leaves the state as it is.
    pub open spec fn next(self, reply: Reply) -> CatalogPhase {
        match self {
            CatalogPhase::Probe(i) => match reply {
                Reply::Exists(found) => if found {
                    CatalogPhase::Write(i)
                } else if i + 1 < ROOT_COUNT {
                    CatalogPhase::Probe(i + 1)
                } else {
                    CatalogPhase::Write(DEFAULT_CATALOG_ROOT as nat)
                },
                _ => self,
            },
            CatalogPhase::Write(i) => match reply {
                Reply::Done => CatalogPhase::Finished(Ok(catalog_path(i as int))),
                Reply::Failed(e) => CatalogPhase::Finished(
                    Err(Failure::Io(write_failure(catalog_path(i as int), e))),
                ),
                _ => self,
            },
            CatalogPhase::Finished(_) => self,
        }
    }
}

impl CatalogJob {
    /// Whether the job's index is in range.
    pub open spec fn wf(&self) -> bool {
        match self.stage {
            CatalogStage::Probe(i) => i < ROOT_COUNT,
            CatalogStage::Write(i) => i < ROOT_COUNT,
            CatalogStage::Finished(_) => true,
        }
    }

    /// A job that writes `json_content` to the catalogue, about to probe the
    /// first candidate path.
    pub fn new(json_content: String) -> (r: CatalogJob)
        ensures
            r.wf(),
            r@ == (CatalogModel { content: json_content@, phase: CatalogPhase::Probe(0) }),
    {
        CatalogJob { content: json_content, stage: CatalogStage::Probe(0) }
    }

    /// Whether the job's index is in range, for callers outside the proofs.
    pub fn well_formed(&self) -> (r: bool)
        ensures
            r == self.wf(),
    {
        match self.stage {
            CatalogStage::Probe(i) => i < ROOT_COUNT,
            CatalogStage::Write(i) => i < ROOT_COUNT,
            CatalogStage::Finished(_) => true,
        }
    }

    /// What the job asks for in its present state.
    pub fn pending(&self) -> (a: Action)
        requires
            self.wf(),
        ensures
            a@ == self@.pending(),
    {
        match &self.stage {
            CatalogStage::Probe(i) => Action::CheckExists(catalog_path_at(*i)),
            CatalogStage::Write(i) => Action::WriteFile(catalog_path_at(*i), self.content.clone()),
            CatalogStage::Finished(r) => Action::Finish(duplicate_outcome(r)),
        }
    }

    /// Takes in what came of the pending action and returns the next one.
    pub fn step(&mut self, event: Event) -> (a: Action)
        requires
            old(self).wf(),
        ensures
            final(self).wf(),
            final(self)@ == old(self)@.next(event@),
            a@ == final(self)@.pending(),
    {
        let new_stage: Option<CatalogStage> = match &self.stage {
            CatalogStage::Probe(i) => match &event {
                Event::Exists(found) => if *found {
                    Some(CatalogStage::Write(*i))
                } else if *i + 1 < ROOT_COUNT {
                    Some(CatalogStage::Probe(*i + 1))
                } else {
                    Some(CatalogStage::Write(DEFAULT_CATALOG_ROOT))
                },
                _ => None,
            },
            CatalogStage::Write(i) => match &event {
                Event::Done => Some(CatalogStage::Finished(Ok(catalog_path_at(*i)))),
                Event::Failed(e) => {
                    let path = catalog_path_at(*i);
                    let text = write_failure_text(path.as_str(), e.as_str());
                    Some(CatalogStage::Finished(Err(ImportError::Io(text))))
                },
                _ => None,
            },
            CatalogStage::Finished(_) => None,
        };
        match new_stage {
            Some(s) => {
                self.stage = s;
            },
            None => {},
        }
        self.pending()
    }
}

} // verus!
