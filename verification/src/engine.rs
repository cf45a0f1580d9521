//! The tree download engine, as a step-driven state machine.
//!
//! A download materializes a selected entry recursively:
//! create a folder's directory, list its children, and handle each child
//! in listing order, depth first, aborting on the first failure and
//! keeping what was already written.  Every one of those steps is network
//! or filesystem work the engine cannot do itself, so the engine only
//! decides: it hands the driving loop one [`EngineAction`] at a time, and
//! the loop feeds back one [`EngineEvent`] per action.  The work still
//! pending is an explicit stack, popped in an order that reproduces the
//! depth-first, listing-order traversal.

use vstd::prelude::*;
use vstd::pervasive::unreached;
use crate::errors::AppError;
use crate::item::Item;
use crate::names::{sanitize_filename, sanitize_spec};
use crate::paths::{join_path, join_spec};

verus! {

/// One filesystem or network step the driving loop must perform.
pub enum EngineAction {
    /// Create this directory, with any missing ancestors.
    CreateDir(String),
    /// List the children of the folder with this identifier; the second
    /// field is the folder's local directory path.
    FetchListing(String, String),
    /// Download the document with this identifier to this local path.
    FetchDocument(String, String),
}

/// The outcome of the last requested action, fed back to the engine.
pub enum EngineEvent {
    /// The requested directory now exists.
    DirCreated,
    /// The requested listing arrived with these entries, in listing order.
    Listing(Vec<Item>),
    /// The requested document was written to its path.
    DocumentSaved,
    /// The requested action failed; the whole traversal aborts.
    Failed(AppError),
}

/// What the engine is waiting for.
pub enum Pending {
    /// A directory is being created for the folder with this identifier
    /// at this path; its listing is requested next.
    Dir(String, String),
    /// A listing was requested for the folder at this path; its children
    /// are scheduled under that path when it arrives.
    List(String),
    /// A document download was requested.
    Doc,
}

/// Whether the engine is still working, and its outcome once it is not.
pub enum EngineState {
    Running,
    /// Finished: the realized path of the top-level entry.
    Done(String),
    /// Aborted by the first failure, which is kept here.
    Failed(AppError),
}

/// Whether an event answers what the engine is waiting for; a failure
/// answers anything.
pub open spec fn answers(p: Pending, ev: EngineEvent) -> bool {
    match ev {
        EngineEvent::DirCreated => p is Dir,
        EngineEvent::Listing(_) => p is List,
        EngineEvent::DocumentSaved => p is Doc,
        EngineEvent::Failed(_) => true,
    }
}

/// The on-disk path of a child entry under its parent folder's path.
pub open spec fn child_path(base: Seq<char>, c: Item) -> Seq<char> {
    join_spec(base, sanitize_spec(c.visible_name@, c.folder_spec()))
}

/// The stack slot at `idx` holds the task for child `c` of the folder at
/// `base`: the child itself, and its path under the folder.
pub open spec fn child_slot(stack: Seq<(Item, String)>, idx: int, c: Item, base: Seq<char>) -> bool {
    &&& stack[idx].0 == c
    &&& stack[idx].1@ == child_path(base, c)
}

/// The tree download engine; one value drives one download of a selected
/// entry to a resolved destination path.
pub struct DownloadEngine {
    /// Entries not yet handled, each with its on-disk path; the next one
    /// is on top.
    pub stack: Vec<(Item, String)>,
    /// What the last handed-out action will answer.
    pub pending: Option<Pending>,
    /// The resolved path of the top-level entry, reported when done.
    pub result_path: String,
    /// Working, done, or aborted.
    pub state: EngineState,
}

/// Relation of taking the next task off the stack: with nothing left the
/// engine is done and reports the top-level path; otherwise the top task
/// is started, with a directory for a folder and a download for a
/// document.
pub open spec fn advance_rel(
    stack: Seq<(Item, String)>,
    result_path: String,
    post: DownloadEngine,
    a: Option<EngineAction>,
) -> bool {
    if stack.len() == 0 {
        &&& post.stack@ == stack
        &&& post.pending is None
        &&& post.state == EngineState::Done(result_path)
        &&& a is None
    } else {
        let task = stack.last();
        &&& post.stack@ == stack.drop_last()
        &&& post.state is Running
        &&& if task.0.folder_spec() {
            &&& post.pending == Some(Pending::Dir(task.0.id, task.1))
            &&& a == Some(EngineAction::CreateDir(task.1))
        } else {
            &&& post.pending == Some(Pending::Doc)
            &&& a == Some(EngineAction::FetchDocument(task.0.id, task.1))
        }
    }
}

/// Relation of applying an arrived listing: the children are scheduled
/// under the folder's path so that they are handled in listing order, and
/// the first of them (or, with no children, the next task under the
/// folder) is started at once.
pub open spec fn listing_applied(
    pre_stack: Seq<(Item, String)>,
    children: Seq<Item>,
    base: Seq<char>,
    post: DownloadEngine,
    a: Option<EngineAction>,
    result_path: String,
) -> bool {
    let m = children.len() as int;
    if m == 0 {
        advance_rel(pre_stack, result_path, post, a)
    } else {
        let c0 = children[0];
        let p0 = child_path(base, c0);
        &&& post.stack@.len() == pre_stack.len() + m - 1
        &&& (forall|j: int| 0 <= j < pre_stack.len() ==> post.stack@[j] == pre_stack[j])
        &&& (forall|k: int|
            0 <= k < m - 1 ==> #[trigger] child_slot(
                post.stack@,
                pre_stack.len() + k,
                children[m - 1 - k],
                base,
            ))
        &&& post.state is Running
        &&& if c0.folder_spec() {
            &&& (post.pending matches Some(Pending::Dir(id, p)) && id == c0.id && p@ == p0)
            &&& (a matches Some(EngineAction::CreateDir(d)) && d@ == p0)
        } else {
            &&& post.pending == Some(Pending::Doc)
            &&& (a matches Some(EngineAction::FetchDocument(id, d)) && id == c0.id && d@ == p0)
        }
    }
}

impl DownloadEngine {
    /// The engine's invariant between steps: it is waiting for an answer
    /// exactly while it is running.
    pub open spec fn wf(&self) -> bool {
        self.state is Running <==> self.pending is Some
    }

    /// Starts a download of `item`, already resolved to `final_path`, and
    /// hands out the first action.
    pub fn start(item: Item, final_path: String) -> (r: (DownloadEngine, EngineAction))
        ensures
            r.0.wf(),
            r.0.state is Running,
            r.0.result_path == final_path,
            advance_rel(seq![(item, final_path)], final_path, r.0, Some(r.1)),
    {
        let mut eng = DownloadEngine {
            stack: Vec::new(),
            pending: None,
            result_path: final_path.clone(),
            state: EngineState::Running,
        };
        eng.stack.push((item, final_path));
        proof {
            assert(eng.stack@ =~= seq![(item, final_path)]);
        }
        let a = eng.advance();
        match a {
            Some(act) => (eng, act),
            None => unreached(),
        }
    }

    /// Pops and starts the next task, or finishes.
    fn advance(&mut self) -> (a: Option<EngineAction>)
        ensures
            final(self).wf(),
            final(self).result_path == old(self).result_path,
            (a is Some <==> final(self).state is Running),
            advance_rel(old(self).stack@, old(self).result_path, *final(self), a),
    {
        match self.stack.pop() {
            Some((item, path)) => {
                if item.is_folder() {
                    let act = EngineAction::CreateDir(path.clone());
                    self.pending = Some(Pending::Dir(item.id, path));
                    self.state = EngineState::Running;
                    Some(act)
                } else {
                    self.pending = Some(Pending::Doc);
                    self.state = EngineState::Running;
                    Some(EngineAction::FetchDocument(item.id, path))
                }
            },
            None => {
                self.pending = None;
                self.state = EngineState::Done(self.result_path.clone());
                None
            },
        }
    }

    /// Feeds back the outcome of the last handed-out action and receives
    /// the next one; `None` means the engine stopped, with the outcome in
    /// its state.  A failure aborts everything; a created directory is
    /// followed by that folder's listing; an arrived listing schedules the
    /// children in listing order; a saved document moves on.
    pub fn on_event(&mut self, ev: EngineEvent) -> (a: Option<EngineAction>)
        requires
            old(self).wf(),
            old(self).state is Running,
            (old(self).pending matches Some(p) && answers(p, ev)),
        ensures
            final(self).wf(),
            final(self).result_path == old(self).result_path,
            (a is Some <==> final(self).state is Running),
            (ev matches EngineEvent::Failed(e) ==> final(self).state == EngineState::Failed(e)
                && final(self).stack@ == old(self).stack@ && a is None),
            (ev is DirCreated ==> (old(self).pending matches Some(Pending::Dir(id, p)) && {
                &&& final(self).stack@ == old(self).stack@
                &&& final(self).pending == Some(Pending::List(p))
                &&& final(self).state is Running
                &&& a == Some(EngineAction::FetchListing(id, p))
            })),
            (ev is DocumentSaved ==> advance_rel(
                old(self).stack@,
                old(self).result_path,
                *final(self),
                a,
            )),
            (ev matches EngineEvent::Listing(children) ==> (old(self).pending matches Some(
                Pending::List(base),
            ) && listing_applied(
                old(self).stack@,
                children@,
                base@,
                *final(self),
                a,
                old(self).result_path,
            ))),
    {
        match ev {
            EngineEvent::Failed(e) => {
                self.pending = None;
                self.state = EngineState::Failed(e);
                None
            },
            EngineEvent::DirCreated => {
                let (id, p) = match &self.pending {
                    Some(Pending::Dir(id, p)) => (id.clone(), p.clone()),
                    _ => unreached(),
                };
                self.pending = Some(Pending::List(p.clone()));
                Some(EngineAction::FetchListing(id, p))
            },
            EngineEvent::DocumentSaved => {
                self.pending = None;
                self.advance()
            },
            EngineEvent::Listing(mut children) => {
                let base = match &self.pending {
                    Some(Pending::List(p)) => p.clone(),
                    _ => unreached(),
                };
                self.pending = None;
                let ghost pre_stack = self.stack@;
                let ghost all = children@;
                let ghost m = children@.len() as int;
                proof {
                    assert(all.take(m) =~= all);
                }
                while children.len() > 0
                    invariant
                        children@.len() <= m,
                        children@ == all.take(children@.len() as int),
                        self.stack@.len() == pre_stack.len() + (m - children@.len()),
                        forall|j: int| 0 <= j < pre_stack.len() ==> self.stack@[j] == pre_stack[j],
                        forall|k: int|
                            0 <= k < m - children@.len() ==> #[trigger] child_slot(
                                self.stack@,
                                pre_stack.len() + k,
                                all[m - 1 - k],
                                base@,
                            ),
                        self.result_path == old(self).result_path,
                        self.state == old(self).state,
                        m == all.len(),
                    decreases children@.len(),
                {
                    let ghost n = children@.len() as int;
                    let c = match children.pop() {
                        Some(c) => c,
                        None => unreached(),
                    };
                    proof {
                        assert(c == all[n - 1]);
                        assert(children@ =~= all.take(n - 1));
                    }
                    let is_f = c.is_folder();
                    let safe = sanitize_filename(c.visible_name.as_str(), is_f);
                    let cp = join_path(base.as_str(), safe.as_str());
                    let ghost before = self.stack@;
                    self.stack.push((c, cp));
                    proof {
                        assert(cp@ == child_path(base@, c));
                        assert forall|k: int| 0 <= k < m - (n - 1) implies #[trigger] child_slot(
                            self.stack@,
                            pre_stack.len() + k,
                            all[m - 1 - k],
                            base@,
                        ) by {
                            if k < m - n {
                                assert(child_slot(before, pre_stack.len() + k, all[m - 1 - k], base@));
                                assert(self.stack@[pre_stack.len() + k] == before[pre_stack.len()
                                    + k]);
                            } else {
                                assert(k == m - n);
                                assert(self.stack@[pre_stack.len() + k] == (c, cp));
                            }
                        }
                        assert forall|j: int| 0 <= j < pre_stack.len() implies self.stack@[j]
                            == pre_stack[j] by {
                            assert(self.stack@[j] == before[j]);
                        }
                    }
                }
                let ghost ext = self.stack@;
                let a = self.advance();
                proof {
                    if m == 0 {
                        assert(ext =~= pre_stack);
                    } else {
                        let kk = m - 1;
                        assert(child_slot(ext, pre_stack.len() + kk, all[m - 1 - kk], base@));
                        assert(child_slot(ext, pre_stack.len() + m - 1, all[0], base@));
                        assert(ext.last() == ext[pre_stack.len() + m - 1]);
                        assert forall|j: int| 0 <= j < pre_stack.len() implies self.stack@[j]
                            == pre_stack[j] by {
                            assert(self.stack@[j] == ext.drop_last()[j]);
                            assert(ext[j] == pre_stack[j]);
                        }
                        assert forall|k: int| 0 <= k < m - 1 implies #[trigger] child_slot(
                            self.stack@,
                            pre_stack.len() + k,
                            all[m - 1 - k],
                            base@,
                        ) by {
                            assert(child_slot(ext, pre_stack.len() + k, all[m - 1 - k], base@));
                            assert(self.stack@[pre_stack.len() + k] == ext[pre_stack.len() + k]);
                        }
                    }
                }
                a
            },
        }
    }

    /// The finished engine's outcome: the realized top-level path, or the
    /// failure that aborted the traversal.
    pub fn outcome(self) -> (r: Result<String, AppError>)
        requires
            !(self.state is Running),
        ensures
            (self.state matches EngineState::Done(p) ==> r == Ok::<String, AppError>(p)),
            (self.state matches EngineState::Failed(e) ==> r == Err::<String, AppError>(e)),
    {
        match self.state {
            EngineState::Done(p) => Ok(p),
            EngineState::Failed(e) => Err(e),
            EngineState::Running => unreached(),
        }
    }
}

} // verus!
