//! Navigation and session state, and the message router.
//!
//! One value of [`AppLogic`] is owned by the coordination loop; every
//! keystroke and every completion message is applied to it through the
//! transitions here.  A transition never performs I/O: where the behaviour
//! calls for a background operation, the transition returns an
//! [`Action`] describing it, and where it depends on the filesystem the
//! caller passes the probe's outcome in as a boolean.  Listing results are
//! tagged with the folder they were fetched for, and a result arriving for
//! a folder no longer current is discarded without touching the entries.

use vstd::prelude::*;
use vstd::string::StringExecFns;
use crate::item::Item;
use crate::paths::expand_spec;
use crate::paths::expand_path;
use crate::text::{str_eq, string_push, string_pop, trim_spec, trim_str};

verus! {

/// Which input the session is routing keys to.
#[derive(Clone, Copy, PartialEq, Eq, Structural)]
pub enum InputMode {
    Normal,
    Uploading,
    Downloading,
}

/// The last human-readable event, kept structured; rendering it to text is
/// the display layer's concern.
pub enum Status {
    Ready,
    Loading,
    AlreadyAtRoot,
    /// Awaiting a download destination for the named entry.
    DownloadPrompt(String),
    DownloadCancelled,
    /// Awaiting the local path of a file to upload.
    UploadPrompt,
    UploadCancelled,
    /// The typed path was empty after trimming.
    EmptyPath,
    /// The typed upload source does not exist on disk.
    MissingLocalFile,
    /// A download of the named entry to the given destination is running.
    DownloadStarted(String, String),
    /// An upload of the given local file is running.
    UploadStarted(String),
    /// A listing of this many entries was applied.
    Loaded(usize),
    /// The named entry finished downloading to the given path.
    Downloaded(String, String),
    /// A background operation failed with this message.
    Failed(String),
}

/// A background operation the caller must launch: the transitions decide,
/// the loop performs.
pub enum Action {
    /// List this folder (`None` is the root) and report back a
    /// `DocumentsFetched` tagged with the same folder.
    Refresh(Option<String>),
    /// Download this entry to the given expanded destination path.
    StartDownload(Item, String),
    /// Upload the file at the given expanded path; the folder is the one
    /// to re-list as the pre-flight check before sending.
    StartUpload(String, Option<String>),
}

/// A completion message from a background operation, consumed only by the
/// coordination loop.
pub enum AppMessage {
    /// A listing arrived: the folder it was fetched for, and its entries.
    DocumentsFetched(Option<String>, Vec<Item>),
    /// A download finished: the entry's name and the realized path.
    DownloadComplete(String, String),
    /// An upload finished: the uploaded local path.
    UploadComplete(String),
    /// Any background failure, already rendered to text.
    Error(String),
}

/// One keystroke, already decoded from the terminal event.
#[derive(Clone, Copy, PartialEq, Eq, Structural)]
pub enum Key {
    Char(char),
    Up,
    Down,
    Left,
    Enter,
    Esc,
    Backspace,
}

/// What the coordination loop must do after a keystroke was applied.
pub enum KeyOutcome {
    /// Leave the loop.
    Quit,
    /// Launch this background operation.
    Spawn(Action),
    /// Probe whether the file at `pending_path()` exists, then call
    /// `confirm_upload` with the outcome.
    ProbeUpload,
    /// Nothing to do outside.
    Idle,
}

/// The action carried by a `Spawn` outcome, if any.
pub open spec fn outcome_action(o: KeyOutcome) -> Option<Action> {
    match o {
        KeyOutcome::Spawn(a) => Some(a),
        _ => None,
    }
}

/// The navigation part of the session, abstracted: the current folder and
/// the stack of previously current folders, root written as `None`.
#[verifier::ext_equal]
pub struct NavModel {
    pub current: Option<Seq<char>>,
    pub history: Seq<Option<Seq<char>>>,
}

/// One navigation step: entering a folder, or going back.
pub enum NavOp {
    Enter(Seq<char>),
    Back,
}

/// Navigation starts at the root with no history.
pub open spec fn nav_init() -> NavModel {
    NavModel { current: None, history: Seq::empty() }
}

/// Entering a folder pushes the current one and makes the entered folder
/// current.
pub open spec fn nav_enter(m: NavModel, id: Seq<char>) -> NavModel {
    NavModel { current: Some(id), history: m.history.push(m.current) }
}

/// Going back pops the most recently pushed folder and makes it current;
/// with no history it changes nothing.
pub open spec fn nav_back(m: NavModel) -> NavModel {
    if m.history.len() == 0 {
        m
    } else {
        NavModel { current: m.history.last(), history: m.history.drop_last() }
    }
}

/// The navigation state after replaying `ops` from the initial state.
pub open spec fn nav_replay(ops: Seq<NavOp>) -> NavModel
    decreases ops.len(),
{
    if ops.len() == 0 {
        nav_init()
    } else {
        match ops.last() {
            NavOp::Enter(id) => nav_enter(nav_replay(ops.drop_last()), id),
            NavOp::Back => nav_back(nav_replay(ops.drop_last())),
        }
    }
}

/// The number of enters in `ops` not yet matched by a back: a back on an
/// empty stack counts for nothing.
pub open spec fn open_depth(ops: Seq<NavOp>) -> nat
    decreases ops.len(),
{
    if ops.len() == 0 {
        0
    } else {
        let d = open_depth(ops.drop_last());
        match ops.last() {
            NavOp::Enter(_) => d + 1,
            NavOp::Back => if d > 0 {
                (d - 1) as nat
            } else {
                0
            },
        }
    }
}

/// The navigation invariant: the history holds exactly the folders that
/// were current before each open enter, so its bottom entry (and only
/// that one) is the root, and the current folder is the root exactly when
/// the history is empty.
pub open spec fn nav_inv(m: NavModel) -> bool {
    &&& (m.current is None <==> m.history.len() == 0)
    &&& forall|i: int| 0 <= i < m.history.len() ==> (m.history[i] is None <==> i == 0)
}

/// Entering a folder preserves the navigation invariant.
pub proof fn lemma_nav_enter_inv(m: NavModel, id: Seq<char>)
    requires
        nav_inv(m),
    ensures
        nav_inv(nav_enter(m, id)),
{
    let n = nav_enter(m, id);
    assert forall|i: int| 0 <= i < n.history.len() implies (n.history[i] is None <==> i == 0) by {
        if i < m.history.len() {
            assert(n.history[i] == m.history[i]);
        }
    }
}

/// Going back preserves the navigation invariant.
pub proof fn lemma_nav_back_inv(m: NavModel)
    requires
        nav_inv(m),
    ensures
        nav_inv(nav_back(m)),
{
    if m.history.len() > 0 {
        let n = nav_back(m);
        assert(m.history[m.history.len() - 1] is None <==> m.history.len() - 1 == 0);
    }
}

/// After replaying any sequence of enters and backs from the root, the
/// history depth equals the count of unmatched enters, and the current
/// folder is the root exactly when that count is zero.
pub proof fn lemma_navigation_replay(ops: Seq<NavOp>)
    ensures
        nav_inv(nav_replay(ops)),
        nav_replay(ops).history.len() == open_depth(ops),
        nav_replay(ops).current is None <==> open_depth(ops) == 0,
    decreases ops.len(),
{
    if ops.len() > 0 {
        lemma_navigation_replay(ops.drop_last());
        let m = nav_replay(ops.drop_last());
        match ops.last() {
            NavOp::Enter(id) => lemma_nav_enter_inv(m, id),
            NavOp::Back => lemma_nav_back_inv(m),
        }
    }
}

/// The session state owned by the coordination loop.
pub struct AppLogic {
    /// The last applied listing of the current folder, in listing order.
    pub items: Vec<Item>,
    /// The selection cursor into `items`.
    pub selected: Option<usize>,
    /// The current folder; `None` is the root.
    pub current_guid: Option<String>,
    /// Folders that were current before each open enter.
    pub history: Vec<Option<String>>,
    /// Where keystrokes are routed.
    pub input_mode: InputMode,
    /// The path being typed while a prompt is open.
    pub input_buffer: String,
    /// The last human-readable event.
    pub status: Status,
}

/// Copies an optional folder identifier.
fn clone_opt_id(o: &Option<String>) -> (r: Option<String>)
    ensures
        r == *o,
{
    match o {
        Some(s) => Some(s.clone()),
        None => None,
    }
}

/// Compares two optional folder identifiers by their text.
pub fn same_folder(a: &Option<String>, b: &Option<String>) -> (r: bool)
    ensures
        r == (a.deep_view() == b.deep_view()),
{
    match (a, b) {
        (None, None) => true,
        (Some(x), Some(y)) => str_eq(x.as_str(), y.as_str()),
        _ => false,
    }
}

/// The entry under the cursor, if the cursor is on one.
pub open spec fn sel_item(s: AppLogic) -> Option<Item> {
    match s.selected {
        Some(i) => if i < s.items@.len() {
            Some(s.items@[i as int])
        } else {
            None
        },
        None => None,
    }
}

/// The folder under the cursor, if the cursor is on a folder.
pub open spec fn enter_target(s: AppLogic) -> Option<Item> {
    match sel_item(s) {
        Some(item) => if item.folder_spec() {
            Some(item)
        } else {
            None
        },
        None => None,
    }
}

/// The selection index one step forward, wrapping past the last entry to
/// the first; an empty cursor starts at the first entry.
pub open spec fn wrap_forward(sel: Option<usize>, n: int) -> int {
    match sel {
        None => 0,
        Some(i) => if i + 1 >= n {
            0
        } else {
            i + 1
        },
    }
}

/// The selection index one step backward, wrapping past the first entry
/// to the last; an empty cursor starts at the first entry.
pub open spec fn wrap_backward(sel: Option<usize>, n: int) -> int {
    match sel {
        None => 0,
        Some(i) => if i == 0 {
            n - 1
        } else {
            i - 1
        },
    }
}

/// Relation of `next` and `previous`: a no-op on an empty listing, else
/// only the cursor moves, by one step with wraparound.
pub open spec fn moved_selection(pre: AppLogic, post: AppLogic, forward: bool) -> bool {
    if pre.items@.len() == 0 {
        post == pre
    } else {
        let k = if forward {
            wrap_forward(pre.selected, pre.items@.len() as int)
        } else {
            wrap_backward(pre.selected, pre.items@.len() as int)
        };
        post == AppLogic { selected: Some(k as usize), ..pre }
    }
}

/// Relation of `refresh`: the status shows loading and the returned
/// action asks for a listing of the current folder.
pub open spec fn refreshed(pre: AppLogic, post: AppLogic, a: Action) -> bool {
    &&& post == AppLogic { status: Status::Loading, ..pre }
    &&& a == Action::Refresh(pre.current_guid)
}

/// Relation of `enter`: only when the cursor is on a folder, that folder
/// becomes current, the previous one is pushed, the cursor clears, and a
/// refresh of the entered folder is requested; otherwise nothing happens.
pub open spec fn entered(pre: AppLogic, post: AppLogic, a: Option<Action>) -> bool {
    match enter_target(pre) {
        Some(item) => {
            &&& post.items == pre.items
            &&& post.selected is None
            &&& post.current_guid == Some(item.id)
            &&& post.history@ == pre.history@.push(pre.current_guid)
            &&& post.input_mode == pre.input_mode
            &&& post.input_buffer == pre.input_buffer
            &&& post.status == Status::Loading
            &&& post.nav() == nav_enter(pre.nav(), item.id@)
            &&& a == Some(Action::Refresh(post.current_guid))
        },
        None => post == pre && a is None,
    }
}

/// Relation of `go_back`: with no history only the status changes, to say
/// the session is already at the root; otherwise the most recent folder is
/// popped and made current, the cursor clears, and a refresh of it is
/// requested.
pub open spec fn went_back(pre: AppLogic, post: AppLogic, a: Option<Action>) -> bool {
    if pre.history@.len() == 0 {
        &&& post == AppLogic { status: Status::AlreadyAtRoot, ..pre }
        &&& a is None
    } else {
        &&& post.items == pre.items
        &&& post.selected is None
        &&& post.current_guid == pre.history@.last()
        &&& post.history@ == pre.history@.drop_last()
        &&& post.input_mode == pre.input_mode
        &&& post.input_buffer == pre.input_buffer
        &&& post.status == Status::Loading
        &&& post.nav() == nav_back(pre.nav())
        &&& a == Some(Action::Refresh(post.current_guid))
    }
}

/// Relation of `download`: with the cursor on an entry, the session starts
/// awaiting a destination path for it with a cleared buffer; with no
/// cursor nothing happens.
pub open spec fn download_prompted(pre: AppLogic, post: AppLogic) -> bool {
    match sel_item(pre) {
        Some(item) => {
            &&& post.items == pre.items
            &&& post.selected == pre.selected
            &&& post.current_guid == pre.current_guid
            &&& post.history == pre.history
            &&& post.input_mode == InputMode::Downloading
            &&& post.input_buffer@.len() == 0
            &&& post.status == Status::DownloadPrompt(item.visible_name)
        },
        None => post == pre,
    }
}

/// Relation of `start_upload`: the session starts awaiting the local path
/// of a file to upload, with a cleared buffer.
pub open spec fn upload_prompted(pre: AppLogic, post: AppLogic) -> bool {
    &&& post.items == pre.items
    &&& post.selected == pre.selected
    &&& post.current_guid == pre.current_guid
    &&& post.history == pre.history
    &&& post.input_mode == InputMode::Uploading
    &&& post.input_buffer@.len() == 0
    &&& post.status == Status::UploadPrompt
}

/// Relation of `cancel_download` and `cancel_upload`: back to normal mode
/// with a cleared buffer and a cancellation notice.
pub open spec fn cancelled(pre: AppLogic, post: AppLogic, upload: bool) -> bool {
    &&& post.items == pre.items
    &&& post.selected == pre.selected
    &&& post.current_guid == pre.current_guid
    &&& post.history == pre.history
    &&& post.input_mode == InputMode::Normal
    &&& post.input_buffer@.len() == 0
    &&& post.status == (if upload {
        Status::UploadCancelled
    } else {
        Status::DownloadCancelled
    })
}

/// Relation of `confirm_download`: an empty trimmed path is rejected in
/// place; otherwise, with the cursor on an entry, a download of it to the
/// expanded path is requested and the session returns to normal mode; with
/// no cursor nothing happens.
pub open spec fn confirmed_download(
    pre: AppLogic,
    post: AppLogic,
    home: Option<Seq<char>>,
    a: Option<Action>,
) -> bool {
    let trimmed = trim_spec(pre.input_buffer@);
    let path = expand_spec(trimmed, home);
    if trimmed.len() == 0 {
        &&& post == AppLogic { status: Status::EmptyPath, ..pre }
        &&& a is None
    } else {
        match sel_item(pre) {
            Some(item) => {
                &&& post.items == pre.items
                &&& post.selected == pre.selected
                &&& post.current_guid == pre.current_guid
                &&& post.history == pre.history
                &&& post.input_mode == InputMode::Normal
                &&& post.input_buffer == pre.input_buffer
                &&& (post.status matches Status::DownloadStarted(n, d) && n == item.visible_name
                    && d@ == path)
                &&& (a matches Some(Action::StartDownload(it, d)) && it == item && d@ == path)
            },
            None => post == pre && a is None,
        }
    }
}

/// Relation of `confirm_upload`: an empty trimmed path is rejected in
/// place; a path that does not exist on disk is rejected without leaving
/// the prompt and without requesting anything; otherwise an upload is
/// requested, preceded by a re-listing of the current folder, and the
/// session returns to normal mode.
pub open spec fn confirmed_upload(
    pre: AppLogic,
    post: AppLogic,
    home: Option<Seq<char>>,
    path_exists: bool,
    a: Option<Action>,
) -> bool {
    let trimmed = trim_spec(pre.input_buffer@);
    let path = expand_spec(trimmed, home);
    if trimmed.len() == 0 {
        &&& post == AppLogic { status: Status::EmptyPath, ..pre }
        &&& a is None
    } else if !path_exists {
        &&& post == AppLogic { status: Status::MissingLocalFile, ..pre }
        &&& a is None
    } else {
        &&& post.items == pre.items
        &&& post.selected == pre.selected
        &&& post.current_guid == pre.current_guid
        &&& post.history == pre.history
        &&& post.input_mode == InputMode::Normal
        &&& post.input_buffer == pre.input_buffer
        &&& (post.status matches Status::UploadStarted(p) && p@ == path)
        &&& (a matches Some(Action::StartUpload(p, g)) && p@ == path && g == pre.current_guid)
    }
}

/// Relation of `apply_message`.  A listing replaces the entries and clears
/// the cursor only when it was fetched for the folder still current; a
/// stale listing is discarded without touching anything.  A finished
/// download only reports; a finished upload reports and requests a refresh
/// so the new document appears; a failure only reports.
pub open spec fn applied(pre: AppLogic, post: AppLogic, msg: AppMessage, a: Option<Action>) -> bool {
    match msg {
        AppMessage::DocumentsFetched(folder, items) => {
            if folder.deep_view() == pre.current_guid.deep_view() {
                &&& post.items == items
                &&& post.selected is None
                &&& post.current_guid == pre.current_guid
                &&& post.history == pre.history
                &&& post.input_mode == pre.input_mode
                &&& post.input_buffer == pre.input_buffer
                &&& post.status == Status::Loaded(items@.len() as usize)
                &&& a is None
            } else {
                post == pre && a is None
            }
        },
        AppMessage::DownloadComplete(name, path) => {
            &&& post == AppLogic { status: Status::Downloaded(name, path), ..pre }
            &&& a is None
        },
        AppMessage::UploadComplete(_) => {
            &&& post == AppLogic { status: Status::Loading, ..pre }
            &&& (a matches Some(Action::Refresh(g)) && g == pre.current_guid)
        },
        AppMessage::Error(e) => {
            &&& post == AppLogic { status: Status::Failed(e), ..pre }
            &&& a is None
        },
    }
}

/// The key help line for the current state: fixed hints in a prompt; in
/// normal mode the base actions, a back hint once there is history, and an
/// open or download hint for the entry under the cursor.
pub open spec fn help_text_spec(s: AppLogic) -> Seq<char> {
    match s.input_mode {
        InputMode::Uploading => "[Enter] Confirm Upload [Esc] Cancel"@,
        InputMode::Downloading => "[Enter] Confirm Download [Esc] Cancel"@,
        InputMode::Normal => {
            let base = "[q] Quit | [u] Upload | [r] Refresh | [j/k] Nav"@;
            let with_back = if s.history@.len() > 0 {
                base + " | [h] Back"@
            } else {
                base
            };
            match sel_item(s) {
                Some(item) => if item.folder_spec() {
                    with_back + " | [l/Enter] Open"@
                } else {
                    with_back + " | [d] Download"@
                },
                None => with_back,
            }
        },
    }
}

impl AppLogic {
    /// The navigation part of this state, abstracted to sequences.
    pub open spec fn nav(&self) -> NavModel {
        NavModel { current: self.current_guid.deep_view(), history: self.history.deep_view() }
    }

    /// Well-formedness: the cursor stays inside the entries, and the
    /// navigation invariant holds.
    pub open spec fn wf(&self) -> bool {
        &&& (self.selected matches Some(i) ==> (i as int) < self.items@.len())
        &&& nav_inv(self.nav())
    }

    /// A fresh session: at the root, nothing listed, normal mode.
    pub fn new() -> (s: AppLogic)
        ensures
            s.wf(),
            s.items@.len() == 0,
            s.selected is None,
            s.current_guid is None,
            s.history@.len() == 0,
            s.input_mode == InputMode::Normal,
            s.input_buffer@.len() == 0,
            s.status is Ready,
            s.nav() == nav_init(),
    {
        let s = AppLogic {
            items: Vec::new(),
            selected: None,
            current_guid: None,
            history: Vec::new(),
            input_mode: InputMode::Normal,
            input_buffer: String::new(),
            status: Status::Ready,
        };
        proof {
            assert(s.nav() =~= nav_init());
        }
        s
    }

    /// Moves the cursor one entry down, wrapping to the top.
    pub fn next(&mut self)
        requires
            old(self).wf(),
        ensures
            final(self).wf(),
            moved_selection(*old(self), *final(self), true),
    {
        if self.items.len() == 0 {
            return ;
        }
        let i = match self.selected {
            Some(i) => if i >= self.items.len() - 1 {
                0
            } else {
                i + 1
            },
            None => 0,
        };
        self.selected = Some(i);
    }

    /// Moves the cursor one entry up, wrapping to the bottom.
    pub fn previous(&mut self)
        requires
            old(self).wf(),
        ensures
            final(self).wf(),
            moved_selection(*old(self), *final(self), false),
    {
        if self.items.len() == 0 {
            return ;
        }
        let i = match self.selected {
            Some(i) => if i == 0 {
                self.items.len() - 1
            } else {
                i - 1
            },
            None => 0,
        };
        self.selected = Some(i);
    }

    /// Marks the session loading and asks for a listing of the current
    /// folder, tagged with it.
    pub fn refresh(&mut self) -> (a: Action)
        requires
            old(self).wf(),
        ensures
            final(self).wf(),
            refreshed(*old(self), *final(self), a),
    {
        self.status = Status::Loading;
        Action::Refresh(clone_opt_id(&self.current_guid))
    }

    /// Enters the folder under the cursor, if the cursor is on one.
    pub fn enter(&mut self) -> (a: Option<Action>)
        requires
            old(self).wf(),
        ensures
            final(self).wf(),
            entered(*old(self), *final(self), a),
    {
        let ghost pre = *old(self);
        if let Some(i) = self.selected {
            if i < self.items.len() {
                if self.items[i].is_folder() {
                    let id = self.items[i].id.clone();
                    let previous_folder = clone_opt_id(&self.current_guid);
                    self.history.push(previous_folder);
                    self.current_guid = Some(id);
                    self.selected = None;
                    proof {
                        assert(self.history.deep_view() =~= pre.history.deep_view().push(
                            pre.current_guid.deep_view(),
                        ));
                        assert(self.nav() =~= nav_enter(pre.nav(), pre.items@[i as int].id@));
                        lemma_nav_enter_inv(pre.nav(), pre.items@[i as int].id@);
                    }
                    let act = self.refresh();
                    return Some(act);
                }
            }
        }
        None
    }

    /// Pops the most recently entered folder and returns to it; at the
    /// root it only reports being there already.
    pub fn go_back(&mut self) -> (a: Option<Action>)
        requires
            old(self).wf(),
        ensures
            final(self).wf(),
            went_back(*old(self), *final(self), a),
    {
        let ghost pre = *old(self);
        if self.history.len() == 0 {
            self.status = Status::AlreadyAtRoot;
            return None;
        }
        match self.history.pop() {
            Some(prev) => {
                self.current_guid = prev;
                self.selected = None;
                proof {
                    assert(self.history.deep_view() =~= pre.history.deep_view().drop_last());
                    assert(self.nav() =~= nav_back(pre.nav()));
                    lemma_nav_back_inv(pre.nav());
                }
                let act = self.refresh();
                Some(act)
            },
            None => None,
        }
    }

    /// Starts prompting for a download destination for the entry under
    /// the cursor.
    pub fn download(&mut self)
        requires
            old(self).wf(),
        ensures
            final(self).wf(),
            download_prompted(*old(self), *final(self)),
    {
        if let Some(i) = self.selected {
            if i < self.items.len() {
                self.input_mode = InputMode::Downloading;
                self.input_buffer = String::new();
                self.status = Status::DownloadPrompt(self.items[i].visible_name.clone());
            }
        }
    }

    /// Abandons the download prompt.
    pub fn cancel_download(&mut self)
        requires
            old(self).wf(),
        ensures
            final(self).wf(),
            cancelled(*old(self), *final(self), false),
    {
        self.input_mode = InputMode::Normal;
        self.input_buffer = String::new();
        self.status = Status::DownloadCancelled;
    }

    /// Starts prompting for the local path of a file to upload.
    pub fn start_upload(&mut self)
        requires
            old(self).wf(),
        ensures
            final(self).wf(),
            upload_prompted(*old(self), *final(self)),
    {
        self.input_mode = InputMode::Uploading;
        self.input_buffer = String::new();
        self.status = Status::UploadPrompt;
    }

    /// Abandons the upload prompt.
    pub fn cancel_upload(&mut self)
        requires
            old(self).wf(),
        ensures
            final(self).wf(),
            cancelled(*old(self), *final(self), true),
    {
        self.input_mode = InputMode::Normal;
        self.input_buffer = String::new();
        self.status = Status::UploadCancelled;
    }

    /// The typed path as the background operations will see it: trimmed,
    /// with a leading `~` expanded against the given home directory.
    pub fn pending_path(&self, home: &Option<String>) -> (r: String)
        ensures
            r@ == expand_spec(trim_spec(self.input_buffer@), home.deep_view()),
    {
        expand_path(trim_str(self.input_buffer.as_str()), home)
    }

    /// Confirms the typed download destination: rejects an empty path in
    /// place, otherwise requests a download of the entry under the cursor
    /// to the expanded path and returns to normal mode.
    pub fn confirm_download(&mut self, home: &Option<String>) -> (a: Option<Action>)
        requires
            old(self).wf(),
        ensures
            final(self).wf(),
            confirmed_download(*old(self), *final(self), home.deep_view(), a),
    {
        let trimmed_len = trim_str(self.input_buffer.as_str()).unicode_len();
        if trimmed_len == 0 {
            self.status = Status::EmptyPath;
            return None;
        }
        let path = self.pending_path(home);
        if let Some(i) = self.selected {
            if i < self.items.len() {
                let item = self.items[i].clone();
                let name = self.items[i].visible_name.clone();
                self.input_mode = InputMode::Normal;
                self.status = Status::DownloadStarted(name, path.clone());
                return Some(Action::StartDownload(item, path));
            }
        }
        None
    }

    /// Confirms the typed upload source.  `path_exists` is the caller's
    /// probe of whether a file exists at `pending_path(home)`.  An empty
    /// path or a missing file is rejected in place, and nothing is
    /// requested; otherwise an upload is requested and the session returns
    /// to normal mode.
    pub fn confirm_upload(&mut self, home: &Option<String>, path_exists: bool) -> (a: Option<
        Action,
    >)
        requires
            old(self).wf(),
        ensures
            final(self).wf(),
            confirmed_upload(*old(self), *final(self), home.deep_view(), path_exists, a),
    {
        let trimmed_len = trim_str(self.input_buffer.as_str()).unicode_len();
        if trimmed_len == 0 {
            self.status = Status::EmptyPath;
            return None;
        }
        let path = self.pending_path(home);
        if !path_exists {
            self.status = Status::MissingLocalFile;
            return None;
        }
        self.input_mode = InputMode::Normal;
        self.status = Status::UploadStarted(path.clone());
        Some(Action::StartUpload(path, clone_opt_id(&self.current_guid)))
    }

    /// Applies one completion message from a background operation; see
    /// [`applied`] for the exact effect of each kind, including the silent
    /// discard of a stale listing.
    pub fn apply_message(&mut self, msg: AppMessage) -> (a: Option<Action>)
        requires
            old(self).wf(),
        ensures
            final(self).wf(),
            applied(*old(self), *final(self), msg, a),
    {
        match msg {
            AppMessage::DocumentsFetched(folder, items) => {
                if same_folder(&folder, &self.current_guid) {
                    let n = items.len();
                    self.items = items;
                    self.selected = None;
                    self.status = Status::Loaded(n);
                }
                None
            },
            AppMessage::DownloadComplete(name, path) => {
                self.status = Status::Downloaded(name, path);
                None
            },
            AppMessage::UploadComplete(_) => {
                let act = self.refresh();
                Some(act)
            },
            AppMessage::Error(e) => {
                self.status = Status::Failed(e);
                None
            },
        }
    }

    /// The key help line for the current state.
    pub fn get_help_text(&self) -> (r: String)
        requires
            self.wf(),
        ensures
            r@ == help_text_spec(*self),
    {
        match self.input_mode {
            InputMode::Uploading => "[Enter] Confirm Upload [Esc] Cancel".to_owned(),
            InputMode::Downloading => "[Enter] Confirm Download [Esc] Cancel".to_owned(),
            InputMode::Normal => {
                let mut text = "[q] Quit | [u] Upload | [r] Refresh | [j/k] Nav".to_owned();
                if self.history.len() > 0 {
                    text.append(" | [h] Back");
                }
                if let Some(i) = self.selected {
                    if i < self.items.len() {
                        if self.items[i].is_folder() {
                            text.append(" | [l/Enter] Open");
                        } else {
                            text.append(" | [d] Download");
                        }
                    }
                }
                text
            },
        }
    }

    /// Routes one keystroke by the current input mode, exactly as the
    /// interactive surface defines it; the outcome tells the loop what is
    /// left to do.
    pub fn handle_key(&mut self, key: Key, home: &Option<String>) -> (o: KeyOutcome)
        requires
            old(self).wf(),
        ensures
            final(self).wf(),
            ({
                let pre = *old(self);
                let post = *final(self);
                let h = home.deep_view();
                match pre.input_mode {
                    InputMode::Normal => match key {
                        Key::Char(c) => {
                            if c == 'q' {
                                post == pre && o is Quit
                            } else if c == 'j' {
                                moved_selection(pre, post, true) && o is Idle
                            } else if c == 'k' {
                                moved_selection(pre, post, false) && o is Idle
                            } else if c == 'l' {
                                entered(pre, post, outcome_action(o)) && (o is Spawn || o is Idle)
                            } else if c == 'h' {
                                went_back(pre, post, outcome_action(o)) && (o is Spawn || o is Idle)
                            } else if c == 'd' {
                                download_prompted(pre, post) && o is Idle
                            } else if c == 'u' {
                                upload_prompted(pre, post) && o is Idle
                            } else if c == 'r' {
                                o matches KeyOutcome::Spawn(a) && refreshed(pre, post, a)
                            } else {
                                post == pre && o is Idle
                            }
                        },
                        Key::Down => moved_selection(pre, post, true) && o is Idle,
                        Key::Up => moved_selection(pre, post, false) && o is Idle,
                        Key::Enter => entered(pre, post, outcome_action(o)) && (o is Spawn
                            || o is Idle),
                        Key::Left | Key::Backspace => went_back(pre, post, outcome_action(o)) && (
                        o is Spawn || o is Idle),
                        Key::Esc => post == pre && o is Idle,
                    },
                    InputMode::Uploading => match key {
                        Key::Enter => post == pre && o is ProbeUpload,
                        Key::Esc => cancelled(pre, post, true) && o is Idle,
                        Key::Char(c) => post == AppLogic {
                            input_buffer: post.input_buffer,
                            ..pre
                        } && post.input_buffer@ == pre.input_buffer@.push(c) && o is Idle,
                        Key::Backspace => post == AppLogic { input_buffer: post.input_buffer, ..pre }
                            && post.input_buffer@ == (if pre.input_buffer@.len() > 0 {
                            pre.input_buffer@.drop_last()
                        } else {
                            pre.input_buffer@
                        }) && o is Idle,
                        _ => post == pre && o is Idle,
                    },
                    InputMode::Downloading => match key {
                        Key::Enter => confirmed_download(pre, post, h, outcome_action(o)) && (
                        o is Spawn || o is Idle),
                        Key::Esc => cancelled(pre, post, false) && o is Idle,
                        Key::Char(c) => post == AppLogic {
                            input_buffer: post.input_buffer,
                            ..pre
                        } && post.input_buffer@ == pre.input_buffer@.push(c) && o is Idle,
                        Key::Backspace => post == AppLogic { input_buffer: post.input_buffer, ..pre }
                            && post.input_buffer@ == (if pre.input_buffer@.len() > 0 {
                            pre.input_buffer@.drop_last()
                        } else {
                            pre.input_buffer@
                        }) && o is Idle,
                        _ => post == pre && o is Idle,
                    },
                }
            }),
    {
        match self.input_mode {
            InputMode::Normal => match key {
                Key::Char('q') => KeyOutcome::Quit,
                Key::Char('j') | Key::Down => {
                    self.next();
                    KeyOutcome::Idle
                },
                Key::Char('k') | Key::Up => {
                    self.previous();
                    KeyOutcome::Idle
                },
                Key::Char('l') | Key::Enter => match self.enter() {
                    Some(a) => KeyOutcome::Spawn(a),
                    None => KeyOutcome::Idle,
                },
                Key::Char('h') | Key::Backspace | Key::Left => match self.go_back() {
                    Some(a) => KeyOutcome::Spawn(a),
                    None => KeyOutcome::Idle,
                },
                Key::Char('d') => {
                    self.download();
                    KeyOutcome::Idle
                },
                Key::Char('u') => {
                    self.start_upload();
                    KeyOutcome::Idle
                },
                Key::Char('r') => {
                    let a = self.refresh();
                    KeyOutcome::Spawn(a)
                },
                _ => KeyOutcome::Idle,
            },
            InputMode::Uploading => match key {
                Key::Enter => KeyOutcome::ProbeUpload,
                Key::Esc => {
                    self.cancel_upload();
                    KeyOutcome::Idle
                },
                Key::Char(c) => {
                    string_push(&mut self.input_buffer, c);
                    KeyOutcome::Idle
                },
                Key::Backspace => {
                    string_pop(&mut self.input_buffer);
                    KeyOutcome::Idle
                },
                _ => KeyOutcome::Idle,
            },
            InputMode::Downloading => match key {
                Key::Enter => match self.confirm_download(home) {
                    Some(a) => KeyOutcome::Spawn(a),
                    None => KeyOutcome::Idle,
                },
                Key::Esc => {
                    self.cancel_download();
                    KeyOutcome::Idle
                },
                Key::Char(c) => {
                    string_push(&mut self.input_buffer, c);
                    KeyOutcome::Idle
                },
                Key::Backspace => {
                    string_pop(&mut self.input_buffer);
                    KeyOutcome::Idle
                },
                _ => KeyOutcome::Idle,
            },
        }
    }
}

} // verus!
