//! The workspace registry: the list of workspaces and the active workspace
//! id, as `workspaces.json` and `active.json` hold them under the store's
//! root. Every operation is stated as a function from the registry before
//! to the registry after and the answer given (`spec_create`, `spec_rename`,
//! `spec_delete`, `spec_set_active`, `spec_get_active`).
use vstd::prelude::*;
use vstd::string::*;
use crate::paths::{debug_path, debug_path_text, join, path_join, is_absolute, is_absolute_path};
use crate::platform::{is_v4_uuid, new_workspace_id, now_millis};
use crate::text::{
    chars_of, debug_str, debug_text, eq_ignore_ascii_case, eq_ignore_case, push_str, trim, trimmed,
};

verus! {

/// One workspace: a named folder the agent works in.
#[derive(Debug)]
pub struct Workspace {
    pub id: String,
    pub name: String,
    pub path: String,
    /// Unix timestamp in milliseconds; bumped whenever the workspace is made active.
    pub last_used_at: u64,
}

pub struct WorkspaceView {
    pub id: Seq<char>,
    pub name: Seq<char>,
    pub path: Seq<char>,
    pub last_used_at: u64,
}

impl View for Workspace {
    type V = WorkspaceView;

    open spec fn view(&self) -> WorkspaceView {
        WorkspaceView {
            id: self.id@,
            name: self.name@,
            path: self.path@,
            last_used_at: self.last_used_at,
        }
    }
}

impl Clone for Workspace {
    fn clone(&self) -> (r: Self)
        ensures
            r == *self,
    {
        Workspace {
            id: self.id.clone(),
            name: self.name.clone(),
            path: self.path.clone(),
            last_used_at: self.last_used_at,
        }
    }
}

pub open spec fn workspace_views(s: Seq<Workspace>) -> Seq<WorkspaceView> {
    s.map_values(|w: Workspace| w@)
}

pub open spec fn opt_view(o: Option<String>) -> Option<Seq<char>> {
    match o {
        Some(s) => Some(s@),
        None => None,
    }
}

/// Why a store operation was refused.
#[derive(Debug)]
pub enum StorageError {
    EmptyName,
    RelativePath { path: String },
    NotADirectory { path: String },
    DuplicateName { name: String },
    WorkspaceNotFound { id: String },
    EmptyTitle,
    ConversationNotFound { id: String },
}

pub enum StorageErrorView {
    EmptyName,
    RelativePath(Seq<char>),
    NotADirectory(Seq<char>),
    DuplicateName(Seq<char>),
    WorkspaceNotFound(Seq<char>),
    EmptyTitle,
    ConversationNotFound(Seq<char>),
}

impl View for StorageError {
    type V = StorageErrorView;

    open spec fn view(&self) -> StorageErrorView {
        match self {
            StorageError::EmptyName => StorageErrorView::EmptyName,
            StorageError::RelativePath { path } => StorageErrorView::RelativePath(path@),
            StorageError::NotADirectory { path } => StorageErrorView::NotADirectory(path@),
            StorageError::DuplicateName { name } => StorageErrorView::DuplicateName(name@),
            StorageError::WorkspaceNotFound { id } => StorageErrorView::WorkspaceNotFound(id@),
            StorageError::EmptyTitle => StorageErrorView::EmptyTitle,
            StorageError::ConversationNotFound { id } => StorageErrorView::ConversationNotFound(
                id@,
            ),
        }
    }
}

impl StorageErrorView {
    /// The sentence that reports the error, with `shown` standing where the
    /// quoted value goes.
    pub open spec fn message_showing(self, shown: Seq<char>) -> Seq<char> {
        match self {
            StorageErrorView::EmptyName => "workspace name cannot be empty"@,
            StorageErrorView::RelativePath(_) => "workspace path must be absolute: "@ + shown,
            StorageErrorView::NotADirectory(_) => "workspace path does not exist or is not a directory: "@
                + shown,
            StorageErrorView::DuplicateName(_) => "a workspace named "@ + shown + " already exists"@,
            StorageErrorView::WorkspaceNotFound(id) => "workspace "@ + id + " not found"@,
            StorageErrorView::EmptyTitle => "conversation title cannot be empty"@,
            StorageErrorView::ConversationNotFound(id) => "conversation "@ + id + " not found"@,
        }
    }

    /// The sentence that reports the error to the user: a path is shown as a
    /// debug listing shows a path, a name as it shows a string.
    pub open spec fn message(self) -> Seq<char> {
        match self {
            StorageErrorView::RelativePath(p) => self.message_showing(debug_path(p)),
            StorageErrorView::NotADirectory(p) => self.message_showing(debug_path(p)),
            StorageErrorView::DuplicateName(n) => self.message_showing(debug_str(n)),
            _ => self.message_showing(seq![]),
        }
    }
}

impl StorageError {
    /// The sentence that reports the error, with `shown` standing where the
    /// quoted path or name goes.
    pub fn message_showing(&self, shown: &str) -> (r: String)
        ensures
            r@ == self@.message_showing(shown@),
    {
        let mut r = String::new();
        match self {
            StorageError::EmptyName => push_str(&mut r, "workspace name cannot be empty"),
            StorageError::RelativePath { .. } => {
                push_str(&mut r, "workspace path must be absolute: ");
                push_str(&mut r, shown);
            },
            StorageError::NotADirectory { .. } => {
                push_str(&mut r, "workspace path does not exist or is not a directory: ");
                push_str(&mut r, shown);
            },
            StorageError::DuplicateName { .. } => {
                push_str(&mut r, "a workspace named ");
                push_str(&mut r, shown);
                push_str(&mut r, " already exists");
            },
            StorageError::WorkspaceNotFound { id } => {
                push_str(&mut r, "workspace ");
                push_str(&mut r, id.as_str());
                push_str(&mut r, " not found");
            },
            StorageError::EmptyTitle => push_str(&mut r, "conversation title cannot be empty"),
            StorageError::ConversationNotFound { id } => {
                push_str(&mut r, "conversation ");
                push_str(&mut r, id.as_str());
                push_str(&mut r, " not found");
            },
        }
        r
    }

    /// The sentence that reports the error to the user.
    pub fn message(&self) -> (r: String)
        ensures
            r@ == self@.message(),
    {
        match self {
            StorageError::RelativePath { path } | StorageError::NotADirectory { path } => {
                let shown = debug_path_text(path.as_str());
                self.message_showing(shown.as_str())
            },
            StorageError::DuplicateName { name } => {
                let shown = debug_text(name.as_str());
                self.message_showing(shown.as_str())
            },
            _ => self.message_showing(""),
        }
    }
}

/// The registry as values: the store's root, its workspaces in list order,
/// and the active workspace id.
pub struct StoreView {
    pub root: Seq<char>,
    pub workspaces: Seq<WorkspaceView>,
    pub active_id: Option<Seq<char>>,
}

/// Index of the first workspace with the given id, or -1 when there is none.
pub open spec fn first_with_id(ws: Seq<WorkspaceView>, id: Seq<char>) -> int
    decreases ws.len(),
{
    if ws.len() == 0 {
        -1
    } else if ws[0].id == id {
        0
    } else {
        let j = first_with_id(ws.drop_first(), id);
        if j < 0 {
            -1
        } else {
            j + 1
        }
    }
}

/// Whether a workspace other than those with id `except` already carries
/// `name`, up to ASCII case.
pub open spec fn name_taken(ws: Seq<WorkspaceView>, name: Seq<char>, except: Option<Seq<char>>) -> bool {
    exists|i: int|
        0 <= i < ws.len() && (except is None || ws[i].id != except->0) && eq_ignore_case(
            #[trigger] ws[i].name,
            name,
        )
}

/// Index of the most recently used workspace (the last one among equals),
/// or -1 for an empty list.
pub open spec fn most_recent(ws: Seq<WorkspaceView>) -> int
    decreases ws.len(),
{
    if ws.len() == 0 {
        -1
    } else {
        let j = most_recent(ws.drop_last());
        if j < 0 || ws.last().last_used_at >= ws[j].last_used_at {
            ws.len() - 1
        } else {
            j
        }
    }
}

/// Creating a workspace named `name` (trimmed) for the folder `path`, with
/// the given fresh id and clock reading.
pub open spec fn spec_create(
    st: StoreView,
    name: Seq<char>,
    path: Seq<char>,
    path_is_dir: bool,
    id: Seq<char>,
    now: u64,
) -> Result<(StoreView, WorkspaceView), StorageErrorView> {
    let t = trimmed(name);
    if t.len() == 0 {
        Err(StorageErrorView::EmptyName)
    } else if !is_absolute_path(path) {
        Err(StorageErrorView::RelativePath(path))
    } else if !path_is_dir {
        Err(StorageErrorView::NotADirectory(path))
    } else if name_taken(st.workspaces, t, None) {
        Err(StorageErrorView::DuplicateName(t))
    } else {
        let w = WorkspaceView { id, name: t, path, last_used_at: now };
        Ok((StoreView { workspaces: st.workspaces.push(w), ..st }, w))
    }
}

/// Renaming the workspace `id` to `new_name` (trimmed).
pub open spec fn spec_rename(st: StoreView, id: Seq<char>, new_name: Seq<char>) -> Result<
    (StoreView, WorkspaceView),
    StorageErrorView,
> {
    let t = trimmed(new_name);
    let k = first_with_id(st.workspaces, id);
    if t.len() == 0 {
        Err(StorageErrorView::EmptyName)
    } else if name_taken(st.workspaces, t, Some(id)) {
        Err(StorageErrorView::DuplicateName(t))
    } else if k < 0 {
        Err(StorageErrorView::WorkspaceNotFound(id))
    } else {
        let w = WorkspaceView { name: t, ..st.workspaces[k] };
        Ok((StoreView { workspaces: st.workspaces.update(k, w), ..st }, w))
    }
}

/// Deleting the workspace `id`. When it was the active one, the most
/// recently used remaining workspace becomes active (none when the list is
/// now empty) and its id is the answer; otherwise the answer is `None`.
pub open spec fn spec_delete(st: StoreView, id: Seq<char>) -> Result<
    (StoreView, Option<Seq<char>>),
    StorageErrorView,
> {
    let k = first_with_id(st.workspaces, id);
    if k < 0 {
        Err(StorageErrorView::WorkspaceNotFound(id))
    } else {
        let rest = st.workspaces.remove(k);
        if st.active_id == Some(id) {
            let m = most_recent(rest);
            let next = if m < 0 {
                None
            } else {
                Some(rest[m].id)
            };
            Ok((StoreView { workspaces: rest, active_id: next, ..st }, next))
        } else {
            Ok((StoreView { workspaces: rest, ..st }, None))
        }
    }
}

/// Making the workspace `id` active at clock reading `now`.
pub open spec fn spec_set_active(st: StoreView, id: Seq<char>, now: u64) -> Result<
    (StoreView, WorkspaceView),
    StorageErrorView,
> {
    let k = first_with_id(st.workspaces, id);
    if k < 0 {
        Err(StorageErrorView::WorkspaceNotFound(id))
    } else {
        let w = WorkspaceView { last_used_at: now, ..st.workspaces[k] };
        Ok((StoreView { workspaces: st.workspaces.update(k, w), active_id: Some(id), ..st }, w))
    }
}

/// Reading the active workspace. A stale active id, one that names no
/// workspace, is cleared.
pub open spec fn spec_get_active(st: StoreView) -> (StoreView, Option<WorkspaceView>) {
    match st.active_id {
        None => (st, None),
        Some(a) => {
            let k = first_with_id(st.workspaces, a);
            if k < 0 {
                (StoreView { active_id: None, ..st }, None)
            } else {
                (st, Some(st.workspaces[k]))
            }
        },
    }
}

/// No two workspaces share an id.
pub open spec fn ids_distinct(ws: Seq<WorkspaceView>) -> bool {
    forall|i: int, j: int| 0 <= i < ws.len() && 0 <= j < ws.len() && i != j ==> #[trigger] ws[i].id != #[trigger] ws[j].id
}

/// No two workspaces carry the same name up to ASCII case.
pub open spec fn names_distinct(ws: Seq<WorkspaceView>) -> bool {
    forall|i: int, j: int|
        0 <= i < ws.len() && 0 <= j < ws.len() && i != j ==> !eq_ignore_case(
            #[trigger] ws[i].name,
            #[trigger] ws[j].name,
        )
}

pub proof fn lemma_first_with_id(ws: Seq<WorkspaceView>, id: Seq<char>, i: int)
    requires
        0 <= i <= ws.len(),
        forall|j: int| 0 <= j < i ==> #[trigger] ws[j].id != id,
        i == ws.len() || ws[i].id == id,
    ensures
        first_with_id(ws, id) == (if i == ws.len() {
            -1
        } else {
            i
        }),
    decreases i,
{
    if ws.len() > 0 && i > 0 {
        let t = ws.drop_first();
        assert forall|j: int| 0 <= j < i - 1 implies #[trigger] t[j].id != id by {
            assert(t[j] == ws[j + 1]);
        }
        assert(ws[0].id != id);
        lemma_first_with_id(t, id, i - 1);
    }
}

pub proof fn lemma_first_with_id_found(ws: Seq<WorkspaceView>, id: Seq<char>)
    ensures
        -1 <= first_with_id(ws, id) < ws.len(),
        first_with_id(ws, id) >= 0 ==> ws[first_with_id(ws, id)].id == id,
        first_with_id(ws, id) < 0 ==> forall|j: int| 0 <= j < ws.len() ==> #[trigger] ws[j].id != id,
        forall|j: int| 0 <= j < first_with_id(ws, id) ==> #[trigger] ws[j].id != id,
    decreases ws.len(),
{
    if ws.len() > 0 {
        let t = ws.drop_first();
        lemma_first_with_id_found(t, id);
        assert forall|j: int| 0 < j < ws.len() implies ws[j] == #[trigger] t[j - 1] by {}
        if ws[0].id != id {
            let jt = first_with_id(t, id);
            if jt < 0 {
                assert forall|j: int| 0 <= j < ws.len() implies #[trigger] ws[j].id != id by {
                    if j > 0 {
                        assert(ws[j] == t[j - 1]);
                    }
                }
            } else {
                assert forall|j: int| 0 <= j < jt + 1 implies #[trigger] ws[j].id != id by {
                    if j > 0 {
                        assert(ws[j] == t[j - 1]);
                    }
                }
                assert(ws[jt + 1] == t[jt]);
            }
        }
    }
}

/// Two lists whose ids agree position by position find an id at the same place.
pub proof fn lemma_first_with_id_same_ids(a: Seq<WorkspaceView>, b: Seq<WorkspaceView>, id: Seq<char>)
    requires
        a.len() == b.len(),
        forall|i: int| 0 <= i < a.len() ==> #[trigger] a[i].id == b[i].id,
    ensures
        first_with_id(a, id) == first_with_id(b, id),
    decreases a.len(),
{
    if a.len() > 0 {
        let (ta, tb) = (a.drop_first(), b.drop_first());
        assert forall|i: int| 0 <= i < ta.len() implies #[trigger] ta[i].id == tb[i].id by {
            assert(ta[i] == a[i + 1] && tb[i] == b[i + 1]);
        }
        lemma_first_with_id_same_ids(ta, tb, id);
    }
}

pub proof fn lemma_most_recent(ws: Seq<WorkspaceView>)
    ensures
        -1 <= most_recent(ws) < ws.len(),
        ws.len() > 0 ==> most_recent(ws) >= 0,
        forall|j: int|
            0 <= j < ws.len() ==> #[trigger] ws[j].last_used_at <= ws[most_recent(ws)].last_used_at,
    decreases ws.len(),
{
    if ws.len() > 0 {
        let t = ws.drop_last();
        lemma_most_recent(t);
        assert forall|j: int| 0 <= j < t.len() implies #[trigger] t[j] == ws[j] by {}
        let m = most_recent(t);
        assert forall|j: int|
            0 <= j < ws.len() implies #[trigger] ws[j].last_used_at <= ws[most_recent(
            ws,
        )].last_used_at by {
            if j < t.len() {
                assert(t[j] == ws[j]);
                if m >= 0 {
                    assert(t[m] == ws[m]);
                }
            }
        }
    }
}

/// The workspace registry of a store.
#[derive(Debug)]
pub struct Storage {
    root: String,
    workspaces: Vec<Workspace>,
    active_id: Option<String>,
}

impl View for Storage {
    type V = StoreView;

    closed spec fn view(&self) -> StoreView {
        StoreView {
            root: self.root@,
            workspaces: workspace_views(self.workspaces@),
            active_id: opt_view(self.active_id),
        }
    }
}

/// The first position of a workspace with id `id`.
fn position_of(ws: &Vec<Workspace>, id: &String) -> (r: Option<usize>)
    ensures
        match r {
            Some(k) => k < ws.len() && first_with_id(workspace_views(ws@), id@) == k as int,
            None => first_with_id(workspace_views(ws@), id@) == -1,
        },
{
    let ghost wv = workspace_views(ws@);
    let mut i: usize = 0;
    while i < ws.len()
        invariant
            i <= ws.len(),
            wv == workspace_views(ws@),
            forall|j: int| 0 <= j < i ==> #[trigger] wv[j].id != id@,
        decreases ws.len() - i,
    {
        if ws[i].id == *id {
            proof {
                lemma_first_with_id(wv, id@, i as int);
            }
            return Some(i);
        }
        i += 1;
    }
    proof {
        lemma_first_with_id(wv, id@, i as int);
    }
    None
}

/// Whether some workspace whose id differs from `except` carries `name` up to ASCII case.
fn find_name_taken(ws: &Vec<Workspace>, name: &String, except: Option<&String>) -> (r: bool)
    ensures
        r == name_taken(
            workspace_views(ws@),
            name@,
            match except {
                Some(e) => Some(e@),
                None => None,
            },
        ),
{
    let ghost wv = workspace_views(ws@);
    let ghost ex = match except {
        Some(e) => Some(e@),
        None => None::<Seq<char>>,
    };
    let nv = chars_of(name.as_str());
    let mut i: usize = 0;
    while i < ws.len()
        invariant
            i <= ws.len(),
            wv == workspace_views(ws@),
            nv@ == name@,
            ex == match except {
                Some(e) => Some(e@),
                None => None::<Seq<char>>,
            },
            forall|j: int|
                0 <= j < i ==> !((ex is None || wv[j].id != ex->0) && eq_ignore_case(
                    #[trigger] wv[j].name,
                    name@,
                )),
        decreases ws.len() - i,
    {
        let other = match except {
            Some(e) => !(ws[i].id == *e),
            None => true,
        };
        if other {
            let wn = chars_of(ws[i].name.as_str());
            if eq_ignore_ascii_case(&wn, &nv) {
                assert(wv[i as int].name == ws@[i as int].name@);
                return true;
            }
        }
        i += 1;
    }
    false
}

impl Storage {
    /// A fresh store rooted at `root`, with no workspaces and none active.
    pub fn open(root: &str) -> (r: Storage)
        ensures
            r@ == (StoreView { root: root@, workspaces: Seq::empty(), active_id: None }),
    {
        let r = Storage { root: String::from_str(root), workspaces: Vec::new(), active_id: None };
        assert(r@.workspaces =~= Seq::<WorkspaceView>::empty());
        r
    }

    /// A store rooted at `root` holding the given workspaces and active id,
    /// as they were read back from disk.
    pub fn restore(root: &str, workspaces: Vec<Workspace>, active_id: Option<String>) -> (r: Storage)
        ensures
            r@ == (StoreView {
                root: root@,
                workspaces: workspace_views(workspaces@),
                active_id: opt_view(active_id),
            }),
    {
        Storage { root: String::from_str(root), workspaces, active_id }
    }

    pub fn root(&self) -> (r: &str)
        ensures
            r@ == self@.root,
    {
        self.root.as_str()
    }

    /// `<root>/workspaces.json`.
    pub fn workspaces_path(&self) -> (r: String)
        ensures
            r@ == path_join(self@.root, "workspaces.json"@),
    {
        join(self.root.as_str(), "workspaces.json")
    }

    /// `<root>/active.json`.
    pub fn active_path(&self) -> (r: String)
        ensures
            r@ == path_join(self@.root, "active.json"@),
    {
        join(self.root.as_str(), "active.json")
    }

    /// `<root>/workspaces/<id>`.
    pub fn workspace_dir(&self, id: &str) -> (r: String)
        ensures
            r@ == path_join(path_join(self@.root, "workspaces"@), id@),
    {
        let d = join(self.root.as_str(), "workspaces");
        join(d.as_str(), id)
    }

    /// `<root>/workspaces/<id>/conversations`.
    pub fn conversations_dir(&self, workspace_id: &str) -> (r: String)
        ensures
            r@ == path_join(
                path_join(path_join(self@.root, "workspaces"@), workspace_id@),
                "conversations"@,
            ),
    {
        let d = self.workspace_dir(workspace_id);
        join(d.as_str(), "conversations")
    }

    /// `<root>/workspaces/<id>/conversations/index.json`.
    pub fn index_path(&self, workspace_id: &str) -> (r: String)
        ensures
            r@ == path_join(
                path_join(
                    path_join(path_join(self@.root, "workspaces"@), workspace_id@),
                    "conversations"@,
                ),
                "index.json"@,
            ),
    {
        let d = self.conversations_dir(workspace_id);
        join(d.as_str(), "index.json")
    }

    /// The workspaces in list order.
    pub fn list_workspaces(&self) -> (r: Vec<Workspace>)
        ensures
            workspace_views(r@) == self@.workspaces,
    {
        let mut r: Vec<Workspace> = Vec::new();
        let mut i: usize = 0;
        while i < self.workspaces.len()
            invariant
                i <= self.workspaces.len(),
                r@ == self.workspaces@.take(i as int),
            decreases self.workspaces.len() - i,
        {
            r.push(self.workspaces[i].clone());
            assert(self.workspaces@.take(i + 1) =~= self.workspaces@.take(i as int).push(
                self.workspaces@[i as int],
            ));
            i += 1;
        }
        assert(self.workspaces@.take(i as int) =~= self.workspaces@);
        r
    }

    /// The persisted active id, stale or not.
    pub fn read_active_id(&self) -> (r: Option<String>)
        ensures
            opt_view(r) == self@.active_id,
    {
        match &self.active_id {
            Some(a) => Some(a.clone()),
            None => None,
        }
    }

    /// Overwrites the persisted active id.
    pub fn write_active_id(&mut self, id: Option<&str>)
        ensures
            final(self)@ == (StoreView {
                active_id: match id {
                    Some(a) => Some(a@),
                    None => None,
                },
                ..old(self)@
            }),
    {
        self.active_id = match id {
            Some(a) => Some(String::from_str(a)),
            None => None,
        };
    }

    /// Creates a workspace with a fresh random id, stamped with the current time.
    pub fn create_workspace(&mut self, name: &str, path: &str, path_is_dir: bool) -> (r: Result<
        Workspace,
        StorageError,
    >)
        ensures
            match r {
                Ok(w) => exists|id: Seq<char>, now: u64|
                    spec_create(old(self)@, name@, path@, path_is_dir, id, now) == Ok::<
                        (StoreView, WorkspaceView),
                        StorageErrorView,
                    >((final(self)@, w@)),
                Err(e) => final(self)@ == old(self)@ && forall|id: Seq<char>, now: u64|
                    spec_create(old(self)@, name@, path@, path_is_dir, id, now) == Err::<
                        (StoreView, WorkspaceView),
                        StorageErrorView,
                    >(e@),
            },
            r matches Ok(w) ==> is_v4_uuid(w.id@),
    {
        let id = new_workspace_id();
        let now = now_millis();
        self.create_workspace_with(name, path, path_is_dir, id, now)
    }

    /// Creates a workspace named `name` (trimmed) for the folder `path`, with
    /// the given id and timestamp. `path_is_dir` says whether `path` names an
    /// existing directory.
    pub fn create_workspace_with(
        &mut self,
        name: &str,
        path: &str,
        path_is_dir: bool,
        id: String,
        now: u64,
    ) -> (r: Result<Workspace, StorageError>)
        ensures
            match r {
                Ok(w) => spec_create(old(self)@, name@, path@, path_is_dir, id@, now) == Ok::<
                    (StoreView, WorkspaceView),
                    StorageErrorView,
                >((final(self)@, w@)),
                Err(e) => final(self)@ == old(self)@ && spec_create(
                    old(self)@,
                    name@,
                    path@,
                    path_is_dir,
                    id@,
                    now,
                ) == Err::<(StoreView, WorkspaceView), StorageErrorView>(e@),
            },
            // which error comes does not depend on the id and time
            r is Err ==> forall|i: Seq<char>, n: u64|
                #[trigger] spec_create(old(self)@, name@, path@, path_is_dir, i, n) == spec_create(
                    old(self)@,
                    name@,
                    path@,
                    path_is_dir,
                    id@,
                    now,
                ),
    {
        let t = trim(name);
        if t.as_str().is_empty() {
            return Err(StorageError::EmptyName);
        }
        if !is_absolute(path) {
            return Err(StorageError::RelativePath { path: String::from_str(path) });
        }
        if !path_is_dir {
            return Err(StorageError::NotADirectory { path: String::from_str(path) });
        }
        if find_name_taken(&self.workspaces, &t, None) {
            return Err(StorageError::DuplicateName { name: t });
        }
        let w = Workspace { id, name: t, path: String::from_str(path), last_used_at: now };
        let ghost old_ws = self.workspaces@;
        self.workspaces.push(w.clone());
        assert(workspace_views(self.workspaces@) =~= workspace_views(old_ws).push(w@));
        Ok(w)
    }

    /// Renames the workspace `id` to `new_name` (trimmed).
    pub fn rename_workspace(&mut self, id: &str, new_name: &str) -> (r: Result<
        Workspace,
        StorageError,
    >)
        ensures
            match r {
                Ok(w) => spec_rename(old(self)@, id@, new_name@) == Ok::<
                    (StoreView, WorkspaceView),
                    StorageErrorView,
                >((final(self)@, w@)),
                Err(e) => final(self)@ == old(self)@ && spec_rename(old(self)@, id@, new_name@)
                    == Err::<(StoreView, WorkspaceView), StorageErrorView>(e@),
            },
    {
        let t = trim(new_name);
        if t.as_str().is_empty() {
            return Err(StorageError::EmptyName);
        }
        let idv = String::from_str(id);
        if find_name_taken(&self.workspaces, &t, Some(&idv)) {
            return Err(StorageError::DuplicateName { name: t });
        }
        match position_of(&self.workspaces, &idv) {
            None => Err(StorageError::WorkspaceNotFound { id: idv }),
            Some(k) => {
                proof {
                    lemma_first_with_id_found(workspace_views(self.workspaces@), idv@);
                }
                let w = Workspace {
                    id: self.workspaces[k].id.clone(),
                    name: t,
                    path: self.workspaces[k].path.clone(),
                    last_used_at: self.workspaces[k].last_used_at,
                };
                let ghost old_ws = self.workspaces@;
                self.workspaces.set(k, w.clone());
                assert(workspace_views(self.workspaces@) =~= workspace_views(old_ws).update(
                    k as int,
                    w@,
                ));
                Ok(w)
            },
        }
    }

    /// Deletes the workspace `id`. When it was active, the most recently
    /// used remaining workspace becomes active and its id is returned.
    pub fn delete_workspace(&mut self, id: &str) -> (r: Result<Option<String>, StorageError>)
        ensures
            match r {
                Ok(next) => spec_delete(old(self)@, id@) == Ok::<
                    (StoreView, Option<Seq<char>>),
                    StorageErrorView,
                >((final(self)@, opt_view(next))),
                Err(e) => final(self)@ == old(self)@ && spec_delete(old(self)@, id@) == Err::<
                    (StoreView, Option<Seq<char>>),
                    StorageErrorView,
                >(e@),
            },
    {
        let idv = String::from_str(id);
        match position_of(&self.workspaces, &idv) {
            None => Err(StorageError::WorkspaceNotFound { id: idv }),
            Some(k) => {
                let ghost old_ws = self.workspaces@;
                let _removed = self.workspaces.remove(k);
                assert(workspace_views(self.workspaces@) =~= workspace_views(old_ws).remove(
                    k as int,
                ));
                let was_active = match &self.active_id {
                    Some(a) => *a == idv,
                    None => false,
                };
                if was_active {
                    let next = self.most_recent_id();
                    self.active_id = match &next {
                        Some(n) => Some(n.clone()),
                        None => None,
                    };
                    Ok(next)
                } else {
                    Ok(None)
                }
            },
        }
    }

    /// The id of the most recently used workspace (the last among equals).
    fn most_recent_id(&self) -> (r: Option<String>)
        ensures
            ({
                let m = most_recent(self@.workspaces);
                opt_view(r) == if m < 0 {
                    None
                } else {
                    Some(self@.workspaces[m].id)
                }
            }),
    {
        let ghost wv = workspace_views(self.workspaces@);
        assert(wv == self@.workspaces);
        let mut best: Option<usize> = None;
        let mut i: usize = 0;
        while i < self.workspaces.len()
            invariant
                i <= self.workspaces.len(),
                wv == workspace_views(self.workspaces@),
                match best {
                    Some(b) => b < i && most_recent(wv.take(i as int)) == b as int,
                    None => i == 0,
                },
            decreases self.workspaces.len() - i,
        {
            let ghost pre = wv.take(i as int);
            assert(wv.take(i + 1).drop_last() =~= pre);
            assert(wv.take(i + 1).last() == wv[i as int]);
            assert(wv[i as int] == self.workspaces@[i as int]@);
            match best {
                None => {
                    assert(pre =~= Seq::<WorkspaceView>::empty());
                    assert(most_recent(pre) == -1);
                    assert(most_recent(wv.take(i + 1)) == i as int);
                    best = Some(i);
                },
                Some(b) => {
                    assert(pre[b as int] == wv[b as int]);
                    assert(wv.take(i + 1)[b as int] == wv[b as int]);
                    assert(wv[b as int] == self.workspaces@[b as int]@);
                    assert(most_recent(pre) == b as int);
                    if self.workspaces[i].last_used_at >= self.workspaces[b].last_used_at {
                        assert(most_recent(wv.take(i + 1)) == i as int);
                        best = Some(i);
                    } else {
                        assert(most_recent(wv.take(i + 1)) == b as int);
                    }
                },
            }
            i += 1;
        }
        assert(wv.take(i as int) =~= wv);
        match best {
            Some(b) => Some(self.workspaces[b].id.clone()),
            None => None,
        }
    }

    /// Makes the workspace `id` active, stamping it with the current time.
    pub fn set_active_workspace(&mut self, id: &str) -> (r: Result<Workspace, StorageError>)
        ensures
            match r {
                Ok(w) => exists|now: u64|
                    spec_set_active(old(self)@, id@, now) == Ok::<
                        (StoreView, WorkspaceView),
                        StorageErrorView,
                    >((final(self)@, w@)),
                Err(e) => final(self)@ == old(self)@ && forall|now: u64|
                    spec_set_active(old(self)@, id@, now) == Err::<
                        (StoreView, WorkspaceView),
                        StorageErrorView,
                    >(e@),
            },
    {
        let now = now_millis();
        self.set_active_workspace_at(id, now)
    }

    /// Makes the workspace `id` active, stamping it with `now`.
    pub fn set_active_workspace_at(&mut self, id: &str, now: u64) -> (r: Result<
        Workspace,
        StorageError,
    >)
        ensures
            match r {
                Ok(w) => spec_set_active(old(self)@, id@, now) == Ok::<
                    (StoreView, WorkspaceView),
                    StorageErrorView,
                >((final(self)@, w@)),
                Err(e) => final(self)@ == old(self)@ && forall|n: u64|
                    spec_set_active(old(self)@, id@, n) == Err::<
                        (StoreView, WorkspaceView),
                        StorageErrorView,
                    >(e@),
            },
    {
        let idv = String::from_str(id);
        match position_of(&self.workspaces, &idv) {
            None => Err(StorageError::WorkspaceNotFound { id: idv }),
            Some(k) => {
                proof {
                    lemma_first_with_id_found(workspace_views(self.workspaces@), idv@);
                }
                let w = Workspace {
                    id: self.workspaces[k].id.clone(),
                    name: self.workspaces[k].name.clone(),
                    path: self.workspaces[k].path.clone(),
                    last_used_at: now,
                };
                let ghost old_ws = self.workspaces@;
                self.workspaces.set(k, w.clone());
                assert(workspace_views(self.workspaces@) =~= workspace_views(old_ws).update(
                    k as int,
                    w@,
                ));
                self.active_id = Some(idv);
                Ok(w)
            },
        }
    }

    /// The active workspace, if any. A persisted active id that names no
    /// workspace is cleared and `None` comes back.
    pub fn get_active_workspace(&mut self) -> (r: Option<Workspace>)
        ensures
            spec_get_active(old(self)@) == (final(self)@, match r {
                Some(w) => Some(w@),
                None => None,
            }),
    {
        let a = match &self.active_id {
            Some(a) => a.clone(),
            None => {
                return None;
            },
        };
        assert(self@.active_id == Some(a@));
        match position_of(&self.workspaces, &a) {
            Some(k) => Some(self.workspaces[k].clone()),
            None => {
                self.active_id = None;
                None
            },
        }
    }
}

} // verus!
