//! A workspace's conversation index (`conversations/index.json`): one
//! summary per conversation, kept up to date as stream events arrive, and
//! rebuilt from the conversation logs on disk when the index is lost.
use vstd::prelude::*;
use vstd::string::*;
use crate::json::{Json, str_of, is_str, get_str};
use crate::paths::{join, path_join};
use crate::storage::{
    Storage, StorageError, StorageErrorView, StoreView, WorkspaceView, first_with_id,
    lemma_first_with_id_found,
};
use crate::text::{
    chars_of, decimal, is_whitespace, is_ws, push_decimal, push_str, string_of, trim, trimmed,
};

verus! {

/// The index's entry for one conversation.
#[derive(Debug)]
pub struct ConversationSummary {
    pub id: String,
    pub title: String,
    /// Unix timestamp in milliseconds, set on the first event.
    pub started_at: u64,
    /// Unix timestamp in milliseconds, bumped on every event.
    pub last_active_at: u64,
    /// The coding agent's session id, captured from the `system/init` event.
    pub claude_session_id: Option<String>,
    /// Set when the user chose the title; a pinned title is never derived anew.
    pub title_pinned: bool,
}

pub struct SummaryView {
    pub id: Seq<char>,
    pub title: Seq<char>,
    pub started_at: u64,
    pub last_active_at: u64,
    pub claude_session_id: Option<Seq<char>>,
    pub title_pinned: bool,
}

impl View for ConversationSummary {
    type V = SummaryView;

    open spec fn view(&self) -> SummaryView {
        SummaryView {
            id: self.id@,
            title: self.title@,
            started_at: self.started_at,
            last_active_at: self.last_active_at,
            claude_session_id: match self.claude_session_id {
                Some(s) => Some(s@),
                None => None,
            },
            title_pinned: self.title_pinned,
        }
    }
}

impl Clone for ConversationSummary {
    fn clone(&self) -> (r: Self)
        ensures
            r == *self,
    {
        ConversationSummary {
            id: self.id.clone(),
            title: self.title.clone(),
            started_at: self.started_at,
            last_active_at: self.last_active_at,
            claude_session_id: match &self.claude_session_id {
                Some(s) => Some(s.clone()),
                None => None,
            },
            title_pinned: self.title_pinned,
        }
    }
}

pub open spec fn summary_views(s: Seq<ConversationSummary>) -> Seq<SummaryView> {
    s.map_values(|c: ConversationSummary| c@)
}

// ── titles ──────────────────────────────────────────────────────────────

/// Index of the last whitespace character of `s`, or -1 when it has none.
pub open spec fn last_ws(s: Seq<char>) -> int
    decreases s.len(),
{
    if s.len() == 0 {
        -1
    } else if is_ws(s.last()) {
        s.len() - 1
    } else {
        last_ws(s.drop_last())
    }
}

/// The title derived from a user's text: the trimmed text when it is at most
/// 50 characters long; otherwise its first 50 characters, cut back to the
/// last whitespace when that keeps at least a third of the budget (16
/// characters), followed by `…`.
/// Blank text derives no title.
pub open spec fn spec_derive_title(text: Seq<char>) -> Option<Seq<char>> {
    let t = trimmed(text);
    if t.len() == 0 {
        None
    } else if t.len() <= 50 {
        Some(t)
    } else {
        let p = t.take(50);
        let k = last_ws(p);
        if k >= 16 {
            Some(p.take(k).push('\u{2026}'))
        } else {
            Some(p.push('\u{2026}'))
        }
    }
}

proof fn lemma_last_ws(s: Seq<char>, k: int)
    requires
        -1 <= k < s.len(),
        k >= 0 ==> is_ws(s[k]),
        forall|j: int| k < j < s.len() ==> !is_ws(#[trigger] s[j]),
    ensures
        last_ws(s) == k,
    decreases s.len(),
{
    if s.len() > 0 && k < s.len() - 1 {
        let t = s.drop_last();
        assert forall|j: int| k < j < t.len() implies !is_ws(#[trigger] t[j]) by {
            assert(t[j] == s[j]);
        }
        lemma_last_ws(t, k);
    }
}

pub proof fn lemma_last_ws_bound(s: Seq<char>)
    ensures
        -1 <= last_ws(s) < s.len(),
        last_ws(s) >= 0 ==> is_ws(s[last_ws(s)]),
    decreases s.len(),
{
    if s.len() > 0 && !is_ws(s.last()) {
        let t = s.drop_last();
        lemma_last_ws_bound(t);
        if last_ws(t) >= 0 {
            assert(t[last_ws(t)] == s[last_ws(t)]);
        }
    }
}

/// A derived title is never empty.
pub proof fn lemma_derived_title_nonempty(text: Seq<char>)
    ensures
        spec_derive_title(text) matches Some(s) ==> s.len() > 0,
{
}

pub proof fn lemma_title_from_event_nonempty(event: Json)
    ensures
        spec_title_from_event(event) matches Some(s) ==> s.len() > 0,
{
    match event.spec_get("message"@) {
        Some(m) => match m.spec_get("content"@) {
            Some(Json::Array(content)) => match first_text(content@) {
                Some(t) => lemma_derived_title_nonempty(t),
                None => {},
            },
            _ => {},
        },
        None => {},
    }
}

/// The title derived from a user's text, or `None` for blank text.
pub fn derive_title(text: &str) -> (r: Option<String>)
    ensures
        match r {
            Some(s) => spec_derive_title(text@) == Some(s@),
            None => spec_derive_title(text@) is None,
        },
{
    let t = trim(text);
    let v = chars_of(t.as_str());
    if v.len() == 0 {
        return None;
    }
    if v.len() <= 50 {
        return Some(t);
    }
    let ghost p = v@.take(50);
    // the last whitespace among the first 50 characters
    let mut k: usize = 50;
    let mut found = false;
    while k > 0 && !found
        invariant
            v.len() > 50,
            k <= 50,
            p == v@.take(50),
            found ==> k < 50 && is_ws(v@[k as int]),
            forall|j: int| (if found { k + 1 } else { k as int }) <= j < 50 ==> !is_ws(#[trigger] v@[j]),
        decreases k + (if found { 0int } else { 1 }),
    {
        if is_whitespace(v[k - 1]) {
            k = k - 1;
            found = true;
        } else {
            k = k - 1;
        }
    }
    proof {
        assert forall|j: int| 0 <= j < 50 implies p[j] == #[trigger] v@[j] by {}
        if found {
            lemma_last_ws(p, k as int);
        } else {
            lemma_last_ws(p, -1);
        }
    }
    let mut cut: usize = 50;
    if found && k >= 16 {
        cut = k;
    }
    let mut r = string_of(&v, 0, cut);
    r.push('\u{2026}');
    assert(v@.subrange(0, 50) =~= p);
    assert(v@.subrange(0, cut as int) =~= p.take(cut as int));
    Some(r)
}

// ── reading stream events ──────────────────────────────────────────────

/// The text of the first content block that carries a string `text`.
pub open spec fn first_text(content: Seq<Json>) -> Option<Seq<char>>
    decreases content.len(),
{
    if content.len() == 0 {
        None
    } else {
        match str_of(content[0].spec_get("text"@)) {
            Some(t) => Some(t),
            None => first_text(content.drop_first()),
        }
    }
}

/// The title a stream event proposes: for a `user` event, the title derived
/// from the first text block of `message.content`; `None` for any other event.
pub open spec fn spec_title_from_event(event: Json) -> Option<Seq<char>> {
    if str_of(event.spec_get("type"@)) != Some("user"@) {
        None
    } else {
        match event.spec_get("message"@) {
            Some(m) => match m.spec_get("content"@) {
                Some(Json::Array(content)) => match first_text(content@) {
                    Some(t) => spec_derive_title(t),
                    None => None,
                },
                _ => None,
            },
            None => None,
        }
    }
}

/// The session id a `system`/`init` event carries; `None` for any other event.
pub open spec fn spec_init_session_id(event: Json) -> Option<Seq<char>> {
    if str_of(event.spec_get("type"@)) == Some("system"@) && str_of(event.spec_get("subtype"@))
        == Some("init"@) {
        str_of(event.spec_get("session_id"@))
    } else {
        None
    }
}

/// The title a stream event proposes (see `spec_title_from_event`).
pub fn derive_title_from_event(event: &Json) -> (r: Option<String>)
    ensures
        match r {
            Some(s) => spec_title_from_event(*event) == Some(s@),
            None => spec_title_from_event(*event) is None,
        },
{
    if !is_str(event.get("type"), "user") {
        return None;
    }
    let m = match event.get("message") {
        Some(m) => m,
        None => {
            return None;
        },
    };
    let content = match m.get("content") {
        Some(Json::Array(c)) => c,
        _ => {
            return None;
        },
    };
    let mut i: usize = 0;
    assert(content@.skip(0) =~= content@);
    while i < content.len()
        invariant
            i <= content.len(),
            first_text(content@) == first_text(content@.skip(i as int)),
            spec_title_from_event(*event) == match first_text(content@) {
                Some(t) => spec_derive_title(t),
                None => None,
            },
        decreases content.len() - i,
    {
        assert(content@.skip(i as int).drop_first() =~= content@.skip(i + 1));
        assert(content@.skip(i as int)[0] == content@[i as int]);
        match get_str(content[i].get("text")) {
            Some(t) => {
                return derive_title(t.as_str());
            },
            None => {},
        }
        i += 1;
    }
    None
}

/// The session id of a `system`/`init` event.
pub fn extract_init_session_id(event: &Json) -> (r: Option<String>)
    ensures
        match r {
            Some(s) => spec_init_session_id(*event) == Some(s@),
            None => spec_init_session_id(*event) is None,
        },
{
    if !is_str(event.get("type"), "system") {
        return None;
    }
    if !is_str(event.get("subtype"), "init") {
        return None;
    }
    get_str(event.get("session_id"))
}

// ── the index ───────────────────────────────────────────────────────────

/// Index of the first summary of conversation `id`, or -1 when there is none.
pub open spec fn first_with_conversation(s: Seq<SummaryView>, id: Seq<char>) -> int
    decreases s.len(),
{
    if s.len() == 0 {
        -1
    } else if s[0].id == id {
        0
    } else {
        let j = first_with_conversation(s.drop_first(), id);
        if j < 0 {
            -1
        } else {
            j + 1
        }
    }
}

proof fn lemma_first_with_conversation(s: Seq<SummaryView>, id: Seq<char>, i: int)
    requires
        0 <= i <= s.len(),
        forall|j: int| 0 <= j < i ==> #[trigger] s[j].id != id,
        i == s.len() || s[i].id == id,
    ensures
        first_with_conversation(s, id) == (if i == s.len() {
            -1
        } else {
            i
        }),
    decreases i,
{
    if s.len() > 0 && i > 0 {
        let t = s.drop_first();
        assert forall|j: int| 0 <= j < i - 1 implies #[trigger] t[j].id != id by {
            assert(t[j] == s[j + 1]);
        }
        assert(s[0].id != id);
        lemma_first_with_conversation(t, id, i - 1);
    }
}

/// Two indexes whose ids agree position by position find a conversation at
/// the same place.
pub proof fn lemma_first_with_conversation_same_ids(
    a: Seq<SummaryView>,
    b: Seq<SummaryView>,
    id: Seq<char>,
)
    requires
        a.len() == b.len(),
        forall|i: int| 0 <= i < a.len() ==> #[trigger] a[i].id == b[i].id,
    ensures
        first_with_conversation(a, id) == first_with_conversation(b, id),
    decreases a.len(),
{
    if a.len() > 0 {
        let (ta, tb) = (a.drop_first(), b.drop_first());
        assert forall|i: int| 0 <= i < ta.len() implies #[trigger] ta[i].id == tb[i].id by {
            assert(ta[i] == a[i + 1] && tb[i] == b[i + 1]);
        }
        lemma_first_with_conversation_same_ids(ta, tb, id);
    }
}

pub proof fn lemma_first_with_conversation_found(s: Seq<SummaryView>, id: Seq<char>)
    ensures
        -1 <= first_with_conversation(s, id) < s.len(),
        first_with_conversation(s, id) >= 0 ==> s[first_with_conversation(s, id)].id == id,
        first_with_conversation(s, id) < 0 ==> forall|j: int|
            0 <= j < s.len() ==> #[trigger] s[j].id != id,
    decreases s.len(),
{
    if s.len() > 0 {
        let t = s.drop_first();
        lemma_first_with_conversation_found(t, id);
        if s[0].id != id {
            let jt = first_with_conversation(t, id);
            if jt < 0 {
                assert forall|j: int| 0 <= j < s.len() implies #[trigger] s[j].id != id by {
                    if j > 0 {
                        assert(s[j] == t[j - 1]);
                    }
                }
            } else {
                assert(s[jt + 1] == t[jt]);
            }
        }
    }
}

/// The name the store gives the workspace `id`, or `workspace` when there
/// is no such workspace.
pub open spec fn workspace_name(ws: Seq<WorkspaceView>, id: Seq<char>) -> Seq<char> {
    let k = first_with_id(ws, id);
    if k < 0 {
        "workspace"@
    } else {
        ws[k].name
    }
}

/// The placeholder title of a conversation first seen at `now`.
pub open spec fn placeholder_title(workspace_name: Seq<char>, now: u64) -> Seq<char> {
    workspace_name + " \u{b7} "@ + decimal(now as nat)
}

/// The index after the event `event` of conversation `id` arrived at
/// `now`: the conversation's entry is created when missing (placeholder
/// title, started now), its `last_active_at` becomes `now`, an unpinned
/// title takes the title the event proposes, and a `system`/`init` event's
/// session id is captured. No other entry changes.
pub open spec fn spec_update_for_event(
    index: Seq<SummaryView>,
    workspace_name: Seq<char>,
    id: Seq<char>,
    event: Json,
    now: u64,
) -> Seq<SummaryView> {
    let k = first_with_conversation(index, id);
    let base = if k < 0 {
        index.push(
            SummaryView {
                id,
                title: placeholder_title(workspace_name, now),
                started_at: now,
                last_active_at: now,
                claude_session_id: None,
                title_pinned: false,
            },
        )
    } else {
        index
    };
    let pos = if k < 0 {
        index.len() as int
    } else {
        k
    };
    let e1 = SummaryView { last_active_at: now, ..base[pos] };
    let e2 = if !e1.title_pinned && spec_title_from_event(event) is Some {
        SummaryView { title: spec_title_from_event(event)->0, ..e1 }
    } else {
        e1
    };
    let e3 = match spec_init_session_id(event) {
        Some(s) => SummaryView { claude_session_id: Some(s), ..e2 },
        None => e2,
    };
    base.update(pos, e3)
}

/// Pinning the title of conversation `id` to `new_title` (trimmed).
pub open spec fn spec_pin_title(index: Seq<SummaryView>, id: Seq<char>, new_title: Seq<char>) -> Result<
    (Seq<SummaryView>, SummaryView),
    StorageErrorView,
> {
    let t = trimmed(new_title);
    let k = first_with_conversation(index, id);
    if t.len() == 0 {
        Err(StorageErrorView::EmptyTitle)
    } else if k < 0 {
        Err(StorageErrorView::ConversationNotFound(id))
    } else {
        let e = SummaryView { title: t, title_pinned: true, ..index[k] };
        Ok((index.update(k, e), e))
    }
}

/// The first position of the summary of conversation `id`.
fn conversation_position(index: &Vec<ConversationSummary>, id: &String) -> (r: Option<usize>)
    ensures
        match r {
            Some(k) => k < index.len() && first_with_conversation(summary_views(index@), id@)
                == k as int,
            None => first_with_conversation(summary_views(index@), id@) == -1,
        },
{
    let ghost sv = summary_views(index@);
    let mut i: usize = 0;
    while i < index.len()
        invariant
            i <= index.len(),
            sv == summary_views(index@),
            forall|j: int| 0 <= j < i ==> #[trigger] sv[j].id != id@,
        decreases index.len() - i,
    {
        if index[i].id == *id {
            proof {
                lemma_first_with_conversation(sv, id@, i as int);
            }
            return Some(i);
        }
        i += 1;
    }
    proof {
        lemma_first_with_conversation(sv, id@, i as int);
    }
    None
}

/// A log file found in a workspace's conversations folder: its file name
/// and, when the file system could tell, its modification time in
/// milliseconds since the Unix epoch.
#[derive(Debug)]
pub struct LogFileEntry {
    pub file_name: String,
    pub modified_ms: Option<u64>,
}

/// Index of the last `.` of `s`, or -1 when it has none.
pub open spec fn last_dot(s: Seq<char>) -> int
    decreases s.len(),
{
    if s.len() == 0 {
        -1
    } else if s.last() == '.' {
        s.len() - 1
    } else {
        last_dot(s.drop_last())
    }
}

/// The conversation id a log file name stands for: its stem, when its
/// extension is `jsonl` (`Path::file_stem`, `Path::extension`).
pub open spec fn log_stem(name: Seq<char>) -> Option<Seq<char>> {
    let d = last_dot(name);
    if d > 0 && name.skip(d + 1) == "jsonl"@ {
        Some(name.take(d))
    } else {
        None
    }
}

/// The summary that stands in for a conversation whose index entry was lost.
pub open spec fn rebuilt_summary(stem: Seq<char>, time: u64) -> SummaryView {
    SummaryView {
        id: stem,
        title: "Conversation "@ + stem,
        started_at: time,
        last_active_at: time,
        claude_session_id: None,
        title_pinned: false,
    }
}

/// The index rebuilt from the log files: one placeholder entry per
/// `.jsonl` file, in listing order, timed by the file's modification time
/// or, when that is unknown, by `now`.
pub open spec fn spec_reconstruct(files: Seq<(Seq<char>, Option<u64>)>, now: u64) -> Seq<SummaryView>
    decreases files.len(),
{
    if files.len() == 0 {
        seq![]
    } else {
        let prev = spec_reconstruct(files.drop_last(), now);
        let (name, modified) = files.last();
        match log_stem(name) {
            Some(stem) => prev.push(
                rebuilt_summary(
                    stem,
                    match modified {
                        Some(t) => t,
                        None => now,
                    },
                ),
            ),
            None => prev,
        }
    }
}

pub open spec fn log_file_views(files: Seq<LogFileEntry>) -> Seq<(Seq<char>, Option<u64>)> {
    files.map_values(|f: LogFileEntry| (f.file_name@, f.modified_ms))
}

proof fn lemma_last_dot(s: Seq<char>, k: int)
    requires
        -1 <= k < s.len(),
        k >= 0 ==> s[k] == '.',
        forall|j: int| k < j < s.len() ==> #[trigger] s[j] != '.',
    ensures
        last_dot(s) == k,
    decreases s.len(),
{
    if s.len() > 0 && k < s.len() - 1 {
        let t = s.drop_last();
        assert forall|j: int| k < j < t.len() implies #[trigger] t[j] != '.' by {
            assert(t[j] == s[j]);
        }
        lemma_last_dot(t, k);
    }
}

/// The conversation id a log file name stands for, if it is a `.jsonl` file.
pub fn conversation_id_of_log(file_name: &str) -> (r: Option<String>)
    ensures
        match r {
            Some(s) => log_stem(file_name@) == Some(s@),
            None => log_stem(file_name@) is None,
        },
{
    let v = chars_of(file_name);
    let mut d: usize = v.len();
    let mut found = false;
    while d > 0 && !found
        invariant
            d <= v.len(),
            found ==> d < v.len() && v@[d as int] == '.',
            forall|j: int| (if found { d + 1 } else { d as int }) <= j < v.len() ==> #[trigger] v@[j] != '.',
        decreases d + (if found { 0int } else { 1 }),
    {
        d = d - 1;
        if v[d] == '.' {
            found = true;
        }
    }
    proof {
        if found {
            lemma_last_dot(v@, d as int);
        } else {
            lemma_last_dot(v@, -1);
        }
    }
    if !found || d == 0 {
        return None;
    }
    let ext = string_of(&v, d + 1, v.len());
    assert(v@.subrange(d + 1, v.len() as int) =~= v@.skip(d + 1));
    if ext == String::from_str("jsonl") {
        let stem = string_of(&v, 0, d);
        assert(v@.subrange(0, d as int) =~= v@.take(d as int));
        Some(stem)
    } else {
        None
    }
}

/// The index rebuilt from the log files, with `now` standing in for an
/// unknown modification time.
pub fn reconstruct_index_at(files: &Vec<LogFileEntry>, now: u64) -> (r: Vec<ConversationSummary>)
    ensures
        summary_views(r@) == spec_reconstruct(log_file_views(files@), now),
{
    let ghost fv = log_file_views(files@);
    let mut out: Vec<ConversationSummary> = Vec::new();
    let mut i: usize = 0;
    while i < files.len()
        invariant
            i <= files.len(),
            fv == log_file_views(files@),
            summary_views(out@) == spec_reconstruct(fv.take(i as int), now),
        decreases files.len() - i,
    {
        assert(fv.take(i + 1).drop_last() =~= fv.take(i as int));
        assert(fv.take(i + 1).last() == fv[i as int]);
        let ghost prev = out@;
        match conversation_id_of_log(files[i].file_name.as_str()) {
            Some(stem) => {
                let time = match files[i].modified_ms {
                    Some(t) => t,
                    None => now,
                };
                let mut title = String::from_str("Conversation ");
                push_str(&mut title, stem.as_str());
                out.push(
                    ConversationSummary {
                        id: stem,
                        title,
                        started_at: time,
                        last_active_at: time,
                        claude_session_id: None,
                        title_pinned: false,
                    },
                );
                assert(summary_views(out@) =~= summary_views(prev).push(summary_views(out@).last()));
            },
            None => {},
        }
        i += 1;
    }
    assert(fv.take(i as int) =~= fv);
    out
}

/// The index rebuilt from the log files; an unknown modification time is
/// replaced by the current time.
pub fn reconstruct_index(files: &Vec<LogFileEntry>) -> (r: Vec<ConversationSummary>)
    ensures
        exists|now: u64| summary_views(r@) == spec_reconstruct(log_file_views(files@), now),
{
    let now = crate::platform::now_millis();
    reconstruct_index_at(files, now)
}

/// The index to use for a workspace: the stored one when it could be read,
/// otherwise the one rebuilt from the log files. The flag says whether a
/// rebuilt, non-empty index should be written back.
pub fn resolve_conversation_index(
    stored: Option<Vec<ConversationSummary>>,
    files: &Vec<LogFileEntry>,
) -> (r: (Vec<ConversationSummary>, bool))
    ensures
        match stored {
            Some(s) => r.0@ == s@ && !r.1,
            None => (exists|now: u64|
                summary_views(r.0@) == spec_reconstruct(log_file_views(files@), now)) && r.1 == (
            r.0@.len() > 0),
        },
{
    match stored {
        Some(s) => (s, false),
        None => {
            let rebuilt = reconstruct_index(files);
            let write = rebuilt.len() > 0;
            (rebuilt, write)
        },
    }
}

/// The append-only event log of one conversation.
#[derive(Debug)]
pub struct ConversationLog {
    path: String,
    workspace_id: String,
    conversation_id: String,
}

impl ConversationLog {
    pub closed spec fn spec_path(&self) -> Seq<char> {
        self.path@
    }

    pub closed spec fn spec_workspace_id(&self) -> Seq<char> {
        self.workspace_id@
    }

    pub closed spec fn spec_conversation_id(&self) -> Seq<char> {
        self.conversation_id@
    }

    /// Where the log lives on disk.
    pub fn path(&self) -> (r: &str)
        ensures
            r@ == self.spec_path(),
    {
        self.path.as_str()
    }

    pub fn workspace_id(&self) -> (r: &str)
        ensures
            r@ == self.spec_workspace_id(),
    {
        self.workspace_id.as_str()
    }

    pub fn conversation_id(&self) -> (r: &str)
        ensures
            r@ == self.spec_conversation_id(),
    {
        self.conversation_id.as_str()
    }
}

impl Storage {
    /// The name of the workspace `id`, or `workspace` when there is none.
    pub fn workspace_name(&self, id: &str) -> (r: String)
        ensures
            r@ == workspace_name(self@.workspaces, id@),
    {
        let list = self.list_workspaces();
        let idv = String::from_str(id);
        let ghost wv = self@.workspaces;
        let mut i: usize = 0;
        while i < list.len()
            invariant
                i <= list.len(),
                crate::storage::workspace_views(list@) == wv,
                wv == self@.workspaces,
                idv@ == id@,
                forall|j: int| 0 <= j < i ==> #[trigger] wv[j].id != idv@,
            decreases list.len() - i,
        {
            if list[i].id == idv {
                proof {
                    crate::storage::lemma_first_with_id(wv, idv@, i as int);
                }
                assert(wv[i as int] == list@[i as int]@);
                return list[i].name.clone();
            }
            i += 1;
        }
        proof {
            crate::storage::lemma_first_with_id(wv, idv@, i as int);
        }
        String::from_str("workspace")
    }

    /// The log of conversation `conversation_id` in workspace `workspace_id`,
    /// at `<root>/workspaces/<workspace_id>/conversations/<conversation_id>.jsonl`.
    pub fn open_conversation(&self, workspace_id: &str, conversation_id: &str) -> (r:
        ConversationLog)
        ensures
            r.spec_path() == path_join(
                path_join(
                    path_join(path_join(self@.root, "workspaces"@), workspace_id@),
                    "conversations"@,
                ),
                conversation_id@ + ".jsonl"@,
            ),
            r.spec_workspace_id() == workspace_id@,
            r.spec_conversation_id() == conversation_id@,
    {
        let dir = self.conversations_dir(workspace_id);
        let mut file = String::from_str(conversation_id);
        push_str(&mut file, ".jsonl");
        let path = join(dir.as_str(), file.as_str());
        ConversationLog {
            path,
            workspace_id: String::from_str(workspace_id),
            conversation_id: String::from_str(conversation_id),
        }
    }

    /// Records in the index that the event `event` of conversation
    /// `conversation_id` arrived, at the current time.
    pub fn update_conversation_for_event(
        &self,
        index: &mut Vec<ConversationSummary>,
        workspace_id: &str,
        conversation_id: &str,
        event: &Json,
    )
        ensures
            exists|now: u64|
                summary_views(final(index)@) == spec_update_for_event(
                    summary_views(old(index)@),
                    workspace_name(self@.workspaces, workspace_id@),
                    conversation_id@,
                    *event,
                    now,
                ),
    {
        let now = crate::platform::now_millis();
        self.update_conversation_for_event_at(index, workspace_id, conversation_id, event, now);
    }

    /// Records in the index that the event `event` of conversation
    /// `conversation_id` arrived at `now`.
    pub fn update_conversation_for_event_at(
        &self,
        index: &mut Vec<ConversationSummary>,
        workspace_id: &str,
        conversation_id: &str,
        event: &Json,
        now: u64,
    )
        ensures
            summary_views(final(index)@) == spec_update_for_event(
                summary_views(old(index)@),
                workspace_name(self@.workspaces, workspace_id@),
                conversation_id@,
                *event,
                now,
            ),
    {
        let ghost name = workspace_name(self@.workspaces, workspace_id@);
        let ghost before = summary_views(index@);
        let cid = String::from_str(conversation_id);
        let pos = match conversation_position(index, &cid) {
            Some(k) => k,
            None => {
                let wname = self.workspace_name(workspace_id);
                let mut title = wname;
                push_str(&mut title, " \u{b7} ");
                push_decimal(&mut title, now as u128);
                index.push(
                    ConversationSummary {
                        id: cid,
                        title,
                        started_at: now,
                        last_active_at: now,
                        claude_session_id: None,
                        title_pinned: false,
                    },
                );
                assert(summary_views(index@) =~= before.push(summary_views(index@).last()));
                index.len() - 1
            },
        };
        proof {
            lemma_first_with_conversation_found(before, conversation_id@);
        }
        let ghost base = summary_views(index@);
        let mut entry = index[pos].clone();
        entry.last_active_at = now;
        if !entry.title_pinned {
            match derive_title_from_event(event) {
                Some(derived) => {
                    entry.title = derived;
                },
                None => {},
            }
        }
        match extract_init_session_id(event) {
            Some(sid) => {
                entry.claude_session_id = Some(sid);
            },
            None => {},
        }
        index.set(pos, entry);
        assert(summary_views(index@) =~= base.update(pos as int, summary_views(index@)[pos as int]));
    }

    /// Sets the title of conversation `conversation_id` to `new_title`
    /// (trimmed) and pins it, so that events no longer change it.
    pub fn pin_conversation_title(
        &self,
        index: &mut Vec<ConversationSummary>,
        conversation_id: &str,
        new_title: &str,
    ) -> (r: Result<ConversationSummary, StorageError>)
        ensures
            match r {
                Ok(e) => spec_pin_title(summary_views(old(index)@), conversation_id@, new_title@)
                    == Ok::<(Seq<SummaryView>, SummaryView), StorageErrorView>(
                    (summary_views(final(index)@), e@),
                ),
                Err(e) => final(index)@ == old(index)@ && spec_pin_title(
                    summary_views(old(index)@),
                    conversation_id@,
                    new_title@,
                ) == Err::<(Seq<SummaryView>, SummaryView), StorageErrorView>(e@),
            },
    {
        let t = trim(new_title);
        if t.as_str().is_empty() {
            return Err(StorageError::EmptyTitle);
        }
        let cid = String::from_str(conversation_id);
        match conversation_position(index, &cid) {
            None => Err(StorageError::ConversationNotFound { id: cid }),
            Some(k) => {
                proof {
                    lemma_first_with_conversation_found(summary_views(index@), cid@);
                }
                let ghost before = summary_views(index@);
                let mut entry = index[k].clone();
                entry.title = t;
                entry.title_pinned = true;
                let updated = entry.clone();
                index.set(k, entry);
                assert(summary_views(index@) =~= before.update(k as int, updated@));
                Ok(updated)
            },
        }
    }
}

} // verus!
