//! What the conversation index keeps as events arrive and titles are pinned.
use vstd::prelude::*;
use crate::conversation::{
    SummaryView, first_with_conversation, lemma_first_with_conversation_found, placeholder_title,
    spec_derive_title, spec_init_session_id, spec_pin_title, spec_reconstruct,
    spec_title_from_event, spec_update_for_event,
};
use crate::json::Json;
use crate::text::trimmed;

verus! {

/// No two entries of an index are for the same conversation.
pub open spec fn conversation_ids_distinct(s: Seq<SummaryView>) -> bool {
    forall|i: int, j: int| 0 <= i < s.len() && 0 <= j < s.len() && i != j ==> #[trigger] s[i].id != #[trigger] s[j].id
}

/// The derived title is never blank and never longer than 50 characters
/// plus the ellipsis; short text is kept whole, and longer text is cut to
/// a prefix of itself followed by `…`. Only blank text derives no title.
pub proof fn law_derive_title_shape(text: Seq<char>)
    ensures
        spec_derive_title(text) is None <==> trimmed(text).len() == 0,
        spec_derive_title(text) matches Some(s) ==> {
            &&& 0 < s.len() <= 51
            &&& trimmed(text).len() <= 50 ==> s == trimmed(text)
            &&& trimmed(text).len() > 50 ==> s.last() == '\u{2026}' && s.drop_last()
                == trimmed(text).take(s.len() - 1)
        },
{
    let t = trimmed(text);
    if t.len() > 50 {
        let p = t.take(50);
        let s = spec_derive_title(text)->0;
        crate::conversation::lemma_last_ws_bound(p);
        assert(s.drop_last() =~= t.take(s.len() - 1));
    }
}

/// Once an entry's title is pinned, no event changes the title or unpins it.
pub proof fn law_pinned_title_survives_events(
    index: Seq<SummaryView>,
    workspace_name: Seq<char>,
    id: Seq<char>,
    event: Json,
    now: u64,
)
    requires
        first_with_conversation(index, id) >= 0,
        index[first_with_conversation(index, id)].title_pinned,
    ensures
        ({
            let k = first_with_conversation(index, id);
            let after = spec_update_for_event(index, workspace_name, id, event, now);
            &&& after.len() == index.len()
            &&& after[k].title == index[k].title
            &&& after[k].title_pinned
        }),
{
    lemma_first_with_conversation_found(index, id);
}

/// A title pinned by the user outlives every later event of that conversation.
pub proof fn law_pin_then_event_keeps_title(
    index: Seq<SummaryView>,
    id: Seq<char>,
    new_title: Seq<char>,
    workspace_name: Seq<char>,
    event: Json,
    now: u64,
)
    requires
        spec_pin_title(index, id, new_title) is Ok,
    ensures
        ({
            let (pinned, e) = spec_pin_title(index, id, new_title)->Ok_0;
            let k = first_with_conversation(index, id);
            let after = spec_update_for_event(pinned, workspace_name, id, event, now);
            &&& e.title == trimmed(new_title)
            &&& first_with_conversation(pinned, id) == k
            &&& after[k].title == trimmed(new_title)
            &&& after[k].title_pinned
        }),
{
    let (pinned, e) = spec_pin_title(index, id, new_title)->Ok_0;
    lemma_first_with_conversation_found(index, id);
    let k = first_with_conversation(index, id);
    crate::conversation::lemma_first_with_conversation_same_ids(index, pinned, id);
}

/// An event marks its conversation active at the event's time; an existing
/// entry keeps its start time; a new entry starts then; every other entry is
/// left alone; the entry carries the session id of a `system`/`init` event.
pub proof fn law_event_touches_only_its_conversation(
    index: Seq<SummaryView>,
    workspace_name: Seq<char>,
    id: Seq<char>,
    event: Json,
    now: u64,
)
    ensures
        ({
            let k = first_with_conversation(index, id);
            let after = spec_update_for_event(index, workspace_name, id, event, now);
            let pos = if k < 0 {
                index.len() as int
            } else {
                k
            };
            &&& after.len() == if k < 0 {
                index.len() + 1
            } else {
                index.len() + 0
            }
            &&& after[pos].id == id
            &&& after[pos].last_active_at == now
            &&& after[pos].started_at == if k < 0 {
                now
            } else {
                index[k].started_at
            }
            &&& spec_init_session_id(event) matches Some(s) ==> after[pos].claude_session_id == Some(s)
            &&& forall|j: int| 0 <= j < index.len() && j != pos ==> #[trigger] after[j] == index[j]
        }),
{
    lemma_first_with_conversation_found(index, id);
}

/// Events keep one entry per conversation.
pub proof fn law_event_keeps_conversations_distinct(
    index: Seq<SummaryView>,
    workspace_name: Seq<char>,
    id: Seq<char>,
    event: Json,
    now: u64,
)
    requires
        conversation_ids_distinct(index),
    ensures
        conversation_ids_distinct(spec_update_for_event(index, workspace_name, id, event, now)),
{
    lemma_first_with_conversation_found(index, id);
    let after = spec_update_for_event(index, workspace_name, id, event, now);
    let k = first_with_conversation(index, id);
    assert forall|i: int, j: int|
        0 <= i < after.len() && 0 <= j < after.len() && i != j implies #[trigger] after[i].id
        != #[trigger] after[j].id by {
        if k < 0 {
            if i < index.len() && j < index.len() {
                assert(index[i].id != index[j].id);
            } else if i < index.len() {
                assert(index[i].id != id);
            } else {
                assert(index[j].id != id);
            }
        } else {
            assert(index[i].id != index[j].id);
        }
    }
}

/// No entry's title is ever blank: events keep every title non-empty.
pub proof fn law_titles_never_blank(
    index: Seq<SummaryView>,
    workspace_name: Seq<char>,
    id: Seq<char>,
    event: Json,
    now: u64,
)
    requires
        forall|i: int| 0 <= i < index.len() ==> #[trigger] index[i].title.len() > 0,
    ensures
        ({
            let after = spec_update_for_event(index, workspace_name, id, event, now);
            forall|i: int| 0 <= i < after.len() ==> #[trigger] after[i].title.len() > 0
        }),
{
    lemma_first_with_conversation_found(index, id);
    let after = spec_update_for_event(index, workspace_name, id, event, now);
    if spec_title_from_event(event) is Some {
        crate::conversation::lemma_title_from_event_nonempty(event);
    }
    assert(placeholder_title(workspace_name, now).len() > 0);
    assert forall|i: int| 0 <= i < after.len() implies #[trigger] after[i].title.len() > 0 by {
        if i < index.len() {
            assert(index[i].title.len() > 0);
        }
    }
}

proof fn lemma_rebuilt_unpinned(files: Seq<(Seq<char>, Option<u64>)>, now: u64)
    ensures
        forall|i: int|
            0 <= i < spec_reconstruct(files, now).len() ==> !(#[trigger] spec_reconstruct(
                files,
                now,
            )[i]).title_pinned,
    decreases files.len(),
{
    if files.len() > 0 {
        lemma_rebuilt_unpinned(files.drop_last(), now);
        let prev = spec_reconstruct(files.drop_last(), now);
        let cur = spec_reconstruct(files, now);
        assert forall|i: int| 0 <= i < cur.len() implies !(#[trigger] cur[i]).title_pinned by {
            if i < prev.len() {
                assert(cur[i] == prev[i]);
            }
        }
    }
}

/// The index rebuilt from the log files carries placeholder titles that are
/// not pinned: the first event of a rebuilt conversation that proposes a
/// title replaces the placeholder.
pub proof fn law_rebuilt_titles_give_way_to_events(
    files: Seq<(Seq<char>, Option<u64>)>,
    rebuilt_at: u64,
    workspace_name: Seq<char>,
    id: Seq<char>,
    event: Json,
    now: u64,
)
    requires
        first_with_conversation(spec_reconstruct(files, rebuilt_at), id) >= 0,
        spec_title_from_event(event) is Some,
    ensures
        ({
            let rebuilt = spec_reconstruct(files, rebuilt_at);
            let k = first_with_conversation(rebuilt, id);
            let after = spec_update_for_event(rebuilt, workspace_name, id, event, now);
            &&& after[k].title == spec_title_from_event(event)->0
            &&& !after[k].title_pinned
        }),
{
    let rebuilt = spec_reconstruct(files, rebuilt_at);
    lemma_first_with_conversation_found(rebuilt, id);
    lemma_rebuilt_unpinned(files, rebuilt_at);
    let k = first_with_conversation(rebuilt, id);
    assert(!rebuilt[k].title_pinned);
}

/// An event that is not a `system`/`init` event leaves the captured session
/// id of its conversation as it was, so a conversation stays resumable
/// after later events; an init event carrying an id records that id.
pub proof fn law_session_id_survives_other_events(
    index: Seq<SummaryView>,
    workspace_name: Seq<char>,
    id: Seq<char>,
    event: Json,
    now: u64,
)
    requires
        first_with_conversation(index, id) >= 0,
    ensures
        ({
            let k = first_with_conversation(index, id);
            let after = spec_update_for_event(index, workspace_name, id, event, now);
            &&& spec_init_session_id(event) is None ==> after[k].claude_session_id
                == index[k].claude_session_id
            &&& spec_init_session_id(event) matches Some(s) ==> after[k].claude_session_id == Some(s)
        }),
{
    lemma_first_with_conversation_found(index, id);
}

} // verus!
