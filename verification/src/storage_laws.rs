//! What every registry operation keeps, and how the operations compose.
use vstd::prelude::*;
use crate::storage::{
    StoreView, WorkspaceView, StorageErrorView, first_with_id, ids_distinct, names_distinct,
    most_recent, spec_create, spec_delete, spec_get_active, spec_rename, spec_set_active,
    lemma_first_with_id_found, lemma_first_with_id_same_ids, lemma_most_recent, name_taken,
};
use crate::text::{ascii_lower, eq_ignore_case, trimmed};
use crate::paths::is_absolute_path;

verus! {

/// Creating a workspace keeps workspace names distinct up to ASCII case.
pub proof fn law_create_keeps_names_distinct(
    st: StoreView,
    name: Seq<char>,
    path: Seq<char>,
    path_is_dir: bool,
    id: Seq<char>,
    now: u64,
)
    requires
        names_distinct(st.workspaces),
        spec_create(st, name, path, path_is_dir, id, now) is Ok,
    ensures
        names_distinct(spec_create(st, name, path, path_is_dir, id, now)->Ok_0.0.workspaces),
{
    let ws = st.workspaces;
    let t = trimmed(name);
    let nw = spec_create(st, name, path, path_is_dir, id, now)->Ok_0.0.workspaces;
    assert forall|i: int, j: int|
        0 <= i < nw.len() && 0 <= j < nw.len() && i != j implies !eq_ignore_case(
        #[trigger] nw[i].name,
        #[trigger] nw[j].name,
    ) by {
        if i == ws.len() {
            assert(!eq_ignore_case(ws[j].name, t));
        } else if j == ws.len() {
            assert(!eq_ignore_case(ws[i].name, t));
        } else {
            assert(nw[i] == ws[i] && nw[j] == ws[j]);
        }
    }
}

/// Creating a workspace with an id no workspace carries keeps ids distinct.
pub proof fn law_create_keeps_ids_distinct(
    st: StoreView,
    name: Seq<char>,
    path: Seq<char>,
    path_is_dir: bool,
    id: Seq<char>,
    now: u64,
)
    requires
        ids_distinct(st.workspaces),
        forall|i: int| 0 <= i < st.workspaces.len() ==> #[trigger] st.workspaces[i].id != id,
        spec_create(st, name, path, path_is_dir, id, now) is Ok,
    ensures
        ids_distinct(spec_create(st, name, path, path_is_dir, id, now)->Ok_0.0.workspaces),
{
    let ws = st.workspaces;
    let nw = spec_create(st, name, path, path_is_dir, id, now)->Ok_0.0.workspaces;
    assert forall|i: int, j: int|
        0 <= i < nw.len() && 0 <= j < nw.len() && i != j implies #[trigger] nw[i].id
        != #[trigger] nw[j].id by {
        if i < ws.len() {
            assert(nw[i] == ws[i]);
        }
        if j < ws.len() {
            assert(nw[j] == ws[j]);
        }
    }
}

/// Renaming keeps workspace names distinct up to ASCII case, and ids distinct.
pub proof fn law_rename_keeps_names_and_ids_distinct(st: StoreView, id: Seq<char>, new_name: Seq<char>)
    requires
        ids_distinct(st.workspaces),
        names_distinct(st.workspaces),
        spec_rename(st, id, new_name) is Ok,
    ensures
        ids_distinct(spec_rename(st, id, new_name)->Ok_0.0.workspaces),
        names_distinct(spec_rename(st, id, new_name)->Ok_0.0.workspaces),
{
    let ws = st.workspaces;
    let t = trimmed(new_name);
    let k = first_with_id(ws, id);
    lemma_first_with_id_found(ws, id);
    let nw = spec_rename(st, id, new_name)->Ok_0.0.workspaces;
    assert(!name_taken(ws, t, Some(id)));
    assert forall|i: int, j: int|
        0 <= i < nw.len() && 0 <= j < nw.len() && i != j implies #[trigger] nw[i].id
        != #[trigger] nw[j].id by {
        assert(ws[i].id != ws[j].id);
    }
    assert forall|i: int, j: int|
        0 <= i < nw.len() && 0 <= j < nw.len() && i != j implies !eq_ignore_case(
        #[trigger] nw[i].name,
        #[trigger] nw[j].name,
    ) by {
        if i == k {
            assert(ws[j].id != id);
            assert(!eq_ignore_case(ws[j].name, t));
        } else if j == k {
            assert(ws[i].id != id);
            assert(!eq_ignore_case(ws[i].name, t));
        } else {
            assert(!eq_ignore_case(ws[i].name, ws[j].name));
        }
    }
}

/// Renaming a workspace to the name it already carries succeeds and
/// changes nothing.
pub proof fn law_rename_to_own_name(st: StoreView, id: Seq<char>)
    requires
        ids_distinct(st.workspaces),
        names_distinct(st.workspaces),
        first_with_id(st.workspaces, id) >= 0,
        trimmed(st.workspaces[first_with_id(st.workspaces, id)].name) == st.workspaces[first_with_id(
            st.workspaces,
            id,
        )].name,
        st.workspaces[first_with_id(st.workspaces, id)].name.len() > 0,
    ensures
        spec_rename(st, id, st.workspaces[first_with_id(st.workspaces, id)].name) == Ok::<
            (StoreView, WorkspaceView),
            StorageErrorView,
        >((st, st.workspaces[first_with_id(st.workspaces, id)])),
{
    let ws = st.workspaces;
    lemma_first_with_id_found(ws, id);
    let k = first_with_id(ws, id);
    let n = ws[k].name;
    assert(ws[k].id == id);
    if name_taken(ws, n, Some(id)) {
        let i = choose|i: int|
            0 <= i < ws.len() && ws[i].id != id && eq_ignore_case(#[trigger] ws[i].name, n);
        assert(i != k);
    }
    assert(ws.update(k, WorkspaceView { name: n, ..ws[k] }) =~= ws);
}

/// Making a workspace active and then reading the active workspace gives
/// that workspace back.
pub proof fn law_set_active_then_get_active(st: StoreView, id: Seq<char>, now: u64)
    requires
        spec_set_active(st, id, now) is Ok,
    ensures
        ({
            let (st2, w) = spec_set_active(st, id, now)->Ok_0;
            spec_get_active(st2) == (st2, Some(w)) && w.id == id
        }),
{
    let ws = st.workspaces;
    lemma_first_with_id_found(ws, id);
    let k = first_with_id(ws, id);
    let (st2, w) = spec_set_active(st, id, now)->Ok_0;
    assert forall|i: int| 0 <= i < ws.len() implies #[trigger] ws[i].id == st2.workspaces[i].id by {}
    lemma_first_with_id_same_ids(ws, st2.workspaces, id);
}

/// Making a workspace active at a time later than every other workspace was
/// last used makes it the most recently used one: the one a fallback after
/// deleting the active workspace would choose.
pub proof fn law_set_active_surfaces_as_most_recent(st: StoreView, id: Seq<char>, now: u64)
    requires
        ids_distinct(st.workspaces),
        spec_set_active(st, id, now) is Ok,
        forall|j: int|
            0 <= j < st.workspaces.len() && #[trigger] st.workspaces[j].id != id ==> st.workspaces[j].last_used_at
                < now,
    ensures
        ({
            let (st2, w) = spec_set_active(st, id, now)->Ok_0;
            let m = most_recent(st2.workspaces);
            0 <= m < st2.workspaces.len() && st2.workspaces[m] == w && w.id == id
        }),
{
    let ws = st.workspaces;
    lemma_first_with_id_found(ws, id);
    let k = first_with_id(ws, id);
    let (st2, w) = spec_set_active(st, id, now)->Ok_0;
    let ws2 = st2.workspaces;
    lemma_most_recent(ws2);
    let m = most_recent(ws2);
    if m != k {
        assert(ws2[m] == ws[m]);
        assert(ws2[k].last_used_at <= ws2[m].last_used_at);
        assert(ws[m].id != ws[k].id);
    }
}

/// When the active workspace is deleted, the workspace that becomes active
/// is one that remains and that no other remaining workspace was used
/// more recently than; it is `None` only when no workspace remains.
pub proof fn law_delete_active_falls_back_to_most_recent(st: StoreView, id: Seq<char>)
    requires
        st.active_id == Some(id),
        spec_delete(st, id) is Ok,
    ensures
        ({
            let (st2, next) = spec_delete(st, id)->Ok_0;
            &&& st2.active_id == next
            &&& next is None <==> st2.workspaces.len() == 0
            &&& next is Some ==> exists|k: int|
                0 <= k < st2.workspaces.len() && st2.workspaces[k].id == next->0 && forall|j: int|
                    0 <= j < st2.workspaces.len() ==> #[trigger] st2.workspaces[j].last_used_at
                        <= st2.workspaces[k].last_used_at
        }),
{
    let (st2, next) = spec_delete(st, id)->Ok_0;
    lemma_most_recent(st2.workspaces);
    let m = most_recent(st2.workspaces);
    if m >= 0 {
        assert(st2.workspaces[m].id == next->0);
    }
}

/// Deleting a workspace that is not the active one leaves the active
/// workspace as it was, and the answer is `None`.
pub proof fn law_delete_inactive_keeps_active(st: StoreView, id: Seq<char>)
    requires
        st.active_id != Some(id),
        spec_delete(st, id) is Ok,
    ensures
        spec_delete(st, id)->Ok_0.0.active_id == st.active_id,
        spec_delete(st, id)->Ok_0.1 is None,
{
}

/// After a deletion with distinct ids, no workspace carries the deleted id,
/// and every other workspace is still listed, in the same order.
pub proof fn law_delete_removes_only_that_workspace(st: StoreView, id: Seq<char>)
    requires
        ids_distinct(st.workspaces),
        spec_delete(st, id) is Ok,
    ensures
        ({
            let ws2 = spec_delete(st, id)->Ok_0.0.workspaces;
            &&& ws2.len() == st.workspaces.len() - 1
            &&& forall|i: int| 0 <= i < ws2.len() ==> #[trigger] ws2[i].id != id
            &&& ws2 == st.workspaces.remove(first_with_id(st.workspaces, id))
        }),
{
    let ws = st.workspaces;
    lemma_first_with_id_found(ws, id);
    let k = first_with_id(ws, id);
    let ws2 = spec_delete(st, id)->Ok_0.0.workspaces;
    assert forall|i: int| 0 <= i < ws2.len() implies #[trigger] ws2[i].id != id by {
        if i < k {
            assert(ws2[i] == ws[i]);
        } else {
            assert(ws2[i] == ws[i + 1]);
            assert(ws[i + 1].id != ws[k].id);
        }
    }
}

/// Reading the active workspace never leaves a stale id behind: whenever
/// no workspace comes back, no workspace is active afterwards, and a
/// second read answers as the first did.
pub proof fn law_get_active_clears_stale_id(st: StoreView)
    ensures
        spec_get_active(st).1 is None ==> spec_get_active(st).0.active_id is None,
        spec_get_active(spec_get_active(st).0) == (spec_get_active(st).0, spec_get_active(st).1),
{
}

/// Names equal up to ASCII case have the same length: a name is never taken
/// by a shorter or longer one, such as `web` next to `website`.
pub proof fn law_equal_names_have_equal_length(a: Seq<char>, b: Seq<char>)
    ensures
        eq_ignore_case(a, b) ==> a.len() == b.len(),
        eq_ignore_case(a, b) <==> (a.len() == b.len() && forall|i: int|
            0 <= i < a.len() ==> ascii_lower(#[trigger] a[i]) == ascii_lower(b[i])),
{
}

/// Creating a workspace succeeds whenever its name (trimmed) is not blank,
/// its folder is an absolute path to an existing directory, and no
/// workspace carries a name of the same length with the same letters up to
/// ASCII case; the new workspace carries the trimmed name and comes last.
pub proof fn law_create_accepts_new_names(
    st: StoreView,
    name: Seq<char>,
    path: Seq<char>,
    id: Seq<char>,
    now: u64,
)
    requires
        trimmed(name).len() > 0,
        is_absolute_path(path),
        forall|i: int|
            0 <= i < st.workspaces.len() ==> !((#[trigger] st.workspaces[i]).name.len()
                == trimmed(name).len() && forall|j: int|
                0 <= j < trimmed(name).len() ==> ascii_lower(st.workspaces[i].name[j])
                    == ascii_lower(trimmed(name)[j])),
    ensures
        spec_create(st, name, path, true, id, now) matches Ok((st2, w)) && w.name == trimmed(name)
            && w.path == path && st2.workspaces == st.workspaces.push(w),
{
    let t = trimmed(name);
    if name_taken(st.workspaces, t, None) {
        let i = choose|i: int|
            0 <= i < st.workspaces.len() && eq_ignore_case(#[trigger] st.workspaces[i].name, t);
        assert(st.workspaces[i].name.len() == t.len());
        assert(false);
    }
}

} // verus!
