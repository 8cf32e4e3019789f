//! The session table as a sequence: what it means to find a session in it,
//! to put one in, to take one out, and to sweep out the stale ones.

use vstd::prelude::*;
use crate::pty::error::{io_error_of, IoFailureModel, Operation, PtyErrorModel};
use crate::pty::session::{info_of, PtySessionInfoModel, PtySessionModel};
use crate::pty::tmux::{TmuxSessionInfo, TmuxSessionModel};
use crate::text::same_text;

verus! {

/// The position in `sessions` of the first session with identity `id`, or
/// the length of `sessions` where there is none.
pub open spec fn position_of<H>(sessions: Seq<PtySessionModel<H>>, id: Seq<char>) -> int
    decreases sessions.len(),
{
    if sessions.len() == 0 || sessions[0].id == id {
        0
    } else {
        1 + position_of(sessions.drop_first(), id)
    }
}

/// Whether `sessions` holds a session with identity `id`.
pub open spec fn has_session<H>(sessions: Seq<PtySessionModel<H>>, id: Seq<char>) -> bool {
    position_of(sessions, id) < sessions.len()
}

/// The session with identity `id` in `sessions`, where there is one.
pub open spec fn session_of<H>(sessions: Seq<PtySessionModel<H>>, id: Seq<char>) -> Option<
    PtySessionModel<H>,
> {
    if has_session(sessions, id) {
        Some(sessions[position_of(sessions, id)])
    } else {
        None
    }
}

/// Whether no identity occurs twice in `sessions`.
pub open spec fn distinct_ids<H>(sessions: Seq<PtySessionModel<H>>) -> bool {
    forall|i: int, j: int|
        0 <= i < j < sessions.len() ==> (#[trigger] sessions[i]).id != (#[trigger] sessions[j]).id
}

/// Where the first session with identity `id` stands: at `k`, if no session
/// before `k` has that identity and the one at `k` has it; past the end, if none has.
pub proof fn lemma_position_of<H>(sessions: Seq<PtySessionModel<H>>, id: Seq<char>, k: int)
    requires
        0 <= k <= sessions.len(),
        forall|j: int| 0 <= j < k ==> sessions[j].id != id,
        k < sessions.len() ==> sessions[k].id == id,
    ensures
        position_of(sessions, id) == k,
    decreases sessions.len(),
{
    if k > 0 {
        lemma_position_of(sessions.drop_first(), id, k - 1);
    }
}

/// What [`position_of`] finds: a position within or just past `sessions`,
/// with the identity `id` at it and at no position before it.
pub proof fn lemma_position_found<H>(sessions: Seq<PtySessionModel<H>>, id: Seq<char>)
    ensures
        0 <= position_of(sessions, id) <= sessions.len(),
        has_session(sessions, id) ==> sessions[position_of(sessions, id)].id == id,
        forall|j: int| 0 <= j < position_of(sessions, id) ==> sessions[j].id != id,
    decreases sessions.len(),
{
    if sessions.len() == 0 || sessions[0].id == id {
    } else {
        let rest = sessions.drop_first();
        lemma_position_found(rest, id);
        assert forall|j: int| 0 <= j < position_of(sessions, id) implies sessions[j].id != id by {
            if j > 0 {
                assert(sessions[j] == rest[j - 1]);
            }
        }
    }
}

/// `sessions` with `session` in it: in the place of the session of the same
/// identity where there is one, else at the end.
pub open spec fn with_session<H>(sessions: Seq<PtySessionModel<H>>, session: PtySessionModel<H>)
    -> Seq<PtySessionModel<H>> {
    if has_session(sessions, session.id) {
        sessions.update(position_of(sessions, session.id), session)
    } else {
        sessions.push(session)
    }
}

/// `sessions` with the geometry of the session at `at` set to `cols` by `rows`.
pub open spec fn with_geometry<H>(
    sessions: Seq<PtySessionModel<H>>,
    at: int,
    cols: u16,
    rows: u16,
) -> Seq<PtySessionModel<H>> {
    sessions.update(at, PtySessionModel { cols, rows, ..sessions[at] })
}

/// The table after a resize of `id`, and what the resize returns. The
/// geometry changes only where the session is there and the terminal took
/// the new size.
pub open spec fn after_resize<H>(
    sessions: Seq<PtySessionModel<H>>,
    id: Seq<char>,
    cols: u16,
    rows: u16,
    outcome: Result<(), IoFailureModel>,
) -> (Seq<PtySessionModel<H>>, Result<(), PtyErrorModel>) {
    if !has_session(sessions, id) {
        (sessions, Err(PtyErrorModel::NotFound(id)))
    } else {
        match outcome {
            Ok(_) => (with_geometry(sessions, position_of(sessions, id), cols, rows), Ok(())),
            Err(failure) => (sessions, Err(io_error_of(Operation::Resize, failure))),
        }
    }
}

/// Whether `listed` holds the backing session of the terminal session `id`.
pub open spec fn is_listed(listed: Seq<TmuxSessionModel>, id: Seq<char>) -> bool {
    exists|i: int| 0 <= i < listed.len() && (#[trigger] listed[i]).session_id == id
}

/// Whether `session` is stale: it is marked persistent, and the multiplexer
/// lists no session that would back it.
pub open spec fn is_stale<H>(session: PtySessionModel<H>, listed: Seq<TmuxSessionModel>) -> bool {
    session.is_tmux && !is_listed(listed, session.id)
}

/// `sessions` without the stale ones, in the same order.
pub open spec fn without_stale<H>(
    sessions: Seq<PtySessionModel<H>>,
    listed: Seq<TmuxSessionModel>,
) -> Seq<PtySessionModel<H>> {
    sessions.filter(|session: PtySessionModel<H>| !is_stale(session, listed))
}

/// Whether the child of the session `id` counts as alive: it is alive
/// unless `exited` names it.
pub open spec fn alive_unless(exited: Seq<Seq<char>>, id: Seq<char>) -> bool {
    !exited.contains(id)
}

/// What is told about each of `sessions`, in order.
pub open spec fn infos_of<H>(sessions: Seq<PtySessionModel<H>>, exited: Seq<Seq<char>>) -> Seq<
    PtySessionInfoModel,
> {
    Seq::new(sessions.len(), |i: int| info_of(sessions[i], alive_unless(exited, sessions[i].id)))
}

/// Once the session with identity `id` is taken out of a table in which no
/// identity occurs twice, the table holds no session with that identity, and
/// still no identity twice.
pub proof fn lemma_removed_is_gone<H>(sessions: Seq<PtySessionModel<H>>, id: Seq<char>)
    requires
        distinct_ids(sessions),
        has_session(sessions, id),
    ensures
        !has_session(sessions.remove(position_of(sessions, id)), id),
        distinct_ids(sessions.remove(position_of(sessions, id))),
{
    lemma_position_found(sessions, id);
    let at = position_of(sessions, id);
    let rest = sessions.remove(at);
    assert forall|j: int| 0 <= j < rest.len() implies rest[j].id != id by {
        if j < at {
            assert(rest[j] == sessions[j]);
        } else {
            assert(rest[j] == sessions[j + 1]);
        }
    }
    lemma_position_of(rest, id, rest.len() as int);
    assert forall|i: int, j: int| 0 <= i < j < rest.len() implies rest[i].id != rest[j].id by {
        let a = if i < at { i } else { i + 1 };
        let b = if j < at { j } else { j + 1 };
        assert(rest[i] == sessions[a]);
        assert(rest[j] == sessions[b]);
    }
}

/// Leaving sessions out of a table in which no identity occurs twice leaves
/// a table in which none does.
pub proof fn lemma_filter_keeps_distinct<H>(
    sessions: Seq<PtySessionModel<H>>,
    keep: spec_fn(PtySessionModel<H>) -> bool,
)
    requires
        distinct_ids(sessions),
    ensures
        distinct_ids(sessions.filter(keep)),
    decreases sessions.len(),
{
    reveal(Seq::filter);
    if sessions.len() > 0 {
        let front = sessions.drop_last();
        assert(distinct_ids(front)) by {
            assert forall|i: int, j: int| 0 <= i < j < front.len() implies front[i].id
                != front[j].id by {
                assert(front[i] == sessions[i]);
                assert(front[j] == sessions[j]);
            }
        }
        lemma_filter_keeps_distinct(front, keep);
        if keep(sessions.last()) {
            let kept = front.filter(keep);
            let all = kept.push(sessions.last());
            assert forall|i: int, j: int| 0 <= i < j < all.len() implies all[i].id
                != all[j].id by {
                if j == kept.len() {
                    assert(kept.contains(kept[i]));
                    front.lemma_filter_contains_rev(keep, kept[i]);
                    let k = choose|k: int| 0 <= k < front.len() && front[k] == kept[i];
                    assert(sessions[k] == front[k]);
                    assert(sessions[k].id != sessions[sessions.len() - 1].id);
                } else {
                    assert(all[i] == kept[i]);
                    assert(all[j] == kept[j]);
                }
            }
        }
    }
}

/// After the sweep the table holds no stale session: every session in it
/// that is marked persistent has a backing session in what the multiplexer listed.
pub proof fn lemma_sweep_leaves_no_stale<H>(
    sessions: Seq<PtySessionModel<H>>,
    listed: Seq<TmuxSessionModel>,
    i: int,
)
    requires
        0 <= i < without_stale(sessions, listed).len(),
    ensures
        !is_stale(without_stale(sessions, listed)[i], listed),
        sessions.contains(without_stale(sessions, listed)[i]),
{
    let keep = |session: PtySessionModel<H>| !is_stale(session, listed);
    sessions.lemma_filter_pred(keep, i);
    assert(sessions.filter(keep).contains(sessions.filter(keep)[i]));
    sessions.lemma_filter_contains_rev(keep, sessions.filter(keep)[i]);
}

/// A resize touches one session only: afterwards the session `id` is found
/// with the new geometry and otherwise as it was, and every other identity
/// is found, or not found, exactly as before.
pub proof fn lemma_resize_touches_one<H>(
    sessions: Seq<PtySessionModel<H>>,
    id: Seq<char>,
    cols: u16,
    rows: u16,
    other: Seq<char>,
)
    requires
        has_session(sessions, id),
    ensures
        session_of(with_geometry(sessions, position_of(sessions, id), cols, rows), id) == Some(
            PtySessionModel { cols, rows, ..sessions[position_of(sessions, id)] },
        ),
        other != id ==> session_of(
            with_geometry(sessions, position_of(sessions, id), cols, rows),
            other,
        ) == session_of(sessions, other),
{
    lemma_position_found(sessions, id);
    lemma_position_found(sessions, other);
    let at = position_of(sessions, id);
    let after = with_geometry(sessions, at, cols, rows);
    assert forall|j: int| 0 <= j < after.len() implies (#[trigger] after[j]).id
        == sessions[j].id by {}
    lemma_position_of(after, id, at);
    lemma_position_of(after, other, position_of(sessions, other));
}

/// A session that was put into the table is found there under its identity.
pub proof fn lemma_inserted_is_found<H>(
    sessions: Seq<PtySessionModel<H>>,
    session: PtySessionModel<H>,
)
    ensures
        session_of(with_session(sessions, session), session.id) == Some(session),
{
    lemma_position_found(sessions, session.id);
    let at = position_of(sessions, session.id);
    let after = with_session(sessions, session);
    assert forall|j: int| 0 <= j < at implies after[j].id != session.id by {
        assert(after[j] == sessions[j]);
    }
    lemma_position_of(after, session.id, at);
}

/// After a kill, the session is gone for every lookup: taken out of a table
/// in which no identity occurs twice, it is not found there any more, while
/// every other session is found as before.
pub proof fn lemma_killed_is_not_found<H>(
    sessions: Seq<PtySessionModel<H>>,
    id: Seq<char>,
    other: Seq<char>,
)
    requires
        distinct_ids(sessions),
        has_session(sessions, id),
    ensures
        session_of(sessions.remove(position_of(sessions, id)), id) is None,
        other != id ==> session_of(sessions.remove(position_of(sessions, id)), other)
            == session_of(sessions, other),
{
    lemma_removed_is_gone(sessions, id);
    lemma_position_found(sessions, id);
    lemma_position_found(sessions, other);
    let at = position_of(sessions, id);
    let rest = sessions.remove(at);
    if other != id {
        let k = position_of(sessions, other);
        let moved = if k < at {
            k
        } else {
            k - 1
        };
        assert forall|j: int| 0 <= j < moved implies rest[j].id != other by {
            if j < at {
                assert(rest[j] == sessions[j]);
            } else {
                assert(rest[j] == sessions[j + 1]);
            }
        }
        if k < sessions.len() {
            assert(k != at);
            assert(rest[moved] == sessions[k]);
        }
        lemma_position_of(rest, other, moved);
    }
}

/// Whether `listed` holds the backing session of the terminal session `session_id`.
pub fn listed_has(listed: &Vec<TmuxSessionInfo>, session_id: &str) -> (found: bool)
    ensures
        found == is_listed(listed.deep_view(), session_id@),
{
    let mut i: usize = 0;
    while i < listed.len()
        invariant
            i <= listed.len(),
            forall|j: int| 0 <= j < i ==> (#[trigger] listed.deep_view()[j]).session_id != session_id@,
        decreases listed.len() - i,
    {
        if same_text(&listed[i].session_id, session_id) {
            assert(listed.deep_view()[i as int].session_id == session_id@);
            return true;
        }
        assert(listed.deep_view()[i as int].session_id != session_id@);
        i += 1;
    }
    false
}

/// Whether `list` holds `text`.
pub fn has_text(list: &Vec<String>, text: &str) -> (found: bool)
    ensures
        found == list.deep_view().contains(text@),
{
    let mut i: usize = 0;
    while i < list.len()
        invariant
            i <= list.len(),
            forall|j: int| 0 <= j < i ==> list.deep_view()[j] != text@,
        decreases list.len() - i,
    {
        if same_text(&list[i], text) {
            assert(list.deep_view()[i as int] == text@);
            return true;
        }
        assert(list.deep_view()[i as int] != text@);
        i += 1;
    }
    false
}

} // verus!
