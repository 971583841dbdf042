//! Proved laws of the reconciliation and of the targeted operations,
//! stated over the same spec functions the operation contracts use.

use vstd::prelude::*;
use crate::control::stop_line_matches;
use crate::device::{
    apply_name_match, apply_reply, find_match, lemma_find_match, reconcile_spec, session_names,
    DeviceStatus, DeviceView, SessionView, seed_records,
};
use crate::text::{contains_at, has_substring, lines_of, trimmed};

verus! {

/// Enumeration never fails for want of live sessions: with none — as
/// when the session-listing tool is unavailable — the reconciled view
/// is exactly the seeded idle set.
pub proof fn lemma_enumerate_without_sessions(rs: Seq<DeviceView>)
    ensures
        reconcile_spec(rs, Seq::<SessionView>::empty()) == rs,
{
}

/// Every seeded record reports itself stopped, the identity filling the
/// handle and the display fields.
pub proof fn lemma_seeded_record_stopped(ids: Seq<Seq<char>>, i: int)
    requires
        0 <= i < ids.len(),
    ensures
        seed_records(ids)[i].status == DeviceStatus::Stopped,
        seed_records(ids)[i].id == ids[i],
        seed_records(ids)[i].name == ids[i],
        seed_records(ids)[i].device_type == ids[i],
        seed_records(ids)[i].os_version == Seq::<char>::empty(),
{
}

/// A live session whose queried name matches a configured record marks
/// that record — the first so named — running under the session serial,
/// and leaves every other record unchanged.
pub proof fn lemma_session_marks_running(
    rs: Seq<DeviceView>,
    serial: Seq<char>,
    name: Seq<char>,
    i: int,
)
    requires
        0 <= i < rs.len(),
        rs[i].name == name,
        forall|j: int| 0 <= j < i ==> rs[j].name != name,
    ensures
        apply_name_match(rs, serial, name).len() == rs.len(),
        apply_name_match(rs, serial, name)[i].status == DeviceStatus::Running,
        apply_name_match(rs, serial, name)[i].id == serial,
        apply_name_match(rs, serial, name)[i].name == rs[i].name,
        forall|j: int|
            0 <= j < rs.len() && j != i ==> apply_name_match(rs, serial, name)[j] == rs[j],
{
    lemma_find_match(rs, name);
    let f = find_match(rs, name);
    if f < 0 {
        assert(rs[i].name != name);
        assert(false);
    }
    if f < i {
        assert(rs[f].name != name);
        assert(false);
    }
    if f > i {
        assert(rs[i].name != name);
        assert(false);
    }
}

/// A session that matches no configured name changes nothing, so
/// unmatched sessions never appear in the reconciled view.
pub proof fn lemma_unmatched_session_drops(rs: Seq<DeviceView>, serial: Seq<char>, name: Seq<char>)
    requires
        forall|j: int| 0 <= j < rs.len() ==> rs[j].name != name,
    ensures
        apply_name_match(rs, serial, name) == rs,
{
    lemma_find_match(rs, name);
    let f = find_match(rs, name);
    if f >= 0 {
        assert(rs[f].name != name);
        assert(false);
    }
}

/// Reconciliation neither invents nor loses records: the configured
/// name, device class and OS version of every record persist through
/// any session list; only the status and the handle can change.
pub proof fn lemma_reconcile_preserves_identities(rs: Seq<DeviceView>, svs: Seq<SessionView>)
    ensures
        reconcile_spec(rs, svs).len() == rs.len(),
        forall|i: int|
            0 <= i < rs.len() ==> #[trigger] reconcile_spec(rs, svs)[i].name == rs[i].name
                && reconcile_spec(rs, svs)[i].device_type == rs[i].device_type && reconcile_spec(
                rs,
                svs,
            )[i].os_version == rs[i].os_version,
    decreases svs.len(),
{
    if svs.len() == 0 {
    } else {
        lemma_reconcile_preserves_identities(rs, svs.drop_last());
        let prev = reconcile_spec(rs, svs.drop_last());
        let sv = svs.last();
        if sv.name_reply.len() == 0 {
        } else {
            let name = trimmed(lines_of(sv.name_reply)[0]);
            lemma_find_match(prev, name);
        }
    }
}

/// End to end for one live session over a seeded idle list: a session
/// whose queried name — the trimmed first line of its reply — equals
/// identity `i` (the first of that name, matched by case-sensitive exact
/// equality) leaves exactly that record running, its handle replaced by
/// the session serial and its configured name kept, and every other
/// record as seeded.
pub proof fn lemma_live_session_reconciled(ids: Seq<Seq<char>>, sv: SessionView, i: int)
    requires
        0 <= i < ids.len(),
        sv.name_reply.len() > 0,
        trimmed(lines_of(sv.name_reply)[0]) == ids[i],
        forall|j: int| 0 <= j < i ==> ids[j] != ids[i],
    ensures
        reconcile_spec(seed_records(ids), seq![sv]).len() == ids.len(),
        reconcile_spec(seed_records(ids), seq![sv])[i].status == DeviceStatus::Running,
        reconcile_spec(seed_records(ids), seq![sv])[i].id == sv.serial,
        reconcile_spec(seed_records(ids), seq![sv])[i].name == ids[i],
        forall|j: int|
            0 <= j < ids.len() && j != i ==> reconcile_spec(seed_records(ids), seq![sv])[j]
                == seed_records(ids)[j],
{
    let rs = seed_records(ids);
    let name = trimmed(lines_of(sv.name_reply)[0]);
    assert(seq![sv].drop_last() =~= Seq::<SessionView>::empty());
    assert(seq![sv].len() == 1);
    assert(seq![sv].last() == sv);
    assert(reconcile_spec(rs, Seq::<SessionView>::empty()) == rs);
    assert(reconcile_spec(rs, seq![sv]) == apply_reply(reconcile_spec(rs, seq![sv].drop_last()), sv));
    assert(reconcile_spec(rs, seq![sv]) == apply_name_match(rs, sv.serial, name));
    assert(rs[i].name == name);
    assert forall|j: int| 0 <= j < i implies rs[j].name != name by {
        assert(rs[j].name == ids[j]);
    }
    lemma_session_marks_running(rs, sv.serial, name, i);
}

/// The general form over a whole session list: record `i` — the first
/// of its configured name — is marked running by the last session whose
/// name query names it, and its operational handle becomes that
/// session's serial; the configured name itself is kept.  Sessions after
/// that one never name the record, so they cannot disturb it.
pub proof fn lemma_reconcile_last_match(
    rs: Seq<DeviceView>,
    svs: Seq<SessionView>,
    k: int,
    i: int,
)
    requires
        0 <= i < rs.len(),
        0 <= k < svs.len(),
        session_names(svs[k], rs[i].name),
        forall|j: int| 0 <= j < i ==> rs[j].name != rs[i].name,
        forall|l: int| k < l < svs.len() ==> !session_names(#[trigger] svs[l], rs[i].name),
    ensures
        reconcile_spec(rs, svs)[i].status == DeviceStatus::Running,
        reconcile_spec(rs, svs)[i].id == svs[k].serial,
        reconcile_spec(rs, svs)[i].name == rs[i].name,
    decreases svs.len(),
{
    let name = rs[i].name;
    let shorter = svs.drop_last();
    let prev = reconcile_spec(rs, shorter);
    lemma_reconcile_preserves_identities(rs, shorter);
    assert(prev[i].name == name);
    assert forall|j: int| 0 <= j < i implies prev[j].name != name by {
        assert(prev[j].name == rs[j].name);
    }
    let last = svs.last();
    if k == svs.len() - 1 {
        assert(session_names(last, name));
        let qname = trimmed(lines_of(last.name_reply)[0]);
        lemma_session_marks_running(prev, last.serial, qname, i);
        assert(reconcile_spec(rs, svs) == apply_name_match(prev, last.serial, qname));
    } else {
        assert(forall|l: int| 0 <= l < shorter.len() ==> shorter[l] == svs[l]);
        lemma_reconcile_last_match(rs, shorter, k, i);
        assert(!session_names(last, name));
        if last.name_reply.len() == 0 {
            assert(reconcile_spec(rs, svs) == prev);
        } else {
            let qname = trimmed(lines_of(last.name_reply)[0]);
            assert(qname != name);
            assert(reconcile_spec(rs, svs) == apply_name_match(prev, last.serial, qname));
            lemma_find_match(prev, qname);
            let f = find_match(prev, qname);
            if f >= 0 {
                assert(prev[f].name == qname);
                assert(f != i);
                assert(apply_name_match(prev, last.serial, qname)[i] == prev[i]);
            }
        }
    }
}

/// Substring matching behind the stop operation: the prefixed needle
/// extends the identity, so it can only occur where the identity itself
/// occurs.  A session line that nowhere holds the identity is therefore
/// never accepted, and stopping must report device-not-found.
pub proof fn lemma_stop_needs_substring(line: Seq<char>, id: Seq<char>)
    requires
        !has_substring(line, id),
    ensures
        !stop_line_matches(line, id),
{
    let e = "emulator-"@;
    if has_substring(line, e + id) {
        let i = choose|i: int| contains_at(line, e + id, i);
        assert(line.subrange(i, i + (e + id).len() as int) == e + id);
        assert forall|k: int| 0 <= k < id.len() implies line[i + e.len() + k] == id[k] by {
            assert((e + id)[e.len() + k] == id[k]);
            assert(line.subrange(i, i + (e + id).len() as int)[e.len() + k] == line[i + e.len()
                + k]);
        }
        assert(line.subrange(i + e.len(), i + e.len() + id.len() as int) =~= id);
        assert(contains_at(line, id, i + e.len()));
        assert(false);
    }
}

/// Lifted to a whole session listing: when no line holds the identity
/// as a substring, no line is accepted for the stop operation.
pub proof fn lemma_stop_not_found(lines: Seq<Seq<char>>, id: Seq<char>)
    requires
        forall|i: int| 0 <= i < lines.len() ==> !has_substring(#[trigger] lines[i], id),
    ensures
        forall|i: int| 0 <= i < lines.len() ==> !stop_line_matches(#[trigger] lines[i], id),
{
    assert forall|i: int| 0 <= i < lines.len() implies !stop_line_matches(
        #[trigger] lines[i],
        id,
    ) by {
        lemma_stop_needs_substring(lines[i], id);
    }
}

} // verus!
