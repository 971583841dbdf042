//! The reconciled device view: seeding records from the idle-image
//! listing, parsing the live-session listing, and marking records whose
//! configured name matches a live session as running.

use vstd::prelude::*;
use crate::text::{
    contains_str, first_token, first_token_str, has_substring, lemma_lines_of_len, lines_of,
    lines_str, trim_str, trimmed,
};

verus! {

/// Run state of a device record.
#[derive(Debug, Clone, Copy, PartialEq, Eq, Structural)]
pub enum DeviceStatus {
    Stopped,
    Running,
}

/// The reconciled record of one configured image.  While the device is
/// stopped, `id` is the configured name; once a live session is matched,
/// `id` becomes the session's serial token, the operational handle for
/// stop and screenshot.
#[derive(Debug, Clone, PartialEq, Eq)]
pub struct AndroidEmulator {
    pub id: String,
    pub name: String,
    pub device_type: String,
    pub os_version: String,
    pub status: DeviceStatus,
}

/// Mathematical view of a device record.
#[verifier::ext_equal]
pub struct DeviceView {
    pub id: Seq<char>,
    pub name: Seq<char>,
    pub device_type: Seq<char>,
    pub os_version: Seq<char>,
    pub status: DeviceStatus,
}

impl View for AndroidEmulator {
    type V = DeviceView;

    open spec fn view(&self) -> DeviceView {
        DeviceView {
            id: self.id@,
            name: self.name@,
            device_type: self.device_type@,
            os_version: self.os_version@,
            status: self.status,
        }
    }
}

/// The view of each element of a record sequence.
pub open spec fn dviews(s: Seq<AndroidEmulator>) -> Seq<DeviceView> {
    Seq::new(s.len(), |i: int| s[i]@)
}

/// A freshly seeded idle record: every display field is the identity,
/// no OS version is known, and the status is stopped.
pub open spec fn seed_record(id: Seq<char>) -> DeviceView {
    DeviceView {
        id: id,
        name: id,
        device_type: id,
        os_version: Seq::empty(),
        status: DeviceStatus::Stopped,
    }
}

/// The identities in an idle-image listing: the trimmed non-empty lines,
/// in order.
pub open spec fn idle_ids(lines: Seq<Seq<char>>) -> Seq<Seq<char>>
    decreases lines.len(),
{
    if lines.len() == 0 {
        Seq::empty()
    } else {
        let rest = idle_ids(lines.drop_last());
        if trimmed(lines.last()).len() > 0 {
            rest.push(trimmed(lines.last()))
        } else {
            rest
        }
    }
}

/// One seeded record per identity, in order.
pub open spec fn seed_records(ids: Seq<Seq<char>>) -> Seq<DeviceView> {
    Seq::new(ids.len(), |i: int| seed_record(ids[i]))
}

/// Parses the idle-image listing: each non-empty line, trimmed, becomes
/// exactly one stopped record whose identity is that line.
pub fn parse_avd_list(stdout: &str) -> (r: Vec<AndroidEmulator>)
    ensures
        dviews(r@) == seed_records(idle_ids(lines_of(stdout@))),
{
    let lines = lines_str(stdout);
    let mut result: Vec<AndroidEmulator> = Vec::new();
    let mut i: usize = 0;
    proof {
        assert(lines_of(stdout@).subrange(0, 0) =~= Seq::<Seq<char>>::empty());
        assert(dviews(result@) =~~= seed_records(idle_ids(lines_of(stdout@).subrange(0, 0))));
    }
    while i < lines.len()
        invariant
            0 <= i <= lines@.len(),
            lines@.len() == lines_of(stdout@).len(),
            forall|j: int| 0 <= j < lines@.len() ==> lines@[j]@ == lines_of(stdout@)[j],
            dviews(result@) == seed_records(idle_ids(lines_of(stdout@).subrange(0, i as int))),
        decreases lines@.len() - i,
    {
        let name = trim_str(lines[i].as_str());
        proof {
            let pref = lines_of(stdout@).subrange(0, i as int);
            let prefi = lines_of(stdout@).subrange(0, i as int + 1);
            assert(prefi.drop_last() =~= pref);
            assert(prefi.last() == lines_of(stdout@)[i as int]);
        }
        if !name.as_str().is_empty() {
            let record = AndroidEmulator {
                id: name.clone(),
                name: name.clone(),
                device_type: name,
                os_version: String::new(),
                status: DeviceStatus::Stopped,
            };
            let ghost rv = record@;
            let ghost res0 = result@;
            result.push(record);
            proof {
                let lsall = lines_of(stdout@);
                let pref = lsall.subrange(0, i as int);
                let prefi = lsall.subrange(0, i as int + 1);
                assert(trimmed(prefi.last()) == name@);
                assert(idle_ids(prefi) == idle_ids(pref).push(name@));
                assert(rv == seed_record(name@));
                assert(dviews(res0).len() == res0.len());
                assert(seed_records(idle_ids(pref)).len() == idle_ids(pref).len());
                assert(res0.len() == idle_ids(pref).len());
                assert(result@.len() == idle_ids(prefi).len());
                assert forall|k: int| 0 <= k < result@.len() implies dviews(result@)[k]
                    == seed_records(idle_ids(prefi))[k] by {
                    assert(dviews(result@)[k] == result@[k]@);
                    assert(seed_records(idle_ids(prefi))[k] == seed_record(idle_ids(prefi)[k]));
                    if k < res0.len() {
                        assert(result@[k] == res0[k]);
                        assert(dviews(res0)[k] == res0[k]@);
                        assert(dviews(res0)[k] == seed_records(idle_ids(pref))[k]);
                        assert(idle_ids(prefi)[k] == idle_ids(pref)[k]);
                    } else {
                        assert(result@[k]@ == rv);
                        assert(idle_ids(prefi)[k] == name@);
                    }
                }
                assert(dviews(result@) =~~= seed_records(
                    idle_ids(lines_of(stdout@).subrange(0, i as int + 1)),
                ));
            }
        } else {
            proof {
                assert(dviews(result@) =~~= seed_records(
                    idle_ids(lines_of(stdout@).subrange(0, i as int + 1)),
                ));
            }
        }
        i = i + 1;
    }
    proof {
        assert(lines_of(stdout@).subrange(0, lines_of(stdout@).len() as int) =~= lines_of(
            stdout@,
        ));
    }
    result
}

/// True of a line of the session listing that names a live, attached
/// session: it holds the session marker and the attached marker, and it
/// has a leading token to serve as the serial.
pub open spec fn session_line(line: Seq<char>) -> bool {
    has_substring(line, "emulator-"@) && has_substring(line, "device"@) && first_token(
        line,
    ).len() > 0
}

/// The serial tokens of the live-session lines, in order.
pub open spec fn session_serials(lines: Seq<Seq<char>>) -> Seq<Seq<char>>
    decreases lines.len(),
{
    if lines.len() == 0 {
        Seq::empty()
    } else {
        let rest = session_serials(lines.drop_last());
        if session_line(lines.last()) {
            rest.push(first_token(lines.last()))
        } else {
            rest
        }
    }
}

/// Parses the session listing: the first whitespace-delimited token of
/// every line that carries both the session marker and the attached
/// marker, in order.
pub fn parse_session_serials(stdout: &str) -> (r: Vec<String>)
    ensures
        r@.len() == session_serials(lines_of(stdout@)).len(),
        forall|i: int| 0 <= i < r@.len() ==> r@[i]@ == session_serials(lines_of(stdout@))[i],
{
    let lines = lines_str(stdout);
    let mut result: Vec<String> = Vec::new();
    let mut i: usize = 0;
    proof {
        assert(lines_of(stdout@).subrange(0, 0) =~= Seq::<Seq<char>>::empty());
    }
    while i < lines.len()
        invariant
            0 <= i <= lines@.len(),
            lines@.len() == lines_of(stdout@).len(),
            forall|j: int| 0 <= j < lines@.len() ==> lines@[j]@ == lines_of(stdout@)[j],
            result@.len() == session_serials(lines_of(stdout@).subrange(0, i as int)).len(),
            forall|j: int|
                0 <= j < result@.len() ==> result@[j]@ == session_serials(
                    lines_of(stdout@).subrange(0, i as int),
                )[j],
        decreases lines@.len() - i,
    {
        proof {
            let pref = lines_of(stdout@).subrange(0, i as int);
            let prefi = lines_of(stdout@).subrange(0, i as int + 1);
            assert(prefi.drop_last() =~= pref);
            assert(prefi.last() == lines_of(stdout@)[i as int]);
        }
        let line = &lines[i];
        if contains_str(line.as_str(), "emulator-") && contains_str(line.as_str(), "device") {
            match first_token_str(line.as_str()) {
                Some(token) => {
                    result.push(token);
                },
                None => {},
            }
        }
        i = i + 1;
    }
    proof {
        assert(lines_of(stdout@).subrange(0, lines_of(stdout@).len() as int) =~= lines_of(
            stdout@,
        ));
    }
    result
}

/// Parses the reply of the per-session name query: the first line of the
/// output, trimmed, is the configured-image name; an empty reply names
/// nothing.
pub fn parse_avd_name_reply(reply: &str) -> (r: Option<String>)
    ensures
        match r {
            None => reply@.len() == 0,
            Some(t) => reply@.len() > 0 && t@ == trimmed(lines_of(reply@)[0]),
        },
{
    if reply.unicode_len() == 0 {
        None
    } else {
        let lines = lines_str(reply);
        proof {
            lemma_lines_of_len(reply@);
        }
        Some(trim_str(lines[0].as_str()))
    }
}

/// The index of the first record whose configured name equals `name`, or
/// a negative value when none does.
pub open spec fn find_match(rs: Seq<DeviceView>, name: Seq<char>) -> int
    decreases rs.len(),
{
    if rs.len() == 0 {
        -1
    } else if rs[0].name == name {
        0
    } else {
        let r = find_match(rs.drop_first(), name);
        if r < 0 {
            -1
        } else {
            1 + r
        }
    }
}

/// What [`find_match`] returns: a negative value exactly when no record
/// matches, and otherwise the first matching index.
pub proof fn lemma_find_match(rs: Seq<DeviceView>, name: Seq<char>)
    ensures
        -1 <= find_match(rs, name) < rs.len(),
        find_match(rs, name) >= 0 ==> rs[find_match(rs, name)].name == name,
        find_match(rs, name) >= 0 ==> forall|j: int|
            0 <= j < find_match(rs, name) ==> rs[j].name != name,
        find_match(rs, name) < 0 ==> forall|j: int| 0 <= j < rs.len() ==> rs[j].name != name,
    decreases rs.len(),
{
    if rs.len() == 0 {
    } else if rs[0].name == name {
    } else {
        let t = rs.drop_first();
        lemma_find_match(t, name);
        if find_match(t, name) >= 0 {
            assert forall|j: int| 0 <= j < find_match(rs, name) implies rs[j].name != name by {
                if j > 0 {
                    assert(rs[j] == t[j - 1]);
                }
            }
        } else {
            assert forall|j: int| 0 <= j < rs.len() implies rs[j].name != name by {
                if j > 0 {
                    assert(rs[j] == t[j - 1]);
                }
            }
        }
    }
}

/// The record as it stands once a live session is matched to it: the
/// handle becomes the session serial and the status becomes running.
pub open spec fn mark_running(d: DeviceView, serial: Seq<char>) -> DeviceView {
    DeviceView {
        id: serial,
        name: d.name,
        device_type: d.device_type,
        os_version: d.os_version,
        status: DeviceStatus::Running,
    }
}

/// Applies one matched session: the first record whose name equals
/// `name` is marked running under `serial`; with no match, nothing
/// changes.
pub open spec fn apply_name_match(rs: Seq<DeviceView>, serial: Seq<char>, name: Seq<char>) -> Seq<
    DeviceView,
> {
    let i = find_match(rs, name);
    if i < 0 {
        rs
    } else {
        rs.update(i, mark_running(rs[i], serial))
    }
}

/// Marks the first record named `name` as running under `serial`, per
/// [`apply_name_match`].
pub fn apply_session(emus: &mut Vec<AndroidEmulator>, serial: &String, name: &String)
    ensures
        dviews(final(emus)@) == apply_name_match(dviews(old(emus)@), serial@, name@),
{
    proof {
        lemma_find_match(dviews(emus@), name@);
    }
    let mut i: usize = 0;
    while i < emus.len()
        invariant
            0 <= i <= emus@.len(),
            emus@ == old(emus)@,
            forall|j: int| 0 <= j < i ==> dviews(emus@)[j].name != name@,
        decreases emus@.len() - i,
    {
        if emus[i].name == *name {
            proof {
                let rs0 = dviews(emus@);
                lemma_find_match(rs0, name@);
                assert(rs0[i as int].name == name@);
                assert(find_match(rs0, name@) == i as int);
            }
            let record = AndroidEmulator {
                id: serial.clone(),
                name: emus[i].name.clone(),
                device_type: emus[i].device_type.clone(),
                os_version: emus[i].os_version.clone(),
                status: DeviceStatus::Running,
            };
            emus[i] = record;
            proof {
                assert(dviews(emus@) =~~= apply_name_match(dviews(old(emus)@), serial@, name@));
            }
            return;
        }
        i = i + 1;
    }
    proof {
        let rs0 = dviews(emus@);
        lemma_find_match(rs0, name@);
        if find_match(rs0, name@) >= 0 {
            assert(rs0[find_match(rs0, name@)].name != name@);
            assert(false);
        }
    }
}

/// One live session as handed back by the listing tools: the serial
/// token of its listing line, and the raw reply of its name query.
#[derive(Debug, Clone)]
pub struct Session {
    pub serial: String,
    pub name_reply: String,
}

/// Mathematical view of a live session.
#[verifier::ext_equal]
pub struct SessionView {
    pub serial: Seq<char>,
    pub name_reply: Seq<char>,
}

impl View for Session {
    type V = SessionView;

    open spec fn view(&self) -> SessionView {
        SessionView { serial: self.serial@, name_reply: self.name_reply@ }
    }
}

/// The view of each element of a session sequence.
pub open spec fn session_views(s: Seq<Session>) -> Seq<SessionView> {
    Seq::new(s.len(), |i: int| s[i]@)
}

/// True when the session's name query names `name`: the reply is
/// non-empty and its trimmed first line equals `name`.
pub open spec fn session_names(sv: SessionView, name: Seq<char>) -> bool {
    sv.name_reply.len() > 0 && trimmed(lines_of(sv.name_reply)[0]) == name
}

/// Applies one session from its raw name reply: an empty reply names
/// nothing and changes nothing; otherwise the trimmed first line of the
/// reply is matched against the configured names.
pub open spec fn apply_reply(rs: Seq<DeviceView>, sv: SessionView) -> Seq<DeviceView> {
    if sv.name_reply.len() == 0 {
        rs
    } else {
        apply_name_match(rs, sv.serial, trimmed(lines_of(sv.name_reply)[0]))
    }
}

/// The reconciled view: the seeded records with every session applied in
/// order.  A session that matches no configured name leaves the list
/// unchanged and never appears in the result.
pub open spec fn reconcile_spec(rs: Seq<DeviceView>, svs: Seq<SessionView>) -> Seq<DeviceView>
    decreases svs.len(),
{
    if svs.len() == 0 {
        rs
    } else {
        apply_reply(reconcile_spec(rs, svs.drop_last()), svs.last())
    }
}

/// Builds the unified device list: one stopped record per idle identity,
/// then each live session, in order, marks its configured image as
/// running under the session serial.  With no sessions — for instance
/// when the session-listing tool is unavailable — the idle set is
/// returned in full, all stopped.
pub fn list_android_emulators(avd_stdout: &str, sessions: &Vec<Session>) -> (r: Vec<
    AndroidEmulator,
>)
    ensures
        dviews(r@) == reconcile_spec(
            seed_records(idle_ids(lines_of(avd_stdout@))),
            session_views(sessions@),
        ),
{
    let mut emus = parse_avd_list(avd_stdout);
    let mut k: usize = 0;
    proof {
        assert(session_views(sessions@).subrange(0, 0) =~= Seq::<SessionView>::empty());
    }
    while k < sessions.len()
        invariant
            0 <= k <= sessions@.len(),
            dviews(emus@) == reconcile_spec(
                seed_records(idle_ids(lines_of(avd_stdout@))),
                session_views(sessions@).subrange(0, k as int),
            ),
        decreases sessions@.len() - k,
    {
        proof {
            let svsall = session_views(sessions@);
            assert(svsall.subrange(0, k as int + 1).drop_last() =~= svsall.subrange(0, k as int));
            assert(svsall.subrange(0, k as int + 1).last() == svsall[k as int]);
        }
        match parse_avd_name_reply(sessions[k].name_reply.as_str()) {
            Some(name) => {
                apply_session(&mut emus, &sessions[k].serial, &name);
            },
            None => {},
        }
        k = k + 1;
    }
    proof {
        assert(session_views(sessions@).subrange(0, sessions@.len() as int) =~= session_views(
            sessions@,
        ));
    }
    emus
}

} // verus!
