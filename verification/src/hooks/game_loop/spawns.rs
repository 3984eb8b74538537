//! Spawns: the created and destroyed events between two spawn snapshots,
//! and the choice of the spawn a `/follow` follows.
use vstd::prelude::*;
use std::collections::HashMap;
use vstd::std_specs::iter::IteratorSpec;
use crate::text::{chars_of, eq_ic, eq_ignore_case, eq_ignore_case_str, lit, push_chars, push_char, trim, trim_chars, strings_view};

verus! {

broadcast use vstd::std_specs::hash::group_hash_axioms;

/// The part of a spawn that naming and tracking read.
#[derive(Debug, Clone)]
pub struct SpawnInfo {
    pub spawn_id: u32,
    pub spawn_type: u8,
    pub name: String,
    pub displayed_name: String,
}

/// Whether a spawn appeared or went away.
#[derive(Debug, Clone, Copy, PartialEq, Eq, Structural)]
pub enum SpawnDeltaKind {
    Created,
    Destroyed,
}

/// One change between two snapshots.
#[derive(Debug, Clone)]
pub struct SpawnDelta {
    pub spawn_id: u32,
    pub spawn_name: String,
    pub spawn_type: u8,
    pub kind: SpawnDeltaKind,
    pub zone: String,
    pub timestamp_ms: u64,
}

/// The snapshot of a spawn list: id to displayed name and spawn type, for
/// every spawn with a non-zero id (a later spawn with the same id wins).
pub open spec fn snapshot(s: Seq<SpawnInfo>) -> Map<u32, (Seq<char>, u8)>
    decreases s.len(),
{
    if s.len() == 0 {
        Map::empty()
    } else {
        let p = snapshot(s.drop_last());
        if s.last().spawn_id == 0 {
            p
        } else {
            p.insert(s.last().spawn_id, (s.last().displayed_name@, s.last().spawn_type))
        }
    }
}

/// A map of names (taken by view) and types.
pub open spec fn names_view(m: Map<u32, (String, u8)>) -> Map<u32, (Seq<char>, u8)> {
    Map::new(|k: u32| m.dom().contains(k), |k: u32| (m[k].0@, m[k].1))
}

/// The events between snapshot `p` and snapshot `n`: none when `p` is empty
/// (the first snapshot is the baseline); otherwise one `Created` event for
/// each id only in `n` (with its new name and type), then one `Destroyed`
/// event for each id only in `p` (with its old name and type).
pub open spec fn delta_spec(p: Map<u32, (Seq<char>, u8)>, n: Map<u32, (Seq<char>, u8)>, ev: Seq<SpawnDelta>) -> bool {
    &&& p.dom().is_empty() ==> ev.len() == 0
    &&& forall|i: int| 0 <= i < ev.len() && ev[i].kind == SpawnDeltaKind::Created ==> n.contains_key(
        #[trigger] ev[i].spawn_id,
    ) && !p.contains_key(ev[i].spawn_id) && (ev[i].spawn_name@, ev[i].spawn_type) == n[ev[i].spawn_id]
    &&& forall|i: int| 0 <= i < ev.len() && ev[i].kind == SpawnDeltaKind::Destroyed ==> p.contains_key(
        #[trigger] ev[i].spawn_id,
    ) && !n.contains_key(ev[i].spawn_id) && (ev[i].spawn_name@, ev[i].spawn_type) == p[ev[i].spawn_id]
    &&& forall|i: int, j: int| 0 <= i < j < ev.len() ==> #[trigger] ev[i].spawn_id != #[trigger] ev[j].spawn_id
    &&& forall|i: int, j: int|
        0 <= i < j < ev.len() && #[trigger] ev[i].kind == SpawnDeltaKind::Destroyed ==> #[trigger] ev[j].kind
            == SpawnDeltaKind::Destroyed
    &&& !p.dom().is_empty() ==> forall|id: u32|
        n.contains_key(id) && !p.contains_key(id) ==> exists|i: int|
            0 <= i < ev.len() && #[trigger] ev[i].spawn_id == id && ev[i].kind == SpawnDeltaKind::Created
    &&& !p.dom().is_empty() ==> forall|id: u32|
        p.contains_key(id) && !n.contains_key(id) ==> exists|i: int|
            0 <= i < ev.len() && #[trigger] ev[i].spawn_id == id && ev[i].kind == SpawnDeltaKind::Destroyed
}

fn map_keys(m: &HashMap<u32, (String, u8)>) -> (r: Vec<u32>)
    ensures
        r@.to_set() == m@.dom(),
        r@.no_duplicates(),
{
    let mut out: Vec<u32> = Vec::new();
    let keys = m.keys();
    let ghost all = keys.remaining().map_values(|k: &u32| *k);
    proof {
        assert(keys.remaining().unref() =~= all);
    }
    for k in it: keys
        invariant
            it.seq().map_values(|k: &u32| *k) == all,
            out@ == all.subrange(0, it.index() as int),
    {
        proof {
            assert(all.subrange(0, it.index() + 1) =~= all.subrange(0, it.index() as int).push(*k));
        }
        out.push(*k);
    }
    proof {
        assert(out@ =~= all);
    }
    out
}

/// Diff the spawn list against the previous snapshot: the new snapshot, and
/// the created and destroyed events (none on the first snapshot), each
/// stamped with the zone and the time of the diff.
#[verifier::rlimit(40)]
pub fn compute_spawn_delta_events(
    previous: &HashMap<u32, (String, u8)>,
    current: &[SpawnInfo],
    zone: String,
    timestamp_ms: u64,
) -> (r: (HashMap<u32, (String, u8)>, Vec<SpawnDelta>))
    ensures
        names_view(r.0@) == snapshot(current@),
        delta_spec(names_view(previous@), snapshot(current@), r.1@),
        forall|i: int| 0 <= i < r.1@.len() ==> (#[trigger] r.1@[i]).zone@ == zone@ && r.1@[i].timestamp_ms
            == timestamp_ms,
{
    let mut next: HashMap<u32, (String, u8)> = HashMap::new();
    let mut i: usize = 0;
    while i < current.len()
        invariant
            0 <= i <= current@.len(),
            names_view(next@) == snapshot(current@.take(i as int)),
        decreases current@.len() - i,
    {
        let s = &current[i];
        proof {
            assert(current@.take(i + 1).drop_last() =~= current@.take(i as int));
        }
        if s.spawn_id != 0 {
            next.insert(s.spawn_id, (s.displayed_name.clone(), s.spawn_type));
            proof {
                assert(names_view(next@) =~= snapshot(current@.take(i as int)).insert(
                    s.spawn_id,
                    (s.displayed_name@, s.spawn_type),
                ));
            }
        }
        i = i + 1;
    }
    proof {
        assert(current@.take(current@.len() as int) =~= current@);
    }
    let ghost pv = names_view(previous@);
    let ghost nv = names_view(next@);
    let mut events: Vec<SpawnDelta> = Vec::new();
    if previous.is_empty() {
        proof {
            assert(pv.dom() =~= previous@.dom());
            assert(events@.len() == 0);
        }
        let r = (next, events);
        assert(r.1@.len() == 0);
        return r;
    }
    proof {
        assert(pv.dom() =~= previous@.dom());
        assert(nv.dom() =~= next@.dom());
    }
    let next_keys = map_keys(&next);
    let mut k: usize = 0;
    while k < next_keys.len()
        invariant
            0 <= k <= next_keys@.len(),
            next_keys@.to_set() == next@.dom(),
            next_keys@.no_duplicates(),
            pv == names_view(previous@),
            nv == names_view(next@),
            pv.dom() == previous@.dom(),
            nv.dom() == next@.dom(),
            forall|e: int| 0 <= e < events@.len() ==> #[trigger] events@[e].kind == SpawnDeltaKind::Created,
            forall|e: int| 0 <= e < events@.len() ==> exists|j: int| 0 <= j < k && next_keys@[j] == #[trigger] events@[e].spawn_id,
            forall|e: int| 0 <= e < events@.len() ==> nv.contains_key(#[trigger] events@[e].spawn_id) && !pv.contains_key(
                events@[e].spawn_id,
            ) && (events@[e].spawn_name@, events@[e].spawn_type) == nv[events@[e].spawn_id],
            forall|e: int| 0 <= e < events@.len() ==> #[trigger] events@[e].zone@ == zone@ && events@[e].timestamp_ms == timestamp_ms,
            forall|a: int, b: int| 0 <= a < b < events@.len() ==> #[trigger] events@[a].spawn_id != #[trigger] events@[b].spawn_id,
            forall|j: int| 0 <= j < k && !pv.contains_key(#[trigger] next_keys@[j]) ==> exists|e: int|
                0 <= e < events@.len() && events@[e].spawn_id == next_keys@[j],
        decreases next_keys@.len() - k,
    {
        let id = next_keys[k];
        proof {
            assert(next_keys@.to_set().contains(id));
        }
        if !previous.contains_key(&id) {
            let (name, spawn_type) = match next.get(&id) {
                Some(v) => (v.0.clone(), v.1),
                None => (String::new(), 0),
            };
            let ghost before = events@;
            proof {
                assert forall|e: int| 0 <= e < before.len() implies #[trigger] before[e].spawn_id != id by {
                    let j = choose|j: int| 0 <= j < k && next_keys@[j] == before[e].spawn_id;
                    assert(next_keys@[j] != next_keys@[k as int]);
                }
            }
            events.push(
                SpawnDelta {
                    spawn_id: id,
                    spawn_name: name,
                    spawn_type,
                    kind: SpawnDeltaKind::Created,
                    zone: zone.clone(),
                    timestamp_ms,
                },
            );
            proof {
                assert forall|e: int| 0 <= e < events@.len() implies #[trigger] events@[e].zone@ == zone@
                    && events@[e].timestamp_ms == timestamp_ms by {
                    if e < before.len() {
                        assert(events@[e] == before[e]);
                    }
                }
                assert(events@[before.len() as int].spawn_id == next_keys@[k as int]);
                assert forall|e: int| 0 <= e < events@.len() implies exists|j: int| 0 <= j < k + 1 && next_keys@[j] == #[trigger] events@[e].spawn_id by {
                    if e < before.len() {
                        assert(events@[e] == before[e]);
                        let j = choose|j: int| 0 <= j < k && next_keys@[j] == before[e].spawn_id;
                    } else {
                        assert(next_keys@[k as int] == events@[e].spawn_id);
                    }
                }
                assert forall|j: int| 0 <= j < k + 1 && !pv.contains_key(#[trigger] next_keys@[j]) implies exists|e: int|
                    0 <= e < events@.len() && events@[e].spawn_id == next_keys@[j] by {
                    if j < k {
                        let e = choose|e: int| 0 <= e < before.len() && before[e].spawn_id == next_keys@[j];
                        assert(events@[e] == before[e]);
                    } else {
                        assert(events@[before.len() as int].spawn_id == next_keys@[j]);
                    }
                }
            }
        }
        k = k + 1;
    }
    let created = events.len();
    let prev_keys = map_keys(previous);
    let mut k: usize = 0;
    while k < prev_keys.len()
        invariant
            0 <= k <= prev_keys@.len(),
            created <= events@.len(),
            prev_keys@.to_set() == previous@.dom(),
            prev_keys@.no_duplicates(),
            next_keys@.to_set() == next@.dom(),
            pv == names_view(previous@),
            nv == names_view(next@),
            pv.dom() == previous@.dom(),
            nv.dom() == next@.dom(),
            forall|e: int| 0 <= e < created ==> #[trigger] events@[e].kind == SpawnDeltaKind::Created,
            forall|e: int| created <= e < events@.len() ==> #[trigger] events@[e].kind == SpawnDeltaKind::Destroyed,
            forall|e: int| 0 <= e < created ==> nv.contains_key(#[trigger] events@[e].spawn_id) && !pv.contains_key(
                events@[e].spawn_id,
            ) && (events@[e].spawn_name@, events@[e].spawn_type) == nv[events@[e].spawn_id],
            forall|e: int| created <= e < events@.len() ==> pv.contains_key(#[trigger] events@[e].spawn_id) && !nv.contains_key(
                events@[e].spawn_id,
            ) && (events@[e].spawn_name@, events@[e].spawn_type) == pv[events@[e].spawn_id],
            forall|e: int| 0 <= e < events@.len() ==> #[trigger] events@[e].zone@ == zone@ && events@[e].timestamp_ms == timestamp_ms,
            forall|e: int| created <= e < events@.len() ==> exists|j: int| 0 <= j < k && prev_keys@[j] == #[trigger] events@[e].spawn_id,
            forall|a: int, b: int| 0 <= a < b < events@.len() ==> #[trigger] events@[a].spawn_id != #[trigger] events@[b].spawn_id,
            forall|j: int| 0 <= j < next_keys@.len() && !pv.contains_key(#[trigger] next_keys@[j]) ==> exists|e: int|
                0 <= e < created && events@[e].spawn_id == next_keys@[j],
            forall|j: int| 0 <= j < k && !nv.contains_key(#[trigger] prev_keys@[j]) ==> exists|e: int|
                created <= e < events@.len() && events@[e].spawn_id == prev_keys@[j],
        decreases prev_keys@.len() - k,
    {
        let id = prev_keys[k];
        proof {
            assert(prev_keys@.to_set().contains(id));
        }
        if !next.contains_key(&id) {
            let (name, spawn_type) = match previous.get(&id) {
                Some(v) => (v.0.clone(), v.1),
                None => (String::new(), 0),
            };
            let ghost before = events@;
            proof {
                assert forall|e: int| 0 <= e < before.len() implies #[trigger] before[e].spawn_id != id by {
                    if e < created {
                        assert(nv.contains_key(before[e].spawn_id));
                    } else {
                        let j = choose|j: int| 0 <= j < k && prev_keys@[j] == before[e].spawn_id;
                        assert(prev_keys@[j] != prev_keys@[k as int]);
                    }
                }
            }
            events.push(
                SpawnDelta {
                    spawn_id: id,
                    spawn_name: name,
                    spawn_type,
                    kind: SpawnDeltaKind::Destroyed,
                    zone: zone.clone(),
                    timestamp_ms,
                },
            );
            proof {
                assert forall|e: int| 0 <= e < events@.len() implies #[trigger] events@[e].zone@ == zone@
                    && events@[e].timestamp_ms == timestamp_ms by {
                    if e < before.len() {
                        assert(events@[e] == before[e]);
                    }
                }
                assert forall|e: int| created <= e < events@.len() implies exists|j: int| 0 <= j < k + 1 && prev_keys@[j] == #[trigger] events@[e].spawn_id by {
                    if e < before.len() {
                        assert(events@[e] == before[e]);
                        let j = choose|j: int| 0 <= j < k && prev_keys@[j] == before[e].spawn_id;
                    } else {
                        assert(prev_keys@[k as int] == events@[e].spawn_id);
                    }
                }
                assert forall|j: int| 0 <= j < k + 1 && !nv.contains_key(#[trigger] prev_keys@[j]) implies exists|e: int|
                    created <= e < events@.len() && events@[e].spawn_id == prev_keys@[j] by {
                    if j < k {
                        let e = choose|e: int| created <= e < before.len() && before[e].spawn_id == prev_keys@[j];
                        assert(events@[e] == before[e]);
                    } else {
                        assert(events@[before.len() as int].spawn_id == prev_keys@[j]);
                    }
                }
                assert forall|j: int| 0 <= j < next_keys@.len() && !pv.contains_key(#[trigger] next_keys@[j]) implies exists|e: int|
                    0 <= e < created && events@[e].spawn_id == next_keys@[j] by {
                    let e = choose|e: int| 0 <= e < created && before[e].spawn_id == next_keys@[j];
                    assert(events@[e] == before[e]);
                }
            }
        }
        k = k + 1;
    }
    proof {
        assert forall|id: u32| nv.contains_key(id) && !pv.contains_key(id) implies exists|i: int|
            0 <= i < events@.len() && #[trigger] events@[i].spawn_id == id && events@[i].kind == SpawnDeltaKind::Created by {
            assert(next_keys@.to_set().contains(id));
            let j = choose|j: int| 0 <= j < next_keys@.len() && next_keys@[j] == id;
            let e = choose|e: int| 0 <= e < created && events@[e].spawn_id == next_keys@[j];
        }
        assert forall|id: u32| pv.contains_key(id) && !nv.contains_key(id) implies exists|i: int|
            0 <= i < events@.len() && #[trigger] events@[i].spawn_id == id && events@[i].kind == SpawnDeltaKind::Destroyed by {
            assert(prev_keys@.to_set().contains(id));
            let j = choose|j: int| 0 <= j < prev_keys@.len() && prev_keys@[j] == id;
            let e = choose|e: int| created <= e < events@.len() && events@[e].spawn_id == prev_keys@[j];
        }
        assert forall|i: int, j: int| 0 <= i < j < events@.len() && #[trigger] events@[i].kind == SpawnDeltaKind::Destroyed implies #[trigger] events@[j].kind
            == SpawnDeltaKind::Destroyed by {
            if i < created {
            } else {
            }
        }
    }
    let ghost evs = events@;
    let r = (next, events);
    assert(r.1@ == evs);
    assert(forall|i: int| 0 <= i < r.1@.len() ==> (#[trigger] r.1@[i]).zone@ == zone@ && r.1@[i].timestamp_ms
        == timestamp_ms);
    r
}

/// A spawn answers to a name when its displayed or real name equals it,
/// ignoring ASCII case.
pub open spec fn matches_name(s: SpawnInfo, leader: Seq<char>) -> bool {
    eq_ic(s.displayed_name@, leader) || eq_ic(s.name@, leader)
}

/// Whether a spawn answers to `leader_name`.
pub fn spawn_matches_name(spawn: &SpawnInfo, leader_name: &[char]) -> (r: bool)
    ensures
        r == matches_name(*spawn, leader_name@),
{
    let d = chars_of(spawn.displayed_name.as_str());
    let n = chars_of(spawn.name.as_str());
    eq_ignore_case(d.as_slice(), leader_name) || eq_ignore_case(n.as_slice(), leader_name)
}

/// The spawn a `/follow` follows.
#[derive(Debug, Clone, Copy, PartialEq, Eq, Structural)]
pub enum FollowPick {
    CurrentTarget,
    Nearby(usize),
}

/// Index `i` is the first nearby spawn answering to `leader`.
pub open spec fn first_match(nearby: Seq<SpawnInfo>, leader: Seq<char>, i: int) -> bool {
    0 <= i < nearby.len() && matches_name(nearby[i], leader) && forall|j: int|
        0 <= j < i ==> !matches_name(#[trigger] nearby[j], leader)
}

/// Choose whom to follow. Without a (non-blank, trimmed) leader name, the
/// current target; with one, the current target if it answers to the name,
/// else the first nearby spawn that does.
pub fn resolve_follow_spawn(current_target: Option<&SpawnInfo>, nearby: &[SpawnInfo], leader_name: Option<&str>) -> (r:
    Option<FollowPick>)
    ensures
        (leader_name is None || trim(leader_name->0@).len() == 0) ==> r == (if current_target is Some {
            Some(FollowPick::CurrentTarget)
        } else {
            None::<FollowPick>
        }),
        leader_name is Some && trim(leader_name->0@).len() > 0 ==> match r {
            Some(FollowPick::CurrentTarget) => current_target matches Some(t) && matches_name(*t, trim(leader_name->0@)),
            Some(FollowPick::Nearby(i)) => !(current_target matches Some(t) && matches_name(*t, trim(leader_name->0@)))
                && first_match(nearby@, trim(leader_name->0@), i as int),
            None => !(current_target matches Some(t) && matches_name(*t, trim(leader_name->0@))) && forall|j: int|
                0 <= j < nearby@.len() ==> !matches_name(#[trigger] nearby@[j], trim(leader_name->0@)),
        },
{
    let leader: Option<Vec<char>> = match leader_name {
        None => None,
        Some(l) => {
            let lc = chars_of(l);
            let t = trim_chars(lc.as_slice());
            if t.len() == 0 {
                None
            } else {
                Some(t)
            }
        },
    };
    match leader {
        None => {
            if current_target.is_some() {
                Some(FollowPick::CurrentTarget)
            } else {
                None
            }
        },
        Some(l) => {
            if let Some(t) = current_target {
                if spawn_matches_name(t, l.as_slice()) {
                    return Some(FollowPick::CurrentTarget);
                }
            }
            let mut i: usize = 0;
            while i < nearby.len()
                invariant
                    0 <= i <= nearby@.len(),
                    leader_name is Some,
                    l@ == trim(leader_name->0@),
                    l@.len() > 0,
                    !(current_target matches Some(t) && matches_name(*t, l@)),
                    forall|j: int| 0 <= j < i ==> !matches_name(#[trigger] nearby@[j], l@),
                decreases nearby@.len() - i,
            {
                if spawn_matches_name(&nearby[i], l.as_slice()) {
                    return Some(FollowPick::Nearby(i));
                }
                i = i + 1;
            }
            None
        },
    }
}

/// A parsed `/follow`.
#[derive(Debug, Clone, PartialEq, Eq)]
pub enum FollowSlashCommand {
    Start { leader_name: Option<String> },
    Off,
}

/// The arguments joined with single spaces.
pub open spec fn join_args(args: Seq<Seq<char>>) -> Seq<char>
    decreases args.len(),
{
    if args.len() == 0 {
        Seq::empty()
    } else if args.len() == 1 {
        args[0]
    } else {
        join_args(args.drop_last()) + seq![' '] + args.last()
    }
}

/// What `/follow` with these arguments gives: none follows the current
/// target, a lone `off` stops, anything else names the leader (arguments
/// joined with spaces, trimmed; blank is an error).
pub open spec fn follow_spec(args: Seq<Seq<char>>, r: Result<FollowSlashCommand, String>) -> bool {
    if args.len() == 0 {
        r == Ok::<FollowSlashCommand, String>(FollowSlashCommand::Start { leader_name: None })
    } else if args.len() == 1 && eq_ic(args[0], "off"@) {
        r == Ok::<FollowSlashCommand, String>(FollowSlashCommand::Off)
    } else {
        match r {
            Ok(FollowSlashCommand::Start { leader_name: Some(n) }) => trim(join_args(args)).len() > 0 && n@ == trim(
                join_args(args),
            ),
            Err(e) => trim(join_args(args)).len() == 0 && e@ == "missing leader name for /follow"@,
            _ => false,
        }
    }
}

/// Parse the arguments of `/follow`: none follows the current target,
/// `off` stops, anything else names the leader (arguments joined with
/// spaces, trimmed; blank is an error).
pub fn parse_follow_slash_command(args: &[String]) -> (r: Result<FollowSlashCommand, String>)
    ensures
        follow_spec(strings_view(args@), r),
        args@.len() == 0 ==> r == Ok::<FollowSlashCommand, String>(FollowSlashCommand::Start { leader_name: None }),
        args@.len() == 1 && eq_ic(args@[0]@, "off"@) ==> r == Ok::<FollowSlashCommand, String>(FollowSlashCommand::Off),
        args@.len() > 0 && !(args@.len() == 1 && eq_ic(args@[0]@, "off"@)) ==> match r {
            Ok(FollowSlashCommand::Start { leader_name: Some(n) }) => trim(join_args(strings_view(args@))).len() > 0
                && n@ == trim(join_args(strings_view(args@))),
            Err(e) => trim(join_args(strings_view(args@))).len() == 0 && e@ == "missing leader name for /follow"@,
            _ => false,
        },
{
    if args.len() == 0 {
        return Ok(FollowSlashCommand::Start { leader_name: None });
    }
    if args.len() == 1 {
        let a = chars_of(args[0].as_str());
        if eq_ignore_case_str(a.as_slice(), "off") {
            return Ok(FollowSlashCommand::Off);
        }
    }
    let mut joined: Vec<char> = Vec::new();
    let mut i: usize = 0;
    while i < args.len()
        invariant
            0 <= i <= args@.len(),
            args@.len() > 0,
            joined@ == join_args(strings_view(args@.take(i as int))),
        decreases args@.len() - i,
    {
        let ghost before = joined@;
        if i > 0 {
            joined.push(' ');
        }
        let a = chars_of(args[i].as_str());
        let mut k: usize = 0;
        let ghost mid = joined@;
        while k < a.len()
            invariant
                0 <= k <= a@.len(),
                joined@ == mid + a@.take(k as int),
            decreases a@.len() - k,
        {
            joined.push(a[k]);
            proof {
                assert(a@.take(k + 1) =~= a@.take(k as int).push(a@[k as int]));
            }
            k = k + 1;
        }
        proof {
            assert(a@.take(a@.len() as int) =~= a@);
            let t = strings_view(args@.take(i + 1));
            assert(t.drop_last() =~= strings_view(args@.take(i as int)));
            assert(t.last() == args@[i as int]@);
            if i == 0 {
                assert(joined@ =~= join_args(t));
            } else {
                assert(joined@ =~= join_args(t));
            }
        }
        i = i + 1;
    }
    proof {
        assert(args@.take(args@.len() as int) =~= args@);
    }
    let trimmed = trim_chars(joined.as_slice());
    if trimmed.len() == 0 {
        return Err(lit("missing leader name for /follow"));
    }
    let mut name = String::new();
    push_chars(&mut name, trimmed.as_slice());
    proof {
        assert(name@ =~= trimmed@);
    }
    Ok(FollowSlashCommand::Start { leader_name: Some(name) })
}

} // verus!
