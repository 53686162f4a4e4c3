//! The state machine engine: decides transitions, keeps the resource cache,
//! backoff timers and health, and queues the actions of committed transitions.
use vstd::prelude::*;
use crate::backoff::{BackoffManager, in_backoff};
use crate::events::{EventInference, inferred_event};
use crate::health::HealthManager;
use crate::persistence::{StatePersistence, updated_record_ok, lemma_state_name_round_trip, runtime_form};
use crate::health::{failures_after, healthy_after};
use crate::states::{
    ResourceType, resource_type_of, resource_type_code, state_name, stored_state_code, is_legal_state,
    MODEL_STATE_CRASH_LOOP_BACK_OFF, MODEL_STATE_RUNNING,
};
use crate::text::{owned, int_text, join2, join3};
use crate::textmap::TextMap;
use crate::transitions::{
    StateTransition, TransitionRow, table_of, ScenarioTransitions, PackageTransitions, ModelTransitions,
    rows_of, model_table,
};
use crate::types::{ActionCommand, ErrorCode, ResourceState, SerializableResourceState, StateChange, TransitionResult};
use crate::utility::{StateUtilities, resource_key, user_state_code};
use crate::validation::{StateValidator, state_change_problem, guard_holds, loaded_state_valid};

verus! {

/// What reading a resource's stored record gave: its stored state name, no record, or an error.
#[derive(Debug, Clone)]
pub enum StoredLookup {
    Found(String),
    Absent,
    Failed(String),
}

/// The state a resource is taken to be in: the stored one if there is a record,
/// else the one the request names.
pub open spec fn current_code(sc: StateChange, stored: StoredLookup) -> i32 {
    match stored {
        StoredLookup::Found(n) => stored_state_code(sc.resource_type, n@),
        _ => user_state_code(sc.resource_type, sc.current_state@),
    }
}

/// The first row of `s` from `from` on `event` to `to`.
pub open spec fn find_row(s: Seq<TransitionRow>, from: i32, event: Seq<char>, to: i32) -> Option<TransitionRow>
    decreases s.len(),
{
    if s.len() == 0 {
        None
    } else if s[0].from == from && s[0].event == event && s[0].to == to {
        Some(s[0])
    } else {
        find_row(s.drop_first(), from, event, to)
    }
}

/// How the engine decides a state change.
pub enum Verdict {
    /// The request is malformed.
    Invalid,
    /// The kind code names no kind.
    UnknownKind,
    /// The stored record could not be read.
    StorageFailed,
    /// A crash-looping model is still in its backoff window.
    Backoff,
    /// No row of the table matches.
    NoTransition,
    /// The matching row's guard does not hold.
    GuardFailed,
    /// The matching row is taken.
    Commit(TransitionRow),
}

/// The decision on `sc`, given what the store held and the timers at `now`.
pub open spec fn verdict(sc: StateChange, stored: StoredLookup, timers: Map<Seq<char>, u64>, now: u64) -> Verdict {
    if state_change_problem(sc) is Some {
        Verdict::Invalid
    } else {
        match resource_type_of(sc.resource_type) {
            None => Verdict::UnknownKind,
            Some(t) => {
                if stored is Failed {
                    Verdict::StorageFailed
                } else {
                    let cur = current_code(sc, stored);
                    let tgt = user_state_code(sc.resource_type, sc.target_state@);
                    if in_backoff(timers, resource_key(t, sc.resource_name@), t, cur, now) {
                        Verdict::Backoff
                    } else {
                        match find_row(table_of(t), cur, inferred_event(t, cur as int, tgt as int), tgt) {
                            None => Verdict::NoTransition,
                            Some(row) => {
                                if row.condition is Some && !guard_holds(row.condition->Some_0) {
                                    Verdict::GuardFailed
                                } else {
                                    Verdict::Commit(row)
                                }
                            },
                        }
                    }
                }
            },
        }
    }
}

/// A validated transition whose record still has to be written to the store.
pub struct PendingWrite {
    resource_key: String,
    storage_key: String,
    record: SerializableResourceState,
    transition: StateTransition,
    resource_type: ResourceType,
    from_state: i32,
}

impl PendingWrite {
    #[verifier::type_invariant]
    spec fn well_formed(&self) -> bool {
        &&& self.record.resource_type == resource_type_code(self.resource_type)
        &&& self.record.current_state@ == state_name(self.resource_type, self.transition.to_state as int)
        &&& is_legal_state(self.resource_type, self.transition.to_state as int)
        &&& self.storage_key@ == "state/"@ + self.resource_key@
    }

    pub closed spec fn key(&self) -> Seq<char> {
        self.resource_key@
    }

    pub closed spec fn row(&self) -> TransitionRow {
        self.transition@
    }

    pub closed spec fn kind(&self) -> ResourceType {
        self.resource_type
    }

    pub closed spec fn stored(&self) -> SerializableResourceState {
        self.record
    }

    /// The store key to write: `state/{Kind}::{name}`.
    pub fn storage_key(&self) -> (r: &String)
        ensures
            r@ == "state/"@ + self.key(),
    {
        proof { use_type_invariant(self); }
        &self.storage_key
    }

    /// The record to write.
    pub fn record(&self) -> (r: &SerializableResourceState)
        ensures
            *r == self.stored(),
    {
        &self.record
    }
}

pub struct StateMachine {
    resource_states: TextMap<ResourceState>,
    backoff_timers: TextMap<u64>,
    action_queue: Vec<ActionCommand>,
    health_manager: HealthManager,
}

impl StateMachine {
    pub closed spec fn cache(&self) -> Map<Seq<char>, ResourceState> {
        self.resource_states@
    }

    pub closed spec fn timers(&self) -> Map<Seq<char>, u64> {
        self.backoff_timers@
    }

    pub closed spec fn actions(&self) -> Seq<ActionCommand> {
        self.action_queue@
    }

    pub closed spec fn health(&self) -> Map<Seq<char>, crate::types::HealthStatus> {
        self.health_manager@
    }

    /// An engine with an empty cache, no timers and no queued actions.
    pub fn new() -> (r: StateMachine)
        ensures
            r.cache() == Map::<Seq<char>, ResourceState>::empty(),
            r.timers() == Map::<Seq<char>, u64>::empty(),
            r.actions().len() == 0,
            r.health() == Map::<Seq<char>, crate::types::HealthStatus>::empty(),
    {
        StateMachine {
            resource_states: TextMap::new(),
            backoff_timers: TextMap::new(),
            action_queue: Vec::new(),
            health_manager: HealthManager::new(),
        }
    }

    /// The first row of the table of `resource_type` from `from_state` on `event` to `to_state`.
    pub fn find_valid_transition(
        &self,
        resource_type: ResourceType,
        from_state: i32,
        event: &str,
        to_state: i32,
    ) -> (r: Option<StateTransition>)
        ensures
            match r {
                Some(tr) => find_row(table_of(resource_type), from_state, event@, to_state) == Some(tr@),
                None => find_row(table_of(resource_type), from_state, event@, to_state) is None,
            },
    {
        let table: Vec<StateTransition> = match resource_type {
            ResourceType::Scenario => ScenarioTransitions::get_transitions(),
            ResourceType::Package => PackageTransitions::get_transitions(),
            ResourceType::Model => ModelTransitions::get_transitions(),
            _ => Vec::new(),
        };
        let ghost rows = rows_of(table@);
        assert(rows == table_of(resource_type));
        assert(rows.subrange(0, rows.len() as int) =~= rows);
        let mut i: usize = 0;
        while i < table.len()
            invariant
                rows == rows_of(table@),
                rows == table_of(resource_type),
                i <= table@.len(),
                find_row(rows, from_state, event@, to_state) == find_row(rows.subrange(i as int, rows.len() as int), from_state, event@, to_state),
            decreases table@.len() - i,
        {
            let t = &table[i];
            proof {
                let s = rows.subrange(i as int, rows.len() as int);
                assert(s[0] == t@);
                assert(s.drop_first() =~= rows.subrange(i as int + 1, rows.len() as int));
            }
            if t.from_state == from_state && t.to_state == to_state && crate::text::text_eq(t.event.as_str(), event) {
                return Some(t.clone_row());
            }
            i = i + 1;
        }
        None
    }
}


/// The cached record of `key`, if it is the record of the resource of kind `t`
/// named `name`; a record cached under another resource's key is not used.
pub open spec fn cached_record(cache: Map<Seq<char>, ResourceState>, key: Seq<char>, t: ResourceType, name: Seq<char>) -> Option<ResourceState> {
    if cache.contains_key(key) && cache[key].resource_type == t && cache[key].resource_name@ == name {
        Some(cache[key])
    } else {
        None
    }
}

/// The cache after loading `s` into `m`, last record first: each sound record
/// is put in its runtime form under its key.
pub open spec fn loaded_cache(m: Map<Seq<char>, ResourceState>, s: Seq<(String, SerializableResourceState)>, now: u64) -> Map<Seq<char>, ResourceState>
    decreases s.len(),
{
    if s.len() == 0 {
        m
    } else {
        let next = if loaded_state_valid(s.last().1, now) { m.insert(s.last().0@, runtime_form(s.last().1)) } else { m };
        loaded_cache(next, s.drop_last(), now)
    }
}

/// The stored record is in a state that cache warming loads.
pub open spec fn record_active(s: SerializableResourceState) -> bool {
    crate::utility::active_state(stored_state_code(s.resource_type, s.current_state@), s.resource_type)
}

/// Number of records in an active state.
pub open spec fn active_count(s: Seq<(String, SerializableResourceState)>) -> nat
    decreases s.len(),
{
    if s.len() == 0 { 0 } else { active_count(s.drop_last()) + if record_active(s.last().1) { 1nat } else { 0nat } }
}

proof fn lemma_active_count_bounded(s: Seq<(String, SerializableResourceState)>)
    ensures
        active_count(s) <= s.len(),
    decreases s.len(),
{
    if s.len() > 0 {
        lemma_active_count_bounded(s.drop_last());
    }
}

/// The cache after warming `m` with `s`, last record first: each active record
/// is put in its runtime form under its key.
pub open spec fn warmed_cache(m: Map<Seq<char>, ResourceState>, s: Seq<(String, SerializableResourceState)>) -> Map<Seq<char>, ResourceState>
    decreases s.len(),
{
    if s.len() == 0 {
        m
    } else {
        let next = if record_active(s.last().1) { m.insert(s.last().0@, runtime_form(s.last().1)) } else { m };
        warmed_cache(next, s.drop_last())
    }
}

/// `after` is `before` with one more failure recorded for `key`; an untracked
/// resource starts healthy with no failures.
pub open spec fn failure_recorded(
    before: Map<Seq<char>, crate::types::HealthStatus>,
    after: Map<Seq<char>, crate::types::HealthStatus>,
    key: Seq<char>,
) -> bool {
    let (h0, f0) = if before.contains_key(key) {
        (before[key].healthy, before[key].consecutive_failures)
    } else {
        (true, 0u32)
    };
    &&& after == before.insert(key, after[key])
    &&& after[key].consecutive_failures == failures_after(f0, false)
    &&& after[key].healthy == healthy_after(h0, f0, false)
}

/// `v` under `k` was either already in `m` or is the runtime form of a sound
/// record of `s` stored under `k`.
pub open spec fn came_from(
    m: Map<Seq<char>, ResourceState>,
    s: Seq<(String, SerializableResourceState)>,
    now: u64,
    k: Seq<char>,
    v: ResourceState,
) -> bool {
    ||| m.contains_key(k) && v == m[k]
    ||| exists|j: int| 0 <= j < s.len() && s[j].0@ == k && loaded_state_valid(s[j].1, now) && v == runtime_form(s[j].1)
}

/// Startup recovery leaves only sound records: every stored record whose key
/// is not returned for removal passes the load check, every key returned names
/// an unsound record, and the cache gains only the runtime forms of sound
/// records.
pub proof fn lemma_startup_recovery(m: Map<Seq<char>, ResourceState>, s: Seq<(String, SerializableResourceState)>, now: u64)
    ensures
        forall|j: int| 0 <= j < s.len() && !unsound_keys(s, now).contains(#[trigger] s[j].0@)
            ==> loaded_state_valid(s[j].1, now),
        forall|k: Seq<char>| #[trigger] unsound_keys(s, now).contains(k)
            ==> exists|j: int| 0 <= j < s.len() && s[j].0@ == k && !loaded_state_valid(s[j].1, now),
        forall|k: Seq<char>| #[trigger] loaded_cache(m, s, now).contains_key(k)
            ==> came_from(m, s, now, k, loaded_cache(m, s, now)[k]),
    decreases s.len(),
{
    if s.len() > 0 {
        let p = s.drop_last();
        let n = s.len() - 1;
        let last = s[n];
        let m1 = if loaded_state_valid(last.1, now) { m.insert(last.0@, runtime_form(last.1)) } else { m };
        lemma_startup_recovery(m1, p, now);
        assert(s.last() == last);
        assert(loaded_cache(m, s, now) == loaded_cache(m1, p, now));
        let u = unsound_keys(s, now);
        let up = unsound_keys(p, now);
        assert forall|j: int| 0 <= j < s.len() && !u.contains(#[trigger] s[j].0@) implies loaded_state_valid(s[j].1, now) by {
            if j == n {
                if !loaded_state_valid(last.1, now) {
                    assert(u[0] == last.0@);
                }
            } else {
                assert(s[j] == p[j]);
                if !loaded_state_valid(last.1, now) {
                    if up.contains(p[j].0@) {
                        let i = choose|i: int| 0 <= i < up.len() && up[i] == p[j].0@;
                        assert(u[i + 1] == up[i]);
                    }
                }
            }
        }
        assert forall|k: Seq<char>| #[trigger] u.contains(k)
            implies exists|j: int| 0 <= j < s.len() && s[j].0@ == k && !loaded_state_valid(s[j].1, now) by {
            let i = choose|i: int| 0 <= i < u.len() && u[i] == k;
            if !loaded_state_valid(last.1, now) && i == 0 {
                assert(s[n].0@ == k);
            } else {
                let i2 = if !loaded_state_valid(last.1, now) { i - 1 } else { i };
                assert(up[i2] == k);
                assert(up.contains(k));
                let j = choose|j: int| 0 <= j < p.len() && p[j].0@ == k && !loaded_state_valid(p[j].1, now);
                assert(s[j] == p[j]);
            }
        }
        let lc = loaded_cache(m, s, now);
        assert forall|k: Seq<char>| #[trigger] lc.contains_key(k) implies came_from(m, s, now, k, lc[k]) by {
            assert(came_from(m1, p, now, k, lc[k]));
            if m1.contains_key(k) && lc[k] == m1[k] {
                if loaded_state_valid(last.1, now) && k == last.0@ {
                    assert(s[n].0@ == k && lc[k] == runtime_form(s[n].1));
                }
            } else {
                let j = choose|j: int| 0 <= j < p.len() && p[j].0@ == k && loaded_state_valid(p[j].1, now) && lc[k] == runtime_form(p[j].1);
                assert(s[j] == p[j]);
            }
        }
    }
}

/// The views of some texts.
pub open spec fn texts_of(v: Seq<String>) -> Seq<Seq<char>> {
    v.map_values(|s: String| s@)
}

/// Keys of the records that fail the load check, last record first.
pub open spec fn unsound_keys(s: Seq<(String, SerializableResourceState)>, now: u64) -> Seq<Seq<char>>
    decreases s.len(),
{
    if s.len() == 0 {
        Seq::empty()
    } else if loaded_state_valid(s.last().1, now) {
        unsound_keys(s.drop_last(), now)
    } else {
        seq![s.last().0@] + unsound_keys(s.drop_last(), now)
    }
}

/// A row that the search finds is a row of the table.
pub proof fn lemma_find_row_member(s: Seq<TransitionRow>, from: i32, event: Seq<char>, to: i32)
    ensures
        find_row(s, from, event, to) matches Some(r) ==> exists|i: int| 0 <= i < s.len() && s[i] == r,
        find_row(s, from, event, to) matches Some(r) ==> r.from == from && r.event == event && r.to == to,
    decreases s.len(),
{
    if s.len() > 0 {
        lemma_find_row_member(s.drop_first(), from, event, to);
        if let Some(r) = find_row(s.drop_first(), from, event, to) {
            if !(s[0].from == from && s[0].event == event && s[0].to == to) {
                let i = choose|i: int| 0 <= i < s.drop_first().len() && s.drop_first()[i] == r;
                assert(s[i + 1] == r);
            }
        }
    }
}

/// Every row of every table moves to a declared state of its kind.
pub proof fn lemma_table_targets_legal(t: ResourceType)
    ensures
        forall|i: int| 0 <= i < table_of(t).len() ==> is_legal_state(t, #[trigger] table_of(t)[i].to as int),
{
}

/// A search finds a row wherever one matches.
proof fn lemma_find_row_some(s: Seq<TransitionRow>, i: int)
    requires
        0 <= i < s.len(),
    ensures
        find_row(s, s[i].from, s[i].event, s[i].to) is Some,
    decreases s.len(),
{
    if i > 0 && !(s[0].from == s[i].from && s[0].event == s[i].event && s[0].to == s[i].to) {
        assert(s.drop_first()[i - 1] == s[i]);
        lemma_find_row_some(s.drop_first(), i - 1);
    }
}

/// No two rows of a table share both their source and their target state.
pub proof fn lemma_table_pairs_unique(t: ResourceType)
    ensures
        forall|i: int, j: int| 0 <= i < j < table_of(t).len() ==>
            !(#[trigger] table_of(t)[i].from == #[trigger] table_of(t)[j].from && table_of(t)[i].to == table_of(t)[j].to),
{
}

/// Declared transitions are taken: a well-formed request on a resource in a
/// row's source state, asking for the row's target state, outside any backoff
/// window and with the row's guard holding, commits exactly that row.
pub proof fn lemma_declared_row_taken(sc: StateChange, stored: StoredLookup, timers: Map<Seq<char>, u64>, now: u64, i: int)
    requires
        state_change_problem(sc) is None,
        resource_type_of(sc.resource_type) is Some,
        !(stored is Failed),
        0 <= i < table_of(resource_type_of(sc.resource_type)->Some_0).len(),
        ({
            let t = resource_type_of(sc.resource_type)->Some_0;
            let row = table_of(t)[i];
            &&& current_code(sc, stored) == row.from
            &&& user_state_code(sc.resource_type, sc.target_state@) == row.to
            &&& !in_backoff(timers, resource_key(t, sc.resource_name@), t, row.from, now)
            &&& (row.condition is None || guard_holds(row.condition->Some_0))
        }),
    ensures
        verdict(sc, stored, timers, now) == Verdict::Commit(table_of(resource_type_of(sc.resource_type)->Some_0)[i]),
{
    let t = resource_type_of(sc.resource_type)->Some_0;
    let s = table_of(t);
    let row = s[i];
    crate::events::lemma_inference_matches_table(t, i);
    lemma_find_row_some(s, i);
    lemma_find_row_member(s, row.from, row.event, row.to);
    lemma_table_pairs_unique(t);
    let found = find_row(s, row.from, row.event, row.to)->Some_0;
    let j = choose|j: int| 0 <= j < s.len() && s[j] == found;
    if j < i {
        assert(!(s[j].from == s[i].from && s[j].to == s[i].to));
    } else if j > i {
        assert(!(s[i].from == s[j].from && s[i].to == s[j].to));
    }
}

/// Undeclared pairs are refused: a well-formed request outside any backoff
/// window whose source and target states no row pairs is refused with no
/// transition taken.
pub proof fn lemma_undeclared_pair_refused(sc: StateChange, stored: StoredLookup, timers: Map<Seq<char>, u64>, now: u64)
    requires
        state_change_problem(sc) is None,
        resource_type_of(sc.resource_type) is Some,
        !(stored is Failed),
        ({
            let t = resource_type_of(sc.resource_type)->Some_0;
            let cur = current_code(sc, stored);
            let tgt = user_state_code(sc.resource_type, sc.target_state@);
            &&& !in_backoff(timers, resource_key(t, sc.resource_name@), t, cur, now)
            &&& forall|i: int| 0 <= i < table_of(t).len() ==> !(#[trigger] table_of(t)[i].from == cur && table_of(t)[i].to == tgt)
        }),
    ensures
        verdict(sc, stored, timers, now) == Verdict::NoTransition,
{
    let t = resource_type_of(sc.resource_type)->Some_0;
    let cur = current_code(sc, stored);
    let tgt = user_state_code(sc.resource_type, sc.target_state@);
    lemma_find_row_member(table_of(t), cur, inferred_event(t, cur as int, tgt as int), tgt);
}

/// The backoff gate: a crash-looping model whose timer is younger than the
/// window is refused whatever is asked; once the window has passed, the
/// request to run again takes the `backoff_time_elapsed` row.
pub proof fn lemma_backoff_gate(sc: StateChange, stored: StoredLookup, timers: Map<Seq<char>, u64>, now: u64)
    requires
        state_change_problem(sc) is None,
        resource_type_of(sc.resource_type) == Some(ResourceType::Model),
        !(stored is Failed),
        current_code(sc, stored) == MODEL_STATE_CRASH_LOOP_BACK_OFF,
        timers.contains_key(resource_key(ResourceType::Model, sc.resource_name@)),
    ensures
        crate::backoff::elapsed_secs(timers[resource_key(ResourceType::Model, sc.resource_name@)], now)
            < crate::backoff::BACKOFF_DURATION_SECS ==> verdict(sc, stored, timers, now) == Verdict::Backoff,
        (crate::backoff::elapsed_secs(timers[resource_key(ResourceType::Model, sc.resource_name@)], now)
            >= crate::backoff::BACKOFF_DURATION_SECS
            && user_state_code(sc.resource_type, sc.target_state@) == MODEL_STATE_RUNNING)
            ==> verdict(sc, stored, timers, now) == Verdict::Commit(model_table()[9]),
        model_table()[9].event == "backoff_time_elapsed"@,
        model_table()[9].action == "resume_monitoring_reset_counter"@,
{
    if crate::backoff::elapsed_secs(timers[resource_key(ResourceType::Model, sc.resource_name@)], now)
        >= crate::backoff::BACKOFF_DURATION_SECS
        && user_state_code(sc.resource_type, sc.target_state@) == MODEL_STATE_RUNNING {
        reveal_strlit("restart_successful");
        reveal_strlit("critical_models_failed");
        reveal_strlit("critical_model_issues");
        reveal_strlit("critical_models_affected");
        reveal_strlit("timeout_or_error");
        reveal_strlit("unexpected_termination");
        reveal_strlit("consecutive_restart_failures");
        reveal_strlit("node_communication_issues");
        reveal_strlit("retry_limit_reached");
        assert("restart_successful"@.len() == 18);
        assert("critical_models_failed"@.len() == 22 && "critical_model_issues"@.len() == 21);
        assert("critical_models_affected"@.len() == 24 && "timeout_or_error"@.len() == 16);
        assert("unexpected_termination"@.len() == 22 && "consecutive_restart_failures"@.len() == 28);
        assert("node_communication_issues"@.len() == 25 && "retry_limit_reached"@.len() == 19);
        assert(guard_holds("restart_successful"@));
        lemma_declared_row_taken(sc, stored, timers, now, 9);
    }
}

impl StateMachine {
    /// Decides a state change against what the store held for the resource.
    /// A taken transition comes back as the record to write; nothing else changes
    /// until `complete_state_change`. A request without a matching row, one whose
    /// guard fails, and one whose stored record could not be read count as a
    /// failure in the resource's health. A refusal inside the backoff window
    /// leaves all state unchanged, health included, as does a malformed request
    /// or an unknown kind, which name no resource to charge.
    pub fn plan_state_change(&mut self, state_change: &StateChange, stored: &StoredLookup, now: u64) -> (r: Result<PendingWrite, TransitionResult>)
        ensures
            final(self).cache() == old(self).cache(),
            final(self).timers() == old(self).timers(),
            final(self).actions() == old(self).actions(),
            !(verdict(*state_change, *stored, old(self).timers(), now) is NoTransition
                || verdict(*state_change, *stored, old(self).timers(), now) is GuardFailed
                || verdict(*state_change, *stored, old(self).timers(), now) is StorageFailed)
                ==> final(self).health() == old(self).health(),
            r is Err ==> !r->Err_0.success && !r->Err_0.succeeded() && r->Err_0.transition_id@ == state_change.transition_id@,
            match verdict(*state_change, *stored, old(self).timers(), now) {
                Verdict::Invalid => r is Err && r->Err_0.error_code == ErrorCode::InvalidRequest,
                Verdict::UnknownKind => r is Err && r->Err_0.error_code == ErrorCode::InvalidStateTransition,
                Verdict::StorageFailed => r is Err && r->Err_0.error_code == ErrorCode::InternalError
                    && failure_recorded(old(self).health(), final(self).health(),
                        resource_key(resource_type_of(state_change.resource_type)->Some_0, state_change.resource_name@)),
                Verdict::Backoff => r is Err && r->Err_0.error_code == ErrorCode::PreconditionFailed
                    && r->Err_0.message@ == "Resource is in backoff period"@
                    && r->Err_0.new_state == current_code(*state_change, *stored),
                Verdict::NoTransition => r is Err && r->Err_0.error_code == ErrorCode::InvalidStateTransition
                    && r->Err_0.new_state == current_code(*state_change, *stored)
                    && failure_recorded(old(self).health(), final(self).health(),
                        resource_key(resource_type_of(state_change.resource_type)->Some_0, state_change.resource_name@)),
                Verdict::GuardFailed => r is Err && r->Err_0.error_code == ErrorCode::PreconditionFailed
                    && r->Err_0.new_state == current_code(*state_change, *stored)
                    && failure_recorded(old(self).health(), final(self).health(),
                        resource_key(resource_type_of(state_change.resource_type)->Some_0, state_change.resource_name@)),
                Verdict::Commit(row) => r is Ok && ({
                    let p = r->Ok_0;
                    let t = resource_type_of(state_change.resource_type)->Some_0;
                    let key = resource_key(t, state_change.resource_name@);
                    &&& p.row() == row
                    &&& p.kind() == t
                    &&& p.key() == key
                    &&& updated_record_ok(
                        p.stored(),
                        cached_record(old(self).cache(), key, t, state_change.resource_name@),
                        *state_change,
                        row.to,
                        t,
                        now,
                    )
                    &&& loaded_state_valid(p.stored(), now)
                }),
            },
    {
        let sc = state_change;
        let tid = sc.transition_id.clone();
        match StateValidator::validate_state_change(sc) {
            Err(e) => {
                let cur = StateUtilities::state_str_to_enum(sc.current_state.as_str(), sc.resource_type);
                let msg = join2("Invalid state change request: ", e.as_str());
                return Err(TransitionResult::failure(cur, tid, ErrorCode::InvalidRequest, msg, e));
            },
            Ok(()) => {},
        }
        let t = match ResourceType::from_code(sc.resource_type) {
            Some(t) => t,
            None => {
                let cur = StateUtilities::state_str_to_enum(sc.current_state.as_str(), sc.resource_type);
                let n = int_text(sc.resource_type as i128);
                let msg = join2("Invalid resource type: ", n.as_str());
                let details = join2("Unsupported resource type ID: ", n.as_str());
                return Err(TransitionResult::failure(cur, tid, ErrorCode::InvalidStateTransition, msg, details));
            },
        };
        let key = StateUtilities::generate_resource_key(t, sc.resource_name.as_str());
        let current: i32 = match stored {
            StoredLookup::Found(n) => StateUtilities::enum_str_to_int(n.as_str(), sc.resource_type),
            StoredLookup::Absent => StateUtilities::state_str_to_enum(sc.current_state.as_str(), sc.resource_type),
            StoredLookup::Failed(e) => {
                let cur = StateUtilities::state_str_to_enum(sc.current_state.as_str(), sc.resource_type);
                let msg = join2("Failed to retrieve stored state: ", e.as_str());
                let result = TransitionResult::failure(cur, tid, ErrorCode::InternalError, msg, e.clone());
                self.health_manager.update_health_status(key.as_str(), &result, now);
                return Err(result);
            },
        };
        match BackoffManager::check_backoff_period(&self.backoff_timers, key.as_str(), current, t, now) {
            Err((code, message)) => {
                let details = owned("Backoff timer has not elapsed yet");
                return Err(TransitionResult::failure(current, tid, code, message, details));
            },
            Ok(()) => {},
        }
        let target = StateUtilities::state_str_to_enum(sc.target_state.as_str(), sc.resource_type);
        let event = EventInference::infer_event_from_states(current, target, t);
        match self.find_valid_transition(t, current, event.as_str(), target) {
            None => {
                let from_name = StateUtilities::state_enum_to_str(current, t);
                let to_name = StateUtilities::state_enum_to_str(target, t);
                let mut msg = join3("No valid transition from ", from_name, " to ");
                msg.append(to_name);
                msg.append(" for resource type ");
                msg.append(t.key_name());
                let mut details = join3("Invalid state transition attempted: ", from_name, " -> ");
                details.append(to_name);
                let result = TransitionResult::failure(current, tid, ErrorCode::InvalidStateTransition, msg, details);
                self.health_manager.update_health_status(key.as_str(), &result, now);
                Err(result)
            },
            Some(tr) => {
                match &tr.condition {
                    Some(c) => {
                        if !StateValidator::evaluate_condition(c.as_str(), sc) {
                            let msg = join2("Transition condition not met: ", c.as_str());
                            let details = owned("Transition condition failed");
                            let result = TransitionResult::failure(current, tid, ErrorCode::PreconditionFailed, msg, details);
                            self.health_manager.update_health_status(key.as_str(), &result, now);
                            return Err(result);
                        }
                    },
                    None => {},
                }
                proof {
                    lemma_find_row_member(table_of(t), current, event@, target);
                    lemma_table_targets_legal(t);
                }
                let cached = match self.resource_states.get(key.as_str()) {
                    Some(cur) => {
                        if cur.resource_type == t && cur.resource_name == sc.resource_name {
                            Some(cur)
                        } else {
                            None
                        }
                    },
                    None => None,
                };
                let record = StatePersistence::build_updated_state(cached, sc, tr.to_state, t, now);
                proof {
                    crate::persistence::lemma_state_name_round_trip(t, tr.to_state as int);
                    assert(crate::states::state_of_name(t, record.current_state@) is Some);
                    crate::persistence::lemma_state_name_not_blank(t, tr.to_state as int);
                    reveal(loaded_state_valid);
                }
                let mut storage_key = owned("state/");
                storage_key.append(key.as_str());
                Ok(PendingWrite { resource_key: key, storage_key, record, transition: tr, resource_type: t, from_state: current })
            },
        }
    }
}

impl StateMachine {
    /// Finishes a planned transition once the store write has been tried. A
    /// failed write changes nothing but records a failure in the resource's
    /// health; a successful one updates the cache, starts
    /// the backoff timer on entry to the crash-loop state, queues exactly one
    /// action, and records a success in the resource's health.
    pub fn complete_state_change(
        &mut self,
        pending: PendingWrite,
        write_result: Result<(), String>,
        state_change: &StateChange,
        now: u64,
    ) -> (r: TransitionResult)
        ensures
            r.transition_id@ == state_change.transition_id@,
            write_result is Err ==> {
                &&& !r.succeeded()
                &&& r.error_code == ErrorCode::InternalError
                &&& final(self).cache() == old(self).cache()
                &&& final(self).timers() == old(self).timers()
                &&& final(self).actions() == old(self).actions()
                &&& ({
                    let key = pending.key();
                    let (h0, f0) = if old(self).health().contains_key(key) {
                        (old(self).health()[key].healthy, old(self).health()[key].consecutive_failures)
                    } else {
                        (true, 0u32)
                    };
                    &&& final(self).health() == old(self).health().insert(key, final(self).health()[key])
                    &&& final(self).health()[key].consecutive_failures == failures_after(f0, false)
                    &&& final(self).health()[key].healthy == healthy_after(h0, f0, false)
                })
            },
            write_result is Ok ==> {
                let key = pending.key();
                let row = pending.row();
                &&& r.succeeded()
                &&& r.new_state == row.to
                &&& final(self).cache() == old(self).cache().insert(key, final(self).cache()[key])
                &&& final(self).cache()[key] == runtime_form(pending.stored())
                &&& final(self).cache()[key].current_state == row.to
                &&& final(self).cache()[key].resource_type == pending.kind()
                &&& final(self).cache()[key].transition_count == pending.stored().transition_count
                &&& final(self).actions().len() == old(self).actions().len() + 1
                &&& final(self).actions().drop_last() == old(self).actions()
                &&& final(self).actions().last().action@ == row.action
                &&& final(self).actions().last().resource_key@ == key
                &&& final(self).actions().last().resource_type == pending.kind()
                &&& final(self).actions().last().transition_id@ == state_change.transition_id@
                &&& (pending.kind() == ResourceType::Model && row.to == MODEL_STATE_CRASH_LOOP_BACK_OFF)
                    ==> final(self).timers() == old(self).timers().insert(key, now)
                &&& !(pending.kind() == ResourceType::Model && row.to == MODEL_STATE_CRASH_LOOP_BACK_OFF)
                    ==> final(self).timers() == old(self).timers()
                &&& final(self).health().contains_key(key)
                &&& final(self).health()[key].healthy
                &&& final(self).health()[key].consecutive_failures == 0
            },
    {
        proof { use_type_invariant(&pending); }
        let PendingWrite { resource_key, storage_key: _, record, transition, resource_type, from_state } = pending;
        let tid = state_change.transition_id.clone();
        match write_result {
            Err(e) => {
                let msg = join2("Failed to update resource state: ", e.as_str());
                let result = TransitionResult::failure(from_state, tid, ErrorCode::InternalError, msg, e);
                self.health_manager.update_health_status(resource_key.as_str(), &result, now);
                result
            },
            Ok(()) => {
                proof {
                    crate::persistence::lemma_state_name_round_trip(resource_type, transition.to_state as int);
                }
                let runtime = record.into_runtime();
                self.resource_states.insert(resource_key.clone(), runtime);
                if self.health_manager.get_health_status(resource_key.as_str()).is_none() {
                    self.health_manager.initialize_health_tracking(resource_key.clone(), now);
                }
                let command = ActionCommand {
                    action: transition.action.clone(),
                    resource_key: resource_key.clone(),
                    resource_type,
                    transition_id: state_change.transition_id.clone(),
                    context: StateUtilities::build_action_context(state_change, &transition),
                };
                self.action_queue.push(command);
                BackoffManager::set_backoff_timer(&mut self.backoff_timers, resource_key.as_str(), transition.to_state, resource_type, now);
                let to_name = StateUtilities::state_enum_to_str(transition.to_state, resource_type);
                let msg = join2("State transition completed successfully to ", to_name);
                let result = TransitionResult::success(transition.to_state, tid, Some(msg));
                self.health_manager.update_health_status(resource_key.as_str(), &result, now);
                result
            },
        }
    }

    /// Loads stored records at startup: sound ones go into the cache in their
    /// runtime form and get their backoff timers back (a key listed twice keeps
    /// its first sound record); unsound ones stay out, and their keys, last
    /// record first, are returned for removal.
    pub fn load_states(&mut self, states: Vec<(String, SerializableResourceState)>, now: u64) -> (r: Vec<String>)
        ensures
            texts_of(r@) == unsound_keys(states@, now),
            final(self).cache() == loaded_cache(old(self).cache(), states@, now),
            final(self).actions() == old(self).actions(),
    {
        let ghost all = states@;
        let mut rest = states;
        let mut invalid: Vec<String> = Vec::new();
        assert(all.subrange(0, all.len() as int) =~= all);
        while rest.len() > 0
            invariant
                rest@ == all.subrange(0, rest@.len() as int),
                rest@.len() <= all.len(),
                self.actions() == old(self).actions(),
                texts_of(invalid@) + unsound_keys(rest@, now) == unsound_keys(all, now),
                loaded_cache(self.cache(), rest@, now) == loaded_cache(old(self).cache(), all, now),
            decreases rest@.len(),
        {
            let ghost prev = rest@;
            let (key, record) = rest.pop().unwrap();
            let ghost n = rest@.len() as int;
            assert(all[n] == (key, record));
            assert(prev.drop_last() == rest@);
            let ghost cache_before = self.cache();
            if StateValidator::validate_loaded_state_at(&record, now) {
                BackoffManager::restore_backoff_timer(&mut self.backoff_timers, key.as_str(), &record, now);
                self.resource_states.insert(key, record.into_runtime());
            } else {
                let ghost before = invalid@;
                invalid.push(key);
                assert(texts_of(invalid@) =~= texts_of(before) + seq![all[n].0@]);
                assert(texts_of(invalid@) + unsound_keys(rest@, now) =~= texts_of(before) + unsound_keys(prev, now));
            }
        }
        assert(unsound_keys(rest@, now) =~= Seq::<Seq<char>>::empty());
        assert(texts_of(invalid@) =~= texts_of(invalid@) + unsound_keys(rest@, now));
        invalid
    }

    /// Puts the records of active resources into the cache in their runtime
    /// form (a key listed twice keeps its first active record); returns how many.
    pub fn warm_cache_for_active_resources(&mut self, states: Vec<(String, SerializableResourceState)>) -> (r: usize)
        ensures
            r == active_count(states@),
            final(self).cache() == warmed_cache(old(self).cache(), states@),
            final(self).actions() == old(self).actions(),
            final(self).timers() == old(self).timers(),
    {
        let ghost all = states@;
        let total = states.len();
        let mut rest = states;
        let mut count: usize = 0;
        proof { lemma_active_count_bounded(all); }
        while rest.len() > 0
            invariant
                all.len() == total,
                rest@ == all.subrange(0, rest@.len() as int),
                rest@.len() <= all.len(),
                count + active_count(rest@) == active_count(all),
                active_count(rest@) <= rest@.len(),
                active_count(all) <= all.len(),
                self.actions() == old(self).actions(),
                self.timers() == old(self).timers(),
                warmed_cache(self.cache(), rest@) == warmed_cache(old(self).cache(), all),
            decreases rest@.len(),
        {
            let ghost prev = rest@;
            let (key, record) = rest.pop().unwrap();
            let ghost n = rest@.len() as int;
            assert(all[n] == (key, record));
            assert(prev.drop_last() == rest@);
            proof { lemma_active_count_bounded(rest@); }
            let code = StateUtilities::enum_str_to_int(record.current_state.as_str(), record.resource_type);
            if StateUtilities::is_active_state(code, record.resource_type) {
                assert(active_count(prev) == active_count(rest@) + 1);
                self.resource_states.insert(key, record.into_runtime());
                count = count + 1;
            }
        }
        count
    }

    /// The cached record of a resource.
    pub fn get_resource_state(&self, resource_key: &str) -> (r: Option<&ResourceState>)
        ensures
            match r {
                Some(v) => self.cache().contains_key(resource_key@) && *v == self.cache()[resource_key@],
                None => !self.cache().contains_key(resource_key@),
            },
    {
        self.resource_states.get(resource_key)
    }

    /// The backoff timers, as Unix start seconds by resource key.
    pub fn get_backoff_timers(&self) -> (r: &TextMap<u64>)
        ensures
            r@ == self.timers(),
    {
        &self.backoff_timers
    }

    /// Sets the start of a resource's backoff timer.
    pub fn set_backoff_start(&mut self, resource_key: String, start: u64)
        ensures
            final(self).timers() == old(self).timers().insert(resource_key@, start),
            final(self).cache() == old(self).cache(),
            final(self).actions() == old(self).actions(),
            final(self).health() == old(self).health(),
    {
        self.backoff_timers.insert(resource_key, start);
    }

    /// The health tracker.
    pub fn health_manager(&self) -> (r: &HealthManager)
        ensures
            r@ == self.health(),
    {
        &self.health_manager
    }

    /// Takes the queued actions, oldest first.
    pub fn drain_actions(&mut self) -> (r: Vec<ActionCommand>)
        ensures
            r@ == old(self).actions(),
            final(self).actions().len() == 0,
            final(self).cache() == old(self).cache(),
            final(self).timers() == old(self).timers(),
            final(self).health() == old(self).health(),
    {
        let mut out: Vec<ActionCommand> = Vec::new();
        std::mem::swap(&mut out, &mut self.action_queue);
        out
    }
}

} // verus!
