//! Properties that span several events or every input, proved over the
//! spec functions that the executable contracts use.
use vstd::prelude::*;

use crate::account::{advanced, AccountState, INVENTORY_SCAN_AT, STATUS_CHECK_AT};
use crate::decision::{rule_for, Rule};

verus! {

/// A timer after `k` ticks.
pub open spec fn after_ticks(t: Option<i32>, k: nat) -> Option<i32>
    decreases k,
{
    if k == 0 {
        t
    } else {
        after_ticks(advanced(t), (k - 1) as nat)
    }
}

/// How many of `k` ticks find the timer at exactly `at` before advancing it,
/// that is, how often the action tied to `at` fires.
pub open spec fn fires_in(t: Option<i32>, at: i32, k: nat) -> nat
    decreases k,
{
    if k == 0 {
        0
    } else {
        (if t == Some(at) {
            1nat
        } else {
            0nat
        }) + fires_in(advanced(t), at, (k - 1) as nat)
    }
}

/// A running timer moves by exactly one per tick, and the action tied to
/// threshold `at` fires once over `k` ticks when the timer passes through
/// `at` in them, and never otherwise.
pub proof fn lemma_threshold_fires_once(n: i32, at: i32, k: nat)
    requires
        n + k <= i32::MAX,
    ensures
        after_ticks(Some(n), k) == Some((n + k) as i32),
        fires_in(Some(n), at, k) == (if n <= at < n + k {
            1nat
        } else {
            0nat
        }),
    decreases k,
{
    if k > 0 {
        lemma_threshold_fires_once((n + 1) as i32, at, (k - 1) as nat);
    }
}

/// An inactive timer stays inactive and fires nothing, however many ticks
/// pass.
pub proof fn lemma_inactive_timer_stays(at: i32, k: nat)
    ensures
        after_ticks(None, k) == None::<i32>,
        fires_in(None, at, k) == 0,
    decreases k,
{
    if k > 0 {
        lemma_inactive_timer_stays(at, (k - 1) as nat);
    }
}

/// From a spawn, the spawn timer counts up by one per tick and the status
/// check fires exactly once over the first `k` ticks when `k` is past
/// `STATUS_CHECK_AT`, never before, and never again later in the cycle.
pub proof fn lemma_status_check_once_per_cycle(k: nat)
    requires
        k <= i32::MAX,
    ensures
        after_ticks(Some(0i32), k) == Some(k as i32),
        fires_in(Some(0i32), STATUS_CHECK_AT, k) == (if k > STATUS_CHECK_AT {
            1nat
        } else {
            0nat
        }),
{
    lemma_threshold_fires_once(0, STATUS_CHECK_AT, k);
}

/// From an opened screen, the inventory scan fires exactly once over the
/// first `k` ticks when `k` is past `INVENTORY_SCAN_AT`, and never before.
/// The screen timer's ticks do not read the spawn timer, so this holds
/// whatever state the spawn timer is in.
pub proof fn lemma_inventory_scan_once_per_cycle(k: nat)
    requires
        k <= i32::MAX,
    ensures
        after_ticks(Some(0i32), k) == Some(k as i32),
        fires_in(Some(0i32), INVENTORY_SCAN_AT, k) == (if k > INVENTORY_SCAN_AT {
            1nat
        } else {
            0nat
        }),
{
    lemma_threshold_fires_once(0, INVENTORY_SCAN_AT, k);
}

/// A spawn leaves the timers at (zero, none) whatever they held before, so
/// a second spawn changes nothing and two states with the same target end
/// up equal.
pub proof fn lemma_spawn_idempotent(a: AccountState, b: AccountState)
    ensures
        a.spawned().world_spawn_timer == Some(0i32),
        a.spawned().screen_open_timer.is_none(),
        a.spawned().spawned() == a.spawned(),
        a.target == b.target ==> a.spawned() == b.spawned(),
{
}

/// The rules are tried in order and exactly one applies: limbo masks every
/// other rule, a game other than skyblock masks the visit and the warp, and
/// a visit target masks the warp.
pub proof fn lemma_rule_order(server: Option<Seq<char>>, gametype: Option<Seq<char>>, has_target: bool)
    ensures
        server == Some("limbo"@) <==> rule_for(server, gametype, has_target) == Rule::EscapeLimbo,
        (server != Some("limbo"@) && gametype != Some("SKYBLOCK"@)) <==> rule_for(
            server,
            gametype,
            has_target,
        ) == Rule::JoinSkyblock,
        (server != Some("limbo"@) && gametype == Some("SKYBLOCK"@) && has_target) <==> rule_for(
            server,
            gametype,
            has_target,
        ) == Rule::VisitTarget,
        (server != Some("limbo"@) && gametype == Some("SKYBLOCK"@) && !has_target) <==> rule_for(
            server,
            gametype,
            has_target,
        ) == Rule::WarpHome,
{
}

} // verus!
