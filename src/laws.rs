use vstd::prelude::*;

use crate::mode::{kinds_for, PreventionMode};
use crate::session::{
    activated, all_granted, can_grant, deactivate_effects, deactivated, expire_effects, expired,
    expiry_at, fires, grant_effects, granted, granted_handles, mode_set, no_effects,
    quit_effects, set_mode_effects, timed, timed_effects, toggled, SessionState,
};

verus! {

/// One call made on a session by its user, or one answer of the system to
/// the assertions it was asked for.
pub enum Call {
    Activate,
    Deactivate,
    Toggle,
    Answer(Seq<u32>),
}

/// The state after `call`; a call whose precondition does not hold leaves
/// the state as it is.
pub open spec fn apply(s: SessionState, call: Call) -> SessionState {
    match call {
        Call::Activate => if s.ready() {
            activated(s)
        } else {
            s
        },
        Call::Deactivate => deactivated(s),
        Call::Toggle => if s.ready() {
            toggled(s)
        } else {
            s
        },
        Call::Answer(handles) => if can_grant(s, handles, 0) {
            granted(s, handles, 0)
        } else {
            s
        },
    }
}

/// The state after `calls`, made in order from `s`.
pub open spec fn run(s: SessionState, calls: Seq<Call>) -> SessionState
    decreases calls.len(),
{
    if calls.len() == 0 {
        s
    } else {
        apply(run(s, calls.drop_last()), calls.last())
    }
}

/// A well-formed session is awake exactly when it holds a handle, and it
/// never holds more than two.
pub proof fn law_awake_iff_holding(s: SessionState)
    requires
        s.inv(),
    ensures
        s.is_awake() <==> s.held().len() > 0,
        s.held().len() <= 2,
        s.is_awake() ==> s.held().len() == kinds_for(s.mode).len(),
{
}

/// Every step keeps a session well formed.
pub proof fn law_steps_keep_invariant(s: SessionState, mode: PreventionMode, handles: Seq<u32>, now: u64, expiry: u64, minutes: u64)
    requires
        s.inv(),
    ensures
        deactivated(s).inv(),
        expired(s, expiry).inv(),
        s.ready() ==> activated(s).inv() && toggled(s).inv() && mode_set(s, mode).inv() && timed(
            s,
            minutes,
        ).inv(),
        can_grant(s, handles, now) ==> granted(s, handles, now).inv(),
{
}

/// Whatever sequence of activations, deactivations, toggles and answers is
/// made, the session stays well formed: it is awake exactly when a slot is
/// filled, and at most two handles are held.
pub proof fn law_any_sequence(s: SessionState, calls: Seq<Call>)
    requires
        s.inv(),
    ensures
        run(s, calls).inv(),
        run(s, calls).is_awake() <==> run(s, calls).held().len() > 0,
        run(s, calls).held().len() <= 2,
    decreases calls.len(),
{
    if calls.len() > 0 {
        law_any_sequence(s, calls.drop_last());
        law_steps_keep_invariant(run(s, calls.drop_last()), PreventionMode::Both, seq![], 0, 0, 0);
        match calls.last() {
            Call::Answer(handles) => {
                law_steps_keep_invariant(
                    run(s, calls.drop_last()),
                    PreventionMode::Both,
                    handles,
                    0,
                    0,
                    0,
                );
            },
            _ => {},
        }
    }
}

/// Deactivating an asleep session changes nothing and releases nothing.
pub proof fn law_deactivate_when_asleep(s: SessionState)
    requires
        s.inv(),
        !s.is_awake(),
    ensures
        deactivated(s) == s,
        deactivate_effects(s).release.len() == 0,
        !deactivate_effects(s).cancel_waiter,
{
}

/// Changing the mode of an awake session releases every handle of the old
/// mode before anything is asked for the new one, and afterwards only
/// handles the system gave for the new mode are held.
pub proof fn law_set_mode_replaces_handles(
    s: SessionState,
    mode: PreventionMode,
    handles: Seq<u32>,
    now: u64,
)
    requires
        s.inv(),
        s.ready(),
        s.is_awake(),
        handles.len() == kinds_for(mode).len(),
    ensures
        set_mode_effects(s, mode).release == s.held(),
        set_mode_effects(s, mode).create == kinds_for(mode),
        mode_set(s, mode).held().len() == 0,
        mode_set(s, mode).mode == mode,
        can_grant(mode_set(s, mode), handles, now),
        granted(mode_set(s, mode), handles, now).held() == if all_granted(handles) {
            handles
        } else {
            seq![]
        },
{
    let u = granted(mode_set(s, mode), handles, now);
    if all_granted(handles) {
        assert(u.held() =~= handles);
    }
}

/// A second timed activation made while the first countdown runs tells the
/// first waiter to stop, and from then on only the second countdown's expiry
/// deactivates the session; a report of the first, when it ends at another
/// instant, does nothing.
pub proof fn law_newer_countdown_supersedes(
    s: SessionState,
    first_minutes: u64,
    first_handles: Seq<u32>,
    first_now: u64,
    second_minutes: u64,
    second_handles: Seq<u32>,
    second_now: u64,
)
    requires
        s.inv(),
        s.ready(),
        can_grant(timed(s, first_minutes), first_handles, first_now),
        all_granted(first_handles),
        can_grant(
            timed(granted(timed(s, first_minutes), first_handles, first_now), second_minutes),
            second_handles,
            second_now,
        ),
        all_granted(second_handles),
    ensures
        ({
            let first = granted(timed(s, first_minutes), first_handles, first_now);
            let second = granted(timed(first, second_minutes), second_handles, second_now);
            let first_expiry = expiry_at(first_now, first_minutes) as u64;
            let second_expiry = expiry_at(second_now, second_minutes) as u64;
            &&& first.timer == Some(first_expiry)
            &&& timed_effects(first).cancel_waiter
            &&& timed_effects(first).release == first.held()
            &&& second.timer == Some(second_expiry)
            &&& forall|e: u64| fires(second, e) <==> e == second_expiry
            &&& first_expiry != second_expiry ==> expired(second, first_expiry) == second
                && expire_effects(second, first_expiry) == no_effects()
        }),
{
}

/// Deactivating during a countdown leaves nothing to fire: the waiter is
/// told to stop, and a late report of its expiry changes nothing.
pub proof fn law_deactivate_cancels_countdown(
    s: SessionState,
    minutes: u64,
    handles: Seq<u32>,
    now: u64,
)
    requires
        s.inv(),
        s.ready(),
        can_grant(timed(s, minutes), handles, now),
        all_granted(handles),
    ensures
        ({
            let running = granted(timed(s, minutes), handles, now);
            let stopped = deactivated(running);
            &&& deactivate_effects(running).cancel_waiter
            &&& deactivate_effects(running).release == running.held()
            &&& forall|e: u64| !fires(stopped, e)
            &&& forall|e: u64| expired(stopped, e) == stopped && expire_effects(stopped, e)
                == no_effects()
        }),
{
}

/// When the system refuses any requested assertion, nothing is held and
/// each handle it did grant is handed back for release.
pub proof fn law_partial_grant_rolls_back(s: SessionState, handles: Seq<u32>, now: u64)
    requires
        s.inv(),
        can_grant(s, handles, now),
        !all_granted(handles),
    ensures
        granted(s, handles, now).held().len() == 0,
        !granted(s, handles, now).is_awake(),
        grant_effects(s, handles, now).release == granted_handles(handles),
        grant_effects(s, handles, now).start_timer is None,
{
}

/// Under both kinds, a granted display assertion with a refused system one
/// is released, and nothing is held afterwards.
pub proof fn law_display_only_granted_rolls_back(s: SessionState, display: u32, now: u64)
    requires
        s.inv(),
        s.pending is Activation,
        s.mode is Both,
        display != 0,
    ensures
        granted(s, seq![display, 0], now).held().len() == 0,
        grant_effects(s, seq![display, 0], now).release == seq![display],
{
    let handles = seq![display, 0u32];
    assert(handles[1] == 0);
    reveal_with_fuel(Seq::filter, 3);
    assert(handles.drop_last() =~= seq![display]);
    assert(seq![display].drop_last() =~= Seq::<u32>::empty());
    assert(granted_handles(handles) =~= seq![display]);
}

/// Quitting stops and joins the waiter in flight, releases each held handle
/// once, and leaves nothing that a later quit would release again.
pub proof fn law_quit_releases_once(s: SessionState)
    requires
        s.inv(),
        s.ready(),
    ensures
        quit_effects(s).release == s.held(),
        quit_effects(s).cancel_waiter == (s.timer is Some),
        quit_effects(s).join_waiter == (s.timer is Some),
        deactivated(s).held().len() == 0,
        deactivated(s).timer is None,
        quit_effects(deactivated(s)).release.len() == 0,
        !quit_effects(deactivated(s)).join_waiter,
{
}

} // verus!
