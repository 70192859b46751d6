use vstd::prelude::*;

use crate::mode::{kinds_for, AssertionKind, Icon, PreventionMode};

verus! {

/// An activation that has asked for assertions and now waits for the
/// operating system's answers.
#[derive(Clone, Copy, Debug, PartialEq, Eq, Structural)]
pub enum Pending {
    Nothing,
    /// A plain activation.
    Activation,
    /// An activation that starts a countdown of `minutes` once it succeeds.
    TimedActivation { minutes: u64 },
}

/// A countdown to start: a waiter that sleeps `seconds` and then reports
/// `expiry` back through `KeepAwake::timer_expired`.
#[derive(Clone, Copy, Debug, PartialEq, Eq, Structural)]
pub struct TimerStart {
    pub expiry: u64,
    pub seconds: u64,
}

/// The plain state of a session. A handle of 0 marks an empty slot; `timer`
/// holds the expiry (seconds since the epoch) of the countdown in flight.
#[derive(Clone, Copy, Debug, PartialEq, Eq, Structural)]
pub struct SessionState {
    pub mode: PreventionMode,
    pub primary: u32,
    pub secondary: u32,
    pub timer: Option<u64>,
    pub pending: Pending,
}

/// What the caller has to do after a step, in this order: signal (and, if
/// asked, join) the waiter in flight, release the handles, show the icon,
/// check the mode entry, request the assertions and hand the answers to
/// `KeepAwake::grant`, start the countdown.
pub struct Effects {
    pub cancel_waiter: bool,
    pub join_waiter: bool,
    pub release: Vec<u32>,
    pub icon: Option<Icon>,
    pub mode_menu: Option<PreventionMode>,
    pub create: Vec<AssertionKind>,
    pub start_timer: Option<TimerStart>,
}

/// The mathematical content of `Effects`.
pub struct EffectsView {
    pub cancel_waiter: bool,
    pub join_waiter: bool,
    pub release: Seq<u32>,
    pub icon: Option<Icon>,
    pub mode_menu: Option<PreventionMode>,
    pub create: Seq<AssertionKind>,
    pub start_timer: Option<TimerStart>,
}

impl View for Effects {
    type V = EffectsView;

    open spec fn view(&self) -> EffectsView {
        EffectsView {
            cancel_waiter: self.cancel_waiter,
            join_waiter: self.join_waiter,
            release: self.release@,
            icon: self.icon,
            mode_menu: self.mode_menu,
            create: self.create@,
            start_timer: self.start_timer,
        }
    }
}

impl SessionState {
    /// The handles held, in slot order.
    pub open spec fn held(self) -> Seq<u32> {
        if self.primary == 0 {
            seq![]
        } else if self.secondary == 0 {
            seq![self.primary]
        } else {
            seq![self.primary, self.secondary]
        }
    }

    pub open spec fn is_awake(self) -> bool {
        self.primary != 0
    }

    /// No activation waits for answers.
    pub open spec fn ready(self) -> bool {
        self.pending is Nothing
    }

    /// The slots fill from the first, an awake session holds exactly the
    /// assertions of its mode, a countdown runs only while awake, and an
    /// activation waits only from an empty, timerless state.
    pub open spec fn inv(self) -> bool {
        &&& (self.secondary != 0 ==> self.primary != 0)
        &&& (self.primary != 0 ==> (self.secondary != 0 <==> self.mode is Both))
        &&& (self.timer is Some ==> self.primary != 0)
        &&& (!self.ready() ==> self.primary == 0 && self.timer is None)
    }
}

/// The state of a fresh session: asleep, no countdown, both kinds selected.
pub open spec fn initial_state() -> SessionState {
    SessionState {
        mode: PreventionMode::Both,
        primary: 0,
        secondary: 0,
        timer: None,
        pending: Pending::Nothing,
    }
}

/// A step that asks nothing of the caller.
pub open spec fn no_effects() -> EffectsView {
    EffectsView {
        cancel_waiter: false,
        join_waiter: false,
        release: seq![],
        icon: None,
        mode_menu: None,
        create: seq![],
        start_timer: None,
    }
}

pub open spec fn deactivated(s: SessionState) -> SessionState {
    SessionState { primary: 0, secondary: 0, timer: None, ..s }
}

pub open spec fn deactivate_effects(s: SessionState) -> EffectsView {
    EffectsView {
        cancel_waiter: s.timer is Some,
        release: s.held(),
        icon: Some(Icon::Asleep),
        ..no_effects()
    }
}

pub open spec fn activated(s: SessionState) -> SessionState {
    if s.is_awake() {
        s
    } else {
        SessionState { pending: Pending::Activation, ..s }
    }
}

pub open spec fn activate_effects(s: SessionState) -> EffectsView {
    if s.is_awake() {
        no_effects()
    } else {
        EffectsView { create: kinds_for(s.mode), ..no_effects() }
    }
}

pub open spec fn toggled(s: SessionState) -> SessionState {
    if s.is_awake() {
        deactivated(s)
    } else {
        activated(s)
    }
}

pub open spec fn toggle_effects(s: SessionState) -> EffectsView {
    if s.is_awake() {
        deactivate_effects(s)
    } else {
        activate_effects(s)
    }
}

pub open spec fn mode_set(s: SessionState, mode: PreventionMode) -> SessionState {
    if s.is_awake() {
        SessionState { mode, pending: Pending::Activation, ..deactivated(s) }
    } else {
        SessionState { mode, ..s }
    }
}

pub open spec fn set_mode_effects(s: SessionState, mode: PreventionMode) -> EffectsView {
    if s.is_awake() {
        EffectsView { mode_menu: Some(mode), create: kinds_for(mode), ..deactivate_effects(s) }
    } else {
        EffectsView { mode_menu: Some(mode), ..no_effects() }
    }
}

pub open spec fn timed(s: SessionState, minutes: u64) -> SessionState {
    SessionState { pending: Pending::TimedActivation { minutes }, ..deactivated(s) }
}

pub open spec fn timed_effects(s: SessionState) -> EffectsView {
    EffectsView { create: kinds_for(s.mode), ..deactivate_effects(s) }
}

/// Every requested assertion was granted (the system answers 0 on failure).
pub open spec fn all_granted(handles: Seq<u32>) -> bool {
    forall|i: int| 0 <= i < handles.len() ==> handles[i] != 0
}

/// The handles that were granted, in request order.
pub open spec fn granted_handles(handles: Seq<u32>) -> Seq<u32> {
    handles.filter(|h: u32| h != 0)
}

/// The instant a countdown of `minutes` started at `now` ends.
pub open spec fn expiry_at(now: u64, minutes: u64) -> int {
    now + minutes * 60
}

/// The countdown that the waiting activation starts once it succeeds.
pub open spec fn countdown(s: SessionState, now: u64) -> Option<TimerStart> {
    match s.pending {
        Pending::TimedActivation { minutes } => Some(
            TimerStart { expiry: expiry_at(now, minutes) as u64, seconds: (minutes * 60) as u64 },
        ),
        _ => None,
    }
}

/// The waiting activation can take `handles` (one per requested kind) at
/// `now` without overflow.
pub open spec fn can_grant(s: SessionState, handles: Seq<u32>, now: u64) -> bool {
    &&& !s.ready()
    &&& handles.len() == kinds_for(s.mode).len()
    &&& (s.pending matches Pending::TimedActivation { minutes } ==> expiry_at(now, minutes)
        <= u64::MAX)
}

pub open spec fn granted(s: SessionState, handles: Seq<u32>, now: u64) -> SessionState {
    if all_granted(handles) {
        SessionState {
            primary: handles[0],
            secondary: if handles.len() == 2 {
                handles[1]
            } else {
                0
            },
            timer: match countdown(s, now) {
                Some(t) => Some(t.expiry),
                None => None,
            },
            pending: Pending::Nothing,
            ..s
        }
    } else {
        SessionState { pending: Pending::Nothing, ..s }
    }
}

pub open spec fn grant_effects(s: SessionState, handles: Seq<u32>, now: u64) -> EffectsView {
    if all_granted(handles) {
        EffectsView { icon: Some(Icon::Awake), start_timer: countdown(s, now), ..no_effects() }
    } else {
        EffectsView { release: granted_handles(handles), ..no_effects() }
    }
}

/// The countdown that ends at `expiry` is the one in flight.
pub open spec fn fires(s: SessionState, expiry: u64) -> bool {
    s.timer == Some(expiry)
}

pub open spec fn expired(s: SessionState, expiry: u64) -> SessionState {
    if fires(s, expiry) {
        deactivated(s)
    } else {
        s
    }
}

pub open spec fn expire_effects(s: SessionState, expiry: u64) -> EffectsView {
    if fires(s, expiry) {
        deactivate_effects(s)
    } else {
        no_effects()
    }
}

pub open spec fn quit_effects(s: SessionState) -> EffectsView {
    EffectsView { join_waiter: s.timer is Some, ..deactivate_effects(s) }
}

/// A keep-awake session: the mode, the two assertion slots, the countdown in
/// flight, and the activation that waits for the system's answers.
pub struct KeepAwake {
    state: SessionState,
}

impl View for KeepAwake {
    type V = SessionState;

    closed spec fn view(&self) -> SessionState {
        self.state
    }
}

impl KeepAwake {
    pub open spec fn wf(&self) -> bool {
        self@.inv()
    }

    /// A session that is asleep, with no countdown, preventing both kinds
    /// of sleep once activated.
    pub fn new() -> (r: Self)
        ensures
            r.wf(),
            r@ == initial_state(),
    {
        KeepAwake {
            state: SessionState {
                mode: PreventionMode::Both,
                primary: 0,
                secondary: 0,
                timer: None,
                pending: Pending::Nothing,
            },
        }
    }

    /// Whether at least one assertion is held.
    pub fn is_awake(&self) -> (r: bool)
        ensures
            r == self@.is_awake(),
    {
        self.state.primary != 0
    }

    pub fn mode(&self) -> (r: PreventionMode)
        ensures
            r == self@.mode,
    {
        self.state.mode
    }

    /// The expiry of the countdown in flight, if any.
    pub fn timer_expiry(&self) -> (r: Option<u64>)
        ensures
            r == self@.timer,
    {
        self.state.timer
    }

    /// Whether an activation waits for `grant`.
    pub fn is_waiting(&self) -> (r: bool)
        ensures
            r == !self@.ready(),
    {
        match self.state.pending {
            Pending::Nothing => false,
            _ => true,
        }
    }

    /// The handles held, in slot order.
    pub fn held_handles(&self) -> (r: Vec<u32>)
        ensures
            r@ == self@.held(),
    {
        let mut r: Vec<u32> = Vec::new();
        if self.state.primary != 0 {
            r.push(self.state.primary);
            if self.state.secondary != 0 {
                r.push(self.state.secondary);
            }
        }
        assert(r@ =~= self@.held());
        r
    }

    /// Forgets the countdown in flight; true when its waiter must be told to
    /// stop.
    pub fn cancel_timer(&mut self) -> (r: bool)
        requires
            old(self).wf(),
        ensures
            final(self).wf(),
            r == old(self)@.timer is Some,
            final(self)@ == (SessionState { timer: None, ..old(self)@ }),
    {
        let r = self.state.timer.is_some();
        self.state.timer = None;
        r
    }

    /// Empties both slots and returns what they held.
    fn take_handles(&mut self) -> (r: Vec<u32>)
        requires
            old(self).wf(),
            old(self)@.timer is None,
        ensures
            final(self).wf(),
            r@ == old(self)@.held(),
            final(self)@ == deactivated(old(self)@),
    {
        let r = self.held_handles();
        self.state.primary = 0;
        self.state.secondary = 0;
        r
    }

    /// Drops the countdown and every assertion held.
    pub fn deactivate(&mut self) -> (e: Effects)
        requires
            old(self).wf(),
        ensures
            final(self).wf(),
            final(self)@ == deactivated(old(self)@),
            e@ == deactivate_effects(old(self)@),
    {
        let cancel_waiter = self.cancel_timer();
        let release = self.take_handles();
        Effects {
            cancel_waiter,
            join_waiter: false,
            release,
            icon: Some(Icon::Asleep),
            mode_menu: None,
            create: Vec::new(),
            start_timer: None,
        }
    }

    /// Asks for the assertions of the current mode, unless already awake.
    pub fn activate(&mut self) -> (e: Effects)
        requires
            old(self).wf(),
            old(self)@.ready(),
        ensures
            final(self).wf(),
            final(self)@ == activated(old(self)@),
            e@ == activate_effects(old(self)@),
    {
        let mut create: Vec<AssertionKind> = Vec::new();
        if !self.is_awake() {
            create = self.state.mode.assertion_kinds();
            self.state.pending = Pending::Activation;
        }
        let e = Effects {
            cancel_waiter: false,
            join_waiter: false,
            release: Vec::new(),
            icon: None,
            mode_menu: None,
            create,
            start_timer: None,
        };
        assert(e@.release =~= seq![]);
        assert(e@.create =~= activate_effects(old(self)@).create);
        e
    }

    /// Deactivates when awake, activates otherwise.
    pub fn toggle(&mut self) -> (e: Effects)
        requires
            old(self).wf(),
            old(self)@.ready(),
        ensures
            final(self).wf(),
            final(self)@ == toggled(old(self)@),
            e@ == toggle_effects(old(self)@),
    {
        if self.is_awake() {
            self.deactivate()
        } else {
            self.activate()
        }
    }

    /// Selects `mode`; an awake session drops its assertions and asks for
    /// those of the new mode.
    pub fn set_mode(&mut self, mode: PreventionMode) -> (e: Effects)
        requires
            old(self).wf(),
            old(self)@.ready(),
        ensures
            final(self).wf(),
            final(self)@ == mode_set(old(self)@, mode),
            e@ == set_mode_effects(old(self)@, mode),
    {
        if self.is_awake() {
            let e = self.deactivate();
            self.state.mode = mode;
            let a = self.activate();
            let r = Effects { mode_menu: Some(mode), create: a.create, ..e };
            assert(r@ == set_mode_effects(old(self)@, mode));
            r
        } else {
            self.state.mode = mode;
            let r = Effects {
                cancel_waiter: false,
                join_waiter: false,
                release: Vec::new(),
                icon: None,
                mode_menu: Some(mode),
                create: Vec::new(),
                start_timer: None,
            };
            assert(r@.release =~= seq![]);
            assert(r@.create =~= seq![]);
            r
        }
    }

    /// Restarts the session and, once the assertions are granted, keeps it
    /// awake for `minutes`.
    pub fn activate_for_duration(&mut self, minutes: u64) -> (e: Effects)
        requires
            old(self).wf(),
            old(self)@.ready(),
            minutes * 60 <= u64::MAX,
        ensures
            final(self).wf(),
            final(self)@ == timed(old(self)@, minutes),
            e@ == timed_effects(old(self)@),
    {
        let e = self.deactivate();
        let a = self.activate();
        self.state.pending = Pending::TimedActivation { minutes };
        Effects { create: a.create, ..e }
    }

    /// Takes the system's answers to the assertions requested, in request
    /// order (0 for a refusal). All granted: the session is awake and the
    /// countdown, if any, starts at `now`. Otherwise nothing is kept and the
    /// granted ones are handed back for release.
    pub fn grant(&mut self, handles: &Vec<u32>, now: u64) -> (e: Effects)
        requires
            old(self).wf(),
            can_grant(old(self)@, handles@, now),
        ensures
            final(self).wf(),
            final(self)@ == granted(old(self)@, handles@, now),
            e@ == grant_effects(old(self)@, handles@, now),
    {
        let n = handles.len();
        let mut all: bool = true;
        let mut kept: Vec<u32> = Vec::new();
        let mut i: usize = 0;
        while i < n
            invariant
                n == handles@.len(),
                i <= n,
                all == all_granted(handles@.subrange(0, i as int)),
                kept@ == granted_handles(handles@.subrange(0, i as int)),
            decreases n - i,
        {
            let h = handles[i];
            proof {
                let prefix = handles@.subrange(0, i as int + 1);
                assert(prefix.drop_last() =~= handles@.subrange(0, i as int));
                assert(prefix.last() == h);
                reveal(Seq::filter);
            }
            if h == 0 {
                all = false;
            } else {
                kept.push(h);
            }
            i = i + 1;
        }
        assert(handles@.subrange(0, n as int) =~= handles@);
        let countdown = match self.state.pending {
            Pending::TimedActivation { minutes } => Some(
                TimerStart { expiry: now + minutes * 60, seconds: minutes * 60 },
            ),
            _ => None,
        };
        self.state.pending = Pending::Nothing;
        if all {
            self.state.primary = handles[0];
            self.state.secondary = if n == 2 {
                handles[1]
            } else {
                0
            };
            self.state.timer = match countdown {
                Some(t) => Some(t.expiry),
                None => None,
            };
            let e = Effects {
                cancel_waiter: false,
                join_waiter: false,
                release: Vec::new(),
                icon: Some(Icon::Awake),
                mode_menu: None,
                create: Vec::new(),
                start_timer: countdown,
            };
            assert(e@.release =~= seq![]);
            assert(e@.create =~= seq![]);
            e
        } else {
            let e = Effects {
                cancel_waiter: false,
                join_waiter: false,
                release: kept,
                icon: None,
                mode_menu: None,
                create: Vec::new(),
                start_timer: None,
            };
            assert(e@.create =~= seq![]);
            e
        }
    }

    /// A waiter reports that the countdown ending at `expiry` has run out:
    /// the session is deactivated only when that countdown is still the one
    /// in flight.
    pub fn timer_expired(&mut self, expiry: u64) -> (e: Effects)
        requires
            old(self).wf(),
        ensures
            final(self).wf(),
            final(self)@ == expired(old(self)@, expiry),
            e@ == expire_effects(old(self)@, expiry),
    {
        if self.state.timer == Some(expiry) {
            self.deactivate()
        } else {
            let e = Effects {
                cancel_waiter: false,
                join_waiter: false,
                release: Vec::new(),
                icon: None,
                mode_menu: None,
                create: Vec::new(),
                start_timer: None,
            };
            assert(e@.release =~= seq![]);
            assert(e@.create =~= seq![]);
            e
        }
    }

    /// Shuts the session down: the waiter in flight is stopped and joined,
    /// and every assertion held is released.
    pub fn quit(&mut self) -> (e: Effects)
        requires
            old(self).wf(),
            old(self)@.ready(),
        ensures
            final(self).wf(),
            final(self)@ == deactivated(old(self)@),
            e@ == quit_effects(old(self)@),
    {
        let e = self.deactivate();
        let join_waiter = e.cancel_waiter;
        Effects { join_waiter, ..e }
    }
}

} // verus!
