use vstd::prelude::*;

verus! {

/// Which kinds of sleep are prevented while the session is awake.
#[derive(Clone, Copy, Debug, PartialEq, Eq, Structural)]
pub enum PreventionMode {
    DisplayOnly,
    SystemOnly,
    Both,
}

/// One kind of power assertion handed out by the operating system.
#[derive(Clone, Copy, Debug, PartialEq, Eq, Structural)]
pub enum AssertionKind {
    /// Keeps the display from dimming and sleeping.
    DisplaySleep,
    /// Keeps the machine from idle sleep.
    SystemSleep,
}

/// The two states that the status-bar icon shows.
#[derive(Clone, Copy, Debug, PartialEq, Eq, Structural)]
pub enum Icon {
    Asleep,
    Awake,
}

/// The assertions that `mode` asks for, in the order they are requested.
pub open spec fn kinds_for(mode: PreventionMode) -> Seq<AssertionKind> {
    match mode {
        PreventionMode::DisplayOnly => seq![AssertionKind::DisplaySleep],
        PreventionMode::SystemOnly => seq![AssertionKind::SystemSleep],
        PreventionMode::Both => seq![AssertionKind::DisplaySleep, AssertionKind::SystemSleep],
    }
}

impl PreventionMode {
    /// The assertions to request for this mode, display first.
    pub fn assertion_kinds(self) -> (r: Vec<AssertionKind>)
        ensures
            r@ == kinds_for(self),
    {
        let mut r: Vec<AssertionKind> = Vec::new();
        match self {
            PreventionMode::DisplayOnly => r.push(AssertionKind::DisplaySleep),
            PreventionMode::SystemOnly => r.push(AssertionKind::SystemSleep),
            PreventionMode::Both => {
                r.push(AssertionKind::DisplaySleep);
                r.push(AssertionKind::SystemSleep);
            },
        }
        assert(r@ =~= kinds_for(self));
        r
    }

    /// Position of this mode's entry in the mode menu.
    pub fn menu_index(self) -> (r: usize)
        ensures
            r < 3,
            r == match self {
                PreventionMode::DisplayOnly => 0usize,
                PreventionMode::SystemOnly => 1usize,
                PreventionMode::Both => 2usize,
            },
    {
        match self {
            PreventionMode::DisplayOnly => 0,
            PreventionMode::SystemOnly => 1,
            PreventionMode::Both => 2,
        }
    }
}

impl AssertionKind {
    /// The assertion type string that the power-management interface expects.
    pub fn assertion_type(self) -> (r: &'static str)
        ensures
            r@ == match self {
                AssertionKind::DisplaySleep => "PreventUserIdleDisplaySleep"@,
                AssertionKind::SystemSleep => "PreventUserIdleSystemSleep"@,
            },
    {
        match self {
            AssertionKind::DisplaySleep => "PreventUserIdleDisplaySleep",
            AssertionKind::SystemSleep => "PreventUserIdleSystemSleep",
        }
    }
}

impl Icon {
    /// Name of the system symbol drawn for this state.
    pub fn symbol_name(self) -> (r: &'static str)
        ensures
            r@ == match self {
                Icon::Asleep => "moon.zzz.fill"@,
                Icon::Awake => "cup.and.saucer.fill"@,
            },
    {
        match self {
            Icon::Asleep => "moon.zzz.fill",
            Icon::Awake => "cup.and.saucer.fill",
        }
    }
}

} // verus!
