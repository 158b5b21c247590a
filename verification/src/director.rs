//! AI director: tension levels and the events it can trigger.

use vstd::prelude::*;

verus! {

/// Tension the director aims for.
#[derive(Debug, Clone, Copy, PartialEq, Eq, Structural)]
pub enum TensionLevel {
    /// Very quiet: the director will soon trigger something.
    Calm,
    /// Normal activity.
    Medium,
    /// High tension: the director keeps a low profile.
    High,
    /// Chaos: the director lets things play out.
    Chaos,
}

/// Display name of a `TensionLevel`.
pub open spec fn tension_label(x: TensionLevel) -> Seq<char> {
    match x {
        TensionLevel::Calm => "Calm"@,
        TensionLevel::Medium => "Medium"@,
        TensionLevel::High => "High"@,
        TensionLevel::Chaos => "Chaos"@,
    }
}

impl TensionLevel {
    pub fn label(&self) -> (s: &'static str)
        ensures
            s@ == tension_label(*self),
    {
        match self {
            TensionLevel::Calm => "Calm",
            TensionLevel::Medium => "Medium",
            TensionLevel::High => "High",
            TensionLevel::Chaos => "Chaos",
        }
    }
}
/// Event kinds the director triggers.
#[derive(Debug, Clone, Copy, PartialEq, Eq, Structural, Hash)]
pub enum DirectorEvent {
    RandomStreetEvent,
    AmbientFlavor,
    PolicePressure,
    RivalAttack,
    ContactCall,
    NewsReport,
}

/// Display name of a `DirectorEvent`.
pub open spec fn director_event_label(x: DirectorEvent) -> Seq<char> {
    match x {
        DirectorEvent::RandomStreetEvent => "Random Street Event"@,
        DirectorEvent::AmbientFlavor => "Ambient Flavor"@,
        DirectorEvent::PolicePressure => "Police Pressure"@,
        DirectorEvent::RivalAttack => "Rival Attack"@,
        DirectorEvent::ContactCall => "Contact Call"@,
        DirectorEvent::NewsReport => "News Report"@,
    }
}

impl DirectorEvent {
    pub fn label(&self) -> (s: &'static str)
        ensures
            s@ == director_event_label(*self),
    {
        match self {
            DirectorEvent::RandomStreetEvent => "Random Street Event",
            DirectorEvent::AmbientFlavor => "Ambient Flavor",
            DirectorEvent::PolicePressure => "Police Pressure",
            DirectorEvent::RivalAttack => "Rival Attack",
            DirectorEvent::ContactCall => "Contact Call",
            DirectorEvent::NewsReport => "News Report",
        }
    }
}

/// Seconds without an event after which the director schedules one at
/// this tension; in chaos it never does.
pub open spec fn quiet_threshold_of(t: TensionLevel) -> Option<u32> {
    match t {
        TensionLevel::Calm => Some(60),
        TensionLevel::Medium => Some(90),
        TensionLevel::High => Some(180),
        TensionLevel::Chaos => None,
    }
}

/// The event the director schedules at this tension: drama when it has
/// been calm, ambient flavour at medium tension, police pressure when
/// tension is high, nothing in chaos.
pub open spec fn scheduled_event_of(t: TensionLevel) -> Option<DirectorEvent> {
    match t {
        TensionLevel::Calm => Some(DirectorEvent::RandomStreetEvent),
        TensionLevel::Medium => Some(DirectorEvent::AmbientFlavor),
        TensionLevel::High => Some(DirectorEvent::PolicePressure),
        TensionLevel::Chaos => None,
    }
}

/// Seconds of cooldown after an event triggered at this tension.
pub open spec fn cooldown_of(t: TensionLevel) -> u32 {
    match t {
        TensionLevel::Calm => 45,
        TensionLevel::Medium => 60,
        TensionLevel::High => 120,
        TensionLevel::Chaos => 180,
    }
}

impl TensionLevel {
    pub fn quiet_threshold(&self) -> (s: Option<u32>)
        ensures
            s == quiet_threshold_of(*self),
    {
        match self {
            TensionLevel::Calm => Some(60),
            TensionLevel::Medium => Some(90),
            TensionLevel::High => Some(180),
            TensionLevel::Chaos => None,
        }
    }

    pub fn scheduled_event(&self) -> (e: Option<DirectorEvent>)
        ensures
            e == scheduled_event_of(*self),
    {
        match self {
            TensionLevel::Calm => Some(DirectorEvent::RandomStreetEvent),
            TensionLevel::Medium => Some(DirectorEvent::AmbientFlavor),
            TensionLevel::High => Some(DirectorEvent::PolicePressure),
            TensionLevel::Chaos => None,
        }
    }

    pub fn cooldown_after_event(&self) -> (s: u32)
        ensures
            s == cooldown_of(*self),
    {
        match self {
            TensionLevel::Calm => 45,
            TensionLevel::Medium => 60,
            TensionLevel::High => 120,
            TensionLevel::Chaos => 180,
        }
    }
}

/// The director's choice: never while it is cooling down, otherwise the
/// event scheduled at the current tension once the quiet period of that
/// tension is over.
pub open spec fn chosen_event(tension: TensionLevel, cooling_down: bool, quiet_period_over: bool) -> Option<
    DirectorEvent,
> {
    if cooling_down || !quiet_period_over {
        None
    } else {
        scheduled_event_of(tension)
    }
}

/// Whether the director triggers an event now, and which (see
/// `chosen_event`); the caller measures the cooldown and the quiet period
/// against `quiet_threshold`.
pub fn choose_event(tension: TensionLevel, cooling_down: bool, quiet_period_over: bool) -> (e: Option<
    DirectorEvent,
>)
    ensures
        e == chosen_event(tension, cooling_down, quiet_period_over),
{
    if cooling_down {
        return None;
    }
    if quiet_period_over {
        tension.scheduled_event()
    } else {
        None
    }
}

/// In chaos the director stands back: whatever the timers say, it
/// triggers nothing; and while cooling down it triggers nothing at any
/// tension.
pub proof fn lemma_director_holds_back(tension: TensionLevel, cooling_down: bool, quiet_period_over: bool)
    ensures
        chosen_event(TensionLevel::Chaos, cooling_down, quiet_period_over) is None,
        chosen_event(tension, true, quiet_period_over) is None,
{
}

/// Every tension that schedules an event has a quiet period, and the
/// calmer the city the sooner the director steps in.
pub proof fn lemma_calmer_means_sooner()
    ensures
        forall|t: TensionLevel| (#[trigger] scheduled_event_of(t)) is Some <==> quiet_threshold_of(t) is Some,
        quiet_threshold_of(TensionLevel::Calm)->0 < quiet_threshold_of(TensionLevel::Medium)->0,
        quiet_threshold_of(TensionLevel::Medium)->0 < quiet_threshold_of(TensionLevel::High)->0,
{
}

} // verus!
