//! UI: menu screens.

use vstd::prelude::*;

verus! {

/// A menu screen.
#[derive(Debug, Clone, Copy, PartialEq, Eq, Structural)]
pub enum MenuScreen {
    NoMenu,
    Pause,
    Phone,
    Inventory,
    SafehouseMenu,
    MissionLog,
    FactionLog,
    Options,
    SaveLoad,
}

/// Display name of a `MenuScreen`.
pub open spec fn menu_label(x: MenuScreen) -> Seq<char> {
    match x {
        MenuScreen::NoMenu => ""@,
        MenuScreen::Pause => "Pause"@,
        MenuScreen::Phone => "Phone"@,
        MenuScreen::Inventory => "Inventory"@,
        MenuScreen::SafehouseMenu => "Safehouse"@,
        MenuScreen::MissionLog => "Missions"@,
        MenuScreen::FactionLog => "Factions"@,
        MenuScreen::Options => "Options"@,
        MenuScreen::SaveLoad => "Save/Load"@,
    }
}

impl MenuScreen {
    pub fn label(&self) -> (s: &'static str)
        ensures
            s@ == menu_label(*self),
    {
        match self {
            MenuScreen::NoMenu => "",
            MenuScreen::Pause => "Pause",
            MenuScreen::Phone => "Phone",
            MenuScreen::Inventory => "Inventory",
            MenuScreen::SafehouseMenu => "Safehouse",
            MenuScreen::MissionLog => "Missions",
            MenuScreen::FactionLog => "Factions",
            MenuScreen::Options => "Options",
            MenuScreen::SaveLoad => "Save/Load",
        }
    }
}
/// What the heads-up display shows: money, the wanted level, missions,
/// the clock, the crew, nearby events, the news ticker and any dialog.
#[derive(Debug, Clone)]
pub struct HudState {
    pub cash: u32,
    pub clean: u32,
    pub heat_label: String,
    pub active_missions: Vec<String>,
    pub current_objective: Option<String>,
    pub time_formatted: String,
    pub time_of_day_label: String,
    pub crew_status: Vec<(String, String)>,
    pub nearby_events: Vec<String>,
    pub news_ticker: Option<String>,
    pub dialog_text: Option<String>,
    pub dialog_choices: Vec<String>,
}

/// A display with nothing on it yet.
pub open spec fn hud_is_blank(h: HudState) -> bool {
    &&& h.cash == 0
    &&& h.clean == 0
    &&& h.heat_label@.len() == 0
    &&& h.active_missions@.len() == 0
    &&& h.current_objective is None
    &&& h.time_formatted@.len() == 0
    &&& h.time_of_day_label@.len() == 0
    &&& h.crew_status@.len() == 0
    &&& h.nearby_events@.len() == 0
    &&& h.news_ticker is None
    &&& h.dialog_text is None
    &&& h.dialog_choices@.len() == 0
}

/// The views of a sequence of strings.
pub open spec fn texts(v: Seq<String>) -> Seq<Seq<char>> {
    v.map_values(|s: String| s@)
}

impl Default for HudState {
    fn default() -> (h: HudState)
        ensures
            hud_is_blank(h),
    {
        HudState::new()
    }
}

impl HudState {
    pub fn new() -> (h: HudState)
        ensures
            hud_is_blank(h),
    {
        HudState {
            cash: 0,
            clean: 0,
            heat_label: String::new(),
            active_missions: Vec::new(),
            current_objective: None,
            time_formatted: String::new(),
            time_of_day_label: String::new(),
            crew_status: Vec::new(),
            nearby_events: Vec::new(),
            news_ticker: None,
            dialog_text: None,
            dialog_choices: Vec::new(),
        }
    }

    /// Shows the wanted level's name.
    pub fn set_heat(&mut self, label: &str)
        ensures
            final(self).heat_label@ == label@,
            *final(self) == (HudState { heat_label: final(self).heat_label, ..*old(self) }),
    {
        self.heat_label = label.to_owned();
    }

    pub fn set_objective(&mut self, text: &str)
        ensures
            final(self).current_objective matches Some(t) && t@ == text@,
            *final(self) == (HudState { current_objective: final(self).current_objective, ..*old(self) }),
    {
        self.current_objective = Some(text.to_owned());
    }

    pub fn clear_objective(&mut self)
        ensures
            *final(self) == (HudState { current_objective: None, ..*old(self) }),
    {
        self.current_objective = None;
    }

    /// Shows a line of dialog and the player's choices.
    pub fn set_dialog(&mut self, text: &str, choices: &[String])
        ensures
            final(self).dialog_text matches Some(t) && t@ == text@,
            texts(final(self).dialog_choices@) == texts(choices@),
            *final(self) == (HudState {
                dialog_text: final(self).dialog_text,
                dialog_choices: final(self).dialog_choices,
                ..*old(self)
            }),
    {
        self.dialog_text = Some(text.to_owned());
        let mut v: Vec<String> = Vec::new();
        let mut i: usize = 0;
        while i < choices.len()
            invariant
                0 <= i <= choices@.len(),
                texts(v@) == texts(choices@.take(i as int)),
            decreases choices@.len() - i,
        {
            let c = choices[i].clone();
            proof {
                assert(texts(v@.push(c)) =~= texts(v@).push(c@));
                assert(choices@.take(i as int + 1) =~= choices@.take(i as int).push(choices@[i as int]));
                assert(texts(choices@.take(i as int).push(choices@[i as int])) =~= texts(
                    choices@.take(i as int),
                ).push(choices@[i as int]@));
            }
            v.push(c);
            i = i + 1;
        }
        proof {
            assert(choices@.take(i as int) =~= choices@);
        }
        self.dialog_choices = v;
    }

    pub fn clear_dialog(&mut self)
        ensures
            final(self).dialog_text is None,
            final(self).dialog_choices@.len() == 0,
            *final(self) == (HudState {
                dialog_text: None,
                dialog_choices: final(self).dialog_choices,
                ..*old(self)
            }),
    {
        self.dialog_text = None;
        self.dialog_choices = Vec::new();
    }

    pub fn set_news_ticker(&mut self, headline: &str)
        ensures
            final(self).news_ticker matches Some(t) && t@ == headline@,
            *final(self) == (HudState { news_ticker: final(self).news_ticker, ..*old(self) }),
    {
        self.news_ticker = Some(headline.to_owned());
    }
}

/// Which menu, if any, is open, and the heads-up display.
#[derive(Debug, Clone)]
pub struct UiState {
    pub current_menu: Option<MenuScreen>,
    pub hud: HudState,
}

/// The menu state after toggling `screen`: closed when that screen was open,
/// otherwise that screen.
pub open spec fn toggled(current: Option<MenuScreen>, screen: MenuScreen) -> Option<MenuScreen> {
    if current == Some(screen) { None } else { Some(screen) }
}

impl Default for UiState {
    fn default() -> (u: UiState)
        ensures
            u.current_menu.is_none(),
            hud_is_blank(u.hud),
    {
        UiState::new()
    }
}

impl UiState {
    /// No menu open and a blank display.
    pub fn new() -> (u: UiState)
        ensures
            u.current_menu.is_none(),
            hud_is_blank(u.hud),
    {
        UiState { current_menu: None, hud: HudState::new() }
    }

    pub fn open_menu(&mut self, screen: MenuScreen)
        ensures
            final(self).current_menu == Some(screen),
            final(self).hud == old(self).hud,
    {
        self.current_menu = Some(screen);
    }

    pub fn close_menu(&mut self)
        ensures
            final(self).current_menu.is_none(),
            final(self).hud == old(self).hud,
    {
        self.current_menu = None;
    }

    /// Closes the screen when it is open, opens it otherwise.
    pub fn toggle_menu(&mut self, screen: MenuScreen)
        ensures
            final(self).current_menu == toggled(old(self).current_menu, screen),
            final(self).hud == old(self).hud,
    {
        let open = match self.current_menu {
            Some(s) => s == screen,
            None => false,
        };
        if open {
            self.close_menu();
        } else {
            self.open_menu(screen);
        }
    }
}

/// Toggling the same screen twice leaves the menus as they were, as long as
/// no other screen was open in between (then the first toggle replaced it).
pub proof fn lemma_toggle_twice(current: Option<MenuScreen>, screen: MenuScreen)
    ensures
        (current is None || current == Some(screen)) ==> toggled(toggled(current, screen), screen) == current,
        toggled(current, screen) is Some || current == Some(screen),
{
}

} // verus!
