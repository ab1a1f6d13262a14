//! The application state and its transition function.
//!
//! `App` holds everything the application knows: the selected theme, the
//! current page, the derived screen for that page, and one score per team.
//! `update` consumes one `Message` at a time and is the only way state
//! changes; its contract pins the successor state down exactly via
//! [`App::spec_step`].

use vstd::prelude::*;

verus! {

/// The two selectable color themes.
#[derive(Debug, Clone, Copy, PartialEq, Eq, Structural)]
pub enum ThemeType {
    Light,
    Dark,
}

/// One of the two scoring teams.
#[derive(Debug, Clone, Copy, PartialEq, Eq, Structural)]
pub enum Team {
    One,
    Two,
}

/// A discrete user action delivered by the event loop.
#[derive(Debug, Clone, Copy, PartialEq, Eq, Structural)]
pub enum Message {
    ThemeChanged(ThemeType),
    IncrementPressed(Team),
    DecrementPressed(Team),
    PageBack,
    PageForward,
}

/// The screen that a page number resolves to.
#[derive(Debug, Clone, Copy, PartialEq, Eq, Structural)]
pub enum State {
    Counter,
    Settings,
    NotFound,
}

/// The whole application state.
#[derive(Debug, Clone, Copy, PartialEq, Eq, Structural)]
pub struct App {
    pub theme: ThemeType,
    pub state: State,
    pub team_one_score: u32,
    pub team_two_score: u32,
    pub page: u8,
    pub pages: u8,
}

/// The total mapping from a page number to its screen.
pub open spec fn spec_state_of_page(page: u8) -> State {
    if page == 1 {
        State::Counter
    } else if page == 2 {
        State::Settings
    } else {
        State::NotFound
    }
}

/// Exec counterpart of [`spec_state_of_page`].
pub fn state_of_page(page: u8) -> (s: State)
    ensures
        s == spec_state_of_page(page),
{
    match page {
        1 => State::Counter,
        2 => State::Settings,
        _ => State::NotFound,
    }
}

/// The score of the given team.
pub open spec fn spec_score(s: App, team: Team) -> u32 {
    match team {
        Team::One => s.team_one_score,
        Team::Two => s.team_two_score,
    }
}

impl App {
    /// Well-formedness: there are exactly two pages, the current page is one
    /// of them, and the stored screen matches the current page.
    pub open spec fn wf(self) -> bool {
        &&& self.pages == 2
        &&& 1 <= self.page <= self.pages
        &&& self.state == spec_state_of_page(self.page)
    }

    /// Mathematical transition function: the state after handling `message`.
    ///
    /// Scores never go below zero: a decrement at zero is a no-op. The page
    /// wraps around in both directions. After every message the stored
    /// screen is recomputed from the page.
    pub open spec fn spec_step(self, message: Message) -> App {
        let next = match message {
            Message::ThemeChanged(t) => App { theme: t, ..self },
            Message::IncrementPressed(team) => match team {
                Team::One => App { team_one_score: (self.team_one_score + 1) as u32, ..self },
                Team::Two => App { team_two_score: (self.team_two_score + 1) as u32, ..self },
            },
            Message::DecrementPressed(team) => match team {
                Team::One => App {
                    team_one_score: if self.team_one_score > 0 {
                        (self.team_one_score - 1) as u32
                    } else {
                        0
                    },
                    ..self
                },
                Team::Two => App {
                    team_two_score: if self.team_two_score > 0 {
                        (self.team_two_score - 1) as u32
                    } else {
                        0
                    },
                    ..self
                },
            },
            Message::PageForward => App {
                page: if self.page < self.pages {
                    (self.page + 1) as u8
                } else {
                    1
                },
                ..self
            },
            Message::PageBack => App {
                page: if self.page > 1 {
                    (self.page - 1) as u8
                } else {
                    self.pages
                },
                ..self
            },
        };
        App { state: spec_state_of_page(next.page), ..next }
    }

    /// The initial state: dark theme, both scores zero, on the counter page.
    pub fn new() -> (app: App)
        ensures
            app.theme == ThemeType::Dark,
            app.state == State::Counter,
            app.team_one_score == 0,
            app.team_two_score == 0,
            app.page == 1,
            app.pages == 2,
            app.wf(),
    {
        App {
            theme: ThemeType::Dark,
            state: State::Counter,
            team_one_score: 0,
            team_two_score: 0,
            page: 1,
            pages: 2,
        }
    }

    /// Handle one message, moving to exactly the state [`App::spec_step`]
    /// describes. Incrementing requires headroom in the counter; every other
    /// message is total.
    pub fn update(&mut self, message: Message)
        requires
            old(self).wf(),
            message matches Message::IncrementPressed(team) ==> spec_score(*old(self), team)
                < u32::MAX,
        ensures
            *final(self) == old(self).spec_step(message),
            final(self).wf(),
    {
        match message {
            Message::ThemeChanged(theme_type) => {
                self.theme = theme_type;
            },
            Message::IncrementPressed(team) => {
                match team {
                    Team::One => self.team_one_score = self.team_one_score + 1,
                    Team::Two => self.team_two_score = self.team_two_score + 1,
                }
            },
            Message::DecrementPressed(team) => {
                match team {
                    Team::One => {
                        if self.team_one_score > 0 {
                            self.team_one_score = self.team_one_score - 1;
                        }
                    },
                    Team::Two => {
                        if self.team_two_score > 0 {
                            self.team_two_score = self.team_two_score - 1;
                        }
                    },
                }
            },
            Message::PageForward => {
                if self.page < self.pages {
                    self.page = self.page + 1;
                } else {
                    self.page = 1;
                }
            },
            Message::PageBack => {
                if self.page > 1 {
                    self.page = self.page - 1;
                } else {
                    self.page = self.pages;
                }
            },
        }
        self.state = state_of_page(self.page);
    }

    /// The window title for the current screen.
    pub fn title(&self) -> (r: String)
        ensures
            self.state == State::Counter ==> r@ == "Teams - Score Counter"@,
            self.state == State::Settings ==> r@ == "Settings - Score Counter"@,
            self.state == State::NotFound ==> r@ == "Page not found - Score Counter"@,
    {
        let s: &str = match self.state {
            State::Counter => "Teams - Score Counter",
            State::Settings => "Settings - Score Counter",
            State::NotFound => "Page not found - Score Counter",
        };
        s.to_owned()
    }

    /// The currently selected theme.
    pub fn theme(&self) -> (t: ThemeType)
        ensures
            t == self.theme,
    {
        self.theme
    }
}

} // verus!
