//! News, radio and rumours: news categories.

use crate::ids::{decimal_text, numbered};
use vstd::prelude::*;
use vstd::string::StringExecFns;

verus! {

/// Kind of news item.
#[derive(Debug, Clone, Copy, PartialEq, Eq, Structural, Hash)]
pub enum NewsKind {
    PoliceBlotter,
    GangNews,
    LocalEvent,
    Business,
    Weather,
    PlayerAction,
    Rumor,
}

/// Display name of a `NewsKind`.
pub open spec fn news_label(x: NewsKind) -> Seq<char> {
    match x {
        NewsKind::PoliceBlotter => "Police Blotter"@,
        NewsKind::GangNews => "Gang News"@,
        NewsKind::LocalEvent => "Local Event"@,
        NewsKind::Business => "Business"@,
        NewsKind::Weather => "Weather"@,
        NewsKind::PlayerAction => "Player Action"@,
        NewsKind::Rumor => "Rumor"@,
    }
}

impl NewsKind {
    pub fn label(&self) -> (s: &'static str)
        ensures
            s@ == news_label(*self),
    {
        match self {
            NewsKind::PoliceBlotter => "Police Blotter",
            NewsKind::GangNews => "Gang News",
            NewsKind::LocalEvent => "Local Event",
            NewsKind::Business => "Business",
            NewsKind::Weather => "Weather",
            NewsKind::PlayerAction => "Player Action",
            NewsKind::Rumor => "Rumor",
        }
    }
}
/// A news item: id, kind, headline, body and the zone it is about.
#[derive(Debug)]
pub struct NewsItem {
    pub id: String,
    pub kind: NewsKind,
    pub headline: String,
    pub body: String,
    pub zone: Option<String>,
}

impl NewsItem {
    /// A city-wide news item.
    pub fn new(id: &str, kind: NewsKind, headline: &str, body: &str) -> (n: NewsItem)
        ensures
            n.id@ == id@,
            n.kind == kind,
            n.headline@ == headline@,
            n.body@ == body@,
            n.zone.is_none(),
    {
        NewsItem { id: id.to_owned(), kind, headline: headline.to_owned(), body: body.to_owned(), zone: None }
    }
}

/// Published news and the id counter.
#[derive(Debug)]
pub struct NewsSystem {
    pub items: Vec<NewsItem>,
    pub id_counter: u32,
}

/// The body of a news item about the player's doings.
pub open spec fn player_action_body(action_desc: Seq<char>) -> Seq<char> {
    "Police are investigating an incident. "@ + action_desc
}

impl Default for NewsSystem {
    fn default() -> (s: NewsSystem)
        ensures
            s.items@.len() == 0,
            s.id_counter == 0,
    {
        NewsSystem { items: Vec::new(), id_counter: 0 }
    }
}

impl NewsSystem {
    /// No news yet.
    pub fn new() -> (s: NewsSystem)
        ensures
            s.items@.len() == 0,
            s.id_counter == 0,
    {
        NewsSystem { items: Vec::new(), id_counter: 0 }
    }

    /// Publishes an item with the next id ("news_1", "news_2", ...).
    pub fn publish(&mut self, kind: NewsKind, headline: &str, body: &str) -> (n: &NewsItem)
        requires
            old(self).id_counter < u32::MAX,
        ensures
            final(self).id_counter == old(self).id_counter + 1,
            final(self).items@.len() == old(self).items@.len() + 1,
            final(self).items@.drop_last() == old(self).items@,
            final(self).items@.last().id@ == "news_"@ + decimal_text(final(self).id_counter as nat),
            final(self).items@.last().kind == kind,
            final(self).items@.last().headline@ == headline@,
            final(self).items@.last().body@ == body@,
            final(self).items@.last().zone.is_none(),
            *n == final(self).items@.last(),
    {
        self.id_counter = self.id_counter + 1;
        let id = numbered("news_", self.id_counter);
        self.items.push(NewsItem::new(id.as_str(), kind, headline, body));
        proof {
            assert(self.items@.drop_last() =~= old(self).items@);
        }
        let last = self.items.len() - 1;
        &self.items[last]
    }

    /// Publishes the police's take on something the player did.
    pub fn publish_player_action(&mut self, action_desc: &str)
        requires
            old(self).id_counter < u32::MAX,
        ensures
            final(self).id_counter == old(self).id_counter + 1,
            final(self).items@.len() == old(self).items@.len() + 1,
            final(self).items@.drop_last() == old(self).items@,
            final(self).items@.last().id@ == "news_"@ + decimal_text(final(self).id_counter as nat),
            final(self).items@.last().kind == NewsKind::PlayerAction,
            final(self).items@.last().headline@ == "Police investigate incident"@,
            final(self).items@.last().body@ == player_action_body(action_desc@),
            final(self).items@.last().zone.is_none(),
    {
        let mut body = String::new();
        body.append("Police are investigating an incident. ");
        body.append(action_desc);
        proof {
            assert(Seq::<char>::empty() + "Police are investigating an incident. "@
                =~= "Police are investigating an incident. "@);
        }
        let _item = self.publish(NewsKind::PlayerAction, "Police investigate incident", body.as_str());
    }

    /// Publishes a street rumour.
    pub fn publish_rumor(&mut self, text: &str)
        requires
            old(self).id_counter < u32::MAX,
        ensures
            final(self).id_counter == old(self).id_counter + 1,
            final(self).items@.len() == old(self).items@.len() + 1,
            final(self).items@.drop_last() == old(self).items@,
            final(self).items@.last().id@ == "news_"@ + decimal_text(final(self).id_counter as nat),
            final(self).items@.last().kind == NewsKind::Rumor,
            final(self).items@.last().headline@ == "Street rumor"@,
            final(self).items@.last().body@ == text@,
            final(self).items@.last().zone.is_none(),
    {
        let _item = self.publish(NewsKind::Rumor, "Street rumor", text);
    }

    pub fn count(&self) -> (n: usize)
        ensures
            n == self.items@.len(),
    {
        self.items.len()
    }
}

} // verus!
