//! Who is in a lobby, who is ready, and whether a game is running.

use std::collections::HashMap;
use vstd::prelude::*;
use vstd::std_specs::hash::spec_hash_map_iter;
use vstd::std_specs::iter::IteratorSpec;

verus! {

/// Server-assigned identity of a player.
pub type PlayerId = u128;

/// Whether a lobby waits for its players or plays a game.
#[derive(Debug, Clone, Copy, PartialEq, Eq, Structural)]
pub enum LobbyStatus {
    Waiting,
    Playing,
}

/// The players of one lobby, each with a name and a ready flag, and the
/// lobby's status.
#[derive(Debug)]
pub struct LobbyState {
    pub players: HashMap<PlayerId, (String, bool)>,
    pub status: LobbyStatus,
}

/// A player as contracts see it.
pub ghost struct PlayerView {
    pub username: Seq<char>,
    pub ready: bool,
}

/// Mathematical value of a [`LobbyState`].
pub ghost struct LobbyView {
    pub players: Map<PlayerId, PlayerView>,
    pub status: LobbyStatus,
}

impl LobbyView {
    /// Waiting, with nobody in it.
    pub open spec fn fresh() -> LobbyView {
        LobbyView { players: Map::empty(), status: LobbyStatus::Waiting }
    }

    /// Nobody is in the lobby.
    pub open spec fn is_empty(self) -> bool {
        forall|id: PlayerId| !self.players.contains_key(id)
    }

    /// A lobby is all-ready when somebody is in it and nobody is unready.
    pub open spec fn all_ready(self) -> bool {
        &&& !self.is_empty()
        &&& forall|id: PlayerId| self.players.contains_key(id) ==> self.players[id].ready
    }

    /// The player enters, or enters again, under `username` and unready.
    pub open spec fn join(self, id: PlayerId, username: Seq<char>) -> LobbyView {
        LobbyView { players: self.players.insert(id, PlayerView { username, ready: false }), ..self }
    }

    /// The ready flag of a known player becomes `ready`; an unknown id
    /// changes nothing.
    pub open spec fn set_ready(self, id: PlayerId, ready: bool) -> LobbyView {
        if self.players.contains_key(id) {
            LobbyView {
                players: self.players.insert(
                    id,
                    PlayerView { username: self.players[id].username, ready },
                ),
                ..self
            }
        } else {
            self
        }
    }

    /// The player is gone; an unknown id changes nothing.
    pub open spec fn leave(self, id: PlayerId) -> LobbyView {
        LobbyView { players: self.players.remove(id), ..self }
    }

    /// The same players under another status.
    pub open spec fn with_status(self, status: LobbyStatus) -> LobbyView {
        LobbyView { status, ..self }
    }
}

/// The value of a player as the map keeps it.
pub open spec fn player_view(entry: (String, bool)) -> PlayerView {
    PlayerView { username: entry.0@, ready: entry.1 }
}

/// One line of a roster: id, name, ready flag.
pub type RosterEntry = (PlayerId, Seq<char>, bool);

/// The value of one line of a roster.
pub open spec fn roster_entry_view(entry: (PlayerId, String, bool)) -> RosterEntry {
    (entry.0, entry.1@, entry.2)
}

/// The values of a list of players, in order.
pub open spec fn roster_view(listing: Seq<(PlayerId, String, bool)>) -> Seq<RosterEntry> {
    listing.map_values(|entry: (PlayerId, String, bool)| roster_entry_view(entry))
}

/// `roster` names every player of `players` exactly once, with that
/// player's name and flag; the order is left open.
pub open spec fn is_roster_of(roster: Seq<RosterEntry>, players: Map<PlayerId, PlayerView>) -> bool {
    &&& forall|i: int, j: int|
        0 <= i < j < roster.len() ==> (#[trigger] roster[i]).0 != (#[trigger] roster[j]).0
    &&& forall|i: int|
        0 <= i < roster.len() ==> {
            &&& players.contains_key((#[trigger] roster[i]).0)
            &&& players[roster[i].0] == PlayerView { username: roster[i].1, ready: roster[i].2 }
        }
    &&& forall|id: PlayerId| #[trigger]
        players.contains_key(id) ==> exists|i: int|
            0 <= i < roster.len() && (#[trigger] roster[i]).0 == id
}

impl View for LobbyState {
    type V = LobbyView;

    open spec fn view(&self) -> LobbyView {
        LobbyView {
            players: self.players@.map_values(|entry: (String, bool)| player_view(entry)),
            status: self.status,
        }
    }
}

impl LobbyState {
    /// Waiting, with nobody in it.
    pub fn new() -> (lobby: Self)
        ensures
            lobby@ == LobbyView::fresh(),
    {
        let lobby = LobbyState { players: HashMap::new(), status: LobbyStatus::Waiting };
        assert(lobby@.players =~= Map::<PlayerId, PlayerView>::empty());
        lobby
    }

    /// The player enters, or enters again, under the name and unready.
    pub fn player_join(&mut self, player_id: PlayerId, player_username: String)
        ensures
            final(self)@ == old(self)@.join(player_id, player_username@),
    {
        broadcast use vstd::std_specs::hash::group_hash_axioms;

        self.players.insert(player_id, (player_username, false));
        assert(self@.players =~= old(self)@.join(player_id, player_username@).players);
    }

    fn set_ready(&mut self, user_id: PlayerId, ready: bool)
        ensures
            final(self)@ == old(self)@.set_ready(user_id, ready),
    {
        broadcast use vstd::std_specs::hash::group_hash_axioms;

        let known = match self.players.get(&user_id) {
            Some(entry) => Some(entry.0.clone()),
            None => None,
        };
        if let Some(username) = known {
            self.players.insert(user_id, (username, ready));
        }
        assert(self@.players =~= old(self)@.set_ready(user_id, ready).players);
    }

    /// Marks a player of the lobby ready; any other id changes nothing.
    pub fn player_ready(&mut self, user_id: PlayerId)
        ensures
            final(self)@ == old(self)@.set_ready(user_id, true),
    {
        self.set_ready(user_id, true);
    }

    /// Marks a player of the lobby unready; any other id changes nothing.
    pub fn player_unready(&mut self, user_id: PlayerId)
        ensures
            final(self)@ == old(self)@.set_ready(user_id, false),
    {
        self.set_ready(user_id, false);
    }

    /// The name under which a player is in the lobby, if it is.
    pub fn username_of(&self, player_id: PlayerId) -> (username: Option<String>)
        ensures
            username is Some == self@.players.contains_key(player_id),
            username matches Some(name) ==> name@ == self@.players[player_id].username,
    {
        broadcast use vstd::std_specs::hash::group_hash_axioms;

        match self.players.get(&player_id) {
            Some(entry) => Some(entry.0.clone()),
            None => None,
        }
    }

    /// Whether the id is that of a player in the lobby.
    pub fn contains_player(&self, player_id: PlayerId) -> (known: bool)
        ensures
            known == self@.players.contains_key(player_id),
    {
        broadcast use vstd::std_specs::hash::group_hash_axioms;

        self.players.contains_key(&player_id)
    }

    /// Whether nobody is in the lobby.
    pub fn is_empty(&self) -> (empty: bool)
        ensures
            empty == self@.is_empty(),
    {
        broadcast use vstd::std_specs::hash::group_hash_axioms;

        let empty = self.players.len() == 0;
        proof {
            let dom = self.players@.dom();
            if empty {
                dom.lemma_len0_is_empty();
                assert(dom =~= Set::<PlayerId>::empty());
                assert forall|id: PlayerId| !self@.players.contains_key(id) by {
                    assert(!dom.contains(id));
                }
            } else {
                assert(dom.len() != 0);
                assert(self@.players.contains_key(dom.choose())) by {
                    if dom =~= Set::<PlayerId>::empty() {
                        assert(dom.len() == 0);
                    }
                }
            }
        }
        empty
    }

    /// Every player with name and ready flag, in no particular order.
    pub fn get_players(&self) -> (listing: Vec<(PlayerId, String, bool)>)
        ensures
            is_roster_of(roster_view(listing@), self@.players),
            listing@.len() == self@.players.dom().len(),
    {
        broadcast use vstd::std_specs::hash::group_hash_axioms;

        let ghost pairs = spec_hash_map_iter(&self.players).remaining();
        let ghost players = self.players@;
        let mut listing: Vec<(PlayerId, String, bool)> = Vec::new();
        for entry in it: self.players.iter()
            invariant
                it.seq() == pairs,
                pairs.no_duplicates(),
                players == self.players@,
                listing@.len() == it.index(),
                forall|j: int|
                    0 <= j < listing@.len() ==> {
                        &&& (#[trigger] listing@[j]).0 == *pairs[j].0
                        &&& (listing@[j].1, listing@[j].2) == *pairs[j].1
                    },
        {
            listing.push((*entry.0, entry.1.0.clone(), entry.1.1));
        }
        proof {
            let roster = roster_view(listing@);
            assert(roster.len() == pairs.len());
            assert forall|i: int| 0 <= i < roster.len() implies {
                &&& players.contains_key(*pairs[i].0)
                &&& *pairs[i].1 == players[*pairs[i].0]
                &&& (#[trigger] roster[i]).0 == *pairs[i].0
                &&& PlayerView { username: roster[i].1, ready: roster[i].2 } == player_view(
                    *pairs[i].1,
                )
            } by {
                assert(listing@[i].0 == *pairs[i].0);
            }
            assert forall|i: int, j: int| 0 <= i < j < roster.len() implies (#[trigger] roster[i]).0
                != (#[trigger] roster[j]).0 by {
                if roster[i].0 == roster[j].0 {
                    assert(pairs[i] == pairs[j]);
                }
            }
            assert forall|id: PlayerId| #[trigger] self@.players.contains_key(id) implies exists|
                i: int,
            |
                0 <= i < roster.len() && (#[trigger] roster[i]).0 == id by {
                assert(players.contains_key(id));
                assert(pairs.contains((&id, &players[id])));
                let i = choose|i: int| 0 <= i < pairs.len() && pairs[i] == (&id, &players[id]);
                assert(roster[i].0 == id);
            }
            assert(self@.players.dom() =~= players.dom());
        }
        listing
    }

    /// True iff somebody is in the lobby and everybody in it is ready. An
    /// empty lobby is never all-ready.
    pub fn all_ready(&self) -> (ready: bool)
        ensures
            ready == self@.all_ready(),
    {
        broadcast use vstd::std_specs::hash::group_hash_axioms;

        if self.is_empty() {
            return false;
        }
        let ghost pairs = spec_hash_map_iter(&self.players).remaining();
        let mut all: bool = true;
        for entry in it: self.players.iter()
            invariant
                it.seq() == pairs,
                all == (forall|j: int| 0 <= j < it.index() ==> (#[trigger] pairs[j]).1.1),
        {
            if !entry.1.1 {
                all = false;
            }
        }
        proof {
            let players = self.players@;
            if all {
                assert forall|id: PlayerId| self@.players.contains_key(id) implies self@.players[id].ready by {
                    assert(players.contains_key(id));
                    assert(pairs.contains((&id, &players[id])));
                    let j = choose|j: int| 0 <= j < pairs.len() && pairs[j] == (&id, &players[id]);
                    assert(pairs[j].1.1);
                }
            } else {
                let j = choose|j: int| 0 <= j < pairs.len() && !(#[trigger] pairs[j]).1.1;
                assert(players.contains_key(*pairs[j].0));
                assert(self@.players.contains_key(*pairs[j].0));
                assert(!self@.players[*pairs[j].0].ready);
            }
        }
        all
    }

    /// Takes the player out of the lobby; an unknown id changes nothing.
    pub fn player_leave(&mut self, player_id: PlayerId)
        ensures
            final(self)@ == old(self)@.leave(player_id),
    {
        broadcast use vstd::std_specs::hash::group_hash_axioms;

        self.players.remove(&player_id);
        assert(self@.players =~= old(self)@.leave(player_id).players);
    }

    /// Sets the status, whatever it was.
    pub fn update_lobby_status(&mut self, new_status: LobbyStatus)
        ensures
            final(self)@ == old(self)@.with_status(new_status),
    {
        self.status = new_status;
    }

    /// Back to waiting for the next game; the players stay as they are.
    pub fn reset(&mut self)
        ensures
            final(self)@ == old(self)@.with_status(LobbyStatus::Waiting),
    {
        self.status = LobbyStatus::Waiting;
    }
}

} // verus!
