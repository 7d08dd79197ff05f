//! What holds of a lobby whatever happens to it.
//!
//! The laws are stated over the mathematical values of the lobby and the
//! transitions that the executable functions are proved to carry out.

use crate::events::UserEventView;
use crate::game::GameView;
use crate::game_state::GameStateView;
use crate::games::inhabited;
use crate::lobby::{LobbyStatus, LobbyView, PlayerId};
use crate::scheduler::SchedulerPhase;
use crate::song::{SongStateView, SongView};
use crate::text::lemma_first_open_match_from;
use vstd::prelude::*;

verus! {

/// One thing that can happen to a lobby.
pub ghost enum Move {
    Join { id: PlayerId, username: Seq<char> },
    Leave { id: PlayerId },
    Command { player: PlayerId, event: UserEventView, now: u64, award: u32 },
    SchedulerStep { phase: SchedulerPhase, now: u64 },
    PlaylistFailed { initiator: PlayerId },
    SongsLoaded { batch: Seq<SongView> },
    Reset,
}

/// The lobby after one move.
pub open spec fn after_move(game: GameView, step: Move) -> GameView {
    match step {
        Move::Join { id, username } => game.after_join(id, username),
        Move::Leave { id } => game.after_leave(id),
        Move::Command { player, event, now, award } => game.react(player, event, now, award).game,
        Move::SchedulerStep { phase, now } => game.scheduler_step(phase, now).game,
        Move::PlaylistFailed { initiator } => game.after_playlist_failure(initiator),
        Move::SongsLoaded { batch } => game.with_state(
            GameStateView { songs: crate::game::with_batch(game.state.songs, batch), ..game.state },
        ),
        Move::Reset => game.after_reset(),
    }
}

/// The lobby after a sequence of moves, first to last.
pub open spec fn after_moves(game: GameView, steps: Seq<Move>) -> GameView
    decreases steps.len(),
{
    if steps.len() == 0 {
        game
    } else {
        after_move(after_moves(game, steps.drop_last()), steps.last())
    }
}

/// No move takes a score entry away, and every move keeps the rule that
/// each player in the lobby has a score.
pub proof fn law_move_keeps_every_score_entry(game: GameView, step: Move)
    ensures
        forall|id: PlayerId| game.knows(id) ==> #[trigger] after_move(game, step).knows(id),
        game.wf() ==> after_move(game, step).wf(),
{
    let next = after_move(game, step);
    assert forall|id: PlayerId| game.knows(id) implies #[trigger] next.knows(id) by {}
    if game.wf() {
        assert forall|id: PlayerId| #[trigger]
            next.lobby.players.contains_key(id) implies next.state.scores.contains_key(id) by {
            if game.lobby.players.contains_key(id) {
                assert(game.knows(id));
                assert(next.knows(id));
            }
        }
    }
}

/// Over any sequence of moves no score entry is taken away.
pub proof fn law_history_keeps_every_score_entry(game: GameView, steps: Seq<Move>, id: PlayerId)
    requires
        game.knows(id),
    ensures
        after_moves(game, steps).knows(id),
    decreases steps.len(),
{
    if steps.len() > 0 {
        law_history_keeps_every_score_entry(game, steps.drop_last(), id);
        law_move_keeps_every_score_entry(after_moves(game, steps.drop_last()), steps.last());
    }
}

/// Over any sequence of moves each player in the lobby has a score.
pub proof fn law_history_keeps_wf(game: GameView, steps: Seq<Move>)
    requires
        game.wf(),
    ensures
        after_moves(game, steps).wf(),
    decreases steps.len(),
{
    if steps.len() > 0 {
        law_history_keeps_wf(game, steps.drop_last());
        law_move_keeps_every_score_entry(after_moves(game, steps.drop_last()), steps.last());
    }
}

/// An id that enters as a new player is the id of nobody in the lobby.
pub proof fn law_new_player_gets_unused_id(game: GameView, id: PlayerId, username: Seq<char>)
    requires
        game.wf(),
        game.enters_as_new(id),
    ensures
        !game.lobby.players.contains_key(id),
        game.after_join(id, username).lobby.players.contains_key(id),
        game.after_join(id, username).knows(id),
{
}

/// An id is issued once: after it has entered as a new player, whatever
/// happens next, a join under it is a return and never a new player
/// again. Two players of one lobby therefore never share an id.
pub proof fn law_id_is_issued_once(
    game: GameView,
    id: PlayerId,
    username: Seq<char>,
    steps: Seq<Move>,
)
    requires
        game.enters_as_new(id),
    ensures
        after_moves(game.after_join(id, username), steps).comes_back(id),
{
    law_history_keeps_every_score_entry(game.after_join(id, username), steps, id);
}

/// An empty lobby is not all-ready, a lobby with an unready player is not
/// all-ready, and every other lobby is.
pub proof fn law_all_ready(lobby: LobbyView)
    ensures
        lobby.is_empty() ==> !lobby.all_ready(),
        forall|id: PlayerId|
            lobby.players.contains_key(id) && !lobby.players[id].ready ==> !lobby.all_ready(),
        lobby.all_ready() <==> {
            &&& exists|id: PlayerId| lobby.players.contains_key(id)
            &&& forall|id: PlayerId| lobby.players.contains_key(id) ==> lobby.players[id].ready
        },
{
}

/// The players of `players` say one after the other that they are ready;
/// the result is the lobby afterwards and how many of them started a game.
pub open spec fn after_ready_ups(game: GameView, players: Seq<PlayerId>) -> (GameView, nat)
    decreases players.len(),
{
    if players.len() == 0 {
        (game, 0)
    } else {
        let (before, starts) = after_ready_ups(game, players.drop_last());
        let outcome = before.on_ready(players.last());
        (outcome.game, if outcome.start_game {
            starts + 1
        } else {
            starts
        })
    }
}

/// A start leaves the lobby playing, and a playing lobby cannot start.
pub proof fn law_begin_play_wins_once(game: GameView)
    ensures
        game.can_begin() ==> game.after_begin().lobby.status == LobbyStatus::Playing,
        game.lobby.status == LobbyStatus::Playing ==> !game.can_begin(),
        game.can_begin() ==> !game.after_begin().can_begin(),
{
}

/// However many players ready up one after the other, at most one of
/// them starts the game; and if the lobby was waiting and is all-ready
/// in the end, exactly one did.
pub proof fn law_ready_ups_start_one_game(game: GameView, players: Seq<PlayerId>)
    ensures
        after_ready_ups(game, players).1 <= 1,
        after_ready_ups(game, players).1 == 1 ==> after_ready_ups(game, players).0.lobby.status
            == LobbyStatus::Playing,
        game.lobby.status == LobbyStatus::Playing ==> after_ready_ups(game, players).1 == 0,
        after_ready_ups(game, players).1 == 0 ==> after_ready_ups(game, players).0.lobby.status
            == game.lobby.status,
        players.len() > 0 && game.lobby.status == LobbyStatus::Waiting && after_ready_ups(
            game,
            players,
        ).0.lobby.all_ready() ==> after_ready_ups(game, players).1 == 1,
    decreases players.len(),
{
    if players.len() > 0 {
        law_ready_ups_start_one_game(game, players.drop_last());
        let (before, starts) = after_ready_ups(game, players.drop_last());
        let readied = before.with_lobby(before.lobby.set_ready(players.last(), true));
        assert(readied.after_begin().lobby.players == readied.lobby.players);
        assert(readied.after_begin().lobby.is_empty() == readied.lobby.is_empty());
    }
}

/// A title is credited once: after a guess has hit it, no guess hits it.
pub proof fn law_title_is_credited_once(song: SongStateView, first: Seq<char>, second: Seq<char>)
    ensures
        song.title_hit(first) ==> !song.after_title_guess(first).title_hit(second),
        song.title_found ==> !song.title_hit(first),
        song.title_found ==> song.after_title_guess(first).title_found,
        song.title_found ==> song.after_artist_guess(first).title_found,
{
}

/// An artist is credited once: after a guess has hit the artist at some
/// position, no guess hits that position, and what is found stays found.
pub proof fn law_artist_is_credited_once(song: SongStateView, first: Seq<char>, second: Seq<char>)
    ensures
        song.artist_hit(first) matches Some(i) ==> {
            &&& 0 <= i < song.artists.len()
            &&& !song.artists[i].1
            &&& song.after_artist_guess(first).artists[i].1
            &&& song.after_artist_guess(first).artist_hit(second) != Some(i)
        },
        forall|j: int|
            0 <= j < song.artists.len() && (#[trigger] song.artists[j]).1 ==> {
                &&& song.artist_hit(first) != Some(j)
                &&& song.after_artist_guess(first).artists[j].1
                &&& song.after_title_guess(first).artists[j].1
            },
{
    let keys = song.artist_keys();
    let flags = song.artist_flags();
    lemma_first_open_match_from(keys, flags, crate::text::normalized(first), 0);
    let after = song.after_artist_guess(first);
    lemma_first_open_match_from(
        after.artist_keys(),
        after.artist_flags(),
        crate::text::normalized(second),
        0,
    );
}

/// In a lobby, too, the title and each artist of the running song are
/// credited at most once, whoever guesses and however often.
pub proof fn law_round_credits_once(state: GameStateView, first: Seq<char>, second: Seq<char>)
    ensures
        state.title_hit(first) ==> !state.after_title_guess(first).title_hit(second),
        state.artist_hit(first) matches Some(i) ==> state.after_artist_guess(first).artist_hit(
            second,
        ) != Some(i),
{
    if state.has_current_song() {
        let song = state.songs[state.current()];
        law_title_is_credited_once(song, first, second);
        law_artist_is_credited_once(song, first, second);
    }
}

/// Leaving changes no score. A reset sets every score to zero, removes
/// the songs and keeps both the score entries and the players.
pub proof fn law_leave_and_reset_keep_scores(game: GameView, id: PlayerId)
    ensures
        game.after_leave(id).state.scores == game.state.scores,
        game.after_reset().state.scores.dom() == game.state.scores.dom(),
        forall|player: PlayerId| #[trigger]
            game.state.scores.contains_key(player) ==> game.after_reset().state.scores[player] == 0,
        game.after_reset().state.songs.len() == 0,
        game.after_reset().lobby.players == game.lobby.players,
{
    assert(game.after_reset().state.scores.dom() =~= game.state.scores.dom());
}

/// A sweep removes exactly the empty lobbies and changes no other, so a
/// second sweep right after it removes nothing.
pub proof fn law_sweep_removes_the_empty_lobbies(lobbies: Map<Seq<char>, GameView>)
    ensures
        forall|code: Seq<char>| #[trigger]
            inhabited(lobbies).contains_key(code) <==> lobbies.contains_key(code)
                && !lobbies[code].lobby.is_empty(),
        forall|code: Seq<char>| #[trigger]
            inhabited(lobbies).contains_key(code) ==> inhabited(lobbies)[code] == lobbies[code],
        inhabited(inhabited(lobbies)) == inhabited(lobbies),
{
    assert(inhabited(inhabited(lobbies)) =~= inhabited(lobbies));
}

/// The state after `times` more rounds have been asked for.
pub open spec fn advanced(state: GameStateView, times: nat) -> GameStateView
    decreases times,
{
    if times == 0 {
        state
    } else {
        advanced(state, (times - 1) as nat).advance()
    }
}

/// The round number never goes down and never wraps; and once the last
/// song is over, asking for the next round yields nothing, however often.
pub proof fn law_round_number_only_grows(state: GameStateView, times: nat)
    requires
        state.song_index <= usize::MAX,
    ensures
        state.song_index <= advanced(state, times).song_index <= usize::MAX,
        advanced(state, times).songs == state.songs,
        state.song_index < usize::MAX ==> state.advance().song_index == state.song_index + 1,
        state.song_index >= state.songs.len() ==> advanced(state, times).next_song() is None,
    decreases times,
{
    if times > 0 {
        law_round_number_only_grows(state, (times - 1) as nat);
    }
}

} // verus!
