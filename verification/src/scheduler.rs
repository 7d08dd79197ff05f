//! The round scheduler of a running game, one step at a time.
//!
//! The caller keeps the phase, publishes the events of each step, sleeps
//! for the time the step asks for, and then takes the next step.

use crate::events::{event_views, GuessTheSongServerEvent, ServerEventView};
use crate::game::{GameView, GuessTheSongGame};
use vstd::prelude::*;

verus! {

/// Seconds between the start of a game and its first round.
pub const START_GRACE_SECONDS: u64 = 3;

/// Where the scheduler of a game stands.
#[derive(Debug, Clone, Copy, PartialEq, Eq, Structural)]
pub enum SchedulerPhase {
    /// The game has been started and nothing has been announced yet.
    Starting,
    /// No round is running; `played` rounds are over.
    BetweenRounds { played: u8 },
    /// A round is running; `played` rounds were over before it.
    InRound { played: u8 },
    /// The scheduler has ended.
    Stopped,
}

/// One step of the scheduler: what to publish, how long to sleep, and
/// where to go on.
#[derive(Debug)]
pub struct SchedulerStep {
    pub next: SchedulerPhase,
    pub events: Vec<GuessTheSongServerEvent>,
    pub wait_seconds: u64,
}

/// A lobby after a step of the scheduler, with what the step asks for.
pub ghost struct Step {
    pub game: GameView,
    pub next: SchedulerPhase,
    pub events: Seq<ServerEventView>,
    pub wait_seconds: nat,
}

/// One more round is over: the count goes up and stays at 255.
pub open spec fn one_more(played: u8) -> u8 {
    if played < u8::MAX {
        (played + 1) as u8
    } else {
        played
    }
}

impl GameView {
    /// The game is over: everybody is told, and the lobby is reset so that
    /// it can be played again under the same code.
    pub open spec fn finish(self) -> Step {
        Step {
            game: self.after_reset(),
            next: SchedulerPhase::Stopped,
            events: seq![ServerEventView::GameEnd],
            wait_seconds: 0,
        }
    }

    /// The step between two rounds. In an empty lobby the scheduler ends
    /// at once and says nothing. After as many rounds as the settings
    /// ask for, or when the songs are exhausted, the game is over.
    /// Otherwise the next round starts at time `now`.
    pub open spec fn start_round(self, played: u8, now: u64) -> Step {
        if self.lobby.is_empty() {
            Step { game: self, next: SchedulerPhase::Stopped, events: Seq::empty(), wait_seconds: 0 }
        } else if played >= self.settings.num_songs {
            self.finish()
        } else {
            match self.state.next_song() {
                None => self.finish(),
                Some(song) => Step {
                    game: self.with_state(self.state.advance().with_round_start(Some(now))),
                    next: SchedulerPhase::InRound { played },
                    events: seq![
                        ServerEventView::RoundStart { preview_url: song.url, round_start_time: now },
                    ],
                    wait_seconds: self.settings.round_length_seconds,
                },
            }
        }
    }

    /// The step that ends a round: the answers and the scores are shown,
    /// and no round is running any more.
    pub open spec fn end_round(self, played: u8) -> Step {
        Step {
            game: self.with_state(self.state.with_round_start(None)),
            next: SchedulerPhase::BetweenRounds { played: one_more(played) },
            events: match self.state.current_song() {
                Some(song) => seq![
                    ServerEventView::RoundEnd {
                        correct_title: song.title,
                        correct_artists: song.artists,
                        leaderboard: self.state.scores,
                    },
                ],
                None => Seq::empty(),
            },
            wait_seconds: self.settings.round_delay_seconds,
        }
    }

    /// One step of the scheduler from `phase` at time `now`.
    pub open spec fn scheduler_step(self, phase: SchedulerPhase, now: u64) -> Step {
        match phase {
            SchedulerPhase::Starting => Step {
                game: self,
                next: SchedulerPhase::BetweenRounds { played: 0 },
                events: seq![ServerEventView::GameStart],
                wait_seconds: START_GRACE_SECONDS as nat,
            },
            SchedulerPhase::BetweenRounds { played } => self.start_round(played, now),
            SchedulerPhase::InRound { played } => self.end_round(played),
            SchedulerPhase::Stopped => Step {
                game: self,
                next: SchedulerPhase::Stopped,
                events: Seq::empty(),
                wait_seconds: 0,
            },
        }
    }
}

impl GuessTheSongGame {
    fn finish_game(&mut self) -> (step: SchedulerStep)
        ensures
            final(self)@ == old(self)@.finish().game,
            step.next == old(self)@.finish().next,
            event_views(step.events@) == old(self)@.finish().events,
            step.wait_seconds == old(self)@.finish().wait_seconds,
            old(self)@.wf() ==> final(self)@.wf(),
    {
        self.reset();
        let mut events: Vec<GuessTheSongServerEvent> = Vec::new();
        events.push(GuessTheSongServerEvent::GameEnd);
        assert(event_views(events@) =~= old(self)@.finish().events);
        SchedulerStep { next: SchedulerPhase::Stopped, events, wait_seconds: 0 }
    }

    fn start_round(&mut self, played: u8, now: u64) -> (step: SchedulerStep)
        ensures
            final(self)@ == old(self)@.start_round(played, now).game,
            step.next == old(self)@.start_round(played, now).next,
            event_views(step.events@) == old(self)@.start_round(played, now).events,
            step.wait_seconds == old(self)@.start_round(played, now).wait_seconds,
            old(self)@.wf() ==> final(self)@.wf(),
    {
        if self.lobby_state.is_empty() {
            let events: Vec<GuessTheSongServerEvent> = Vec::new();
            assert(event_views(events@) =~= old(self)@.start_round(played, now).events);
            return SchedulerStep { next: SchedulerPhase::Stopped, events, wait_seconds: 0 };
        }
        if played >= self.get_num_songs() {
            return self.finish_game();
        }
        match self.get_next_song() {
            None => {
                assert(self@.after_reset() == old(self)@.after_reset());
                self.finish_game()
            },
            Some(song) => {
                self.state.round_start_time = Some(now);
                let mut events: Vec<GuessTheSongServerEvent> = Vec::new();
                events.push(
                    GuessTheSongServerEvent::RoundStart {
                        preview_url: song.url,
                        round_start_time: now,
                    },
                );
                assert(event_views(events@) =~= old(self)@.start_round(played, now).events);
                SchedulerStep {
                    next: SchedulerPhase::InRound { played },
                    events,
                    wait_seconds: self.settings.round_length_seconds as u64,
                }
            },
        }
    }

    fn end_round(&mut self, played: u8) -> (step: SchedulerStep)
        ensures
            final(self)@ == old(self)@.end_round(played).game,
            step.next == old(self)@.end_round(played).next,
            event_views(step.events@) == old(self)@.end_round(played).events,
            step.wait_seconds == old(self)@.end_round(played).wait_seconds,
            old(self)@.wf() ==> final(self)@.wf(),
    {
        self.state.round_start_time = None;
        let mut events: Vec<GuessTheSongServerEvent> = Vec::new();
        if let Some(song) = self.get_current_song() {
            events.push(
                GuessTheSongServerEvent::RoundEnd {
                    correct_title: song.title,
                    correct_artists: song.artists,
                    leaderboard: self.get_leaderboard(),
                },
            );
        }
        assert(event_views(events@) =~= old(self)@.end_round(played).events);
        SchedulerStep {
            next: SchedulerPhase::BetweenRounds {
                played: if played < u8::MAX {
                    played + 1
                } else {
                    played
                },
            },
            events,
            wait_seconds: self.settings.round_delay_seconds as u64,
        }
    }

    /// Takes one step of the round scheduler at time `now` (in seconds).
    pub fn scheduler_step(&mut self, phase: SchedulerPhase, now: u64) -> (step: SchedulerStep)
        ensures
            final(self)@ == old(self)@.scheduler_step(phase, now).game,
            step.next == old(self)@.scheduler_step(phase, now).next,
            event_views(step.events@) == old(self)@.scheduler_step(phase, now).events,
            step.wait_seconds == old(self)@.scheduler_step(phase, now).wait_seconds,
            old(self)@.wf() ==> final(self)@.wf(),
    {
        match phase {
            SchedulerPhase::Starting => {
                let mut events: Vec<GuessTheSongServerEvent> = Vec::new();
                events.push(GuessTheSongServerEvent::GameStart);
                assert(event_views(events@) =~= old(self)@.scheduler_step(phase, now).events);
                SchedulerStep {
                    next: SchedulerPhase::BetweenRounds { played: 0 },
                    events,
                    wait_seconds: START_GRACE_SECONDS,
                }
            },
            SchedulerPhase::BetweenRounds { played } => self.start_round(played, now),
            SchedulerPhase::InRound { played } => self.end_round(played),
            SchedulerPhase::Stopped => {
                let events: Vec<GuessTheSongServerEvent> = Vec::new();
                assert(event_views(events@) =~= old(self)@.scheduler_step(phase, now).events);
                SchedulerStep { next: SchedulerPhase::Stopped, events, wait_seconds: 0 }
            },
        }
    }
}

} // verus!
