//! The race session: the loaded data, the replay cursor and its clock.
//!
//! One cursor is shared by all tracks. It moves by the delays of the first
//! track alone, the reference track, and by one sample per tick at most,
//! however much time a tick finds elapsed. Time is a count of milliseconds
//! on the caller's clock.

use crate::geometry::{FixedPoint, RenderError, Viewport};
use crate::render::{draw_frame, frame_of, Color, DrawCall};
use crate::track::{tracks_view, Sample};
use vstd::prelude::*;

verus! {

/// The session as a mathematical value. Instants are milliseconds on the
/// caller's clock.
pub struct SessionView {
    pub points: Seq<FixedPoint>,
    pub tracks: Seq<Seq<Sample>>,
    pub colors: Seq<Color>,
    pub current_index: nat,
    pub started: bool,
    pub start_time: nat,
    pub next_due: nat,
}

impl SessionView {
    /// Number of samples of the reference track; zero where there is no track.
    pub open spec fn reference_len(self) -> nat {
        if self.tracks.len() > 0 {
            self.tracks[0].len()
        } else {
            0
        }
    }

    /// The sample of the reference track under the cursor, if there is one.
    pub open spec fn reference_sample(self) -> Option<Sample> {
        if self.current_index < self.reference_len() {
            Some(self.tracks[0][self.current_index as int])
        } else {
            None
        }
    }

    /// The session once the next advance has been scheduled at `now`: due
    /// after the delay of the sample under the cursor. Past the end of the
    /// reference track the schedule stays as it was.
    pub open spec fn scheduled(self, now: nat) -> SessionView {
        match self.reference_sample() {
            Some(sample) => SessionView { next_due: now + sample.delay_to_next as nat, ..self },
            None => self,
        }
    }

    /// The session after a start command at `now`.
    pub open spec fn start(self, now: nat) -> SessionView {
        SessionView { started: true, start_time: now, current_index: 0, ..self }.scheduled(now)
    }

    /// The session after a stop command at `now`.
    pub open spec fn stop(self, now: nat) -> SessionView {
        SessionView { started: false, start_time: now, current_index: 0, ..self }.scheduled(now)
    }

    /// Whether a tick at `now` advances the cursor: the replay runs, the
    /// cursor is on a sample of the reference track, and its delay is over.
    pub open spec fn due(self, now: nat) -> bool {
        self.started && self.reference_sample() is Some && now >= self.next_due
    }

    /// The session after a tick at `now`.
    pub open spec fn tick(self, now: nat) -> SessionView {
        if self.due(now) {
            SessionView { current_index: self.current_index + 1nat, ..self }.scheduled(now)
        } else {
            self
        }
    }

    /// The session after one tick at each of `nows`, in order.
    pub open spec fn ticks(self, nows: Seq<nat>) -> SessionView
        decreases nows.len(),
    {
        if nows.len() == 0 {
            self
        } else {
            self.ticks(nows.drop_last()).tick(nows.last())
        }
    }

    /// The text of the readout: the time of day of the reference sample
    /// under the cursor. Nothing past the end of the reference track.
    pub open spec fn readout(self) -> Option<Seq<char>> {
        match self.reference_sample() {
            Some(sample) => sample.timestamp.clock_text(),
            None => None,
        }
    }

    /// The squares to paint for the session as it stands.
    pub open spec fn frame(self, view: Viewport) -> Result<Seq<DrawCall>, RenderError> {
        frame_of(self.points, self.tracks, self.colors, self.current_index, view)
    }

    /// What holds of every session: each track has a colour, and the cursor
    /// is on the reference track or just past its end.
    pub open spec fn wf(self) -> bool {
        self.tracks.len() <= self.colors.len() && self.current_index <= self.reference_len()
    }
}

/// The loaded data with the replay state.
pub struct RaceSession {
    points: Vec<FixedPoint>,
    tracks: Vec<Vec<Sample>>,
    colors: Vec<Color>,
    current_index: usize,
    started: bool,
    start_time: u64,
    next_due: u128,
}

impl View for RaceSession {
    type V = SessionView;

    closed spec fn view(&self) -> SessionView {
        SessionView {
            points: self.points@,
            tracks: tracks_view(self.tracks@),
            colors: self.colors@,
            current_index: self.current_index as nat,
            started: self.started,
            start_time: self.start_time as nat,
            next_due: self.next_due as nat,
        }
    }
}

impl RaceSession {
    /// Every session is well formed, at all times.
    #[verifier::type_invariant]
    spec fn inv(&self) -> bool {
        self@.wf()
    }

    /// A stopped session over the loaded data, with the first advance
    /// scheduled at `now`.
    ///
    /// `colors` assigns a colour to each track by position, so it must be at
    /// least as long as `tracks`.
    pub fn new(
        points: Vec<FixedPoint>,
        tracks: Vec<Vec<Sample>>,
        colors: Vec<Color>,
        now: u64,
    ) -> (r: RaceSession)
        requires
            tracks@.len() <= colors@.len(),
        ensures
            r@.wf(),
            r@ == (SessionView {
                points: points@,
                tracks: tracks_view(tracks@),
                colors: colors@,
                current_index: 0,
                started: false,
                start_time: now as nat,
                next_due: now as nat,
            }).scheduled(now as nat),
    {
        let mut session = RaceSession {
            points,
            tracks,
            colors,
            current_index: 0,
            started: false,
            start_time: now,
            next_due: now as u128,
        };
        session.calculate_next_update_time(now);
        session
    }

    /// Schedules the next advance at `now`, by the delay of the sample of the
    /// reference track under the cursor. Past the end nothing changes.
    pub fn calculate_next_update_time(&mut self, now: u64)
        ensures
            final(self)@ == old(self)@.scheduled(now as nat),
            final(self)@.wf(),
    {
        proof {
            use_type_invariant(&*self);
        }
        if self.tracks.len() > 0 && self.current_index < self.tracks[0].len() {
            let delay: u64 = self.tracks[0][self.current_index].delay_to_next;
            self.next_due = now as u128 + delay as u128;
        }
    }

    /// The start command: rewinds the cursor, sets the replay running and
    /// schedules the first advance at `now`, whatever the state was.
    pub fn start(&mut self, now: u64)
        ensures
            final(self)@ == old(self)@.start(now as nat),
            final(self)@.current_index == 0,
            final(self)@.started,
            final(self)@.wf(),
    {
        proof {
            use_type_invariant(&*self);
        }
        self.started = true;
        self.start_time = now;
        self.current_index = 0;
        self.calculate_next_update_time(now);
    }

    /// The stop command: rewinds the cursor and halts the replay.
    pub fn reset(&mut self, now: u64)
        ensures
            final(self)@ == old(self)@.stop(now as nat),
            final(self)@.current_index == 0,
            !final(self)@.started,
            final(self)@.wf(),
    {
        proof {
            use_type_invariant(&*self);
        }
        self.start_time = now;
        self.current_index = 0;
        self.started = false;
        self.calculate_next_update_time(now);
    }

    /// One tick of the host's loop at `now`. Says whether the cursor moved.
    ///
    /// The cursor moves by one when an advance is due and not at all
    /// otherwise; past the end of the reference track nothing changes.
    pub fn tick(&mut self, now: u64) -> (advanced: bool)
        ensures
            final(self)@ == old(self)@.tick(now as nat),
            advanced == old(self)@.due(now as nat),
            final(self)@.current_index == old(self)@.current_index + if advanced {
                1nat
            } else {
                0nat
            },
            old(self)@.current_index >= old(self)@.reference_len() ==> final(self)@ == old(self)@,
            final(self)@.wf(),
    {
        proof {
            use_type_invariant(&*self);
        }
        if self.started && self.tracks.len() > 0 && self.current_index < self.tracks[0].len()
            && now as u128 >= self.next_due {
            self.current_index = self.current_index + 1;
            self.calculate_next_update_time(now);
            true
        } else {
            false
        }
    }

    /// The sample of the reference track under the cursor, if there is one.
    pub fn reference_sample(&self) -> (r: Option<Sample>)
        ensures
            r == self@.reference_sample(),
    {
        if self.tracks.len() > 0 && self.current_index < self.tracks[0].len() {
            Some(self.tracks[0][self.current_index])
        } else {
            None
        }
    }

    /// The text of the readout, `HH:MM:SS.mmm`, for the reference sample
    /// under the cursor. Nothing past the end of the reference track.
    pub fn readout(&self) -> (r: Option<String>)
        ensures
            r is Some <==> self@.readout() is Some,
            r matches Some(text) ==> self@.readout() == Some(text@),
    {
        match self.reference_sample() {
            Some(sample) => sample.timestamp.clock(),
            None => None,
        }
    }

    /// Lays out the frame for the session as it stands.
    pub fn frame(&self, view: &Viewport) -> (r: Result<Vec<DrawCall>, RenderError>)
        ensures
            match self@.frame(*view) {
                Ok(calls) => r matches Ok(list) && list@ == calls,
                Err(e) => r == Err::<Vec<DrawCall>, RenderError>(e),
            },
    {
        proof {
            use_type_invariant(self);
        }
        draw_frame(&self.points, &self.tracks, &self.colors, self.current_index, view)
    }

    /// The position of the cursor.
    pub fn current_index(&self) -> (r: usize)
        ensures
            r == self@.current_index,
            self@.wf(),
    {
        proof {
            use_type_invariant(self);
        }
        self.current_index
    }

    /// Whether the replay runs.
    pub fn started(&self) -> (r: bool)
        ensures
            r == self@.started,
    {
        self.started
    }

    /// The instant of the last start or stop, or of the making of the session.
    pub fn start_time(&self) -> (r: u64)
        ensures
            r == self@.start_time,
    {
        self.start_time
    }

    /// The instant from which the next advance is due.
    pub fn next_due(&self) -> (r: u128)
        ensures
            r == self@.next_due,
    {
        self.next_due
    }

    /// The display points.
    pub fn points(&self) -> (r: &Vec<FixedPoint>)
        ensures
            r@ == self@.points,
    {
        &self.points
    }

    /// The tracks, the reference track first.
    pub fn tracks(&self) -> (r: &Vec<Vec<Sample>>)
        ensures
            tracks_view(r@) == self@.tracks,
            self@.wf(),
    {
        proof {
            use_type_invariant(self);
        }
        &self.tracks
    }

    /// The colours, by track.
    pub fn colors(&self) -> (r: &Vec<Color>)
        ensures
            r@ == self@.colors,
            self@.wf(),
    {
        proof {
            use_type_invariant(self);
        }
        &self.colors
    }
}

/// A start leaves the cursor at the first sample and the replay running; a
/// stop leaves the cursor at the first sample and the replay halted. Neither
/// depends on the state before.
pub proof fn lemma_start_and_stop_rewind(s: SessionView, now: nat)
    ensures
        s.start(now).current_index == 0,
        s.start(now).started,
        s.stop(now).current_index == 0,
        !s.stop(now).started,
{
}

/// A tick moves the cursor by exactly one when an advance is due, and
/// changes nothing when none is, however late the tick comes.
pub proof fn lemma_tick_moves_by_one_at_most(s: SessionView, now: nat)
    ensures
        s.due(now) ==> s.tick(now).current_index == s.current_index + 1,
        !s.due(now) ==> s.tick(now) == s,
{
}

/// Any run of ticks moves the cursor forward by no more than their number.
pub proof fn lemma_ticks_move_by_one_each_at_most(s: SessionView, nows: Seq<nat>)
    ensures
        s.current_index <= s.ticks(nows).current_index <= s.current_index + nows.len(),
    decreases nows.len(),
{
    if nows.len() > 0 {
        lemma_ticks_move_by_one_each_at_most(s, nows.drop_last());
        lemma_tick_moves_by_one_at_most(s.ticks(nows.drop_last()), nows.last());
    }
}

/// Once the cursor is past the end of the reference track, no run of ticks
/// changes the session.
pub proof fn lemma_ticks_past_end_change_nothing(s: SessionView, nows: Seq<nat>)
    requires
        s.current_index >= s.reference_len(),
    ensures
        s.ticks(nows) == s,
    decreases nows.len(),
{
    if nows.len() > 0 {
        lemma_ticks_past_end_change_nothing(s, nows.drop_last());
    }
}

/// No command and no tick changes the loaded data or takes the cursor
/// further than just past the end of the reference track.
pub proof fn lemma_commands_keep_data_and_range(s: SessionView, now: nat)
    requires
        s.wf(),
    ensures
        s.start(now).wf() && s.stop(now).wf() && s.tick(now).wf(),
        s.start(now).points == s.points && s.stop(now).points == s.points && s.tick(now).points
            == s.points,
        s.start(now).tracks == s.tracks && s.stop(now).tracks == s.tracks && s.tick(now).tracks
            == s.tracks,
        s.start(now).colors == s.colors && s.stop(now).colors == s.colors && s.tick(now).colors
            == s.colors,
{
}

} // verus!
