use vstd::prelude::*;

verus! {

/// Seconds into an episode at which the player starts, unless changed.
pub const DEFAULT_START_OFFSET: i32 = 140;

/// How far typed episode numbers and subtitle numbers run ahead of queue
/// indices, unless changed.
pub const DEFAULT_SUBTITLE_OFFSET: i32 = 1;

/// How many episodes prefetch mode starts ahead of the one being watched.
pub const PREFETCH_WINDOW: i32 = 2;

/// The state of one playback session over an episode queue.
#[derive(Clone, Copy, Debug, PartialEq, Eq, Structural)]
pub struct PlaybackSession {
    /// The queue index of the next episode to start.
    pub cursor: i64,
    pub start_offset_secs: i32,
    pub subtitle_offset: i32,
    /// Whether prefetch mode was entered.
    pub prefetching: bool,
    /// How many players prefetch mode has started.
    pub prefetched: i32,
    pub window: i32,
    /// Whether episodes follow one another without asking.
    pub autoplay: bool,
}

/// What the session does next.
#[derive(Clone, Copy, Debug, PartialEq, Eq, Structural)]
pub enum Step {
    /// The queue is done: back to the menu.
    EndOfList,
    /// The cursor stands before the queue: back to the menu.
    Stop,
    /// Start a player for this episode at once, then let it settle.
    Prefetch(usize),
    /// Wait until fewer than the given number of players run, then start one
    /// for this episode.
    WaitThenSpawn(usize, i32),
    /// Start a player for this episode after a short pause.
    Autoplay(usize),
    /// Show this episode and ask for a command.
    Prompt(usize),
}

/// A command typed at the prompt.
#[derive(Clone, Copy, Debug, PartialEq, Eq, Structural)]
pub enum Command {
    Next,
    EnterPrefetch,
    /// Go to the episode of this number (shifted by the subtitle offset).
    Seek(i32),
    SetStartOffset(i32),
    SetSubtitleOffset(i32),
    ShowTotal,
    PrintAll,
    ReturnToMenu,
    Exit,
}

/// What the caller does after a command.
#[derive(Clone, Copy, Debug, PartialEq, Eq, Structural)]
pub enum Reply {
    /// Start a player for this episode.
    Spawn(usize),
    Continue,
    ShowTotal,
    PrintAll,
    ReturnToMenu,
    ExitProgram,
}

impl Step {
    /// Whether the step starts a player.
    pub open spec fn spawns(self) -> bool {
        match self {
            Step::Prefetch(_) | Step::WaitThenSpawn(_, _) | Step::Autoplay(_) => true,
            _ => false,
        }
    }
}

/// Prefetch mode never counts more players than the window and one.
pub open spec fn session_wf(s: PlaybackSession) -> bool {
    0 <= s.window < i32::MAX && 0 <= s.prefetched <= s.window + 1
}

pub open spec fn advanced(s: PlaybackSession) -> PlaybackSession {
    PlaybackSession { cursor: (s.cursor + 1) as i64, ..s }
}

/// The next step of a session over a queue of `len` episodes, and the state
/// after it. A cursor at the largest `i64` has no next position, so the queue
/// ends there too.
pub open spec fn step_of(s: PlaybackSession, len: nat) -> (Step, PlaybackSession) {
    if s.cursor + 1 > len || s.cursor == i64::MAX {
        (Step::EndOfList, s)
    } else if s.cursor < 0 {
        (Step::Stop, s)
    } else if s.prefetching && s.prefetched <= s.window {
        (
            Step::Prefetch(s.cursor as usize),
            PlaybackSession {
                cursor: (s.cursor + 1) as i64,
                prefetched: (s.prefetched + 1) as i32,
                ..s
            },
        )
    } else if s.prefetched == s.window + 1 {
        (Step::WaitThenSpawn(s.cursor as usize, (s.window + 1) as i32), advanced(s))
    } else if s.autoplay {
        (Step::Autoplay(s.cursor as usize), advanced(s))
    } else {
        (Step::Prompt(s.cursor as usize), s)
    }
}

/// What a command does to a session over a queue of `len` episodes.
pub open spec fn command_of(s: PlaybackSession, cmd: Command, len: nat) -> (Reply, PlaybackSession) {
    match cmd {
        Command::Next => if 0 <= s.cursor < len && s.cursor < i64::MAX {
            (Reply::Spawn(s.cursor as usize), advanced(s))
        } else {
            (Reply::Continue, s)
        },
        Command::EnterPrefetch => (
            Reply::Continue,
            PlaybackSession { prefetching: true, prefetched: 0, ..s },
        ),
        Command::Seek(v) => (
            Reply::Continue,
            PlaybackSession { cursor: (v - s.subtitle_offset) as i64, ..s },
        ),
        Command::SetStartOffset(v) => (
            Reply::Continue,
            PlaybackSession { start_offset_secs: v, ..s },
        ),
        Command::SetSubtitleOffset(v) => (
            Reply::Continue,
            PlaybackSession { subtitle_offset: v, ..s },
        ),
        Command::ShowTotal => (Reply::ShowTotal, s),
        Command::PrintAll => (Reply::PrintAll, s),
        Command::ReturnToMenu => (Reply::ReturnToMenu, s),
        Command::Exit => (Reply::ExitProgram, s),
    }
}

impl PlaybackSession {
    /// A session that starts at queue index `start`, with the default start
    /// offset, subtitle offset and prefetch window.
    pub fn new(start: i64, autoplay: bool) -> (r: PlaybackSession)
        ensures
            r == (PlaybackSession {
                cursor: start,
                start_offset_secs: DEFAULT_START_OFFSET,
                subtitle_offset: DEFAULT_SUBTITLE_OFFSET,
                prefetching: false,
                prefetched: 0,
                window: PREFETCH_WINDOW,
                autoplay,
            }),
            session_wf(r),
    {
        PlaybackSession {
            cursor: start,
            start_offset_secs: DEFAULT_START_OFFSET,
            subtitle_offset: DEFAULT_SUBTITLE_OFFSET,
            prefetching: false,
            prefetched: 0,
            window: PREFETCH_WINDOW,
            autoplay,
        }
    }

    /// Decides the next step over a queue of `queue_len` episodes. A step
    /// that starts a player moves the cursor past its episode.
    pub fn next_step(&mut self, queue_len: usize) -> (r: Step)
        requires
            session_wf(*old(self)),
        ensures
            (r, *final(self)) == step_of(*old(self), queue_len as nat),
            session_wf(*final(self)),
    {
        if self.cursor as i128 + 1 > queue_len as i128 || self.cursor == i64::MAX {
            Step::EndOfList
        } else if self.cursor < 0 {
            Step::Stop
        } else if self.prefetching && self.prefetched <= self.window {
            let index = self.cursor as usize;
            self.cursor = self.cursor + 1;
            self.prefetched = self.prefetched + 1;
            Step::Prefetch(index)
        } else if self.prefetched == self.window + 1 {
            let index = self.cursor as usize;
            self.cursor = self.cursor + 1;
            Step::WaitThenSpawn(index, self.window + 1)
        } else if self.autoplay {
            let index = self.cursor as usize;
            self.cursor = self.cursor + 1;
            Step::Autoplay(index)
        } else {
            Step::Prompt(self.cursor as usize)
        }
    }

    /// Applies a command typed at the prompt, over a queue of `queue_len` episodes.
    pub fn apply_command(&mut self, cmd: Command, queue_len: usize) -> (r: Reply)
        requires
            session_wf(*old(self)),
        ensures
            (r, *final(self)) == command_of(*old(self), cmd, queue_len as nat),
            session_wf(*final(self)),
    {
        match cmd {
            Command::Next => {
                if 0 <= self.cursor && (self.cursor as i128) < queue_len as i128 && self.cursor
                    < i64::MAX {
                    let index = self.cursor as usize;
                    self.cursor = self.cursor + 1;
                    Reply::Spawn(index)
                } else {
                    Reply::Continue
                }
            },
            Command::EnterPrefetch => {
                self.prefetching = true;
                self.prefetched = 0;
                Reply::Continue
            },
            Command::Seek(v) => {
                self.cursor = v as i64 - self.subtitle_offset as i64;
                Reply::Continue
            },
            Command::SetStartOffset(v) => {
                self.start_offset_secs = v;
                Reply::Continue
            },
            Command::SetSubtitleOffset(v) => {
                self.subtitle_offset = v;
                Reply::Continue
            },
            Command::ShowTotal => Reply::ShowTotal,
            Command::PrintAll => Reply::PrintAll,
            Command::ReturnToMenu => Reply::ReturnToMenu,
            Command::Exit => Reply::ExitProgram,
        }
    }
}

/// Whether one more player may start while `live` players run and fewer
/// than `target` may run at once.
pub fn gate_admits(live: u64, target: i32) -> (r: bool)
    ensures
        r == (live < target),
{
    target > 0 && live < target as u64
}

/// With the cursor past the last episode, in any mode, the session ends and
/// starts no player.
pub proof fn lemma_end_of_queue(s: PlaybackSession, len: nat)
    requires
        s.cursor >= len,
    ensures
        step_of(s, len).0 == Step::EndOfList,
        !step_of(s, len).0.spawns(),
        step_of(s, len).1 == s,
{
}

/// Once prefetch mode has started its window of players and one, each
/// further player waits for fewer than that many to run, so
/// with the new one no more than the window and one run; and no step ever
/// counts more prefetched players than that.
pub proof fn lemma_prefetch_bound(s: PlaybackSession, len: nat, live: nat)
    requires
        session_wf(s),
        s.prefetched == s.window + 1,
    ensures
        session_wf(step_of(s, len).1),
        step_of(s, len).0.spawns() ==> (step_of(s, len).0 matches Step::WaitThenSpawn(_, t)
            && t == s.window + 1 && (live < t ==> live + 1 <= s.window + 1)),
{
}

/// Every step and every command keeps the prefetch count within its bound.
pub proof fn lemma_steps_keep_bound(s: PlaybackSession, len: nat, cmd: Command)
    requires
        session_wf(s),
    ensures
        session_wf(step_of(s, len).1),
        session_wf(command_of(s, cmd, len).1),
        step_of(s, len).1.prefetched <= s.window + 1,
{
}

} // verus!
