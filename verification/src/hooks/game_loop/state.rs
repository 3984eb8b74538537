//! Per-process game-loop state: the tick counter and its schedule, the
//! foreground flag, the pending login-button click and the enter-world
//! sequence (select character, wait, enter world).
use vstd::prelude::*;
use crate::text::{chars_of, eq_ic, eq_ignore_case};

verus! {

/// Ticks to wait after selecting a character before entering the world.
pub const SELECT_WAIT_TICKS: u64 = 90;

/// Ticks to wait before entering the world when no character can be
/// selected.
pub const NO_SELECT_WAIT_TICKS: u64 = 30;

/// Failed window rescans tolerated before the sequence is abandoned.
pub const MAX_RESCAN_RETRIES: u32 = 150;

/// Stage of the enter-world sequence.
pub const STAGE_IDLE: u32 = 0;
pub const STAGE_SELECT: u32 = 1;
pub const STAGE_WAIT: u32 = 2;
pub const STAGE_ENTER: u32 = 3;

/// The most rows of the character list that are searched for a name.
pub const MAX_CHARACTER_LIST_SCAN_ROWS: usize = 64;

/// Whether a row of the character list holds `name`, ignoring ASCII case
/// (a row whose text could not be read holds no name).
pub open spec fn row_holds_name(row: Option<String>, name: Seq<char>) -> bool {
    row matches Some(text) && eq_ic(text@, name)
}

/// How many rows are searched.
pub open spec fn scan_bound(row_count: nat) -> nat {
    if row_count < MAX_CHARACTER_LIST_SCAN_ROWS {
        row_count
    } else {
        MAX_CHARACTER_LIST_SCAN_ROWS as nat
    }
}

/// The index of the character's row in the list window, given the name
/// column of each row (`None` where it could not be read): the first of the
/// first 64 rows that holds the name, ignoring ASCII case; 0 for an empty
/// name or when no searched row holds it.
pub fn character_index(rows: &[Option<String>], character_name: &str) -> (r: i32)
    ensures
        character_name@.len() == 0 ==> r == 0,
        character_name@.len() > 0 && (exists|i: int|
            0 <= i < scan_bound(rows@.len()) && row_holds_name(#[trigger] rows@[i], character_name@))
            ==> {
            &&& 0 <= r < scan_bound(rows@.len())
            &&& row_holds_name(rows@[r as int], character_name@)
            &&& forall|j: int| 0 <= j < r ==> !row_holds_name(#[trigger] rows@[j], character_name@)
        },
        character_name@.len() > 0 && (forall|i: int|
            0 <= i < scan_bound(rows@.len()) ==> !row_holds_name(#[trigger] rows@[i], character_name@))
            ==> r == 0,
{
    let name = chars_of(character_name);
    if name.len() == 0 {
        return 0;
    }
    let bound = if rows.len() < MAX_CHARACTER_LIST_SCAN_ROWS {
        rows.len()
    } else {
        MAX_CHARACTER_LIST_SCAN_ROWS
    };
    let mut i: usize = 0;
    while i < bound
        invariant
            0 <= i <= bound,
            bound == scan_bound(rows@.len()),
            bound <= rows@.len(),
            name@ == character_name@,
            character_name@.len() > 0,
            forall|j: int| 0 <= j < i ==> !row_holds_name(#[trigger] rows@[j], character_name@),
        decreases bound - i,
    {
        match &rows[i] {
            Some(text) => {
                let t = chars_of(text.as_str());
                if eq_ignore_case(t.as_slice(), name.as_slice()) {
                    return i as i32;
                }
            },
            None => {},
        }
        i = i + 1;
    }
    0
}

/// The login-screen button to click this tick: the queued one, when one is
/// queued and its window can still be read (a destroyed window is skipped).
pub fn button_to_click(button_addr: usize, readable: bool) -> (r: Option<usize>)
    ensures
        r == (if button_addr != 0 && readable {
            Some(button_addr)
        } else {
            None::<usize>
        }),
{
    if button_addr != 0 && readable {
        Some(button_addr)
    } else {
        None
    }
}

/// The most bytes one memory-read request returns.
pub const MAX_READ_MEMORY_BYTES: usize = 4096;

/// How many bytes a memory-read request for `size` bytes reads: the size
/// asked for, at most 4096.
pub fn read_memory_len(size: usize) -> (r: usize)
    ensures
        r == (if size < MAX_READ_MEMORY_BYTES {
            size
        } else {
            MAX_READ_MEMORY_BYTES
        }),
{
    if size < MAX_READ_MEMORY_BYTES {
        size
    } else {
        MAX_READ_MEMORY_BYTES
    }
}

/// What the game-loop thread must do for the enter-world sequence this tick.
#[derive(Debug, PartialEq, Eq)]
pub enum EnterWorldAction {
    /// Nothing this tick.
    Idle,
    /// Look up the character's row by name in the list window and call
    /// `SelectCharacter` there.
    SelectCharacter { wnd: usize, func: usize, character_name: String },
    /// Call `EnterWorld` on the freshly found list window.
    EnterWorld { wnd: usize, func: usize },
    /// The list window could not be found again; the rest of this tick is
    /// skipped.
    RescanFailed,
}

/// Which periodic jobs run on a tick.
#[derive(Debug, Clone, Copy, PartialEq, Eq, Structural)]
pub struct TickSchedule {
    pub update_foreground: bool,
    pub check_dialogs: bool,
    pub update_window_title: bool,
}

/// The game-loop state shared between the IPC side and the game thread.
pub struct GameLoopState {
    pub window_is_foreground: bool,
    pub tick_count: u64,
    pub pending_button_click: usize,
    pub enter_world_stage: u32,
    pub enter_world_wnd: usize,
    pub enter_world_fn: usize,
    pub select_char_fn: usize,
    pub enter_world_wait_until: u64,
    pub enter_world_retries: u32,
    pub pending_char_name: String,
}

/// Every 30 ticks the foreground check (at 0) and the dialog check (at 15);
/// every 100 ticks the window title (at 5).
pub open spec fn schedule_spec(tick: u64) -> TickSchedule {
    TickSchedule {
        update_foreground: tick % 30 == 0,
        check_dialogs: tick % 30 == 15,
        update_window_title: tick % 100 == 5,
    }
}

/// The periodic jobs of a tick.
pub fn tick_schedule(tick: u64) -> (r: TickSchedule)
    ensures
        r == schedule_spec(tick),
{
    TickSchedule {
        update_foreground: tick % 30 == 0,
        check_dialogs: tick % 30 == 15,
        update_window_title: tick % 100 == 5,
    }
}

/// Whether to press Enter at character select this tick: login not done,
/// not in the world, every 90 ticks (at 45), and no enter-world sequence
/// running.
pub fn send_enter_due(tick: u64, login_done: bool, in_world: bool, stage: u32) -> (r: bool)
    ensures
        r == (!login_done && !in_world && tick % 90 == 45 && stage == STAGE_IDLE),
{
    !login_done && !in_world && tick % 90 == 45 && stage == STAGE_IDLE
}

impl GameLoopState {
    /// Foreground, tick 0, nothing pending.
    pub fn new() -> (r: Self)
        ensures
            r.window_is_foreground,
            r.tick_count == 0,
            r.pending_button_click == 0,
            r.enter_world_stage == STAGE_IDLE,
            r.enter_world_wnd == 0,
            r.enter_world_fn == 0,
            r.select_char_fn == 0,
            r.enter_world_wait_until == 0,
            r.enter_world_retries == 0,
            r.pending_char_name@ == Seq::<char>::empty(),
    {
        GameLoopState {
            window_is_foreground: true,
            tick_count: 0,
            pending_button_click: 0,
            enter_world_stage: STAGE_IDLE,
            enter_world_wnd: 0,
            enter_world_fn: 0,
            select_char_fn: 0,
            enter_world_wait_until: 0,
            enter_world_retries: 0,
            pending_char_name: String::new(),
        }
    }

    /// Start a tick: returns its number and advances the counter (wrapping).
    pub fn begin_tick(&mut self) -> (r: u64)
        ensures
            r == old(self).tick_count,
            final(self).tick_count == (if old(self).tick_count == u64::MAX {
                0
            } else {
                (old(self).tick_count + 1) as u64
            }),
            final(self).enter_world_stage == old(self).enter_world_stage,
    {
        let t = self.tick_count;
        self.tick_count = if t == u64::MAX {
            0
        } else {
            t + 1
        };
        t
    }

    /// Record the result of a foreground check.
    pub fn set_foreground(&mut self, fg: bool)
        ensures
            final(self).window_is_foreground == fg,
    {
        self.window_is_foreground = fg;
    }

    /// Take the queued click, leaving none queued.
    pub fn take_button_click(&mut self) -> (r: usize)
        ensures
            r == old(self).pending_button_click,
            final(self).pending_button_click == 0,
    {
        let b = self.pending_button_click;
        self.pending_button_click = 0;
        b
    }

    /// Start the enter-world sequence for a character.
    pub fn queue_enter_world(
        &mut self,
        char_list_wnd: usize,
        enter_world_fn: usize,
        select_char_fn: usize,
        character_name: String,
    )
        ensures
            final(self).enter_world_stage == STAGE_SELECT,
            final(self).enter_world_wnd == char_list_wnd,
            final(self).enter_world_fn == enter_world_fn,
            final(self).select_char_fn == select_char_fn,
            final(self).pending_char_name == character_name,
            final(self).enter_world_retries == old(self).enter_world_retries,
            final(self).tick_count == old(self).tick_count,
    {
        self.pending_char_name = character_name;
        self.select_char_fn = select_char_fn;
        self.enter_world_fn = enter_world_fn;
        self.enter_world_wnd = char_list_wnd;
        self.enter_world_stage = STAGE_SELECT;
    }

    /// Clear the sequence's addresses and retries, then go idle.
    fn reset_enter_world(&mut self)
        ensures
            final(self).enter_world_stage == STAGE_IDLE,
            final(self).enter_world_wnd == 0,
            final(self).enter_world_fn == 0,
            final(self).select_char_fn == 0,
            final(self).enter_world_retries == 0,
            final(self).enter_world_wait_until == old(self).enter_world_wait_until,
            final(self).pending_char_name == old(self).pending_char_name,
            final(self).tick_count == old(self).tick_count,
            final(self).pending_button_click == old(self).pending_button_click,
            final(self).window_is_foreground == old(self).window_is_foreground,
    {
        self.enter_world_wnd = 0;
        self.enter_world_fn = 0;
        self.select_char_fn = 0;
        self.enter_world_retries = 0;
        self.enter_world_stage = STAGE_IDLE;
    }

    /// One tick of the enter-world sequence. Stage 1 selects the character
    /// (when a window and `SelectCharacter` are known) and waits 90 ticks,
    /// or waits 30 ticks without selecting; stage 2 waits; stage 3 enters
    /// the world through the window found again by `rescan`, then resets.
    /// When the rescan fails the sequence is abandoned if no window was ever
    /// stored or after 150 failures, and retried next tick otherwise.
    /// `rescan` is only looked at in stage 3.
    pub fn enter_world_step(&mut self, tick: u64, rescan: Option<usize>) -> (r: EnterWorldAction)
        requires
            tick <= u64::MAX - SELECT_WAIT_TICKS,
        ensures
            final(self).tick_count == old(self).tick_count,
            final(self).pending_button_click == old(self).pending_button_click,
            final(self).window_is_foreground == old(self).window_is_foreground,
            old(self).enter_world_stage == STAGE_SELECT ==> {
                &&& final(self).enter_world_stage == STAGE_WAIT
                &&& if old(self).enter_world_wnd != 0 && old(self).select_char_fn != 0 {
                    &&& r matches EnterWorldAction::SelectCharacter { wnd, func, character_name }
                    &&& wnd == old(self).enter_world_wnd
                    &&& func == old(self).select_char_fn
                    &&& character_name == old(self).pending_char_name
                    &&& final(self).enter_world_wait_until == tick + SELECT_WAIT_TICKS
                } else {
                    r is Idle && final(self).enter_world_wait_until == tick + NO_SELECT_WAIT_TICKS
                }
            },
            old(self).enter_world_stage == STAGE_WAIT ==> r is Idle
                && final(self).enter_world_stage == (if tick >= old(self).enter_world_wait_until {
                STAGE_ENTER
            } else {
                STAGE_WAIT
            }),
            old(self).enter_world_stage == STAGE_ENTER ==> match rescan {
                Some(w) => {
                    &&& (if old(self).enter_world_fn != 0 {
                        r == EnterWorldAction::EnterWorld { wnd: w, func: old(self).enter_world_fn }
                    } else {
                        r is Idle
                    })
                    &&& final(self).enter_world_stage == STAGE_IDLE
                    &&& final(self).enter_world_wnd == 0
                    &&& final(self).enter_world_fn == 0
                    &&& final(self).select_char_fn == 0
                    &&& final(self).enter_world_retries == 0
                },
                None => {
                    &&& r is RescanFailed
                    &&& if old(self).enter_world_wnd == 0 {
                        final(self).enter_world_stage == STAGE_IDLE
                    } else if old(self).enter_world_retries >= MAX_RESCAN_RETRIES {
                        final(self).enter_world_stage == STAGE_IDLE && final(self).enter_world_retries
                            == 0
                    } else {
                        final(self).enter_world_stage == STAGE_ENTER
                            && final(self).enter_world_retries == old(self).enter_world_retries + 1
                    }
                },
            },
            (old(self).enter_world_stage != STAGE_SELECT && old(self).enter_world_stage != STAGE_WAIT
                && old(self).enter_world_stage != STAGE_ENTER) ==> r is Idle && *final(self)
                == *old(self),
    {
        let stage = self.enter_world_stage;
        if stage == STAGE_SELECT {
            let wnd = self.enter_world_wnd;
            let select_fn = self.select_char_fn;
            if wnd != 0 && select_fn != 0 {
                let name = self.pending_char_name.clone();
                self.enter_world_wait_until = tick + SELECT_WAIT_TICKS;
                self.enter_world_stage = STAGE_WAIT;
                EnterWorldAction::SelectCharacter { wnd, func: select_fn, character_name: name }
            } else {
                self.enter_world_wait_until = tick + NO_SELECT_WAIT_TICKS;
                self.enter_world_stage = STAGE_WAIT;
                EnterWorldAction::Idle
            }
        } else if stage == STAGE_WAIT {
            if tick >= self.enter_world_wait_until {
                self.enter_world_stage = STAGE_ENTER;
            }
            EnterWorldAction::Idle
        } else if stage == STAGE_ENTER {
            match rescan {
                Some(w) => {
                    let enter_fn = self.enter_world_fn;
                    self.reset_enter_world();
                    if enter_fn != 0 {
                        EnterWorldAction::EnterWorld { wnd: w, func: enter_fn }
                    } else {
                        EnterWorldAction::Idle
                    }
                },
                None => {
                    if self.enter_world_wnd == 0 {
                        self.enter_world_stage = STAGE_IDLE;
                        return EnterWorldAction::RescanFailed;
                    }
                    let retries = self.enter_world_retries;
                    if retries >= MAX_RESCAN_RETRIES {
                        self.enter_world_stage = STAGE_IDLE;
                        self.enter_world_retries = 0;
                        return EnterWorldAction::RescanFailed;
                    }
                    self.enter_world_retries = retries + 1;
                    EnterWorldAction::RescanFailed
                },
            }
        } else {
            EnterWorldAction::Idle
        }
    }
}

} // verus!
