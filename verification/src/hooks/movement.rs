//! Movement control: the local player's struct address and the key commands
//! that start and stop walking.
use vstd::prelude::*;

verus! {

/// Command id of autorun.
pub const CMD_AUTORUN: u32 = 0;

/// Command id of jump.
pub const CMD_JUMP: u32 = 1;

/// Command id of walking forward.
pub const CMD_FORWARD: u32 = 2;

/// Command id of walking back.
pub const CMD_BACK: u32 = 3;

/// One call of the game's command executor: the command and the key state
/// (1 pressed, 0 released), with no data and no target.
#[derive(Debug, Clone, Copy, PartialEq, Eq, Structural)]
pub struct ExecuteCmd {
    pub command: u32,
    pub key_down: i32,
    pub data: usize,
    pub target: usize,
}

/// The local player's struct, which movement writes go to.
#[derive(Debug, Clone, Copy, PartialEq, Eq, Structural)]
pub struct MovementController {
    pub player_base: usize,
}

impl MovementController {
    /// A controller for the player struct at `player_base`.
    pub fn new(player_base: usize) -> (r: Self)
        ensures
            r.player_base == player_base,
    {
        MovementController { player_base }
    }

    /// Whether the player struct address is set (non-null).
    pub fn is_valid(&self) -> (r: bool)
        ensures
            r == (self.player_base != 0),
    {
        self.player_base != 0
    }

    /// Point the controller at a new player struct (after zoning).
    pub fn set_player_base(&mut self, addr: usize)
        ensures
            final(self).player_base == addr,
    {
        self.player_base = addr;
    }

    /// The executor call for a key command.
    pub fn execute_cmd(&self, command: u32, key_down: bool) -> (r: ExecuteCmd)
        ensures
            r == (ExecuteCmd { command, key_down: if key_down { 1i32 } else { 0i32 }, data: 0, target: 0 }),
    {
        let key: i32 = if key_down {
            1
        } else {
            0
        };
        ExecuteCmd { command, key_down: key, data: 0, target: 0 }
    }

    /// Press the forward key.
    pub fn press_forward(&self) -> (r: ExecuteCmd)
        ensures
            r == (ExecuteCmd { command: CMD_FORWARD, key_down: 1, data: 0, target: 0 }),
    {
        self.execute_cmd(CMD_FORWARD, true)
    }

    /// Release the forward key.
    pub fn stop_forward(&self) -> (r: ExecuteCmd)
        ensures
            r == (ExecuteCmd { command: CMD_FORWARD, key_down: 0, data: 0, target: 0 }),
    {
        self.execute_cmd(CMD_FORWARD, false)
    }

    /// Press the back key.
    pub fn press_back(&self) -> (r: ExecuteCmd)
        ensures
            r == (ExecuteCmd { command: CMD_BACK, key_down: 1, data: 0, target: 0 }),
    {
        self.execute_cmd(CMD_BACK, true)
    }

    /// Release the back key.
    pub fn stop_back(&self) -> (r: ExecuteCmd)
        ensures
            r == (ExecuteCmd { command: CMD_BACK, key_down: 0, data: 0, target: 0 }),
    {
        self.execute_cmd(CMD_BACK, false)
    }
}

} // verus!
