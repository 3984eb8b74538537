//! The login-screen main-thread hook: the login action queued by the command
//! thread, what each frame of the login screen does with it, and the
//! automatic server join.
use vstd::prelude::*;
use crate::hooks::hwbp::{self, slot_index, HwbpPlatform, HwbpRegistry, HwbpSlot, SlotEntry};

verus! {

/// The debug-register slot of the login-screen hook.
pub const EQMAIN_HOOK_SLOT: HwbpSlot = HwbpSlot::Dr1;

/// Server id handed to the join call (0: the last or default server).
pub const DEFAULT_SERVER_ID: i32 = 0;

/// Timeout handed to the join call.
pub const JOIN_SERVER_TIMEOUT: i32 = 10;

/// The login action waiting for the next frame.
#[derive(Debug, Clone, Copy, PartialEq, Eq, Structural)]
pub enum LoginAction {
    Nothing,
    SubmitCredentials,
    JoinServer,
}

/// The stored code of an action: 0, 1, 2.
pub open spec fn action_code(a: LoginAction) -> u8 {
    match a {
        LoginAction::Nothing => 0,
        LoginAction::SubmitCredentials => 1,
        LoginAction::JoinServer => 2,
    }
}

impl LoginAction {
    /// The action a stored code stands for; unknown codes are no action.
    pub fn from_u8(v: u8) -> (r: Self)
        ensures
            r == (if v == 1 {
                LoginAction::SubmitCredentials
            } else if v == 2 {
                LoginAction::JoinServer
            } else {
                LoginAction::Nothing
            }),
    {
        if v == 1 {
            LoginAction::SubmitCredentials
        } else if v == 2 {
            LoginAction::JoinServer
        } else {
            LoginAction::Nothing
        }
    }

    /// The stored code of the action.
    pub fn code(self) -> (r: u8)
        ensures
            r == action_code(self),
    {
        match self {
            LoginAction::Nothing => 0,
            LoginAction::SubmitCredentials => 1,
            LoginAction::JoinServer => 2,
        }
    }
}

/// Credentials queued for the main thread; the password type is the
/// caller's (a zeroizing wrapper in practice).
#[derive(Debug)]
pub struct PendingLogin<P> {
    pub account: String,
    pub password: P,
    pub server_name: String,
    pub character_name: String,
}

/// The pending action code, whether the hook is armed, whether the
/// automatic join was sent, and the queued credentials.
#[derive(Debug)]
pub struct EqmainHookState<P> {
    pub pending_action: u8,
    pub hook_active: bool,
    pub server_join_sent: bool,
    pub pending_credentials: Option<PendingLogin<P>>,
}

impl<P> EqmainHookState<P> {
    /// Nothing queued, hook not armed.
    pub fn new() -> (r: Self)
        ensures
            r.pending_action == 0,
            !r.hook_active,
            !r.server_join_sent,
            r.pending_credentials is None,
    {
        EqmainHookState { pending_action: 0, hook_active: false, server_join_sent: false, pending_credentials: None }
    }
}

/// Queue credentials for the next frame; the automatic join may fire again.
pub fn queue_login<P>(
    state: &mut EqmainHookState<P>,
    account: String,
    password: P,
    server_name: String,
    character_name: String,
)
    ensures
        final(state).pending_credentials == Some(PendingLogin { account, password, server_name, character_name }),
        !final(state).server_join_sent,
        final(state).pending_action == action_code(LoginAction::SubmitCredentials),
        final(state).hook_active == old(state).hook_active,
{
    state.pending_credentials = Some(PendingLogin { account, password, server_name, character_name });
    state.server_join_sent = false;
    state.pending_action = LoginAction::SubmitCredentials.code();
}

/// Queue a server join for the next frame.
pub fn queue_join_server<P>(state: &mut EqmainHookState<P>)
    ensures
        final(state).pending_action == action_code(LoginAction::JoinServer),
        final(state).hook_active == old(state).hook_active,
        final(state).server_join_sent == old(state).server_join_sent,
        final(state).pending_credentials == old(state).pending_credentials,
{
    state.pending_action = LoginAction::JoinServer.code();
}

/// Whether the hook is armed.
pub fn is_active<P>(state: &EqmainHookState<P>) -> (r: bool)
    ensures
        r == state.hook_active,
{
    state.hook_active
}

/// Arm the hook on the rebased `GiveTime` address.
pub fn install<P, H: HwbpPlatform>(
    state: &mut EqmainHookState<P>,
    reg: &mut HwbpRegistry,
    platform: &mut H,
    give_time_addr: usize,
    callback: usize,
) -> (r: Result<(), String>)
    ensures
        r is Ok ==> final(reg).slots@ == old(reg).slots@.update(
            slot_index(EQMAIN_HOOK_SLOT),
            SlotEntry { address: give_time_addr, active: true, callback },
        ) && final(state).hook_active,
        r is Err ==> final(state).hook_active == old(state).hook_active,
        final(state).pending_action == old(state).pending_action,
        final(state).server_join_sent == old(state).server_join_sent,
        final(state).pending_credentials == old(state).pending_credentials,
        old(platform).operations_succeed() ==> r is Ok,
{
    let r = hwbp::register(reg, platform, EQMAIN_HOOK_SLOT, give_time_addr, callback);
    if r.is_ok() {
        state.hook_active = true;
    }
    r
}

/// Disarm the hook (when its slot is armed); the automatic join may fire
/// again on the next load.
pub fn remove<P, H: HwbpPlatform>(state: &mut EqmainHookState<P>, reg: &mut HwbpRegistry, platform: &mut H)
    ensures
        !final(state).hook_active,
        !final(state).server_join_sent,
        final(state).pending_action == old(state).pending_action,
        final(state).pending_credentials == old(state).pending_credentials,
        old(reg).slots@[slot_index(EQMAIN_HOOK_SLOT)].active ==> final(reg).slots@
            == old(reg).slots@.update(slot_index(EQMAIN_HOOK_SLOT), hwbp::empty_entry()),
        !old(reg).slots@[slot_index(EQMAIN_HOOK_SLOT)].active ==> *final(reg) == *old(reg),
        final(platform).handler_installed() == old(platform).handler_installed(),
{
    if hwbp::is_active(reg, EQMAIN_HOOK_SLOT) {
        let _ = hwbp::unregister(reg, platform, EQMAIN_HOOK_SLOT);
    }
    state.hook_active = false;
    state.server_join_sent = false;
}

/// What a login-screen frame does first.
#[derive(Debug)]
pub enum EqmainTick<P> {
    /// The login module is gone: the hook was removed.
    Unloaded,
    /// Type these credentials and start the login (`None`: the action was
    /// queued without credentials, so nothing is typed).
    SubmitCredentials(Option<PendingLogin<P>>),
    /// Join the server.
    JoinServer,
    /// Nothing queued.
    Idle,
}

/// Start a login-screen frame: with the module unloaded the hook is removed;
/// otherwise the queued action is taken (and the credentials with it).
/// Splash screens and dialogs are handled after this, then
/// [`detect_screen_state`].
pub fn begin_eqmain_tick<P, H: HwbpPlatform>(
    state: &mut EqmainHookState<P>,
    reg: &mut HwbpRegistry,
    platform: &mut H,
    eqmain_base: u64,
) -> (r: EqmainTick<P>)
    ensures
        eqmain_base == 0 ==> r is Unloaded && !final(state).hook_active && !final(state).server_join_sent
            && final(state).pending_action == old(state).pending_action
            && final(state).pending_credentials == old(state).pending_credentials,
        eqmain_base != 0 ==> final(state).pending_action == 0 && final(state).hook_active
            == old(state).hook_active && final(state).server_join_sent == old(state).server_join_sent
            && *final(reg) == *old(reg),
        eqmain_base != 0 && old(state).pending_action == 1 ==> r == EqmainTick::SubmitCredentials(
            old(state).pending_credentials,
        ) && final(state).pending_credentials is None,
        eqmain_base != 0 && old(state).pending_action == 2 ==> r is JoinServer
            && final(state).pending_credentials == old(state).pending_credentials,
        eqmain_base != 0 && old(state).pending_action != 1 && old(state).pending_action != 2 ==> r is Idle
            && final(state).pending_credentials == old(state).pending_credentials,
{
    if eqmain_base == 0 {
        remove(state, reg, platform);
        return EqmainTick::Unloaded;
    }
    let code = state.pending_action;
    state.pending_action = LoginAction::Nothing.code();
    match LoginAction::from_u8(code) {
        LoginAction::SubmitCredentials => {
            let creds = state.pending_credentials.take();
            EqmainTick::SubmitCredentials(creds)
        },
        LoginAction::JoinServer => EqmainTick::JoinServer,
        LoginAction::Nothing => EqmainTick::Idle,
    }
}

/// End of a login-screen frame: when the server list shows, a join is queued
/// once per hook lifetime.
pub fn detect_screen_state<P>(state: &mut EqmainHookState<P>, server_select_visible: bool) -> (r: bool)
    ensures
        r == (server_select_visible && !old(state).server_join_sent),
        r ==> final(state).server_join_sent && final(state).pending_action == action_code(LoginAction::JoinServer),
        !r ==> final(state).server_join_sent == (old(state).server_join_sent || server_select_visible)
            && final(state).pending_action == old(state).pending_action,
        final(state).hook_active == old(state).hook_active,
        final(state).pending_credentials == old(state).pending_credentials,
{
    if server_select_visible {
        let was_sent = state.server_join_sent;
        state.server_join_sent = true;
        if !was_sent {
            queue_join_server(state);
            return true;
        }
    }
    false
}

/// How a queued join is carried out.
#[derive(Debug, Clone, Copy, PartialEq, Eq, Structural)]
pub enum JoinPlan {
    /// Call `JoinServer(api, server_id, userdata, timeout)` at `join_fn`.
    Call { api: usize, join_fn: usize, server_id: i32, userdata: usize, timeout: i32 },
    /// Click the play button instead.
    FallbackClick,
}

/// Decide how to join from what was read: the login server API object
/// (`None` when its global could not be resolved) and the rebased join
/// function (`None` when rebasing failed). A missing or null API, or a
/// missing function, falls back to clicking the play button.
pub fn join_server_plan(api: Option<usize>, join_fn: Option<usize>) -> (r: JoinPlan)
    ensures
        r == match (api, join_fn) {
            (Some(a), Some(f)) if a != 0 => JoinPlan::Call {
                api: a,
                join_fn: f,
                server_id: DEFAULT_SERVER_ID,
                userdata: 0,
                timeout: JOIN_SERVER_TIMEOUT,
            },
            _ => JoinPlan::FallbackClick,
        },
{
    match api {
        None => JoinPlan::FallbackClick,
        Some(a) => {
            if a == 0 {
                return JoinPlan::FallbackClick;
            }
            match join_fn {
                None => JoinPlan::FallbackClick,
                Some(f) => JoinPlan::Call {
                    api: a,
                    join_fn: f,
                    server_id: DEFAULT_SERVER_ID,
                    userdata: 0,
                    timeout: JOIN_SERVER_TIMEOUT,
                },
            }
        },
    }
}

} // verus!
