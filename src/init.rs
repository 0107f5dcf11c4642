use vstd::prelude::*;

use crate::errors::Fatal;

verus! {

/// Marks that process-wide setup has been carried out. Only an `InitGate`
/// hands one out, and only once the setup calls it planned were reported
/// successful; it takes the report on the caller's word. A token is
/// then copied freely.
#[derive(Clone, Copy, Debug, PartialEq, Eq)]
pub struct InitToken {
    _unused: (),
}

/// The states of process-wide initialization. A failed setup is final: it is
/// never run again and no token follows it.
#[derive(Clone, Copy, Debug, PartialEq, Eq, Structural)]
pub enum InitState {
    Uninitialized,
    Ready,
    Failed,
}

/// The native calls that one call of `init` must make, in this order.
#[derive(Clone, Copy, Debug, PartialEq, Eq, Structural)]
pub struct InitPlan {
    /// Load the native configuration files.
    pub load_config: bool,
    /// Register the supplied path as the database path override.
    pub push_dbpath: bool,
    /// Register the exit hook that takes the global lock and never releases it.
    pub register_exit_hook: bool,
}

/// The status codes that the native calls of a plan returned; zero is success.
/// `dbpath_status` is `None` where no override was registered.
#[derive(Clone, Copy, Debug, PartialEq, Eq, Structural)]
pub struct InitReport {
    pub config_status: i32,
    pub dbpath_status: Option<i32>,
    pub exit_hook_status: i32,
}

/// Process-wide initialization: set up once, then hand out tokens.
pub struct InitGate {
    state: InitState,
}

/// What a call of `init` does in a given state.
pub open spec fn plan_for(state: InitState, has_path: bool) -> InitPlan {
    match state {
        InitState::Uninitialized => InitPlan {
            load_config: true,
            push_dbpath: has_path,
            register_exit_hook: true,
        },
        InitState::Ready | InitState::Failed => InitPlan {
            load_config: false,
            push_dbpath: false,
            register_exit_hook: false,
        },
    }
}

/// Every native call of the setup succeeded.
pub open spec fn report_ok(r: InitReport) -> bool {
    r.config_status == 0 && (r.dbpath_status matches Some(s) ==> s == 0)
        && r.exit_hook_status == 0
}

/// The first native call of the setup that failed.
pub open spec fn first_failure(r: InitReport) -> Fatal {
    if r.config_status != 0 {
        Fatal::ConfigLoadFailed
    } else if r.dbpath_status matches Some(s) && s != 0 {
        Fatal::ConfigOverrideFailed
    } else {
        Fatal::ExitHookFailed
    }
}

/// Whether a call of `init` in `state` yields a token.
pub open spec fn init_succeeds(state: InitState, r: InitReport) -> bool {
    match state {
        InitState::Uninitialized => report_ok(r),
        InitState::Ready => true,
        InitState::Failed => false,
    }
}

/// The error of a call of `init` in `state` that yields no token.
pub open spec fn init_error(state: InitState, r: InitReport) -> Fatal {
    match state {
        InitState::Uninitialized => first_failure(r),
        _ => Fatal::SetupFailed,
    }
}

/// The state after a call of `init`.
pub open spec fn state_after(state: InitState, r: InitReport) -> InitState {
    match state {
        InitState::Uninitialized => if report_ok(r) {
            InitState::Ready
        } else {
            InitState::Failed
        },
        _ => state,
    }
}

/// Native configuration loads and tokens handed out over `n` calls of `init`,
/// from `state`, where each setup that runs reports `r`.
pub open spec fn init_calls(state: InitState, has_path: bool, r: InitReport, n: nat) -> (nat, nat)
    decreases n,
{
    if n == 0 {
        (0, 0)
    } else {
        let rest = init_calls(state_after(state, r), has_path, r, (n - 1) as nat);
        let load: nat = if plan_for(state, has_path).load_config { 1 } else { 0 };
        let token: nat = if init_succeeds(state, r) { 1 } else { 0 };
        (rest.0 + load, rest.1 + token)
    }
}

impl InitGate {
    pub closed spec fn state(&self) -> InitState {
        self.state
    }

    /// A gate before any setup.
    pub fn new() -> (g: Self)
        ensures
            g.state() == InitState::Uninitialized,
    {
        InitGate { state: InitState::Uninitialized }
    }

    /// The native calls that a call of `init` must make now: the whole setup
    /// the first time, nothing once setup is done.
    pub fn plan(&self, has_path: bool) -> (p: InitPlan)
        ensures
            p == plan_for(self.state(), has_path),
    {
        match self.state {
            InitState::Uninitialized => InitPlan {
                load_config: true,
                push_dbpath: has_path,
                register_exit_hook: true,
            },
            InitState::Ready | InitState::Failed => InitPlan {
                load_config: false,
                push_dbpath: false,
                register_exit_hook: false,
            },
        }
    }

    /// Takes the outcome of the planned native calls. Once setup is done a
    /// token comes back whatever the report says, since no calls were planned;
    /// once it has failed, no token ever comes back. On the first call, setup
    /// is done and a token comes back exactly when every call succeeded;
    /// otherwise the first failure is named and setup stays failed.
    pub fn complete(&mut self, report: InitReport) -> (r: Result<InitToken, Fatal>)
        ensures
            final(self).state() == state_after(old(self).state(), report),
            r is Ok <==> init_succeeds(old(self).state(), report),
            r matches Err(f) ==> f == init_error(old(self).state(), report),
    {
        match self.state {
            InitState::Ready => {
                return Ok(InitToken { _unused: () });
            },
            InitState::Failed => {
                return Err(Fatal::SetupFailed);
            },
            InitState::Uninitialized => {},
        }
        if report.config_status != 0 {
            self.state = InitState::Failed;
            return Err(Fatal::ConfigLoadFailed);
        }
        if let Some(s) = report.dbpath_status {
            if s != 0 {
                self.state = InitState::Failed;
                return Err(Fatal::ConfigOverrideFailed);
            }
        }
        if report.exit_hook_status != 0 {
            self.state = InitState::Failed;
            return Err(Fatal::ExitHookFailed);
        }
        self.state = InitState::Ready;
        Ok(InitToken { _unused: () })
    }

    /// A token, where setup has completed.
    pub fn token(&self) -> (r: Option<InitToken>)
        ensures
            r is Some <==> self.state() == InitState::Ready,
    {
        match self.state {
            InitState::Ready => Some(InitToken { _unused: () }),
            InitState::Uninitialized | InitState::Failed => None,
        }
    }
}

/// However many times `init` is called, the native configuration is loaded by
/// the first call alone, and every call returns a token once setup succeeds.
pub proof fn lemma_init_configures_once(has_path: bool, r: InitReport, n: nat)
    requires
        report_ok(r),
        n >= 1,
    ensures
        init_calls(InitState::Uninitialized, has_path, r, n) == (1nat, n),
{
    lemma_ready_calls(has_path, r, (n - 1) as nat);
}

/// Calls of `init` on a ready gate load nothing and each return a token.
pub proof fn lemma_ready_calls(has_path: bool, r: InitReport, n: nat)
    ensures
        init_calls(InitState::Ready, has_path, r, n) == (0nat, n),
    decreases n,
{
    if n > 0 {
        lemma_ready_calls(has_path, r, (n - 1) as nat);
    }
}

/// A failed setup is final: of any number of calls of `init`, the first alone
/// loads the native configuration, and none returns a token.
pub proof fn lemma_failed_setup_is_final(has_path: bool, r: InitReport, n: nat)
    requires
        !report_ok(r),
        n >= 1,
    ensures
        init_calls(InitState::Uninitialized, has_path, r, n) == (1nat, 0nat),
{
    lemma_failed_calls(has_path, r, (n - 1) as nat);
}

/// Calls of `init` after a failed setup load nothing and return no token.
pub proof fn lemma_failed_calls(has_path: bool, r: InitReport, n: nat)
    ensures
        init_calls(InitState::Failed, has_path, r, n) == (0nat, 0nat),
    decreases n,
{
    if n > 0 {
        lemma_failed_calls(has_path, r, (n - 1) as nat);
    }
}

} // verus!
