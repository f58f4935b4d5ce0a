use vstd::prelude::*;
use vstd::string::StringExecFns;

use crate::fspath::FsPath;
use crate::launch::{LaunchPlan, Platform, StartError};

verus! {

/// The external utility that terminates a process tree on Windows.
pub const TREE_KILL_PROGRAM: &'static str = "taskkill";

/// The running backend: its process id, the directory it runs in, and the
/// host's own record of the child process.
pub struct ProcessHandle<H> {
    pub pid: u32,
    pub working_dir: FsPath,
    pub child: H,
}

/// One step of stopping the backend, performed by the host in order.
#[derive(Clone, Copy, Debug, PartialEq, Eq, Structural)]
pub enum StopAction {
    /// Force-terminate the process with this id and all its descendants
    /// (see `tree_kill_command`).
    TreeKill { pid: u32 },
    /// Terminate the child itself through its handle.
    Kill,
    /// Wait for the child to exit, so that it is reaped.
    Wait,
}

/// What stopping a backend with process id `pid` takes on `platform`: on
/// Windows a forced kill of the whole process tree, then a kill through the
/// handle; elsewhere a termination signal to the child alone. Both end by
/// reaping the child.
pub open spec fn spec_stop_actions(platform: Platform, pid: u32) -> Seq<StopAction> {
    match platform {
        Platform::Windows => seq![StopAction::TreeKill { pid }, StopAction::Kill, StopAction::Wait],
        Platform::Unix => seq![StopAction::Kill, StopAction::Wait],
    }
}

/// A stop on a slot: the slot is left empty and whatever it held is taken.
pub open spec fn stop_step<H>(slot: Option<ProcessHandle<H>>) -> (
    Option<ProcessHandle<H>>,
    Option<ProcessHandle<H>>,
) {
    (None, slot)
}

/// The process work that a stop performs on a slot: none where it is empty.
pub open spec fn stop_work<H>(slot: Option<ProcessHandle<H>>, platform: Platform) -> Seq<
    StopAction,
> {
    match slot {
        Some(h) => spec_stop_actions(platform, h.pid),
        None => seq![],
    }
}

/// The slot after a spawn: the new handle where the spawn succeeded (whatever
/// the slot held before), else the slot as it was.
pub open spec fn spawn_step<H>(
    slot: Option<ProcessHandle<H>>,
    spawned: Option<ProcessHandle<H>>,
) -> Option<ProcessHandle<H>> {
    match spawned {
        Some(h) => Some(h),
        None => slot,
    }
}

/// The supervisor of the backend process: a slot that holds at most one
/// running backend. The host keeps it behind a lock, so that each start and
/// each stop reads and changes the slot in one step.
pub struct Supervisor<H> {
    slot: Option<ProcessHandle<H>>,
}

impl<H> Supervisor<H> {
    pub closed spec fn slot(&self) -> Option<ProcessHandle<H>> {
        self.slot
    }

    /// An empty supervisor: no backend runs.
    pub fn new() -> (r: Supervisor<H>)
        ensures
            r.slot() is None,
    {
        Supervisor { slot: None }
    }

    /// Whether a backend is held.
    pub fn is_running(&self) -> (r: bool)
        ensures
            r == self.slot() is Some,
    {
        self.slot.is_some()
    }

    /// The process id of the backend held, if any.
    pub fn running_pid(&self) -> (r: Option<u32>)
        ensures
            r is Some <==> self.slot() is Some,
            r matches Some(pid) ==> self.slot()->0.pid == pid,
    {
        match &self.slot {
            Some(h) => Some(h.pid),
            None => None,
        }
    }

    /// The working directory of the backend held, if any.
    pub fn running_working_dir(&self) -> (r: Option<&FsPath>)
        ensures
            r is Some <==> self.slot() is Some,
            r matches Some(d) ==> self.slot()->0.working_dir == *d,
    {
        match &self.slot {
            Some(h) => Some(&h.working_dir),
            None => None,
        }
    }

    /// Records the outcome of spawning the backend by `plan`: the child with
    /// its process id where the spawn succeeded, the system's message where it
    /// failed. On success the new handle takes the slot; a handle already
    /// there is replaced, not stopped, so a second start while a backend runs
    /// leaves the first one untracked. On failure the slot is unchanged and
    /// the error is a `SpawnError` with the message.
    pub fn record_spawn(&mut self, plan: &LaunchPlan, spawned: Result<(u32, H), String>) -> (r:
        Result<(), StartError>)
        ensures
            r is Ok <==> spawned is Ok,
            spawned matches Ok((pid, child)) ==> final(self).slot() matches Some(h) && h.pid == pid
                && h.child == child && h.working_dir@ == plan.working_dir@,
            spawned matches Err(msg) ==> r matches Err(StartError::SpawnError(m)) && m == msg
                && final(self).slot() == old(self).slot(),
    {
        match spawned {
            Ok((pid, child)) => {
                let working_dir = plan.working_dir.duplicate();
                self.slot = Some(ProcessHandle { pid, working_dir, child });
                Ok(())
            },
            Err(msg) => Err(StartError::SpawnError(msg)),
        }
    }

    /// Takes the backend out of the slot, leaving it empty, and gives what
    /// must be done to stop it on `platform`. Where the slot is already empty
    /// there is nothing to do: a second stop, or one that lost the race to
    /// another, is a no-op.
    pub fn stop_python_server(&mut self, platform: Platform) -> (r: Option<
        (ProcessHandle<H>, Vec<StopAction>),
    >)
        ensures
            final(self).slot() == stop_step(old(self).slot()).0,
            r is Some <==> stop_step(old(self).slot()).1 is Some,
            r matches Some((h, actions)) ==> stop_step(old(self).slot()).1 == Some(h)
                && actions@ == stop_work(Some(h), platform),
    {
        match self.slot.take() {
            Some(h) => {
                let actions = stop_actions(platform, h.pid);
                Some((h, actions))
            },
            None => None,
        }
    }
}

/// The steps that stop the backend with process id `pid` on `platform`.
pub fn stop_actions(platform: Platform, pid: u32) -> (r: Vec<StopAction>)
    ensures
        r@ == spec_stop_actions(platform, pid),
{
    let mut r: Vec<StopAction> = Vec::new();
    match platform {
        Platform::Windows => {
            r.push(StopAction::TreeKill { pid });
            r.push(StopAction::Kill);
            r.push(StopAction::Wait);
        },
        Platform::Unix => {
            r.push(StopAction::Kill);
            r.push(StopAction::Wait);
        },
    }
    assert(r@ =~= spec_stop_actions(platform, pid));
    r
}

pub open spec fn digit_char(d: nat) -> char {
    if d == 0 {
        '0'
    } else if d == 1 {
        '1'
    } else if d == 2 {
        '2'
    } else if d == 3 {
        '3'
    } else if d == 4 {
        '4'
    } else if d == 5 {
        '5'
    } else if d == 6 {
        '6'
    } else if d == 7 {
        '7'
    } else if d == 8 {
        '8'
    } else {
        '9'
    }
}

/// The decimal digits of `n`, most significant first, without leading zeros.
pub open spec fn decimal(n: nat) -> Seq<char>
    decreases n,
{
    if n < 10 {
        seq![digit_char(n)]
    } else {
        decimal(n / 10) + seq![digit_char(n % 10)]
    }
}

fn digit_str(d: u32) -> (r: &'static str)
    requires
        d < 10,
    ensures
        r@ == seq![digit_char(d as nat)],
{
    proof {
        reveal_strlit("0");
        reveal_strlit("1");
        reveal_strlit("2");
        reveal_strlit("3");
        reveal_strlit("4");
        reveal_strlit("5");
        reveal_strlit("6");
        reveal_strlit("7");
        reveal_strlit("8");
        reveal_strlit("9");
    }
    let r = if d == 0 {
        "0"
    } else if d == 1 {
        "1"
    } else if d == 2 {
        "2"
    } else if d == 3 {
        "3"
    } else if d == 4 {
        "4"
    } else if d == 5 {
        "5"
    } else if d == 6 {
        "6"
    } else if d == 7 {
        "7"
    } else if d == 8 {
        "8"
    } else {
        "9"
    };
    assert(r@ =~= seq![digit_char(d as nat)]);
    r
}

fn push_decimal(s: &mut String, n: u32)
    ensures
        final(s)@ == old(s)@ + decimal(n as nat),
    decreases n,
{
    if n >= 10 {
        push_decimal(s, n / 10);
    }
    s.append(digit_str(n % 10));
    assert(final(s)@ =~= old(s)@ + decimal(n as nat));
}

/// The process id in decimal.
pub fn pid_text(pid: u32) -> (r: String)
    ensures
        r@ == decimal(pid as nat),
{
    let mut s = String::new();
    push_decimal(&mut s, pid);
    assert(s@ =~= decimal(pid as nat));
    s
}

/// The arguments of the tree kill: forced (`/F`), over the whole process
/// tree (`/T`), addressed by process id (`/PID <pid>`).
pub open spec fn tree_kill_args(pid: u32) -> Seq<Seq<char>> {
    seq!["/F"@, "/T"@, "/PID"@, decimal(pid as nat)]
}

/// The command line that force-kills the process tree rooted at `pid`: the
/// program to run and its arguments.
pub fn tree_kill_command(pid: u32) -> (r: (String, Vec<String>))
    ensures
        r.0@ == TREE_KILL_PROGRAM@,
        r.1@.len() == 4,
        forall|i: int| 0 <= i < 4 ==> #[trigger] r.1@[i]@ == tree_kill_args(pid)[i],
{
    let mut args: Vec<String> = Vec::new();
    args.push("/F".to_owned());
    args.push("/T".to_owned());
    args.push("/PID".to_owned());
    args.push(pid_text(pid));
    (TREE_KILL_PROGRAM.to_owned(), args)
}

/// Stopping twice in a row: the second stop finds the slot empty and does no
/// process work, and the first took whatever the slot held. Since the host
/// serialises stops through the slot's lock, of two concurrent stops on a
/// running backend exactly one takes it and performs the kill and the wait.
pub proof fn lemma_stop_is_idempotent<H>(slot: Option<ProcessHandle<H>>, platform: Platform)
    ensures
        stop_step(slot).1 == slot,
        stop_step(stop_step(slot).0).1 is None,
        stop_work(stop_step(stop_step(slot).0).1, platform) == Seq::<StopAction>::empty(),
        stop_step(stop_step(slot).0).0 is None,
        slot is Some ==> (stop_step(slot).1 is Some && stop_step(stop_step(slot).0).1 is None),
{
}

/// A successful start followed by a stop: the stop takes exactly the handle
/// that the start recorded, leaves the slot empty, and ends by reaping the
/// child.
pub proof fn lemma_start_then_stop<H>(
    slot: Option<ProcessHandle<H>>,
    h: ProcessHandle<H>,
    platform: Platform,
)
    ensures
        stop_step(spawn_step(slot, Some(h))).1 == Some(h),
        stop_step(spawn_step(slot, Some(h))).0 is None,
        stop_work(Some(h), platform).len() > 0,
        stop_work(Some(h), platform).last() == StopAction::Wait,
{
}

/// On Windows a stop force-kills the tree addressed by the recorded process
/// id; elsewhere it signals the child alone and never kills a tree.
pub proof fn lemma_stop_by_platform<H>(h: ProcessHandle<H>)
    ensures
        stop_work(Some(h), Platform::Windows)[0] == (StopAction::TreeKill { pid: h.pid }),
        forall|i: int|
            0 <= i < stop_work(Some(h), Platform::Unix).len() ==> !(#[trigger] stop_work(
                Some(h),
                Platform::Unix,
            )[i] is TreeKill),
        stop_work(Some(h), Platform::Unix) == seq![StopAction::Kill, StopAction::Wait],
{
}

} // verus!
