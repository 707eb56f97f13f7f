//! The balance of initializations and shutdowns.
//!
//! NVML counts its initializations and only shuts down with the last of them. What a program does
//! to that count is the sum of what its steps do: the calls that start a session and those that
//! end one.
use crate::bindings::NvmlLib;
use crate::error::{NvmlError, NVML_SUCCESS};
use crate::nvml::NVML;
use vstd::prelude::*;

verus! {

/// A call that starts a session or ends one.
pub enum Step {
    /// [`NVML::init`] or [`NVML::init_with_flags`], where no entry point could be called: the
    /// library was not opened, or lacks it.
    NotOpened { session: Result<NVML, NvmlError> },
    /// [`NVML::init`] or [`NVML::init_with_flags`], where the entry point returned `code`.
    Init { lib: NvmlLib, code: u32, session: Result<NVML, NvmlError> },
    /// [`NVML::shutdown`] of a session whose library lacks `nvmlShutdown`.
    Closed { r: Result<(), NvmlError> },
    /// [`NVML::shutdown`], where `nvmlShutdown` returned `code`, and then `again` if it was called
    /// again because of that.
    Shutdown {
        code: u32,
        again: u32,
        closed: Result<(), libloading::Error>,
        r: Result<(), NvmlError>,
    },
    /// [`NVML::discard`], where `nvmlShutdown` returned `code`.
    Discard { code: u32 },
}

impl Step {
    /// The step has the outcome that its function ensures.
    pub open spec fn is_possible(self) -> bool {
        match self {
            Step::NotOpened { session } => session is Err,
            Step::Init { lib, code, session } => crate::nvml::is_started(session, lib, code),
            Step::Closed { r } => r is Err,
            Step::Shutdown { code, again, closed, r } => crate::nvml::is_shut_down(r, code, closed),
            Step::Discard { code } => true,
        }
    }

    /// How many sessions more the program holds after the step: one more if it was handed one,
    /// one less if it gave one away.
    pub open spec fn sessions(self) -> int {
        match self {
            Step::NotOpened { session } => if session is Ok { 1 } else { 0 },
            Step::Init { lib, code, session } => if session is Ok { 1 } else { 0 },
            Step::Closed { .. } | Step::Shutdown { .. } | Step::Discard { .. } => -1,
        }
    }

    /// How many initializations succeeded in the step.
    pub open spec fn initializations(self) -> int {
        match self {
            Step::Init { lib, code, session } => if code == NVML_SUCCESS { 1 } else { 0 },
            _ => 0,
        }
    }

    /// How many calls of `nvmlShutdown` were made in the step.
    pub open spec fn shutdown_calls(self) -> int {
        match self {
            Step::Shutdown { code, again, closed, r } => if code == NVML_SUCCESS { 1 } else { 2 },
            Step::Discard { code } => 1,
            _ => 0,
        }
    }

    /// How many calls of `nvmlShutdown` succeeded in the step.
    pub open spec fn shutdowns(self) -> int {
        match self {
            Step::Shutdown { code, again, closed, r } => if code == NVML_SUCCESS || again
                == NVML_SUCCESS {
                1
            } else {
                0
            },
            Step::Discard { code } => if code == NVML_SUCCESS { 1 } else { 0 },
            _ => 0,
        }
    }
}

/// The sum of `f` over the steps.
pub open spec fn total(steps: Seq<Step>, f: spec_fn(Step) -> int) -> int
    decreases steps.len(),
{
    if steps.len() == 0 {
        0
    } else {
        total(steps.drop_last(), f) + f(steps.last())
    }
}

/// How many sessions the program holds after the steps.
pub open spec fn sessions_held(steps: Seq<Step>) -> int {
    total(steps, |step: Step| step.sessions())
}

/// By how much the steps have raised NVML's count: the initializations that succeeded, less the
/// shutdowns that did.
pub open spec fn reference_count(steps: Seq<Step>) -> int {
    total(steps, |step: Step| step.initializations() - step.shutdowns())
}

/// The initializations that succeeded in the steps.
pub open spec fn initializations(steps: Seq<Step>) -> int {
    total(steps, |step: Step| step.initializations())
}

/// The calls of `nvmlShutdown` in the steps.
pub open spec fn shutdown_calls(steps: Seq<Step>) -> int {
    total(steps, |step: Step| step.shutdown_calls())
}

/// Every call of `nvmlShutdown` in the step was made, and succeeded.
pub open spec fn shuts_down(step: Step) -> bool {
    match step {
        Step::Closed { .. } => false,
        Step::Shutdown { code, again, closed, r } => code == NVML_SUCCESS,
        Step::Discard { code } => code == NVML_SUCCESS,
        _ => true,
    }
}

/// NVML's count never falls below the number of sessions that are held: as long as one of them is
/// held, no other session's end shuts NVML down.
pub proof fn held_sessions_are_initialized(steps: Seq<Step>)
    requires
        forall|i: int| 0 <= i < steps.len() ==> (#[trigger] steps[i]).is_possible(),
    ensures
        sessions_held(steps) <= reference_count(steps),
    decreases steps.len(),
{
    if steps.len() > 0 {
        assert(steps.last().is_possible());
        held_sessions_are_initialized(steps.drop_last());
    }
}

/// Where every call of `nvmlShutdown` was possible and succeeded, initializations and shutdowns
/// are in balance: the initializations that succeeded, less the calls of `nvmlShutdown`, are
/// exactly the sessions that are held, and so is NVML's count.
pub proof fn initializations_and_shutdowns_balance(steps: Seq<Step>)
    requires
        forall|i: int|
            0 <= i < steps.len() ==> (#[trigger] steps[i]).is_possible() && shuts_down(steps[i]),
    ensures
        initializations(steps) - shutdown_calls(steps) == sessions_held(steps),
        reference_count(steps) == sessions_held(steps),
    decreases steps.len(),
{
    if steps.len() > 0 {
        assert(steps.last().is_possible() && shuts_down(steps.last()));
        initializations_and_shutdowns_balance(steps.drop_last());
    }
}

/// An initialization that gives a session raises NVML's count by exactly one, and one that gives
/// none leaves it as it was.
pub proof fn session_raises_the_count_by_one(
    steps: Seq<Step>,
    lib: NvmlLib,
    code: u32,
    session: Result<NVML, NvmlError>,
)
    requires
        crate::nvml::is_started(session, lib, code),
    ensures
        reference_count(steps.push(Step::Init { lib, code, session })) == reference_count(steps) + (
        if session is Ok {
            1int
        } else {
            0int
        }),
{
    assert(steps.push(Step::Init { lib, code, session }).drop_last() =~= steps);
}

/// A session that is started and shut down again leaves NVML's count and the other sessions as
/// they were.
pub proof fn shutdown_undoes_init(
    steps: Seq<Step>,
    lib: NvmlLib,
    init_code: u32,
    nvml: NVML,
    again: u32,
    closed: Result<(), libloading::Error>,
    r: Result<(), NvmlError>,
)
    requires
        crate::nvml::is_started(Ok(nvml), lib, init_code),
        crate::nvml::is_shut_down(r, NVML_SUCCESS, closed),
    ensures
        ({
            let started = steps.push(Step::Init { lib, code: init_code, session: Ok(nvml) });
            let ended = started.push(Step::Shutdown { code: NVML_SUCCESS, again, closed, r });
            &&& reference_count(ended) == reference_count(steps)
            &&& sessions_held(ended) == sessions_held(steps)
            &&& r is Ok <==> closed is Ok
        }),
{
    let started = steps.push(Step::Init { lib, code: init_code, session: Ok(nvml) });
    let ended = started.push(Step::Shutdown { code: NVML_SUCCESS, again, closed, r });
    assert(started.drop_last() =~= steps);
    assert(ended.drop_last() =~= started);
    assert(reference_count(started) == reference_count(steps) + 1);
    assert(sessions_held(started) == sessions_held(steps) + 1);
}

} // verus!
