//! The order of setup: probe, bring the access point up, wait for its
//! address, redirect traffic, serve the portal, take the access point down.
//!
//! The driver performs one stage at a time and asks here what follows from
//! how it went.

use crate::error::SetupError;
use vstd::prelude::*;

verus! {

/// A stage of access-point setup. The stages run one after another, in the
/// order in which they are listed.
#[derive(Clone, Copy, Debug, PartialEq, Eq, Structural)]
pub enum Stage {
    /// Find a Wi-Fi device.
    DiscoverDevice,
    /// Switch the wireless radio on.
    EnableRadio,
    /// Add and activate the access-point connection.
    Activate,
    /// Wait for the access point's first address.
    AwaitAddress,
    /// Install the firewall rules.
    RedirectTraffic,
    /// Listen and serve the portal until the server ends.
    ServePortal,
    /// Deactivate the access-point connection.
    Deactivate,
}

/// How a run ended.
#[derive(Clone, Copy, Debug, PartialEq, Eq, Structural)]
pub enum Outcome {
    /// A device was connected already: no access point was set up.
    AlreadyConnected,
    /// The portal was served and the access point taken down again.
    Completed,
    /// A stage failed, and the run was abandoned there.
    Failed(SetupError),
}

/// What the driver does next.
#[derive(Clone, Copy, Debug, PartialEq, Eq, Structural)]
pub enum Step {
    /// Perform this stage.
    Run(Stage),
    /// Stop.
    Stop(Outcome),
}

impl Stage {
    /// The place of the stage in the order of setup.
    pub open spec fn position(self) -> nat {
        match self {
            Stage::DiscoverDevice => 0,
            Stage::EnableRadio => 1,
            Stage::Activate => 2,
            Stage::AwaitAddress => 3,
            Stage::RedirectTraffic => 4,
            Stage::ServePortal => 5,
            Stage::Deactivate => 6,
        }
    }

    /// The error that a failure of the stage is reported as. A failure to
    /// deactivate is not reported: by then the run is over.
    pub open spec fn failure(self) -> Option<SetupError> {
        match self {
            Stage::DiscoverDevice => Some(SetupError::DeviceDiscovery),
            Stage::EnableRadio => Some(SetupError::RadioEnable),
            Stage::Activate => Some(SetupError::Activation),
            Stage::AwaitAddress => Some(SetupError::AddressResolution),
            Stage::RedirectTraffic => Some(SetupError::Firewall),
            Stage::ServePortal => Some(SetupError::ListenerBind),
            Stage::Deactivate => None,
        }
    }
}

/// What follows a stage that went as `succeeded` says.
pub open spec fn following(stage: Stage, succeeded: bool) -> Step {
    if stage == Stage::Deactivate {
        Step::Stop(Outcome::Completed)
    } else if !succeeded {
        Step::Stop(Outcome::Failed(stage.failure()->0))
    } else {
        Step::Run(
            match stage {
                Stage::DiscoverDevice => Stage::EnableRadio,
                Stage::EnableRadio => Stage::Activate,
                Stage::Activate => Stage::AwaitAddress,
                Stage::AwaitAddress => Stage::RedirectTraffic,
                Stage::RedirectTraffic => Stage::ServePortal,
                _ => Stage::Deactivate,
            },
        )
    }
}

/// The stage at a place in the order of setup.
pub open spec fn stage_at(position: nat) -> Stage {
    if position == 0 {
        Stage::DiscoverDevice
    } else if position == 1 {
        Stage::EnableRadio
    } else if position == 2 {
        Stage::Activate
    } else if position == 3 {
        Stage::AwaitAddress
    } else if position == 4 {
        Stage::RedirectTraffic
    } else if position == 5 {
        Stage::ServePortal
    } else {
        Stage::Deactivate
    }
}

/// Where a run stands that stood at `step` and whose stages since then went as
/// `outcomes` say, one outcome for each stage run. Outcomes beyond the end of
/// the run count for nothing.
pub open spec fn run(step: Step, outcomes: Seq<bool>) -> Step
    decreases outcomes.len(),
{
    if outcomes.len() == 0 {
        step
    } else {
        match step {
            Step::Run(stage) => run(following(stage, outcomes[0]), outcomes.drop_first()),
            Step::Stop(_) => step,
        }
    }
}

/// Whether the override that forces access-point mode is set: it is when the
/// flag is present and reads `true`.
pub fn override_requested(flag: Option<&str>) -> (forced: bool)
    ensures
        forced <==> flag is Some && flag->0@ == "true"@,
{
    match flag {
        Some(value) => value.to_owned() == "true".to_owned(),
        None => false,
    }
}

/// Decides what follows the connectivity probe. With a device connected
/// already, nothing is set up, unless access-point mode is forced.
pub fn begin(connected: bool, force_ap: bool) -> (step: Step)
    ensures
        step == if !connected || force_ap {
            Step::Run(Stage::DiscoverDevice)
        } else {
            Step::Stop(Outcome::AlreadyConnected)
        },
{
    if !connected || force_ap {
        Step::Run(Stage::DiscoverDevice)
    } else {
        Step::Stop(Outcome::AlreadyConnected)
    }
}

/// Decides what follows a stage. After a success the next stage in order
/// runs. A failure abandons the run with the error of the stage that failed,
/// before any later stage is started. Deactivation ends the run whether or
/// not it succeeded.
pub fn advance(stage: Stage, succeeded: bool) -> (step: Step)
    ensures
        step == following(stage, succeeded),
        step matches Step::Run(next) ==> succeeded && next.position() == stage.position() + 1,
        !succeeded && stage != Stage::Deactivate ==> step == Step::Stop(
            Outcome::Failed(stage.failure()->0),
        ),
{
    match stage {
        Stage::Deactivate => Step::Stop(Outcome::Completed),
        Stage::DiscoverDevice => if succeeded {
            Step::Run(Stage::EnableRadio)
        } else {
            Step::Stop(Outcome::Failed(SetupError::DeviceDiscovery))
        },
        Stage::EnableRadio => if succeeded {
            Step::Run(Stage::Activate)
        } else {
            Step::Stop(Outcome::Failed(SetupError::RadioEnable))
        },
        Stage::Activate => if succeeded {
            Step::Run(Stage::AwaitAddress)
        } else {
            Step::Stop(Outcome::Failed(SetupError::Activation))
        },
        Stage::AwaitAddress => if succeeded {
            Step::Run(Stage::RedirectTraffic)
        } else {
            Step::Stop(Outcome::Failed(SetupError::AddressResolution))
        },
        Stage::RedirectTraffic => if succeeded {
            Step::Run(Stage::ServePortal)
        } else {
            Step::Stop(Outcome::Failed(SetupError::Firewall))
        },
        Stage::ServePortal => if succeeded {
            Step::Run(Stage::Deactivate)
        } else {
            Step::Stop(Outcome::Failed(SetupError::ListenerBind))
        },
    }
}

proof fn lemma_run_from(position: nat, outcomes: Seq<bool>, k: int)
    requires
        position + k <= 6,
        0 <= k <= outcomes.len(),
        forall|i: int| 0 <= i < k ==> outcomes[i],
    ensures
        run(Step::Run(stage_at(position)), outcomes) == run(
            Step::Run(stage_at((position + k) as nat)),
            outcomes.skip(k),
        ),
    decreases k,
{
    if k == 0 {
        assert(outcomes.skip(0) =~= outcomes);
    } else {
        let rest = outcomes.drop_first();
        assert(following(stage_at(position), outcomes[0]) == Step::Run(stage_at(position + 1)));
        assert(forall|i: int| 0 <= i < k - 1 ==> rest[i] == outcomes[i + 1]);
        lemma_run_from(position + 1, rest, k - 1);
        assert(rest.skip(k - 1) =~= outcomes.skip(k));
    }
}

proof fn lemma_stopped(outcome: Outcome, outcomes: Seq<bool>)
    ensures
        run(Step::Stop(outcome), outcomes) == Step::Stop(outcome),
{
}

/// The stages run strictly one after another: while every stage succeeds,
/// after `k` stages the one at place `k` is to be run.
pub proof fn lemma_stages_run_in_order(outcomes: Seq<bool>)
    requires
        outcomes.len() <= 6,
        forall|i: int| 0 <= i < outcomes.len() ==> outcomes[i],
    ensures
        run(Step::Run(Stage::DiscoverDevice), outcomes) == Step::Run(stage_at(outcomes.len())),
{
    lemma_run_from(0, outcomes, outcomes.len() as int);
}

/// The failure of a stage abandons the whole run before the next stage is
/// started: if the stage at place `k` fails after `k` successes, the run ends
/// with the error of that stage, whatever would have come after.
pub proof fn lemma_failure_abandons_run(outcomes: Seq<bool>, k: int)
    requires
        0 <= k < 6,
        k < outcomes.len(),
        forall|i: int| 0 <= i < k ==> outcomes[i],
        !outcomes[k],
    ensures
        run(Step::Run(Stage::DiscoverDevice), outcomes) == Step::Stop(
            Outcome::Failed(stage_at(k as nat).failure()->0),
        ),
{
    lemma_run_from(0, outcomes, k);
    let rest = outcomes.skip(k);
    assert(rest[0] == outcomes[k]);
    lemma_stopped(Outcome::Failed(stage_at(k as nat).failure()->0), rest.drop_first());
}

/// A run in which every stage up to serving the portal succeeds ends
/// completed, whether or not the deactivation succeeds.
pub proof fn lemma_success_completes(outcomes: Seq<bool>)
    requires
        outcomes.len() >= 7,
        forall|i: int| 0 <= i < 6 ==> outcomes[i],
    ensures
        run(Step::Run(Stage::DiscoverDevice), outcomes) == Step::Stop(Outcome::Completed),
{
    lemma_run_from(0, outcomes, 6);
    let rest = outcomes.skip(6);
    lemma_stopped(Outcome::Completed, rest.drop_first());
}

} // verus!
