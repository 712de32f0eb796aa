//! Role resolution and dispatch: the same executable acts as the master
//! that orchestrates the network, or — relaunched inside a container and
//! told its ordinal through the runner environment variable — as the
//! worker that runs exactly the one task of that ordinal. The worker path
//! carries no engine work at all.
use vstd::prelude::*;

use crate::container::ContainerBuilder;
use crate::container::ContainerSpecView;
use crate::errors::RunError;
use crate::network::builder_views;
use crate::network::ContainerNetworkBuilder;
use crate::text::all_digits;
use crate::text::fmt_usize;
use crate::text::parse_usize;
use crate::text::spec_decimal;
use crate::text::spec_num;

verus! {

/// Who this process instance is: the orchestrator, or the worker bound to
/// one container ordinal.
#[derive(Debug, PartialEq, Eq, Structural)]
pub enum Runner {
    ContainerId(usize),
    Master,
}

/// Whether an environment value names a valid worker ordinal.
pub open spec fn valid_ordinal(s: Seq<char>) -> bool {
    s.len() > 0 && all_digits(s) && spec_num(s) <= usize::MAX
}

impl Runner {
    /// Resolves the role from the runner environment variable's value:
    /// absent means master; a decimal ordinal means worker; anything else
    /// is a fatal configuration error, since only this system's own master
    /// ever relaunches the executable.
    pub fn from_env(value: Option<&str>) -> (r: Result<Runner, RunError>)
        ensures
            match value {
                None => r == Ok::<Runner, RunError>(Runner::Master),
                Some(s) => if valid_ordinal(s@) {
                    r == Ok::<Runner, RunError>(Runner::ContainerId(spec_num(s@) as usize))
                } else {
                    r matches Err(e) && e is Configuration
                },
            },
    {
        match value {
            None => Ok(Runner::Master),
            Some(s) => match parse_usize(s) {
                Some(i) => Ok(Runner::ContainerId(i)),
                None => Err(
                    RunError::Configuration {
                        message: "malformed runner ordinal: ".to_owned().concat(s),
                    },
                ),
            },
        }
    }
}

/// What the process must do, as decided from its role: run one task
/// locally and nothing else, or orchestrate the fully configured network.
/// Only the orchestration path carries any engine work.
#[derive(Debug)]
pub enum Decision {
    /// Run exactly the task at this ordinal; touch no engine.
    RunTask { ordinal: usize },
    /// Build and run this network.
    Orchestrate { network: ContainerNetworkBuilder },
}

/// The worker path issues no engine RPC: only an orchestration decision
/// carries engine work.
pub open spec fn issues_engine_rpc(d: Decision) -> bool {
    d is Orchestrate
}

/// The master's container set: each spec is handed its ordinal through the
/// runner environment variable and the re-exec configuration, so the
/// relaunched process can find the task it owns.
pub open spec fn spec_master_plan(
    specs: Seq<ContainerSpecView>,
    exe_dir: Seq<char>,
    exe_file: Seq<char>,
    args: Seq<Seq<char>>,
) -> Seq<ContainerSpecView> {
    Seq::new(
        specs.len(),
        |i: int|
            specs[i].with_env("__RUNNER_ENV"@, spec_decimal(i)).with_bootstrap(
                exe_dir,
                exe_file,
                args,
            ),
    )
}

/// The mathematical reading of a bootstrap set.
pub struct BootstrapView {
    pub name: Seq<char>,
    pub containers: Seq<ContainerSpecView>,
}

/// A named set of container specs whose ordinals are their positions; the
/// task associated with each ordinal stays with the caller, who runs it
/// only on the worker path.
#[derive(Debug)]
pub struct BootstrapDockerNet {
    pub name: String,
    pub containers: Vec<ContainerBuilder>,
}

impl View for BootstrapDockerNet {
    type V = BootstrapView;

    open spec fn view(&self) -> BootstrapView {
        BootstrapView { name: self.name@, containers: builder_views(self.containers@) }
    }
}

impl BootstrapDockerNet {
    pub fn new(name: &str, containers: Vec<ContainerBuilder>) -> (r: Self)
        ensures
            r@.name == name@,
            r@.containers == builder_views(containers@),
    {
        Self { name: name.to_owned(), containers }
    }

    /// Decides this process's work. A worker whose ordinal names a task
    /// runs exactly that task; an ordinal beyond the task set is a fatal
    /// configuration error. The master configures every container for
    /// re-execution and hands back the network to build and run; the
    /// master itself runs no task.
    pub fn dispatch(self, role: Runner, exe_dir: &str, exe_file: &str, args: &Vec<String>) -> (r:
        Result<Decision, RunError>)
        ensures
            match role {
                Runner::ContainerId(i) => if (i as int) < self@.containers.len() {
                    r matches Ok(d) && d == (Decision::RunTask { ordinal: i })
                        && !issues_engine_rpc(d)
                } else {
                    r matches Err(e) && e is Configuration
                },
                Runner::Master => r matches Ok(d) && (match d {
                    Decision::Orchestrate { network } => network@.name == self@.name
                        && network@.check_duplicate && network@.driver == "bridge"@
                        && network@.containers == spec_master_plan(
                        self@.containers,
                        exe_dir@,
                        exe_file@,
                        args.deep_view(),
                    ),
                    Decision::RunTask { .. } => false,
                }),
            },
    {
        match role {
            Runner::ContainerId(i) => {
                if i < self.containers.len() {
                    Ok(Decision::RunTask { ordinal: i })
                } else {
                    let ordinal_text = fmt_usize(i);
                    Err(
                        RunError::Configuration {
                            message: "no task for runner ordinal ".to_owned().concat(
                                ordinal_text.as_str(),
                            ),
                        },
                    )
                }
            },
            Runner::Master => {
                let BootstrapDockerNet { name, containers } = self;
                let ghost specs = builder_views(containers@);
                let ghost total = specs.len();
                let ghost plan = spec_master_plan(specs, exe_dir@, exe_file@, args.deep_view());
                let mut rem = containers;
                let bound = rem.len();
                proof {
                    assert(total == bound);
                }
                let mut planned: Vec<ContainerBuilder> = Vec::new();
                let mut idx: usize = 0;
                while rem.len() > 0
                    invariant
                        total == specs.len(),
                        total <= usize::MAX,
                        plan == spec_master_plan(specs, exe_dir@, exe_file@, args.deep_view()),
                        idx as int == total - rem@.len(),
                        idx <= total,
                        builder_views(rem@) =~= specs.skip(idx as int),
                        builder_views(planned@) =~= plan.take(idx as int),
                    decreases rem.len(),
                {
                    let ghost prev = rem@;
                    proof {
                        assert(builder_views(rem@)[0] == rem@[0]@);
                        assert(specs.skip(idx as int)[0] == specs[idx as int]);
                    }
                    let c = rem.remove(0);
                    proof {
                        assert(c@ == specs[idx as int]);
                        assert forall|k: int| 0 <= k < rem@.len() implies builder_views(rem@)[k]
                            == specs.skip(idx + 1)[k] by {
                            assert(rem@[k] == prev[k + 1]);
                            assert(builder_views(prev)[k + 1] == specs.skip(idx as int)[k + 1]);
                        }
                        assert(builder_views(rem@) =~= specs.skip(idx + 1));
                    }
                    let ordinal_text = fmt_usize(idx);
                    let configured = c.with_env(crate::RUNNER_ENV_VAR, ordinal_text.as_str())
                        .with_bootstrap(exe_dir, exe_file, args);
                    let ghost pre = builder_views(planned@);
                    planned.push(configured);
                    proof {
                        assert(crate::RUNNER_ENV_VAR@ == "__RUNNER_ENV"@);
                        assert(configured@ == plan[idx as int]);
                        assert(builder_views(planned@) =~= pre.push(configured@));
                        assert(builder_views(planned@) =~= plan.take(idx + 1));
                    }
                    idx = idx + 1;
                }
                proof {
                    assert(plan.take(total as int) =~= plan);
                }
                let net = ContainerNetworkBuilder::new(name.as_str()).with_containers(planned);
                proof {
                    assert(net@.containers =~= plan);
                }
                Ok(Decision::Orchestrate { network: net })
            },
        }
    }
}

} // verus!
