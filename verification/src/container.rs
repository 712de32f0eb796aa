//! One container: the builder that accumulates its configuration, and the
//! handle the engine returns once it is created. Engine calls (create,
//! start, wait, remove) are outside work; this module owns the
//! configuration data and the reading of each call's outcome.
use vstd::prelude::*;

use crate::errors::RunError;
use crate::image::ImageBuilder;

verus! {

/// What a container is configured to be: the mathematical reading of a
/// `ContainerBuilder`.
pub struct ContainerSpecView {
    pub name: Seq<char>,
    pub docker_file: Seq<char>,
    pub cmd: Option<Seq<Seq<char>>>,
    pub env: Seq<Seq<char>>,
    pub binds: Seq<Seq<char>>,
    pub network: Option<Seq<char>>,
    pub is_waited: bool,
}

impl ContainerSpecView {
    pub open spec fn with_cmd(self, cmd: Seq<Seq<char>>) -> Self {
        Self { cmd: Some(cmd), ..self }
    }

    pub open spec fn with_env(self, var_name: Seq<char>, value: Seq<char>) -> Self {
        Self { env: self.env.push(var_name + "="@ + value), ..self }
    }

    pub open spec fn with_bind(self, from_local: Seq<char>, to_container: Seq<char>) -> Self {
        Self { binds: self.binds.push(from_local + ":"@ + to_container), ..self }
    }

    pub open spec fn with_net(self, network_id: Seq<char>) -> Self {
        Self { network: Some(network_id), ..self }
    }

    pub open spec fn with_wait(self, wait: bool) -> Self {
        Self { is_waited: wait, ..self }
    }

    /// The re-exec configuration: the directory holding the orchestrator's
    /// executable is bound at the bootstrap path, and the command becomes
    /// the mounted executable followed by the original arguments.
    pub open spec fn with_bootstrap(self, exe_dir: Seq<char>, exe_file: Seq<char>, args: Seq<
        Seq<char>,
    >) -> Self {
        self.with_bind(exe_dir, "/tmp/target"@).with_cmd(
            seq!["/tmp/target/"@ + exe_file] + args,
        )
    }
}

/// Accumulates the configuration of one container before it is created:
/// image, command, environment, bind mounts, target network, and whether
/// the network run waits for this container to finish.
#[derive(Debug)]
pub struct ContainerBuilder {
    pub name: String,
    pub image: ImageBuilder,
    pub cmd: Option<Vec<String>>,
    pub env: Vec<String>,
    pub binds: Vec<String>,
    pub network: Option<String>,
    pub is_waited: bool,
}

impl View for ContainerBuilder {
    type V = ContainerSpecView;

    open spec fn view(&self) -> ContainerSpecView {
        ContainerSpecView {
            name: self.name@,
            docker_file: self.image.docker_file@,
            cmd: match self.cmd {
                Some(c) => Some(c.deep_view()),
                None => None,
            },
            env: self.env.deep_view(),
            binds: self.binds.deep_view(),
            network: match self.network {
                Some(n) => Some(n@),
                None => None,
            },
            is_waited: self.is_waited,
        }
    }
}

impl ImageBuilder {
    /// Begins configuring a container that will run this image.
    pub fn to_container(self, name: &str) -> (r: ContainerBuilder)
        ensures
            r@ == (ContainerSpecView {
                name: name@,
                docker_file: self.docker_file@,
                cmd: None,
                env: Seq::empty(),
                binds: Seq::empty(),
                network: None,
                is_waited: false,
            }),
    {
        ContainerBuilder::new(name, self)
    }
}

impl ContainerBuilder {
    pub fn new(name: &str, image_builder: ImageBuilder) -> (r: Self)
        ensures
            r@ == (ContainerSpecView {
                name: name@,
                docker_file: image_builder.docker_file@,
                cmd: None,
                env: Seq::empty(),
                binds: Seq::empty(),
                network: None,
                is_waited: false,
            }),
    {
        let r = Self {
            name: name.to_owned(),
            image: image_builder,
            cmd: None,
            env: Vec::new(),
            binds: Vec::new(),
            network: None,
            is_waited: false,
        };
        proof {
            assert(r.env.deep_view() =~= Seq::<Seq<char>>::empty());
            assert(r.binds.deep_view() =~= Seq::<Seq<char>>::empty());
        }
        r
    }

    /// Replaces the container's command.
    pub fn with_cmd(self, cmd: Vec<String>) -> (r: Self)
        ensures
            r@ == self@.with_cmd(cmd.deep_view()),
    {
        Self { cmd: Some(cmd), ..self }
    }

    /// Appends one environment assignment, rendered `NAME=value`.
    pub fn with_env(self, var_name: &str, value: &str) -> (r: Self)
        ensures
            r@ == self@.with_env(var_name@, value@),
    {
        let Self { name, image, cmd, mut env, binds, network, is_waited } = self;
        let assignment = var_name.to_owned().concat("=").concat(value);
        proof {
            assert(assignment@ =~= var_name@ + "="@ + value@);
        }
        env.push(assignment);
        let r = Self { name, image, cmd, env, binds, network, is_waited };
        proof {
            assert(r.env.deep_view() =~= self@.env.push(var_name@ + "="@ + value@));
        }
        r
    }

    /// Appends one bind mount, rendered `host_path:container_path`.
    pub fn with_bind(self, from_local: &str, to_container: &str) -> (r: Self)
        ensures
            r@ == self@.with_bind(from_local@, to_container@),
    {
        let Self { name, image, cmd, env, mut binds, network, is_waited } = self;
        let bind = from_local.to_owned().concat(":").concat(to_container);
        proof {
            assert(bind@ =~= from_local@ + ":"@ + to_container@);
        }
        binds.push(bind);
        let r = Self { name, image, cmd, env, binds, network, is_waited };
        proof {
            assert(r.binds.deep_view() =~= self@.binds.push(from_local@ + ":"@ + to_container@));
        }
        r
    }

    /// Sets the network the container will be attached to; the network
    /// builder applies this while it creates its containers.
    pub fn with_net(self, network_id: &str) -> (r: Self)
        ensures
            r@ == self@.with_net(network_id@),
    {
        Self { network: Some(network_id.to_owned()), ..self }
    }

    /// Whether the network run waits for this container's execution before
    /// it removes all of its containers.
    pub fn with_wait(self, wait: bool) -> (r: Self)
        ensures
            r@ == self@.with_wait(wait),
    {
        Self { is_waited: wait, ..self }
    }

    /// Adds the re-exec configuration: bind the directory that holds the
    /// orchestrator's executable at the bootstrap path, and invoke the
    /// mounted executable with the orchestrator's own arguments.
    pub fn with_bootstrap(self, exe_dir: &str, exe_file: &str, args: &Vec<String>) -> (r: Self)
        ensures
            r@ == self@.with_bootstrap(exe_dir@, exe_file@, args.deep_view()),
    {
        let mounted_exe = "/tmp/target/".to_owned().concat(exe_file);
        let mut cmd: Vec<String> = Vec::new();
        cmd.push(mounted_exe);
        proof {
            assert(cmd.deep_view() =~= seq!["/tmp/target/"@ + exe_file@]);
        }
        let n = args.len();
        let mut k: usize = 0;
        while k < n
            invariant
                n == args.deep_view().len(),
                k <= n,
                cmd.deep_view() =~= seq!["/tmp/target/"@ + exe_file@] + args.deep_view().take(
                    k as int,
                ),
            decreases n - k,
        {
            let a = args[k].clone();
            let ghost pre = cmd.deep_view();
            cmd.push(a);
            proof {
                assert(cmd.deep_view() =~= pre.push(a@));
                assert(a@ == args.deep_view()[k as int]);
                assert(args.deep_view().take(k + 1) =~= args.deep_view().take(k as int).push(
                    args.deep_view()[k as int],
                ));
                assert(cmd.deep_view() =~= seq!["/tmp/target/"@ + exe_file@]
                    + args.deep_view().take(k + 1));
            }
            k = k + 1;
        }
        proof {
            assert(args.deep_view().take(n as int) =~= args.deep_view());
        }
        self.with_bind(exe_dir, "/tmp/target").with_cmd(cmd)
    }
}

/// What a created container is: the mathematical reading of a `Container`
/// handle.
pub struct ContainerView {
    pub id: Seq<char>,
    pub name: Seq<char>,
    pub is_waited: bool,
}

/// A live handle to a created container: the engine-assigned id, the
/// display name, and the waited flag copied from its spec at creation.
#[derive(Debug)]
pub struct Container {
    pub id: String,
    pub name: String,
    pub is_waited: bool,
}

impl View for Container {
    type V = ContainerView;

    open spec fn view(&self) -> ContainerView {
        ContainerView { id: self.id@, name: self.name@, is_waited: self.is_waited }
    }
}

impl Container {
    pub fn new(id: String, name: String, is_waited: bool) -> (r: Self)
        ensures
            r@ == (ContainerView { id: id@, name: name@, is_waited }),
    {
        Self { id, name, is_waited }
    }

    pub fn name(&self) -> (r: &str)
        ensures
            r@ == self@.name,
    {
        self.name.as_str()
    }
}

/// How one wait-for-exit engine call ended, as plain data.
pub enum WaitStatus {
    /// The container reached "not running" with this exit code; the engine
    /// may attach a message to a non-zero exit.
    Exited { code: i64, message: String },
    /// The call itself failed.
    Failed { message: String },
}

/// Whether a wait ended in a clean, zero-status exit.
pub open spec fn wait_succeeded(status: WaitStatus) -> bool {
    match status {
        WaitStatus::Exited { code, .. } => code == 0,
        WaitStatus::Failed { .. } => false,
    }
}

/// How one remove engine call ended, as plain data.
pub enum RemoveStatus {
    Removed,
    /// The engine no longer knows the id: the resource is already gone.
    NotFound,
    Failed { message: String },
}

impl Container {
    /// Reads the outcome of waiting on this container. Only waited
    /// containers are ever waited on. Succeeds exactly on a clean exit; a
    /// non-zero exit becomes the distinct container-exit error carrying the
    /// code and the engine's message.
    pub fn wait_outcome(&self, status: WaitStatus) -> (r: Result<(), RunError>)
        requires
            self@.is_waited,
        ensures
            r is Ok <==> wait_succeeded(status),
            match status {
                WaitStatus::Exited { code, message } => code != 0 ==> (match r {
                    Err(
                        RunError::ContainerExit { name, code: ecode, message: emessage },
                    ) => name@ == self@.name && ecode == code && emessage == message,
                    _ => false,
                }),
                WaitStatus::Failed { message } => r == Err::<(), RunError>(RunError::Transport { message }),
            },
    {
        match status {
            WaitStatus::Exited { code, message } => {
                if code == 0 {
                    Ok(())
                } else {
                    Err(RunError::ContainerExit { name: self.name.clone(), code, message })
                }
            },
            WaitStatus::Failed { message } => Err(RunError::Transport { message }),
        }
    }

    /// Reads the outcome of removing this container. Removal is issued
    /// unconditionally during cleanup, so an id the engine no longer knows
    /// counts as already satisfied, not as a failure.
    pub fn removal_outcome(&self, status: RemoveStatus) -> (r: Result<(), RunError>)
        ensures
            r is Ok <==> !(status matches RemoveStatus::Failed { .. }),
            match status {
                RemoveStatus::Failed { message } => r == Err::<(), RunError>(RunError::Cleanup { message }),
                _ => r is Ok,
            },
    {
        match status {
            RemoveStatus::Removed => Ok(()),
            RemoveStatus::NotFound => Ok(()),
            RemoveStatus::Failed { message } => Err(RunError::Cleanup { message }),
        }
    }
}

} // verus!
