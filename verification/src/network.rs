//! A container network: the builder that collects container specs, and the
//! handle over the created network and its containers. The handle owns the
//! cleanup obligation: its plan removes every container and then the
//! network, and reading the outcomes never lets a cleanup failure go
//! unreported.
use vstd::prelude::*;

use crate::container::Container;
use crate::container::ContainerBuilder;
use crate::container::ContainerSpecView;
use crate::container::ContainerView;
use crate::errors::RunError;

verus! {

broadcast use vstd::seq_lib::lemma_seq_contains_after_push;

/// The mathematical reading of a sequence of container builders.
pub open spec fn builder_views(cs: Seq<ContainerBuilder>) -> Seq<ContainerSpecView> {
    Seq::new(cs.len(), |i: int| cs[i]@)
}

/// The mathematical reading of a sequence of container handles.
pub open spec fn container_views(cs: Seq<Container>) -> Seq<ContainerView> {
    Seq::new(cs.len(), |i: int| cs[i]@)
}

/// What a network is configured to be: the mathematical reading of a
/// `ContainerNetworkBuilder`.
pub struct NetworkSpecView {
    pub name: Seq<char>,
    pub check_duplicate: bool,
    pub driver: Seq<char>,
    pub containers: Seq<ContainerSpecView>,
}

/// Collects the specs of the containers a network will hold, together with
/// the network's own creation options.
#[derive(Debug)]
pub struct ContainerNetworkBuilder {
    pub name: String,
    pub check_duplicate: bool,
    pub driver: String,
    pub containers: Vec<ContainerBuilder>,
}

impl View for ContainerNetworkBuilder {
    type V = NetworkSpecView;

    open spec fn view(&self) -> NetworkSpecView {
        NetworkSpecView {
            name: self.name@,
            check_duplicate: self.check_duplicate,
            driver: self.driver@,
            containers: builder_views(self.containers@),
        }
    }
}

/// Every spec of the builder, bound to the given network.
pub open spec fn spec_bind_all(specs: Seq<ContainerSpecView>, network_id: Seq<char>) -> Seq<
    ContainerSpecView,
> {
    specs.map_values(|s: ContainerSpecView| s.with_net(network_id))
}

impl ContainerNetworkBuilder {
    /// A bridge-driver network of the given name, rejecting duplicates, with
    /// no containers yet.
    pub fn new(name: &str) -> (r: Self)
        ensures
            r@.name == name@,
            r@.check_duplicate,
            r@.driver == "bridge"@,
            r@.containers == Seq::<ContainerSpecView>::empty(),
    {
        let r = Self {
            name: name.to_owned(),
            check_duplicate: true,
            driver: "bridge".to_owned(),
            containers: Vec::new(),
        };
        proof {
            assert(r@.containers =~= Seq::<ContainerSpecView>::empty());
        }
        r
    }

    /// Appends one container spec.
    pub fn add_container(&mut self, container: ContainerBuilder)
        ensures
            final(self)@.containers == old(self)@.containers.push(container@),
            final(self)@.name == old(self)@.name,
            final(self)@.check_duplicate == old(self)@.check_duplicate,
            final(self)@.driver == old(self)@.driver,
    {
        let ghost pre = builder_views(self.containers@);
        let ghost cv = container@;
        self.containers.push(container);
        proof {
            assert(builder_views(self.containers@) =~= pre.push(cv));
        }
    }

    /// Appends every given container spec, in order.
    pub fn with_containers(self, containers: Vec<ContainerBuilder>) -> (r: Self)
        ensures
            r@.containers == self@.containers + builder_views(containers@),
            r@.name == self@.name,
            r@.check_duplicate == self@.check_duplicate,
            r@.driver == self@.driver,
    {
        let Self { name, check_duplicate, driver, containers: mut held } = self;
        let mut more = containers;
        let ghost pre = builder_views(held@);
        let ghost added = builder_views(more@);
        held.append(&mut more);
        let r = Self { name, check_duplicate, driver, containers: held };
        proof {
            assert(builder_views(r.containers@) =~= pre + added);
        }
        r
    }

    /// Binds every collected spec to the given network id, in order; this is
    /// the spec set the network build creates containers from.
    pub fn bind_all(self, network_id: &str) -> (r: Vec<ContainerBuilder>)
        ensures
            builder_views(r@) == spec_bind_all(self@.containers, network_id@),
    {
        let ghost orig = builder_views(self.containers@);
        let mut cs = self.containers;
        let mut out: Vec<ContainerBuilder> = Vec::new();
        let ghost total = orig.len();
        while cs.len() > 0
            invariant
                total == orig.len(),
                builder_views(cs@) =~= orig.skip(total - cs@.len() as int),
                builder_views(out@) =~= spec_bind_all(orig, network_id@).take(
                    total - cs@.len() as int,
                ),
                cs@.len() <= total,
            decreases cs.len(),
        {
            let ghost done = total - cs@.len() as int;
            proof {
                assert(builder_views(cs@)[0] == cs@[0]@);
                assert(orig.skip(done)[0] == orig[done]);
            }
            let ghost prev = cs@;
            let c = cs.remove(0);
            proof {
                assert(c@ == orig[done]);
                assert forall|k: int| 0 <= k < cs@.len() implies builder_views(cs@)[k] == orig.skip(
                    done + 1,
                )[k] by {
                    assert(cs@[k] == prev[k + 1]);
                    assert(builder_views(prev)[k + 1] == orig.skip(done)[k + 1]);
                }
                assert(builder_views(cs@) =~= orig.skip(done + 1));
            }
            let ghost pre = builder_views(out@);
            let b = c.with_net(network_id);
            out.push(b);
            proof {
                assert(builder_views(out@) =~= pre.push(b@));
                assert(builder_views(out@) =~= spec_bind_all(orig, network_id@).take(done + 1));
            }
        }
        proof {
            assert(spec_bind_all(orig, network_id@).take(total as int) =~= spec_bind_all(
                orig,
                network_id@,
            ));
        }
        out
    }
}

/// The containers assembled from engine-assigned ids, read back against the
/// specs they were created from: each handle keeps its spec's name and
/// waited flag.
pub open spec fn spec_assemble(ids: Seq<Seq<char>>, specs: Seq<ContainerSpecView>) -> Seq<
    ContainerView,
> {
    Seq::new(specs.len(), |i: int| ContainerView {
        id: ids[i],
        name: specs[i].name,
        is_waited: specs[i].is_waited,
    })
}

/// Round trip of the waited flag: a spec built with `waited` set, bound
/// into a network and created there, carries the flag on its handle — so
/// `wait_indices` puts it in the wait-set; one built without it never
/// carries the flag, so it never blocks teardown.
pub proof fn lemma_waited_round_trip(
    specs: Seq<ContainerSpecView>,
    network_id: Seq<char>,
    ids: Seq<Seq<char>>,
    i: int,
)
    requires
        ids.len() == specs.len(),
        0 <= i < specs.len(),
    ensures
        spec_assemble(ids, spec_bind_all(specs, network_id))[i].is_waited == specs[i].is_waited,
{
}

/// What a created network is: the mathematical reading of a
/// `ContainerNetwork`.
pub struct NetworkView {
    pub id: Seq<char>,
    pub containers: Seq<ContainerView>,
}

/// The plan of one cleanup pass: each container's removal, then the
/// network's own removal — one operation per resource, nothing else.
pub enum RemoveOpView {
    Container { id: Seq<char> },
    Network { id: Seq<char> },
}

/// One removal the cleanup phase must issue.
#[derive(Debug)]
pub enum RemoveOp {
    Container { id: String },
    Network { id: String },
}

impl View for RemoveOp {
    type V = RemoveOpView;

    open spec fn view(&self) -> RemoveOpView {
        match self {
            RemoveOp::Container { id } => RemoveOpView::Container { id: id@ },
            RemoveOp::Network { id } => RemoveOpView::Network { id: id@ },
        }
    }
}

pub open spec fn remove_op_views(ops: Seq<RemoveOp>) -> Seq<RemoveOpView> {
    Seq::new(ops.len(), |i: int| ops[i]@)
}

/// Exactly one container-removal per container, in order, followed by
/// exactly one network-removal.
pub open spec fn spec_cleanup_plan(net: NetworkView) -> Seq<RemoveOpView> {
    Seq::new(net.containers.len() + 1, |i: int|
        if i < net.containers.len() {
            RemoveOpView::Container { id: net.containers[i].id }
        } else {
            RemoveOpView::Network { id: net.id }
        })
}

/// The cleanup plan holds one removal per container — the container at
/// each position, nothing else, nothing twice — and exactly one removal of
/// the network, last. Together with the run machine's law that a completed
/// run orders the plan exactly once, a run of N containers issues exactly
/// N container removals and one network removal, whatever its outcome.
pub proof fn lemma_cleanup_plan_shape(net: NetworkView, i: int)
    requires
        0 <= i < spec_cleanup_plan(net).len(),
    ensures
        spec_cleanup_plan(net).len() == net.containers.len() + 1,
        i < net.containers.len() ==> spec_cleanup_plan(net)[i] == (RemoveOpView::Container {
            id: net.containers[i].id,
        }),
        i == net.containers.len() ==> spec_cleanup_plan(net)[i] == (RemoveOpView::Network {
            id: net.id,
        }),
{
}

/// A created network and the container handles created under it. Owns the
/// obligation to remove all of them and then itself.
#[must_use]
#[derive(Debug)]
pub struct ContainerNetwork {
    pub id: String,
    pub containers: Vec<Container>,
}

impl View for ContainerNetwork {
    type V = NetworkView;

    open spec fn view(&self) -> NetworkView {
        NetworkView { id: self.id@, containers: container_views(self.containers@) }
    }
}

impl ContainerNetwork {
    /// Builds the handle set out of the engine-assigned ids, pairing each id
    /// with the spec it was created from.
    pub fn assemble(network_id: String, ids: Vec<String>, specs: &Vec<ContainerBuilder>) -> (net:
        Self)
        requires
            ids@.len() == specs@.len(),
        ensures
            net@.id == network_id@,
            net@.containers == spec_assemble(ids.deep_view(), builder_views(specs@)),
    {
        let mut containers: Vec<Container> = Vec::new();
        let n = ids.len();
        let mut i: usize = 0;
        while i < n
            invariant
                n == ids@.len() == specs@.len(),
                i <= n,
                container_views(containers@) =~= spec_assemble(
                    ids.deep_view(),
                    builder_views(specs@),
                ).take(i as int),
            decreases n - i,
        {
            let ghost pre = container_views(containers@);
            let c = Container::new(ids[i].clone(), specs[i].name.clone(), specs[i].is_waited);
            containers.push(c);
            proof {
                assert(container_views(containers@) =~= pre.push(c@));
                assert(container_views(containers@) =~= spec_assemble(
                    ids.deep_view(),
                    builder_views(specs@),
                ).take(i + 1));
            }
            i = i + 1;
        }
        let net = Self { id: network_id, containers };
        proof {
            assert(spec_assemble(ids.deep_view(), builder_views(specs@)).take(n as int)
                =~= spec_assemble(ids.deep_view(), builder_views(specs@)));
        }
        net
    }

    /// The wait-set: the indices of exactly the containers whose exit the
    /// run blocks on, in position order.
    pub fn wait_indices(&self) -> (r: Vec<usize>)
        ensures
            forall|i: int|
                0 <= i < self@.containers.len() ==> ((#[trigger] self@.containers[i]).is_waited
                    <==> r@.contains(i as usize)),
            forall|k: int|
                0 <= k < r@.len() ==> (#[trigger] r@[k]) < self@.containers.len()
                    && self@.containers[r@[k] as int].is_waited,
            forall|k1: int, k2: int| 0 <= k1 < k2 < r@.len() ==> #[trigger] r@[k1] < #[trigger] r@[k2],
    {
        let n = self.containers.len();
        let mut r: Vec<usize> = Vec::new();
        let mut i: usize = 0;
        while i < n
            invariant
                n == self@.containers.len(),
                i <= n,
                forall|j: int|
                    0 <= j < i ==> ((#[trigger] self@.containers[j]).is_waited <==> r@.contains(
                        j as usize,
                    )),
                forall|k: int|
                    0 <= k < r@.len() ==> (#[trigger] r@[k]) < i && self@.containers[r@[k] as int].is_waited,
                forall|k1: int, k2: int| 0 <= k1 < k2 < r@.len() ==> #[trigger] r@[k1] < #[trigger] r@[k2],
            decreases n - i,
        {
            if self.containers[i].is_waited {
                r.push(i);
            }
            i = i + 1;
        }
        r
    }

    /// The cleanup obligation as data: one removal per container, then one
    /// removal of the network itself.
    pub fn cleanup_plan(&self) -> (plan: Vec<RemoveOp>)
        ensures
            remove_op_views(plan@) == spec_cleanup_plan(self@),
            plan@.len() == self@.containers.len() + 1,
    {
        let n = self.containers.len();
        let mut plan: Vec<RemoveOp> = Vec::new();
        let mut i: usize = 0;
        while i < n
            invariant
                n == self@.containers.len(),
                i <= n,
                remove_op_views(plan@) =~= spec_cleanup_plan(self@).take(i as int),
            decreases n - i,
        {
            let ghost pre = remove_op_views(plan@);
            let op = RemoveOp::Container { id: self.containers[i].id.clone() };
            plan.push(op);
            proof {
                assert(remove_op_views(plan@) =~= pre.push(op@));
                assert(remove_op_views(plan@) =~= spec_cleanup_plan(self@).take(i + 1));
            }
            i = i + 1;
        }
        let ghost pre = remove_op_views(plan@);
        let last = RemoveOp::Network { id: self.id.clone() };
        plan.push(last);
        proof {
            assert(remove_op_views(plan@) =~= pre.push(last@));
            assert(remove_op_views(plan@) =~= spec_cleanup_plan(self@));
        }
        plan
    }

    /// Reads the outcome of the start phase: it succeeded only if every
    /// container started; any failure surfaces as a transport error
    /// carrying one of the engine's messages.
    pub fn start_outcome(results: Vec<Result<(), String>>) -> (r: Result<(), RunError>)
        ensures
            r is Ok <==> (forall|i: int|
                0 <= i < results@.len() ==> (#[trigger] results@[i]) is Ok),
            match r {
                Ok(_) => true,
                Err(RunError::Transport { message }) => exists|i: int|
                    0 <= i < results@.len() && results@[i] == Err::<(), String>(message),
                Err(_) => false,
            },
    {
        let ghost orig = results@;
        let mut rem = results;
        let ghost total = orig.len();
        while rem.len() > 0
            invariant
                total == orig.len(),
                orig == results@,
                rem@ =~= orig.skip(total as int - rem@.len() as int),
                rem@.len() <= total,
                forall|j: int| 0 <= j < total - rem@.len() ==> (#[trigger] orig[j]) is Ok,
            decreases rem.len(),
        {
            let ghost done = total as int - rem@.len() as int;
            proof {
                assert(orig.skip(done)[0] == orig[done]);
            }
            let ghost prev = rem@;
            let first = rem.remove(0);
            proof {
                assert(first == orig[done]);
                assert forall|k: int| 0 <= k < rem@.len() implies rem@[k] == orig.skip(
                    done + 1,
                )[k] by {
                    assert(rem@[k] == prev[k + 1]);
                }
                assert(rem@ =~= orig.skip(done + 1));
            }
            match first {
                Ok(()) => {},
                Err(message) => {
                    return Err(RunError::Transport { message });
                },
            }
        }
        Ok(())
    }
}

} // verus!
