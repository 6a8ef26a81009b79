//! Plans one frame of connection resolution.
//!
//! A weld (both sockets fixed) fuses the two modules' current fusion roots:
//! the second module's root is absorbed under the first's. A hinge (either
//! socket a hinge) joins the wheel's root and the chassis-side module's
//! current fusion root, but only in a frame in which no weld fused anything,
//! so a hinge always references a final fusion root. Every fusion decided
//! earlier in the same frame is consulted before the live hierarchy, since
//! none of the frame's decisions has been applied yet.
//!
//! Poses, masses and compliances are applied by the caller from this plan.
use vstd::prelude::*;

use crate::vehicle::hierarchy::VehicleHierarchy;
use crate::vehicle::lookup;
use crate::vehicle::lookup::{
    describe_missing_module, describe_socket_lookup_error, find_named_module_instance,
    find_named_socket, ResolvedSocket, SocketLookupError,
};

verus! {

/// How many steps the search for a fusion root may take before giving up on
/// a malformed hierarchy.
pub const FUSION_ROOT_SEARCH_LIMIT: usize = 64;

/// A vehicle connection: two module instances (by `Name`) and a socket on
/// each (by socket name) to join.
pub struct LastBeaconVehicleConnection {
    pub module_a: String,
    pub socket_a: String,
    pub module_b: String,
    pub socket_b: String,
}

/// A connection not yet resolved, with the vehicle root it sits under.
pub struct PendingConnection {
    pub vehicle_root: usize,
    pub connection: LastBeaconVehicleConnection,
}

/// Where a failed connection's warning marker is drawn.
#[derive(Clone, Copy, PartialEq, Eq, Debug)]
pub enum FailureMarker {
    /// Neither module was found: nothing to anchor a marker to.
    Nowhere,
    /// At the one module that was found (its live pose).
    AtModule(usize),
    /// Midway between both modules (their poses after this frame's earlier fusions).
    BetweenModules(usize, usize),
}

/// What this frame does with one connection.
#[derive(Debug, PartialEq, Eq)]
pub enum PlannedConnection {
    /// Left for a later frame.
    Unresolved,
    /// Permanently failed, with the warning text and the marker anchor.
    Failed { reason: String, marker: FailureMarker },
    /// Both modules already belong to one compound body: resolved, nothing to do.
    AlreadyFused,
    /// `absorbed`'s whole fusion subtree joins `survivor`'s compound body,
    /// moved so that the two named sockets coincide.
    Welded { survivor: usize, absorbed: usize, survivor_socket: usize, absorbed_socket: usize },
    /// A revolute joint between the chassis-side fusion root and the wheel's root.
    Hinged {
        chassis_root: usize,
        wheel_root: usize,
        chassis_socket: usize,
        wheel_socket: usize,
        chassis_is_body1: bool,
    },
}

/// The mathematical form of [`PlannedConnection`].
pub ghost enum PlannedConnectionModel {
    Unresolved,
    Failed { reason: Seq<char>, marker: FailureMarker },
    AlreadyFused,
    Welded { survivor: usize, absorbed: usize, survivor_socket: usize, absorbed_socket: usize },
    Hinged {
        chassis_root: usize,
        wheel_root: usize,
        chassis_socket: usize,
        wheel_socket: usize,
        chassis_is_body1: bool,
    },
}

impl View for PlannedConnection {
    type V = PlannedConnectionModel;

    open spec fn view(&self) -> PlannedConnectionModel {
        match self {
            PlannedConnection::Unresolved => PlannedConnectionModel::Unresolved,
            PlannedConnection::Failed { reason, marker } => PlannedConnectionModel::Failed {
                reason: reason@,
                marker: *marker,
            },
            PlannedConnection::AlreadyFused => PlannedConnectionModel::AlreadyFused,
            PlannedConnection::Welded { survivor, absorbed, survivor_socket, absorbed_socket } =>
                PlannedConnectionModel::Welded {
                survivor: *survivor,
                absorbed: *absorbed,
                survivor_socket: *survivor_socket,
                absorbed_socket: *absorbed_socket,
            },
            PlannedConnection::Hinged {
                chassis_root,
                wheel_root,
                chassis_socket,
                wheel_socket,
                chassis_is_body1,
            } => PlannedConnectionModel::Hinged {
                chassis_root: *chassis_root,
                wheel_root: *wheel_root,
                chassis_socket: *chassis_socket,
                wheel_socket: *wheel_socket,
                chassis_is_body1: *chassis_is_body1,
            },
        }
    }
}

/// This frame's fusion decisions: entry `e` is the root that `e` was absorbed
/// under, if it was.
pub open spec fn pending_wf(h: VehicleHierarchy, pending: Seq<Option<usize>>) -> bool {
    &&& pending.len() == h.entities.len()
    &&& forall|e: int|
        0 <= e < pending.len() ==> match #[trigger] pending[e] {
            Some(p) => p < h.entities.len(),
            None => true,
        }
}

/// No fusion decided yet.
pub open spec fn no_fusions(n: nat) -> Seq<Option<usize>> {
    Seq::new(n, |e: int| None)
}

/// The entity owning `current`'s compound body, searched for in at most
/// `steps` steps: a fusion decided this frame is followed first, then an
/// entity with its own rigid body is the answer, else the search moves to
/// the parent.
pub open spec fn fusion_root_walk(
    h: VehicleHierarchy,
    pending: Seq<Option<usize>>,
    current: int,
    steps: nat,
) -> Option<usize>
    decreases steps,
{
    if steps == 0 {
        None
    } else {
        match pending[current] {
            Some(p) => fusion_root_walk(h, pending, p as int, (steps - 1) as nat),
            None => if h.entities[current].has_rigid_body {
                Some(current as usize)
            } else {
                match h.entities[current].parent {
                    Some(p) => fusion_root_walk(h, pending, p as int, (steps - 1) as nat),
                    None => None,
                }
            },
        }
    }
}

/// The fusion root of `e`, if the search finds one in time.
pub open spec fn fusion_root(h: VehicleHierarchy, pending: Seq<Option<usize>>, e: int) -> Option<
    usize,
> {
    fusion_root_walk(h, pending, e, FUSION_ROOT_SEARCH_LIMIT as nat)
}

/// Whether `e`'s world pose can be composed from live transforms: `e` and
/// every ancestor have a `Transform`.
pub open spec fn live_pose_exists(h: VehicleHierarchy, e: int, fuel: nat) -> bool
    decreases fuel,
{
    h.entities[e].has_transform && match h.entities[e].parent {
        None => true,
        Some(p) => fuel > 0 && live_pose_exists(h, p as int, (fuel - 1) as nat),
    }
}

/// Whether `e`'s world pose exists once this frame's fusions are taken into
/// account: an absorbed entity's pose follows its new parent's.
pub open spec fn effective_pose_exists_within(
    h: VehicleHierarchy,
    pending: Seq<Option<usize>>,
    e: int,
    fuel: nat,
) -> bool
    decreases fuel,
{
    match pending[e] {
        Some(p) => fuel > 0 && effective_pose_exists_within(h, pending, p as int, (fuel - 1) as nat),
        None => live_pose_exists(h, e, h.entities.len() as nat),
    }
}

pub open spec fn effective_pose_exists(h: VehicleHierarchy, pending: Seq<Option<usize>>, e: int) -> bool {
    effective_pose_exists_within(h, pending, e, h.entities.len() as nat)
}

pub open spec fn is_pending_module(h: VehicleHierarchy, e: int) -> bool {
    h.entities[e].module_instance->0.is_pending
}

/// The warning for a connection naming a module that does not exist: one
/// sentence per missing module, separated by `"; "`.
#[verifier::opaque]
pub open spec fn missing_modules_text(h: VehicleHierarchy, c: PendingConnection) -> Seq<char> {
    let tags = h.module_tags(c.vehicle_root as int);
    let a = if lookup::module_lookup(h, c.vehicle_root as int, c.connection.module_a@) is None {
        seq![lookup::missing_module_text(c.connection.module_a@, tags)]
    } else {
        Seq::empty()
    };
    let b = if lookup::module_lookup(h, c.vehicle_root as int, c.connection.module_b@) is None {
        seq![lookup::missing_module_text(c.connection.module_b@, tags)]
    } else {
        Seq::empty()
    };
    lookup::joined(a + b, "; "@)
}

/// The warning for a connection naming an unusable socket: one sentence per
/// unusable socket, separated by `"; "`.
#[verifier::opaque]
pub open spec fn bad_sockets_text(h: VehicleHierarchy, c: PendingConnection, a: int, b: int) -> Seq<
    char,
> {
    let sa = lookup::socket_lookup(h, a, c.connection.socket_a@);
    let sb = lookup::socket_lookup(h, b, c.connection.socket_b@);
    let ta = match sa {
        Err(error) => seq![
            lookup::socket_error_text(error, c.connection.socket_a@, c.connection.module_a@, h.socket_names(a)),
        ],
        Ok(_) => Seq::empty(),
    };
    let tb = match sb {
        Err(error) => seq![
            lookup::socket_error_text(error, c.connection.socket_b@, c.connection.module_b@, h.socket_names(b)),
        ],
        Ok(_) => Seq::empty(),
    };
    lookup::joined(ta + tb, "; "@)
}

/// The failure of a connection naming a module that does not exist; the
/// marker sits at whichever module was found.
pub open spec fn missing_module_failure(h: VehicleHierarchy, c: PendingConnection) -> PlannedConnectionModel {
    let root = c.vehicle_root as int;
    let a = lookup::module_lookup(h, root, c.connection.module_a@);
    let b = lookup::module_lookup(h, root, c.connection.module_b@);
    PlannedConnectionModel::Failed {
        reason: missing_modules_text(h, c),
        marker: if a is Some {
            FailureMarker::AtModule(a->0)
        } else if b is Some {
            FailureMarker::AtModule(b->0)
        } else {
            FailureMarker::Nowhere
        },
    }
}

/// The weld decision once both sockets resolved to welds.
#[verifier::opaque]
pub open spec fn weld_step_with_sockets(
    h: VehicleHierarchy,
    pending: Seq<Option<usize>>,
    a: int,
    b: int,
    sa: ResolvedSocket,
    sb: ResolvedSocket,
) -> PlannedConnectionModel {
    let ra = fusion_root(h, pending, a);
    let rb = fusion_root(h, pending, b);
    if ra is None || rb is None {
        PlannedConnectionModel::Unresolved
    } else if ra->0 == rb->0 {
        PlannedConnectionModel::AlreadyFused
    } else if effective_pose_exists(h, pending, sa.entity as int) && effective_pose_exists(
        h,
        pending,
        sb.entity as int,
    ) && effective_pose_exists(h, pending, ra->0 as int) && effective_pose_exists(
        h,
        pending,
        rb->0 as int,
    ) {
        PlannedConnectionModel::Welded {
            survivor: ra->0,
            absorbed: rb->0,
            survivor_socket: sa.entity,
            absorbed_socket: sb.entity,
        }
    } else {
        PlannedConnectionModel::Unresolved
    }
}

/// The weld-pass decision once both modules were found.
#[verifier::opaque]
pub open spec fn weld_step_found(
    h: VehicleHierarchy,
    c: PendingConnection,
    pending: Seq<Option<usize>>,
    a: int,
    b: int,
) -> Option<PlannedConnectionModel> {
    if is_pending_module(h, a) || is_pending_module(h, b) {
        Some(PlannedConnectionModel::Unresolved)
    } else {
        let sa = lookup::socket_lookup(h, a, c.connection.socket_a@);
        let sb = lookup::socket_lookup(h, b, c.connection.socket_b@);
        if sa is Err || sb is Err {
            Some(
                PlannedConnectionModel::Failed {
                    reason: bad_sockets_text(h, c, a, b),
                    marker: FailureMarker::BetweenModules(a as usize, b as usize),
                },
            )
        } else if sa->Ok_0.is_hinge || sb->Ok_0.is_hinge {
            None
        } else {
            Some(weld_step_with_sockets(h, pending, a, b, sa->Ok_0, sb->Ok_0))
        }
    }
}

/// What the weld pass decides for one connection, given the fusions decided
/// before it this frame. `None` leaves a hinge to the hinge pass.
#[verifier::opaque]
pub open spec fn weld_step(h: VehicleHierarchy, c: PendingConnection, pending: Seq<Option<usize>>) -> Option<
    PlannedConnectionModel,
> {
    let root = c.vehicle_root as int;
    let a = lookup::module_lookup(h, root, c.connection.module_a@);
    let b = lookup::module_lookup(h, root, c.connection.module_b@);
    if a is None || b is None {
        Some(missing_module_failure(h, c))
    } else {
        weld_step_found(h, c, pending, a->0 as int, b->0 as int)
    }
}

/// The fusions decided after a weld-pass step.
pub open spec fn after_step(pending: Seq<Option<usize>>, step: Option<PlannedConnectionModel>) -> Seq<
    Option<usize>,
> {
    match step {
        Some(PlannedConnectionModel::Welded { survivor, absorbed, .. }) => pending.update(
            absorbed as int,
            Some(survivor),
        ),
        _ => pending,
    }
}

/// The weld pass over the first `k` connections: each one's step, and the
/// fusions decided by then.
#[verifier::opaque]
pub open spec fn weld_pass(h: VehicleHierarchy, conns: Seq<PendingConnection>, k: int) -> (Seq<
    Option<PlannedConnectionModel>,
>, Seq<Option<usize>>)
    decreases k,
{
    if k <= 0 {
        (Seq::empty(), no_fusions(h.entities.len() as nat))
    } else {
        let (steps, pending) = weld_pass(h, conns, k - 1);
        let step = weld_step(h, conns[k - 1], pending);
        (steps.push(step), after_step(pending, step))
    }
}

/// What the hinge pass decides for a connection the weld pass left to it.
#[verifier::opaque]
pub open spec fn hinge_step(h: VehicleHierarchy, c: PendingConnection, pending: Seq<Option<usize>>) -> PlannedConnectionModel {
    let root = c.vehicle_root as int;
    let a = lookup::module_lookup(h, root, c.connection.module_a@)->0 as int;
    let b = lookup::module_lookup(h, root, c.connection.module_b@)->0 as int;
    let sa = lookup::socket_lookup(h, a, c.connection.socket_a@)->Ok_0;
    let sb = lookup::socket_lookup(h, b, c.connection.socket_b@)->Ok_0;
    let wheel_is_module_a = sa.is_hinge;
    let ra = fusion_root(h, pending, a);
    let rb = fusion_root(h, pending, b);
    if ra is None || rb is None {
        PlannedConnectionModel::Unresolved
    } else if !effective_pose_exists(h, pending, ra->0 as int) || !effective_pose_exists(
        h,
        pending,
        rb->0 as int,
    ) {
        PlannedConnectionModel::Unresolved
    } else {
        let chassis_socket = if wheel_is_module_a { sb } else { sa };
        let wheel_socket = if wheel_is_module_a { sa } else { sb };
        if !effective_pose_exists(h, pending, chassis_socket.entity as int) {
            PlannedConnectionModel::Unresolved
        } else {
            PlannedConnectionModel::Hinged {
                chassis_root: if wheel_is_module_a { rb->0 } else { ra->0 },
                wheel_root: if wheel_is_module_a { ra->0 } else { rb->0 },
                chassis_socket: chassis_socket.entity,
                wheel_socket: wheel_socket.entity,
                chassis_is_body1: !wheel_is_module_a,
            }
        }
    }
}

/// Whether the weld pass welded anything.
pub open spec fn any_welded(steps: Seq<Option<PlannedConnectionModel>>) -> bool {
    exists|i: int| 0 <= i < steps.len() && #[trigger] steps[i] matches Some(PlannedConnectionModel::Welded { .. })
}

/// The whole frame's plan: the weld pass's decisions, and for each hinge
/// either the hinge pass's decision or, in a frame that welded anything,
/// nothing yet.
pub open spec fn wiring_plan(h: VehicleHierarchy, conns: Seq<PendingConnection>) -> Seq<PlannedConnectionModel> {
    let (steps, pending) = weld_pass(h, conns, conns.len() as int);
    Seq::new(
        conns.len(),
        |i: int|
            match steps[i] {
                Some(planned) => planned,
                None => if any_welded(steps) {
                    PlannedConnectionModel::Unresolved
                } else {
                    hinge_step(h, conns[i], pending)
                },
            },
    )
}

/// The fusions decided by the whole frame.
pub open spec fn wiring_fusions(h: VehicleHierarchy, conns: Seq<PendingConnection>) -> Seq<Option<usize>> {
    weld_pass(h, conns, conns.len() as int).1
}

pub open spec fn connections_wf(h: VehicleHierarchy, conns: Seq<PendingConnection>) -> bool {
    forall|i: int| 0 <= i < conns.len() ==> #[trigger] conns[i].vehicle_root < h.entities.len()
}


/// Where a connection is in its life: waiting to be wired, resolved, or
/// permanently failed.
#[derive(Clone, Copy, Debug, PartialEq, Eq, Structural)]
pub enum ConnectionState {
    Pending,
    Resolved,
    Failed,
}

/// The positions, in order, of the connections among `states` that still
/// need wiring: those neither resolved nor permanently failed.
pub open spec fn needing_wiring(states: Seq<ConnectionState>) -> Seq<usize>
    decreases states.len(),
{
    if states.len() == 0 {
        Seq::empty()
    } else {
        let before = needing_wiring(states.drop_last());
        if states.last() == ConnectionState::Pending {
            before.push((states.len() - 1) as usize)
        } else {
            before
        }
    }
}

proof fn lemma_needing_wiring_pending(states: Seq<ConnectionState>)
    requires
        states.len() <= usize::MAX,
    ensures
        forall|k: int|
            0 <= k < needing_wiring(states).len() ==> #[trigger] needing_wiring(states)[k]
                < states.len() && states[needing_wiring(states)[k] as int]
                == ConnectionState::Pending,
    decreases states.len(),
{
    if states.len() > 0 {
        let before = states.drop_last();
        lemma_needing_wiring_pending(before);
        assert forall|k: int| 0 <= k < needing_wiring(states).len() implies #[trigger] needing_wiring(
            states,
        )[k] < states.len() && states[needing_wiring(states)[k] as int]
            == ConnectionState::Pending by {
            if k < needing_wiring(before).len() {
                let x = needing_wiring(before)[k] as int;
                assert(needing_wiring(states)[k] == needing_wiring(before)[k]);
                assert(states[x] == before[x]);
            } else {
                assert(states.last() == ConnectionState::Pending);
                assert(needing_wiring(states)[k] == (states.len() - 1) as usize);
            }
        }
    }
}

proof fn lemma_needing_wiring_complete(states: Seq<ConnectionState>)
    requires
        states.len() <= usize::MAX,
    ensures
        forall|i: int|
            0 <= i < states.len() && states[i] == ConnectionState::Pending ==> needing_wiring(
                states,
            ).contains(i as usize),
    decreases states.len(),
{
    if states.len() > 0 {
        let before = states.drop_last();
        lemma_needing_wiring_complete(before);
        assert forall|i: int|
            0 <= i < states.len() && states[i] == ConnectionState::Pending implies needing_wiring(
                states,
            ).contains(i as usize) by {
            if i < before.len() {
                assert(states[i] == before[i]);
                let j = choose|j: int|
                    0 <= j < needing_wiring(before).len() && needing_wiring(before)[j]
                        == i as usize;
                assert(needing_wiring(states)[j] == i as usize);
            } else {
                let n = needing_wiring(states).len() - 1;
                assert(needing_wiring(states)[n] == i as usize);
            }
        }
    }
}

/// Whether a connection in the given state still needs wiring: only while it
/// is pending; never once it resolved or permanently failed.
pub fn connection_needs_wiring(state: ConnectionState) -> (r: bool)
    ensures
        r == (state == ConnectionState::Pending),
        state == ConnectionState::Resolved ==> !r,
        state == ConnectionState::Failed ==> !r,
{
    match state {
        ConnectionState::Pending => true,
        _ => false,
    }
}

/// Selects the connections to wire this frame: a connection is wired once,
/// and never again after it resolved or permanently failed.
pub fn connections_needing_wiring(states: &Vec<ConnectionState>) -> (r: Vec<usize>)
    ensures
        r@ == needing_wiring(states@),
        forall|k: int|
            0 <= k < r@.len() ==> #[trigger] r@[k] < states@.len() && states@[r@[k] as int]
                == ConnectionState::Pending,
        forall|i: int|
            0 <= i < states@.len() && states@[i] == ConnectionState::Pending ==> r@.contains(
                i as usize,
            ),
{
    let mut out: Vec<usize> = Vec::new();
    let mut i: usize = 0;
    while i < states.len()
        invariant
            i <= states.len(),
            out@ == needing_wiring(states@.take(i as int)),
        decreases states.len() - i,
    {
        assert(states@.take(i + 1).drop_last() =~= states@.take(i as int));
        if connection_needs_wiring(states[i]) {
            out.push(i);
        }
        i = i + 1;
    }
    assert(states@.take(states.len() as int) =~= states@);
    proof {
        lemma_needing_wiring_pending(states@);
        lemma_needing_wiring_complete(states@);
    }
    out
}

/// Finds the entity that currently owns `entity`'s compound rigid body:
/// `entity` itself if it still has its own rigid body, or whichever ancestor
/// does, following this frame's fusion decisions before the live hierarchy.
/// `None` when no owner turns up within [`FUSION_ROOT_SEARCH_LIMIT`] steps.
pub fn find_current_fusion_root(h: &VehicleHierarchy, pending: &Vec<Option<usize>>, entity: usize) -> (r:
    Option<usize>)
    requires
        h.wf(),
        pending_wf(*h, pending@),
        entity < h.entities.len(),
    ensures
        r == fusion_root(*h, pending@, entity as int),
        r matches Some(root) ==> root < h.entities.len() && h.entities[root as int].has_rigid_body
            && pending@[root as int] is None,
{
    let mut current = entity;
    let mut steps_left: usize = FUSION_ROOT_SEARCH_LIMIT;
    assert forall|k: int, steps: nat|
        0 <= k < h.entities.len() implies (#[trigger] fusion_root_walk(*h, pending@, k, steps) matches Some(
            root,
        ) ==> root < h.entities.len() && h.entities[root as int].has_rigid_body
            && pending@[root as int] is None) by {
        lemma_fusion_root_is_unabsorbed_body(*h, pending@, k, steps);
    }
    while steps_left > 0
        invariant
            h.wf(),
            pending_wf(*h, pending@),
            current < h.entities.len(),
            steps_left <= FUSION_ROOT_SEARCH_LIMIT,
            fusion_root(*h, pending@, entity as int) == fusion_root_walk(
                *h,
                pending@,
                current as int,
                steps_left as nat,
            ),
            forall|k: int, steps: nat|
                0 <= k < h.entities.len() ==> (#[trigger] fusion_root_walk(*h, pending@, k, steps) matches Some(
                    root,
                ) ==> root < h.entities.len() && h.entities[root as int].has_rigid_body
                    && pending@[root as int] is None),
        decreases steps_left,
    {
        match pending[current] {
            Some(new_parent) => {
                current = new_parent;
            },
            None => {
                if h.entities[current].has_rigid_body {
                    return Some(current);
                }
                match h.entities[current].parent {
                    Some(p) => {
                        current = p;
                    },
                    None => {
                        return None;
                    },
                }
            },
        }
        steps_left = steps_left - 1;
    }
    None
}

/// Every result of the fusion-root search is an entity with its own rigid
/// body that has not been absorbed this frame.
pub proof fn lemma_fusion_root_is_unabsorbed_body(
    h: VehicleHierarchy,
    pending: Seq<Option<usize>>,
    k: int,
    steps: nat,
)
    requires
        h.wf(),
        pending_wf(h, pending),
        0 <= k < h.entities.len(),
    ensures
        fusion_root_walk(h, pending, k, steps) matches Some(root) ==> root < h.entities.len()
            && h.entities[root as int].has_rigid_body && pending[root as int] is None,
    decreases steps,
{
    if steps > 0 {
        match pending[k] {
            Some(p) => lemma_fusion_root_is_unabsorbed_body(h, pending, p as int, (steps - 1) as nat),
            None => {
                if !h.entities[k].has_rigid_body {
                    match h.entities[k].parent {
                        Some(p) => lemma_fusion_root_is_unabsorbed_body(
                            h,
                            pending,
                            p as int,
                            (steps - 1) as nat,
                        ),
                        None => {},
                    }
                }
            },
        }
    }
}


/// Whether `entity`'s world pose can be composed from live transforms
/// (the counterpart of recomputing it from `Transform`s up the hierarchy).
pub fn live_global_transform(h: &VehicleHierarchy, entity: usize) -> (r: bool)
    requires
        h.wf(),
        entity < h.entities.len(),
    ensures
        r == live_pose_exists(*h, entity as int, h.entities.len() as nat),
{
    let n = h.entities.len();
    let mut current = entity;
    let mut fuel = n;
    loop
        invariant
            h.wf(),
            n == h.entities.len(),
            current < n,
            fuel <= n,
            live_pose_exists(*h, entity as int, n as nat) == live_pose_exists(
                *h,
                current as int,
                fuel as nat,
            ),
        decreases fuel,
    {
        if !h.entities[current].has_transform {
            return false;
        }
        match h.entities[current].parent {
            None => {
                return true;
            },
            Some(p) => {
                if fuel == 0 {
                    return false;
                }
                current = p;
                fuel = fuel - 1;
            },
        }
    }
}

/// Whether `entity`'s world pose exists once this frame's fusion decisions
/// are taken into account.
pub fn effective_global_transform(h: &VehicleHierarchy, pending: &Vec<Option<usize>>, entity: usize) -> (r:
    bool)
    requires
        h.wf(),
        pending_wf(*h, pending@),
        entity < h.entities.len(),
    ensures
        r == effective_pose_exists(*h, pending@, entity as int),
{
    let n = h.entities.len();
    let mut current = entity;
    let mut fuel = n;
    loop
        invariant
            h.wf(),
            pending_wf(*h, pending@),
            n == h.entities.len(),
            current < n,
            fuel <= n,
            effective_pose_exists(*h, pending@, entity as int) == effective_pose_exists_within(
                *h,
                pending@,
                current as int,
                fuel as nat,
            ),
        decreases fuel,
    {
        match pending[current] {
            Some(p) => {
                if fuel == 0 {
                    return false;
                }
                current = p;
                fuel = fuel - 1;
            },
            None => {
                return live_global_transform(h, current);
            },
        }
    }
}

/// Joins one or two warning sentences with `"; "`.
fn join_reasons(first: Option<String>, second: Option<String>) -> (r: String)
    requires
        first is Some || second is Some,
    ensures
        r@ == lookup::joined(
            (if first is Some {
                seq![first->0@]
            } else {
                Seq::empty()
            }) + (if second is Some {
                seq![second->0@]
            } else {
                Seq::empty()
            }),
            "; "@,
        ),
{
    match (first, second) {
        (Some(a), Some(b)) => {
            let ghost (va, vb) = (a@, b@);
            let mut out = a;
            out.append("; ");
            out.append(b.as_str());
            assert(seq![va] + seq![vb] =~= seq![va, vb]);
            assert(seq![va, vb].drop_last() =~= seq![va]);
            assert(lookup::joined(seq![va], "; "@) == va);
            out
        },
        (Some(a), None) => {
            assert(seq![a@] + Seq::<Seq<char>>::empty() =~= seq![a@]);
            a
        },
        (None, Some(b)) => {
            assert(Seq::<Seq<char>>::empty() + seq![b@] =~= seq![b@]);
            b
        },
        (None, None) => String::new(),
    }
}


/// The failure of a connection naming a module that does not exist.
fn plan_missing_module_failure(
    h: &VehicleHierarchy,
    c: &PendingConnection,
    module_a: Option<usize>,
    module_b: Option<usize>,
) -> (r: PlannedConnection)
    requires
        h.wf(),
        c.vehicle_root < h.entities.len(),
        module_a == lookup::module_lookup(*h, c.vehicle_root as int, c.connection.module_a@),
        module_b == lookup::module_lookup(*h, c.vehicle_root as int, c.connection.module_b@),
        module_a is None || module_b is None,
    ensures
        r@ == missing_module_failure(*h, *c),
{
    reveal(missing_modules_text);
    let root = c.vehicle_root;
    let first = if module_a.is_none() {
        Some(describe_missing_module(h, root, c.connection.module_a.as_str()))
    } else {
        None
    };
    let second = if module_b.is_none() {
        Some(describe_missing_module(h, root, c.connection.module_b.as_str()))
    } else {
        None
    };
    let reason = join_reasons(first, second);
    let marker = match module_a {
        Some(a) => FailureMarker::AtModule(a),
        None => match module_b {
            Some(b) => FailureMarker::AtModule(b),
            None => FailureMarker::Nowhere,
        },
    };
    PlannedConnection::Failed { reason, marker }
}

/// The failure of a connection naming a socket that cannot be used.
fn plan_bad_socket_failure(
    h: &VehicleHierarchy,
    c: &PendingConnection,
    a: usize,
    b: usize,
    socket_a: Result<ResolvedSocket, SocketLookupError>,
    socket_b: Result<ResolvedSocket, SocketLookupError>,
) -> (r: PlannedConnection)
    requires
        h.wf(),
        socket_a == lookup::socket_lookup(*h, a as int, c.connection.socket_a@),
        socket_b == lookup::socket_lookup(*h, b as int, c.connection.socket_b@),
        socket_a is Err || socket_b is Err,
    ensures
        r@ == (PlannedConnectionModel::Failed {
            reason: bad_sockets_text(*h, *c, a as int, b as int),
            marker: FailureMarker::BetweenModules(a, b),
        }),
{
    reveal(bad_sockets_text);
    let first = match socket_a {
        Err(error) => Some(
            describe_socket_lookup_error(
                error,
                c.connection.socket_a.as_str(),
                c.connection.module_a.as_str(),
                h,
                a,
            ),
        ),
        Ok(_) => None,
    };
    let second = match socket_b {
        Err(error) => Some(
            describe_socket_lookup_error(
                error,
                c.connection.socket_b.as_str(),
                c.connection.module_b.as_str(),
                h,
                b,
            ),
        ),
        Ok(_) => None,
    };
    let reason = join_reasons(first, second);
    PlannedConnection::Failed { reason, marker: FailureMarker::BetweenModules(a, b) }
}

/// The weld decision once both sockets resolved to welds.
fn plan_weld_with_sockets(
    h: &VehicleHierarchy,
    pending: &Vec<Option<usize>>,
    a: usize,
    b: usize,
    sa: ResolvedSocket,
    sb: ResolvedSocket,
) -> (r: PlannedConnection)
    requires
        h.wf(),
        pending_wf(*h, pending@),
        a < h.entities.len(),
        b < h.entities.len(),
        sa.entity < h.entities.len(),
        sb.entity < h.entities.len(),
    ensures
        r@ == weld_step_with_sockets(*h, pending@, a as int, b as int, sa, sb),
        r matches PlannedConnection::Welded { survivor, absorbed, .. } ==> survivor
            < h.entities.len() && absorbed < h.entities.len(),
{
    reveal(weld_step_with_sockets);
    let root_a = find_current_fusion_root(h, pending, a);
    let root_b = find_current_fusion_root(h, pending, b);
    if root_a.is_none() || root_b.is_none() {
        return PlannedConnection::Unresolved;
    }
    let ra = root_a.unwrap();
    let rb = root_b.unwrap();
    if ra == rb {
        return PlannedConnection::AlreadyFused;
    }
    if effective_global_transform(h, pending, sa.entity) && effective_global_transform(
        h,
        pending,
        sb.entity,
    ) && effective_global_transform(h, pending, ra) && effective_global_transform(h, pending, rb) {
        PlannedConnection::Welded {
            survivor: ra,
            absorbed: rb,
            survivor_socket: sa.entity,
            absorbed_socket: sb.entity,
        }
    } else {
        PlannedConnection::Unresolved
    }
}

/// The weld pass's decision for one connection; `None` leaves a hinge to the
/// hinge pass.
fn plan_weld_step(h: &VehicleHierarchy, c: &PendingConnection, pending: &Vec<Option<usize>>) -> (r:
    Option<PlannedConnection>)
    requires
        h.wf(),
        pending_wf(*h, pending@),
        c.vehicle_root < h.entities.len(),
    ensures
        match r {
            Some(planned) => weld_step(*h, *c, pending@) == Some(planned@),
            None => weld_step(*h, *c, pending@) is None,
        },
        r matches Some(PlannedConnection::Welded { survivor, absorbed, .. }) ==> survivor
            < h.entities.len() && absorbed < h.entities.len(),
{
    reveal(weld_step);
    reveal(weld_step_found);
    let root = c.vehicle_root;
    let module_a = find_named_module_instance(h, root, c.connection.module_a.as_str());
    let module_b = find_named_module_instance(h, root, c.connection.module_b.as_str());
    if module_a.is_none() || module_b.is_none() {
        return Some(plan_missing_module_failure(h, c, module_a, module_b));
    }
    let a = module_a.unwrap();
    let b = module_b.unwrap();
    let a_pending = match &h.entities[a].module_instance {
        Some(instance) => instance.is_pending,
        None => false,
    };
    let b_pending = match &h.entities[b].module_instance {
        Some(instance) => instance.is_pending,
        None => false,
    };
    if a_pending || b_pending {
        return Some(PlannedConnection::Unresolved);
    }
    let socket_a = find_named_socket(h, a, c.connection.socket_a.as_str());
    let socket_b = find_named_socket(h, b, c.connection.socket_b.as_str());
    if socket_a.is_err() || socket_b.is_err() {
        return Some(plan_bad_socket_failure(h, c, a, b, socket_a, socket_b));
    }
    let sa = socket_a.unwrap();
    let sb = socket_b.unwrap();
    if sa.is_hinge || sb.is_hinge {
        return None;
    }
    Some(plan_weld_with_sockets(h, pending, a, b, sa, sb))
}


/// A connection the weld pass leaves to the hinge pass names two modules that
/// exist and are loaded, and two usable sockets, at least one of them a hinge.
pub proof fn lemma_deferred_connection(h: VehicleHierarchy, c: PendingConnection, pending: Seq<Option<usize>>)
    requires
        weld_step(h, c, pending) is None,
    ensures
        lookup::module_lookup(h, c.vehicle_root as int, c.connection.module_a@) is Some,
        lookup::module_lookup(h, c.vehicle_root as int, c.connection.module_b@) is Some,
        lookup::socket_lookup(
            h,
            lookup::module_lookup(h, c.vehicle_root as int, c.connection.module_a@)->0 as int,
            c.connection.socket_a@,
        ) is Ok,
        lookup::socket_lookup(
            h,
            lookup::module_lookup(h, c.vehicle_root as int, c.connection.module_b@)->0 as int,
            c.connection.socket_b@,
        ) is Ok,
{
    reveal(weld_step);
    reveal(weld_step_found);
}

/// The hinge pass's decision for a connection the weld pass left to it.
fn plan_hinge_step(h: &VehicleHierarchy, c: &PendingConnection, pending: &Vec<Option<usize>>) -> (r:
    PlannedConnection)
    requires
        h.wf(),
        pending_wf(*h, pending@),
        c.vehicle_root < h.entities.len(),
        weld_step(*h, *c, pending@) is None,
    ensures
        r@ == hinge_step(*h, *c, pending@),
{
    proof {
        lemma_deferred_connection(*h, *c, pending@);
        reveal(hinge_step);
    }
    let root = c.vehicle_root;
    let a = match find_named_module_instance(h, root, c.connection.module_a.as_str()) {
        Some(a) => a,
        None => {
            return PlannedConnection::Unresolved;
        },
    };
    let b = match find_named_module_instance(h, root, c.connection.module_b.as_str()) {
        Some(b) => b,
        None => {
            return PlannedConnection::Unresolved;
        },
    };
    let sa = match find_named_socket(h, a, c.connection.socket_a.as_str()) {
        Ok(socket) => socket,
        Err(_) => {
            return PlannedConnection::Unresolved;
        },
    };
    let sb = match find_named_socket(h, b, c.connection.socket_b.as_str()) {
        Ok(socket) => socket,
        Err(_) => {
            return PlannedConnection::Unresolved;
        },
    };
    let wheel_is_module_a = sa.is_hinge;
    let root_a = find_current_fusion_root(h, pending, a);
    let root_b = find_current_fusion_root(h, pending, b);
    if root_a.is_none() || root_b.is_none() {
        return PlannedConnection::Unresolved;
    }
    let ra = root_a.unwrap();
    let rb = root_b.unwrap();
    if !effective_global_transform(h, pending, ra) || !effective_global_transform(h, pending, rb) {
        return PlannedConnection::Unresolved;
    }
    let chassis_socket = if wheel_is_module_a {
        sb
    } else {
        sa
    };
    let wheel_socket = if wheel_is_module_a {
        sa
    } else {
        sb
    };
    if !effective_global_transform(h, pending, chassis_socket.entity) {
        return PlannedConnection::Unresolved;
    }
    PlannedConnection::Hinged {
        chassis_root: if wheel_is_module_a {
            rb
        } else {
            ra
        },
        wheel_root: if wheel_is_module_a {
            ra
        } else {
            rb
        },
        chassis_socket: chassis_socket.entity,
        wheel_socket: wheel_socket.entity,
        chassis_is_body1: !wheel_is_module_a,
    }
}

/// What a weld joins, given the two modules.
pub open spec fn weld_joins_two_roots(h: VehicleHierarchy, pending: Seq<Option<usize>>, planned: PlannedConnectionModel) -> bool {
    planned matches PlannedConnectionModel::Welded { survivor, absorbed, .. } ==> {
        &&& survivor < h.entities.len()
        &&& absorbed < h.entities.len()
        &&& survivor != absorbed
        &&& pending[survivor as int] is None
        &&& pending[absorbed as int] is None
        &&& h.entities[survivor as int].has_rigid_body
        &&& h.entities[absorbed as int].has_rigid_body
    }
}

proof fn lemma_weld_with_sockets_joins_two_roots(
    h: VehicleHierarchy,
    pending: Seq<Option<usize>>,
    a: int,
    b: int,
    sa: ResolvedSocket,
    sb: ResolvedSocket,
)
    requires
        h.wf(),
        pending_wf(h, pending),
        0 <= a < h.entities.len(),
        0 <= b < h.entities.len(),
    ensures
        weld_joins_two_roots(h, pending, weld_step_with_sockets(h, pending, a, b, sa, sb)),
{
    reveal(weld_step_with_sockets);
    lemma_fusion_root_is_unabsorbed_body(h, pending, a, FUSION_ROOT_SEARCH_LIMIT as nat);
    lemma_fusion_root_is_unabsorbed_body(h, pending, b, FUSION_ROOT_SEARCH_LIMIT as nat);
}

/// A weld joins two distinct fusion roots, each an entity with its own rigid
/// body not yet absorbed this frame.
pub proof fn lemma_weld_joins_two_roots(h: VehicleHierarchy, c: PendingConnection, pending: Seq<Option<usize>>)
    requires
        h.wf(),
        pending_wf(h, pending),
    ensures
        weld_step(h, c, pending) matches Some(planned) ==> weld_joins_two_roots(h, pending, planned),
{
    reveal(weld_step);
    reveal(weld_step_found);
    let root = c.vehicle_root as int;
    let a = lookup::module_lookup(h, root, c.connection.module_a@);
    let b = lookup::module_lookup(h, root, c.connection.module_b@);
    if a is Some && b is Some {
        let ai = a->0 as int;
        let bi = b->0 as int;
        lookup::lemma_module_lookup_found(h, root, c.connection.module_a@);
        lookup::lemma_module_lookup_found(h, root, c.connection.module_b@);
        let sa = lookup::socket_lookup(h, ai, c.connection.socket_a@);
        let sb = lookup::socket_lookup(h, bi, c.connection.socket_b@);
        if sa is Ok && sb is Ok {
            lemma_weld_with_sockets_joins_two_roots(h, pending, ai, bi, sa->Ok_0, sb->Ok_0);
        }
    }
}

/// The weld pass records one decision per connection and keeps its fusion
/// record well formed.
pub proof fn lemma_weld_pass_len(h: VehicleHierarchy, conns: Seq<PendingConnection>, k: int)
    requires
        0 <= k,
        h.wf(),
    ensures
        weld_pass(h, conns, k).0.len() == k,
        pending_wf(h, weld_pass(h, conns, k).1),
    decreases k,
{
    reveal(weld_pass);
    if k > 0 {
        lemma_weld_pass_len(h, conns, k - 1);
        let (steps, pending) = weld_pass(h, conns, k - 1);
        let step = weld_step(h, conns[k - 1], pending);
        lemma_weld_joins_two_roots(h, conns[k - 1], pending);
        assert(pending_wf(h, after_step(pending, step)));
    }
}

/// Each weld-pass decision was taken against the fusions decided before it,
/// and a pass that welded nothing decided no fusion at any point.
pub proof fn lemma_weld_pass_history(h: VehicleHierarchy, conns: Seq<PendingConnection>, k: int)
    requires
        0 <= k,
        h.wf(),
    ensures
        forall|j: int|
            0 <= j < k ==> #[trigger] weld_pass(h, conns, k).0[j] == weld_step(
                h,
                conns[j],
                weld_pass(h, conns, j).1,
            ),
        !any_welded(weld_pass(h, conns, k).0) ==> forall|j: int|
            0 <= j <= k ==> #[trigger] weld_pass(h, conns, j).1 == no_fusions(h.entities.len() as nat),
    decreases k,
{
    reveal(weld_pass);
    if k > 0 {
        lemma_weld_pass_history(h, conns, k - 1);
        lemma_weld_pass_len(h, conns, k - 1);
        let (steps, pending) = weld_pass(h, conns, k - 1);
        let step = weld_step(h, conns[k - 1], pending);
        let all = weld_pass(h, conns, k);
        assert(all.0 == steps.push(step));
        assert forall|j: int| 0 <= j < k implies #[trigger] weld_pass(h, conns, k).0[j] == weld_step(
            h,
            conns[j],
            weld_pass(h, conns, j).1,
        ) by {
            if j < k - 1 {
                assert(all.0[j] == steps[j]);
            }
        }
        if !any_welded(all.0) {
            assert(!any_welded(steps)) by {
                if any_welded(steps) {
                    let j = choose|j: int|
                        0 <= j < steps.len() && #[trigger] steps[j] matches Some(
                            PlannedConnectionModel::Welded { .. },
                        );
                    assert(all.0[j] == steps[j]);
                }
            }
            assert(!(step matches Some(PlannedConnectionModel::Welded { .. }))) by {
                assert(all.0[k - 1] == step);
            }
            assert(all.1 == pending);
        }
    }
}

/// One frame's connection resolution: what happens to each connection, and
/// the fusions decided.
pub struct WiringPlan {
    /// One entry per connection, in the order given.
    pub connections: Vec<PlannedConnection>,
    /// Entry `e` is the root `e` is absorbed under this frame, if it is.
    pub fusions: Vec<Option<usize>>,
}

/// Plans one frame of resolving every unresolved vehicle connection: a weld
/// fuses the two modules' current fusion roots together; a hinge joins the
/// wheel and the chassis-side module's current fusion root, in a frame that
/// fused nothing; a connection naming a missing module or an unusable socket
/// fails with a warning naming the candidates that do exist.
pub fn wire_last_beacon_vehicle_connections(
    h: &VehicleHierarchy,
    connections: &Vec<PendingConnection>,
) -> (plan: WiringPlan)
    requires
        h.wf(),
        connections_wf(*h, connections@),
    ensures
        plan.connections@.map_values(|p: PlannedConnection| p@) == wiring_plan(*h, connections@),
        plan.fusions@ == wiring_fusions(*h, connections@),
{
    let n = h.entities.len();
    proof {
        reveal(weld_pass);
    }
    let mut pending: Vec<Option<usize>> = Vec::new();
    let mut k: usize = 0;
    while k < n
        invariant
            k <= n,
            n == h.entities.len(),
            pending@ =~= no_fusions(k as nat),
        decreases n - k,
    {
        pending.push(None);
        k = k + 1;
    }
    let mut planned: Vec<PlannedConnection> = Vec::new();
    let mut deferred: Vec<bool> = Vec::new();
    let mut any_weld = false;
    let mut i: usize = 0;
    while i < connections.len()
        invariant
            h.wf(),
            connections_wf(*h, connections@),
            n == h.entities.len(),
            i <= connections.len(),
            pending@ == weld_pass(*h, connections@, i as int).1,
            pending_wf(*h, pending@),
            planned.len() == i,
            deferred.len() == i,
            weld_pass(*h, connections@, i as int).0.len() == i,
            forall|j: int|
                0 <= j < i ==> (deferred@[j] <==> (#[trigger] weld_pass(
                    *h,
                    connections@,
                    i as int,
                ).0[j]) is None),
            forall|j: int|
                0 <= j < i ==> (#[trigger] weld_pass(*h, connections@, i as int).0[j] matches Some(
                    m,
                ) ==> planned@[j]@ == m),
            any_weld == any_welded(weld_pass(*h, connections@, i as int).0),
            forall|j: int|
                0 <= j < i ==> (#[trigger] weld_pass(*h, connections@, i as int).0[j] is None
                    ==> planned@[j]@ == PlannedConnectionModel::Unresolved),
        decreases connections.len() - i,
    {
        let ghost before = weld_pass(*h, connections@, i as int);
        proof {
            reveal(weld_pass);
            lemma_weld_pass_len(*h, connections@, i as int + 1);
        }
        let step = plan_weld_step(h, &connections[i], &pending);
        let ghost step_model = weld_step(*h, connections@[i as int], pending@);
        assert(weld_pass(*h, connections@, i as int + 1) == (before.0.push(step_model), after_step(
            before.1,
            step_model,
        )));
        match step {
            Some(p) => {
                match &p {
                    PlannedConnection::Welded { survivor, absorbed, .. } => {
                        pending.set(*absorbed, Some(*survivor));
                        any_weld = true;
                    },
                    _ => {},
                }
                planned.push(p);
                deferred.push(false);
            },
            None => {
                planned.push(PlannedConnection::Unresolved);
                deferred.push(true);
            },
        }
        let ghost after = weld_pass(*h, connections@, i as int + 1);
        assert(pending@ =~= after.1);
        assert(after.0[i as int] == step_model);
        assert(any_weld == any_welded(after.0)) by {
            if any_welded(before.0) {
                let j = choose|j: int|
                    0 <= j < before.0.len() && #[trigger] before.0[j] matches Some(
                        PlannedConnectionModel::Welded { .. },
                    );
                assert(after.0[j] == before.0[j]);
            }
            if any_welded(after.0) {
                let j = choose|j: int|
                    0 <= j < after.0.len() && #[trigger] after.0[j] matches Some(
                        PlannedConnectionModel::Welded { .. },
                    );
                if j < i {
                    assert(before.0[j] == after.0[j]);
                }
            }
        }
        i = i + 1;
    }
    let ghost pass = weld_pass(*h, connections@, connections@.len() as int);
    proof {
        lemma_weld_pass_history(*h, connections@, connections@.len() as int);
    }
    if !any_weld {
        let mut j: usize = 0;
        while j < connections.len()
            invariant
                h.wf(),
                connections_wf(*h, connections@),
                pass == weld_pass(*h, connections@, connections@.len() as int),
                pending@ == pass.1,
                pending_wf(*h, pending@),
                !any_welded(pass.0),
                pass.0.len() == connections.len(),
                j <= connections.len(),
                planned.len() == connections.len(),
                deferred.len() == connections.len(),
                forall|k: int| 0 <= k < connections.len() ==> (deferred@[k] <==> (#[trigger] pass.0[k]) is None),
                forall|k: int|
                    0 <= k < connections.len() ==> (#[trigger] pass.0[k] matches Some(m) ==> planned@[k]@
                        == m),
                forall|k: int|
                    0 <= k < j ==> (#[trigger] pass.0[k] is None ==> planned@[k]@ == hinge_step(
                        *h,
                        connections@[k],
                        pass.1,
                    )),
                forall|k: int|
                    0 <= k < connections.len() ==> #[trigger] weld_pass(*h, connections@, k).1
                        == no_fusions(h.entities.len() as nat),
                pass.1 == no_fusions(h.entities.len() as nat),
            decreases connections.len() - j,
        {
            if deferred[j] {
                proof {
                    lemma_weld_pass_history(*h, connections@, connections@.len() as int);
                    assert(weld_pass(*h, connections@, connections@.len() as int).0[j as int]
                        == weld_step(
                        *h,
                        connections@[j as int],
                        weld_pass(*h, connections@, j as int).1,
                    ));
                    assert(weld_pass(*h, connections@, j as int).1 == pass.1);
                }
                let hinge = plan_hinge_step(h, &connections[j], &pending);
                planned.set(j, hinge);
            }
            j = j + 1;
        }
    }
    let ghost result = planned@.map_values(|p: PlannedConnection| p@);
    assert(result =~= wiring_plan(*h, connections@)) by {
        assert forall|k: int| 0 <= k < connections.len() implies result[k] == wiring_plan(
            *h,
            connections@,
        )[k] by {
            match pass.0[k] {
                Some(m) => {},
                None => {
                    if any_weld {
                        assert(planned@[k]@ == PlannedConnectionModel::Unresolved);
                    } else {
                        assert(planned@[k]@ == hinge_step(*h, connections@[k], pass.1));
                    }
                },
            }
        }
    }
    WiringPlan { connections: planned, fusions: pending }
}


/// `later` keeps every fusion `earlier` decided, and only ever absorbs
/// entities with their own rigid body.
pub open spec fn extends_fusions(
    h: VehicleHierarchy,
    earlier: Seq<Option<usize>>,
    later: Seq<Option<usize>>,
) -> bool {
    &&& earlier.len() == later.len()
    &&& forall|e: int|
        0 <= e < earlier.len() ==> (#[trigger] earlier[e] is Some ==> later[e] == earlier[e])
    &&& forall|e: int|
        0 <= e < earlier.len() ==> (earlier[e] is None && #[trigger] later[e] is Some
            ==> h.entities[e].has_rigid_body)
}

/// The fusion-root search is deterministic: whatever budgets two searches
/// from one entity are given, if both succeed they find the same root.
pub proof fn lemma_fusion_root_walk_deterministic(
    h: VehicleHierarchy,
    pending: Seq<Option<usize>>,
    x: int,
    s1: nat,
    s2: nat,
)
    requires
        h.wf(),
        pending_wf(h, pending),
        0 <= x < h.entities.len(),
        fusion_root_walk(h, pending, x, s1) is Some,
        fusion_root_walk(h, pending, x, s2) is Some,
    ensures
        fusion_root_walk(h, pending, x, s1) == fusion_root_walk(h, pending, x, s2),
    decreases s1,
{
    match pending[x] {
        Some(p) => lemma_fusion_root_walk_deterministic(
            h,
            pending,
            p as int,
            (s1 - 1) as nat,
            (s2 - 1) as nat,
        ),
        None => {
            if !h.entities[x].has_rigid_body {
                match h.entities[x].parent {
                    Some(p) => lemma_fusion_root_walk_deterministic(
                        h,
                        pending,
                        p as int,
                        (s1 - 1) as nat,
                        (s2 - 1) as nat,
                    ),
                    None => {},
                }
            }
        },
    }
}

/// Once a search from `x` finds `r`, a later search from `x` against any
/// extension of the fusions passes through `r`: whatever it finds, a search
/// from `r` finds too.
pub proof fn lemma_fusion_root_walk_passes_through(
    h: VehicleHierarchy,
    earlier: Seq<Option<usize>>,
    later: Seq<Option<usize>>,
    x: int,
    s: nat,
    s_later: nat,
)
    requires
        h.wf(),
        pending_wf(h, earlier),
        pending_wf(h, later),
        extends_fusions(h, earlier, later),
        0 <= x < h.entities.len(),
        fusion_root_walk(h, earlier, x, s) is Some,
        fusion_root_walk(h, later, x, s_later) is Some,
    ensures
        exists|t: nat|
            fusion_root_walk(h, later, fusion_root_walk(h, earlier, x, s)->0 as int, t)
                == fusion_root_walk(h, later, x, s_later),
    decreases s,
{
    let r = fusion_root_walk(h, earlier, x, s)->0 as int;
    match earlier[x] {
        Some(p) => {
            assert(later[x] == earlier[x]);
            lemma_fusion_root_walk_passes_through(
                h,
                earlier,
                later,
                p as int,
                (s - 1) as nat,
                (s_later - 1) as nat,
            );
        },
        None => {
            if h.entities[x].has_rigid_body {
                assert(r == x);
                assert(fusion_root_walk(h, later, r, s_later) == fusion_root_walk(
                    h,
                    later,
                    x,
                    s_later,
                ));
            } else {
                assert(later[x] is None);
                match h.entities[x].parent {
                    Some(p) => {
                        lemma_fusion_root_walk_passes_through(
                            h,
                            earlier,
                            later,
                            p as int,
                            (s - 1) as nat,
                            (s_later - 1) as nat,
                        );
                    },
                    None => {},
                }
            }
        },
    }
}


/// The two module lookups of a connection.
pub open spec fn module_a_of(h: VehicleHierarchy, c: PendingConnection) -> Option<usize> {
    lookup::module_lookup(h, c.vehicle_root as int, c.connection.module_a@)
}

pub open spec fn module_b_of(h: VehicleHierarchy, c: PendingConnection) -> Option<usize> {
    lookup::module_lookup(h, c.vehicle_root as int, c.connection.module_b@)
}

/// A weld absorbs the second module's fusion root under the first's; an
/// already-fused connection's modules share a fusion root.
proof fn lemma_weld_step_roots(h: VehicleHierarchy, c: PendingConnection, pending: Seq<Option<usize>>)
    ensures
        weld_step(h, c, pending) matches Some(PlannedConnectionModel::Welded { survivor, absorbed, .. }) ==> {
            &&& module_a_of(h, c) is Some
            &&& module_b_of(h, c) is Some
            &&& fusion_root(h, pending, module_a_of(h, c)->0 as int) == Some(survivor)
            &&& fusion_root(h, pending, module_b_of(h, c)->0 as int) == Some(absorbed)
        },
        weld_step(h, c, pending) matches Some(PlannedConnectionModel::AlreadyFused) ==> {
            &&& module_a_of(h, c) is Some
            &&& module_b_of(h, c) is Some
            &&& fusion_root(h, pending, module_a_of(h, c)->0 as int) is Some
            &&& fusion_root(h, pending, module_a_of(h, c)->0 as int) == fusion_root(
                h,
                pending,
                module_b_of(h, c)->0 as int,
            )
        },
{
    reveal(weld_step);
    reveal(weld_step_found);
    reveal(weld_step_with_sockets);
}

/// Later fusion records of one weld pass extend earlier ones.
proof fn lemma_weld_pass_extends(h: VehicleHierarchy, conns: Seq<PendingConnection>, j: int, k: int)
    requires
        h.wf(),
        0 <= j <= k,
    ensures
        extends_fusions(h, weld_pass(h, conns, j).1, weld_pass(h, conns, k).1),
    decreases k,
{
    lemma_weld_pass_len(h, conns, j);
    lemma_weld_pass_len(h, conns, k);
    if j < k {
        lemma_weld_pass_extends(h, conns, j, k - 1);
        lemma_weld_pass_len(h, conns, k - 1);
        reveal(weld_pass);
        let before = weld_pass(h, conns, k - 1).1;
        let step = weld_step(h, conns[k - 1], before);
        lemma_weld_joins_two_roots(h, conns[k - 1], before);
        assert(weld_pass(h, conns, k).1 == after_step(before, step));
    }
}

/// A fusion decided at step `j` is still recorded after step `k`.
proof fn lemma_weld_pass_keeps_fusion(h: VehicleHierarchy, conns: Seq<PendingConnection>, j: int, k: int)
    requires
        h.wf(),
        0 <= j < k <= conns.len(),
    ensures
        weld_step(h, conns[j], weld_pass(h, conns, j).1) matches Some(
            PlannedConnectionModel::Welded { survivor, absorbed, .. },
        ) ==> weld_pass(h, conns, k).1[absorbed as int] == Some(survivor),
{
    reveal(weld_pass);
    lemma_weld_pass_len(h, conns, j);
    let before = weld_pass(h, conns, j).1;
    let step = weld_step(h, conns[j], before);
    lemma_weld_joins_two_roots(h, conns[j], before);
    assert(weld_pass(h, conns, j + 1).1 == after_step(before, step));
    lemma_weld_pass_extends(h, conns, j + 1, k);
    if let Some(PlannedConnectionModel::Welded { survivor, absorbed, .. }) = step {
        let mid = weld_pass(h, conns, j + 1).1;
        assert(mid[absorbed as int] == Some(survivor));
        assert(mid[absorbed as int] is Some);
        assert(weld_pass(h, conns, k).1[absorbed as int] == mid[absorbed as int]);
    }
}

/// Once a frame's fusions are applied, the two modules of every weld the
/// frame resolved belong to one compound body: wherever the fusion-root
/// search lands from either module, whatever its budget, it lands on the same
/// root.
pub proof fn law_welded_modules_share_one_root(
    h: VehicleHierarchy,
    conns: Seq<PendingConnection>,
    i: int,
    budget_a: nat,
    budget_b: nat,
)
    requires
        h.wf(),
        connections_wf(h, conns),
        0 <= i < conns.len(),
        wiring_plan(h, conns)[i] is Welded || wiring_plan(h, conns)[i] is AlreadyFused,
    ensures
        module_a_of(h, conns[i]) is Some,
        module_b_of(h, conns[i]) is Some,
        ({
            let fusions = wiring_fusions(h, conns);
            let ra = fusion_root_walk(h, fusions, module_a_of(h, conns[i])->0 as int, budget_a);
            let rb = fusion_root_walk(h, fusions, module_b_of(h, conns[i])->0 as int, budget_b);
            ra is Some && rb is Some ==> ra == rb
        }),
{
    let n = conns.len() as int;
    lemma_weld_pass_len(h, conns, n);
    lemma_weld_pass_history(h, conns, n);
    lemma_weld_pass_len(h, conns, i);
    let pass = weld_pass(h, conns, n);
    let before = weld_pass(h, conns, i).1;
    let fusions = pass.1;
    assert(pass.0[i] == weld_step(h, conns[i], before));
    let step = pass.0[i];
    assert(step is Some) by {
        if step is None {
            assert(wiring_plan(h, conns)[i] == (if any_welded(pass.0) {
                PlannedConnectionModel::Unresolved
            } else {
                hinge_step(h, conns[i], fusions)
            }));
            reveal(hinge_step);
        }
    }
    assert(wiring_plan(h, conns)[i] == step->0);
    lemma_weld_step_roots(h, conns[i], before);
    let a = module_a_of(h, conns[i])->0 as int;
    let b = module_b_of(h, conns[i])->0 as int;
    lookup::lemma_module_lookup_found(h, conns[i].vehicle_root as int, conns[i].connection.module_a@);
    lookup::lemma_module_lookup_found(h, conns[i].vehicle_root as int, conns[i].connection.module_b@);
    lemma_weld_pass_extends(h, conns, i, n);
    let ra = fusion_root_walk(h, fusions, a, budget_a);
    let rb = fusion_root_walk(h, fusions, b, budget_b);
    if ra is Some && rb is Some {
        let root_a = fusion_root(h, before, a)->0 as int;
        let root_b = fusion_root(h, before, b)->0 as int;
        lemma_fusion_root_is_unabsorbed_body(h, before, a, FUSION_ROOT_SEARCH_LIMIT as nat);
        lemma_fusion_root_walk_passes_through(
            h,
            before,
            fusions,
            a,
            FUSION_ROOT_SEARCH_LIMIT as nat,
            budget_a,
        );
        lemma_fusion_root_walk_passes_through(
            h,
            before,
            fusions,
            b,
            FUSION_ROOT_SEARCH_LIMIT as nat,
            budget_b,
        );
        let ta = choose|t: nat| fusion_root_walk(h, fusions, root_a, t) == ra;
        let tb = choose|t: nat| fusion_root_walk(h, fusions, root_b, t) == rb;
        if step->0 is Welded {
            lemma_weld_pass_keeps_fusion(h, conns, i, n);
            assert(fusions[root_b] == Some(root_a as usize));
            assert(fusion_root_walk(h, fusions, root_b, tb) == fusion_root_walk(
                h,
                fusions,
                root_a,
                (tb - 1) as nat,
            ));
            lemma_fusion_root_walk_deterministic(h, fusions, root_a, ta, (tb - 1) as nat);
        } else {
            assert(root_a == root_b);
            lemma_fusion_root_walk_deterministic(h, fusions, root_a, ta, tb);
        }
    }
}

proof fn lemma_weld_step_never_hinges(h: VehicleHierarchy, c: PendingConnection, pending: Seq<Option<usize>>)
    ensures
        !(weld_step(h, c, pending) matches Some(PlannedConnectionModel::Hinged { .. })),
        weld_step(h, c, pending) is None ==> module_a_of(h, c) is Some && module_b_of(h, c)
            is Some,
{
    reveal(weld_step);
    reveal(weld_step_found);
    reveal(weld_step_with_sockets);
}

/// A hinge is only planned in a frame that welds nothing, so it always joins
/// final fusion roots: a frame's plan never holds both a weld and a hinge, a
/// frame that plans a hinge decides no fusion, and the two bodies a hinge
/// joins each carry their own rigid body.
pub proof fn law_hinges_wait_for_a_frame_without_welds(
    h: VehicleHierarchy,
    conns: Seq<PendingConnection>,
    i: int,
    j: int,
)
    requires
        h.wf(),
        connections_wf(h, conns),
        0 <= i < conns.len(),
        0 <= j < conns.len(),
        wiring_plan(h, conns)[j] is Hinged,
    ensures
        !(wiring_plan(h, conns)[i] is Welded),
        wiring_fusions(h, conns) == no_fusions(h.entities.len() as nat),
        ({
            let hinge = wiring_plan(h, conns)[j];
            &&& hinge->chassis_root < h.entities.len()
            &&& hinge->wheel_root < h.entities.len()
            &&& h.entities[hinge->chassis_root as int].has_rigid_body
            &&& h.entities[hinge->wheel_root as int].has_rigid_body
        }),
{
    let n = conns.len() as int;
    lemma_weld_pass_len(h, conns, n);
    lemma_weld_pass_history(h, conns, n);
    let pass = weld_pass(h, conns, n);
    let steps = pass.0;
    let fusions = pass.1;
    lemma_weld_pass_len(h, conns, j);
    lemma_weld_step_never_hinges(h, conns[j], weld_pass(h, conns, j).1);
    assert(steps[j] == weld_step(h, conns[j], weld_pass(h, conns, j).1));
    assert(steps[j] is None);
    assert(!any_welded(steps));
    assert(fusions == no_fusions(h.entities.len() as nat));
    lemma_weld_pass_len(h, conns, i);
    lemma_weld_step_never_hinges(h, conns[i], weld_pass(h, conns, i).1);
    assert(steps[i] == weld_step(h, conns[i], weld_pass(h, conns, i).1));
    reveal(hinge_step);
    if steps[i] is None {
        assert(wiring_plan(h, conns)[i] == hinge_step(h, conns[i], fusions));
    } else {
        assert(!(steps[i] matches Some(PlannedConnectionModel::Welded { .. })));
    }
    let c = conns[j];
    let root = c.vehicle_root as int;
    let a = lookup::module_lookup(h, root, c.connection.module_a@)->0 as int;
    let b = lookup::module_lookup(h, root, c.connection.module_b@)->0 as int;
    lookup::lemma_module_lookup_found(h, root, c.connection.module_a@);
    lookup::lemma_module_lookup_found(h, root, c.connection.module_b@);
    lemma_fusion_root_is_unabsorbed_body(h, fusions, a, FUSION_ROOT_SEARCH_LIMIT as nat);
    lemma_fusion_root_is_unabsorbed_body(h, fusions, b, FUSION_ROOT_SEARCH_LIMIT as nat);
    assert(wiring_plan(h, conns)[j] == hinge_step(h, c, fusions));
}

} // verus!
