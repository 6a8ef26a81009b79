//! Finding a connection's named modules and sockets, and wording why one
//! could not be found.
use vstd::prelude::*;

use crate::text::str_eq;
use crate::vehicle::hierarchy::VehicleHierarchy;

verus! {

/// `names` joined with `separator` between consecutive names.
pub open spec fn joined(names: Seq<Seq<char>>, separator: Seq<char>) -> Seq<char>
    decreases names.len(),
{
    if names.len() == 0 {
        Seq::empty()
    } else if names.len() == 1 {
        names[0]
    } else {
        joined(names.drop_last(), separator) + separator + names.last()
    }
}

/// A candidate-name list as it appears in a warning: `"none"` when empty,
/// otherwise the names separated by `", "`.
pub open spec fn name_list_text(names: Seq<Seq<char>>) -> Seq<char> {
    if names.len() == 0 {
        "none"@
    } else {
        joined(names, ", "@)
    }
}

/// Why a named socket could not be used.
#[derive(Clone, Copy, PartialEq, Eq, Debug)]
pub enum SocketLookupError {
    /// No child of the module is a socket with this name.
    NotFound,
    /// The socket carries neither a fixed-joint nor a hinge-joint component.
    NoJointType,
    /// The socket carries both a fixed-joint and a hinge-joint component.
    ConflictingJointTypes,
}

/// A socket resolved by name: its entity, and whether it is a hinge.
#[derive(Clone, Copy, PartialEq, Eq, Debug)]
pub struct ResolvedSocket {
    pub entity: usize,
    pub is_hinge: bool,
}

/// The first socket named `name` directly under `module`, from entity `k` on.
pub open spec fn first_named_socket_from(h: VehicleHierarchy, module: int, name: Seq<char>, k: int) -> Option<
    usize,
>
    decreases h.entities.len() - k,
{
    if k < 0 || k >= h.entities.len() {
        None
    } else if h.is_named_socket(module, k, name) {
        Some(k as usize)
    } else {
        first_named_socket_from(h, module, name, k + 1)
    }
}

/// The outcome of looking up socket `name` on `module`: the first matching
/// child socket in snapshot order, classified by its joint-type components.
#[verifier::opaque]
pub open spec fn socket_lookup(h: VehicleHierarchy, module: int, name: Seq<char>) -> Result<
    ResolvedSocket,
    SocketLookupError,
> {
    match first_named_socket_from(h, module, name, 0) {
        Some(e) => {
            let socket = h.entities[e as int].socket->0;
            if socket.has_fixed_joint && !socket.has_hinge_joint {
                Ok(ResolvedSocket { entity: e, is_hinge: false })
            } else if !socket.has_fixed_joint && socket.has_hinge_joint {
                Ok(ResolvedSocket { entity: e, is_hinge: true })
            } else if !socket.has_fixed_joint && !socket.has_hinge_joint {
                Err(SocketLookupError::NoJointType)
            } else {
                Err(SocketLookupError::ConflictingJointTypes)
            }
        },
        None => Err(SocketLookupError::NotFound),
    }
}

/// The warning text for a failed socket lookup.
pub open spec fn socket_error_text(
    error: SocketLookupError,
    socket_name: Seq<char>,
    module_name: Seq<char>,
    available: Seq<Seq<char>>,
) -> Seq<char> {
    match error {
        SocketLookupError::NotFound => "socket `"@ + socket_name + "` not found on module `"@
            + module_name + "` (available sockets: "@ + name_list_text(available) + ")"@,
        SocketLookupError::NoJointType => "socket `"@ + socket_name + "` on module `"@
            + module_name
            + "`: it carries neither LastBeaconVehicleFixedJoint nor LastBeaconVehicleHingeJoint"@,
        SocketLookupError::ConflictingJointTypes => "socket `"@ + socket_name + "` on module `"@
            + module_name
            + "`: it carries both LastBeaconVehicleFixedJoint and LastBeaconVehicleHingeJoint"@,
    }
}

/// The warning text for a module name that matched no module instance.
pub open spec fn missing_module_text(module_name: Seq<char>, available: Seq<Seq<char>>) -> Seq<
    char,
> {
    "module `"@ + module_name + "` not found (available modules: "@ + name_list_text(available)
        + ")"@
}

/// The first module instance below `root` named `name`, from entity `k` on.
pub open spec fn first_named_module_from(h: VehicleHierarchy, root: int, name: Seq<char>, k: int) -> Option<
    usize,
>
    decreases h.entities.len() - k,
{
    if k < 0 || k >= h.entities.len() {
        None
    } else if h.is_named_module(root, k, name) {
        Some(k as usize)
    } else {
        first_named_module_from(h, root, name, k + 1)
    }
}

/// The first module instance below `root` (in breadth-first order) named `name`.
pub open spec fn module_lookup(h: VehicleHierarchy, root: int, name: Seq<char>) -> Option<usize> {
    first_named_module_from(h, root, name, 0)
}

proof fn lemma_first_named_module_from(h: VehicleHierarchy, root: int, name: Seq<char>, k: int)
    requires
        0 <= k,
    ensures
        first_named_module_from(h, root, name, k) matches Some(e) ==> k <= e && h.is_named_module(
            root,
            e as int,
            name,
        ) && forall|j: int| k <= j < e ==> !h.is_named_module(root, j, name),
        first_named_module_from(h, root, name, k) is None ==> forall|j: int|
            k <= j ==> !h.is_named_module(root, j, name),
    decreases h.entities.len() - k,
{
    if k < h.entities.len() && !h.is_named_module(root, k, name) {
        lemma_first_named_module_from(h, root, name, k + 1);
    }
}

proof fn lemma_first_named_socket_from(h: VehicleHierarchy, module: int, name: Seq<char>, k: int)
    requires
        0 <= k,
    ensures
        first_named_socket_from(h, module, name, k) matches Some(e) ==> k <= e && h.is_named_socket(
            module,
            e as int,
            name,
        ) && forall|j: int| k <= j < e ==> !h.is_named_socket(module, j, name),
        first_named_socket_from(h, module, name, k) is None ==> forall|j: int|
            k <= j ==> !h.is_named_socket(module, j, name),
    decreases h.entities.len() - k,
{
    if k < h.entities.len() && !h.is_named_socket(module, k, name) {
        lemma_first_named_socket_from(h, module, name, k + 1);
    }
}

/// A found module instance is an entity of the snapshot.
pub proof fn lemma_module_lookup_found(h: VehicleHierarchy, root: int, name: Seq<char>)
    ensures
        module_lookup(h, root, name) matches Some(e) ==> h.is_named_module(root, e as int, name),
{
    lemma_first_named_module_from(h, root, name, 0);
}

proof fn lemma_descendants_are_reached(h: VehicleHierarchy, root: int)
    requires
        h.wf(),
    ensures
        forall|e: int|
            0 <= e < h.entities.len() ==> (h.is_descendant(e, root) <==> #[trigger] h.reaches(
                e,
                root,
            )),
{
    assert forall|e: int| 0 <= e < h.entities.len() implies (h.is_descendant(e, root)
        <==> #[trigger] h.reaches(e, root)) by {
        h.law_descendants_are_reached_by_parent_links(e, root);
    }
}

/// The names of the module instances among the first `k` entities from
/// which parent links reach `root`, in snapshot order.
pub open spec fn reached_module_names(h: VehicleHierarchy, root: int, k: int) -> Seq<Seq<char>>
    decreases k,
{
    if k <= 0 {
        Seq::empty()
    } else {
        let before = reached_module_names(h, root, k - 1);
        if h.reaches(k - 1, root) && h.entities[k - 1].module_instance is Some {
            before.push(h.entities[k - 1].module_instance->0.name@)
        } else {
            before
        }
    }
}

/// The candidate modules listed for a vehicle root are exactly the module
/// instances whose ancestors include that root, in snapshot order: an
/// entity from which parent links do not reach the root is never listed.
pub proof fn law_listed_modules_lie_below_the_vehicle_root(h: VehicleHierarchy, root: int, k: int)
    requires
        h.wf(),
        k <= h.entities.len(),
    ensures
        h.module_tags_upto(root, k) == reached_module_names(h, root, k),
    decreases k,
{
    if k > 0 {
        law_listed_modules_lie_below_the_vehicle_root(h, root, k - 1);
        h.law_descendants_are_reached_by_parent_links(k - 1, root);
    }
}

/// Finds the first module instance (in breadth-first order) below
/// `vehicle_root` whose name is `instance_name`, however many fusions deep
/// it is nested.
pub fn find_named_module_instance(h: &VehicleHierarchy, vehicle_root: usize, instance_name: &str)
    -> (r: Option<usize>)
    requires
        h.wf(),
    ensures
        r == module_lookup(*h, vehicle_root as int, instance_name@),
        match r {
            Some(e) => h.is_named_module(vehicle_root as int, e as int, instance_name@) && forall|
                j: int,
            |
                0 <= j < e ==> !h.is_named_module(vehicle_root as int, j, instance_name@),
            None => forall|j: int| !h.is_named_module(vehicle_root as int, j, instance_name@),
        },
        r matches Some(m) ==> m < h.entities.len() && h.reaches(m as int, vehicle_root as int)
            && h.entities[m as int].module_instance is Some
            && h.entities[m as int].module_instance->0.name@ == instance_name@,
        forall|e: int|
            0 <= e < h.entities.len() && h.entities[e].module_instance is Some
                && h.entities[e].module_instance->0.name@ == instance_name@ && #[trigger] h.reaches(
                e,
                vehicle_root as int,
            ) ==> r is Some && r->0 <= e,
{
    proof {
        lemma_first_named_module_from(*h, vehicle_root as int, instance_name@, 0);
        lemma_descendants_are_reached(*h, vehicle_root as int);
    }
    let mut e: usize = 0;
    while e < h.entities.len()
        invariant
            h.wf(),
            e <= h.entities.len(),
            forall|j: int| 0 <= j < e ==> !h.is_named_module(vehicle_root as int, j, instance_name@),
            forall|j: int|
                0 <= j < h.entities.len() ==> (h.is_descendant(j, vehicle_root as int)
                    <==> #[trigger] h.reaches(j, vehicle_root as int)),
            module_lookup(*h, vehicle_root as int, instance_name@) == first_named_module_from(
                *h,
                vehicle_root as int,
                instance_name@,
                e as int,
            ),
        decreases h.entities.len() - e,
    {
        match &h.entities[e].module_instance {
            Some(instance) => {
                if str_eq(instance.name.as_str(), instance_name) && h.is_descendant_of(
                    e,
                    vehicle_root,
                ) {
                    proof {
                        assert forall|j: int|
                            0 <= j < h.entities.len() && h.entities[j].module_instance is Some
                                && h.entities[j].module_instance->0.name@ == instance_name@
                                && #[trigger] h.reaches(j, vehicle_root as int) implies e <= j by {
                            if j < e {
                                assert(h.is_named_module(vehicle_root as int, j, instance_name@));
                            }
                        }
                    }
                    return Some(e);
                }
            },
            None => {},
        }
        e = e + 1;
    }
    proof {
        assert forall|j: int|
            0 <= j < h.entities.len() && h.entities[j].module_instance is Some
                && h.entities[j].module_instance->0.name@ == instance_name@
                && #[trigger] h.reaches(j, vehicle_root as int) implies false by {
            assert(h.is_named_module(vehicle_root as int, j, instance_name@));
        }
    }
    None
}

/// The name of every module instance below `vehicle_root`, in breadth-first
/// order -- the candidates listed in a "module not found" warning.
pub fn collect_vehicle_module_tags(h: &VehicleHierarchy, vehicle_root: usize) -> (r: Vec<String>)
    requires
        h.wf(),
    ensures
        r@.map_values(|s: String| s@) == h.module_tags(vehicle_root as int),
        r@.map_values(|s: String| s@) == reached_module_names(
            *h,
            vehicle_root as int,
            h.entities.len() as int,
        ),
{
    proof {
        law_listed_modules_lie_below_the_vehicle_root(
            *h,
            vehicle_root as int,
            h.entities.len() as int,
        );
    }
    let mut tags: Vec<String> = Vec::new();
    let mut e: usize = 0;
    while e < h.entities.len()
        invariant
            h.wf(),
            e <= h.entities.len(),
            tags@.map_values(|s: String| s@) == h.module_tags_upto(vehicle_root as int, e as int),
        decreases h.entities.len() - e,
    {
        let ghost before = tags@;
        match &h.entities[e].module_instance {
            Some(instance) => {
                if h.is_descendant_of(e, vehicle_root) {
                    tags.push(instance.name.clone());
                    assert(tags@.map_values(|s: String| s@) =~= before.map_values(|s: String| s@).push(
                        instance.name@,
                    ));
                }
            },
            None => {},
        }
        e = e + 1;
    }
    tags
}

/// The name of every socket directly under `module`, in order -- the
/// candidates listed in a "socket not found" warning.
pub fn collect_module_socket_names(h: &VehicleHierarchy, module: usize) -> (r: Vec<String>)
    requires
        h.wf(),
    ensures
        r@.map_values(|s: String| s@) == h.socket_names(module as int),
{
    let mut names: Vec<String> = Vec::new();
    let mut e: usize = 0;
    while e < h.entities.len()
        invariant
            h.wf(),
            e <= h.entities.len(),
            names@.map_values(|s: String| s@) == h.socket_names_upto(module as int, e as int),
        decreases h.entities.len() - e,
    {
        let ghost before = names@;
        if h.entities[e].parent == Some(module) {
            match &h.entities[e].socket {
                Some(socket) => {
                    names.push(socket.socket_name.clone());
                    assert(names@.map_values(|s: String| s@) =~= before.map_values(
                        |s: String| s@,
                    ).push(socket.socket_name@));
                },
                None => {},
            }
        }
        e = e + 1;
    }
    names
}

/// Formats a candidate-name list for a warning, e.g. `"front, back, left"`,
/// or `"none"` if empty.
pub fn format_name_list(names: &Vec<String>) -> (r: String)
    ensures
        r@ == name_list_text(names@.map_values(|s: String| s@)),
{
    let ghost views = names@.map_values(|s: String| s@);
    if names.len() == 0 {
        return String::from_str("none");
    }
    let mut out = names[0].clone();
    let mut i: usize = 1;
    assert(views.take(1) =~= seq![views[0]]);
    while i < names.len()
        invariant
            1 <= i <= names.len(),
            views == names@.map_values(|s: String| s@),
            out@ == joined(views.take(i as int), ", "@),
        decreases names.len() - i,
    {
        out.append(", ");
        out.append(names[i].as_str());
        assert(views.take(i as int + 1).drop_last() =~= views.take(i as int));
        i = i + 1;
    }
    assert(views.take(names.len() as int) =~= views);
    out
}

/// Describes why socket `socket_name` on module `module_name` could not be
/// used, listing the module's actual socket names when it simply was not found.
pub fn describe_socket_lookup_error(
    lookup_error: SocketLookupError,
    socket_name: &str,
    module_name: &str,
    h: &VehicleHierarchy,
    module: usize,
) -> (r: String)
    requires
        h.wf(),
    ensures
        r@ == socket_error_text(lookup_error, socket_name@, module_name@, h.socket_names(module as int)),
{
    let mut out = String::from_str("socket `");
    out.append(socket_name);
    match lookup_error {
        SocketLookupError::NotFound => {
            let available = collect_module_socket_names(h, module);
            out.append("` not found on module `");
            out.append(module_name);
            out.append("` (available sockets: ");
            out.append(format_name_list(&available).as_str());
            out.append(")");
        },
        SocketLookupError::NoJointType => {
            out.append("` on module `");
            out.append(module_name);
            out.append(
                "`: it carries neither LastBeaconVehicleFixedJoint nor LastBeaconVehicleHingeJoint",
            );
        },
        SocketLookupError::ConflictingJointTypes => {
            out.append("` on module `");
            out.append(module_name);
            out.append(
                "`: it carries both LastBeaconVehicleFixedJoint and LastBeaconVehicleHingeJoint",
            );
        },
    }
    out
}

/// Describes a module name that matched no module instance below `vehicle_root`.
pub fn describe_missing_module(h: &VehicleHierarchy, vehicle_root: usize, module_name: &str) -> (r:
    String)
    requires
        h.wf(),
    ensures
        r@ == missing_module_text(module_name@, h.module_tags(vehicle_root as int)),
{
    let available = collect_vehicle_module_tags(h, vehicle_root);
    let mut out = String::from_str("module `");
    out.append(module_name);
    out.append("` not found (available modules: ");
    out.append(format_name_list(&available).as_str());
    out.append(")");
    out
}

/// Resolves socket `socket_name` among `module`'s direct children: the first
/// such socket, which must carry exactly one joint-type component.
pub fn find_named_socket(h: &VehicleHierarchy, module: usize, socket_name: &str) -> (r: Result<
    ResolvedSocket,
    SocketLookupError,
>)
    requires
        h.wf(),
    ensures
        r == socket_lookup(*h, module as int, socket_name@),
        r matches Ok(socket) ==> socket.entity < h.entities.len(),
{
    proof {
        reveal(socket_lookup);
    }
    let mut e: usize = 0;
    while e < h.entities.len()
        invariant
            h.wf(),
            e <= h.entities.len(),
            first_named_socket_from(*h, module as int, socket_name@, 0) == first_named_socket_from(
                *h,
                module as int,
                socket_name@,
                e as int,
            ),
        decreases h.entities.len() - e,
    {
        if h.entities[e].parent == Some(module) {
            match &h.entities[e].socket {
                Some(socket) => {
                    if str_eq(socket.socket_name.as_str(), socket_name) {
                        proof {
                            reveal(socket_lookup);
                        }
                        return if socket.has_fixed_joint && !socket.has_hinge_joint {
                            Ok(ResolvedSocket { entity: e, is_hinge: false })
                        } else if !socket.has_fixed_joint && socket.has_hinge_joint {
                            Ok(ResolvedSocket { entity: e, is_hinge: true })
                        } else if !socket.has_fixed_joint && !socket.has_hinge_joint {
                            Err(SocketLookupError::NoJointType)
                        } else {
                            Err(SocketLookupError::ConflictingJointTypes)
                        };
                    }
                },
                None => {},
            }
        }
        e = e + 1;
    }
    Err(SocketLookupError::NotFound)
}

} // verus!
