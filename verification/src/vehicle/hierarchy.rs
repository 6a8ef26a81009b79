//! A snapshot of the entities one vehicle's connection wiring looks at.
//!
//! Entities are numbered by their position in [`VehicleHierarchy::entities`];
//! the snapshot lists them in the hierarchy's breadth-first order, so "first
//! in snapshot order" is "first in breadth-first order".
use vstd::prelude::*;

verus! {

/// Marks a child entity of a module's root as a named attachment point, with
/// whichever joint-type components it carries.
pub struct LastBeaconVehicleModuleSocket {
    /// Name used by a connection to reference this socket.
    pub socket_name: String,
    /// Whether the socket carries a fixed-joint (weld) component.
    pub has_fixed_joint: bool,
    /// Whether the socket carries a hinge-joint component.
    pub has_hinge_joint: bool,
}

/// A named module instance placed in a vehicle.
pub struct VehicleModuleInstance {
    /// The instance's `Name`, by which connections refer to it.
    pub name: String,
    /// Whether the module's own content is still loading.
    pub is_pending: bool,
}

/// One entity of the snapshot.
pub struct VehicleEntity {
    /// Index of the entity's parent, if it has one.
    pub parent: Option<usize>,
    /// Present when the entity is a named module instance.
    pub module_instance: Option<VehicleModuleInstance>,
    /// Present when the entity is a socket.
    pub socket: Option<LastBeaconVehicleModuleSocket>,
    /// Whether the entity currently has its own rigid body.
    pub has_rigid_body: bool,
    /// Whether the entity has a `Transform`.
    pub has_transform: bool,
}

/// Every entity the wiring may look at, in breadth-first order.
pub struct VehicleHierarchy {
    pub entities: Vec<VehicleEntity>,
}

impl VehicleHierarchy {
    /// Every parent index names an entity of the snapshot.
    pub open spec fn wf(&self) -> bool {
        forall|e: int|
            0 <= e < self.entities.len() ==> match #[trigger] self.entities[e].parent {
                Some(p) => p < self.entities.len(),
                None => true,
            }
    }

    pub open spec fn parent_of(&self, e: int) -> Option<usize> {
        self.entities[e].parent
    }

    /// `e` lies below `root`, reached by following at most `fuel` parent links.
    pub open spec fn is_descendant_within(&self, e: int, root: int, fuel: nat) -> bool
        decreases fuel,
    {
        if fuel == 0 {
            false
        } else {
            match self.parent_of(e) {
                Some(p) => p == root || self.is_descendant_within(p as int, root, (fuel - 1) as nat),
                None => false,
            }
        }
    }

    /// `e` lies below `root` (an ancestor chain never repeats an entity, so the
    /// number of entities bounds its length).
    pub open spec fn is_descendant(&self, e: int, root: int) -> bool {
        self.is_descendant_within(e, root, self.entities.len() as nat)
    }

    /// `path` walks parent links from `from` to `to`: it starts at `from`, ends
    /// at `to`, and each entry but the last is an entity of the snapshot whose
    /// parent is the next entry.
    pub open spec fn is_parent_path(&self, path: Seq<usize>, from: int, to: int) -> bool {
        &&& path.len() >= 2
        &&& path[0] as int == from
        &&& path.last() as int == to
        &&& forall|k: int|
            0 <= k < path.len() - 1 ==> (#[trigger] path[k] as int) < self.entities.len()
                && self.entities[path[k] as int].parent == Some(path[k + 1])
    }

    /// Following parent links from `from` reaches `to`: `to` is among the
    /// ancestors of `from`.
    pub open spec fn reaches(&self, from: int, to: int) -> bool {
        exists|path: Seq<usize>| #[trigger] self.is_parent_path(path, from, to)
    }

    /// `e` is a module instance below `root` named `name`.
    pub open spec fn is_named_module(&self, root: int, e: int, name: Seq<char>) -> bool {
        &&& 0 <= e < self.entities.len()
        &&& self.is_descendant(e, root)
        &&& self.entities[e].module_instance is Some
        &&& self.entities[e].module_instance->0.name@ == name
    }

    /// `e` is a direct child socket of `module` named `name`.
    pub open spec fn is_named_socket(&self, module: int, e: int, name: Seq<char>) -> bool {
        &&& 0 <= e < self.entities.len()
        &&& self.entities[e].parent == Some(module as usize)
        &&& self.entities[e].socket is Some
        &&& self.entities[e].socket->0.socket_name@ == name
    }

    /// The names of the module instances below `root` among the first `k` entities.
    pub open spec fn module_tags_upto(&self, root: int, k: int) -> Seq<Seq<char>>
        decreases k,
    {
        if k <= 0 {
            Seq::empty()
        } else {
            let before = self.module_tags_upto(root, k - 1);
            let e = k - 1;
            if self.is_descendant(e, root) && self.entities[e].module_instance is Some {
                before.push(self.entities[e].module_instance->0.name@)
            } else {
                before
            }
        }
    }

    /// The names of every module instance below `root`, in snapshot order.
    pub open spec fn module_tags(&self, root: int) -> Seq<Seq<char>> {
        self.module_tags_upto(root, self.entities.len() as int)
    }

    /// The names of the sockets directly under `module` among the first `k` entities.
    pub open spec fn socket_names_upto(&self, module: int, k: int) -> Seq<Seq<char>>
        decreases k,
    {
        if k <= 0 {
            Seq::empty()
        } else {
            let before = self.socket_names_upto(module, k - 1);
            let e = k - 1;
            if self.entities[e].parent == Some(module as usize) && self.entities[e].socket is Some {
                before.push(self.entities[e].socket->0.socket_name@)
            } else {
                before
            }
        }
    }

    /// The names of every socket directly under `module`, in snapshot order.
    pub open spec fn socket_names(&self, module: int) -> Seq<Seq<char>> {
        self.socket_names_upto(module, self.entities.len() as int)
    }

    proof fn lemma_within_has_path(&self, e: int, root: int, fuel: nat)
        requires
            self.wf(),
            0 <= e < self.entities.len(),
            self.is_descendant_within(e, root, fuel),
        ensures
            exists|path: Seq<usize>| #[trigger]
                self.is_parent_path(path, e, root) && path.len() <= fuel + 1,
        decreases fuel,
    {
        let p = self.parent_of(e)->0;
        if p as int == root {
            let path = seq![e as usize, p];
            assert(self.is_parent_path(path, e, root));
        } else {
            self.lemma_within_has_path(p as int, root, (fuel - 1) as nat);
            let rest = choose|path: Seq<usize>| #[trigger]
                self.is_parent_path(path, p as int, root) && path.len() <= fuel;
            let path = seq![e as usize] + rest;
            assert forall|k: int| 0 <= k < path.len() - 1 implies (#[trigger] path[k] as int)
                < self.entities.len() && self.entities[path[k] as int].parent == Some(
                path[k + 1],
            ) by {
                if k > 0 {
                    assert(path[k] == rest[k - 1]);
                    assert(path[k + 1] == rest[k]);
                    assert((rest[k - 1] as int) < self.entities.len());
                }
            }
            assert(self.is_parent_path(path, e, root));
        }
    }

    proof fn lemma_path_within(&self, path: Seq<usize>, e: int, root: int, fuel: nat)
        requires
            self.is_parent_path(path, e, root),
            path.len() <= fuel + 1,
        ensures
            self.is_descendant_within(e, root, fuel),
        decreases path.len(),
    {
        assert((path[0] as int) < self.entities.len());
        if path[1] as int != root {
            let rest = path.drop_first();
            assert forall|k: int| 0 <= k < rest.len() - 1 implies (#[trigger] rest[k] as int)
                < self.entities.len() && self.entities[rest[k] as int].parent == Some(
                rest[k + 1],
            ) by {
                assert(path[k + 1] == rest[k]);
            }
            self.lemma_path_within(rest, path[1] as int, root, (fuel - 1) as nat);
        }
    }

    proof fn lemma_repeat_in_bounded_indices(s: Seq<int>, n: int)
        requires
            n >= 0,
            s.len() == n + 1,
            forall|k: int| 0 <= k < s.len() ==> 0 <= #[trigger] s[k] < n,
        ensures
            exists|i: int, j: int| 0 <= i < j < s.len() && #[trigger] s[i] == #[trigger] s[j],
    {
        if s.no_duplicates() {
            s.unique_seq_to_set();
            vstd::set_lib::lemma_int_range(0, n);
            assert(s.to_set().subset_of(vstd::set_lib::set_int_range(0, n)));
            vstd::set_lib::lemma_len_subset(s.to_set(), vstd::set_lib::set_int_range(0, n));
        } else {
            let (i, j) = choose|i: int, j: int|
                0 <= i < s.len() && 0 <= j < s.len() && i != j && s[i] == s[j];
            if i < j {
                assert(s[i] == s[j]);
            } else {
                assert(s[j] == s[i]);
            }
        }
    }

    proof fn lemma_short_path(&self, path: Seq<usize>, e: int, root: int)
        requires
            self.is_parent_path(path, e, root),
        ensures
            exists|short: Seq<usize>| #[trigger]
                self.is_parent_path(short, e, root) && short.len() <= self.entities.len() + 1,
        decreases path.len(),
    {
        let n = self.entities.len() as int;
        if path.len() > n + 1 {
            let s = path.take(n + 1).map_values(|x: usize| x as int);
            assert forall|k: int| 0 <= k < s.len() implies 0 <= #[trigger] s[k] < n by {
                assert((path[k] as int) < n);
            }
            Self::lemma_repeat_in_bounded_indices(s, n);
            let (i, j) = choose|i: int, j: int| 0 <= i < j < s.len() && #[trigger] s[i] == #[trigger] s[j];
            assert(path[i] == path[j]);
            let short = path.take(i) + path.skip(j);
            assert(short.len() == path.len() - (j - i));
            assert(short.last() == path.last());
            assert(short[0] == path[0]);
            assert forall|k: int| 0 <= k < short.len() - 1 implies (#[trigger] short[k] as int)
                < self.entities.len() && self.entities[short[k] as int].parent == Some(
                short[k + 1],
            ) by {
                if k < i - 1 {
                    assert(short[k] == path[k] && short[k + 1] == path[k + 1]);
                } else if k == i - 1 {
                    assert(short[k] == path[k] && short[k + 1] == path[j]);
                } else {
                    assert(short[k] == path[j + k - i] && short[k + 1] == path[j + k - i + 1]);
                }
            }
            assert(self.is_parent_path(short, e, root));
            self.lemma_short_path(short, e, root);
        } else {
            assert(self.is_parent_path(path, e, root) && path.len() <= n + 1);
        }
    }

    /// `e` lies below `root` exactly when following parent links from `e`
    /// reaches `root`.
    pub proof fn law_descendants_are_reached_by_parent_links(&self, e: int, root: int)
        requires
            self.wf(),
            0 <= e < self.entities.len(),
        ensures
            self.is_descendant(e, root) <==> self.reaches(e, root),
    {
        if self.is_descendant(e, root) {
            self.lemma_within_has_path(e, root, self.entities.len() as nat);
        }
        if self.reaches(e, root) {
            let path = choose|path: Seq<usize>| #[trigger] self.is_parent_path(path, e, root);
            self.lemma_short_path(path, e, root);
            let short = choose|short: Seq<usize>| #[trigger]
                self.is_parent_path(short, e, root) && short.len() <= self.entities.len() + 1;
            self.lemma_path_within(short, e, root, self.entities.len() as nat);
        }
    }

    /// Whether `e` lies below `root`.
    pub fn is_descendant_of(&self, e: usize, root: usize) -> (r: bool)
        requires
            self.wf(),
            e < self.entities.len(),
        ensures
            r == self.is_descendant(e as int, root as int),
            r == self.reaches(e as int, root as int),
    {
        proof {
            self.law_descendants_are_reached_by_parent_links(e as int, root as int);
        }
        let n = self.entities.len();
        let mut current = e;
        let mut fuel = n;
        while fuel > 0
            invariant
                self.wf(),
                n == self.entities.len(),
                current < n,
                fuel <= n,
                self.is_descendant(e as int, root as int) == self.reaches(e as int, root as int),
                self.is_descendant(e as int, root as int) == self.is_descendant_within(
                    current as int,
                    root as int,
                    fuel as nat,
                ),
            decreases fuel,
        {
            match self.entities[current].parent {
                Some(p) => {
                    if p == root {
                        return true;
                    }
                    current = p;
                    fuel = fuel - 1;
                },
                None => {
                    return false;
                },
            }
        }
        false
    }
}

} // verus!
