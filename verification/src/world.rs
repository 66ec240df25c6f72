//! Live-type computation and the import/export purge.
//!
//! Generation names every type reachable from the functions and interfaces
//! being generated, in dependency order; the table is topologically sorted,
//! so one downward closure pass computes the transitive closure. When an
//! interface is both imported and exported in one world, the same type
//! identity backs both occurrences: after import processing, every
//! import-side entry that no export reaches is purged, and so is everything
//! an exported interface owns itself, so the export can define it anew.

use crate::err::GenError;
use crate::gen::Pascal;
use crate::wit::{Function, Handle, Resolve, Type, TypeDefKind, TypeOwner, WorldItem};
use vstd::prelude::*;

verus! {

/// How many type references the members of `k` can carry.
pub open spec fn kind_member_count(k: TypeDefKind) -> int {
    match k {
        TypeDefKind::Record(fs) => fs.len() as int,
        TypeDefKind::Tuple(ts) => ts.len() as int,
        TypeDefKind::Variant(cs) => cs.len() as int,
        TypeDefKind::Handle(_) => 1,
        TypeDefKind::OptionOf(_) => 1,
        TypeDefKind::Alias(_) => 1,
        TypeDefKind::ListOf(_) => 1,
        TypeDefKind::ResultOf(_, _) => 2,
        _ => 0,
    }
}

/// The type-table reference carried by member `q` of `k`, if any.
pub open spec fn kind_member(k: TypeDefKind, q: int) -> Option<int> {
    match k {
        TypeDefKind::Record(fs) => match fs[q].ty {
            Type::Id(j) => Some(j as int),
            _ => None,
        },
        TypeDefKind::Tuple(ts) => match ts[q] {
            Type::Id(j) => Some(j as int),
            _ => None,
        },
        TypeDefKind::Variant(cs) => match cs[q].ty {
            Some(Type::Id(j)) => Some(j as int),
            _ => None,
        },
        TypeDefKind::Handle(h) => match h {
            Handle::Own(j) => Some(j as int),
            Handle::Borrow(j) => Some(j as int),
        },
        TypeDefKind::OptionOf(t) => match t {
            Type::Id(j) => Some(j as int),
            _ => None,
        },
        TypeDefKind::Alias(t) => match t {
            Type::Id(j) => Some(j as int),
            _ => None,
        },
        TypeDefKind::ListOf(t) => match t {
            Type::Id(j) => Some(j as int),
            _ => None,
        },
        TypeDefKind::ResultOf(ok, err) => if q == 0 {
            match ok {
                Some(Type::Id(j)) => Some(j as int),
                _ => None,
            }
        } else {
            match err {
                Some(Type::Id(j)) => Some(j as int),
                _ => None,
            }
        },
        _ => None,
    }
}

/// Whether `k` references table entry `j` directly.
pub open spec fn kind_refs(k: TypeDefKind, j: int) -> bool {
    exists|q: int| 0 <= q < kind_member_count(k) && kind_member(k, q) == Some(j)
}

/// The marks after entry `id`'s references are added (when `id` is marked).
pub open spec fn spec_mark_refs(resolve: Resolve, m: Seq<bool>, id: int) -> Seq<bool> {
    Seq::new(m.len(), |j: int| m[j] || (m[id] && kind_refs(resolve.types[id].kind, j)))
}

/// One downward pass over the table from `id` to the bottom, closing the
/// marks under references; with a topologically sorted table this is the
/// transitive closure.
pub open spec fn spec_close_from(resolve: Resolve, m: Seq<bool>, id: int) -> Seq<bool>
    decreases id + 1,
    when id < m.len()
{
    if id < 0 {
        m
    } else {
        spec_close_from(resolve, spec_mark_refs(resolve, m, id), id - 1)
    }
}

/// The set of live types: the seeds closed under type references.
pub open spec fn spec_live(resolve: Resolve, seeds: Seq<bool>) -> Seq<bool> {
    spec_close_from(resolve, seeds, seeds.len() - 1)
}

/// Whether entry `id`'s shape references entry `j`; see [`kind_refs`].
fn kind_refs_exec(resolve: &Resolve, id: usize, j: usize) -> (r: bool)
    requires
        id < resolve.types.len(),
    ensures
        r == kind_refs(resolve.types[id as int].kind, j as int),
{
    let count: usize = match &resolve.types[id].kind {
        TypeDefKind::Record(fs) => fs.len(),
        TypeDefKind::Tuple(ts) => ts.len(),
        TypeDefKind::Variant(cs) => cs.len(),
        TypeDefKind::Handle(_) => 1,
        TypeDefKind::OptionOf(_) => 1,
        TypeDefKind::Alias(_) => 1,
        TypeDefKind::ListOf(_) => 1,
        TypeDefKind::ResultOf(_, _) => 2,
        _ => 0,
    };
    proof {
        assert(count as int == kind_member_count(resolve.types[id as int].kind));
    }
    let mut q: usize = 0;
    while q < count
        invariant
            id < resolve.types.len(),
            count as int == kind_member_count(resolve.types[id as int].kind),
            forall|p: int|
                0 <= p < q ==> #[trigger] kind_member(resolve.types[id as int].kind, p) != Some(
                    j as int,
                ),
        decreases count - q,
    {
        let member: Option<usize> = match &resolve.types[id].kind {
            TypeDefKind::Record(fs) => match fs[q].ty {
                Type::Id(x) => Some(x),
                _ => None,
            },
            TypeDefKind::Tuple(ts) => match ts[q] {
                Type::Id(x) => Some(x),
                _ => None,
            },
            TypeDefKind::Variant(cs) => match cs[q].ty {
                Some(Type::Id(x)) => Some(x),
                _ => None,
            },
            TypeDefKind::Handle(h) => match h {
                Handle::Own(x) => Some(*x),
                Handle::Borrow(x) => Some(*x),
            },
            TypeDefKind::OptionOf(t) => match t {
                Type::Id(x) => Some(*x),
                _ => None,
            },
            TypeDefKind::Alias(t) => match t {
                Type::Id(x) => Some(*x),
                _ => None,
            },
            TypeDefKind::ListOf(t) => match t {
                Type::Id(x) => Some(*x),
                _ => None,
            },
            TypeDefKind::ResultOf(ok, err) => if q == 0 {
                match ok {
                    Some(Type::Id(x)) => Some(*x),
                    _ => None,
                }
            } else {
                match err {
                    Some(Type::Id(x)) => Some(*x),
                    _ => None,
                }
            },
            _ => None,
        };
        proof {
            assert(match member {
                Some(x) => kind_member(resolve.types[id as int].kind, q as int) == Some(x as int),
                None => kind_member(resolve.types[id as int].kind, q as int) is None,
            });
        }
        match member {
            Some(x) if x == j => {
                proof {
                    assert(kind_member(resolve.types[id as int].kind, q as int) == Some(j as int));
                }
                return true;
            },
            _ => {
                proof {
                    assert(kind_member(resolve.types[id as int].kind, q as int) != Some(j as int));
                }
            },
        }
        q += 1;
    }
    false
}

/// Add the references of entry `id` to the marks; see [`spec_mark_refs`].
fn mark_refs(resolve: &Resolve, marks: &mut Vec<bool>, id: usize)
    requires
        resolve.wf(),
        id < resolve.types.len(),
        old(marks)@.len() == resolve.types.len(),
    ensures
        final(marks)@ == spec_mark_refs(*resolve, old(marks)@, id as int),
{
    let ghost m0 = marks@;
    let n = marks.len();
    let on = marks[id];
    let mut updated: Vec<bool> = Vec::new();
    let mut j: usize = 0;
    while j < n
        invariant
            resolve.wf(),
            id < resolve.types.len(),
            marks@ == m0,
            n == m0.len(),
            on == m0[id as int],
            j <= n,
            updated@.len() == j,
            forall|x: int|
                0 <= x < j ==> updated@[x] == (m0[x] || (m0[id as int] && kind_refs(
                    resolve.types[id as int].kind,
                    x,
                ))),
        decreases n - j,
    {
        let v = marks[j] || (on && kind_refs_exec(resolve, id, j));
        updated.push(v);
        j += 1;
    }
    *marks = updated;
    proof {
        assert(marks@ =~= spec_mark_refs(*resolve, m0, id as int));
    }
}

/// Close the marks under type references; see [`spec_live`].
pub fn close_live(resolve: &Resolve, marks: &mut Vec<bool>)
    requires
        resolve.wf(),
        old(marks)@.len() == resolve.types.len(),
    ensures
        final(marks)@ == spec_live(*resolve, old(marks)@),
        final(marks)@.len() == old(marks)@.len(),
{
    let ghost m0 = marks@;
    let n = marks.len();
    if n == 0 {
        proof {
            assert(spec_live(*resolve, m0) =~= m0);
        }
        return ;
    }
    let mut id: usize = n;
    while id > 0
        invariant
            resolve.wf(),
            marks@.len() == m0.len(),
            m0.len() == resolve.types.len(),
            n == m0.len(),
            id <= n,
            spec_close_from(*resolve, marks@, id - 1) == spec_close_from(*resolve, m0, n - 1),
        decreases id,
    {
        let cur = id - 1;
        mark_refs(resolve, marks, cur);
        id = cur;
    }
    proof {
        assert(spec_close_from(*resolve, marks@, -1) == marks@);
    }
}

/// Whether type `j` is seeded by interface `id`: owned by it, or named in a
/// parameter or the result of one of its functions.
pub open spec fn spec_iface_seeds(resolve: Resolve, id: int, j: int) -> bool {
    ||| resolve.types[j].owner == TypeOwner::Iface(id as usize)
    ||| exists|fi: int, p: int|
        0 <= fi < resolve.interfaces[id].functions.len() && 0 <= p
            < resolve.interfaces[id].functions[fi].params.len()
            && #[trigger] resolve.interfaces[id].functions[fi].params[p].ty == Type::Id(j as usize)
    ||| exists|fi: int|
        0 <= fi < resolve.interfaces[id].functions.len()
            && #[trigger] resolve.interfaces[id].functions[fi].result == Some(Type::Id(j as usize))
}

/// Whether type `j` is named in a parameter or the result of `func`.
pub open spec fn spec_func_seeds(func: Function, j: int) -> bool {
    ||| exists|p: int|
        0 <= p < func.params.len() && #[trigger] func.params[p].ty == Type::Id(j as usize)
    ||| func.result == Some(Type::Id(j as usize))
}

/// Whether interface `id` seeds type `j`; see [`spec_iface_seeds`].
fn iface_seeds(resolve: &Resolve, id: usize, j: usize) -> (r: bool)
    requires
        id < resolve.interfaces.len(),
        j < resolve.types.len(),
    ensures
        r == spec_iface_seeds(*resolve, id as int, j as int),
{
    if matches!(resolve.types[j].owner, TypeOwner::Iface(a) if a == id) {
        proof {
            assert(resolve.types[j as int].owner == TypeOwner::Iface(id));
        }
        return true;
    }
    let nf = resolve.interfaces[id].functions.len();
    let mut fi: usize = 0;
    while fi < nf
        invariant
            id < resolve.interfaces.len(),
            nf == resolve.interfaces[id as int].functions.len(),
            forall|f2: int, p: int|
                0 <= f2 < fi && 0 <= p < resolve.interfaces[id as int].functions[f2].params.len()
                    ==> #[trigger] resolve.interfaces[id as int].functions[f2].params[p].ty
                    != Type::Id(j),
            forall|f2: int|
                0 <= f2 < fi ==> #[trigger] resolve.interfaces[id as int].functions[f2].result
                    != Some(Type::Id(j)),
        decreases nf - fi,
    {
        let np = resolve.interfaces[id].functions[fi].params.len();
        let mut p: usize = 0;
        while p < np
            invariant
                id < resolve.interfaces.len(),
                fi < resolve.interfaces[id as int].functions.len(),
                np == resolve.interfaces[id as int].functions[fi as int].params.len(),
                forall|p2: int|
                    0 <= p2 < p ==> #[trigger] resolve.interfaces[id as int].functions[
                        fi as int
                    ].params[p2].ty != Type::Id(j),
            decreases np - p,
        {
            if matches!(resolve.interfaces[id].functions[fi].params[p].ty, Type::Id(x) if x == j) {
                proof {
                    assert(resolve.interfaces[id as int].functions[fi as int].params[p as int].ty
                        == Type::Id(j));
                }
                return true;
            }
            p += 1;
        }
        if matches!(resolve.interfaces[id].functions[fi].result, Some(Type::Id(x)) if x == j) {
            proof {
                assert(resolve.interfaces[id as int].functions[fi as int].result == Some(
                    Type::Id(j),
                ));
            }
            return true;
        }
        fi += 1;
    }
    false
}

/// Whether `func` seeds type `j`; see [`spec_func_seeds`].
fn func_seeds(func: &Function, j: usize) -> (r: bool)
    ensures
        r == spec_func_seeds(*func, j as int),
{
    let np = func.params.len();
    let mut p: usize = 0;
    while p < np
        invariant
            np == func.params@.len(),
            forall|p2: int| 0 <= p2 < p ==> #[trigger] func.params@[p2].ty != Type::Id(j),
        decreases np - p,
    {
        if matches!(func.params[p].ty, Type::Id(x) if x == j) {
            proof {
                assert(func.params@[p as int].ty == Type::Id(j));
            }
            return true;
        }
        p += 1;
    }
    matches!(&func.result, Some(Type::Id(x)) if *x == j)
}

/// The live types of interface `id`: its seeds closed under references.
pub fn live_types_of_iface(resolve: &Resolve, id: usize) -> (r: Vec<bool>)
    requires
        resolve.wf(),
        id < resolve.interfaces.len(),
    ensures
        r@ == spec_live(
            *resolve,
            Seq::new(
                resolve.types.len() as nat,
                |j: int| spec_iface_seeds(*resolve, id as int, j),
            ),
        ),
        r@.len() == resolve.types.len(),
{
    let n = resolve.types.len();
    let mut seeds: Vec<bool> = Vec::new();
    let mut j: usize = 0;
    while j < n
        invariant
            resolve.wf(),
            id < resolve.interfaces.len(),
            n == resolve.types.len(),
            j <= n,
            seeds@.len() == j,
            forall|x: int| 0 <= x < j ==> seeds@[x] == spec_iface_seeds(*resolve, id as int, x),
        decreases n - j,
    {
        seeds.push(iface_seeds(resolve, id, j));
        j += 1;
    }
    proof {
        assert(seeds@ =~= Seq::new(
            resolve.types.len() as nat,
            |x: int| spec_iface_seeds(*resolve, id as int, x),
        ));
    }
    let mut live = seeds;
    close_live(resolve, &mut live);
    live
}

/// The live types of a list of bare functions.
pub fn live_types_of_funcs(resolve: &Resolve, funcs: &Vec<Function>) -> (r: Vec<bool>)
    requires
        resolve.wf(),
    ensures
        r@.len() == resolve.types.len(),
{
    let n = resolve.types.len();
    let mut seeds: Vec<bool> = Vec::new();
    let mut j: usize = 0;
    while j < n
        invariant
            resolve.wf(),
            n == resolve.types.len(),
            j <= n,
            seeds@.len() == j,
        decreases n - j,
    {
        let mut hit = false;
        let mut fi: usize = 0;
        while fi < funcs.len()
            invariant
                j < n,
            decreases funcs@.len() - fi,
        {
            if func_seeds(&funcs[fi], j) {
                hit = true;
            }
            fi += 1;
        }
        seeds.push(hit);
        j += 1;
    }
    let mut live = seeds;
    close_live(resolve, &mut live);
    live
}

/// The live types of a list of bare type identities.
pub fn live_types_of_ids(resolve: &Resolve, ids: &Vec<usize>) -> (r: Vec<bool>)
    requires
        resolve.wf(),
    ensures
        r@.len() == resolve.types.len(),
{
    let n = resolve.types.len();
    let mut seeds = vec_false(n);
    let mut i: usize = 0;
    while i < ids.len()
        invariant
            seeds@.len() == n,
        decreases ids@.len() - i,
    {
        if ids[i] < seeds.len() {
            let v = ids[i];
            seeds.set(v, true);
        }
        i += 1;
    }
    let mut live = seeds;
    close_live(resolve, &mut live);
    live
}

/// Whether `id` is exported as an interface by `world`.
pub open spec fn spec_exported_iface(resolve: Resolve, world: int, id: int) -> bool {
    exists|e: int|
        0 <= e < resolve.worlds[world].exports.len() && (#[trigger] resolve.worlds[world].exports[
            e
        ]).1 == WorldItem::Iface(id as usize)
}

fn exported_iface(resolve: &Resolve, world: usize, id: usize) -> (r: bool)
    requires
        world < resolve.worlds.len(),
    ensures
        r == spec_exported_iface(*resolve, world as int, id as int),
{
    let ne = resolve.worlds[world].exports.len();
    let mut e: usize = 0;
    while e < ne
        invariant
            world < resolve.worlds.len(),
            ne == resolve.worlds[world as int].exports.len(),
            forall|e2: int|
                0 <= e2 < e ==> (#[trigger] resolve.worlds[world as int].exports[e2]).1
                    != WorldItem::Iface(id),
        decreases ne - e,
    {
        let hit = match &resolve.worlds[world].exports[e].1 {
            WorldItem::Iface(x) => *x == id,
            _ => false,
        };
        if hit {
            proof {
                assert(resolve.worlds[world as int].exports[e as int].1 == WorldItem::Iface(id));
            }
            return true;
        }
        proof {
            assert(resolve.worlds[world as int].exports[e as int].1 != WorldItem::Iface(id));
        }
        e += 1;
    }
    false
}

/// The export-side seeds of a world: types seeded by some exported interface.
pub open spec fn spec_export_seeds(resolve: Resolve, world: int) -> Seq<bool> {
    Seq::new(
        resolve.types.len() as nat,
        |j: int|
            exists|id: int|
                0 <= id < resolve.interfaces.len() && spec_exported_iface(resolve, world, id)
                    && #[trigger] spec_iface_seeds(resolve, id, j),
    )
}

/// Whether entry `j` is owned by an interface the world exports: such an
/// entry must be defined anew, in the export namespace, during export
/// processing, so the purge never retains it.
pub open spec fn spec_export_owned(resolve: Resolve, world: int, j: int) -> bool {
    match resolve.types[j].owner {
        TypeOwner::Iface(i) => spec_exported_iface(resolve, world, i as int),
        _ => false,
    }
}

/// The import-side types that survive the purge: the types transitively
/// reachable from some exported interface, except those owned by an exported
/// interface themselves — an interface both imported and exported shares one
/// type identity for both occurrences, and the export needs its own
/// definitions.
pub open spec fn spec_import_live(resolve: Resolve, world: int) -> Seq<bool> {
    Seq::new(
        resolve.types.len() as nat,
        |j: int|
            spec_live(resolve, spec_export_seeds(resolve, world))[j] && !spec_export_owned(
                resolve,
                world,
                j,
            ),
    )
}

/// The import-owned types that exported interfaces transitively reach; see
/// [`spec_import_live`].
pub fn imported_types_used_by_exported_interfaces(resolve: &Resolve, world: usize) -> (r: Vec<
    bool,
>)
    requires
        resolve.wf(),
        world < resolve.worlds.len(),
    ensures
        r@ == spec_import_live(*resolve, world as int),
        r@.len() == resolve.types.len(),
{
    let n = resolve.types.len();
    let mut eseeds: Vec<bool> = Vec::new();
    let mut j: usize = 0;
    while j < n
        invariant
            resolve.wf(),
            world < resolve.worlds.len(),
            n == resolve.types.len(),
            j <= n,
            eseeds@.len() == j,
            forall|x: int|
                0 <= x < j ==> eseeds@[x] == spec_export_seeds(*resolve, world as int)[x],
        decreases n - j,
    {
        let mut hit = false;
        let ni = resolve.interfaces.len();
        let mut id: usize = 0;
        while id < ni
            invariant
                resolve.wf(),
                world < resolve.worlds.len(),
                j < n,
                id <= ni,
                n == resolve.types.len(),
                ni == resolve.interfaces.len(),
                hit == exists|i2: int|
                    0 <= i2 < id && spec_exported_iface(*resolve, world as int, i2)
                        && #[trigger] spec_iface_seeds(*resolve, i2, j as int),
            decreases ni - id,
        {
            if exported_iface(resolve, world, id) && iface_seeds(resolve, id, j) {
                proof {
                    assert(spec_exported_iface(*resolve, world as int, id as int)
                        && spec_iface_seeds(*resolve, id as int, j as int));
                }
                hit = true;
            }
            id += 1;
        }
        eseeds.push(hit);
        j += 1;
    }
    proof {
        assert(eseeds@ =~= spec_export_seeds(*resolve, world as int));
    }
    let mut live_export = eseeds;
    close_live(resolve, &mut live_export);
    // The export must define its own types: drop everything an exported
    // interface owns from the retained set.
    let mut out: Vec<bool> = Vec::new();
    let mut j3: usize = 0;
    while j3 < n
        invariant
            resolve.wf(),
            world < resolve.worlds.len(),
            n == resolve.types.len(),
            j3 <= n,
            out@.len() == j3,
            live_export@ == spec_live(*resolve, spec_export_seeds(*resolve, world as int)),
            live_export@.len() == n,
            forall|x: int|
                0 <= x < j3 ==> out@[x] == (live_export@[x] && !spec_export_owned(
                    *resolve,
                    world as int,
                    x,
                )),
        decreases n - j3,
    {
        let owned_by_export = match resolve.types[j3].owner {
            TypeOwner::Iface(i) => exported_iface(resolve, world, i),
            _ => false,
        };
        out.push(live_export[j3] && !owned_by_export);
        j3 += 1;
    }
    proof {
        assert(out@ =~= spec_import_live(*resolve, world as int));
    }
    out
}

/// A vector of `n` false marks.
pub fn vec_false(n: usize) -> (r: Vec<bool>)
    ensures
        r@.len() == n,
        forall|j: int| 0 <= j < n ==> !r@[j],
{
    let mut r: Vec<bool> = Vec::new();
    let mut i: usize = 0;
    while i < n
        invariant
            i <= n,
            r@.len() == i,
            forall|j: int| 0 <= j < i ==> !r@[j],
        decreases n - i,
    {
        r.push(false);
        i += 1;
    }
    r
}

impl Pascal {
    /// Remove every import-registered type, destructor and resource entry
    /// that no exported interface reaches: the same interface can be imported
    /// and exported in one world with one underlying type identity, yet each
    /// occurrence needs independently generated bindings. After the purge an
    /// entry survives exactly when it existed before and is transitively
    /// reachable from an export; purely import-reachable entries are gone.
    pub fn remove_types_redefined_by_exports(&mut self, resolve: &Resolve, world: usize)
        requires
            resolve.wf(),
            world < resolve.worlds.len(),
            old(self).type_names.wf(),
        ensures
            final(self).type_names.wf(),
            ({
                let live = spec_import_live(*resolve, world as int);
                &&& (forall|id: int|
                    0 <= id < final(self).type_names.capacity() ==> final(self).type_names.defined(
                        id,
                    ) == (old(self).type_names.defined(id) && id < live.len() && live[id]))
                &&& (forall|id: int|
                    0 <= id < final(self).dtor_funcs.capacity() ==> final(self).dtor_funcs.defined(
                        id,
                    ) == (old(self).dtor_funcs.defined(id) && id < live.len() && live[id]))
                &&& (forall|id: int|
                    0 <= id < final(self).resources.capacity() ==> final(self).resources.defined(
                        id,
                    ) == (old(self).resources.defined(id) && id < live.len() && live[id]))
            }),
            forall|id: int|
                0 <= id < final(self).type_names.capacity() && final(self).type_names.defined(id)
                    ==> final(self).type_names.name_of(id) == old(self).type_names.name_of(id),
            forall|id: int|
                0 <= id < final(self).dtor_funcs.capacity() && final(self).dtor_funcs.defined(id)
                    ==> final(self).dtor_funcs.text_of(id) == old(self).dtor_funcs.text_of(id),
            forall|id: int|
                0 <= id < final(self).resources.capacity() && final(self).resources.defined(id)
                    ==> final(self).resources.info_of(id) == old(self).resources.info_of(id),
    {
        let live = imported_types_used_by_exported_interfaces(resolve, world);
        self.type_names.retain_live(&live);
        self.dtor_funcs.retain_live(&live);
        self.resources.retain_live(&live);
    }

    /// How many identities the canonical-name registry has room for.
    pub fn type_names_capacity(&self) -> (r: usize)
        ensures
            r == self.type_names.capacity(),
    {
        self.type_names.capacity_exec()
    }

    /// How many identities the destructor registry has room for.
    pub fn dtor_capacity(&self) -> (r: usize)
        ensures
            r == self.dtor_funcs.capacity(),
    {
        self.dtor_funcs.capacity_exec()
    }

    /// How many identities the resource registry has room for.
    pub fn resources_capacity(&self) -> (r: usize)
        ensures
            r == self.resources.capacity(),
    {
        self.resources.capacity_exec()
    }
}

/// The table reference carried by member `q` of entry `id`'s shape; see
/// [`kind_member`].
fn kind_member_exec(resolve: &Resolve, id: usize, q: usize) -> (r: Option<usize>)
    requires
        id < resolve.types.len(),
        q < kind_member_count(resolve.types[id as int].kind),
    ensures
        match r {
            Some(x) => kind_member(resolve.types[id as int].kind, q as int) == Some(x as int),
            None => kind_member(resolve.types[id as int].kind, q as int) is None,
        },
{
    match &resolve.types[id].kind {
        TypeDefKind::Record(fs) => match fs[q].ty {
            Type::Id(x) => Some(x),
            _ => None,
        },
        TypeDefKind::Tuple(ts) => match ts[q] {
            Type::Id(x) => Some(x),
            _ => None,
        },
        TypeDefKind::Variant(cs) => match cs[q].ty {
            Some(Type::Id(x)) => Some(x),
            _ => None,
        },
        TypeDefKind::Handle(h) => match h {
            Handle::Own(x) => Some(*x),
            Handle::Borrow(x) => Some(*x),
        },
        TypeDefKind::OptionOf(t) => match t {
            Type::Id(x) => Some(*x),
            _ => None,
        },
        TypeDefKind::Alias(t) => match t {
            Type::Id(x) => Some(*x),
            _ => None,
        },
        TypeDefKind::ListOf(t) => match t {
            Type::Id(x) => Some(*x),
            _ => None,
        },
        TypeDefKind::ResultOf(ok, err) => if q == 0 {
            match ok {
                Some(Type::Id(x)) => Some(*x),
                _ => None,
            }
        } else {
            match err {
                Some(Type::Id(x)) => Some(*x),
                _ => None,
            }
        },
        _ => None,
    }
}

/// A shape keeps all its references below `bound` exactly when every member
/// reference does.
proof fn lemma_kind_below_members(resolve: Resolve, k: TypeDefKind, bound: int)
    ensures
        resolve.kind_below(k, bound) <==> (forall|q: int|
            0 <= q < kind_member_count(k) ==> (match #[trigger] kind_member(k, q) {
                Some(x) => x < bound,
                None => true,
            })),
{
    match k {
        TypeDefKind::Record(fs) => {
            if forall|q: int|
                0 <= q < kind_member_count(k) ==> (match #[trigger] kind_member(k, q) {
                    Some(x) => x < bound,
                    None => true,
                }) {
                assert forall|j: int| 0 <= j < fs.len() implies resolve.ty_below(
                    fs[j].ty,
                    bound,
                ) by {
                    assert(match kind_member(k, j) {
                        Some(x) => x < bound,
                        None => true,
                    });
                }
            }
        },
        TypeDefKind::Tuple(ts) => {
            if forall|q: int|
                0 <= q < kind_member_count(k) ==> (match #[trigger] kind_member(k, q) {
                    Some(x) => x < bound,
                    None => true,
                }) {
                assert forall|j: int| 0 <= j < ts.len() implies resolve.ty_below(
                    ts[j],
                    bound,
                ) by {
                    assert(match kind_member(k, j) {
                        Some(x) => x < bound,
                        None => true,
                    });
                }
            }
        },
        TypeDefKind::Variant(cs) => {
            if forall|q: int|
                0 <= q < kind_member_count(k) ==> (match #[trigger] kind_member(k, q) {
                    Some(x) => x < bound,
                    None => true,
                }) {
                assert forall|j: int| 0 <= j < cs.len() implies (#[trigger] cs[j].ty matches Some(
                    t,
                ) ==> resolve.ty_below(t, bound)) by {
                    assert(match kind_member(k, j) {
                        Some(x) => x < bound,
                        None => true,
                    });
                }
            }
        },
        TypeDefKind::ResultOf(ok, err) => {
            assert(kind_member_count(k) == 2);
            if resolve.kind_below(k, bound) {
                assert forall|q: int|
                    0 <= q < kind_member_count(k) implies (match #[trigger] kind_member(k, q) {
                    Some(x) => x < bound,
                    None => true,
                }) by {}
            }
            if forall|q: int|
                0 <= q < kind_member_count(k) ==> (match #[trigger] kind_member(k, q) {
                    Some(x) => x < bound,
                    None => true,
                }) {
                assert(match kind_member(k, 0) {
                    Some(x) => x < bound,
                    None => true,
                });
                assert(match kind_member(k, 1) {
                    Some(x) => x < bound,
                    None => true,
                });
            }
        },
        TypeDefKind::Handle(_) | TypeDefKind::OptionOf(_) | TypeDefKind::Alias(_)
            | TypeDefKind::ListOf(_) => {
            if forall|q: int|
                0 <= q < kind_member_count(k) ==> (match #[trigger] kind_member(k, q) {
                    Some(x) => x < bound,
                    None => true,
                }) {
                assert(match kind_member(k, 0) {
                    Some(x) => x < bound,
                    None => true,
                });
            }
        },
        _ => {},
    }
}

/// Whether entry `id`'s shape keeps all its references below `id`.
fn check_kind_below(resolve: &Resolve, id: usize) -> (b: bool)
    requires
        id < resolve.types.len(),
    ensures
        b == resolve.kind_below(resolve.types[id as int].kind, id as int),
{
    let count: usize = match &resolve.types[id].kind {
        TypeDefKind::Record(fs) => fs.len(),
        TypeDefKind::Tuple(ts) => ts.len(),
        TypeDefKind::Variant(cs) => cs.len(),
        TypeDefKind::Handle(_) => 1,
        TypeDefKind::OptionOf(_) => 1,
        TypeDefKind::Alias(_) => 1,
        TypeDefKind::ListOf(_) => 1,
        TypeDefKind::ResultOf(_, _) => 2,
        _ => 0,
    };
    proof {
        assert(count as int == kind_member_count(resolve.types[id as int].kind));
        lemma_kind_below_members(*resolve, resolve.types[id as int].kind, id as int);
    }
    let mut q: usize = 0;
    while q < count
        invariant
            id < resolve.types.len(),
            q <= count,
            count as int == kind_member_count(resolve.types[id as int].kind),
            forall|p: int|
                0 <= p < q ==> (match #[trigger] kind_member(resolve.types[id as int].kind, p) {
                    Some(x) => x < id as int,
                    None => true,
                }),
        decreases count - q,
    {
        match kind_member_exec(resolve, id, q) {
            Some(x) => {
                if x >= id {
                    proof {
                        lemma_kind_below_members(
                            *resolve,
                            resolve.types[id as int].kind,
                            id as int,
                        );
                        assert(kind_member(resolve.types[id as int].kind, q as int) == Some(
                            x as int,
                        ));
                    }
                    return false;
                }
            },
            None => {},
        }
        q += 1;
    }
    proof {
        lemma_kind_below_members(*resolve, resolve.types[id as int].kind, id as int);
    }
    true
}

/// Whether every parameter and result type of `f` lies in the table.
fn check_func(resolve: &Resolve, f: &Function) -> (b: bool)
    ensures
        b == resolve.func_wf(*f),
{
    let np = f.params.len();
    let mut p: usize = 0;
    while p < np
        invariant
            np == f.params@.len(),
            p <= np,
            forall|x: int|
                0 <= x < p ==> resolve.ty_below(
                    (#[trigger] f.params@[x]).ty,
                    resolve.types.len() as int,
                ),
        decreases np - p,
    {
        let ok = match f.params[p].ty {
            Type::Id(x) => x < resolve.types.len(),
            _ => true,
        };
        if !ok {
            return false;
        }
        p += 1;
    }
    match &f.result {
        Some(Type::Id(x)) => *x < resolve.types.len(),
        _ => true,
    }
}

/// Whether `resolve` is well formed: an executable check of
/// [`Resolve::wf`], for input handed in from outside the verified world.
pub fn check_resolve(resolve: &Resolve) -> (b: bool)
    ensures
        b == resolve.wf(),
{
    let nt = resolve.types.len();
    let mut i: usize = 0;
    while i < nt
        invariant
            nt == resolve.types.len(),
            i <= nt,
            forall|j: int|
                0 <= j < i ==> resolve.kind_below(#[trigger] resolve.types[j].kind, j),
            forall|j: int|
                0 <= j < i ==> match #[trigger] resolve.types[j].owner {
                    TypeOwner::World(w) => w < resolve.worlds.len(),
                    TypeOwner::Iface(f) => f < resolve.interfaces.len(),
                    TypeOwner::NoOwner => true,
                },
        decreases nt - i,
    {
        if !check_kind_below(resolve, i) {
            proof {
                assert(!resolve.kind_below(resolve.types[i as int].kind, i as int));
            }
            return false;
        }
        let owner_ok = match resolve.types[i].owner {
            TypeOwner::World(w) => w < resolve.worlds.len(),
            TypeOwner::Iface(f) => f < resolve.interfaces.len(),
            TypeOwner::NoOwner => true,
        };
        if !owner_ok {
            return false;
        }
        i += 1;
    }
    let ni = resolve.interfaces.len();
    let mut k: usize = 0;
    while k < ni
        invariant
            ni == resolve.interfaces.len(),
            k <= ni,
            forall|j: int|
                0 <= j < k ==> (#[trigger] resolve.interfaces[j].package matches Some(p) ==> p
                    < resolve.packages.len()),
            forall|j: int, f2: int|
                0 <= j < k && 0 <= f2 < resolve.interfaces[j].functions.len()
                    ==> resolve.func_wf(#[trigger] resolve.interfaces[j].functions[f2]),
        decreases ni - k,
    {
        let pkg_ok = match &resolve.interfaces[k].package {
            Some(p) => *p < resolve.packages.len(),
            None => true,
        };
        if !pkg_ok {
            return false;
        }
        let nf = resolve.interfaces[k].functions.len();
        let mut f: usize = 0;
        while f < nf
            invariant
                ni == resolve.interfaces.len(),
                k < ni,
                nf == resolve.interfaces[k as int].functions.len(),
                f <= nf,
                forall|f2: int|
                    0 <= f2 < f ==> resolve.func_wf(
                        #[trigger] resolve.interfaces[k as int].functions[f2],
                    ),
        decreases nf - f,
        {
            if !check_func(resolve, &resolve.interfaces[k].functions[f]) {
                return false;
            }
            f += 1;
        }
        k += 1;
    }
    let nw = resolve.worlds.len();
    let mut w: usize = 0;
    while w < nw
        invariant
            nw == resolve.worlds.len(),
            w <= nw,
            forall|j: int, x: int|
                0 <= j < w && 0 <= x < resolve.worlds[j].imports.len() ==> resolve.item_wf(
                    (#[trigger] resolve.worlds[j].imports[x]).1,
                ),
            forall|j: int, x: int|
                0 <= j < w && 0 <= x < resolve.worlds[j].exports.len() ==> resolve.item_wf(
                    (#[trigger] resolve.worlds[j].exports[x]).1,
                ),
        decreases nw - w,
    {
        let nimp = resolve.worlds[w].imports.len();
        let mut x: usize = 0;
        while x < nimp
            invariant
                nw == resolve.worlds.len(),
                w < nw,
                nimp == resolve.worlds[w as int].imports.len(),
                x <= nimp,
                forall|y: int|
                    0 <= y < x ==> resolve.item_wf(
                        (#[trigger] resolve.worlds[w as int].imports[y]).1,
                    ),
            decreases nimp - x,
        {
            let ok = match &resolve.worlds[w].imports[x].1 {
                WorldItem::Iface(id) => *id < resolve.interfaces.len(),
                WorldItem::Func(f2) => check_func(resolve, f2),
                WorldItem::TypeItem(t) => *t < resolve.types.len(),
            };
            if !ok {
                return false;
            }
            x += 1;
        }
        let nexp = resolve.worlds[w].exports.len();
        let mut x2: usize = 0;
        while x2 < nexp
            invariant
                nw == resolve.worlds.len(),
                w < nw,
                nexp == resolve.worlds[w as int].exports.len(),
                x2 <= nexp,
                forall|y: int|
                    0 <= y < x2 ==> resolve.item_wf(
                        (#[trigger] resolve.worlds[w as int].exports[y]).1,
                    ),
                forall|j: int, y: int|
                    0 <= j < w && 0 <= y < resolve.worlds[j].imports.len() ==> resolve.item_wf(
                        (#[trigger] resolve.worlds[j].imports[y]).1,
                    ),
                forall|y: int|
                    0 <= y < resolve.worlds[w as int].imports.len() ==> resolve.item_wf(
                        (#[trigger] resolve.worlds[w as int].imports[y]).1,
                    ),
            decreases nexp - x2,
        {
            let ok = match &resolve.worlds[w].exports[x2].1 {
                WorldItem::Iface(id) => *id < resolve.interfaces.len(),
                WorldItem::Func(f2) => check_func(resolve, f2),
                WorldItem::TypeItem(t) => *t < resolve.types.len(),
            };
            if !ok {
                return false;
            }
            x2 += 1;
        }
        w += 1;
    }
    true
}

} // verus!
