//! The generator state of one pass: options, name registries, resource
//! registry, and the output buffers a world's bindings accumulate into.

use crate::err::GenError;
use crate::names::NameSet;
use crate::source::Source;
use crate::text::{chars_eq, push_chars, push_str};
use crate::tyname::Rename;
use crate::wit::Direction;
use vstd::prelude::*;

verus! {

/// A yes/no option.
#[derive(Clone, Copy, PartialEq, Eq, Structural, Debug)]
pub enum Enabled {
    No,
    Yes,
}

/// How strings travel across the boundary. The compact UTF-16 encoding is not
/// implemented: it aborts generation wherever it would matter.
#[derive(Clone, Copy, PartialEq, Eq, Structural, Debug)]
pub enum StringEncoding {
    Utf8,
    Utf16,
    CompactUtf16,
}

/// The options of a generation pass.
pub struct Opts {
    /// Skip emitting the allocation helper functions.
    pub no_helpers: bool,
    /// The string encoding of the component.
    pub string_encoding: StringEncoding,
    /// Skip optional-pointer and boolean-result signature flattening.
    pub no_sig_flattening: bool,
    /// Skip asking for the object file that carries the component type.
    pub no_object_file: bool,
    /// Interface renames to apply in generated names.
    pub rename: Vec<Rename>,
    /// Rename the world in generated names and file names.
    pub rename_world: Option<Vec<char>>,
    /// Autodrop borrowed handles seen while lifting export arguments.
    pub autodrop_borrows: Enabled,
}

impl Opts {
    /// Defaults: helpers on, UTF-8, flattening on, object file on, no
    /// renames, autodrop off.
    pub fn new() -> (r: Opts)
        ensures
            !r.no_helpers,
            r.string_encoding == StringEncoding::Utf8,
            !r.no_sig_flattening,
            !r.no_object_file,
            r.rename@.len() == 0,
            r.rename_world is None,
            r.autodrop_borrows == Enabled::No,
    {
        Opts {
            no_helpers: false,
            string_encoding: StringEncoding::Utf8,
            no_sig_flattening: false,
            no_object_file: false,
            rename: Vec::new(),
            rename_world: None,
            autodrop_borrows: Enabled::No,
        }
    }
}

/// What the resource manager records for one resource type.
pub struct ResourceInfo {
    /// Which direction the resource was registered for.
    pub direction: Direction,
    /// The canonical name of the owned-handle type.
    pub own: Vec<char>,
    /// The canonical name of the borrowed-handle type.
    pub borrow: Vec<char>,
    /// The name of the raw drop import for this resource.
    pub drop_fn: Vec<char>,
}

/// The canonical-name registry: at most one name per type identity, assigned
/// when the type is first defined. Entries registered as pooled carry a
/// globally shared name for a primitive-only anonymous shape; all other
/// entries have names that collide with nothing else in the registry.
pub struct TypeNames {
    entries: Vec<Option<(Vec<char>, bool)>>,
}

impl TypeNames {
    /// Whether `id` has been assigned a name.
    pub closed spec fn defined(self, id: int) -> bool {
        0 <= id < self.entries.len() && self.entries[id] is Some
    }

    /// The name assigned to `id`.
    pub closed spec fn name_of(self, id: int) -> Seq<char> {
        self.entries[id]->Some_0.0@
    }

    /// Whether `id` was registered as a pooled primitive shape.
    pub closed spec fn pooled(self, id: int) -> bool {
        self.entries[id]->Some_0.1
    }

    /// How many identities the registry has room for.
    pub closed spec fn capacity(self) -> int {
        self.entries.len() as int
    }

    /// How many identities the registry has room for.
    pub fn capacity_exec(&self) -> (r: usize)
        ensures
            r == self.capacity(),
    {
        self.entries.len()
    }

    /// Names are canonical: two distinct identities share a name only when
    /// both carry a pooled primitive shape.
    pub open spec fn wf(self) -> bool {
        forall|i: int, j: int|
            0 <= i < self.capacity() && 0 <= j < self.capacity() && i != j && self.defined(i)
                && self.defined(j) && !(self.pooled(i) && self.pooled(j)) ==> self.name_of(i)
                != self.name_of(j)
    }

    /// An empty registry with room for `n` type identities.
    pub fn new(n: usize) -> (r: TypeNames)
        ensures
            r.wf(),
            r.capacity() == n,
            forall|i: int| !r.defined(i),
    {
        let mut entries: Vec<Option<(Vec<char>, bool)>> = Vec::new();
        let mut i: usize = 0;
        while i < n
            invariant
                i <= n,
                entries@.len() == i,
                forall|j: int| 0 <= j < i ==> entries@[j] is None,
            decreases n - i,
        {
            entries.push(None);
            i += 1;
        }
        TypeNames { entries }
    }

    /// Whether a name is already carried by some entry (by any entry when
    /// `among_pooled` is set, else by the non-pooled entries only).
    fn name_taken(&self, name: &Vec<char>, among_pooled: bool) -> (r: bool)
        ensures
            r == exists|i: int|
                0 <= i < self.capacity() && self.defined(i) && (among_pooled || !self.pooled(i))
                    && self.name_of(i) == name@,
    {
        let mut i: usize = 0;
        while i < self.entries.len()
            invariant
                i <= self.entries@.len(),
                forall|j: int|
                    0 <= j < i ==> !(self.defined(j) && (among_pooled || !self.pooled(j))
                        && self.name_of(j) == name@),
            decreases self.entries@.len() - i,
        {
            if let Some((n, p)) = &self.entries[i] {
                if among_pooled || !*p {
                    if chars_eq(n, name) {
                        proof {
                            assert(self.defined(i as int) && (among_pooled || !self.pooled(
                                i as int,
                            )) && self.name_of(i as int) == name@);
                        }
                        return true;
                    }
                }
            }
            i += 1;
        }
        false
    }

    /// Whether `id` has been assigned a name.
    pub fn contains(&self, id: usize) -> (r: bool)
        ensures
            r == self.defined(id as int),
    {
        id < self.entries.len() && self.entries[id].is_some()
    }

    /// The name assigned to `id`, or an error if none has been.
    pub fn lookup(&self, id: usize) -> (r: Result<Vec<char>, GenError>)
        ensures
            r is Ok <==> self.defined(id as int),
            r matches Ok(v) ==> v@ == self.name_of(id as int),
    {
        if id < self.entries.len() {
            if let Some((n, _)) = &self.entries[id] {
                let mut c: Vec<char> = Vec::new();
                push_chars(&mut c, n);
                return Ok(c);
            }
        }
        Err(GenError::MissingEntry)
    }

    /// Assign `name` to the identity `id`. A second registration of the same
    /// identity is a defect and refused, as is a name that would collide with
    /// another entry; a pooled registration may share its name with other
    /// pooled entries, and `reused` reports whether it did.
    pub fn register(&mut self, id: usize, name: &Vec<char>, pooled: bool) -> (r: Result<
        bool,
        GenError,
    >)
        requires
            old(self).wf(),
        ensures
            final(self).wf(),
            final(self).capacity() == old(self).capacity(),
            r is Err ==> *final(self) == *old(self),
            r matches Ok(reused) ==> {
                &&& !old(self).defined(id as int)
                &&& final(self).defined(id as int)
                &&& final(self).name_of(id as int) == name@
                &&& final(self).pooled(id as int) == pooled
                &&& (forall|i: int|
                    i != id ==> (final(self).defined(i) == old(self).defined(i) && (old(
                        self,
                    ).defined(i) ==> final(self).name_of(i) == old(self).name_of(i)
                        && final(self).pooled(i) == old(self).pooled(i))))
                &&& (reused == exists|i: int|
                    0 <= i < old(self).capacity() && old(self).defined(i) && old(self).pooled(i)
                        && old(self).name_of(i) == name@)
            },
            r is Ok ==> !old(self).defined(id as int),
            old(self).defined(id as int) ==> r is Err,
            r is Ok <==> ({
                &&& id < old(self).capacity()
                &&& !old(self).defined(id as int)
                &&& !(exists|i: int|
                    0 <= i < old(self).capacity() && old(self).defined(i) && (pooled ==> !old(
                        self,
                    ).pooled(i)) && old(self).name_of(i) == name@)
            }),
    {
        if id >= self.entries.len() {
            return Err(GenError::BadTypeIndex);
        }
        if self.entries[id].is_some() {
            return Err(GenError::DuplicateType);
        }
        let taken_any = self.name_taken(name, true);
        let taken_nonpooled = self.name_taken(name, false);
        if !pooled && taken_any {
            return Err(GenError::AlreadyDefined);
        }
        if pooled && taken_nonpooled {
            return Err(GenError::AlreadyDefined);
        }
        let reused = pooled && taken_any;
        let mut copy: Vec<char> = Vec::new();
        push_chars(&mut copy, name);
        self.entries.set(id, Some((copy, pooled)));
        proof {
            let idi = id as int;
            assert forall|i: int, j: int|
                0 <= i < self.capacity() && 0 <= j < self.capacity() && i != j && self.defined(i)
                    && self.defined(j) && !(self.pooled(i) && self.pooled(j)) implies self.name_of(
                i,
            ) != self.name_of(j) by {
                if i != idi && j != idi {
                    assert(old(self).defined(i) && old(self).defined(j));
                    assert(self.name_of(i) == old(self).name_of(i));
                    assert(self.name_of(j) == old(self).name_of(j));
                } else {
                    let k = if i == idi {
                        j
                    } else {
                        i
                    };
                    assert(old(self).defined(k));
                    assert(self.name_of(k) == old(self).name_of(k));
                    assert(self.pooled(k) == old(self).pooled(k));
                    if !pooled {
                        // No entry at all carried this name.
                        assert(!(old(self).defined(k) && (true || !old(self).pooled(k)) && old(
                            self,
                        ).name_of(k) == name@));
                    } else {
                        // The obligation only arises against a non-pooled
                        // entry, and no non-pooled entry carried this name.
                        assert(!old(self).pooled(k) ==> !(old(self).defined(k) && (false || !old(
                            self,
                        ).pooled(k)) && old(self).name_of(k) == name@));
                    }
                }
            }
        }
        Ok(reused)
    }
}

impl TypeNames {
    /// Drop the entry for `id`, if any; uniqueness survives.
    pub fn remove(&mut self, id: usize)
        requires
            old(self).wf(),
        ensures
            final(self).wf(),
            final(self).capacity() == old(self).capacity(),
            !final(self).defined(id as int),
            forall|i: int|
                0 <= i < old(self).capacity() && i != id ==> (final(self).defined(i) == old(
                    self,
                ).defined(i) && (old(self).defined(i) ==> final(self).name_of(i) == old(
                    self,
                ).name_of(i) && final(self).pooled(i) == old(self).pooled(i))),
    {
        if id < self.entries.len() {
            self.entries.set(id, None);
            proof {
                assert forall|i: int, j: int|
                    0 <= i < self.capacity() && 0 <= j < self.capacity() && i != j && self.defined(
                        i,
                    ) && self.defined(j) && !(self.pooled(i) && self.pooled(j)) implies self
                    .name_of(i) != self.name_of(j) by {
                    assert(old(self).defined(i) && old(self).defined(j));
                    assert(self.name_of(i) == old(self).name_of(i));
                    assert(self.name_of(j) == old(self).name_of(j));
                }
            }
        }
    }
}

impl TypeNames {
    /// Keep only the entries whose identity is marked live; see the purge.
    #[verifier::loop_isolation(false)]
    pub fn retain_live(&mut self, live: &Vec<bool>)
        requires
            old(self).wf(),
        ensures
            final(self).wf(),
            final(self).capacity() == old(self).capacity(),
            forall|id: int|
                0 <= id < final(self).capacity() ==> final(self).defined(id) == (old(self).defined(
                    id,
                ) && id < live@.len() && live@[id]),
            forall|id: int|
                0 <= id < final(self).capacity() && final(self).defined(id) ==> final(self).name_of(
                    id,
                ) == old(self).name_of(id) && final(self).pooled(id) == old(self).pooled(id),
    {
        let ghost e0 = self.entries@;
        let n = self.entries.len();
        let mut i: usize = 0;
        while i < n
            invariant
                n == self.entries@.len(),
                self.entries@.len() == e0.len(),
                i <= n,
                forall|j: int|
                    0 <= j < i && (j < live@.len() && live@[j]) ==> #[trigger] self.entries@[j]
                        == e0[j],
                forall|j: int|
                    0 <= j < i && !(j < live@.len() && live@[j]) ==> #[trigger] self.entries@[j]
                        is None,
                forall|j: int| i <= j < n ==> #[trigger] self.entries@[j] == e0[j],
            decreases n - i,
        {
            let keep = i < live.len() && live[i];
            if !keep {
                self.entries.set(i, None);
            }
            i += 1;
        }
        proof {
            assert forall|a: int, b: int|
                0 <= a < self.capacity() && 0 <= b < self.capacity() && a != b && self.defined(a)
                    && self.defined(b) && !(self.pooled(a) && self.pooled(b)) implies self.name_of(
                a,
            ) != self.name_of(b) by {
                assert(self.entries@[a] == e0[a]);
                assert(self.entries@[b] == e0[b]);
                assert(old(self).defined(a) && old(self).defined(b));
            }
            assert forall|id: int| 0 <= id < self.capacity() implies self.defined(id) == (old(
                self,
            ).defined(id) && id < live@.len() && live@[id]) by {
                if id < live@.len() && live@[id] {
                    assert(self.entries@[id] == e0[id]);
                } else {
                    assert(self.entries@[id] is None);
                }
            }
        }
    }
}

/// Distinct identities carry distinct canonical names: only two pooled
/// entries (one shared primitive-only anonymous shape) may share one.
pub proof fn lemma_names_unique(m: TypeNames, i: int, j: int)
    requires
        m.wf(),
        0 <= i < m.capacity(),
        0 <= j < m.capacity(),
        i != j,
        m.defined(i),
        m.defined(j),
        !(m.pooled(i) && m.pooled(j)),
    ensures
        m.name_of(i) != m.name_of(j),
{
}

/// A registry of per-type text (destructor names), at most one entry per
/// identity.
pub struct TypeTexts {
    entries: Vec<Option<Vec<char>>>,
}

impl TypeTexts {
    /// Whether `id` has an entry.
    pub closed spec fn defined(self, id: int) -> bool {
        0 <= id < self.entries.len() && self.entries[id] is Some
    }

    /// The text recorded for `id`.
    pub closed spec fn text_of(self, id: int) -> Seq<char> {
        self.entries[id]->Some_0@
    }

    /// How many identities the registry has room for.
    pub closed spec fn capacity(self) -> int {
        self.entries.len() as int
    }

    /// How many identities the registry has room for.
    pub fn capacity_exec(&self) -> (r: usize)
        ensures
            r == self.capacity(),
    {
        self.entries.len()
    }

    /// An empty registry with room for `n` identities.
    pub fn new(n: usize) -> (r: TypeTexts)
        ensures
            r.capacity() == n,
            forall|i: int| !r.defined(i),
    {
        let mut entries: Vec<Option<Vec<char>>> = Vec::new();
        let mut i: usize = 0;
        while i < n
            invariant
                i <= n,
                entries@.len() == i,
                forall|j: int| 0 <= j < i ==> entries@[j] is None,
            decreases n - i,
        {
            entries.push(None);
            i += 1;
        }
        TypeTexts { entries }
    }

    /// Whether `id` has an entry.
    pub fn contains(&self, id: usize) -> (r: bool)
        ensures
            r == self.defined(id as int),
    {
        id < self.entries.len() && self.entries[id].is_some()
    }

    /// The entry for `id`, if any.
    pub fn lookup(&self, id: usize) -> (r: Result<Vec<char>, GenError>)
        ensures
            r is Ok <==> self.defined(id as int),
            r matches Ok(v) ==> v@ == self.text_of(id as int),
    {
        if id < self.entries.len() {
            if let Some(n) = &self.entries[id] {
                let mut c: Vec<char> = Vec::new();
                push_chars(&mut c, n);
                return Ok(c);
            }
        }
        Err(GenError::MissingEntry)
    }

    /// Record `text` for `id`, replacing nothing: a second entry for the same
    /// identity is refused.
    pub fn record(&mut self, id: usize, text: &Vec<char>) -> (r: Result<(), GenError>)
        ensures
            final(self).capacity() == old(self).capacity(),
            r is Err ==> *final(self) == *old(self),
            r is Ok <==> (id < old(self).capacity() && !old(self).defined(id as int)),
            r is Ok ==> final(self).defined(id as int) && final(self).text_of(id as int) == text@
                && (forall|i: int|
                0 <= i < old(self).capacity() && i != id ==> (final(self).defined(i) == old(
                    self,
                ).defined(i) && (old(self).defined(i) ==> final(self).text_of(i) == old(
                    self,
                ).text_of(i)))),
    {
        if id >= self.entries.len() {
            return Err(GenError::BadTypeIndex);
        }
        if self.entries[id].is_some() {
            return Err(GenError::DuplicateType);
        }
        let mut copy: Vec<char> = Vec::new();
        push_chars(&mut copy, text);
        self.entries.set(id, Some(copy));
        Ok(())
    }

    /// Drop the entry for `id`, if any.
    pub fn remove(&mut self, id: usize)
        ensures
            final(self).capacity() == old(self).capacity(),
            !final(self).defined(id as int),
            forall|i: int|
                0 <= i < old(self).capacity() && i != id ==> (final(self).defined(i) == old(
                    self,
                ).defined(i) && (old(self).defined(i) ==> final(self).text_of(i) == old(
                    self,
                ).text_of(i))),
    {
        if id < self.entries.len() {
            self.entries.set(id, None);
        }
    }
}

impl TypeTexts {
    /// Keep only the entries whose identity is marked live; see the purge.
    #[verifier::loop_isolation(false)]
    pub fn retain_live(&mut self, live: &Vec<bool>)
        ensures
            final(self).capacity() == old(self).capacity(),
            forall|id: int|
                0 <= id < final(self).capacity() ==> final(self).defined(id) == (old(self).defined(
                    id,
                ) && id < live@.len() && live@[id]),
            forall|id: int|
                0 <= id < final(self).capacity() && final(self).defined(id) ==> final(self).text_of(
                    id,
                ) == old(self).text_of(id),
    {
        let ghost e0 = self.entries@;
        let n = self.entries.len();
        let mut i: usize = 0;
        while i < n
            invariant
                n == self.entries@.len(),
                self.entries@.len() == e0.len(),
                i <= n,
                forall|j: int|
                    0 <= j < i && (j < live@.len() && live@[j]) ==> #[trigger] self.entries@[j]
                        == e0[j],
                forall|j: int|
                    0 <= j < i && !(j < live@.len() && live@[j]) ==> #[trigger] self.entries@[j]
                        is None,
                forall|j: int| i <= j < n ==> #[trigger] self.entries@[j] == e0[j],
            decreases n - i,
        {
            let keep = i < live.len() && live[i];
            if !keep {
                self.entries.set(i, None);
            }
            i += 1;
        }
        proof {
            assert forall|id: int| 0 <= id < self.capacity() implies self.defined(id) == (old(
                self,
            ).defined(id) && id < live@.len() && live@[id]) by {
                if id < live@.len() && live@[id] {
                    assert(self.entries@[id] == e0[id]);
                } else {
                    assert(self.entries@[id] is None);
                }
            }
        }
    }
}

/// The resource registry: direction and handle names per resource identity.
pub struct Resources {
    entries: Vec<Option<ResourceInfo>>,
}

impl Resources {
    /// Whether `id` is a registered resource.
    pub closed spec fn defined(self, id: int) -> bool {
        0 <= id < self.entries.len() && self.entries[id] is Some
    }

    /// The registered information for `id`.
    pub closed spec fn info_of(self, id: int) -> ResourceInfo {
        self.entries[id]->Some_0
    }

    /// How many identities the registry has room for.
    pub closed spec fn capacity(self) -> int {
        self.entries.len() as int
    }

    /// How many identities the registry has room for.
    pub fn capacity_exec(&self) -> (r: usize)
        ensures
            r == self.capacity(),
    {
        self.entries.len()
    }

    /// An empty registry with room for `n` identities.
    pub fn new(n: usize) -> (r: Resources)
        ensures
            r.capacity() == n,
            forall|i: int| !r.defined(i),
    {
        let mut entries: Vec<Option<ResourceInfo>> = Vec::new();
        let mut i: usize = 0;
        while i < n
            invariant
                i <= n,
                entries@.len() == i,
                forall|j: int| 0 <= j < i ==> entries@[j] is None,
            decreases n - i,
        {
            entries.push(None);
            i += 1;
        }
        Resources { entries }
    }

    /// Whether `id` is a registered resource.
    pub fn contains(&self, id: usize) -> (r: bool)
        ensures
            r == self.defined(id as int),
    {
        id < self.entries.len() && self.entries[id].is_some()
    }

    /// The direction registered for `id`.
    pub fn direction(&self, id: usize) -> (r: Result<Direction, GenError>)
        ensures
            r is Ok <==> self.defined(id as int),
            r matches Ok(d) ==> d == self.info_of(id as int).direction,
    {
        if id < self.entries.len() {
            if let Some(info) = &self.entries[id] {
                return Ok(info.direction);
            }
        }
        Err(GenError::MissingEntry)
    }

    /// The owned-handle type name registered for `id`.
    pub fn own_name(&self, id: usize) -> (r: Result<Vec<char>, GenError>)
        ensures
            r is Ok <==> self.defined(id as int),
            r matches Ok(v) ==> v@ == self.info_of(id as int).own@,
    {
        if id < self.entries.len() {
            if let Some(info) = &self.entries[id] {
                let mut c: Vec<char> = Vec::new();
                push_chars(&mut c, &info.own);
                return Ok(c);
            }
        }
        Err(GenError::MissingEntry)
    }

    /// The borrowed-handle type name registered for `id`.
    pub fn borrow_name(&self, id: usize) -> (r: Result<Vec<char>, GenError>)
        ensures
            r is Ok <==> self.defined(id as int),
            r matches Ok(v) ==> v@ == self.info_of(id as int).borrow@,
    {
        if id < self.entries.len() {
            if let Some(info) = &self.entries[id] {
                let mut c: Vec<char> = Vec::new();
                push_chars(&mut c, &info.borrow);
                return Ok(c);
            }
        }
        Err(GenError::MissingEntry)
    }

    /// The drop-import name registered for `id`.
    pub fn drop_fn(&self, id: usize) -> (r: Result<Vec<char>, GenError>)
        ensures
            r is Ok <==> self.defined(id as int),
            r matches Ok(v) ==> v@ == self.info_of(id as int).drop_fn@,
    {
        if id < self.entries.len() {
            if let Some(info) = &self.entries[id] {
                let mut c: Vec<char> = Vec::new();
                push_chars(&mut c, &info.drop_fn);
                return Ok(c);
            }
        }
        Err(GenError::MissingEntry)
    }

    /// Register a resource; a second registration of the same identity is a
    /// defect and refused.
    pub fn register(&mut self, id: usize, info: ResourceInfo) -> (r: Result<(), GenError>)
        ensures
            final(self).capacity() == old(self).capacity(),
            r is Err ==> *final(self) == *old(self),
            r is Ok <==> (id < old(self).capacity() && !old(self).defined(id as int)),
            r is Ok ==> final(self).defined(id as int) && final(self).info_of(id as int) == info
                && (forall|i: int|
                0 <= i < old(self).capacity() && i != id ==> (final(self).defined(i) == old(
                    self,
                ).defined(i) && (old(self).defined(i) ==> final(self).info_of(i) == old(
                    self,
                ).info_of(i)))),
    {
        if id >= self.entries.len() {
            return Err(GenError::BadTypeIndex);
        }
        if self.entries[id].is_some() {
            return Err(GenError::DuplicateResource);
        }
        self.entries.set(id, Some(info));
        Ok(())
    }

    /// Drop the entry for `id`, if any.
    pub fn remove(&mut self, id: usize)
        ensures
            final(self).capacity() == old(self).capacity(),
            !final(self).defined(id as int),
            forall|i: int|
                0 <= i < old(self).capacity() && i != id ==> (final(self).defined(i) == old(
                    self,
                ).defined(i) && (old(self).defined(i) ==> final(self).info_of(i) == old(
                    self,
                ).info_of(i))),
    {
        if id < self.entries.len() {
            self.entries.set(id, None);
        }
    }
}

impl Resources {
    /// Keep only the entries whose identity is marked live; see the purge.
    #[verifier::loop_isolation(false)]
    pub fn retain_live(&mut self, live: &Vec<bool>)
        ensures
            final(self).capacity() == old(self).capacity(),
            forall|id: int|
                0 <= id < final(self).capacity() ==> final(self).defined(id) == (old(self).defined(
                    id,
                ) && id < live@.len() && live@[id]),
            forall|id: int|
                0 <= id < final(self).capacity() && final(self).defined(id) ==> final(self).info_of(
                    id,
                ) == old(self).info_of(id),
    {
        let ghost e0 = self.entries@;
        let n = self.entries.len();
        let mut i: usize = 0;
        while i < n
            invariant
                n == self.entries@.len(),
                self.entries@.len() == e0.len(),
                i <= n,
                forall|j: int|
                    0 <= j < i && (j < live@.len() && live@[j]) ==> #[trigger] self.entries@[j]
                        == e0[j],
                forall|j: int|
                    0 <= j < i && !(j < live@.len() && live@[j]) ==> #[trigger] self.entries@[j]
                        is None,
                forall|j: int| i <= j < n ==> #[trigger] self.entries@[j] == e0[j],
            decreases n - i,
        {
            let keep = i < live.len() && live[i];
            if !keep {
                self.entries.set(i, None);
            }
            i += 1;
        }
        proof {
            assert forall|id: int| 0 <= id < self.capacity() implies self.defined(id) == (old(
                self,
            ).defined(id) && id < live@.len() && live@[id]) by {
                if id < live@.len() && live@[id] {
                    assert(self.entries@[id] == e0[id]);
                } else {
                    assert(self.entries@[id] is None);
                }
            }
        }
    }
}

/// The output buffers of a pass or of one interface's generation: the
/// declarations, function headers and helper sections of the interface unit,
/// and the definitions, functions, helpers and adapters of the implementation
/// unit.
pub struct OutBuffers {
    pub h_defs: Source,
    pub h_fns: Source,
    pub h_helpers: Source,
    pub c_defs: Source,
    pub c_fns: Source,
    pub c_helpers: Source,
    pub c_adapters: Source,
}

impl OutBuffers {
    /// All buffers empty.
    pub fn new() -> (r: OutBuffers)
        ensures
            r.h_defs@.s.len() == 0,
            r.h_fns@.s.len() == 0,
            r.h_helpers@.s.len() == 0,
            r.c_defs@.s.len() == 0,
            r.c_fns@.s.len() == 0,
            r.c_helpers@.s.len() == 0,
            r.c_adapters@.s.len() == 0,
    {
        OutBuffers {
            h_defs: Source::new(),
            h_fns: Source::new(),
            h_helpers: Source::new(),
            c_defs: Source::new(),
            c_fns: Source::new(),
            c_helpers: Source::new(),
            c_adapters: Source::new(),
        }
    }

    /// Push the text of every buffer of `other` into the same buffer of this
    /// set, re-indenting it as [`crate::source::source_push`] says.
    pub fn append(&mut self, other: &OutBuffers)
        ensures
            final(self).h_defs@ == crate::source::source_push(old(self).h_defs@, other.h_defs@.s),
            final(self).h_fns@ == crate::source::source_push(old(self).h_fns@, other.h_fns@.s),
            final(self).h_helpers@ == crate::source::source_push(
                old(self).h_helpers@,
                other.h_helpers@.s,
            ),
            final(self).c_defs@ == crate::source::source_push(old(self).c_defs@, other.c_defs@.s),
            final(self).c_fns@ == crate::source::source_push(old(self).c_fns@, other.c_fns@.s),
            final(self).c_helpers@ == crate::source::source_push(
                old(self).c_helpers@,
                other.c_helpers@.s,
            ),
            final(self).c_adapters@ == crate::source::source_push(
                old(self).c_adapters@,
                other.c_adapters@.s,
            ),
    {
        self.h_defs.push_vec(other.h_defs.chars());
        self.h_fns.push_vec(other.h_fns.chars());
        self.h_helpers.push_vec(other.h_helpers.chars());
        self.c_defs.push_vec(other.c_defs.chars());
        self.c_fns.push_vec(other.c_fns.chars());
        self.c_helpers.push_vec(other.c_helpers.chars());
        self.c_adapters.push_vec(other.c_adapters.chars());
    }
}

/// The generator of one pass: the registries, options and accumulated output
/// of one world's bindings. Owned by exactly one pass and mutated by the
/// current traversal step alone.
pub struct Pascal {
    /// The accumulated output of the pass.
    pub src: OutBuffers,
    /// The options of the pass.
    pub opts: Opts,
    /// Extra interface-unit includes.
    pub h_includes: Vec<Vec<char>>,
    /// Extra implementation-unit includes.
    pub c_includes: Vec<Vec<char>>,
    /// The static return area must hold the largest indirect return of any
    /// exported function, because its contents stay live until post-return.
    pub return_pointer_area_size: usize,
    /// The alignment of the static return area.
    pub return_pointer_area_align: usize,
    /// All generated global symbols; collisions are defects.
    pub names: NameSet,
    /// Whether the pass used the string type and needs its helpers.
    pub needs_string: bool,
    /// Which union reinterpretation helpers bitcasts used.
    pub union_needs: crate::casts::UnionNeeds,
    /// The pooled names of primitive-only anonymous shapes.
    pub prim_names: NameSet,
    /// The world name generation runs for.
    pub world: Vec<char>,
    /// Requested interface renames.
    pub renamed_interfaces: Vec<Rename>,
    /// The world being generated.
    pub world_id: Option<usize>,
    /// Destructor names per type identity.
    pub dtor_funcs: TypeTexts,
    /// Canonical names per type identity.
    pub type_names: TypeNames,
    /// Resource information per resource identity.
    pub resources: Resources,
}

/// The rendered name of a type, given the world name and the registry:
/// primitives map to the Pascal scalar types, strings to the world's string
/// type, and table references to their registered canonical name (`None` when
/// not yet registered).
pub open spec fn spec_type_name(world: Seq<char>, names: TypeNames, ty: crate::wit::Type) -> Option<
    Seq<char>,
> {
    match ty {
        crate::wit::Type::Bool => Some("boolean"@),
        crate::wit::Type::Char => Some("uint32"@),
        crate::wit::Type::U8 => Some("byte"@),
        crate::wit::Type::S8 => Some("int8"@),
        crate::wit::Type::U16 => Some("uint16"@),
        crate::wit::Type::S16 => Some("int16"@),
        crate::wit::Type::U32 => Some("uint32"@),
        crate::wit::Type::S32 => Some("int32"@),
        crate::wit::Type::U64 => Some("uint64"@),
        crate::wit::Type::S64 => Some("int64"@),
        crate::wit::Type::F32 => Some("single"@),
        crate::wit::Type::F64 => Some("double"@),
        crate::wit::Type::Str => Some(crate::ident::snake_of(world) + "_string_t"@),
        crate::wit::Type::Id(id) => if names.defined(id as int) {
            Some(names.name_of(id as int))
        } else {
            None
        },
    }
}

impl Pascal {
    /// A fresh generator for the given options.
    pub fn new(opts: Opts) -> (r: Pascal)
        ensures
            r.type_names.wf(),
            r.opts == opts,
            r.needs_string == false,
            r.return_pointer_area_size == 0,
            r.return_pointer_area_align == 0,
    {
        Pascal {
            src: OutBuffers::new(),
            opts,
            h_includes: Vec::new(),
            c_includes: Vec::new(),
            return_pointer_area_size: 0,
            return_pointer_area_align: 0,
            names: NameSet::new(),
            needs_string: false,
            union_needs: crate::casts::UnionNeeds {
                int32_float: false,
                float_int32: false,
                int64_double: false,
                double_int64: false,
            },
            prim_names: NameSet::new(),
            world: Vec::new(),
            renamed_interfaces: Vec::new(),
            world_id: None,
            dtor_funcs: TypeTexts::new(0),
            type_names: TypeNames::new(0),
            resources: Resources::new(0),
        }
    }

    /// Append the rendered name of `ty` to `dst`; see [`spec_type_name`].
    /// Rendering the string type records that the string helpers are needed.
    pub fn push_type_name(&mut self, ty: &crate::wit::Type, dst: &mut Vec<char>) -> (r: Result<
        (),
        GenError,
    >)
        ensures
            r is Ok <==> spec_type_name(old(self).world@, old(self).type_names, *ty) is Some,
            r is Ok ==> final(dst)@ == old(dst)@ + spec_type_name(
                old(self).world@,
                old(self).type_names,
                *ty,
            )->Some_0,
            r is Err ==> final(dst)@ == old(dst)@,
            final(self).needs_string == (old(self).needs_string || *ty == crate::wit::Type::Str),
            final(self).world == old(self).world,
            final(self).type_names == old(self).type_names,
            final(self).resources == old(self).resources,
            final(self).dtor_funcs == old(self).dtor_funcs,
            final(self).src == old(self).src,
            final(self).opts == old(self).opts,
            final(self).names == old(self).names,
            final(self).prim_names == old(self).prim_names,
            final(self).union_needs == old(self).union_needs,
            final(self).return_pointer_area_size == old(self).return_pointer_area_size,
            final(self).return_pointer_area_align == old(self).return_pointer_area_align,
            final(self).renamed_interfaces == old(self).renamed_interfaces,
            final(self).world_id == old(self).world_id,
            final(self).h_includes == old(self).h_includes,
            final(self).c_includes == old(self).c_includes,
    {
        match ty {
            crate::wit::Type::Bool => Ok(push_str(dst, "boolean")),
            crate::wit::Type::Char => Ok(push_str(dst, "uint32")),
            crate::wit::Type::U8 => Ok(push_str(dst, "byte")),
            crate::wit::Type::S8 => Ok(push_str(dst, "int8")),
            crate::wit::Type::U16 => Ok(push_str(dst, "uint16")),
            crate::wit::Type::S16 => Ok(push_str(dst, "int16")),
            crate::wit::Type::U32 => Ok(push_str(dst, "uint32")),
            crate::wit::Type::S32 => Ok(push_str(dst, "int32")),
            crate::wit::Type::U64 => Ok(push_str(dst, "uint64")),
            crate::wit::Type::S64 => Ok(push_str(dst, "int64")),
            crate::wit::Type::F32 => Ok(push_str(dst, "single")),
            crate::wit::Type::F64 => Ok(push_str(dst, "double")),
            crate::wit::Type::Str => {
                let sw = crate::ident::snake_chars(&self.world);
                push_chars(dst, &sw);
                push_str(dst, "_string_t");
                self.needs_string = true;
                Ok(())
            },
            crate::wit::Type::Id(id) => {
                match self.type_names.lookup(*id) {
                    Ok(n) => {
                        push_chars(dst, &n);
                        Ok(())
                    },
                    Err(e) => Err(e),
                }
            },
        }
    }

    /// The rendered name of `ty`; see [`spec_type_name`].
    pub fn ty_name(&mut self, ty: &crate::wit::Type) -> (r: Result<Vec<char>, GenError>)
        ensures
            r is Ok <==> spec_type_name(old(self).world@, old(self).type_names, *ty) is Some,
            r matches Ok(v) ==> v@ == spec_type_name(
                old(self).world@,
                old(self).type_names,
                *ty,
            )->Some_0,
            final(self).needs_string == (old(self).needs_string || *ty == crate::wit::Type::Str),
            final(self).world == old(self).world,
            final(self).type_names == old(self).type_names,
            final(self).resources == old(self).resources,
            final(self).dtor_funcs == old(self).dtor_funcs,
            final(self).src == old(self).src,
            final(self).opts == old(self).opts,
            final(self).names == old(self).names,
            final(self).prim_names == old(self).prim_names,
            final(self).union_needs == old(self).union_needs,
            final(self).return_pointer_area_size == old(self).return_pointer_area_size,
            final(self).return_pointer_area_align == old(self).return_pointer_area_align,
            final(self).renamed_interfaces == old(self).renamed_interfaces,
            final(self).world_id == old(self).world_id,
            final(self).h_includes == old(self).h_includes,
            final(self).c_includes == old(self).c_includes,
    {
        let mut name: Vec<char> = Vec::new();
        match self.push_type_name(ty, &mut name) {
            Ok(_) => Ok(name),
            Err(e) => Err(e),
        }
    }

    /// The character type of the configured string encoding; compact UTF-16
    /// is unsupported.
    pub fn char_type(&self) -> (r: Result<&'static str, GenError>)
        ensures
            r matches Ok(v) ==> (match self.opts.string_encoding {
                StringEncoding::Utf8 => v@ == "char"@,
                StringEncoding::Utf16 => v@ == "widechar"@,
                StringEncoding::CompactUtf16 => false,
            }),
            r is Err <==> self.opts.string_encoding == StringEncoding::CompactUtf16,
    {
        match self.opts.string_encoding {
            StringEncoding::Utf8 => Ok("char"),
            StringEncoding::Utf16 => Ok("widechar"),
            StringEncoding::CompactUtf16 => Err(GenError::Unsupported),
        }
    }
}

} // verus!
