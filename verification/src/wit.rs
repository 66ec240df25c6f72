//! The resolved interface-type graph that generation runs over.
//!
//! A [`Resolve`] is produced by an external front end and treated as
//! read-only. Types are referenced by index into [`Resolve::types`]; the graph
//! is well formed ([`Resolve::wf`]) when every type refers only to types with
//! a smaller index, so the table is topologically sorted and recursion over it
//! terminates.

use vstd::prelude::*;

verus! {

/// Documentation attached to an item; text only.
pub struct Docs {
    /// The doc text, if any.
    pub contents: Option<Vec<char>>,
}

/// A reference to a component-model type: a primitive, a string, or an entry
/// of the type table.
#[derive(Clone, Copy, PartialEq, Eq, Structural)]
pub enum Type {
    Bool,
    Char,
    U8,
    S8,
    U16,
    S16,
    U32,
    S32,
    U64,
    S64,
    F32,
    F64,
    Str,
    Id(usize),
}

/// An owning or borrowed handle to a resource type.
#[derive(Clone, Copy, PartialEq, Eq, Structural)]
pub enum Handle {
    Own(usize),
    Borrow(usize),
}

/// Who defined a type.
#[derive(Clone, Copy, PartialEq, Eq, Structural)]
pub enum TypeOwner {
    /// Defined directly in a world.
    World(usize),
    /// Defined in an interface.
    Iface(usize),
    /// Anonymous; owned by nothing.
    NoOwner,
}

/// A named field of a record.
pub struct Field {
    pub name: Vec<char>,
    pub ty: Type,
    pub docs: Docs,
}

/// One case of a variant, with an optional payload.
pub struct Case {
    pub name: Vec<char>,
    pub ty: Option<Type>,
    pub docs: Docs,
}

/// One case of an enum.
pub struct EnumCase {
    pub name: Vec<char>,
    pub docs: Docs,
}

/// One member of a flags type.
pub struct Flag {
    pub name: Vec<char>,
    pub docs: Docs,
}

/// The shape of an entry in the type table.
pub enum TypeDefKind {
    Record(Vec<Field>),
    Resource,
    Handle(Handle),
    Flags(Vec<Flag>),
    Tuple(Vec<Type>),
    Variant(Vec<Case>),
    Enum(Vec<EnumCase>),
    OptionOf(Type),
    ResultOf(Option<Type>, Option<Type>),
    ListOf(Type),
    /// A type alias; aliases of resources inherit the resource's identity.
    Alias(Type),
    Future,
    Stream,
    ErrorContext,
}

/// An entry of the type table.
pub struct TypeDef {
    /// The declared name; anonymous types have none.
    pub name: Option<Vec<char>>,
    pub kind: TypeDefKind,
    pub owner: TypeOwner,
    pub docs: Docs,
}

/// What kind of function a [`Function`] is.
#[derive(Clone, Copy, PartialEq, Eq, Structural)]
pub enum FunctionKind {
    Freestanding,
    /// A method of the resource type given by the index.
    Method(usize),
    /// A static function of the resource type given by the index.
    Static(usize),
    /// A constructor of the resource type given by the index.
    Constructor(usize),
}

/// One named parameter of a function.
pub struct Param {
    pub name: Vec<char>,
    pub ty: Type,
}

/// A component-model function.
pub struct Function {
    pub name: Vec<char>,
    pub kind: FunctionKind,
    pub params: Vec<Param>,
    pub result: Option<Type>,
    pub docs: Docs,
}

/// An interface: a named set of functions and types.
pub struct Iface {
    pub name: Option<Vec<char>>,
    pub package: Option<usize>,
    pub functions: Vec<Function>,
}

/// The name of a package: `namespace:name@version`.
pub struct PackageName {
    pub namespace: Vec<char>,
    pub name: Vec<char>,
    /// The version rendered as text, if any.
    pub version: Option<Vec<char>>,
}

/// A package of interfaces.
pub struct Package {
    pub name: PackageName,
}

/// How an import or export of a world is keyed.
pub enum WorldKey {
    /// A plain kebab-name.
    Name(Vec<char>),
    /// An interface, keyed by its index.
    Iface(usize),
}

/// One import or export of a world.
pub enum WorldItem {
    /// An interface, by index.
    Iface(usize),
    /// A bare function.
    Func(Function),
    /// A bare type, by index.
    TypeItem(usize),
}

/// A world: the imports and exports bindings are generated for.
pub struct World {
    pub name: Vec<char>,
    pub imports: Vec<(WorldKey, WorldItem)>,
    pub exports: Vec<(WorldKey, WorldItem)>,
}

/// Whether generation runs for the import or the export direction.
#[derive(Clone, Copy, PartialEq, Eq, Structural)]
pub enum Direction {
    Import,
    Export,
}

/// The discriminant width classes of the canonical ABI.
#[derive(Clone, Copy, PartialEq, Eq, Structural)]
pub enum IntRepr {
    U8,
    U16,
    U32,
    U64,
}

/// How a flags type is represented: a small integer or `n` 32-bit words.
#[derive(Clone, Copy, PartialEq, Eq, Structural)]
pub enum FlagsRepr {
    U8,
    U16,
    U32(usize),
}

/// The discriminant type for `num_cases` cases, as the canonical ABI fixes
/// it.
pub open spec fn spec_discriminant_type(num_cases: nat) -> IntRepr {
    if num_cases <= 256 {
        IntRepr::U8
    } else if num_cases <= 65536 {
        IntRepr::U16
    } else {
        IntRepr::U32
    }
}

/// The discriminant type for a variant or enum of `num_cases` cases.
pub fn discriminant_type(num_cases: usize) -> (r: IntRepr)
    ensures
        r == spec_discriminant_type(num_cases as nat),
{
    if num_cases <= 256 {
        IntRepr::U8
    } else if num_cases <= 65536 {
        IntRepr::U16
    } else {
        IntRepr::U32
    }
}

/// The representation of a flags type with `n` members: a byte up to 8, a
/// 16-bit word up to 16, and `ceil(n / 32)` 32-bit words beyond.
pub open spec fn spec_flags_repr(n: nat) -> FlagsRepr {
    if n == 0 {
        FlagsRepr::U32(0)
    } else if n <= 8 {
        FlagsRepr::U8
    } else if n <= 16 {
        FlagsRepr::U16
    } else {
        FlagsRepr::U32(((n + 31) / 32) as usize)
    }
}

/// The representation of a flags type with `n` members; see
/// [`spec_flags_repr`].
pub fn flags_repr(n: usize) -> (r: FlagsRepr)
    requires
        n < usize::MAX - 31,
    ensures
        r == spec_flags_repr(n as nat),
{
    if n == 0 {
        FlagsRepr::U32(0)
    } else if n <= 8 {
        FlagsRepr::U8
    } else if n <= 16 {
        FlagsRepr::U16
    } else {
        FlagsRepr::U32((n + 31) / 32)
    }
}

impl Type {
    /// A measure for recursion over types: a table reference is one larger
    /// than its index, primitives are zero.
    pub open spec fn rank(self) -> int {
        match self {
            Type::Id(id) => id + 1,
            _ => 0,
        }
    }
}

impl Resolve {
    /// `t` refers only to table entries below `bound`.
    pub open spec fn ty_below(self, t: Type, bound: int) -> bool {
        match t {
            Type::Id(id) => id < bound,
            _ => true,
        }
    }

    /// Every type mentioned by `k` lies below `bound` in the table.
    pub open spec fn kind_below(self, k: TypeDefKind, bound: int) -> bool {
        match k {
            TypeDefKind::Record(fields) => forall|j: int|
                0 <= j < fields.len() ==> self.ty_below(fields[j].ty, bound),
            TypeDefKind::Resource => true,
            TypeDefKind::Handle(h) => match h {
                Handle::Own(r) => r < bound,
                Handle::Borrow(r) => r < bound,
            },
            TypeDefKind::Flags(_) => true,
            TypeDefKind::Tuple(tys) => forall|j: int|
                0 <= j < tys.len() ==> self.ty_below(tys[j], bound),
            TypeDefKind::Variant(cases) => forall|j: int|
                0 <= j < cases.len() ==> (#[trigger] cases[j].ty matches Some(t) ==> self.ty_below(
                    t,
                    bound,
                )),
            TypeDefKind::Enum(_) => true,
            TypeDefKind::OptionOf(t) => self.ty_below(t, bound),
            TypeDefKind::ResultOf(ok, err) => (ok matches Some(t) ==> self.ty_below(t, bound)) && (
            err matches Some(t) ==> self.ty_below(t, bound)),
            TypeDefKind::ListOf(t) => self.ty_below(t, bound),
            TypeDefKind::Alias(t) => self.ty_below(t, bound),
            TypeDefKind::Future => true,
            TypeDefKind::Stream => true,
            TypeDefKind::ErrorContext => true,
        }
    }

    /// A function's parameter and result types all lie in the table.
    pub open spec fn func_wf(self, f: Function) -> bool {
        &&& forall|j: int|
            0 <= j < f.params.len() ==> self.ty_below(#[trigger] f.params[j].ty, self.types.len() as int)
        &&& (f.result matches Some(t) ==> self.ty_below(t, self.types.len() as int))
    }

    /// A world item refers only to entries that exist.
    pub open spec fn item_wf(self, it: WorldItem) -> bool {
        match it {
            WorldItem::Iface(i) => i < self.interfaces.len(),
            WorldItem::Func(f) => self.func_wf(f),
            WorldItem::TypeItem(t) => t < self.types.len(),
        }
    }

    /// Well-formedness of the whole graph: the type table is topologically
    /// sorted (every reference points below the referrer), owners exist, and
    /// interfaces and worlds refer only to entries that exist.
    pub open spec fn wf(self) -> bool {
        &&& forall|i: int|
            0 <= i < self.types.len() ==> self.kind_below(#[trigger] self.types[i].kind, i)
        &&& forall|i: int|
            0 <= i < self.types.len() ==> match #[trigger] self.types[i].owner {
                TypeOwner::World(w) => w < self.worlds.len(),
                TypeOwner::Iface(f) => f < self.interfaces.len(),
                TypeOwner::NoOwner => true,
            }
        &&& forall|i: int|
            0 <= i < self.interfaces.len() ==> (#[trigger] self.interfaces[i].package matches Some(
                p,
            ) ==> p < self.packages.len())
        &&& forall|i: int, j: int|
            0 <= i < self.interfaces.len() && 0 <= j < self.interfaces[i].functions.len()
                ==> self.func_wf(#[trigger] self.interfaces[i].functions[j])
        &&& forall|w: int, j: int|
            0 <= w < self.worlds.len() && 0 <= j < self.worlds[w].imports.len() ==> self.item_wf(
                (#[trigger] self.worlds[w].imports[j]).1,
            )
        &&& forall|w: int, j: int|
            0 <= w < self.worlds.len() && 0 <= j < self.worlds[w].exports.len() ==> self.item_wf(
                (#[trigger] self.worlds[w].exports[j]).1,
            )
    }

    /// The identity at the end of `id`'s alias chain.
    pub open spec fn spec_dealias(self, id: int) -> int
        decreases id,
        when self.wf() && 0 <= id < self.types.len()
    {
        match self.types[id].kind {
            TypeDefKind::Alias(t) => match t {
                Type::Id(next) => self.spec_dealias(next as int),
                _ => id,
            },
            _ => id,
        }
    }

    /// Dealiasing stays inside the table and lands below its start.
    pub proof fn lemma_dealias_in_range(self, id: int)
        requires
            self.wf(),
            0 <= id < self.types.len(),
        ensures
            0 <= self.spec_dealias(id) <= id,
        decreases id,
    {
        match self.types[id].kind {
            TypeDefKind::Alias(t) => match t {
                Type::Id(next) => {
                    self.lemma_dealias_in_range(next as int);
                },
                _ => {},
            },
            _ => {},
        }
    }
}

/// The resolved type graph: the read-only input of a generation pass.
pub struct Resolve {
    pub types: Vec<TypeDef>,
    pub interfaces: Vec<Iface>,
    pub packages: Vec<Package>,
    pub worlds: Vec<World>,
}

/// Follow alias entries until a non-alias type is reached.
pub fn dealias(resolve: &Resolve, id: usize) -> (r: usize)
    requires
        resolve.wf(),
        id < resolve.types.len(),
    ensures
        r == resolve.spec_dealias(id as int),
        r <= id,
    decreases id,
{
    proof {
        resolve.lemma_dealias_in_range(id as int);
    }
    match &resolve.types[id].kind {
        TypeDefKind::Alias(t) => match t {
            Type::Id(next) => dealias(resolve, *next),
            _ => id,
        },
        _ => id,
    }
}

} // verus!
