//! Core-wasm signatures: flattening component-level types into raw wasm
//! types, as the canonical ABI prescribes.
//!
//! A component-level function is lowered to a core function whose parameters
//! are the flattened parameter types, falling back to one pointer when more
//! than [`MAX_FLAT_PARAMS`] words would be needed; results flatten to at most
//! [`MAX_FLAT_RESULTS`] (one) word, falling back to a return pointer. A core
//! signature with more than one result therefore never arises here, and
//! [`reject_multi_value`] refuses one wherever a stream could supply it.

use crate::err::GenError;
use crate::wit::{FlagsRepr, Handle, Resolve, Type, TypeDefKind};
use vstd::prelude::*;

verus! {

/// A raw core-wasm value type.
#[derive(Clone, Copy, PartialEq, Eq, Structural, Debug)]
pub enum WasmType {
    I32,
    I64,
    F32,
    F64,
    /// A pointer into linear memory.
    Pointer,
    /// Either a pointer or a 64-bit integer; arises when variants unify them.
    PointerOrI64,
    /// An array length.
    Length,
}

/// A core-wasm function signature.
pub struct WasmSignature {
    /// The core parameters.
    pub params: Vec<WasmType>,
    /// The core results; never more than one.
    pub results: Vec<WasmType>,
    /// All parameters are passed indirectly through one pointer.
    pub indirect_params: bool,
    /// The result is returned through a pointer (a parameter for imports, the
    /// single result for exports).
    pub retptr: bool,
}

/// Flattened parameters beyond this count are passed indirectly.
pub const MAX_FLAT_PARAMS: usize = 16;

/// Flattened results beyond this count are returned through a pointer.
pub const MAX_FLAT_RESULTS: usize = 1;

/// Whether generation runs for a guest import or a guest export.
#[derive(Clone, Copy, PartialEq, Eq, Structural)]
pub enum AbiVariant {
    GuestImport,
    GuestExport,
}

/// The unification of two flattened slots that different variant cases share.
pub open spec fn spec_join(a: WasmType, b: WasmType) -> WasmType {
    if a == b {
        a
    } else if (a == WasmType::I32 && b == WasmType::F32) || (a == WasmType::F32 && b
        == WasmType::I32) {
        WasmType::I32
    } else if a == WasmType::Length && (b == WasmType::I32 || b == WasmType::F32) {
        WasmType::Length
    } else if (a == WasmType::I32 || a == WasmType::F32) && b == WasmType::Length {
        WasmType::Length
    } else if a == WasmType::Length && (b == WasmType::I64 || b == WasmType::F64) {
        WasmType::I64
    } else if (a == WasmType::I64 || a == WasmType::F64) && b == WasmType::Length {
        WasmType::I64
    } else if a == WasmType::Pointer && (b == WasmType::I32 || b == WasmType::F32 || b
        == WasmType::Length) {
        WasmType::Pointer
    } else if (a == WasmType::I32 || a == WasmType::F32 || a == WasmType::Length) && b
        == WasmType::Pointer {
        WasmType::Pointer
    } else if a == WasmType::Pointer && (b == WasmType::I64 || b == WasmType::F64) {
        WasmType::PointerOrI64
    } else if (a == WasmType::I64 || a == WasmType::F64) && b == WasmType::Pointer {
        WasmType::PointerOrI64
    } else if a == WasmType::PointerOrI64 || b == WasmType::PointerOrI64 {
        WasmType::PointerOrI64
    } else {
        WasmType::I64
    }
}

/// Unify two flattened slots; see [`spec_join`].
pub fn join(a: WasmType, b: WasmType) -> (r: WasmType)
    ensures
        r == spec_join(a, b),
{
    if a == b {
        a
    } else if (matches!(a, WasmType::I32) && matches!(b, WasmType::F32)) || (matches!(
        a,
        WasmType::F32,
    ) && matches!(b, WasmType::I32)) {
        WasmType::I32
    } else if matches!(a, WasmType::Length) && (matches!(b, WasmType::I32) || matches!(
        b,
        WasmType::F32,
    )) {
        WasmType::Length
    } else if (matches!(a, WasmType::I32) || matches!(a, WasmType::F32)) && matches!(
        b,
        WasmType::Length,
    ) {
        WasmType::Length
    } else if matches!(a, WasmType::Length) && (matches!(b, WasmType::I64) || matches!(
        b,
        WasmType::F64,
    )) {
        WasmType::I64
    } else if (matches!(a, WasmType::I64) || matches!(a, WasmType::F64)) && matches!(
        b,
        WasmType::Length,
    ) {
        WasmType::I64
    } else if matches!(a, WasmType::Pointer) && (matches!(b, WasmType::I32) || matches!(
        b,
        WasmType::F32,
    ) || matches!(b, WasmType::Length)) {
        WasmType::Pointer
    } else if (matches!(a, WasmType::I32) || matches!(a, WasmType::F32) || matches!(
        a,
        WasmType::Length,
    )) && matches!(b, WasmType::Pointer) {
        WasmType::Pointer
    } else if matches!(a, WasmType::Pointer) && (matches!(b, WasmType::I64) || matches!(
        b,
        WasmType::F64,
    )) {
        WasmType::PointerOrI64
    } else if (matches!(a, WasmType::I64) || matches!(a, WasmType::F64)) && matches!(
        b,
        WasmType::Pointer,
    ) {
        WasmType::PointerOrI64
    } else if matches!(a, WasmType::PointerOrI64) || matches!(b, WasmType::PointerOrI64) {
        WasmType::PointerOrI64
    } else {
        WasmType::I64
    }
}

/// A bounded list of flattened wasm types: pushes past the capacity set the
/// overflow mark instead.
pub struct FlatTypes {
    /// The types flattened so far.
    pub types: Vec<WasmType>,
    /// How many slots may be used in all.
    pub cap: usize,
    /// Whether a push was refused for want of space.
    pub overflow: bool,
}

impl FlatTypes {
    /// Room for `cap` flattened types.
    pub fn new(cap: usize) -> (r: FlatTypes)
        ensures
            r.types@.len() == 0,
            r.cap == cap,
            !r.overflow,
    {
        FlatTypes { types: Vec::new(), cap, overflow: false }
    }

    /// Append `ty` if there is room; otherwise mark overflow.
    pub fn push(&mut self, ty: WasmType) -> (r: bool)
        ensures
            r == (old(self).types@.len() < old(self).cap),
            final(self).cap == old(self).cap,
            r ==> final(self).types@ == old(self).types@.push(ty),
            r ==> final(self).overflow == old(self).overflow,
            !r ==> final(self).types@ == old(self).types@ && final(self).overflow,
            old(self).types@.len() <= old(self).cap ==> final(self).types@.len() <= final(self).cap,
    {
        if self.types.len() < self.cap {
            self.types.push(ty);
            true
        } else {
            self.overflow = true;
            false
        }
    }
}

/// Whether `ty` flattens to core types at all: no bare resource, future,
/// stream or error-context kind is reached, and every flags set is countable.
/// Running out of flat slots is a separate outcome, not a failure of support.
pub open spec fn spec_flat_supported(resolve: Resolve, ty: Type) -> bool
    decreases ty.rank(), 0int, 0int,
    when resolve.wf() && resolve.ty_below(ty, resolve.types.len() as int)
{
    match ty {
        Type::Id(id) => match resolve.types[id as int].kind {
            TypeDefKind::Alias(t) => spec_flat_supported(resolve, t),
            TypeDefKind::Handle(_) => true,
            TypeDefKind::Resource => false,
            TypeDefKind::Future => false,
            TypeDefKind::Stream => false,
            TypeDefKind::ErrorContext => false,
            TypeDefKind::Flags(fs) => fs@.len() < usize::MAX - 31,
            TypeDefKind::Enum(_) => true,
            TypeDefKind::ListOf(_) => true,
            TypeDefKind::Record(fields) => spec_flat_supported_members(
                resolve,
                fields@.map_values(|f: crate::wit::Field| f.ty),
                0,
                id as int,
            ),
            TypeDefKind::Tuple(ts) => spec_flat_supported_members(resolve, ts@, 0, id as int),
            TypeDefKind::Variant(cs) => spec_flat_supported_cases(
                resolve,
                cs@.map_values(|c: crate::wit::Case| c.ty),
                0,
                id as int,
            ),
            TypeDefKind::OptionOf(t) => spec_flat_supported(resolve, t),
            TypeDefKind::ResultOf(ok, err) => (match ok {
                Some(t) => spec_flat_supported(resolve, t),
                None => true,
            }) && (match err {
                Some(t) => spec_flat_supported(resolve, t),
                None => true,
            }),
        },
        _ => true,
    }
}

/// All of `ts[i..]` flatten; `bound` bounds the members' table indices.
pub open spec fn spec_flat_supported_members(
    resolve: Resolve,
    ts: Seq<Type>,
    i: int,
    bound: int,
) -> bool
    decreases bound, 1int, ts.len() - i,
    when resolve.wf() && 0 <= i <= ts.len() && (forall|j: int|
        0 <= j < ts.len() ==> (#[trigger] ts[j]).rank() <= bound) && bound
        <= resolve.types.len() as int
{
    if i >= ts.len() {
        true
    } else {
        spec_flat_supported(resolve, ts[i]) && spec_flat_supported_members(
            resolve,
            ts,
            i + 1,
            bound,
        )
    }
}

/// All the present payloads of `ts[i..]` flatten.
pub open spec fn spec_flat_supported_cases(
    resolve: Resolve,
    ts: Seq<Option<Type>>,
    i: int,
    bound: int,
) -> bool
    decreases bound, 1int, ts.len() - i,
    when resolve.wf() && 0 <= i <= ts.len() && (forall|j: int|
        0 <= j < ts.len() ==> (match #[trigger] ts[j] {
            Some(t) => t.rank() <= bound,
            None => true,
        })) && bound <= resolve.types.len() as int
{
    if i >= ts.len() {
        true
    } else {
        (match ts[i] {
            Some(t) => spec_flat_supported(resolve, t),
            None => true,
        }) && spec_flat_supported_cases(resolve, ts, i + 1, bound)
    }
}

/// A supported member list supports each of its members.
pub proof fn lemma_flat_members_elem(
    resolve: Resolve,
    ts: Seq<Type>,
    i: int,
    bound: int,
    j: int,
)
    requires
        resolve.wf(),
        0 <= i <= j < ts.len(),
        forall|q: int| 0 <= q < ts.len() ==> (#[trigger] ts[q]).rank() <= bound,
        bound <= resolve.types.len() as int,
        spec_flat_supported_members(resolve, ts, i, bound),
    ensures
        spec_flat_supported(resolve, ts[j]),
    decreases j - i,
{
    if i < j {
        lemma_flat_members_elem(resolve, ts, i + 1, bound, j);
    }
}

/// A supported case list supports each of its payloads.
pub proof fn lemma_flat_cases_elem(
    resolve: Resolve,
    ts: Seq<Option<Type>>,
    i: int,
    bound: int,
    j: int,
)
    requires
        resolve.wf(),
        0 <= i <= j < ts.len(),
        forall|q: int|
            0 <= q < ts.len() ==> (match #[trigger] ts[q] {
                Some(t) => t.rank() <= bound,
                None => true,
            }),
        bound <= resolve.types.len() as int,
        spec_flat_supported_cases(resolve, ts, i, bound),
    ensures
        (match ts[j] {
            Some(t) => spec_flat_supported(resolve, t),
            None => true,
        }),
    decreases j - i,
{
    if i < j {
        lemma_flat_cases_elem(resolve, ts, i + 1, bound, j);
    }
}

/// Whether every parameter and the result of `func` flatten at all.
pub open spec fn spec_func_flat_supported(resolve: Resolve, func: crate::wit::Function) -> bool {
    (forall|j: int|
        0 <= j < func.params@.len() ==> spec_flat_supported(
            resolve,
            (#[trigger] func.params@[j]).ty,
        )) && (match func.result {
        Some(t) => spec_flat_supported(resolve, t),
        None => true,
    })
}

/// Flatten `ty`, appending its core representation to `flat`. Returns false
/// when the capacity ran out or an unsupported type (future, stream, error
/// context, bare resource) was met; `flat.overflow` distinguishes the former.
pub fn push_flat(resolve: &Resolve, ty: &Type, flat: &mut FlatTypes) -> (r: Result<
    bool,
    GenError,
>)
    requires
        resolve.wf(),
        resolve.ty_below(*ty, resolve.types.len() as int),
        old(flat).types@.len() <= old(flat).cap,
    ensures
        final(flat).cap == old(flat).cap,
        final(flat).types@.len() <= final(flat).cap,
        final(flat).types@.len() >= old(flat).types@.len(),
        spec_flat_supported(*resolve, *ty) ==> r is Ok,
    decreases ty.rank(), 0int,
{
    match ty {
        Type::Bool | Type::S8 | Type::U8 | Type::S16 | Type::U16 | Type::S32 | Type::U32
            | Type::Char => Ok(flat.push(WasmType::I32)),
        Type::U64 | Type::S64 => Ok(flat.push(WasmType::I64)),
        Type::F32 => Ok(flat.push(WasmType::F32)),
        Type::F64 => Ok(flat.push(WasmType::F64)),
        Type::Str => {
            let a = flat.push(WasmType::Pointer);
            if a {
                Ok(flat.push(WasmType::Length))
            } else {
                Ok(false)
            }
        },
        Type::Id(id) => {
            let idv = *id;
            match &resolve.types[idv].kind {
                TypeDefKind::Alias(t) => {
                    let t2 = *t;
                    proof {
                        assert(resolve.kind_below(resolve.types[idv as int].kind, idv as int));
                    }
                    push_flat(resolve, &t2, flat)
                },
                TypeDefKind::Handle(_) => Ok(flat.push(WasmType::I32)),
                TypeDefKind::Resource => Err(GenError::Unsupported),
                TypeDefKind::Record(fields) => {
                    let mut j: usize = 0;
                    let mut ok = true;
                    while j < fields.len() && ok
                        invariant
                            resolve.wf(),
                            resolve.types.len() > idv,
                            *ty == Type::Id(idv),
                            resolve.types[idv as int].kind matches TypeDefKind::Record(f) && f
                                == *fields,
                            flat.types@.len() <= flat.cap,
                            flat.cap == old(flat).cap,
                            flat.types@.len() >= old(flat).types@.len(),
                            j <= fields.len(),
                        decreases fields.len() - j,
                    {
                        let t2 = fields[j].ty;
                        proof {
                            assert(resolve.kind_below(
                                resolve.types[idv as int].kind,
                                idv as int,
                            ));
                            assert(resolve.ty_below(fields[j as int].ty, idv as int));
                        }
                        match push_flat(resolve, &t2, flat) {
                            Ok(b) => {
                                ok = b;
                            },
                            Err(e) => {
                                proof {
                                    if spec_flat_supported(*resolve, *ty) {
                                        let mts = fields@.map_values(
                                            |f: crate::wit::Field| f.ty,
                                        );
                                        assert(resolve.kind_below(
                                            resolve.types[idv as int].kind,
                                            idv as int,
                                        ));
                                        assert forall|q: int|
                                            0 <= q < mts.len() implies (#[trigger] mts[q]).rank()
                                            <= idv as int by {
                                            assert(resolve.ty_below(fields@[q].ty, idv as int));
                                        };
                                        assert(mts[j as int] == fields@[j as int].ty);
                                        lemma_flat_members_elem(
                                            *resolve,
                                            mts,
                                            0,
                                            idv as int,
                                            j as int,
                                        );
                                    }
                                }
                                return Err(e);
                            },
                        }
                        j += 1;
                    }
                    Ok(ok)
                },
                TypeDefKind::Tuple(tys) => {
                    let mut j: usize = 0;
                    let mut ok = true;
                    while j < tys.len() && ok
                        invariant
                            resolve.wf(),
                            resolve.types.len() > idv,
                            *ty == Type::Id(idv),
                            resolve.types[idv as int].kind matches TypeDefKind::Tuple(f) && f
                                == *tys,
                            flat.types@.len() <= flat.cap,
                            flat.cap == old(flat).cap,
                            flat.types@.len() >= old(flat).types@.len(),
                            j <= tys.len(),
                        decreases tys.len() - j,
                    {
                        let t2 = tys[j];
                        proof {
                            assert(resolve.kind_below(
                                resolve.types[idv as int].kind,
                                idv as int,
                            ));
                            assert(resolve.ty_below(tys[j as int], idv as int));
                        }
                        match push_flat(resolve, &t2, flat) {
                            Ok(b) => {
                                ok = b;
                            },
                            Err(e) => {
                                proof {
                                    if spec_flat_supported(*resolve, *ty) {
                                        assert(resolve.kind_below(
                                            resolve.types[idv as int].kind,
                                            idv as int,
                                        ));
                                        assert forall|q: int|
                                            0 <= q < tys@.len() implies (#[trigger] tys@[q]).rank()
                                            <= idv as int by {
                                            assert(resolve.ty_below(tys@[q], idv as int));
                                        };
                                        lemma_flat_members_elem(
                                            *resolve,
                                            tys@,
                                            0,
                                            idv as int,
                                            j as int,
                                        );
                                    }
                                }
                                return Err(e);
                            },
                        }
                        j += 1;
                    }
                    Ok(ok)
                },
                TypeDefKind::Flags(fs) => {
                    if fs.len() >= usize::MAX - 31 {
                        return Err(GenError::Unsupported);
                    }
                    let repr = crate::wit::flags_repr(fs.len());
                    let n: usize = match repr {
                        FlagsRepr::U8 => 1,
                        FlagsRepr::U16 => 1,
                        FlagsRepr::U32(n) => n,
                    };
                    let mut j: usize = 0;
                    let mut ok = true;
                    while j < n && ok
                        invariant
                            flat.types@.len() <= flat.cap,
                            flat.cap == old(flat).cap,
                            flat.types@.len() >= old(flat).types@.len(),
                            j <= n,
                        decreases n - j,
                    {
                        ok = flat.push(WasmType::I32);
                        j += 1;
                    }
                    Ok(ok)
                },
                TypeDefKind::ListOf(_) => {
                    let a = flat.push(WasmType::Pointer);
                    if a {
                        Ok(flat.push(WasmType::Length))
                    } else {
                        Ok(false)
                    }
                },
                TypeDefKind::Enum(cases) => {
                    let tag = crate::wit::discriminant_type(cases.len());
                    Ok(flat.push(int_repr_wasm(tag)))
                },
                TypeDefKind::Variant(cases) => {
                    let tag = crate::wit::discriminant_type(cases.len());
                    if !flat.push(int_repr_wasm(tag)) {
                        return Ok(false);
                    }
                    let mut j: usize = 0;
                    loop
                        invariant
                            resolve.wf(),
                            resolve.types.len() > idv,
                            *ty == Type::Id(idv),
                            resolve.types[idv as int].kind matches TypeDefKind::Variant(f) && f
                                == *cases,
                            flat.types@.len() <= flat.cap,
                            flat.cap == old(flat).cap,
                            flat.types@.len() >= old(flat).types@.len(),
                            j <= cases.len(),
                        decreases cases.len() - j,
                    {
                        if j >= cases.len() {
                            return Ok(true);
                        }
                        match &cases[j].ty {
                            Some(t) => {
                                let t2 = *t;
                                proof {
                                    assert(resolve.kind_below(
                                        resolve.types[idv as int].kind,
                                        idv as int,
                                    ));
                                    assert(cases[j as int].ty matches Some(tt) ==> resolve
                                        .ty_below(tt, idv as int));
                                }
                                match push_flat_variant_case(resolve, &t2, flat) {
                                    Ok(b) => {
                                        if !b {
                                            return Ok(false);
                                        }
                                    },
                                    Err(e) => {
                                        proof {
                                            if spec_flat_supported(*resolve, *ty) {
                                                let mcs = cases@.map_values(
                                                    |c: crate::wit::Case| c.ty,
                                                );
                                                assert(resolve.kind_below(
                                                    resolve.types[idv as int].kind,
                                                    idv as int,
                                                ));
                                                assert forall|q: int|
                                                    0 <= q < mcs.len() implies (
                                                match #[trigger] mcs[q] {
                                                    Some(t) => t.rank() <= idv as int,
                                                    None => true,
                                                }) by {
                                                    assert(cases@[q].ty matches Some(tt)
                                                        ==> resolve.ty_below(tt, idv as int));
                                                    assert(mcs[q] == cases@[q].ty);
                                                };
                                                assert(mcs[j as int] == cases@[j as int].ty);
                                                lemma_flat_cases_elem(
                                                    *resolve,
                                                    mcs,
                                                    0,
                                                    idv as int,
                                                    j as int,
                                                );
                                            }
                                        }
                                        return Err(e);
                                    },
                                }
                            },
                            None => {},
                        }
                        j += 1;
                    }
                },
                TypeDefKind::OptionOf(t) => {
                    if !flat.push(WasmType::I32) {
                        return Ok(false);
                    }
                    let t2 = *t;
                    proof {
                        assert(resolve.kind_below(resolve.types[idv as int].kind, idv as int));
                    }
                    push_flat_variant_case(resolve, &t2, flat)
                },
                TypeDefKind::ResultOf(ok_t, err_t) => {
                    if !flat.push(WasmType::I32) {
                        return Ok(false);
                    }
                    proof {
                        assert(resolve.kind_below(resolve.types[idv as int].kind, idv as int));
                    }
                    if let Some(t) = ok_t {
                        let t2 = *t;
                        match push_flat_variant_case(resolve, &t2, flat) {
                            Ok(b) => {
                                if !b {
                                    return Ok(false);
                                }
                            },
                            Err(e) => {
                                return Err(e);
                            },
                        }
                    }
                    if let Some(t) = err_t {
                        let t2 = *t;
                        push_flat_variant_case(resolve, &t2, flat)
                    } else {
                        Ok(true)
                    }
                },
                TypeDefKind::Future | TypeDefKind::Stream | TypeDefKind::ErrorContext => Err(
                    GenError::Unsupported,
                ),
            }
        },
    }
}

/// The wasm type that carries a discriminant of the given width.
pub fn int_repr_wasm(r: crate::wit::IntRepr) -> (t: WasmType)
    ensures
        t == (match r {
            crate::wit::IntRepr::U8 => WasmType::I32,
            crate::wit::IntRepr::U16 => WasmType::I32,
            crate::wit::IntRepr::U32 => WasmType::I32,
            crate::wit::IntRepr::U64 => WasmType::I64,
        }),
{
    match r {
        crate::wit::IntRepr::U8 => WasmType::I32,
        crate::wit::IntRepr::U16 => WasmType::I32,
        crate::wit::IntRepr::U32 => WasmType::I32,
        crate::wit::IntRepr::U64 => WasmType::I64,
    }
}

/// Flatten one variant case and unify its slots with the slots other cases of
/// the same variant already claimed, growing the list where this case is the
/// widest so far.
fn push_flat_variant_case(resolve: &Resolve, ty: &Type, flat: &mut FlatTypes) -> (r: Result<
    bool,
    GenError,
>)
    requires
        resolve.wf(),
        resolve.ty_below(*ty, resolve.types.len() as int),
        old(flat).types@.len() <= old(flat).cap,
    ensures
        final(flat).cap == old(flat).cap,
        final(flat).types@.len() <= final(flat).cap,
        final(flat).types@.len() >= old(flat).types@.len(),
        spec_flat_supported(*resolve, *ty) ==> r is Ok,
    decreases ty.rank(), 1int,
{
    let start = flat.types.len();
    let mut temp = FlatTypes::new(if flat.cap >= start {
        flat.cap - start
    } else {
        0
    });
    let b = match push_flat(resolve, ty, &mut temp) {
        Ok(b) => b,
        Err(e) => {
            return Err(e);
        },
    };
    if !b {
        flat.overflow = true;
        return Ok(false);
    }
    let mut i: usize = 0;
    while i < temp.types.len()
        invariant
            i <= temp.types@.len(),
            temp.types@.len() + start <= flat.cap,
            flat.cap == old(flat).cap,
            start == old(flat).types@.len(),
            start <= flat.types@.len(),
            flat.types@.len() <= flat.cap,
            flat.types@.len() >= old(flat).types@.len(),
        decreases temp.types@.len() - i,
    {
        let t = temp.types[i];
        if start + i < flat.types.len() {
            let merged = join(flat.types[start + i], t);
            flat.types.set(start + i, merged);
        } else {
            let pushed = flat.push(t);
            if !pushed {
                return Ok(false);
            }
        }
        i += 1;
    }
    Ok(true)
}

/// The core-wasm signature of `func` under the given ABI variant; see the
/// module documentation. The result list never exceeds one entry.
pub fn wasm_signature(
    resolve: &Resolve,
    variant: AbiVariant,
    func: &crate::wit::Function,
) -> (r: Result<WasmSignature, GenError>)
    requires
        resolve.wf(),
        resolve.func_wf(*func),
    ensures
        r matches Ok(sig) ==> sig.results@.len() <= MAX_FLAT_RESULTS as nat,
        r matches Ok(sig) ==> (sig.retptr ==> (match variant {
            AbiVariant::GuestImport => sig.results@.len() == 0,
            AbiVariant::GuestExport => sig.results@ =~= seq![WasmType::Pointer],
        })),
        spec_func_flat_supported(*resolve, *func) ==> r is Ok,
{
    let mut params = FlatTypes::new(MAX_FLAT_PARAMS);
    let mut ok = true;
    let mut j: usize = 0;
    while j < func.params.len() && ok
        invariant
            resolve.wf(),
            resolve.func_wf(*func),
            params.types@.len() <= params.cap,
            params.cap == MAX_FLAT_PARAMS,
            j <= func.params@.len(),
        decreases func.params@.len() - j,
    {
        let t2 = func.params[j].ty;
        proof {
            assert(resolve.ty_below(func.params[j as int].ty, resolve.types.len() as int));
        }
        match push_flat(resolve, &t2, &mut params) {
            Ok(b) => {
                ok = b;
            },
            Err(e) => {
                return Err(e);
            },
        }
        j += 1;
    }
    let indirect_params = !ok;
    let mut param_list: Vec<WasmType>;
    if indirect_params {
        param_list = Vec::new();
        param_list.push(WasmType::Pointer);
    } else {
        // Guest-exported methods receive the resource representation pointer
        // as their first argument.
        param_list = params.types;
        let is_export_method = match (func.kind, variant) {
            (crate::wit::FunctionKind::Method(_), AbiVariant::GuestExport) => true,
            _ => false,
        };
        if is_export_method && param_list.len() > 0 {
            param_list.set(0, WasmType::Pointer);
        }
    }
    let mut results = FlatTypes::new(MAX_FLAT_RESULTS);
    let mut retptr = false;
    let mut rok = true;
    if let Some(t) = &func.result {
        let t2 = *t;
        match push_flat(resolve, &t2, &mut results) {
            Ok(b) => {
                rok = b;
            },
            Err(e) => {
                return Err(e);
            },
        }
    }
    let mut result_list: Vec<WasmType> = results.types;
    if !rok {
        retptr = true;
        result_list = Vec::new();
        match variant {
            AbiVariant::GuestImport => {
                param_list.push(WasmType::Pointer);
            },
            AbiVariant::GuestExport => {
                result_list.push(WasmType::Pointer);
                proof {
                    assert(result_list@ =~= seq![WasmType::Pointer]);
                }
            },
        }
    }
    Ok(
        WasmSignature {
            params: param_list,
            results: result_list,
            indirect_params,
            retptr,
        },
    )
}

/// Refuse a core signature whose result arity exceeds one: multi-value
/// returns are not supported and must abort generation before any code is
/// emitted.
pub fn reject_multi_value(sig: &WasmSignature) -> (r: Result<(), GenError>)
    ensures
        r is Ok <==> sig.results@.len() <= 1,
        r is Err ==> r == Err::<(), GenError>(GenError::MultiValueReturn),
{
    if sig.results.len() <= 1 {
        Ok(())
    } else {
        Err(GenError::MultiValueReturn)
    }
}

} // verus!
