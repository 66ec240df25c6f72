//! Structural type-name encoding, owner namespaces, and function names.
//!
//! A named type renders as its snake-case name; an anonymous type gets a
//! structurally derived encoding (`list_u8`, `option_string`, `tuple2_u32_u32`,
//! `own_res`, `borrow_res`, `result_u32_void`). The owner namespace prefixes a
//! type's canonical name; generated function names join the interface
//! identifier and the snake-case function name.

use crate::err::GenError;
use crate::ident::{snake_of, snake_chars};
use crate::text::{chars_eq, dec_digits, push_chars, push_str, push_usize, str_chars};
use crate::wit::{Handle, Resolve, Type, TypeDefKind, TypeOwner, WorldKey};
use vstd::prelude::*;

verus! {

/// The structural encoding of `ty`, or `None` where it cannot be named
/// (anonymous records, resources, flags, enums or variants never occur, and
/// futures, streams and error contexts are unsupported).
pub open spec fn spec_ty_name(resolve: Resolve, ty: Type) -> Option<Seq<char>>
    decreases ty.rank(), 0int, 0int,
    when resolve.wf() && resolve.ty_below(ty, resolve.types.len() as int)
{
    match ty {
        Type::Bool => Some("bool"@),
        Type::Char => Some("char32"@),
        Type::U8 => Some("u8"@),
        Type::S8 => Some("s8"@),
        Type::U16 => Some("u16"@),
        Type::S16 => Some("s16"@),
        Type::U32 => Some("u32"@),
        Type::S32 => Some("s32"@),
        Type::U64 => Some("u64"@),
        Type::S64 => Some("s64"@),
        Type::F32 => Some("f32"@),
        Type::F64 => Some("f64"@),
        Type::Str => Some("string"@),
        Type::Id(id) => {
            match resolve.types[id as int].name {
                Some(n) => Some(snake_of(n@)),
                None => match resolve.types[id as int].kind {
                    TypeDefKind::Alias(t) => spec_ty_name(resolve, t),
                    TypeDefKind::Tuple(ts) => match spec_ty_name_members(
                        resolve,
                        ts@,
                        0,
                        id as int,
                    ) {
                        Some(parts) => Some("tuple"@ + dec_digits(ts@.len() as nat) + parts),
                        None => None,
                    },
                    TypeDefKind::OptionOf(t) => match spec_ty_name(resolve, t) {
                        Some(n) => Some("option_"@ + n),
                        None => None,
                    },
                    TypeDefKind::ResultOf(ok, err) => {
                        let okn = match ok {
                            Some(t) => spec_ty_name(resolve, t),
                            None => Some("void"@),
                        };
                        let errn = match err {
                            Some(t) => spec_ty_name(resolve, t),
                            None => Some("void"@),
                        };
                        match (okn, errn) {
                            (Some(a), Some(b)) => Some("result_"@ + a + "_"@ + b),
                            _ => None,
                        }
                    },
                    TypeDefKind::ListOf(t) => match spec_ty_name(resolve, t) {
                        Some(n) => Some("list_"@ + n),
                        None => None,
                    },
                    TypeDefKind::Handle(h) => {
                        let res = match h {
                            Handle::Own(r) => r,
                            Handle::Borrow(r) => r,
                        };
                        match spec_ty_name(resolve, Type::Id(res)) {
                            Some(n) => Some(
                                (match h {
                                    Handle::Own(_) => "own_"@,
                                    Handle::Borrow(_) => "borrow_"@,
                                }) + n,
                            ),
                            None => None,
                        }
                    },
                    _ => None,
                },
            }
        },
    }
}

/// The `_`-separated encodings of the members of a tuple from index `i` on;
/// `bound` bounds the members' table indices.
pub open spec fn spec_ty_name_members(
    resolve: Resolve,
    ts: Seq<Type>,
    i: int,
    bound: int,
) -> Option<Seq<char>>
    decreases bound, 1int, ts.len() - i,
    when resolve.wf() && 0 <= i <= ts.len() && (forall|j: int|
        0 <= j < ts.len() ==> (#[trigger] ts[j]).rank() <= bound) && bound
        <= resolve.types.len() as int
{
    if i >= ts.len() {
        Some(Seq::empty())
    } else {
        match spec_ty_name(resolve, ts[i]) {
            Some(n) => match spec_ty_name_members(resolve, ts, i + 1, bound) {
                Some(rest) => Some("_"@ + n + rest),
                None => None,
            },
            None => None,
        }
    }
}

/// Append the structural encoding of `ty` to `dst`; see [`spec_ty_name`]. On
/// an error nothing of the pass survives, so `dst` is left unspecified.
pub fn push_ty_name(resolve: &Resolve, ty: &Type, dst: &mut Vec<char>) -> (r: Result<
    (),
    GenError,
>)
    requires
        resolve.wf(),
        resolve.ty_below(*ty, resolve.types.len() as int),
    ensures
        r is Ok <==> spec_ty_name(*resolve, *ty) is Some,
        r is Ok ==> final(dst)@ == old(dst)@ + spec_ty_name(*resolve, *ty)->Some_0,
    decreases ty.rank(), 1int,
{
    match ty {
        Type::Bool => Ok(push_str(dst, "bool")),
        Type::Char => Ok(push_str(dst, "char32")),
        Type::U8 => Ok(push_str(dst, "u8")),
        Type::S8 => Ok(push_str(dst, "s8")),
        Type::U16 => Ok(push_str(dst, "u16")),
        Type::S16 => Ok(push_str(dst, "s16")),
        Type::U32 => Ok(push_str(dst, "u32")),
        Type::S32 => Ok(push_str(dst, "s32")),
        Type::U64 => Ok(push_str(dst, "u64")),
        Type::S64 => Ok(push_str(dst, "s64")),
        Type::F32 => Ok(push_str(dst, "f32")),
        Type::F64 => Ok(push_str(dst, "f64")),
        Type::Str => Ok(push_str(dst, "string")),
        Type::Id(id) => {
            let idv = *id;
            proof {
                assert(resolve.kind_below(resolve.types[idv as int].kind, idv as int));
            }
            match &resolve.types[idv].name {
                Some(n) => {
                    let sn = snake_chars(n);
                    push_chars(dst, &sn);
                    Ok(())
                },
                None => match &resolve.types[idv].kind {
                    TypeDefKind::Alias(t) => {
                        let t2 = *t;
                        push_ty_name(resolve, &t2, dst)
                    },
                    TypeDefKind::Tuple(ts) => {
                        push_str(dst, "tuple");
                        push_usize(dst, ts.len());
                        let ghost tseq = ts@;
                        let ghost base = dst@;
                        let mut j: usize = 0;
                        proof {
                            assert(forall|q: int|
                                0 <= q < tseq.len() ==> (#[trigger] tseq[q]).rank() <= idv as int);
                        }
                        loop
                            invariant
                                resolve.wf(),
                                resolve.types.len() > idv,
                                *ty == Type::Id(idv),
                                resolve.types[idv as int].name is None,
                                resolve.types[idv as int].kind matches TypeDefKind::Tuple(f) && f
                                    == *ts,
                                tseq == ts@,
                                j <= ts@.len(),
                                base == old(dst)@ + "tuple"@ + dec_digits(ts@.len() as nat),
                                spec_ty_name_members(*resolve, tseq, 0, idv as int) is Some
                                    <==> spec_ty_name_members(*resolve, tseq, j as int, idv as int)
                                    is Some,
                                spec_ty_name_members(*resolve, tseq, 0, idv as int) matches Some(w)
                                    ==> base + w == dst@ + spec_ty_name_members(
                                    *resolve,
                                    tseq,
                                    j as int,
                                    idv as int,
                                )->Some_0,
                            decreases ts@.len() - j,
                        {
                            if j >= ts.len() {
                                proof {
                                    assert(spec_ty_name_members(*resolve, tseq, j as int, idv as int)
                                        == Some(Seq::<char>::empty()));
                                    let w0 = spec_ty_name_members(*resolve, tseq, 0, idv as int);
                                    assert(w0 is Some);
                                    assert(base + w0->Some_0 =~= dst@ + Seq::<char>::empty());
                                    assert(dst@ + Seq::<char>::empty() =~= dst@);
                                    assert(spec_ty_name(*resolve, *ty) == Some(
                                        "tuple"@ + dec_digits(ts@.len() as nat) + w0->Some_0,
                                    ));
                                    assert(old(dst)@ + ("tuple"@ + dec_digits(ts@.len() as nat)
                                        + w0->Some_0) =~= base + w0->Some_0);
                                }
                                return Ok(());
                            }
                            let ghost dpre = dst@;
                            push_str(dst, "_");
                            let t2 = ts[j];
                            proof {
                                assert(resolve.ty_below(tseq[j as int], idv as int));
                            }
                            match push_ty_name(resolve, &t2, dst) {
                                Ok(_) => {},
                                Err(e) => {
                                    proof {
                                        assert(spec_ty_name_members(
                                            *resolve,
                                            tseq,
                                            j as int,
                                            idv as int,
                                        ) is None);
                                    }
                                    return Err(e);
                                },
                            }
                            proof {
                                let n = spec_ty_name(*resolve, tseq[j as int])->Some_0;
                                let restj = spec_ty_name_members(
                                    *resolve,
                                    tseq,
                                    j + 1,
                                    idv as int,
                                );
                                assert(spec_ty_name_members(*resolve, tseq, j as int, idv as int)
                                    matches Some(v) ==> restj is Some && v == "_"@ + n
                                    + restj->Some_0);
                                if spec_ty_name_members(*resolve, tseq, 0, idv as int) is Some {
                                    let w = spec_ty_name_members(
                                        *resolve,
                                        tseq,
                                        0,
                                        idv as int,
                                    )->Some_0;
                                    assert(dst@ == dpre + "_"@ + n);
                                    assert(base + w == dpre + ("_"@ + n + restj->Some_0));
                                    assert(dpre + ("_"@ + n + restj->Some_0) =~= (dpre + "_"@ + n)
                                        + restj->Some_0);
                                }
                            }
                            j += 1;
                        }
                    },
                    TypeDefKind::OptionOf(t) => {
                        push_str(dst, "option_");
                        let t2 = *t;
                        push_ty_name(resolve, &t2, dst)
                    },
                    TypeDefKind::ResultOf(ok, err) => {
                        push_str(dst, "result_");
                        let ok2 = *ok;
                        let err2 = *err;
                        match ok2 {
                            Some(t) => {
                                let t2 = t;
                                match push_ty_name(resolve, &t2, dst) {
                                    Ok(_) => {},
                                    Err(e) => {
                                        return Err(e);
                                    },
                                }
                            },
                            None => {
                                push_str(dst, "void");
                            },
                        }
                        push_str(dst, "_");
                        match err2 {
                            Some(t) => {
                                let t2 = t;
                                match push_ty_name(resolve, &t2, dst) {
                                    Ok(_) => {},
                                    Err(e) => {
                                        return Err(e);
                                    },
                                }
                            },
                            None => {
                                push_str(dst, "void");
                            },
                        }
                        Ok(())
                    },
                    TypeDefKind::ListOf(t) => {
                        push_str(dst, "list_");
                        let t2 = *t;
                        push_ty_name(resolve, &t2, dst)
                    },
                    TypeDefKind::Handle(h) => {
                        let res = match h {
                            Handle::Own(r) => *r,
                            Handle::Borrow(r) => *r,
                        };
                        match h {
                            Handle::Own(_) => push_str(dst, "own_"),
                            Handle::Borrow(_) => push_str(dst, "borrow_"),
                        }
                        let t2 = Type::Id(res);
                        push_ty_name(resolve, &t2, dst)
                    },
                    _ => Err(GenError::Unsupported),
                },
            }
        },
    }
}

/// Whether `ty` is built from primitives alone (lists, options, tuples and
/// aliases of primitives): such anonymous types are pooled globally.
pub open spec fn spec_is_prim(resolve: Resolve, ty: Type) -> bool
    decreases ty.rank(), 0int, 0int,
    when resolve.wf() && resolve.ty_below(ty, resolve.types.len() as int)
{
    match ty {
        Type::Id(id) => match resolve.types[id as int].kind {
            TypeDefKind::ListOf(t) => spec_is_prim(resolve, t),
            TypeDefKind::OptionOf(t) => spec_is_prim(resolve, t),
            TypeDefKind::Tuple(ts) => spec_is_prim_members(resolve, ts@, 0, id as int),
            TypeDefKind::Alias(t) => spec_is_prim(resolve, t),
            _ => false,
        },
        _ => true,
    }
}

/// Whether the tuple members from index `i` on are all primitive.
pub open spec fn spec_is_prim_members(resolve: Resolve, ts: Seq<Type>, i: int, bound: int) -> bool
    decreases bound, 1int, ts.len() - i,
    when resolve.wf() && 0 <= i <= ts.len() && (forall|j: int|
        0 <= j < ts.len() ==> (#[trigger] ts[j]).rank() <= bound) && bound
        <= resolve.types.len() as int
{
    if i >= ts.len() {
        true
    } else {
        spec_is_prim(resolve, ts[i]) && spec_is_prim_members(resolve, ts, i + 1, bound)
    }
}

/// Whether `ty` is built from primitives alone; see [`spec_is_prim`].
pub fn is_prim_type(resolve: &Resolve, ty: &Type) -> (r: bool)
    requires
        resolve.wf(),
        resolve.ty_below(*ty, resolve.types.len() as int),
    ensures
        r == spec_is_prim(*resolve, *ty),
    decreases ty.rank(), 1int,
{
    match ty {
        Type::Id(id) => {
            let idv = *id;
            proof {
                assert(resolve.kind_below(resolve.types[idv as int].kind, idv as int));
            }
            match &resolve.types[idv].kind {
                TypeDefKind::ListOf(t) => {
                    let t2 = *t;
                    is_prim_type(resolve, &t2)
                },
                TypeDefKind::OptionOf(t) => {
                    let t2 = *t;
                    is_prim_type(resolve, &t2)
                },
                TypeDefKind::Alias(t) => {
                    let t2 = *t;
                    is_prim_type(resolve, &t2)
                },
                TypeDefKind::Tuple(ts) => {
                    let ghost tseq = ts@;
                    proof {
                        assert(forall|q: int|
                            0 <= q < tseq.len() ==> (#[trigger] tseq[q]).rank() <= idv as int);
                    }
                    let mut j: usize = 0;
                    loop
                        invariant
                            resolve.wf(),
                            resolve.types.len() > idv,
                            *ty == Type::Id(idv),
                            resolve.types[idv as int].kind matches TypeDefKind::Tuple(f) && f
                                == *ts,
                            tseq == ts@,
                            j <= ts@.len(),
                            spec_is_prim_members(*resolve, tseq, 0, idv as int)
                                == spec_is_prim_members(*resolve, tseq, j as int, idv as int),
                        decreases ts@.len() - j,
                    {
                        if j >= ts.len() {
                            return true;
                        }
                        let t2 = ts[j];
                        proof {
                            assert(resolve.ty_below(tseq[j as int], idv as int));
                        }
                        if !is_prim_type(resolve, &t2) {
                            return false;
                        }
                        j += 1;
                    }
                },
                _ => false,
            }
        },
        _ => true,
    }
}

/// An interface rename requested through the options: occurrences of the
/// interface keyed by `key` are rendered as `to` instead.
pub struct Rename {
    pub key: WorldKey,
    pub to: Vec<char>,
}

/// Two world keys name the same import or export.
pub open spec fn key_eq(a: WorldKey, b: WorldKey) -> bool {
    match (a, b) {
        (WorldKey::Name(x), WorldKey::Name(y)) => x@ == y@,
        (WorldKey::Iface(x), WorldKey::Iface(y)) => x == y,
        _ => false,
    }
}

/// The requested rename for `key`, if any: the first matching entry.
pub open spec fn spec_rename_of(renames: Seq<Rename>, key: WorldKey) -> Option<Seq<char>>
    decreases renames.len(),
{
    if renames.len() == 0 {
        None
    } else if key_eq(renames[0].key, key) {
        Some(renames[0].to@)
    } else {
        spec_rename_of(renames.drop_first(), key)
    }
}

/// Whether two world keys name the same import or export.
pub fn world_key_eq(a: &WorldKey, b: &WorldKey) -> (r: bool)
    ensures
        r == key_eq(*a, *b),
{
    match (a, b) {
        (WorldKey::Name(x), WorldKey::Name(y)) => chars_eq(x, y),
        (WorldKey::Iface(x), WorldKey::Iface(y)) => *x == *y,
        _ => false,
    }
}

/// Look up the requested rename for `key`; see [`spec_rename_of`].
pub fn rename_of<'a>(renames: &'a Vec<Rename>, key: &WorldKey) -> (r: Option<&'a Vec<char>>)
    ensures
        match r {
            Some(v) => spec_rename_of(renames@, *key) == Some(v@),
            None => spec_rename_of(renames@, *key) is None,
        },
{
    let mut i: usize = 0;
    proof {
        assert(renames@.skip(0) =~= renames@);
    }
    while i < renames.len()
        invariant
            i <= renames@.len(),
            spec_rename_of(renames@, *key) == spec_rename_of(
                renames@.skip(i as int),
                *key,
            ),
        decreases renames@.len() - i,
    {
        proof {
            assert(renames@.skip(i as int)[0] == renames@[i as int]);
            assert(renames@.skip(i as int).drop_first() =~= renames@.skip(i + 1));
        }
        if world_key_eq(&renames[i].key, key) {
            return Some(&renames[i].to);
        }
        i += 1;
    }
    None
}

/// The version text with `.`, `-` and `+` replaced by `_`.
pub open spec fn spec_version_ident(v: Seq<char>) -> Seq<char> {
    v.map_values(
        |c: char|
            if c == '.' || c == '-' || c == '+' {
                '_'
            } else {
                c
            },
    )
}

/// Normalize a version text into an identifier part; see
/// [`spec_version_ident`].
pub fn version_ident(v: &Vec<char>) -> (r: Vec<char>)
    ensures
        r@ == spec_version_ident(v@),
{
    let mut r: Vec<char> = Vec::new();
    let mut i: usize = 0;
    while i < v.len()
        invariant
            i <= v@.len(),
            r@ == spec_version_ident(v@.take(i as int)),
        decreases v@.len() - i,
    {
        let c = v[i];
        if c == '.' || c == '-' || c == '+' {
            r.push('_');
        } else {
            r.push(c);
        }
        proof {
            assert(r@ =~= spec_version_ident(v@.take(i + 1)));
        }
        i += 1;
    }
    proof {
        assert(v@.take(v@.len() as int) =~= v@);
    }
    r
}

/// Whether some other package shares `ns:name` with package `p` but carries a
/// different version; identifiers then embed the version.
pub open spec fn spec_has_multiple_versions(resolve: Resolve, p: int) -> bool {
    exists|q: int|
        0 <= q < resolve.packages.len() && resolve.packages[q].name.namespace@
            == resolve.packages[p].name.namespace@ && resolve.packages[q].name.name@
            == resolve.packages[p].name.name@ && !version_opt_eq(
            resolve.packages[q].name.version,
            resolve.packages[p].name.version,
        )
}

/// Whether two optional version texts are the same.
pub open spec fn version_opt_eq(a: Option<Vec<char>>, b: Option<Vec<char>>) -> bool {
    match (a, b) {
        (None, None) => true,
        (Some(x), Some(y)) => x@ == y@,
        _ => false,
    }
}

fn version_opt_eq_exec(a: &Option<Vec<char>>, b: &Option<Vec<char>>) -> (r: bool)
    ensures
        r == version_opt_eq(*a, *b),
{
    match (a, b) {
        (None, None) => true,
        (Some(x), Some(y)) => chars_eq(x, y),
        _ => false,
    }
}

/// Whether another package shares the name of package `p` with a different
/// version; see [`spec_has_multiple_versions`].
pub fn has_multiple_versions(resolve: &Resolve, p: usize) -> (r: bool)
    requires
        p < resolve.packages.len(),
    ensures
        r == spec_has_multiple_versions(*resolve, p as int),
{
    let mut q: usize = 0;
    while q < resolve.packages.len()
        invariant
            p < resolve.packages@.len(),
            q <= resolve.packages@.len(),
            forall|x: int|
                0 <= x < q ==> !(resolve.packages[x].name.namespace@
                    == resolve.packages[p as int].name.namespace@ && resolve.packages[x].name.name@
                    == resolve.packages[p as int].name.name@ && !version_opt_eq(
                    (#[trigger] resolve.packages[x]).name.version,
                    resolve.packages[p as int].name.version,
                )),
        decreases resolve.packages@.len() - q,
    {
        let same_ns = chars_eq(
            &resolve.packages[q].name.namespace,
            &resolve.packages[p].name.namespace,
        );
        let same_name = chars_eq(&resolve.packages[q].name.name, &resolve.packages[p].name.name);
        let same_version = version_opt_eq_exec(
            &resolve.packages[q].name.version,
            &resolve.packages[p].name.version,
        );
        if same_ns && same_name && !same_version {
            return true;
        }
        q += 1;
    }
    false
}

/// The identifier an interface renders as: a requested rename wins (prefixed
/// with `exports_` in the export direction for interface-keyed entries); a
/// plain-named entry renders as its snake-case name; an interface-keyed entry
/// renders as `[exports_]namespace_pkg_[version_]iface`, the version appearing
/// only when several versions of the package are live. `None` when the
/// interface or its package is absent from the tables.
pub open spec fn spec_interface_identifier(
    resolve: Resolve,
    key: WorldKey,
    in_export: bool,
    renames: Seq<Rename>,
) -> Option<Seq<char>> {
    match spec_rename_of(renames, key) {
        Some(rn) => Some(
            (if in_export && key matches WorldKey::Iface(_) {
                "exports_"@
            } else {
                Seq::<char>::empty()
            }) + rn,
        ),
        None => match key {
            WorldKey::Name(n) => Some(snake_of(n@)),
            WorldKey::Iface(id) => {
                if id < resolve.interfaces.len() {
                    let iface = resolve.interfaces[id as int];
                    match (iface.package, iface.name) {
                        (Some(p), Some(iname)) => {
                            if p < resolve.packages.len() {
                                let pkg = resolve.packages[p as int];
                                let pre = if in_export {
                                    "exports_"@
                                } else {
                                    Seq::<char>::empty()
                                };
                                let base = pre + snake_of(pkg.name.namespace@) + "_"@ + snake_of(
                                    pkg.name.name@,
                                ) + "_"@;
                                let versioned = if spec_has_multiple_versions(resolve, p as int) {
                                    match pkg.name.version {
                                        Some(v) => base + spec_version_ident(v@) + "_"@,
                                        None => base,
                                    }
                                } else {
                                    base
                                };
                                Some(versioned + snake_of(iname@))
                            } else {
                                None
                            }
                        },
                        _ => None,
                    }
                } else {
                    None
                }
            },
        },
    }
}

/// Render the identifier for an interface; see
/// [`spec_interface_identifier`].
pub fn interface_identifier(
    resolve: &Resolve,
    key: &WorldKey,
    in_export: bool,
    renames: &Vec<Rename>,
) -> (r: Result<Vec<char>, GenError>)
    ensures
        r matches Ok(v) ==> spec_interface_identifier(*resolve, *key, in_export, renames@)
            == Some(v@),
        r is Err <==> spec_interface_identifier(*resolve, *key, in_export, renames@) is None,
{
    if let Some(rn) = rename_of(renames, key) {
        let mut ns: Vec<char> = Vec::new();
        let is_iface = matches!(key, WorldKey::Iface(_));
        if in_export && is_iface {
            push_str(&mut ns, "exports_");
        }
        push_chars(&mut ns, rn);
        return Ok(ns);
    }
    match key {
        WorldKey::Name(n) => Ok(snake_chars(n)),
        WorldKey::Iface(id) => {
            let idv = *id;
            if idv >= resolve.interfaces.len() {
                return Err(GenError::MissingEntry);
            }
            let pkg_idx = match &resolve.interfaces[idv].package {
                Some(p) => *p,
                None => {
                    return Err(GenError::MissingEntry);
                },
            };
            if pkg_idx >= resolve.packages.len() {
                return Err(GenError::MissingEntry);
            }
            let mut ns: Vec<char> = Vec::new();
            if in_export {
                push_str(&mut ns, "exports_");
            }
            let s1 = snake_chars(&resolve.packages[pkg_idx].name.namespace);
            push_chars(&mut ns, &s1);
            push_str(&mut ns, "_");
            let s2 = snake_chars(&resolve.packages[pkg_idx].name.name);
            push_chars(&mut ns, &s2);
            push_str(&mut ns, "_");
            if has_multiple_versions(resolve, pkg_idx) {
                if let Some(v) = &resolve.packages[pkg_idx].name.version {
                    let vi = version_ident(v);
                    push_chars(&mut ns, &vi);
                    push_str(&mut ns, "_");
                }
            }
            match &resolve.interfaces[idv].name {
                Some(iname) => {
                    let s3 = snake_chars(iname);
                    push_chars(&mut ns, &s3);
                    Ok(ns)
                },
                None => Err(GenError::MissingEntry),
            }
        },
    }
}

/// The owner namespace of type `id`: the current interface's identifier for
/// interface-owned and anonymous types generated inside an interface, the
/// snake-case world name otherwise. The export prefix applies when generation
/// runs in the export direction (`!in_import`). `None` where the owner does
/// not match the current context.
pub open spec fn spec_owner_namespace(
    resolve: Resolve,
    iface: Option<(usize, WorldKey)>,
    in_import: bool,
    world: Seq<char>,
    id: int,
    renames: Seq<Rename>,
) -> Option<Seq<char>> {
    match (resolve.types[id].owner, iface) {
        (TypeOwner::Iface(a), Some((b, key))) => if a == b {
            spec_interface_identifier(resolve, key, !in_import, renames)
        } else {
            None
        },
        (TypeOwner::Iface(_), None) => None,
        (TypeOwner::World(_), None) => Some(snake_of(world)),
        (TypeOwner::World(_), Some(_)) => None,
        (TypeOwner::NoOwner, Some((_, key))) => spec_interface_identifier(
            resolve,
            key,
            !in_import,
            renames,
        ),
        (TypeOwner::NoOwner, None) => Some(snake_of(world)),
    }
}

/// Render the owner namespace of type `id`; see [`spec_owner_namespace`].
pub fn owner_namespace(
    resolve: &Resolve,
    iface: &Option<(usize, WorldKey)>,
    in_import: bool,
    world: &Vec<char>,
    id: usize,
    renames: &Vec<Rename>,
) -> (r: Result<Vec<char>, GenError>)
    requires
        id < resolve.types.len(),
    ensures
        r matches Ok(v) ==> spec_owner_namespace(
            *resolve,
            *iface,
            in_import,
            world@,
            id as int,
            renames@,
        ) == Some(v@),
        r is Err <==> spec_owner_namespace(
            *resolve,
            *iface,
            in_import,
            world@,
            id as int,
            renames@,
        ) is None,
{
    match (&resolve.types[id].owner, iface) {
        (TypeOwner::Iface(a), Some((b, key))) => {
            if *a == *b {
                interface_identifier(resolve, key, !in_import, renames)
            } else {
                Err(GenError::MissingEntry)
            }
        },
        (TypeOwner::Iface(_), None) => Err(GenError::MissingEntry),
        (TypeOwner::World(_), None) => Ok(snake_chars(world)),
        (TypeOwner::World(_), Some(_)) => Err(GenError::MissingEntry),
        (TypeOwner::NoOwner, Some((_, key))) => interface_identifier(
            resolve,
            key,
            !in_import,
            renames,
        ),
        (TypeOwner::NoOwner, None) => Ok(snake_chars(world)),
    }
}

/// The function name's dots replaced by underscores (resource methods carry
/// dotted names).
pub open spec fn spec_undot(s: Seq<char>) -> Seq<char> {
    s.map_values(
        |c: char|
            if c == '.' {
                '_'
            } else {
                c
            },
    )
}

fn undot(v: &Vec<char>) -> (r: Vec<char>)
    ensures
        r@ == spec_undot(v@),
{
    let mut r: Vec<char> = Vec::new();
    let mut i: usize = 0;
    while i < v.len()
        invariant
            i <= v@.len(),
            r@ == spec_undot(v@.take(i as int)),
        decreases v@.len() - i,
    {
        let c = v[i];
        if c == '.' {
            r.push('_');
        } else {
            r.push(c);
        }
        proof {
            assert(r@ =~= spec_undot(v@.take(i + 1)));
        }
        i += 1;
    }
    proof {
        assert(v@.take(v@.len() as int) =~= v@);
    }
    r
}

/// The generated name of a function: the interface identifier (or the world
/// name, prefixed `exports_` in the export direction) joined by `_` with the
/// snake-case, de-dotted function name.
pub open spec fn spec_c_func_name(
    resolve: Resolve,
    in_import: bool,
    world: Seq<char>,
    key: Option<WorldKey>,
    func_name: Seq<char>,
    renames: Seq<Rename>,
) -> Option<Seq<char>> {
    let base = match key {
        Some(k) => spec_interface_identifier(resolve, k, !in_import, renames),
        None => Some(
            (if !in_import {
                "exports_"@
            } else {
                Seq::<char>::empty()
            }) + snake_of(world),
        ),
    };
    match base {
        Some(b) => Some(b + "_"@ + spec_undot(snake_of(func_name))),
        None => None,
    }
}

/// Render the generated name of a function; see [`spec_c_func_name`].
pub fn c_func_name(
    resolve: &Resolve,
    in_import: bool,
    world: &Vec<char>,
    key: &Option<WorldKey>,
    func_name: &Vec<char>,
    renames: &Vec<Rename>,
) -> (r: Result<Vec<char>, GenError>)
    ensures
        r matches Ok(v) ==> spec_c_func_name(
            *resolve,
            in_import,
            world@,
            *key,
            func_name@,
            renames@,
        ) == Some(v@),
        r is Err <==> spec_c_func_name(
            *resolve,
            in_import,
            world@,
            *key,
            func_name@,
            renames@,
        ) is None,
{
    let mut name: Vec<char> = Vec::new();
    match key {
        Some(k) => {
            match interface_identifier(resolve, k, !in_import, renames) {
                Ok(v) => push_chars(&mut name, &v),
                Err(e) => {
                    return Err(e);
                },
            }
        },
        None => {
            if !in_import {
                push_str(&mut name, "exports_");
            }
            let sw = snake_chars(world);
            push_chars(&mut name, &sw);
        },
    }
    push_str(&mut name, "_");
    let sf = snake_chars(func_name);
    let uf = undot(&sf);
    push_chars(&mut name, &uf);
    Ok(name)
}

/// What sort of name a type got: a declared name, or a structural encoding
/// (pooled globally when built from primitives alone).
pub enum CTypeNameInfo {
    /// The type has a declared name.
    Named { name: Vec<char> },
    /// The type is anonymous and its encoding is structural.
    Anonymous { is_prim: bool },
}

/// The type part of a canonical identifier, without the namespace and the
/// `_t` suffix, together with what sort of name it is.
pub fn gen_type_name(resolve: &Resolve, ty: usize) -> (r: Result<
    (CTypeNameInfo, Vec<char>),
    GenError,
>)
    requires
        resolve.wf(),
        ty < resolve.types.len(),
    ensures
        r matches Ok(p) ==> Some(p.1@) == spec_ty_name(*resolve, Type::Id(ty)),
        r is Err <==> spec_ty_name(*resolve, Type::Id(ty)) is None,
        r matches Ok(p) ==> (match p.0 {
            CTypeNameInfo::Named { name } => resolve.types[ty as int].name matches Some(n)
                && name@ == n@,
            CTypeNameInfo::Anonymous { is_prim } => resolve.types[ty as int].name is None
                && is_prim == spec_is_prim(*resolve, Type::Id(ty)),
        }),
{
    let mut encoded: Vec<char> = Vec::new();
    let t = Type::Id(ty);
    proof {
        assert(resolve.ty_below(t, resolve.types.len() as int));
    }
    match push_ty_name(resolve, &t, &mut encoded) {
        Ok(_) => {},
        Err(e) => {
            return Err(e);
        },
    }
    let info = match &resolve.types[ty].name {
        Some(n) => {
            let mut c: Vec<char> = Vec::new();
            push_chars(&mut c, n);
            CTypeNameInfo::Named { name: c }
        },
        None => CTypeNameInfo::Anonymous { is_prim: is_prim_type(resolve, &t) },
    };
    Ok((info, encoded))
}

} // verus!
