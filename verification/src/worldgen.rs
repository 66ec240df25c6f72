//! Per-interface generation: type declarations, constructors, destructors.
//!
//! Types are defined on first sight, in live-set order, so every declaration
//! a type depends on already stands when it is rendered. Each defined
//! composite gets a synthesized constructor helper and, where anything inside
//! it owns memory, a destructor helper.

use crate::err::GenError;
use crate::gen::{Enabled, OutBuffers, Pascal, ResourceInfo};
use crate::ident::{shouty_chars, snake_chars, to_pascal_ident};
use crate::text::{push_chars, push_str, push_usize, str_chars};
use crate::wit::{Direction, Handle, Resolve, Type, TypeDefKind, TypeOwner, WorldKey};
use vstd::prelude::*;

verus! {

/// The context of one interface's (or one world-section's) generation.
pub struct IfaceCtx {
    /// The buffers this section accumulates into, appended to the pass's
    /// buffers when the section completes.
    pub src: OutBuffers,
    /// Whether the section belongs to the import direction.
    pub in_import: bool,
    /// The interface being generated, if any, with its world key.
    pub iface: Option<(usize, WorldKey)>,
    /// The raw module imports are drawn from.
    pub wasm_import_module: Option<Vec<char>>,
}

/// A copy of a world key.
pub fn copy_world_key(k: &WorldKey) -> (r: WorldKey)
    ensures
        crate::tyname::key_eq(r, *k),
        crate::tyname::key_eq(*k, r),
{
    match k {
        WorldKey::Name(n) => {
            let mut c: Vec<char> = Vec::new();
            push_chars(&mut c, n);
            proof {
                assert(c@ =~= n@);
            }
            WorldKey::Name(c)
        },
        WorldKey::Iface(i) => WorldKey::Iface(*i),
    }
}

impl IfaceCtx {
    /// A fresh section.
    pub fn new(in_import: bool, iface: Option<(usize, WorldKey)>, module: Option<Vec<char>>) -> (r:
        IfaceCtx)
        ensures
            r.in_import == in_import,
    {
        IfaceCtx { src: OutBuffers::new(), in_import, iface, wasm_import_module: module }
    }
}

/// The owner namespace of type `id` in this section.
fn owner_ns(gen: &Pascal, ctx: &IfaceCtx, resolve: &Resolve, id: usize) -> (r: Result<
    Vec<char>,
    GenError,
>)
    requires
        id < resolve.types.len(),
    ensures
        r matches Ok(v) ==> crate::tyname::spec_owner_namespace(
            *resolve,
            ctx.iface,
            ctx.in_import,
            gen.world@,
            id as int,
            gen.renamed_interfaces@,
        ) == Some(v@),
        r is Err <==> crate::tyname::spec_owner_namespace(
            *resolve,
            ctx.iface,
            ctx.in_import,
            gen.world@,
            id as int,
            gen.renamed_interfaces@,
        ) is None,
{
    crate::tyname::owner_namespace(
        resolve,
        &ctx.iface,
        ctx.in_import,
        &gen.world,
        id,
        &gen.renamed_interfaces,
    )
}

/// Write doc text as `// ` comment lines into the given buffer.
fn push_docs(dst: &mut crate::source::Source, docs: &Option<Vec<char>>) {
    if let Some(text) = docs {
        let mut line: Vec<char> = Vec::new();
        let mut i: usize = 0;
        while i < text.len()
            decreases text@.len() - i,
        {
            let c = text[i];
            if c == '\n' {
                let mut out = str_chars("// ");
                push_chars(&mut out, &line);
                push_str(&mut out, "\n");
                dst.push_vec(&out);
                line = Vec::new();
            } else {
                line.push(c);
            }
            i += 1;
        }
        if line.len() > 0 {
            let mut out = str_chars("// ");
            push_chars(&mut out, &line);
            push_str(&mut out, "\n");
            dst.push_vec(&out);
        }
    }
}

/// The `type PP.. = ^P..; P.. = ^..; .. = record` opening of a typedef.
fn start_typedef_struct(gen: &Pascal, ctx: &mut IfaceCtx, id: usize) -> (r: Result<
    (),
    GenError,
>)
    ensures
        final(ctx).iface == old(ctx).iface,
        final(ctx).in_import == old(ctx).in_import,
        final(ctx).wasm_import_module == old(ctx).wasm_import_module,
{
    let name = match gen.type_names.lookup(id) {
        Ok(n) => n,
        Err(e) => {
            return Err(e);
        },
    };
    let mut t = str_chars("type\n  PP");
    push_chars(&mut t, &name);
    push_str(&mut t, " = ^P");
    push_chars(&mut t, &name);
    push_str(&mut t, ";\n  P");
    push_chars(&mut t, &name);
    push_str(&mut t, " = ^");
    push_chars(&mut t, &name);
    push_str(&mut t, ";\n  ");
    push_chars(&mut t, &name);
    push_str(&mut t, " = record\n");
    ctx.src.h_defs.push_vec(&t);
    Ok(())
}

fn finish_typedef_struct(ctx: &mut IfaceCtx)
    ensures
        final(ctx).iface == old(ctx).iface,
        final(ctx).in_import == old(ctx).in_import,
        final(ctx).wasm_import_module == old(ctx).wasm_import_module,
{
    ctx.src.h_defs.push_str("end;");
}

/// The `type PP.. = ^P..; P.. = ^..; .. = ` opening of an alias-style
/// typedef.
fn start_typedef_alias(gen: &Pascal, ctx: &mut IfaceCtx, id: usize) -> (r: Result<
    (),
    GenError,
>)
    ensures
        final(ctx).iface == old(ctx).iface,
        final(ctx).in_import == old(ctx).in_import,
        final(ctx).wasm_import_module == old(ctx).wasm_import_module,
{
    let name = match gen.type_names.lookup(id) {
        Ok(n) => n,
        Err(e) => {
            return Err(e);
        },
    };
    let mut t = str_chars("\ntype\n  PP");
    push_chars(&mut t, &name);
    push_str(&mut t, " = ^P");
    push_chars(&mut t, &name);
    push_str(&mut t, ";\n  P");
    push_chars(&mut t, &name);
    push_str(&mut t, " = ^");
    push_chars(&mut t, &name);
    push_str(&mut t, ";\n  ");
    push_chars(&mut t, &name);
    push_str(&mut t, " = ");
    ctx.src.h_defs.push_vec(&t);
    Ok(())
}

/// Define a record type: one field per declared field, in order.
pub fn type_record(gen: &mut Pascal, ctx: &mut IfaceCtx, resolve: &Resolve, id: usize) -> (r:
    Result<(), GenError>)
    requires
        resolve.wf(),
        id < resolve.types.len(),
    ensures
        final(gen).world == old(gen).world,
        final(gen).renamed_interfaces == old(gen).renamed_interfaces,
        final(ctx).iface == old(ctx).iface,
        final(ctx).in_import == old(ctx).in_import,
        final(ctx).wasm_import_module == old(ctx).wasm_import_module,
        final(gen).type_names == old(gen).type_names,
{
    ctx.src.h_defs.push_str("\n");
    match start_typedef_struct(gen, ctx, id) {
        Ok(_) => {},
        Err(e) => {
            return Err(e);
        },
    }
    let nfields = match &resolve.types[id].kind {
        TypeDefKind::Record(fs) => fs.len(),
        _ => {
            return Err(GenError::BadInstruction);
        },
    };
    let mut i: usize = 0;
    while i < nfields
        invariant
            resolve.wf(),
            id < resolve.types.len(),
            gen.type_names == old(gen).type_names,
            gen.world == old(gen).world,
            gen.renamed_interfaces == old(gen).renamed_interfaces,
            ctx.iface == old(ctx).iface,
            ctx.in_import == old(ctx).in_import,
            ctx.wasm_import_module == old(ctx).wasm_import_module,
            resolve.types[id as int].kind matches TypeDefKind::Record(fs) && fs.len() == nfields,
        decreases nfields - i,
    {
        let (fname, fty): (Vec<char>, Type) = match &resolve.types[id].kind {
            TypeDefKind::Record(fs) => {
                proof {
                    assert(resolve.kind_below(resolve.types[id as int].kind, id as int));
                    assert(resolve.ty_below(fs@[i as int].ty, id as int));
                }
                (to_pascal_ident(&fs[i].name), fs[i].ty)
            },
            _ => {
                return Err(GenError::BadInstruction);
            },
        };
        let mut line: Vec<char> = Vec::new();
        push_chars(&mut line, &fname);
        push_str(&mut line, ": ");
        match gen.push_type_name(&fty, &mut line) {
            Ok(_) => {},
            Err(e) => {
                return Err(e);
            },
        }
        push_str(&mut line, ";\n");
        ctx.src.h_defs.push_vec(&line);
        i += 1;
    }
    finish_typedef_struct(ctx);
    Ok(())
}

/// Define a tuple type: fields `f0`, `f1`, ... in member order.
pub fn type_tuple(gen: &mut Pascal, ctx: &mut IfaceCtx, resolve: &Resolve, id: usize) -> (r:
    Result<(), GenError>)
    requires
        resolve.wf(),
        id < resolve.types.len(),
    ensures
        final(gen).world == old(gen).world,
        final(gen).renamed_interfaces == old(gen).renamed_interfaces,
        final(ctx).iface == old(ctx).iface,
        final(ctx).in_import == old(ctx).in_import,
        final(ctx).wasm_import_module == old(ctx).wasm_import_module,
        final(gen).type_names == old(gen).type_names,
{
    ctx.src.h_defs.push_str("\n");
    match start_typedef_struct(gen, ctx, id) {
        Ok(_) => {},
        Err(e) => {
            return Err(e);
        },
    }
    let nts = match &resolve.types[id].kind {
        TypeDefKind::Tuple(ts) => ts.len(),
        _ => {
            return Err(GenError::BadInstruction);
        },
    };
    let mut i: usize = 0;
    while i < nts
        invariant
            resolve.wf(),
            id < resolve.types.len(),
            gen.type_names == old(gen).type_names,
            gen.world == old(gen).world,
            gen.renamed_interfaces == old(gen).renamed_interfaces,
            ctx.iface == old(ctx).iface,
            ctx.in_import == old(ctx).in_import,
            ctx.wasm_import_module == old(ctx).wasm_import_module,
            resolve.types[id as int].kind matches TypeDefKind::Tuple(ts) && ts.len() == nts,
        decreases nts - i,
    {
        let fty: Type = match &resolve.types[id].kind {
            TypeDefKind::Tuple(ts) => {
                proof {
                    assert(resolve.kind_below(resolve.types[id as int].kind, id as int));
                    assert(resolve.ty_below(ts@[i as int], id as int));
                }
                ts[i]
            },
            _ => {
                return Err(GenError::BadInstruction);
            },
        };
        let mut line = str_chars(" f");
        push_usize(&mut line, i);
        push_str(&mut line, ": ");
        match gen.push_type_name(&fty, &mut line) {
            Ok(_) => {},
            Err(e) => {
                return Err(e);
            },
        }
        push_str(&mut line, ";\n");
        ctx.src.h_defs.push_vec(&line);
        i += 1;
    }
    finish_typedef_struct(ctx);
    Ok(())
}

/// Define a flags type: an unsigned word of the canonical width, plus one
/// shifted-bit constant per member, bit `i` for member `i` in declaration
/// order.
pub fn type_flags(gen: &mut Pascal, ctx: &mut IfaceCtx, resolve: &Resolve, id: usize) -> (r:
    Result<(), GenError>)
    requires
        resolve.wf(),
        id < resolve.types.len(),
    ensures
        final(gen).world == old(gen).world,
        final(gen).renamed_interfaces == old(gen).renamed_interfaces,
        final(ctx).iface == old(ctx).iface,
        final(ctx).in_import == old(ctx).in_import,
        final(ctx).wasm_import_module == old(ctx).wasm_import_module,
        final(gen).type_names == old(gen).type_names,
{
    ctx.src.h_defs.push_str("\n");
    let nflags = match &resolve.types[id].kind {
        TypeDefKind::Flags(fs) => fs.len(),
        _ => {
            return Err(GenError::BadInstruction);
        },
    };
    if nflags >= usize::MAX - 31 {
        return Err(GenError::Unsupported);
    }
    let repr = crate::wit::flags_repr(nflags);
    let int_t = crate::bindgen::int_repr(match repr {
        crate::wit::FlagsRepr::U8 => crate::wit::IntRepr::U8,
        crate::wit::FlagsRepr::U16 => crate::wit::IntRepr::U16,
        crate::wit::FlagsRepr::U32(w) => if w <= 1 {
            crate::wit::IntRepr::U32
        } else if w == 2 {
            crate::wit::IntRepr::U64
        } else {
            return Err(GenError::Unsupported);
        },
    });
    let name = match gen.type_names.lookup(id) {
        Ok(n) => n,
        Err(e) => {
            return Err(e);
        },
    };
    let mut t = str_chars("type\n  PP");
    push_chars(&mut t, &name);
    push_str(&mut t, " = ^P");
    push_chars(&mut t, &name);
    push_str(&mut t, ";\n  P");
    push_chars(&mut t, &name);
    push_str(&mut t, " = ^");
    push_chars(&mut t, &name);
    push_str(&mut t, ";\n  ");
    push_chars(&mut t, &name);
    push_str(&mut t, " = ");
    push_str(&mut t, int_t);
    push_str(&mut t, ";\n");
    ctx.src.h_defs.push_vec(&t);
    if nflags > 0 {
        ctx.src.h_defs.push_str("\n");
    }
    let ns = match owner_ns(gen, ctx, resolve, id) {
        Ok(v) => shouty_chars(&v),
        Err(e) => {
            return Err(e);
        },
    };
    let tname_shouty: Vec<char> = match &resolve.types[id].name {
        Some(n) => shouty_chars(n),
        None => Vec::new(),
    };
    let mut i: usize = 0;
    while i < nflags
        invariant
            gen.world == old(gen).world,
            gen.renamed_interfaces == old(gen).renamed_interfaces,
            gen.type_names == old(gen).type_names,
            ctx.iface == old(ctx).iface,
            ctx.in_import == old(ctx).in_import,
            ctx.wasm_import_module == old(ctx).wasm_import_module,
            resolve.wf(),
            id < resolve.types.len(),
            resolve.types[id as int].kind matches TypeDefKind::Flags(fs) && fs.len() == nflags,
        decreases nflags - i,
    {
        let fname: Vec<char> = match &resolve.types[id].kind {
            TypeDefKind::Flags(fs) => shouty_chars(&fs[i].name),
            _ => Vec::new(),
        };
        let mut line = str_chars("const ");
        push_chars(&mut line, &ns);
        push_str(&mut line, "_");
        push_chars(&mut line, &tname_shouty);
        push_str(&mut line, "_");
        push_chars(&mut line, &fname);
        push_str(&mut line, " = 1 shl ");
        push_usize(&mut line, i);
        push_str(&mut line, ";\n");
        ctx.src.h_defs.push_vec(&line);
        i += 1;
    }
    Ok(())
}

/// Define an enum type: an unsigned word of the discriminant width plus one
/// constant per case, numbered in declaration order.
pub fn type_enum(gen: &mut Pascal, ctx: &mut IfaceCtx, resolve: &Resolve, id: usize) -> (r: Result<
    (),
    GenError,
>)
    requires
        resolve.wf(),
        id < resolve.types.len(),
    ensures
        final(gen).world == old(gen).world,
        final(gen).renamed_interfaces == old(gen).renamed_interfaces,
        final(ctx).iface == old(ctx).iface,
        final(ctx).in_import == old(ctx).in_import,
        final(ctx).wasm_import_module == old(ctx).wasm_import_module,
        final(gen).type_names == old(gen).type_names,
{
    ctx.src.h_defs.push_str("\n");
    let ncases = match &resolve.types[id].kind {
        TypeDefKind::Enum(cs) => cs.len(),
        _ => {
            return Err(GenError::BadInstruction);
        },
    };
    let int_t = crate::bindgen::int_repr(crate::wit::discriminant_type(ncases));
    let name = match gen.type_names.lookup(id) {
        Ok(n) => n,
        Err(e) => {
            return Err(e);
        },
    };
    let mut t = str_chars("type\n  PP");
    push_chars(&mut t, &name);
    push_str(&mut t, " = ^P");
    push_chars(&mut t, &name);
    push_str(&mut t, ";\n  P");
    push_chars(&mut t, &name);
    push_str(&mut t, " = ^");
    push_chars(&mut t, &name);
    push_str(&mut t, ";\n  ");
    push_chars(&mut t, &name);
    push_str(&mut t, " = ");
    push_str(&mut t, int_t);
    push_str(&mut t, ";\n");
    ctx.src.h_defs.push_vec(&t);
    if ncases > 0 {
        ctx.src.h_defs.push_str("\n");
    }
    let ns = match owner_ns(gen, ctx, resolve, id) {
        Ok(v) => shouty_chars(&v),
        Err(e) => {
            return Err(e);
        },
    };
    let tname_shouty: Vec<char> = match &resolve.types[id].name {
        Some(n) => shouty_chars(n),
        None => Vec::new(),
    };
    let mut i: usize = 0;
    while i < ncases
        invariant
            gen.world == old(gen).world,
            gen.renamed_interfaces == old(gen).renamed_interfaces,
            gen.type_names == old(gen).type_names,
            ctx.iface == old(ctx).iface,
            ctx.in_import == old(ctx).in_import,
            ctx.wasm_import_module == old(ctx).wasm_import_module,
            resolve.wf(),
            id < resolve.types.len(),
            resolve.types[id as int].kind matches TypeDefKind::Enum(cs) && cs.len() == ncases,
        decreases ncases - i,
    {
        let cname: Vec<char> = match &resolve.types[id].kind {
            TypeDefKind::Enum(cs) => shouty_chars(&cs[i].name),
            _ => Vec::new(),
        };
        let mut line = str_chars("const ");
        push_chars(&mut line, &ns);
        push_str(&mut line, "_");
        push_chars(&mut line, &tname_shouty);
        push_str(&mut line, "_");
        push_chars(&mut line, &cname);
        push_str(&mut line, " = ");
        push_usize(&mut line, i);
        push_str(&mut line, ";\n");
        ctx.src.h_defs.push_vec(&line);
        i += 1;
    }
    Ok(())
}

/// Define a variant type: one numbered constant per case, then a tagged
/// record whose payload arms carry the case payloads.
pub fn type_variant(gen: &mut Pascal, ctx: &mut IfaceCtx, resolve: &Resolve, id: usize) -> (r:
    Result<(), GenError>)
    requires
        resolve.wf(),
        id < resolve.types.len(),
    ensures
        final(gen).world == old(gen).world,
        final(gen).renamed_interfaces == old(gen).renamed_interfaces,
        final(ctx).iface == old(ctx).iface,
        final(ctx).in_import == old(ctx).in_import,
        final(ctx).wasm_import_module == old(ctx).wasm_import_module,
        final(gen).type_names == old(gen).type_names,
{
    ctx.src.h_defs.push_str("\n");
    let ncases = match &resolve.types[id].kind {
        TypeDefKind::Variant(cs) => cs.len(),
        _ => {
            return Err(GenError::BadInstruction);
        },
    };
    let ns = match owner_ns(gen, ctx, resolve, id) {
        Ok(v) => shouty_chars(&v),
        Err(e) => {
            return Err(e);
        },
    };
    let tname_shouty: Vec<char> = match &resolve.types[id].name {
        Some(n) => shouty_chars(n),
        None => Vec::new(),
    };
    let mut i: usize = 0;
    let mut has_payload = false;
    while i < ncases
        invariant
            gen.world == old(gen).world,
            gen.renamed_interfaces == old(gen).renamed_interfaces,
            gen.type_names == old(gen).type_names,
            ctx.iface == old(ctx).iface,
            ctx.in_import == old(ctx).in_import,
            ctx.wasm_import_module == old(ctx).wasm_import_module,
            resolve.wf(),
            id < resolve.types.len(),
            resolve.types[id as int].kind matches TypeDefKind::Variant(cs) && cs.len() == ncases,
        decreases ncases - i,
    {
        let cname: Vec<char> = match &resolve.types[id].kind {
            TypeDefKind::Variant(cs) => {
                if cs[i].ty.is_some() {
                    has_payload = true;
                }
                shouty_chars(&cs[i].name)
            },
            _ => Vec::new(),
        };
        let mut line = str_chars("const ");
        push_chars(&mut line, &ns);
        push_str(&mut line, "_");
        push_chars(&mut line, &tname_shouty);
        push_str(&mut line, "_");
        push_chars(&mut line, &cname);
        push_str(&mut line, " = ");
        push_usize(&mut line, i);
        push_str(&mut line, ";\n");
        ctx.src.h_defs.push_vec(&line);
        i += 1;
    }
    match start_typedef_struct(gen, ctx, id) {
        Ok(_) => {},
        Err(e) => {
            return Err(e);
        },
    }
    let int_t = crate::bindgen::int_repr(crate::wit::discriminant_type(ncases));
    if has_payload {
        ctx.src.h_defs.push_str("case ");
    }
    ctx.src.h_defs.push_str("tag: ");
    ctx.src.h_defs.push_str(int_t);
    if has_payload {
        ctx.src.h_defs.push_str(" of\n");
        let mut k: usize = 0;
        while k < ncases
            invariant
                resolve.wf(),
                id < resolve.types.len(),
                gen.type_names == old(gen).type_names,
                gen.world == old(gen).world,
                gen.renamed_interfaces == old(gen).renamed_interfaces,
                ctx.iface == old(ctx).iface,
                ctx.in_import == old(ctx).in_import,
                ctx.wasm_import_module == old(ctx).wasm_import_module,
                resolve.types[id as int].kind matches TypeDefKind::Variant(cs) && cs.len()
                    == ncases,
            decreases ncases - k,
        {
            let case_ty: Option<Type> = match &resolve.types[id].kind {
                TypeDefKind::Variant(cs) => {
                    proof {
                        assert(resolve.kind_below(resolve.types[id as int].kind, id as int));
                        assert(cs@[k as int].ty matches Some(t) ==> resolve.ty_below(
                            t,
                            id as int,
                        ));
                    }
                    cs[k].ty
                },
                _ => None,
            };
            if let Some(t) = case_ty {
                let cname: Vec<char> = match &resolve.types[id].kind {
                    TypeDefKind::Variant(cs) => shouty_chars(&cs[k].name),
                    _ => Vec::new(),
                };
                let ident: Vec<char> = match &resolve.types[id].kind {
                    TypeDefKind::Variant(cs) => to_pascal_ident(&cs[k].name),
                    _ => Vec::new(),
                };
                let mut line: Vec<char> = Vec::new();
                push_chars(&mut line, &ns);
                push_str(&mut line, "_");
                push_chars(&mut line, &tname_shouty);
                push_str(&mut line, "_");
                push_chars(&mut line, &cname);
                push_str(&mut line, ": (");
                push_chars(&mut line, &ident);
                push_str(&mut line, ": ");
                match gen.push_type_name(&t, &mut line) {
                    Ok(_) => {},
                    Err(e) => {
                        return Err(e);
                    },
                }
                push_str(&mut line, ");\n");
                ctx.src.h_defs.push_vec(&line);
            }
            k += 1;
        }
    } else {
        ctx.src.h_defs.push_str(";\n");
    }
    finish_typedef_struct(ctx);
    if ncases > 0 {
        ctx.src.h_defs.push_str("\n");
    }
    Ok(())
}

/// Define an option type: an `is_some` flag and the payload value.
pub fn type_option(gen: &mut Pascal, ctx: &mut IfaceCtx, resolve: &Resolve, id: usize) -> (r:
    Result<(), GenError>)
    requires
        resolve.wf(),
        id < resolve.types.len(),
    ensures
        final(gen).world == old(gen).world,
        final(gen).renamed_interfaces == old(gen).renamed_interfaces,
        final(ctx).iface == old(ctx).iface,
        final(ctx).in_import == old(ctx).in_import,
        final(ctx).wasm_import_module == old(ctx).wasm_import_module,
        final(gen).type_names == old(gen).type_names,
{
    ctx.src.h_defs.push_str("\n");
    match start_typedef_struct(gen, ctx, id) {
        Ok(_) => {},
        Err(e) => {
            return Err(e);
        },
    }
    let payload: Type = match &resolve.types[id].kind {
        TypeDefKind::OptionOf(t) => {
            proof {
                assert(resolve.kind_below(resolve.types[id as int].kind, id as int));
            }
            *t
        },
        _ => {
            return Err(GenError::BadInstruction);
        },
    };
    ctx.src.h_defs.push_str("is_some: Boolean;\n");
    let mut line = str_chars("val: ");
    match gen.push_type_name(&payload, &mut line) {
        Ok(_) => {},
        Err(e) => {
            return Err(e);
        },
    }
    push_str(&mut line, ";\n");
    ctx.src.h_defs.push_vec(&line);
    finish_typedef_struct(ctx);
    Ok(())
}

/// Define a result type: an `is_err` flag with payload arms for the ok and
/// err values where present.
pub fn type_result(gen: &mut Pascal, ctx: &mut IfaceCtx, resolve: &Resolve, id: usize) -> (r:
    Result<(), GenError>)
    requires
        resolve.wf(),
        id < resolve.types.len(),
    ensures
        final(gen).world == old(gen).world,
        final(gen).renamed_interfaces == old(gen).renamed_interfaces,
        final(ctx).iface == old(ctx).iface,
        final(ctx).in_import == old(ctx).in_import,
        final(ctx).wasm_import_module == old(ctx).wasm_import_module,
        final(gen).type_names == old(gen).type_names,
{
    ctx.src.h_defs.push_str("\n");
    match start_typedef_struct(gen, ctx, id) {
        Ok(_) => {},
        Err(e) => {
            return Err(e);
        },
    }
    let (ok_t, err_t): (Option<Type>, Option<Type>) = match &resolve.types[id].kind {
        TypeDefKind::ResultOf(a, b) => {
            proof {
                assert(resolve.kind_below(resolve.types[id as int].kind, id as int));
            }
            (*a, *b)
        },
        _ => {
            return Err(GenError::BadInstruction);
        },
    };
    if ok_t.is_some() || err_t.is_some() {
        ctx.src.h_defs.push_str("case is_err: Boolean of\n");
        if let Some(t) = ok_t {
            let mut line = str_chars("false: (ok: ");
            match gen.push_type_name(&t, &mut line) {
                Ok(_) => {},
                Err(e) => {
                    return Err(e);
                },
            }
            push_str(&mut line, ");\n");
            ctx.src.h_defs.push_vec(&line);
        }
        if let Some(t) = err_t {
            let mut line = str_chars("true: (err: ");
            match gen.push_type_name(&t, &mut line) {
                Ok(_) => {},
                Err(e) => {
                    return Err(e);
                },
            }
            push_str(&mut line, ");\n");
            ctx.src.h_defs.push_vec(&line);
        }
    } else {
        ctx.src.h_defs.push_str("is_err: Boolean;\n");
    }
    finish_typedef_struct(ctx);
    Ok(())
}

/// Define a list type: a pointer to the element type and a length.
pub fn type_list(gen: &mut Pascal, ctx: &mut IfaceCtx, resolve: &Resolve, id: usize) -> (r: Result<
    (),
    GenError,
>)
    requires
        resolve.wf(),
        id < resolve.types.len(),
    ensures
        final(gen).world == old(gen).world,
        final(gen).renamed_interfaces == old(gen).renamed_interfaces,
        final(ctx).iface == old(ctx).iface,
        final(ctx).in_import == old(ctx).in_import,
        final(ctx).wasm_import_module == old(ctx).wasm_import_module,
        final(gen).type_names == old(gen).type_names,
{
    ctx.src.h_defs.push_str("\n");
    match start_typedef_struct(gen, ctx, id) {
        Ok(_) => {},
        Err(e) => {
            return Err(e);
        },
    }
    let elem: Type = match &resolve.types[id].kind {
        TypeDefKind::ListOf(t) => {
            proof {
                assert(resolve.kind_below(resolve.types[id as int].kind, id as int));
            }
            *t
        },
        _ => {
            return Err(GenError::BadInstruction);
        },
    };
    let mut line = str_chars("ptr: P");
    match gen.push_type_name(&elem, &mut line) {
        Ok(_) => {},
        Err(e) => {
            return Err(e);
        },
    }
    push_str(&mut line, ";\n");
    ctx.src.h_defs.push_vec(&line);
    ctx.src.h_defs.push_str("len: SizeUInt;\n");
    finish_typedef_struct(ctx);
    Ok(())
}

/// Define a type alias. Aliases of resources are skipped: a resource kind is
/// never named, only its handle wrappers are.
pub fn type_alias(gen: &mut Pascal, ctx: &mut IfaceCtx, resolve: &Resolve, id: usize) -> (r:
    Result<(), GenError>)
    requires
        resolve.wf(),
        id < resolve.types.len(),
    ensures
        final(gen).world == old(gen).world,
        final(gen).renamed_interfaces == old(gen).renamed_interfaces,
        final(ctx).iface == old(ctx).iface,
        final(ctx).in_import == old(ctx).in_import,
        final(ctx).wasm_import_module == old(ctx).wasm_import_module,
        final(gen).type_names == old(gen).type_names,
{
    let origin = crate::wit::dealias(resolve, id);
    if matches!(&resolve.types[origin].kind, TypeDefKind::Resource) {
        return Ok(());
    }
    let target: Type = match &resolve.types[id].kind {
        TypeDefKind::Alias(t) => {
            proof {
                assert(resolve.kind_below(resolve.types[id as int].kind, id as int));
            }
            *t
        },
        _ => {
            return Err(GenError::BadInstruction);
        },
    };
    ctx.src.h_defs.push_str("\n");
    match start_typedef_alias(gen, ctx, id) {
        Ok(_) => {},
        Err(e) => {
            return Err(e);
        },
    }
    let mut line: Vec<char> = Vec::new();
    match gen.push_type_name(&target, &mut line) {
        Ok(_) => {},
        Err(e) => {
            return Err(e);
        },
    }
    push_str(&mut line, ";\n");
    ctx.src.h_defs.push_vec(&line);
    Ok(())
}

/// The owned-handle wrapper name of a resource: `{ns}_own_{snake}_t`.
pub open spec fn spec_res_own(ns: Seq<char>, snake: Seq<char>) -> Seq<char> {
    ns + "_own_"@ + snake + "_t"@
}

/// The borrowed-handle wrapper name of a resource: `{ns}_borrow_{snake}_t`.
pub open spec fn spec_res_borrow(ns: Seq<char>, snake: Seq<char>) -> Seq<char> {
    ns + "_borrow_"@ + snake + "_t"@
}

/// The imported drop intrinsic's symbol.
pub open spec fn spec_res_drop_fn(ns: Seq<char>, snake: Seq<char>) -> Seq<char> {
    "__wasm_import_"@ + ns + "_"@ + snake + "_drop"@
}

/// The public prototype of the owned-handle drop helper.
pub open spec fn spec_res_drop_h(ns: Seq<char>, snake: Seq<char>) -> Seq<char> {
    "\nprocedure "@ + ns + "_"@ + snake + "_drop_own(handle: "@ + spec_res_own(ns, snake) + ");\n"@
}

/// The drop intrinsic binding and the owned-handle drop helper's body.
pub open spec fn spec_res_drop_c(
    ns: Seq<char>,
    snake: Seq<char>,
    raw: Seq<char>,
    module: Seq<char>,
) -> Seq<char> {
    "\nprocedure "@ + spec_res_drop_fn(ns, snake) + "(handle: int32); external '"@ + module
        + "' name '[resource-drop]"@ + raw + "';\n\nprocedure "@ + ns + "_"@ + snake
        + "_drop_own(handle: "@ + spec_res_own(ns, snake) + ");\nbegin\n"@ + spec_res_drop_fn(
        ns,
        snake,
    ) + "(handle.__handle);\nend;\n"@
}

/// A nominal index-wrapper record and its pointer types.
pub open spec fn spec_res_record(w: Seq<char>) -> Seq<char> {
    "\ntype\n  PP"@ + w + " = ^P"@ + w + ";\n  P"@ + w + " = ^"@ + w + ";\n  "@ + w
        + " = record\n__handle: int32;\nend;\n"@
}

/// The prototype of the borrowed-handle drop helper.
pub open spec fn spec_res_drop_borrow_h(ns: Seq<char>, snake: Seq<char>) -> Seq<char> {
    "\nprocedure "@ + ns + "_"@ + snake + "_drop_borrow(handle: "@ + spec_res_borrow(ns, snake)
        + ");\n"@
}

/// The body of the borrowed-handle drop helper.
pub open spec fn spec_res_drop_borrow_c(ns: Seq<char>, snake: Seq<char>) -> Seq<char> {
    "\nprocedure "@ + ns + "_"@ + snake + "_drop_borrow(handle: "@ + spec_res_borrow(ns, snake)
        + ");\nbegin\n"@ + spec_res_drop_fn(ns, snake) + "(handle.__handle);\nend;\n"@
}

/// The prototype of the own-to-borrow conversion.
pub open spec fn spec_res_conv_h(ns: Seq<char>, snake: Seq<char>) -> Seq<char> {
    "\nfunction "@ + ns + "_borrow_"@ + snake + "(handle: "@ + spec_res_own(ns, snake) + "): "@
        + spec_res_borrow(ns, snake) + ";\n"@
}

/// The body of the own-to-borrow conversion: the index is kept.
pub open spec fn spec_res_conv_c(ns: Seq<char>, snake: Seq<char>) -> Seq<char> {
    "\nfunction "@ + ns + "_borrow_"@ + snake + "(handle: "@ + spec_res_own(ns, snake) + "): "@
        + spec_res_borrow(ns, snake) + ";\nbegin\n"@ + ns + "_borrow_"@ + snake + " := "@
        + spec_res_borrow(ns, snake) + "( handle.__handle );\nend;\n"@
}

/// An exported resource's user-backed struct and raw-pointer borrow typedef.
pub open spec fn spec_res_export_defs(tyn: Seq<char>, borrow: Seq<char>) -> Seq<char> {
    "\ntypedef struct "@ + tyn + " "@ + tyn + ";\n\ntypedef "@ + tyn + "* "@ + borrow + ";\n"@
}

/// An exported resource's construction and representation intrinsics and the
/// destructor prototype the embedder must define.
pub open spec fn spec_res_export_h(ns: Seq<char>, snake: Seq<char>, tyn: Seq<char>) -> Seq<char> {
    "\nextern "@ + spec_res_own(ns, snake) + " "@ + ns + "_"@ + snake + "_new("@ + tyn
        + " *rep);\nextern "@ + tyn + "* "@ + ns + "_"@ + snake + "_rep("@ + spec_res_own(
        ns,
        snake,
    ) + " handle);\nvoid "@ + ns + "_"@ + snake + "_destructor("@ + tyn + " *rep);\n"@
}

/// An exported resource's intrinsic bindings and destructor trampoline.
pub open spec fn spec_res_export_c(
    ns: Seq<char>,
    snake: Seq<char>,
    raw: Seq<char>,
    module: Seq<char>,
    tyn: Seq<char>,
) -> Seq<char> {
    "\n__attribute__(( __import_module__(\"[export]"@ + module
        + "\"), __import_name__(\"[resource-new]"@ + raw
        + "\")))\nextern int32_t __wasm_import_"@ + ns + "_"@ + snake
        + "_new(int32_t);\n\n__attribute__((__import_module__(\"[export]"@ + module
        + "\"), __import_name__(\"[resource-rep]"@ + raw
        + "\")))\nextern int32_t __wasm_import_"@ + ns + "_"@ + snake
        + "_rep(int32_t);\n\n__attribute__((__export_name__(\""@ + module + "#[dtor]"@ + snake
        + "\")))\nvoid __wasm_export_"@ + ns + "_"@ + snake + "_dtor("@ + tyn + "* arg) {\n"@ + ns
        + "_"@ + snake + "_destructor(arg);\n}\n"@
}

/// Define a resource type: a drop helper for owned handles always; for
/// imports, nominally distinct owned and borrowed index wrappers and an
/// own-to-borrow conversion; for exports, a user-backed struct, a raw-pointer
/// borrow representation, handle/representation intrinsics and a destructor
/// trampoline bound to the host's drop dispatch.
#[verifier::rlimit(100)]
pub fn type_resource(gen: &mut Pascal, ctx: &mut IfaceCtx, resolve: &Resolve, id: usize) -> (r:
    Result<(), GenError>)
    requires
        resolve.wf(),
        id < resolve.types.len(),
    ensures
        final(gen).world == old(gen).world,
        final(gen).renamed_interfaces == old(gen).renamed_interfaces,
        final(ctx).iface == old(ctx).iface,
        final(ctx).in_import == old(ctx).in_import,
        final(ctx).wasm_import_module == old(ctx).wasm_import_module,
        r is Ok ==> final(gen).resources.defined(id as int),
        final(gen).type_names == old(gen).type_names,
        r is Ok ==> resolve.types[id as int].name is Some,
        r is Ok ==> ({
            let ns = crate::tyname::spec_owner_namespace(
                *resolve,
                (*old(ctx)).iface,
                (*old(ctx)).in_import,
                (*old(gen)).world@,
                id as int,
                (*old(gen)).renamed_interfaces@,
            );
            let snake = crate::ident::snake_of(resolve.types[id as int].name->Some_0@);
            let info = final(gen).resources.info_of(id as int);
            &&& ns is Some
            &&& info.direction == (if (*old(ctx)).in_import {
                Direction::Import
            } else {
                Direction::Export
            })
            &&& info.own@ == ns->Some_0 + "_own_"@ + snake + "_t"@
            &&& info.borrow@ == ns->Some_0 + "_borrow_"@ + snake + "_t"@
            &&& info.drop_fn@ == "__wasm_import_"@ + ns->Some_0 + "_"@ + snake + "_drop"@
        }),
        r is Ok <==> ({
            let ns = crate::tyname::spec_owner_namespace(
                *resolve,
                (*old(ctx)).iface,
                (*old(ctx)).in_import,
                (*old(gen)).world@,
                id as int,
                (*old(gen)).renamed_interfaces@,
            );
            &&& ns is Some
            &&& resolve.types[id as int].name is Some
            &&& (if (*old(ctx)).in_import {
                (*old(ctx)).wasm_import_module is Some
            } else {
                match (*old(ctx)).iface {
                    Some((_, key)) => spec_name_world_key(*resolve, key) is Some && (*old(
                        gen,
                    )).type_names.defined(id as int),
                    None => false,
                }
            })
            &&& id < (*old(gen)).resources.capacity()
            &&& !(*old(gen)).resources.defined(id as int)
        }),
        r is Ok ==> ({
            let ns = crate::tyname::spec_owner_namespace(
                *resolve,
                (*old(ctx)).iface,
                (*old(ctx)).in_import,
                (*old(gen)).world@,
                id as int,
                (*old(gen)).renamed_interfaces@,
            )->Some_0;
            let snake = crate::ident::snake_of(resolve.types[id as int].name->Some_0@);
            let raw = resolve.types[id as int].name->Some_0@;
            let imp = (*old(ctx)).in_import;
            let plain = spec_name_world_key(*resolve, (*old(ctx)).iface->Some_0.1)->Some_0;
            let module = if imp {
                (*old(ctx)).wasm_import_module->Some_0@
            } else {
                "[export]"@ + plain
            };
            let tyn = (*old(gen)).type_names.name_of(id as int);
            let autodrop = (*old(gen)).opts.autodrop_borrows matches Enabled::Yes;
            &&& final(ctx).src.h_defs@ == (if imp {
                crate::source::source_push(
                    crate::source::source_push(
                        (*old(ctx)).src.h_defs@,
                        spec_res_record(spec_res_own(ns, snake)),
                    ),
                    spec_res_record(spec_res_borrow(ns, snake)),
                )
            } else {
                crate::source::source_push(
                    crate::source::source_push(
                        (*old(ctx)).src.h_defs@,
                        spec_res_record(spec_res_own(ns, snake)),
                    ),
                    spec_res_export_defs(tyn, spec_res_borrow(ns, snake)),
                )
            })
            &&& final(ctx).src.h_helpers@ == (if imp {
                if autodrop {
                    crate::source::source_push(
                        crate::source::source_push(
                            crate::source::source_push(
                                (*old(ctx)).src.h_helpers@,
                                spec_res_drop_h(ns, snake),
                            ),
                            spec_res_drop_borrow_h(ns, snake),
                        ),
                        spec_res_conv_h(ns, snake),
                    )
                } else {
                    crate::source::source_push(
                        crate::source::source_push(
                            (*old(ctx)).src.h_helpers@,
                            spec_res_drop_h(ns, snake),
                        ),
                        spec_res_conv_h(ns, snake),
                    )
                }
            } else {
                crate::source::source_push(
                    crate::source::source_push(
                        (*old(ctx)).src.h_helpers@,
                        spec_res_drop_h(ns, snake),
                    ),
                    spec_res_export_h(ns, snake, tyn),
                )
            })
            &&& final(ctx).src.c_helpers@ == (if imp {
                if autodrop {
                    crate::source::source_push(
                        crate::source::source_push(
                            crate::source::source_push(
                                (*old(ctx)).src.c_helpers@,
                                spec_res_drop_c(ns, snake, raw, module),
                            ),
                            spec_res_drop_borrow_c(ns, snake),
                        ),
                        spec_res_conv_c(ns, snake),
                    )
                } else {
                    crate::source::source_push(
                        crate::source::source_push(
                            (*old(ctx)).src.c_helpers@,
                            spec_res_drop_c(ns, snake, raw, module),
                        ),
                        spec_res_conv_c(ns, snake),
                    )
                }
            } else {
                crate::source::source_push(
                    crate::source::source_push(
                        (*old(ctx)).src.c_helpers@,
                        spec_res_drop_c(ns, snake, raw, module),
                    ),
                    spec_res_export_c(ns, snake, raw, plain, tyn),
                )
            })
            &&& final(ctx).src.h_fns@ == (*old(ctx)).src.h_fns@
            &&& final(ctx).src.c_defs@ == (*old(ctx)).src.c_defs@
            &&& final(ctx).src.c_fns@ == (*old(ctx)).src.c_fns@
            &&& final(ctx).src.c_adapters@ == (*old(ctx)).src.c_adapters@
        }),
{
    let ns = match owner_ns(gen, ctx, resolve, id) {
        Ok(v) => v,
        Err(e) => {
            return Err(e);
        },
    };
    let snake: Vec<char> = match &resolve.types[id].name {
        Some(n) => snake_chars(n),
        None => {
            return Err(GenError::MissingEntry);
        },
    };
    let raw_name: &Vec<char> = match &resolve.types[id].name {
        Some(n) => n,
        None => {
            return Err(GenError::MissingEntry);
        },
    };
    let mut own: Vec<char> = Vec::new();
    push_chars(&mut own, &ns);
    push_str(&mut own, "_own_");
    push_chars(&mut own, &snake);
    push_str(&mut own, "_t");
    proof {
        assert(own@ =~= ns@ + "_own_"@ + snake@ + "_t"@);
    }
    let mut borrow: Vec<char> = Vec::new();
    push_chars(&mut borrow, &ns);
    push_str(&mut borrow, "_borrow_");
    push_chars(&mut borrow, &snake);
    push_str(&mut borrow, "_t");
    proof {
        assert(borrow@ =~= ns@ + "_borrow_"@ + snake@ + "_t"@);
    }
    // Every resource can drop owned handles.
    let mut h = str_chars("\nprocedure ");
    push_chars(&mut h, &ns);
    push_str(&mut h, "_");
    push_chars(&mut h, &snake);
    push_str(&mut h, "_drop_own(handle: ");
    push_chars(&mut h, &own);
    push_str(&mut h, ");\n");
    proof {
        assert(h@ =~= spec_res_drop_h(ns@, snake@));
    }
    ctx.src.h_helpers.push_vec(&h);
    let import_module: Vec<char> = if ctx.in_import {
        match &ctx.wasm_import_module {
            Some(m) => {
                let mut c: Vec<char> = Vec::new();
                push_chars(&mut c, m);
                c
            },
            None => {
                return Err(GenError::MissingEntry);
            },
        }
    } else {
        match &ctx.iface {
            Some((_, key)) => {
                let mut c = str_chars("[export]");
                let m = match name_world_key(resolve, key) {
                    Ok(m) => m,
                    Err(e) => {
                        return Err(e);
                    },
                };
                push_chars(&mut c, &m);
                proof {
                    assert(c@ =~= "[export]"@ + m@);
                }
                c
            },
            None => {
                // Resources exported straight from a world are unsupported.
                return Err(GenError::WorldResourceExport);
            },
        }
    };
    let mut drop_fn = str_chars("__wasm_import_");
    push_chars(&mut drop_fn, &ns);
    push_str(&mut drop_fn, "_");
    push_chars(&mut drop_fn, &snake);
    push_str(&mut drop_fn, "_drop");
    proof {
        assert(drop_fn@ =~= "__wasm_import_"@ + ns@ + "_"@ + snake@ + "_drop"@);
    }
    let mut c = str_chars("\nprocedure ");
    push_chars(&mut c, &drop_fn);
    push_str(&mut c, "(handle: int32); external '");
    push_chars(&mut c, &import_module);
    push_str(&mut c, "' name '[resource-drop]");
    push_chars(&mut c, raw_name);
    push_str(&mut c, "';\n\nprocedure ");
    push_chars(&mut c, &ns);
    push_str(&mut c, "_");
    push_chars(&mut c, &snake);
    push_str(&mut c, "_drop_own(handle: ");
    push_chars(&mut c, &own);
    push_str(&mut c, ");\nbegin\n");
    push_chars(&mut c, &drop_fn);
    push_str(&mut c, "(handle.__handle);\nend;\n");
    proof {
        assert(c@ =~= spec_res_drop_c(ns@, snake@, raw_name@, import_module@));
    }
    ctx.src.c_helpers.push_vec(&c);
    // Owned handles are always an index wrapper.
    let mut d = str_chars("\ntype\n  PP");
    push_chars(&mut d, &own);
    push_str(&mut d, " = ^P");
    push_chars(&mut d, &own);
    push_str(&mut d, ";\n  P");
    push_chars(&mut d, &own);
    push_str(&mut d, " = ^");
    push_chars(&mut d, &own);
    push_str(&mut d, ";\n  ");
    push_chars(&mut d, &own);
    push_str(&mut d, " = record\n__handle: int32;\nend;\n");
    proof {
        assert(d@ =~= spec_res_record(own@));
    }
    ctx.src.h_defs.push_vec(&d);
    if ctx.in_import {
        // Borrowed handles of imported resources share the representation but
        // get their own nominal type, to catch misuse at compile time.
        let mut b = str_chars("\ntype\n  PP");
        push_chars(&mut b, &borrow);
        push_str(&mut b, " = ^P");
        push_chars(&mut b, &borrow);
        push_str(&mut b, ";\n  P");
        push_chars(&mut b, &borrow);
        push_str(&mut b, " = ^");
        push_chars(&mut b, &borrow);
        push_str(&mut b, ";\n  ");
        push_chars(&mut b, &borrow);
        push_str(&mut b, " = record\n__handle: int32;\nend;\n");
        proof {
            assert(b@ =~= spec_res_record(borrow@));
        }
        ctx.src.h_defs.push_vec(&b);
        if matches!(gen.opts.autodrop_borrows, Enabled::Yes) {
            // Borrows acquired through exports are dropped through the same
            // intrinsic, so give them their own drop helper too.
            let mut hb = str_chars("\nprocedure ");
            push_chars(&mut hb, &ns);
            push_str(&mut hb, "_");
            push_chars(&mut hb, &snake);
            push_str(&mut hb, "_drop_borrow(handle: ");
            push_chars(&mut hb, &borrow);
            push_str(&mut hb, ");\n");
            proof {
                assert(hb@ =~= spec_res_drop_borrow_h(ns@, snake@));
            }
            ctx.src.h_helpers.push_vec(&hb);
            let mut cb = str_chars("\nprocedure ");
            push_chars(&mut cb, &ns);
            push_str(&mut cb, "_");
            push_chars(&mut cb, &snake);
            push_str(&mut cb, "_drop_borrow(handle: ");
            push_chars(&mut cb, &borrow);
            push_str(&mut cb, ");\nbegin\n");
            push_chars(&mut cb, &drop_fn);
            push_str(&mut cb, "(handle.__handle);\nend;\n");
            proof {
                assert(cb@ =~= spec_res_drop_borrow_c(ns@, snake@));
            }
            ctx.src.c_helpers.push_vec(&cb);
        }
        // Converting an owned handle to a borrowed one keeps the index.
        let mut hc = str_chars("\nfunction ");
        push_chars(&mut hc, &ns);
        push_str(&mut hc, "_borrow_");
        push_chars(&mut hc, &snake);
        push_str(&mut hc, "(handle: ");
        push_chars(&mut hc, &own);
        push_str(&mut hc, "): ");
        push_chars(&mut hc, &borrow);
        push_str(&mut hc, ";\n");
        proof {
            assert(hc@ =~= spec_res_conv_h(ns@, snake@));
        }
        ctx.src.h_helpers.push_vec(&hc);
        let mut cc = str_chars("\nfunction ");
        push_chars(&mut cc, &ns);
        push_str(&mut cc, "_borrow_");
        push_chars(&mut cc, &snake);
        push_str(&mut cc, "(handle: ");
        push_chars(&mut cc, &own);
        push_str(&mut cc, "): ");
        push_chars(&mut cc, &borrow);
        push_str(&mut cc, ";\nbegin\n");
        push_chars(&mut cc, &ns);
        push_str(&mut cc, "_borrow_");
        push_chars(&mut cc, &snake);
        push_str(&mut cc, " := ");
        push_chars(&mut cc, &borrow);
        push_str(&mut cc, "( handle.__handle );\nend;\n");
        proof {
            assert(cc@ =~= spec_res_conv_c(ns@, snake@));
        }
        ctx.src.c_helpers.push_vec(&cc);
    } else {
        // Exported resources: the user authors the backing struct; borrows
        // are raw pointers into it, because this module owns the memory.
        let ty_name = match gen.type_names.lookup(id) {
            Ok(n) => n,
            Err(e) => {
                return Err(e);
            },
        };
        let module = match &ctx.iface {
            Some((_, key)) => match name_world_key(resolve, key) {
                Ok(m) => m,
                Err(e) => {
                    return Err(e);
                },
            },
            None => {
                return Err(GenError::WorldResourceExport);
            },
        };
        let mut d2 = str_chars("\ntypedef struct ");
        push_chars(&mut d2, &ty_name);
        push_str(&mut d2, " ");
        push_chars(&mut d2, &ty_name);
        push_str(&mut d2, ";\n\ntypedef ");
        push_chars(&mut d2, &ty_name);
        push_str(&mut d2, "* ");
        push_chars(&mut d2, &borrow);
        push_str(&mut d2, ";\n");
        proof {
            assert(d2@ =~= spec_res_export_defs(ty_name@, borrow@));
        }
        ctx.src.h_defs.push_vec(&d2);
        // Construction and representation intrinsics, plus the destructor
        // prototype the embedder must define.
        let mut h2 = str_chars("\nextern ");
        push_chars(&mut h2, &own);
        push_str(&mut h2, " ");
        push_chars(&mut h2, &ns);
        push_str(&mut h2, "_");
        push_chars(&mut h2, &snake);
        push_str(&mut h2, "_new(");
        push_chars(&mut h2, &ty_name);
        push_str(&mut h2, " *rep);\nextern ");
        push_chars(&mut h2, &ty_name);
        push_str(&mut h2, "* ");
        push_chars(&mut h2, &ns);
        push_str(&mut h2, "_");
        push_chars(&mut h2, &snake);
        push_str(&mut h2, "_rep(");
        push_chars(&mut h2, &own);
        push_str(&mut h2, " handle);\nvoid ");
        push_chars(&mut h2, &ns);
        push_str(&mut h2, "_");
        push_chars(&mut h2, &snake);
        push_str(&mut h2, "_destructor(");
        push_chars(&mut h2, &ty_name);
        push_str(&mut h2, " *rep);\n");
        proof {
            assert(h2@ =~= spec_res_export_h(ns@, snake@, ty_name@));
        }
        ctx.src.h_helpers.push_vec(&h2);
        let mut c2 = str_chars("\n__attribute__(( __import_module__(\"[export]");
        push_chars(&mut c2, &module);
        push_str(&mut c2, "\"), __import_name__(\"[resource-new]");
        push_chars(&mut c2, raw_name);
        push_str(&mut c2, "\")))\nextern int32_t __wasm_import_");
        push_chars(&mut c2, &ns);
        push_str(&mut c2, "_");
        push_chars(&mut c2, &snake);
        push_str(&mut c2, "_new(int32_t);\n\n__attribute__((__import_module__(\"[export]");
        push_chars(&mut c2, &module);
        push_str(&mut c2, "\"), __import_name__(\"[resource-rep]");
        push_chars(&mut c2, raw_name);
        push_str(&mut c2, "\")))\nextern int32_t __wasm_import_");
        push_chars(&mut c2, &ns);
        push_str(&mut c2, "_");
        push_chars(&mut c2, &snake);
        push_str(&mut c2, "_rep(int32_t);\n\n__attribute__((__export_name__(\"");
        push_chars(&mut c2, &module);
        push_str(&mut c2, "#[dtor]");
        push_chars(&mut c2, &snake);
        push_str(&mut c2, "\")))\nvoid __wasm_export_");
        push_chars(&mut c2, &ns);
        push_str(&mut c2, "_");
        push_chars(&mut c2, &snake);
        push_str(&mut c2, "_dtor(");
        push_chars(&mut c2, &ty_name);
        push_str(&mut c2, "* arg) {\n");
        push_chars(&mut c2, &ns);
        push_str(&mut c2, "_");
        push_chars(&mut c2, &snake);
        push_str(&mut c2, "_destructor(arg);\n}\n");
        proof {
            assert(c2@ =~= spec_res_export_c(ns@, snake@, raw_name@, module@, ty_name@));
        }
        ctx.src.c_helpers.push_vec(&c2);
    }
    let direction = if ctx.in_import {
        Direction::Import
    } else {
        Direction::Export
    };
    match gen.resources.register(id, ResourceInfo { direction, own, borrow, drop_fn }) {
        Ok(_) => Ok(()),
        Err(e) => Err(e),
    }
}

/// Emit the destructor call for a value of `ty` at `expr`, if it needs one.
fn free(gen: &Pascal, ctx: &mut IfaceCtx, resolve: &Resolve, ty: &Type, expr: &Vec<char>) -> (r:
    Result<(), GenError>)
    requires
        resolve.wf(),
    ensures
        final(ctx).iface == old(ctx).iface,
        final(ctx).in_import == old(ctx).in_import,
        final(ctx).wasm_import_module == old(ctx).wasm_import_module,
{
    match ty {
        Type::Id(id) => {
            match gen.dtor_funcs.lookup(*id) {
                Ok(dtor) => {
                    let mut line: Vec<char> = Vec::new();
                    push_chars(&mut line, &dtor);
                    push_str(&mut line, "(");
                    push_chars(&mut line, expr);
                    push_str(&mut line, ");\n");
                    ctx.src.c_helpers.push_vec(&line);
                },
                Err(_) => {},
            }
            Ok(())
        },
        Type::Str => {
            let snake = snake_chars(&gen.world);
            let mut line: Vec<char> = Vec::new();
            push_chars(&mut line, &snake);
            push_str(&mut line, "_string_free(");
            push_chars(&mut line, expr);
            push_str(&mut line, ");\n");
            ctx.src.c_helpers.push_vec(&line);
            Ok(())
        },
        _ => Ok(()),
    }
}

/// Define the synthesized constructor of `id`: records and tuples take one
/// argument per member, lists take a pointer and a length; other shapes get
/// none.
pub fn define_constructor(gen: &mut Pascal, ctx: &mut IfaceCtx, resolve: &Resolve, id: usize) -> (r:
    Result<(), GenError>)
    requires
        resolve.wf(),
        id < resolve.types.len(),
    ensures
        final(gen).world == old(gen).world,
        final(gen).renamed_interfaces == old(gen).renamed_interfaces,
        final(ctx).iface == old(ctx).iface,
        final(ctx).in_import == old(ctx).in_import,
        final(ctx).wasm_import_module == old(ctx).wasm_import_module,
        final(gen).type_names == old(gen).type_names,
        r is Ok ==> (match resolve.types[id as int].kind {
            TypeDefKind::ListOf(t) => forall|p: Seq<char>|
                (*old(gen)).type_names.defined(id as int) && (*old(gen)).type_names.name_of(
                    id as int,
                ) == p + "_t"@ && crate::gen::spec_type_name(
                    (*old(gen)).world@,
                    (*old(gen)).type_names,
                    t,
                ) is Some ==> final(ctx).src.h_helpers@ == crate::source::source_push(
                    (*old(ctx)).src.h_helpers@,
                    "function "@ + #[trigger] (p + "_create(ptr: P"@) + crate::gen::spec_type_name(
                        (*old(gen)).world@,
                        (*old(gen)).type_names,
                        t,
                    )->Some_0 + "; len: SizeUInt): "@ + p + "_t"@ + ";"@ + "\n"@,
                ),
            _ => true,
        }),
{
    let name = match gen.type_names.lookup(id) {
        Ok(n) => n,
        Err(e) => {
            return Err(e);
        },
    };
    let prefix = match crate::bindgen::strip_t(&name) {
        Ok(p) => p,
        Err(_) => {
            proof {
                assert forall|p: Seq<char>|
                    gen.type_names.name_of(id as int) != p + "_t"@ by {
                    assert(name@ != p + crate::bindgen::suffix_t(p));
                }
            }
            return Ok(());
        },
    };
    match &resolve.types[id].kind {
        TypeDefKind::Record(fs) => {
            if fs.len() == 0 {
                return Ok(());
            }
            let mut params: Vec<char> = Vec::new();
            let nf = fs.len();
            let mut i: usize = 0;
            while i < nf
                invariant
                    resolve.wf(),
                    id < resolve.types.len(),
                    gen.type_names == old(gen).type_names,
                    gen.world == old(gen).world,
                    gen.renamed_interfaces == old(gen).renamed_interfaces,
                    ctx.iface == old(ctx).iface,
                    ctx.in_import == old(ctx).in_import,
                    ctx.wasm_import_module == old(ctx).wasm_import_module,
                    resolve.types[id as int].kind matches TypeDefKind::Record(f2) && f2.len()
                        == nf,
                decreases nf - i,
            {
                let (fname, fty): (Vec<char>, Type) = match &resolve.types[id].kind {
                    TypeDefKind::Record(f2) => {
                        proof {
                            assert(resolve.kind_below(resolve.types[id as int].kind, id as int));
                            assert(resolve.ty_below(f2@[i as int].ty, id as int));
                        }
                        (to_pascal_ident(&f2[i].name), f2[i].ty)
                    },
                    _ => {
                        return Err(GenError::BadInstruction);
                    },
                };
                if i > 0 {
                    push_str(&mut params, "; ");
                }
                push_str(&mut params, "const a");
                push_chars(&mut params, &fname);
                push_str(&mut params, ": ");
                match gen.push_type_name(&fty, &mut params) {
                    Ok(_) => {},
                    Err(e) => {
                        return Err(e);
                    },
                }
                i += 1;
            }
            let mut sig = str_chars("function ");
            push_chars(&mut sig, &prefix);
            push_str(&mut sig, "_create(");
            push_chars(&mut sig, &params);
            push_str(&mut sig, "): ");
            push_chars(&mut sig, &name);
            push_str(&mut sig, ";");
            let mut h = str_chars("");
            push_chars(&mut h, &sig);
            push_str(&mut h, "\n");
            ctx.src.h_helpers.push_vec(&h);
            let mut c: Vec<char> = Vec::new();
            push_chars(&mut c, &sig);
            push_str(&mut c, "\nbegin\n");
            ctx.src.c_helpers.push_vec(&c);
            let mut k: usize = 0;
            while k < nf
                invariant
                    gen.world == old(gen).world,
                    gen.renamed_interfaces == old(gen).renamed_interfaces,
                    gen.type_names == old(gen).type_names,
                    ctx.iface == old(ctx).iface,
                    ctx.in_import == old(ctx).in_import,
                    ctx.wasm_import_module == old(ctx).wasm_import_module,
                    resolve.wf(),
                    id < resolve.types.len(),
                    resolve.types[id as int].kind matches TypeDefKind::Record(f2) && f2.len()
                        == nf,
                decreases nf - k,
            {
                let fname: Vec<char> = match &resolve.types[id].kind {
                    TypeDefKind::Record(f2) => to_pascal_ident(&f2[k].name),
                    _ => Vec::new(),
                };
                let mut line: Vec<char> = Vec::new();
                push_chars(&mut line, &prefix);
                push_str(&mut line, "_create.");
                push_chars(&mut line, &fname);
                push_str(&mut line, " := a");
                push_chars(&mut line, &fname);
                push_str(&mut line, ";\n");
                ctx.src.c_helpers.push_vec(&line);
                k += 1;
            }
            ctx.src.c_helpers.push_str("end;\n");
            Ok(())
        },
        TypeDefKind::Tuple(ts) => {
            if ts.len() == 0 {
                return Ok(());
            }
            let mut params: Vec<char> = Vec::new();
            let nt = ts.len();
            let mut i: usize = 0;
            while i < nt
                invariant
                    resolve.wf(),
                    id < resolve.types.len(),
                    gen.type_names == old(gen).type_names,
                    gen.world == old(gen).world,
                    gen.renamed_interfaces == old(gen).renamed_interfaces,
                    ctx.iface == old(ctx).iface,
                    ctx.in_import == old(ctx).in_import,
                    ctx.wasm_import_module == old(ctx).wasm_import_module,
                    resolve.types[id as int].kind matches TypeDefKind::Tuple(t2) && t2.len()
                        == nt,
                decreases nt - i,
            {
                let fty: Type = match &resolve.types[id].kind {
                    TypeDefKind::Tuple(t2) => {
                        proof {
                            assert(resolve.kind_below(resolve.types[id as int].kind, id as int));
                            assert(resolve.ty_below(t2@[i as int], id as int));
                        }
                        t2[i]
                    },
                    _ => {
                        return Err(GenError::BadInstruction);
                    },
                };
                if i > 0 {
                    push_str(&mut params, "; ");
                }
                push_str(&mut params, "const a");
                push_usize(&mut params, i);
                push_str(&mut params, ": ");
                match gen.push_type_name(&fty, &mut params) {
                    Ok(_) => {},
                    Err(e) => {
                        return Err(e);
                    },
                }
                i += 1;
            }
            let mut sig = str_chars("function ");
            push_chars(&mut sig, &prefix);
            push_str(&mut sig, "_create(");
            push_chars(&mut sig, &params);
            push_str(&mut sig, "): ");
            push_chars(&mut sig, &name);
            push_str(&mut sig, ";");
            let mut h: Vec<char> = Vec::new();
            push_chars(&mut h, &sig);
            push_str(&mut h, "\n");
            ctx.src.h_helpers.push_vec(&h);
            let mut c: Vec<char> = Vec::new();
            push_chars(&mut c, &sig);
            push_str(&mut c, "\nbegin\n");
            ctx.src.c_helpers.push_vec(&c);
            let mut k: usize = 0;
            while k < nt
                invariant
                    ctx.iface == old(ctx).iface,
                    ctx.in_import == old(ctx).in_import,
                    ctx.wasm_import_module == old(ctx).wasm_import_module,
                    gen.world == old(gen).world,
                    gen.renamed_interfaces == old(gen).renamed_interfaces,
                    gen.type_names == old(gen).type_names,
                decreases nt - k,
            {
                let mut line: Vec<char> = Vec::new();
                push_chars(&mut line, &prefix);
                push_str(&mut line, "_create.f");
                push_usize(&mut line, k);
                push_str(&mut line, " := a");
                push_usize(&mut line, k);
                push_str(&mut line, ";\n");
                ctx.src.c_helpers.push_vec(&line);
                k += 1;
            }
            ctx.src.c_helpers.push_str("end;\n");
            Ok(())
        },
        TypeDefKind::ListOf(t) => {
            let t2 = *t;
            proof {
                assert(resolve.kind_below(resolve.types[id as int].kind, id as int));
            }
            let mut tname: Vec<char> = Vec::new();
            match gen.push_type_name(&t2, &mut tname) {
                Ok(_) => {},
                Err(e) => {
                    return Err(e);
                },
            }
            let mut sig = str_chars("function ");
            push_chars(&mut sig, &prefix);
            push_str(&mut sig, "_create(ptr: P");
            push_chars(&mut sig, &tname);
            push_str(&mut sig, "; len: SizeUInt): ");
            push_chars(&mut sig, &name);
            push_str(&mut sig, ";");
            let mut h: Vec<char> = Vec::new();
            push_chars(&mut h, &sig);
            push_str(&mut h, "\n");
            proof {
                assert forall|p: Seq<char>| gen.type_names.name_of(id as int) == p + "_t"@
                    implies h@ == "function "@ + (p + "_create(ptr: P"@) + tname@
                    + "; len: SizeUInt): "@ + p + "_t"@ + ";"@ + "\n"@ by {
                    crate::text::lemma_concat_cancel_right(p, prefix@, "_t"@);
                    assert(h@ =~= "function "@ + (p + "_create(ptr: P"@) + tname@
                        + "; len: SizeUInt): "@ + p + "_t"@ + ";"@ + "\n"@);
                }
            }
            ctx.src.h_helpers.push_vec(&h);
            let mut c: Vec<char> = Vec::new();
            push_chars(&mut c, &sig);
            push_str(&mut c, "\nbegin\n");
            push_chars(&mut c, &prefix);
            push_str(&mut c, "_create.ptr := ptr;\n");
            push_chars(&mut c, &prefix);
            push_str(&mut c, "_create.len := len;\nend;\n");
            ctx.src.c_helpers.push_vec(&c);
            Ok(())
        },
        _ => Ok(()),
    }
}

/// Define the destructor of `id`: a `..._free` helper that releases every
/// allocation the value owns; nothing is emitted (and nothing recorded) when
/// the shape owns no memory.
pub fn define_dtor(gen: &mut Pascal, ctx: &mut IfaceCtx, resolve: &Resolve, id: usize) -> (r:
    Result<(), GenError>)
    requires
        resolve.wf(),
        id < resolve.types.len(),
    ensures
        final(gen).world == old(gen).world,
        final(gen).renamed_interfaces == old(gen).renamed_interfaces,
        final(ctx).iface == old(ctx).iface,
        final(ctx).in_import == old(ctx).in_import,
        final(ctx).wasm_import_module == old(ctx).wasm_import_module,
        final(gen).type_names == old(gen).type_names,
        final(gen).dtor_funcs.capacity() == old(gen).dtor_funcs.capacity(),
        forall|j: int|
            0 <= j < old(gen).dtor_funcs.capacity() && j != id ==> (final(gen).dtor_funcs.defined(
                j,
            ) == old(gen).dtor_funcs.defined(j) && (old(gen).dtor_funcs.defined(j)
                ==> final(gen).dtor_funcs.text_of(j) == old(gen).dtor_funcs.text_of(j))),
        final(gen).dtor_funcs.defined(id as int) && !old(gen).dtor_funcs.defined(id as int)
            ==> (old(gen).type_names.defined(id as int) && exists|p: Seq<char>|
            old(gen).type_names.name_of(id as int) == p + "_t"@ && final(gen).dtor_funcs.text_of(
                id as int,
            ) == #[trigger] (p + "_free"@)),
{
    let name = match gen.type_names.lookup(id) {
        Ok(n) => n,
        Err(e) => {
            return Err(e);
        },
    };
    let prefix = match crate::bindgen::strip_t(&name) {
        Ok(p) => p,
        Err(_) => {
            return Ok(());
        },
    };
    let h_start = ctx.src.h_helpers.len();
    let c_start = ctx.src.c_helpers.len();
    let mut h = str_chars("\nprocedure ");
    push_chars(&mut h, &prefix);
    push_str(&mut h, "_free(ptr: P");
    push_chars(&mut h, &name);
    push_str(&mut h, ");\n");
    ctx.src.h_helpers.push_vec(&h);
    let mut c = str_chars("\nprocedure ");
    push_chars(&mut c, &prefix);
    push_str(&mut c, "_free(ptr: P");
    push_chars(&mut c, &name);
    push_str(&mut c, ");\n");
    ctx.src.c_helpers.push_vec(&c);
    let var_pos = ctx.src.c_helpers.len();
    let mut var_section: Vec<char> = Vec::new();
    ctx.src.c_helpers.push_str("begin\n");
    let body_start = ctx.src.c_helpers.len();
    match &resolve.types[id].kind {
        TypeDefKind::Alias(t) => {
            let t2 = *t;
            proof {
                assert(resolve.kind_below(resolve.types[id as int].kind, id as int));
            }
            let e = str_chars("ptr");
            match free(gen, ctx, resolve, &t2, &e) {
                Ok(_) => {},
                Err(e2) => {
                    return Err(e2);
                },
            }
        },
        TypeDefKind::Flags(_) | TypeDefKind::Enum(_) | TypeDefKind::Resource
            | TypeDefKind::Handle(_) => {},
        TypeDefKind::Record(fs) => {
            let nf = fs.len();
            let mut i: usize = 0;
            while i < nf
                invariant
                    resolve.wf(),
                    id < resolve.types.len(),
                    gen.type_names == old(gen).type_names,
                    gen.world == old(gen).world,
                    gen.renamed_interfaces == old(gen).renamed_interfaces,
                    ctx.iface == old(ctx).iface,
                    ctx.in_import == old(ctx).in_import,
                    ctx.wasm_import_module == old(ctx).wasm_import_module,
                    resolve.types[id as int].kind matches TypeDefKind::Record(f2) && f2.len()
                        == nf,
                decreases nf - i,
            {
                let (fname, fty): (Vec<char>, Type) = match &resolve.types[id].kind {
                    TypeDefKind::Record(f2) => {
                        proof {
                            assert(resolve.kind_below(resolve.types[id as int].kind, id as int));
                            assert(resolve.ty_below(f2@[i as int].ty, id as int));
                        }
                        (to_pascal_ident(&f2[i].name), f2[i].ty)
                    },
                    _ => {
                        return Err(GenError::BadInstruction);
                    },
                };
                let mut e = str_chars("@(ptr^.");
                push_chars(&mut e, &fname);
                push_str(&mut e, ")");
                match free(gen, ctx, resolve, &fty, &e) {
                    Ok(_) => {},
                    Err(e2) => {
                        return Err(e2);
                    },
                }
                i += 1;
            }
        },
        TypeDefKind::Tuple(ts) => {
            let nt = ts.len();
            let mut i: usize = 0;
            while i < nt
                invariant
                    resolve.wf(),
                    id < resolve.types.len(),
                    gen.type_names == old(gen).type_names,
                    gen.world == old(gen).world,
                    gen.renamed_interfaces == old(gen).renamed_interfaces,
                    ctx.iface == old(ctx).iface,
                    ctx.in_import == old(ctx).in_import,
                    ctx.wasm_import_module == old(ctx).wasm_import_module,
                    resolve.types[id as int].kind matches TypeDefKind::Tuple(t2) && t2.len()
                        == nt,
                decreases nt - i,
            {
                let fty: Type = match &resolve.types[id].kind {
                    TypeDefKind::Tuple(t2) => {
                        proof {
                            assert(resolve.kind_below(resolve.types[id as int].kind, id as int));
                            assert(resolve.ty_below(t2@[i as int], id as int));
                        }
                        t2[i]
                    },
                    _ => {
                        return Err(GenError::BadInstruction);
                    },
                };
                let mut e = str_chars("@(ptr^.f");
                push_usize(&mut e, i);
                push_str(&mut e, ")");
                match free(gen, ctx, resolve, &fty, &e) {
                    Ok(_) => {},
                    Err(e2) => {
                        return Err(e2);
                    },
                }
                i += 1;
            }
        },
        TypeDefKind::ListOf(t) => {
            let t2 = *t;
            proof {
                assert(resolve.kind_below(resolve.types[id as int].kind, id as int));
            }
            ctx.src.c_helpers.push_str("  list_len := ptr^.len;\n");
            ctx.src.c_helpers.push_str("  if list_len > 0 then\n  begin\n");
            let mut tname: Vec<char> = Vec::new();
            match gen.push_type_name(&t2, &mut tname) {
                Ok(_) => {},
                Err(e) => {
                    return Err(e);
                },
            }
            push_str(&mut var_section, "var\n  i: SizeUInt;\n  list_len: SizeUInt;\n  list_ptr: P");
            push_chars(&mut var_section, &tname);
            push_str(&mut var_section, ";\n");
            ctx.src.c_helpers.push_str("list_ptr := ptr^.ptr;\n");
            ctx.src.c_helpers.push_str("for i := 0 to list_len - 1 do\nbegin\n");
            let e = str_chars("@list_ptr[i]");
            match free(gen, ctx, resolve, &t2, &e) {
                Ok(_) => {},
                Err(e2) => {
                    return Err(e2);
                },
            }
            ctx.src.c_helpers.push_str("end;\n");
            ctx.src.c_helpers.push_str("    FreeMem(list_ptr);\n");
            ctx.src.c_helpers.push_str("  end;\n");
        },
        TypeDefKind::Variant(cs) => {
            ctx.src.c_helpers.push_str("case int32(ptr^.tag) of\n");
            let nc = cs.len();
            let mut i: usize = 0;
            while i < nc
                invariant
                    gen.world == old(gen).world,
                    gen.renamed_interfaces == old(gen).renamed_interfaces,
                    gen.type_names == old(gen).type_names,
                    ctx.iface == old(ctx).iface,
                    ctx.in_import == old(ctx).in_import,
                    ctx.wasm_import_module == old(ctx).wasm_import_module,
                    resolve.wf(),
                    id < resolve.types.len(),
                    resolve.types[id as int].kind matches TypeDefKind::Variant(c2) && c2.len()
                        == nc,
                decreases nc - i,
            {
                let case_ty: Option<Type> = match &resolve.types[id].kind {
                    TypeDefKind::Variant(c2) => {
                        proof {
                            assert(resolve.kind_below(resolve.types[id as int].kind, id as int));
                            assert(c2@[i as int].ty matches Some(t) ==> resolve.ty_below(
                                t,
                                id as int,
                            ));
                        }
                        c2[i].ty
                    },
                    _ => None,
                };
                if let Some(t) = case_ty {
                    let cname: Vec<char> = match &resolve.types[id].kind {
                        TypeDefKind::Variant(c2) => to_pascal_ident(&c2[i].name),
                        _ => Vec::new(),
                    };
                    let mut head: Vec<char> = Vec::new();
                    push_usize(&mut head, i);
                    push_str(&mut head, ":\nbegin\n\n");
                    ctx.src.c_helpers.push_vec(&head);
                    let mut e = str_chars("@(ptr^.");
                    push_chars(&mut e, &cname);
                    push_str(&mut e, ")");
                    match free(gen, ctx, resolve, &t, &e) {
                        Ok(_) => {},
                        Err(e2) => {
                            return Err(e2);
                        },
                    }
                    ctx.src.c_helpers.push_str("end;\n");
                }
                i += 1;
            }
            ctx.src.c_helpers.push_str("end;\n");
        },
        TypeDefKind::OptionOf(t) => {
            let t2 = *t;
            proof {
                assert(resolve.kind_below(resolve.types[id as int].kind, id as int));
            }
            ctx.src.c_helpers.push_str("if ptr^.is_some then\nbegin\n");
            let e = str_chars("@(ptr^.val)");
            match free(gen, ctx, resolve, &t2, &e) {
                Ok(_) => {},
                Err(e2) => {
                    return Err(e2);
                },
            }
            ctx.src.c_helpers.push_str("end;\n");
        },
        TypeDefKind::ResultOf(ok, err) => {
            let ok2 = *ok;
            let err2 = *err;
            proof {
                assert(resolve.kind_below(resolve.types[id as int].kind, id as int));
            }
            ctx.src.c_helpers.push_str("if not ptr^.is_err then\nbegin\n");
            if let Some(t) = ok2 {
                let e = str_chars("@(ptr^.ok)");
                match free(gen, ctx, resolve, &t, &e) {
                    Ok(_) => {},
                    Err(e2) => {
                        return Err(e2);
                    },
                }
            }
            if let Some(t) = err2 {
                ctx.src.c_helpers.push_str("end else begin\n");
                let e = str_chars("@(ptr^.err)");
                match free(gen, ctx, resolve, &t, &e) {
                    Ok(_) => {},
                    Err(e2) => {
                        return Err(e2);
                    },
                }
            }
            ctx.src.c_helpers.push_str("end;\n");
        },
        _ => {
            return Err(GenError::Unsupported);
        },
    }
    // An empty body means nothing inside this shape owns memory: retract the
    // helper entirely.
    if ctx.src.c_helpers.len() == body_start {
        if body_start >= c_start && h_start <= ctx.src.h_helpers.len() && c_start
            <= ctx.src.c_helpers.len() {
            ctx.src.c_helpers.truncate(c_start);
            ctx.src.h_helpers.truncate(h_start);
        }
        return Ok(());
    }
    if var_section.len() > 0 && var_pos <= ctx.src.c_helpers.len() {
        ctx.src.c_helpers.insert_chars(var_pos, &var_section);
    }
    ctx.src.c_helpers.push_str("end;\n");
    let mut dtor: Vec<char> = Vec::new();
    push_chars(&mut dtor, &prefix);
    push_str(&mut dtor, "_free");
    proof {
        assert(dtor@ =~= prefix@ + "_free"@);
    }
    match gen.dtor_funcs.record(id, &dtor) {
        Ok(_) => Ok(()),
        Err(e) => Err(e),
    }
}

/// The plain text a world key renders to: the kebab-name itself, or
/// `namespace:package/interface` with `@version` when the package has one.
pub open spec fn spec_name_world_key(resolve: Resolve, key: WorldKey) -> Option<Seq<char>> {
    match key {
        WorldKey::Name(n) => Some(n@),
        WorldKey::Iface(id) => {
            if id >= resolve.interfaces@.len() {
                None
            } else {
                match resolve.interfaces@[id as int].package {
                    None => None,
                    Some(pkg) => {
                        if pkg >= resolve.packages@.len() {
                            None
                        } else {
                            let pn = resolve.packages@[pkg as int].name;
                            match resolve.interfaces@[id as int].name {
                                None => None,
                                Some(n) => Some(
                                    pn.namespace@ + ":"@ + pn.name@ + "/"@ + n@ + (
                                    match pn.version {
                                        Some(v) => "@"@ + v@,
                                        None => Seq::<char>::empty(),
                                    }),
                                ),
                            }
                        }
                    },
                }
            }
        },
    }
}

/// The plain name a world key renders to when matched against renames: the
/// kebab name itself, or `namespace:package/interface` with an optional
/// `@version`.
pub fn name_world_key(resolve: &Resolve, key: &WorldKey) -> (r: Result<Vec<char>, GenError>)
    ensures
        r matches Ok(v) ==> Some(v@) == spec_name_world_key(*resolve, *key),
        r is Err <==> spec_name_world_key(*resolve, *key) is None,
{
    match key {
        WorldKey::Name(n) => {
            let mut c: Vec<char> = Vec::new();
            push_chars(&mut c, n);
            Ok(c)
        },
        WorldKey::Iface(id) => {
            if *id >= resolve.interfaces.len() {
                return Err(GenError::MissingEntry);
            }
            let pkg = match &resolve.interfaces[*id].package {
                Some(p) => *p,
                None => {
                    return Err(GenError::MissingEntry);
                },
            };
            if pkg >= resolve.packages.len() {
                return Err(GenError::MissingEntry);
            }
            let mut c: Vec<char> = Vec::new();
            push_chars(&mut c, &resolve.packages[pkg].name.namespace);
            push_str(&mut c, ":");
            push_chars(&mut c, &resolve.packages[pkg].name.name);
            push_str(&mut c, "/");
            match &resolve.interfaces[*id].name {
                Some(n) => push_chars(&mut c, n),
                None => {
                    return Err(GenError::MissingEntry);
                },
            }
            if let Some(v) = &resolve.packages[pkg].name.version {
                push_str(&mut c, "@");
                push_chars(&mut c, v);
            }
            proof {
                let pn = resolve.packages@[pkg as int].name;
                let n = resolve.interfaces@[*id as int].name->Some_0;
                assert(c@ =~= pn.namespace@ + ":"@ + pn.name@ + "/"@ + n@ + (match pn.version {
                    Some(v) => "@"@ + v@,
                    None => Seq::<char>::empty(),
                }));
            }
            Ok(c)
        },
    }
}

/// Define one named type by its shape.
pub fn define_type(gen: &mut Pascal, ctx: &mut IfaceCtx, resolve: &Resolve, id: usize) -> (r:
    Result<(), GenError>)
    requires
        resolve.wf(),
        id < resolve.types.len(),
    ensures
        final(gen).world == old(gen).world,
        final(gen).renamed_interfaces == old(gen).renamed_interfaces,
        final(ctx).iface == old(ctx).iface,
        final(ctx).in_import == old(ctx).in_import,
        final(ctx).wasm_import_module == old(ctx).wasm_import_module,
        final(gen).type_names == old(gen).type_names,
{
    push_docs(&mut ctx.src.h_defs, &resolve.types[id].docs.contents);
    match &resolve.types[id].kind {
        TypeDefKind::Record(_) => type_record(gen, ctx, resolve, id),
        TypeDefKind::Resource => type_resource(gen, ctx, resolve, id),
        TypeDefKind::Flags(_) => type_flags(gen, ctx, resolve, id),
        TypeDefKind::Tuple(_) => type_tuple(gen, ctx, resolve, id),
        TypeDefKind::Variant(_) => type_variant(gen, ctx, resolve, id),
        TypeDefKind::Enum(_) => type_enum(gen, ctx, resolve, id),
        TypeDefKind::OptionOf(_) => type_option(gen, ctx, resolve, id),
        TypeDefKind::ResultOf(_, _) => type_result(gen, ctx, resolve, id),
        TypeDefKind::ListOf(_) => type_list(gen, ctx, resolve, id),
        TypeDefKind::Alias(_) => type_alias(gen, ctx, resolve, id),
        TypeDefKind::Handle(_) => define_anonymous_type(gen, ctx, resolve, id),
        _ => Err(GenError::Unsupported),
    }
}

/// Define one anonymous type by its shape; handles render as aliases of the
/// resource's own or borrow type.
pub fn define_anonymous_type(gen: &mut Pascal, ctx: &mut IfaceCtx, resolve: &Resolve, id: usize) -> (r:
    Result<(), GenError>)
    requires
        resolve.wf(),
        id < resolve.types.len(),
    ensures
        final(gen).world == old(gen).world,
        final(gen).renamed_interfaces == old(gen).renamed_interfaces,
        final(ctx).iface == old(ctx).iface,
        final(ctx).in_import == old(ctx).in_import,
        final(ctx).wasm_import_module == old(ctx).wasm_import_module,
        final(gen).type_names == old(gen).type_names,
{
    match &resolve.types[id].kind {
        TypeDefKind::Handle(h) => {
            let res = match h {
                Handle::Own(x) => *x,
                Handle::Borrow(x) => *x,
            };
            if res >= resolve.types.len() {
                return Err(GenError::BadTypeIndex);
            }
            let origin = crate::wit::dealias(resolve, res);
            let target = match h {
                Handle::Own(_) => gen.resources.own_name(origin),
                Handle::Borrow(_) => gen.resources.borrow_name(origin),
            };
            let target = match target {
                Ok(t) => t,
                Err(e) => {
                    return Err(e);
                },
            };
            match start_typedef_alias(gen, ctx, id) {
                Ok(_) => {},
                Err(e) => {
                    return Err(e);
                },
            }
            let mut line: Vec<char> = Vec::new();
            push_chars(&mut line, &target);
            push_str(&mut line, ";\n");
            ctx.src.h_defs.push_vec(&line);
            Ok(())
        },
        TypeDefKind::Tuple(_) => type_tuple(gen, ctx, resolve, id),
        TypeDefKind::OptionOf(_) => type_option(gen, ctx, resolve, id),
        TypeDefKind::ResultOf(_, _) => type_result(gen, ctx, resolve, id),
        TypeDefKind::ListOf(_) => type_list(gen, ctx, resolve, id),
        TypeDefKind::Alias(_) => type_alias(gen, ctx, resolve, id),
        _ => Err(GenError::Unsupported),
    }
}

/// Name and define every live type not yet defined, in table order, which
/// respects dependencies. A type identity already registered is skipped
/// whole: its name is returned unchanged and nothing is re-emitted, so
/// registering the same identity twice yields the same name both times.
/// The canonical generated name of a live type: `{ns}_{encoding}_t`, where
/// anonymous primitive-only shapes take the world's snake name as their
/// namespace and everything else takes its owner namespace.
pub open spec fn spec_live_type_name(
    resolve: Resolve,
    iface: Option<(usize, WorldKey)>,
    in_import: bool,
    world: Seq<char>,
    i: int,
    renames: Seq<crate::tyname::Rename>,
) -> Option<Seq<char>> {
    let prefix = if resolve.types[i].name is None && crate::tyname::spec_is_prim(
        resolve,
        Type::Id(i as usize),
    ) {
        Some(crate::ident::snake_of(world))
    } else {
        crate::tyname::spec_owner_namespace(resolve, iface, in_import, world, i, renames)
    };
    match (prefix, crate::tyname::spec_ty_name(resolve, Type::Id(i as usize))) {
        (Some(p), Some(e)) => Some(p + "_"@ + e + "_t"@),
        _ => None,
    }
}

#[verifier::rlimit(100)]
pub fn define_live_types(
    gen: &mut Pascal,
    ctx: &mut IfaceCtx,
    resolve: &Resolve,
    live: &Vec<bool>,
) -> (r: Result<(), GenError>)
    requires
        resolve.wf(),
        old(gen).type_names.wf(),
        live@.len() == resolve.types.len(),
    ensures
        final(gen).type_names.wf(),
        forall|i: int|
            0 <= i < old(gen).type_names.capacity() && old(gen).type_names.defined(i)
                ==> final(gen).type_names.defined(i)
                && final(gen).type_names.name_of(i) == old(gen).type_names.name_of(i),
        (forall|i: int|
            0 <= i < live@.len() && live@[i] ==> old(gen).type_names.defined(i)) ==> (*final(gen)
            == *old(gen) && *final(ctx) == *old(ctx) && r is Ok),
        r is Ok ==> (forall|i: int|
            0 <= i < live@.len() && live@[i] ==> final(gen).type_names.defined(i)),
        r is Ok ==> (forall|i: int|
            0 <= i < live@.len() && live@[i] && !old(gen).type_names.defined(i)
                ==> spec_live_type_name(
                *resolve,
                (*old(ctx)).iface,
                (*old(ctx)).in_import,
                (*old(gen)).world@,
                i,
                (*old(gen)).renamed_interfaces@,
            ) is Some && final(gen).type_names.name_of(i) == spec_live_type_name(
                *resolve,
                (*old(ctx)).iface,
                (*old(ctx)).in_import,
                (*old(gen)).world@,
                i,
                (*old(gen)).renamed_interfaces@,
            )->Some_0),
        final(gen).world == old(gen).world,
        final(gen).renamed_interfaces == old(gen).renamed_interfaces,
        final(ctx).iface == old(ctx).iface,
        final(ctx).in_import == old(ctx).in_import,
        final(ctx).wasm_import_module == old(ctx).wasm_import_module,
{
    let n = live.len();
    let mut id: usize = 0;
    while id < n
        invariant
            resolve.wf(),
            gen.type_names.wf(),
            live@.len() == resolve.types.len(),
            n == live@.len(),
            gen.type_names.capacity() == old(gen).type_names.capacity(),
            forall|i: int|
                0 <= i < old(gen).type_names.capacity() && old(gen).type_names.defined(i)
                    ==> gen.type_names.defined(i)
                    && gen.type_names.name_of(i) == old(gen).type_names.name_of(i),
            (forall|i: int|
                0 <= i < live@.len() && live@[i] ==> old(gen).type_names.defined(i)) ==> (*gen
                == *old(gen) && *ctx == *old(ctx)),
            gen.world == old(gen).world,
            gen.renamed_interfaces == old(gen).renamed_interfaces,
            ctx.iface == old(ctx).iface,
            ctx.in_import == old(ctx).in_import,
            ctx.wasm_import_module == old(ctx).wasm_import_module,
            forall|i: int| 0 <= i < id && live@[i] ==> gen.type_names.defined(i),
            forall|i: int|
                id <= i ==> gen.type_names.defined(i) == old(gen).type_names.defined(i),
            forall|i: int|
                0 <= i < id && live@[i] && !old(gen).type_names.defined(i)
                    ==> spec_live_type_name(
                    *resolve,
                    (*old(ctx)).iface,
                    (*old(ctx)).in_import,
                    (*old(gen)).world@,
                    i,
                    (*old(gen)).renamed_interfaces@,
                ) is Some && gen.type_names.name_of(i) == spec_live_type_name(
                    *resolve,
                    (*old(ctx)).iface,
                    (*old(ctx)).in_import,
                    (*old(gen)).world@,
                    i,
                    (*old(gen)).renamed_interfaces@,
                )->Some_0,
        decreases n - id,
    {
        if live[id] && !gen.type_names.contains(id) {
            proof {
                assert(resolve.ty_below(Type::Id(id), resolve.types.len() as int));
            }
            let mut encoded: Vec<char> = Vec::new();
            let t = Type::Id(id);
            match crate::tyname::push_ty_name(resolve, &t, &mut encoded) {
                Ok(_) => {},
                Err(e) => {
                    return Err(e);
                },
            }
            proof {
                assert(encoded@ =~= crate::tyname::spec_ty_name(*resolve, t)->Some_0);
            }
            let named = resolve.types[id].name.is_some();
            if named {
                let ns = match owner_ns(gen, ctx, resolve, id) {
                    Ok(v) => v,
                    Err(e) => {
                        return Err(e);
                    },
                };
                let mut tname: Vec<char> = Vec::new();
                push_chars(&mut tname, &ns);
                push_str(&mut tname, "_");
                push_chars(&mut tname, &encoded);
                push_str(&mut tname, "_t");
                proof {
                    assert(tname@ =~= ns@ + "_"@ + encoded@ + "_t"@);
                    assert(spec_live_type_name(
                        *resolve,
                        (*old(ctx)).iface,
                        (*old(ctx)).in_import,
                        (*old(gen)).world@,
                        id as int,
                        (*old(gen)).renamed_interfaces@,
                    ) == Some(tname@));
                }
                match gen.type_names.register(id, &tname, false) {
                    Ok(_) => {},
                    Err(e) => {
                        return Err(e);
                    },
                }
                match define_type(gen, ctx, resolve, id) {
                    Ok(_) => {},
                    Err(e) => {
                        return Err(e);
                    },
                }
            } else {
                let prim = crate::tyname::is_prim_type(resolve, &t);
                if prim {
                    // Primitive-only anonymous shapes are pooled globally.
                    let ws = snake_chars(&gen.world);
                    let mut tname: Vec<char> = Vec::new();
                    push_chars(&mut tname, &ws);
                    push_str(&mut tname, "_");
                    push_chars(&mut tname, &encoded);
                    push_str(&mut tname, "_t");
                    proof {
                        assert(tname@ =~= ws@ + "_"@ + encoded@ + "_t"@);
                        assert(spec_live_type_name(
                            *resolve,
                            (*old(ctx)).iface,
                            (*old(ctx)).in_import,
                            (*old(gen)).world@,
                            id as int,
                            (*old(gen)).renamed_interfaces@,
                        ) == Some(tname@));
                    }
                    let reused = match gen.type_names.register(id, &tname, true) {
                        Ok(b) => b,
                        Err(e) => {
                            return Err(e);
                        },
                    };
                    if reused {
                        id += 1;
                        continue ;
                    }
                } else {
                    let ns = match owner_ns(gen, ctx, resolve, id) {
                        Ok(v) => v,
                        Err(e) => {
                            return Err(e);
                        },
                    };
                    let mut tname: Vec<char> = Vec::new();
                    push_chars(&mut tname, &ns);
                    push_str(&mut tname, "_");
                    push_chars(&mut tname, &encoded);
                    push_str(&mut tname, "_t");
                    proof {
                        assert(tname@ =~= ns@ + "_"@ + encoded@ + "_t"@);
                        assert(spec_live_type_name(
                            *resolve,
                            (*old(ctx)).iface,
                            (*old(ctx)).in_import,
                            (*old(gen)).world@,
                            id as int,
                            (*old(gen)).renamed_interfaces@,
                        ) == Some(tname@));
                    }
                    match gen.type_names.register(id, &tname, false) {
                        Ok(_) => {},
                        Err(e) => {
                            return Err(e);
                        },
                    }
                }
                // Handle aliases of a bare resource inherit its identity.
                let skip_define: bool = match &resolve.types[id].kind {
                    TypeDefKind::Handle(h) => {
                        let res = match h {
                            Handle::Own(x) => *x,
                            Handle::Borrow(x) => *x,
                        };
                        if res >= resolve.types.len() {
                            return Err(GenError::BadTypeIndex);
                        }
                        let origin = crate::wit::dealias(resolve, res);
                        origin == res
                    },
                    _ => false,
                };
                if skip_define {
                    id += 1;
                    continue ;
                }
                match define_anonymous_type(gen, ctx, resolve, id) {
                    Ok(_) => {},
                    Err(e) => {
                        return Err(e);
                    },
                }
            }
            match define_constructor(gen, ctx, resolve, id) {
                Ok(_) => {},
                Err(e) => {
                    return Err(e);
                },
            }
            match define_dtor(gen, ctx, resolve, id) {
                Ok(_) => {},
                Err(e) => {
                    return Err(e);
                },
            }
        }
        id += 1;
    }
    Ok(())
}

/// The generated files of a pass: text units, plus the opaque component-type
/// object when one is supplied.
pub enum FileData {
    /// A generated text unit.
    Text(Vec<char>),
    /// An opaque binary payload produced elsewhere and merely carried.
    Blob(Vec<u8>),
}

/// The output file set of a pass.
pub struct Files {
    /// Name and contents of each generated file, in push order.
    pub entries: Vec<(Vec<char>, FileData)>,
}

impl Files {
    /// No files yet.
    pub fn new() -> (r: Files)
        ensures
            r.entries@.len() == 0,
    {
        Files { entries: Vec::new() }
    }

    /// Add one file.
    pub fn push(&mut self, name: Vec<char>, data: FileData)
        ensures
            final(self).entries@ == old(self).entries@.push((name, data)),
    {
        self.entries.push((name, data));
    }
}

/// The name of out-parameter `k` of `n`: `ret`/`err` for a flattened result
/// (the ok slot first where present), `ret` for a single indirect payload,
/// `ret0`, `ret1`, ... otherwise.
pub open spec fn spec_retptr_name(scalar: Option<crate::classify::Scalar>, n: int, k: int) -> Seq<
    char,
> {
    match scalar {
        Some(crate::classify::Scalar::ResultBool(ok, _)) => if k == 0 && ok is Some {
            "ret"@
        } else {
            "err"@
        },
        _ => if n == 1 {
            "ret"@
        } else {
            "ret"@ + crate::text::dec_digits(k as nat)
        },
    }
}


/// The rendered direct-return type of a classification: nothing for a
/// procedure, `boolean` for the flattened forms, the type name for a scalar.
pub open spec fn spec_scalar_text(
    world: Seq<char>,
    names: crate::gen::TypeNames,
    scalar: Option<crate::classify::Scalar>,
) -> Option<Seq<char>> {
    match scalar {
        None => Some(Seq::<char>::empty()),
        Some(crate::classify::Scalar::Void) => Some(Seq::<char>::empty()),
        Some(crate::classify::Scalar::OptionBool(_)) => Some("boolean"@),
        Some(crate::classify::Scalar::ResultBool(_, _)) => Some("boolean"@),
        Some(crate::classify::Scalar::Type(t)) => crate::gen::spec_type_name(world, names, t),
    }
}

/// Whether a classification renders as a `function` rather than a
/// `procedure`.
pub open spec fn spec_is_function(scalar: Option<crate::classify::Scalar>) -> bool {
    match scalar {
        None => false,
        Some(crate::classify::Scalar::Void) => false,
        _ => true,
    }
}

/// The flattened-option payload of parameter type `ty`, when flattening is on
/// and the type is an option: such a parameter travels as a nullable pointer.
pub open spec fn spec_opt_payload(resolve: Resolve, ty: Type, flat: bool) -> Option<Type> {
    if flat {
        match ty {
            Type::Id(tid) => if tid < resolve.types.len() {
                match resolve.types[tid as int].kind {
                    TypeDefKind::OptionOf(t) => Some(t),
                    _ => None,
                }
            } else {
                None
            },
            _ => None,
        }
    } else {
        None
    }
}

/// One rendered parameter: an option under flattening becomes
/// `maybe_{name}: [P]{payload}`, anything else `{name}: [P]{type}`, the `P`
/// appearing when the argument is passed by pointer.
pub open spec fn spec_param_seg(
    resolve: Resolve,
    world: Seq<char>,
    names: crate::gen::TypeNames,
    func: crate::wit::Function,
    flat: bool,
    i: int,
) -> Option<Seq<char>> {
    let ty = func.params[i].ty;
    let ident = crate::ident::pascal_ident_of(func.params[i].name@);
    match crate::classify::spec_arg_by_pointer(resolve, ty) {
        None => None,
        Some(bp) => {
            let pre = if bp {
                "P"@
            } else {
                Seq::<char>::empty()
            };
            match spec_opt_payload(resolve, ty, flat) {
                Some(t) => match crate::gen::spec_type_name(world, names, t) {
                    None => None,
                    Some(tx) => Some("maybe_"@ + ident + ": "@ + pre + tx),
                },
                None => match crate::gen::spec_type_name(world, names, ty) {
                    None => None,
                    Some(tx) => Some(ident + ": "@ + pre + tx),
                },
            }
        },
    }
}

/// The first `i` parameters rendered, joined by `; `.
pub open spec fn spec_params_prefix(
    resolve: Resolve,
    world: Seq<char>,
    names: crate::gen::TypeNames,
    func: crate::wit::Function,
    flat: bool,
    i: int,
) -> Option<Seq<char>>
    decreases i,
{
    if i <= 0 {
        Some(Seq::<char>::empty())
    } else {
        match spec_params_prefix(resolve, world, names, func, flat, i - 1) {
            None => None,
            Some(rest) => match spec_param_seg(resolve, world, names, func, flat, i - 1) {
                None => None,
                Some(seg) => Some(
                    rest + (if i - 1 > 0 {
                        "; "@
                    } else {
                        Seq::<char>::empty()
                    }) + seg,
                ),
            },
        }
    }
}

/// One more out-parameter extends the rendered prefix by its own segment.
proof fn lemma_retptrs_prefix_step(
    resolve: Resolve,
    world: Seq<char>,
    names: crate::gen::TypeNames,
    ret: crate::classify::RetSpec,
    np: int,
    k: int,
    head: Seq<char>,
    ps: Seq<char>,
    st0: Seq<char>,
)
    requires
        0 <= k < ret.retptrs.len(),
        spec_retptrs_prefix(resolve, world, names, ret, np, k) is Some,
        crate::gen::spec_type_name(world, names, ret.retptrs[k]) is Some,
        st0 == head + ps + spec_retptrs_prefix(resolve, world, names, ret, np, k)->Some_0,
    ensures
        spec_retptrs_prefix(resolve, world, names, ret, np, k + 1) is Some,
        st0 + (if k > 0 || np > 0 {
            "; "@
        } else {
            Seq::<char>::empty()
        }) + spec_retptr_name(ret.scalar, ret.retptrs.len() as int, k) + ": P"@
            + crate::gen::spec_type_name(world, names, ret.retptrs[k])->Some_0 == head + ps
            + spec_retptrs_prefix(resolve, world, names, ret, np, k + 1)->Some_0,
{
    let rest = spec_retptrs_prefix(resolve, world, names, ret, np, k)->Some_0;
    let tx = crate::gen::spec_type_name(world, names, ret.retptrs[k])->Some_0;
    let sep: Seq<char> = if k > 0 || np > 0 {
        "; "@
    } else {
        Seq::<char>::empty()
    };
    let nm = spec_retptr_name(ret.scalar, ret.retptrs.len() as int, k);
    assert(spec_retptrs_prefix(resolve, world, names, ret, np, k + 1) == Some(
        rest + sep + nm + ": P"@ + tx,
    ));
    assert(st0 + sep + nm + ": P"@ + tx =~= head + ps + (rest + sep + nm + ": P"@ + tx));
}

/// The first `k` out-parameters rendered, joined by `; ` (and separated from
/// the parameters when any exist).
pub open spec fn spec_retptrs_prefix(
    resolve: Resolve,
    world: Seq<char>,
    names: crate::gen::TypeNames,
    ret: crate::classify::RetSpec,
    np: int,
    k: int,
) -> Option<Seq<char>>
    decreases k,
{
    if k <= 0 {
        Some(Seq::<char>::empty())
    } else {
        match spec_retptrs_prefix(resolve, world, names, ret, np, k - 1) {
            None => None,
            Some(rest) => match crate::gen::spec_type_name(world, names, ret.retptrs[k - 1]) {
                None => None,
                Some(tx) => Some(
                    rest + (if k - 1 > 0 || np > 0 {
                        "; "@
                    } else {
                        Seq::<char>::empty()
                    }) + spec_retptr_name(ret.scalar, ret.retptrs.len() as int, k - 1) + ": P"@
                        + tx,
                ),
            },
        }
    }
}

/// The whole rendered public header of a function: keyword, generated name,
/// parameters (options flattened to nullable pointers), out-parameters, and
/// the direct return type for functions. `None` when a name or type cannot be
/// rendered or the classification meets an unsupported feature.
pub open spec fn spec_sig_text(
    resolve: Resolve,
    world: Seq<char>,
    names: crate::gen::TypeNames,
    in_import: bool,
    interface_name: Option<WorldKey>,
    func: crate::wit::Function,
    flat: bool,
    renames: Seq<crate::tyname::Rename>,
) -> Option<Seq<char>> {
    match crate::tyname::spec_c_func_name(
        resolve,
        in_import,
        world,
        interface_name,
        func.name@,
        renames,
    ) {
        None => None,
        Some(nm) => match crate::classify::spec_classify_ret(resolve, func.result, flat) {
            None => None,
            Some(ret) => match spec_scalar_text(world, names, ret.scalar) {
                None => None,
                Some(rt) => match spec_params_prefix(
                    resolve,
                    world,
                    names,
                    func,
                    flat,
                    func.params.len() as int,
                ) {
                    None => None,
                    Some(ps) => match spec_retptrs_prefix(
                        resolve,
                        world,
                        names,
                        ret,
                        func.params.len() as int,
                        ret.retptrs.len() as int,
                    ) {
                        None => None,
                        Some(rs) => Some(
                            (if spec_is_function(ret.scalar) {
                                "function "@
                            } else {
                                "procedure "@
                            }) + nm + "("@ + ps + rs + ")"@ + (if spec_is_function(ret.scalar) {
                                ": "@ + rt
                            } else {
                                Seq::<char>::empty()
                            }),
                        ),
                    },
                },
            },
        },
    }
}

/// When the signature printer is owed success: the header is renderable, its
/// symbol is not yet taken, and every out-parameter type lies in the table.
pub open spec fn spec_sig_ready(
    resolve: Resolve,
    world: Seq<char>,
    names: crate::gen::TypeNames,
    taken: crate::names::NameSet,
    in_import: bool,
    interface_name: Option<WorldKey>,
    func: crate::wit::Function,
    flat: bool,
    renames: Seq<crate::tyname::Rename>,
) -> bool {
    &&& spec_sig_text(
        resolve,
        world,
        names,
        in_import,
        interface_name,
        func,
        flat,
        renames,
    ) is Some
    &&& (match crate::tyname::spec_c_func_name(
        resolve,
        in_import,
        world,
        interface_name,
        func.name@,
        renames,
    ) {
        Some(nm) => !taken.contains(nm),
        None => false,
    })
    &&& (match crate::classify::spec_classify_ret(resolve, func.result, flat) {
        Some(ret) => forall|x: int|
            0 <= x < ret.retptrs.len() ==> resolve.ty_below(
                #[trigger] ret.retptrs[x],
                resolve.types.len() as int,
            ),
        None => false,
    })
}

/// Render one public parameter (an option under flattening becomes a
/// nullable `maybe_` pointer); see [`spec_param_seg`].
fn render_param(
    gen: &mut Pascal,
    resolve: &Resolve,
    func: &crate::wit::Function,
    i: usize,
    flat: bool,
    sig_text: &mut Vec<char>,
) -> (r: Result<crate::bindgen::CParam, GenError>)
    requires
        resolve.wf(),
        resolve.func_wf(*func),
        i < func.params@.len(),
    ensures
        final(gen).type_names == old(gen).type_names,
        final(gen).world == old(gen).world,
        final(gen).names == old(gen).names,
        final(gen).renamed_interfaces == old(gen).renamed_interfaces,
        r is Ok <==> spec_param_seg(
            *resolve,
            (*old(gen)).world@,
            (*old(gen)).type_names,
            *func,
            flat,
            i as int,
        ) is Some,
        r is Ok ==> final(sig_text)@ == old(sig_text)@ + spec_param_seg(
            *resolve,
            (*old(gen)).world@,
            (*old(gen)).type_names,
            *func,
            flat,
            i as int,
        )->Some_0,
{
    proof {
        assert(resolve.ty_below(func.params@[i as int].ty, resolve.types.len() as int));
    }
    let pty = func.params[i].ty;
    let pointer = match crate::classify::is_arg_by_pointer(resolve, &pty) {
        Ok(b) => b,
        Err(e) => {
            return Err(e);
        },
    };
    // Optional parameters flatten to a nullable pointer.
    let optional_payload: Option<Type> = if flat {
        match pty {
            Type::Id(tid) => {
                if tid < resolve.types.len() {
                    match &resolve.types[tid].kind {
                        TypeDefKind::OptionOf(t) => {
                            proof {
                                assert(resolve.kind_below(
                                    resolve.types[tid as int].kind,
                                    tid as int,
                                ));
                            }
                            Some(*t)
                        },
                        _ => None,
                    }
                } else {
                    None
                }
            },
            _ => None,
        }
    } else {
        None
    };
    proof {
        assert(optional_payload == spec_opt_payload(*resolve, pty, flat));
    }
    let pname = to_pascal_ident(&func.params[i].name);
    match &optional_payload {
        Some(t) => {
            push_str(sig_text, "maybe_");
            push_chars(sig_text, &pname);
            push_str(sig_text, ": ");
            if pointer {
                push_str(sig_text, "P");
            }
            let t2 = *t;
            match gen.push_type_name(&t2, sig_text) {
                Ok(_) => {},
                Err(e) => {
                    return Err(e);
                },
            }
        },
        None => {
            push_chars(sig_text, &pname);
            push_str(sig_text, ": ");
            if pointer {
                push_str(sig_text, "P");
            }
            match gen.push_type_name(&pty, sig_text) {
                Ok(_) => {},
                Err(e) => {
                    return Err(e);
                },
            }
        },
    }
    proof {
        assert(final(sig_text)@ =~= old(sig_text)@ + spec_param_seg(
            *resolve,
            (*old(gen)).world@,
            (*old(gen)).type_names,
            *func,
            flat,
            i as int,
        )->Some_0);
    }
    Ok(crate::bindgen::CParam { by_pointer: optional_payload.is_none() && pointer, name: pname })
}

/// A failing parameter segment poisons the whole parameter list.
proof fn lemma_params_prefix_none(
    resolve: Resolve,
    world: Seq<char>,
    names: crate::gen::TypeNames,
    func: crate::wit::Function,
    flat: bool,
    i: int,
    n: int,
)
    requires
        0 <= i < n,
        spec_param_seg(resolve, world, names, func, flat, i) is None,
    ensures
        spec_params_prefix(resolve, world, names, func, flat, n) is None,
    decreases n,
{
    if i < n - 1 {
        lemma_params_prefix_none(resolve, world, names, func, flat, i, n - 1);
    }
}

/// An unrenderable out-parameter type poisons the whole out-parameter list.
proof fn lemma_retptrs_prefix_none(
    resolve: Resolve,
    world: Seq<char>,
    names: crate::gen::TypeNames,
    ret: crate::classify::RetSpec,
    np: int,
    k: int,
    n: int,
)
    requires
        0 <= k < n,
        crate::gen::spec_type_name(world, names, ret.retptrs[k]) is None,
    ensures
        spec_retptrs_prefix(resolve, world, names, ret, np, n) is None,
    decreases n,
{
    if k < n - 1 {
        lemma_retptrs_prefix_none(resolve, world, names, ret, np, k, n - 1);
    }
}

/// Render the public signature of `func` into the section's header buffer
/// and build its descriptor. The classification follows
/// [`crate::classify::spec_classify_ret`] exactly; the out-parameter names
/// are `ret`/`err` for flattened results, `ret` for a single indirect
/// payload, `ret0`, `ret1`, ... otherwise.
#[verifier::rlimit(100)]
pub fn print_sig(
    gen: &mut Pascal,
    ctx: &mut IfaceCtx,
    resolve: &Resolve,
    interface_name: &Option<WorldKey>,
    func: &crate::wit::Function,
    sig_flattening: bool,
) -> (r: Result<crate::bindgen::CSig, GenError>)
    requires
        resolve.wf(),
        resolve.func_wf(*func),
    ensures
        r matches Ok(cs) ==> Some(cs.ret@) == crate::classify::spec_classify_ret(
            *resolve,
            func.result,
            sig_flattening,
        ),
        r matches Ok(cs) ==> cs.retptrs@.len() == cs.ret@.retptrs.len(),
        r matches Ok(cs) ==> cs.params@.len() == func.params@.len(),
        final(gen).type_names == old(gen).type_names,
        r matches Ok(cs) ==> (forall|k: int|
            0 <= k < cs.retptrs@.len() ==> (#[trigger] cs.retptrs@[k])@ == spec_retptr_name(
                cs.ret@.scalar,
                cs.retptrs@.len() as int,
                k,
            )),
        r matches Ok(cs) ==> final(ctx).src.h_fns@ == crate::source::source_push(
            (*old(ctx)).src.h_fns@,
            cs.sig@ + ";\n"@,
        ),
        r is Ok ==> final(ctx).src.h_defs == (*old(ctx)).src.h_defs
            && final(ctx).src.c_fns == (*old(ctx)).src.c_fns
            && final(ctx).src.c_adapters == (*old(ctx)).src.c_adapters
            && final(ctx).src.c_helpers == (*old(ctx)).src.c_helpers
            && final(ctx).src.h_helpers == (*old(ctx)).src.h_helpers,
        (match crate::tyname::spec_c_func_name(
            *resolve,
            (*old(ctx)).in_import,
            (*old(gen)).world@,
            *interface_name,
            func.name@,
            (*old(gen)).renamed_interfaces@,
        ) {
            Some(nm) => (*old(gen)).names.contains(nm),
            None => true,
        }) ==> r is Err,
        r is Ok ==> (match crate::tyname::spec_c_func_name(
            *resolve,
            (*old(ctx)).in_import,
            (*old(gen)).world@,
            *interface_name,
            func.name@,
            (*old(gen)).renamed_interfaces@,
        ) {
            Some(nm) => final(gen).names.contains(nm),
            None => false,
        }),
        r matches Ok(cs) ==> Some(cs.sig@) == spec_sig_text(
            *resolve,
            (*old(gen)).world@,
            (*old(gen)).type_names,
            (*old(ctx)).in_import,
            *interface_name,
            *func,
            sig_flattening,
            (*old(gen)).renamed_interfaces@,
        ),
        spec_sig_ready(
            *resolve,
            (*old(gen)).world@,
            (*old(gen)).type_names,
            (*old(gen)).names,
            (*old(ctx)).in_import,
            *interface_name,
            *func,
            sig_flattening,
            (*old(gen)).renamed_interfaces@,
        ) ==> r is Ok,
{
    let ghost world0 = gen.world@;
    let ghost tn0 = gen.type_names;
    let ghost renames0 = gen.renamed_interfaces@;
    let ghost inimp0 = ctx.in_import;
    let name = match crate::tyname::c_func_name(
        resolve,
        ctx.in_import,
        &gen.world,
        interface_name,
        &func.name,
        &gen.renamed_interfaces,
    ) {
        Ok(n) => n,
        Err(e) => {
            return Err(e);
        },
    };
    // Two generated functions may never share a symbol.
    match gen.names.insert(&name) {
        Ok(_) => {},
        Err(e) => {
            return Err(e);
        },
    }
    let ghost names_inserted = gen.names;
    let ret = match crate::classify::classify_ret(resolve, &func.result, sig_flattening) {
        Ok(rt) => rt,
        Err(e) => {
            return Err(e);
        },
    };
    let mut is_function = true;
    let mut ret_type_str: Vec<char> = Vec::new();
    let mut result_rets = false;
    let mut result_rets_has_ok_type = false;
    match &ret.scalar {
        None => {
            is_function = false;
        },
        Some(crate::classify::Scalar::Void) => {
            is_function = false;
        },
        Some(crate::classify::Scalar::OptionBool(_)) => {
            push_str(&mut ret_type_str, "boolean");
        },
        Some(crate::classify::Scalar::ResultBool(ok, _)) => {
            result_rets = true;
            result_rets_has_ok_type = ok.is_some();
            push_str(&mut ret_type_str, "boolean");
        },
        Some(crate::classify::Scalar::Type(t)) => {
            let t2 = *t;
            match gen.push_type_name(&t2, &mut ret_type_str) {
                Ok(_) => {},
                Err(e) => {
                    return Err(e);
                },
            }
        },
    }
    proof {
        assert(is_function == spec_is_function(ret.scalar));
        assert(spec_scalar_text(world0, tn0, ret.scalar) is Some);
        assert(is_function ==> ret_type_str@ == spec_scalar_text(world0, tn0, ret.scalar)->Some_0);
    }
    let mut sig_text: Vec<char> = Vec::new();
    if is_function {
        push_str(&mut sig_text, "function ");
    } else {
        push_str(&mut sig_text, "procedure ");
    }
    push_chars(&mut sig_text, &name);
    push_str(&mut sig_text, "(");
    let ghost head = sig_text@;
    proof {
        assert(head =~= (if is_function {
            "function "@
        } else {
            "procedure "@
        }) + name@ + "("@);
    }
    let mut params: Vec<crate::bindgen::CParam> = Vec::new();
    let np = func.params.len();
    let mut i: usize = 0;
    while i < np
        invariant
            resolve.wf(),
            resolve.func_wf(*func),
            np == func.params@.len(),
            i <= np,
            params@.len() == i,
            gen.type_names == old(gen).type_names,
            gen.names == names_inserted,
            gen.world@ == world0,
            world0 == old(gen).world@,
            renames0 == old(gen).renamed_interfaces@,
            tn0 == old(gen).type_names,
            spec_params_prefix(*resolve, world0, tn0, *func, sig_flattening, i as int) is Some,
            sig_text@ == head + spec_params_prefix(
                *resolve,
                world0,
                tn0,
                *func,
                sig_flattening,
                i as int,
            )->Some_0,
        decreases np - i,
    {
        let ghost st0 = sig_text@;
        if i > 0 {
            push_str(&mut sig_text, "; ");
        }
        match render_param(gen, resolve, func, i, sig_flattening, &mut sig_text) {
            Ok(p) => {
                params.push(p);
            },
            Err(e) => {
                proof {
                    lemma_params_prefix_none(
                        *resolve,
                        world0,
                        tn0,
                        *func,
                        sig_flattening,
                        i as int,
                        np as int,
                    );
                }
                return Err(e);
            },
        }
        proof {
            let seg = spec_param_seg(*resolve, world0, tn0, *func, sig_flattening, i as int);
            assert(seg is Some);
            assert(sig_text@ =~= st0 + (if i > 0 {
                "; "@
            } else {
                Seq::<char>::empty()
            }) + seg->Some_0);
            assert(sig_text@ =~= head + spec_params_prefix(
                *resolve,
                world0,
                tn0,
                *func,
                sig_flattening,
                i + 1,
            )->Some_0);
        }
        i += 1;
    }
    if !retptrs_in_table(resolve, &ret) {
        return Err(GenError::BadTypeIndex);
    }
    let ghost ps_full = spec_params_prefix(*resolve, world0, tn0, *func, sig_flattening, np as int);
    let mut retptrs: Vec<Vec<char>> = Vec::new();
    let nr = ret.retptrs.len();
    let single_ret = nr == 1;
    let mut k: usize = 0;
    while k < nr
        invariant
            resolve.wf(),
            nr == ret.retptrs@.len(),
            k <= nr,
            retptrs@.len() == k,
            single_ret == (nr == 1),
            result_rets == (ret.scalar matches Some(crate::classify::Scalar::ResultBool(_, _))),
            (match ret.scalar {
                Some(crate::classify::Scalar::ResultBool(ok2, _)) => result_rets_has_ok_type
                    == (ok2 is Some),
                _ => true,
            }),
            forall|x: int|
                0 <= x < k ==> (#[trigger] retptrs@[x])@ == spec_retptr_name(
                    ret.scalar,
                    nr as int,
                    x,
                ),
            forall|x: int|
                0 <= x < nr ==> resolve.ty_below(
                    #[trigger] ret.retptrs@[x],
                    resolve.types.len() as int,
                ),
            gen.type_names == old(gen).type_names,
            gen.names == names_inserted,
            gen.world@ == world0,
            world0 == old(gen).world@,
            renames0 == old(gen).renamed_interfaces@,
            tn0 == old(gen).type_names,
            np == func.params@.len(),
            Some(ret@) == crate::classify::spec_classify_ret(
                *resolve,
                func.result,
                sig_flattening,
            ),
            ps_full is Some,
            ps_full == spec_params_prefix(*resolve, world0, tn0, *func, sig_flattening, np as int),
            spec_retptrs_prefix(*resolve, world0, tn0, ret@, np as int, k as int) is Some,
            sig_text@ == head + ps_full->Some_0 + spec_retptrs_prefix(
                *resolve,
                world0,
                tn0,
                ret@,
                np as int,
                k as int,
            )->Some_0,
        decreases nr - k,
    {
        let ghost st0 = sig_text@;
        if k > 0 || np > 0 {
            push_str(&mut sig_text, "; ");
        }
        let rname: Vec<char> = if result_rets {
            if k == 0 && result_rets_has_ok_type {
                str_chars("ret")
            } else {
                str_chars("err")
            }
        } else if single_ret {
            str_chars("ret")
        } else {
            let mut v = str_chars("ret");
            push_usize(&mut v, k);
            v
        };
        proof {
            assert(rname@ == spec_retptr_name(ret.scalar, nr as int, k as int));
        }
        push_chars(&mut sig_text, &rname);
        retptrs.push(rname);
        push_str(&mut sig_text, ": P");
        let rt = ret.retptrs[k];
        match gen.push_type_name(&rt, &mut sig_text) {
            Ok(_) => {},
            Err(e) => {
                proof {
                    lemma_retptrs_prefix_none(
                        *resolve,
                        world0,
                        tn0,
                        ret@,
                        np as int,
                        k as int,
                        nr as int,
                    );
                }
                return Err(e);
            },
        }
        proof {
            let tx = crate::gen::spec_type_name(world0, tn0, ret@.retptrs[k as int]);
            assert(tx is Some);
            assert(sig_text@ =~= st0 + (if k > 0 || np > 0 {
                "; "@
            } else {
                Seq::<char>::empty()
            }) + spec_retptr_name(ret.scalar, nr as int, k as int) + ": P"@ + tx->Some_0);
            lemma_retptrs_prefix_step(
                *resolve,
                world0,
                tn0,
                ret@,
                np as int,
                k as int,
                head,
                ps_full->Some_0,
                st0,
            );
        }
        k += 1;
    }
    push_str(&mut sig_text, ")");
    if is_function {
        push_str(&mut sig_text, ": ");
        push_chars(&mut sig_text, &ret_type_str);
    }
    proof {
        assert(sig_text@ =~= spec_sig_text(
            *resolve,
            world0,
            tn0,
            inimp0,
            *interface_name,
            *func,
            sig_flattening,
            renames0,
        )->Some_0);
    }
    let mut h: Vec<char> = Vec::new();
    push_chars(&mut h, &sig_text);
    push_str(&mut h, ";\n");
    proof {
        assert(h@ =~= sig_text@ + ";\n"@);
    }
    ctx.src.h_fns.push_vec(&h);
    Ok(crate::bindgen::CSig { name, sig: sig_text, params, ret, retptrs })
}

/// Whether every classified out-parameter type lies in the type table. The
/// classifier draws them from the function's own types, so this holds for
/// well-formed input; it is checked rather than assumed.
fn retptrs_in_table(resolve: &Resolve, ret: &crate::classify::Return) -> (r: bool)
    ensures
        r == (forall|x: int|
            0 <= x < ret.retptrs@.len() ==> resolve.ty_below(
                #[trigger] ret.retptrs@[x],
                resolve.types.len() as int,
            )),
{
    let mut k: usize = 0;
    while k < ret.retptrs.len()
        invariant
            k <= ret.retptrs@.len(),
            forall|x: int|
                0 <= x < k ==> resolve.ty_below(
                    #[trigger] ret.retptrs@[x],
                    resolve.types.len() as int,
                ),
        decreases ret.retptrs@.len() - k,
    {
        let ok = match ret.retptrs[k] {
            Type::Id(id) => id < resolve.types.len(),
            _ => true,
        };
        if !ok {
            return false;
        }
        proof {
            assert(resolve.ty_below(ret.retptrs@[k as int], resolve.types.len() as int));
        }
        k += 1;
    }
    true
}

/// Generate one imported function: the raw trampoline declaration, the
/// public signature, and the adapter body rendered from the lowering stream.
/// A signature with more than one core result is rejected before anything is
/// emitted.
pub fn import_func(
    gen: &mut Pascal,
    ctx: &mut IfaceCtx,
    resolve: &Resolve,
    interface_name: &Option<WorldKey>,
    func: &crate::wit::Function,
    ops: &Vec<crate::bindgen::Op>,
) -> (r: Result<(), GenError>)
    requires
        resolve.wf(),
        resolve.func_wf(*func),
    ensures
        final(gen).type_names == old(gen).type_names,
        r is Ok ==> crate::source::ends_with(final(ctx).src.c_adapters@.s, "end;\n"@),
        r is Ok ==> (match crate::tyname::spec_c_func_name(
            *resolve,
            (*old(ctx)).in_import,
            (*old(gen)).world@,
            *interface_name,
            func.name@,
            (*old(gen)).renamed_interfaces@,
        ) {
            Some(nm) => final(gen).names.contains(nm),
            None => false,
        }),
{
    let ghost world0 = gen.world;
    let ghost renames0 = gen.renamed_interfaces;
    let ghost inimp0 = ctx.in_import;
    let sig = match crate::sig::wasm_signature(resolve, crate::sig::AbiVariant::GuestImport, func) {
        Ok(s) => s,
        Err(e) => {
            return Err(e);
        },
    };
    match crate::sig::reject_multi_value(&sig) {
        Ok(_) => {},
        Err(e) => {
            return Err(e);
        },
    }
    push_docs(&mut ctx.src.h_fns, &func.docs.contents);
    ctx.src.c_fns.push_str("\n");
    let name = match crate::tyname::c_func_name(
        resolve,
        ctx.in_import,
        &gen.world,
        interface_name,
        &func.name,
        &gen.renamed_interfaces,
    ) {
        Ok(n) => n,
        Err(e) => {
            return Err(e);
        },
    };
    let mut stem = str_chars("__wasm_import_");
    push_chars(&mut stem, &name);
    let import_name = gen.names.tmp(&stem);
    if sig.results.len() == 0 {
        ctx.src.c_fns.push_str("procedure");
    } else {
        ctx.src.c_fns.push_str("function");
    }
    ctx.src.c_fns.push_str(" ");
    ctx.src.c_fns.push_vec(&import_name);
    ctx.src.c_fns.push_str("(");
    let mut i: usize = 0;
    while i < sig.params.len()
        invariant
            gen.type_names == old(gen).type_names,
            gen.world == world0,
            gen.renamed_interfaces == renames0,
            ctx.in_import == inimp0,
        decreases sig.params@.len() - i,
    {
        if i > 0 {
            ctx.src.c_fns.push_str("; ");
        }
        let mut p = str_chars("para");
        push_usize(&mut p, i + 1);
        push_str(&mut p, ": ");
        push_str(&mut p, crate::bindgen::wasm_type_text(sig.params[i]));
        ctx.src.c_fns.push_vec(&p);
        i += 1;
    }
    ctx.src.c_fns.push_str(")");
    if sig.results.len() == 1 {
        ctx.src.c_fns.push_str(": ");
        ctx.src.c_fns.push_str(crate::bindgen::wasm_type_text(sig.results[0]));
    }
    ctx.src.c_fns.push_str(";\n");
    let c_sig = match print_sig(
        gen,
        ctx,
        resolve,
        interface_name,
        func,
        !gen.opts.no_sig_flattening,
    ) {
        Ok(cs) => cs,
        Err(e) => {
            return Err(e);
        },
    };
    let mut ext = str_chars("external '");
    let module: Vec<char> = match interface_name {
        Some(key) => match name_world_key(resolve, key) {
            Ok(m) => m,
            Err(e) => {
                return Err(e);
            },
        },
        None => str_chars("$root"),
    };
    push_chars(&mut ext, &module);
    push_str(&mut ext, "' name '");
    push_chars(&mut ext, &func.name);
    push_str(&mut ext, "';\n");
    ctx.src.c_fns.push_vec(&ext);
    ctx.src.c_adapters.push_str("\n");
    ctx.src.c_adapters.push_vec(&c_sig.sig);
    ctx.src.c_adapters.push_str(";\n");
    let var_pos = ctx.src.c_adapters.len();
    ctx.src.c_adapters.push_str("begin\n");
    if !retptrs_in_table(resolve, &c_sig.ret) {
        return Err(GenError::BadTypeIndex);
    }
    let ghost names_after_sig = gen.names;
    let mut f = crate::bindgen::FunctionBindgen::new(c_sig, import_name, true);
    // Optional parameters arrive as nullable pointers and are rebuilt into
    // option values before lowering.
    if !gen.opts.no_sig_flattening {
        let np = func.params.len();
        let mut pi: usize = 0;
        while pi < np
            invariant
                resolve.wf(),
                resolve.func_wf(*func),
                np == func.params@.len(),
                pi <= np,
                f.sig.params@.len() == np,
                gen.type_names == old(gen).type_names,
                gen.names == names_after_sig,
            decreases np - pi,
        {
            proof {
                assert(resolve.ty_below(func.params@[pi as int].ty, resolve.types.len() as int));
            }
            let pty = func.params[pi].ty;
            let is_opt = match pty {
                Type::Id(tid) => {
                    tid < resolve.types.len() && matches!(
                        &resolve.types[tid].kind,
                        TypeDefKind::OptionOf(_),
                    )
                },
                _ => false,
            };
            if is_opt {
                let tn = match gen.ty_name(&pty) {
                    Ok(t) => t,
                    Err(e) => {
                        return Err(e);
                    },
                };
                let pname: Vec<char> = {
                    let mut c: Vec<char> = Vec::new();
                    push_chars(&mut c, &f.sig.params[pi].name);
                    c
                };
                match f.local_vars.insert(&pname, &tn) {
                    Ok(_) => {},
                    Err(e) => {
                        return Err(e);
                    },
                }
                f.src.push_vec(&pname);
                f.src.push_str(".is_some := maybe_");
                f.src.push_vec(&pname);
                f.src.push_str(" <> nil;\nif maybe_");
                f.src.push_vec(&pname);
                f.src.push_str(" then\nbegin\n");
                f.src.push_vec(&pname);
                f.src.push_str(".val := maybe_");
                f.src.push_vec(&pname);
                f.src.push_str("^;\nend;\n");
            }
            pi += 1;
        }
    }
    let npar = f.sig.params.len();
    let mut pj: usize = 0;
    while pj < npar
        invariant
            npar == f.sig.params@.len(),
            gen.type_names == old(gen).type_names,
            gen.names == names_after_sig,
        decreases npar - pj,
    {
        let pname: Vec<char> = {
            let mut c: Vec<char> = Vec::new();
            push_chars(&mut c, &f.sig.params[pj].name);
            c
        };
        match f.locals.insert(&pname) {
            Ok(_) => {},
            Err(e) => {
                return Err(e);
            },
        }
        if f.sig.params[pj].by_pointer {
            let mut d: Vec<char> = Vec::new();
            push_chars(&mut d, &pname);
            push_str(&mut d, "^");
            f.params.push(d);
        } else {
            f.params.push(pname);
        }
        pj += 1;
    }
    let nret = f.sig.retptrs.len();
    let mut rk: usize = 0;
    while rk < nret
        invariant
            nret == f.sig.retptrs@.len(),
            gen.type_names == old(gen).type_names,
            gen.names == names_after_sig,
        decreases nret - rk,
    {
        let rname: Vec<char> = {
            let mut c: Vec<char> = Vec::new();
            push_chars(&mut c, &f.sig.retptrs[rk]);
            c
        };
        match f.locals.insert(&rname) {
            Ok(_) => {},
            Err(e) => {
                return Err(e);
            },
        }
        rk += 1;
    }
    match f.run(gen, resolve, ops) {
        Ok(_) => {},
        Err(e) => {
            return Err(e);
        },
    }
    if f.import_return_pointer_area_size > 0 {
        let ra = str_chars("ret_area");
        let mut ty = str_chars("array[0..");
        push_usize(&mut ty, f.import_return_pointer_area_size - 1);
        push_str(&mut ty, "] of byte");
        match f.local_vars.insert(&ra, &ty) {
            Ok(_) => {},
            Err(e) => {
                return Err(e);
            },
        }
    }
    ctx.src.c_adapters.push_vec(f.src.chars());
    if !f.local_vars.is_empty() {
        let section = f.local_vars.render();
        if var_pos <= ctx.src.c_adapters.len() {
            ctx.src.c_adapters.insert_chars(var_pos, &section);
        }
    }
    let ghost pre_end = ctx.src.c_adapters@;
    ctx.src.c_adapters.push_str("end;\n");
    proof {
        crate::source::lemma_push_end_line(pre_end);
    }
    Ok(())
}

/// Generate one exported function: the public signature, the raw adapter
/// bound to the export name, and optionally the post-return body. A
/// signature with more than one core result is rejected before anything is
/// emitted.
pub fn export_func(
    gen: &mut Pascal,
    ctx: &mut IfaceCtx,
    resolve: &Resolve,
    interface_name: &Option<WorldKey>,
    func: &crate::wit::Function,
    ops: &Vec<crate::bindgen::Op>,
    post_ops: &Option<Vec<crate::bindgen::Op>>,
) -> (r: Result<(), GenError>)
    requires
        resolve.wf(),
        resolve.func_wf(*func),
    ensures
        final(gen).type_names == old(gen).type_names,
        r is Ok ==> crate::source::ends_with(final(ctx).src.c_adapters@.s, "end;\n"@),
        r is Ok ==> (match crate::tyname::spec_c_func_name(
            *resolve,
            (*old(ctx)).in_import,
            (*old(gen)).world@,
            *interface_name,
            func.name@,
            (*old(gen)).renamed_interfaces@,
        ) {
            Some(nm) => final(gen).names.contains(nm),
            None => false,
        }),
{
    let ghost world0 = gen.world;
    let ghost renames0 = gen.renamed_interfaces;
    let ghost inimp0 = ctx.in_import;
    let sig = match crate::sig::wasm_signature(resolve, crate::sig::AbiVariant::GuestExport, func) {
        Ok(s) => s,
        Err(e) => {
            return Err(e);
        },
    };
    match crate::sig::reject_multi_value(&sig) {
        Ok(_) => {},
        Err(e) => {
            return Err(e);
        },
    }
    ctx.src.c_fns.push_str("\n");
    // The name the host calls this export by.
    let mut export_name: Vec<char> = Vec::new();
    match interface_name {
        Some(key) => {
            let m = match name_world_key(resolve, key) {
                Ok(m) => m,
                Err(e) => {
                    return Err(e);
                },
            };
            push_chars(&mut export_name, &m);
            push_str(&mut export_name, "#");
        },
        None => {},
    }
    push_chars(&mut export_name, &func.name);
    let h_sig = match print_sig(
        gen,
        ctx,
        resolve,
        interface_name,
        func,
        !gen.opts.no_sig_flattening,
    ) {
        Ok(cs) => cs,
        Err(e) => {
            return Err(e);
        },
    };
    if !retptrs_in_table(resolve, &h_sig.ret) {
        return Err(GenError::BadTypeIndex);
    }
    let mut head = str_chars("\n//__attribute__((__export_name__(\"");
    push_chars(&mut head, &export_name);
    push_str(&mut head, "\")))\n");
    ctx.src.c_adapters.push_vec(&head);
    let name = match crate::tyname::c_func_name(
        resolve,
        ctx.in_import,
        &gen.world,
        interface_name,
        &func.name,
        &gen.renamed_interfaces,
    ) {
        Ok(n) => n,
        Err(e) => {
            return Err(e);
        },
    };
    let mut stem = str_chars("__wasm_export_");
    push_chars(&mut stem, &name);
    let import_name = gen.names.tmp(&stem);
    let mut f = crate::bindgen::FunctionBindgen::new(h_sig, import_name, false);
    if sig.results.len() == 0 {
        ctx.src.c_adapters.push_str("procedure");
    } else {
        ctx.src.c_adapters.push_str("function");
    }
    ctx.src.c_adapters.push_str(" ");
    ctx.src.c_adapters.push_vec(&f.func_to_call);
    ctx.src.c_adapters.push_str("(");
    let ghost names_after_sig = gen.names;
    let mut i: usize = 0;
    while i < sig.params.len()
        invariant
            gen.type_names == old(gen).type_names,
            gen.names == names_after_sig,
        decreases sig.params@.len() - i,
    {
        if i > 0 {
            ctx.src.c_adapters.push_str(", ");
        }
        let stem_arg = str_chars("arg");
        let aname = f.locals.tmp(&stem_arg);
        let mut p: Vec<char> = Vec::new();
        push_str(&mut p, crate::bindgen::wasm_type_text(sig.params[i]));
        push_str(&mut p, " ");
        push_chars(&mut p, &aname);
        ctx.src.c_adapters.push_vec(&p);
        f.params.push(aname);
        i += 1;
    }
    ctx.src.c_adapters.push_str(")");
    if sig.results.len() == 1 {
        ctx.src.c_adapters.push_str(": ");
        ctx.src.c_adapters.push_str(crate::bindgen::wasm_type_text(sig.results[0]));
    }
    ctx.src.c_adapters.push_str(";\nbegin\n");
    match f.run(gen, resolve, ops) {
        Ok(_) => {},
        Err(e) => {
            return Err(e);
        },
    }
    ctx.src.c_adapters.push_vec(f.src.chars());
    let ghost pre_end = ctx.src.c_adapters@;
    ctx.src.c_adapters.push_str("end;\n");
    proof {
        crate::source::lemma_push_end_line(pre_end);
    }
    // The post-return body releases the return value's allocations after the
    // host has consumed it.
    if let Some(pops) = post_ops {
        let mut w = str_chars("__attribute__((__weak__, __export_name__(\"cabi_post_");
        push_chars(&mut w, &export_name);
        push_str(&mut w, "\")))\nvoid ");
        push_chars(&mut w, &f.func_to_call);
        push_str(&mut w, "_post_return(");
        ctx.src.c_fns.push_vec(&w);
        let empty_sig = crate::bindgen::CSig {
            name: Vec::new(),
            sig: Vec::new(),
            params: Vec::new(),
            ret: crate::classify::Return { scalar: None, retptrs: Vec::new() },
            retptrs: Vec::new(),
        };
        let mut post_name: Vec<char> = Vec::new();
        push_chars(&mut post_name, &f.func_to_call);
        let mut pf = crate::bindgen::FunctionBindgen::new(empty_sig, post_name, false);
        let ghost adapters_done = ctx.src.c_adapters;
        let mut k: usize = 0;
        while k < sig.results.len()
            invariant
                gen.type_names == old(gen).type_names,
                gen.names == names_after_sig,
                ctx.src.c_adapters == adapters_done,
            decreases sig.results@.len() - k,
        {
            let mut a = str_chars("arg");
            push_usize(&mut a, k);
            let mut p: Vec<char> = Vec::new();
            push_str(&mut p, crate::bindgen::wasm_type_text(sig.results[k]));
            push_str(&mut p, " ");
            push_chars(&mut p, &a);
            ctx.src.c_fns.push_vec(&p);
            pf.params.push(a);
            k += 1;
        }
        ctx.src.c_fns.push_str(") {\n");
        match pf.run(gen, resolve, pops) {
            Ok(_) => {},
            Err(e) => {
                return Err(e);
            },
        }
        ctx.src.c_fns.push_vec(pf.src.chars());
        ctx.src.c_fns.push_str("}\n");
    }
    Ok(())
}

/// Prepare a pass for `world`: fix the world name (the rename wins), size
/// the registries to the type table, and resolve requested interface renames
/// against the world's import and export keys; a rename that matches nothing
/// is ignored, renames being best-effort conveniences.
pub fn preprocess(gen: &mut Pascal, resolve: &Resolve, world: usize) -> (r: Result<(), GenError>)
    requires
        resolve.wf(),
        world < resolve.worlds.len(),
    ensures
        r is Ok ==> final(gen).type_names.wf(),
        r is Ok ==> final(gen).world_id == Some(world),
        r is Ok ==> (forall|i: int| !final(gen).type_names.defined(i)),
        r is Ok ==> final(gen).world@ == (match old(gen).opts.rename_world {
            Some(w) => w@,
            None => resolve.worlds[world as int].name@,
        }),
        r is Ok ==> final(gen).type_names.capacity() == resolve.types.len(),
        r is Ok ==> final(gen).opts == old(gen).opts,
        r is Ok,
        final(gen).renamed_interfaces@.len() <= old(gen).opts.rename@.len(),
        forall|k: int|
            0 <= k < final(gen).renamed_interfaces@.len() ==> exists|j: int|
                0 <= j < old(gen).opts.rename@.len() && (#[trigger] final(gen).renamed_interfaces@[k]).to@ == old(gen).opts.rename@[j].to@
                    && spec_name_world_key(*resolve, final(gen).renamed_interfaces@[k].key)
                    == Some(
                    match old(gen).opts.rename@[j].key {
                        WorldKey::Name(nm) => nm@,
                        WorldKey::Iface(_) => Seq::<char>::empty(),
                    },
                ),
{
    let mut wname: Vec<char> = Vec::new();
    match &gen.opts.rename_world {
        Some(w) => push_chars(&mut wname, w),
        None => push_chars(&mut wname, &resolve.worlds[world].name),
    }
    gen.world = wname;
    gen.world_id = Some(world);
    let n = resolve.types.len();
    gen.type_names = crate::gen::TypeNames::new(n);
    gen.dtor_funcs = crate::gen::TypeTexts::new(n);
    gen.resources = crate::gen::Resources::new(n);
    // Resolve renames against the world's imports and exports.
    let nr = gen.opts.rename.len();
    let mut out: Vec<crate::tyname::Rename> = Vec::new();
    let mut i: usize = 0;
    while i < nr
        invariant
            resolve.wf(),
            world < resolve.worlds.len(),
            nr == gen.opts.rename@.len(),
            gen.opts == old(gen).opts,
            i <= nr,
            out@.len() <= i,
            gen.type_names.wf(),
            gen.world_id == Some(world),
            forall|x: int| !gen.type_names.defined(x),
            forall|k: int|
                0 <= k < out@.len() ==> exists|j: int|
                    0 <= j < old(gen).opts.rename@.len() && (#[trigger] out@[k]).to@ == old(gen).opts.rename@[j].to@ && spec_name_world_key(*resolve, out@[k].key) == Some(
                        match old(gen).opts.rename@[j].key {
                            WorldKey::Name(nm) => nm@,
                            WorldKey::Iface(_) => Seq::<char>::empty(),
                        },
                    ),
        decreases nr - i,
    {
        let from: Vec<char> = {
            let mut c: Vec<char> = Vec::new();
            match &gen.opts.rename[i].key {
                WorldKey::Name(nm) => push_chars(&mut c, nm),
                WorldKey::Iface(_) => {},
            }
            c
        };
        let to: Vec<char> = {
            let mut c: Vec<char> = Vec::new();
            push_chars(&mut c, &gen.opts.rename[i].to);
            c
        };
        match find_world_key(resolve, world, &from) {
            Some(key) => {
                proof {
                    assert(from@ == (match old(gen).opts.rename@[i as int].key {
                        WorldKey::Name(nm) => nm@,
                        WorldKey::Iface(_) => Seq::<char>::empty(),
                    }));
                }
                out.push(crate::tyname::Rename { key, to });
            },
            None => {},
        }
        i += 1;
    }
    let ghost outv = out@;
    gen.renamed_interfaces = out;
    proof {
        assert(gen.renamed_interfaces@ == outv);
        assert forall|k: int| 0 <= k < gen.renamed_interfaces@.len() implies exists|j: int|
            0 <= j < old(gen).opts.rename@.len() && (#[trigger] gen.renamed_interfaces@[k]).to@
                == old(gen).opts.rename@[j].to@ && spec_name_world_key(
                *resolve,
                gen.renamed_interfaces@[k].key,
            ) == Some(
                match old(gen).opts.rename@[j].key {
                    WorldKey::Name(nm) => nm@,
                    WorldKey::Iface(_) => Seq::<char>::empty(),
                },
            ) by {
            assert(gen.renamed_interfaces@[k] == outv[k]);
            let j = choose|j: int|
                0 <= j < old(gen).opts.rename@.len() && (#[trigger] outv[k]).to@ == old(
                    gen,
                ).opts.rename@[j].to@ && spec_name_world_key(*resolve, outv[k].key) == Some(
                    match old(gen).opts.rename@[j].key {
                        WorldKey::Name(nm) => nm@,
                        WorldKey::Iface(_) => Seq::<char>::empty(),
                    },
                );
            assert(0 <= j < old(gen).opts.rename@.len());
        };
    }
    Ok(())
}

/// Keys equal under [`key_eq`] render to the same plain name.
proof fn lemma_name_world_key_eq(resolve: Resolve, a: WorldKey, b: WorldKey)
    requires
        crate::tyname::key_eq(a, b),
    ensures
        spec_name_world_key(resolve, a) == spec_name_world_key(resolve, b),
{
}

/// The world key among `world`'s imports and exports whose plain name is
/// `from`, if any.
fn find_world_key(resolve: &Resolve, world: usize, from: &Vec<char>) -> (r: Option<WorldKey>)
    requires
        resolve.wf(),
        world < resolve.worlds.len(),
    ensures
        r matches Some(key) ==> spec_name_world_key(*resolve, key) == Some(from@),
        r matches Some(key) ==> ((exists|j: int|
            0 <= j < resolve.worlds[world as int].imports@.len() && crate::tyname::key_eq(
                (#[trigger] resolve.worlds[world as int].imports@[j]).0,
                key,
            )) || (exists|j: int|
            0 <= j < resolve.worlds[world as int].exports@.len() && crate::tyname::key_eq(
                (#[trigger] resolve.worlds[world as int].exports@[j]).0,
                key,
            ))),
{
    let ni = resolve.worlds[world].imports.len();
    let mut i: usize = 0;
    while i < ni
        invariant
            resolve.wf(),
            world < resolve.worlds.len(),
            ni == resolve.worlds[world as int].imports.len(),
        decreases ni - i,
    {
        let key = &resolve.worlds[world].imports[i].0;
        match name_world_key(resolve, key) {
            Ok(n) => {
                if crate::text::chars_eq(&n, from) {
                    let out = copy_world_key(key);
                    proof {
                        lemma_name_world_key_eq(*resolve, *key, out);
                    }
                    return Some(out);
                }
            },
            Err(_) => {},
        }
        i += 1;
    }
    let ne = resolve.worlds[world].exports.len();
    let mut e: usize = 0;
    while e < ne
        invariant
            resolve.wf(),
            world < resolve.worlds.len(),
            ne == resolve.worlds[world as int].exports.len(),
        decreases ne - e,
    {
        let key = &resolve.worlds[world].exports[e].0;
        match name_world_key(resolve, key) {
            Ok(n) => {
                if crate::text::chars_eq(&n, from) {
                    let out = copy_world_key(key);
                    proof {
                        lemma_name_world_key_eq(*resolve, *key, out);
                    }
                    return Some(out);
                }
            },
            Err(_) => {},
        }
        e += 1;
    }
    None
}

/// Generate one imported interface: define its live types, then every
/// function, with one lowering stream per function in interface order.
pub fn import_interface(
    gen: &mut Pascal,
    resolve: &Resolve,
    name: &WorldKey,
    id: usize,
    streams: &Vec<Vec<crate::bindgen::Op>>,
) -> (r: Result<(), GenError>)
    requires
        resolve.wf(),
        old(gen).type_names.wf(),
        id < resolve.interfaces.len(),
    ensures
        final(gen).type_names.wf(),
        r is Ok ==> streams@.len() == resolve.interfaces[id as int].functions@.len(),
{
    let module = match name_world_key(resolve, name) {
        Ok(m) => m,
        Err(e) => {
            return Err(e);
        },
    };
    let mut ctx = IfaceCtx::new(true, Some((id, copy_world_key(name))), Some(module));
    let live = crate::world::live_types_of_iface(resolve, id);
    match define_live_types(gen, &mut ctx, resolve, &live) {
        Ok(_) => {},
        Err(e) => {
            return Err(e);
        },
    }
    let nf = resolve.interfaces[id].functions.len();
    if streams.len() != nf {
        return Err(GenError::BadInstruction);
    }
    let mut i: usize = 0;
    while i < nf
        invariant
            resolve.wf(),
            gen.type_names.wf(),
            id < resolve.interfaces.len(),
            nf == resolve.interfaces[id as int].functions.len(),
            streams@.len() == nf,
        decreases nf - i,
    {
        if i == 0 {
            ctx.src.h_fns.push_str("\n// Imported Functions\n");
            ctx.src.c_fns.push_str("\n// Imported Functions\n");
        }
        proof {
            assert(resolve.func_wf(resolve.interfaces[id as int].functions[i as int]));
        }
        let iname = Some(copy_world_key(name));
        let fcopy = copy_function(&resolve.interfaces[id].functions[i]);
        proof {
            assert forall|x: int| 0 <= x < fcopy.params@.len() implies resolve.ty_below(
                (#[trigger] fcopy.params@[x]).ty,
                resolve.types.len() as int,
            ) by {
                assert(fcopy.params@[x].ty == resolve.interfaces[id as int].functions[
                    i as int
                ].params@[x].ty);
            }
            assert(resolve.func_wf(fcopy));
        }
        match import_func(gen, &mut ctx, resolve, &iname, &fcopy, &streams[i]) {
            Ok(_) => {},
            Err(e) => {
                return Err(e);
            },
        }
        i += 1;
    }
    gen.src.append(&ctx.src);
    Ok(())
}

/// Generate the world's bare imported functions.
pub fn import_funcs(
    gen: &mut Pascal,
    resolve: &Resolve,
    funcs: &Vec<crate::wit::Function>,
    streams: &Vec<Vec<crate::bindgen::Op>>,
) -> (r: Result<(), GenError>)
    requires
        resolve.wf(),
        old(gen).type_names.wf(),
        forall|i: int| 0 <= i < funcs@.len() ==> resolve.func_wf(#[trigger] funcs@[i]),
    ensures
        final(gen).type_names.wf(),
        r is Ok ==> streams@.len() == funcs@.len(),
{
    let module = str_chars("$root");
    let mut ctx = IfaceCtx::new(true, None, Some(module));
    let live = crate::world::live_types_of_funcs(resolve, funcs);
    match define_live_types(gen, &mut ctx, resolve, &live) {
        Ok(_) => {},
        Err(e) => {
            return Err(e);
        },
    }
    let nf = funcs.len();
    if streams.len() != nf {
        return Err(GenError::BadInstruction);
    }
    let mut i: usize = 0;
    while i < nf
        invariant
            resolve.wf(),
            gen.type_names.wf(),
            nf == funcs@.len(),
            streams@.len() == nf,
            forall|x: int| 0 <= x < funcs@.len() ==> resolve.func_wf(#[trigger] funcs@[x]),
        decreases nf - i,
    {
        if i == 0 {
            ctx.src.h_fns.push_str("\n// Imported Functions\n");
            ctx.src.c_fns.push_str("\n// Imported Functions\n");
        }
        let iname: Option<WorldKey> = None;
        match import_func(gen, &mut ctx, resolve, &iname, &funcs[i], &streams[i]) {
            Ok(_) => {},
            Err(e) => {
                return Err(e);
            },
        }
        i += 1;
    }
    gen.src.append(&ctx.src);
    Ok(())
}

/// Generate one exported interface: define its live types, then every
/// function with its lifting stream and optional post-return stream.
pub fn export_interface(
    gen: &mut Pascal,
    resolve: &Resolve,
    name: &WorldKey,
    id: usize,
    streams: &Vec<(Vec<crate::bindgen::Op>, Option<Vec<crate::bindgen::Op>>)>,
) -> (r: Result<(), GenError>)
    requires
        resolve.wf(),
        old(gen).type_names.wf(),
        id < resolve.interfaces.len(),
    ensures
        final(gen).type_names.wf(),
        r is Ok ==> streams@.len() == resolve.interfaces[id as int].functions@.len(),
{
    let mut ctx = IfaceCtx::new(false, Some((id, copy_world_key(name))), None);
    let live = crate::world::live_types_of_iface(resolve, id);
    match define_live_types(gen, &mut ctx, resolve, &live) {
        Ok(_) => {},
        Err(e) => {
            return Err(e);
        },
    }
    let nf = resolve.interfaces[id].functions.len();
    if streams.len() != nf {
        return Err(GenError::BadInstruction);
    }
    let mut i: usize = 0;
    while i < nf
        invariant
            resolve.wf(),
            gen.type_names.wf(),
            id < resolve.interfaces.len(),
            nf == resolve.interfaces[id as int].functions.len(),
            streams@.len() == nf,
        decreases nf - i,
    {
        if i == 0 {
            ctx.src.h_fns.push_str("\n// Exported Functions\n");
            ctx.src.c_fns.push_str("\n// Exported Functions\n");
        }
        proof {
            assert(resolve.func_wf(resolve.interfaces[id as int].functions[i as int]));
        }
        let iname = Some(copy_world_key(name));
        let fcopy = copy_function(&resolve.interfaces[id].functions[i]);
        proof {
            assert forall|x: int| 0 <= x < fcopy.params@.len() implies resolve.ty_below(
                (#[trigger] fcopy.params@[x]).ty,
                resolve.types.len() as int,
            ) by {
                assert(fcopy.params@[x].ty == resolve.interfaces[id as int].functions[
                    i as int
                ].params@[x].ty);
            }
            assert(resolve.func_wf(fcopy));
        }
        match export_func(gen, &mut ctx, resolve, &iname, &fcopy, &streams[i].0, &streams[i].1) {
            Ok(_) => {},
            Err(e) => {
                return Err(e);
            },
        }
        i += 1;
    }
    gen.src.append(&ctx.src);
    Ok(())
}

/// Generate the world's bare exported functions.
pub fn export_funcs(
    gen: &mut Pascal,
    resolve: &Resolve,
    funcs: &Vec<crate::wit::Function>,
    streams: &Vec<(Vec<crate::bindgen::Op>, Option<Vec<crate::bindgen::Op>>)>,
) -> (r: Result<(), GenError>)
    requires
        resolve.wf(),
        old(gen).type_names.wf(),
        forall|i: int| 0 <= i < funcs@.len() ==> resolve.func_wf(#[trigger] funcs@[i]),
    ensures
        final(gen).type_names.wf(),
        r is Ok ==> streams@.len() == funcs@.len(),
{
    let mut ctx = IfaceCtx::new(false, None, None);
    let live = crate::world::live_types_of_funcs(resolve, funcs);
    match define_live_types(gen, &mut ctx, resolve, &live) {
        Ok(_) => {},
        Err(e) => {
            return Err(e);
        },
    }
    let nf = funcs.len();
    if streams.len() != nf {
        return Err(GenError::BadInstruction);
    }
    let mut i: usize = 0;
    while i < nf
        invariant
            resolve.wf(),
            gen.type_names.wf(),
            nf == funcs@.len(),
            streams@.len() == nf,
            forall|x: int| 0 <= x < funcs@.len() ==> resolve.func_wf(#[trigger] funcs@[x]),
        decreases nf - i,
    {
        if i == 0 {
            ctx.src.h_fns.push_str("\n// Exported Functions\n");
            ctx.src.c_fns.push_str("\n// Exported Functions\n");
        }
        let iname: Option<WorldKey> = None;
        match export_func(gen, &mut ctx, resolve, &iname, &funcs[i], &streams[i].0, &streams[i].1)
        {
            Ok(_) => {},
            Err(e) => {
                return Err(e);
            },
        }
        i += 1;
    }
    gen.src.append(&ctx.src);
    Ok(())
}

/// Define the world's bare imported types.
pub fn import_types(gen: &mut Pascal, resolve: &Resolve, ids: &Vec<usize>) -> (r: Result<
    (),
    GenError,
>)
    requires
        resolve.wf(),
        old(gen).type_names.wf(),
    ensures
        final(gen).type_names.wf(),
{
    let module = str_chars("$root");
    let mut ctx = IfaceCtx::new(true, None, Some(module));
    let live = crate::world::live_types_of_ids(resolve, ids);
    match define_live_types(gen, &mut ctx, resolve, &live) {
        Ok(_) => {},
        Err(e) => {
            return Err(e);
        },
    }
    gen.src.append(&ctx.src);
    Ok(())
}

/// A copy of a function description.
pub fn copy_function(f: &crate::wit::Function) -> (r: crate::wit::Function)
    ensures
        r.name@ == f.name@,
        r.kind == f.kind,
        r.result == f.result,
        r.params@.len() == f.params@.len(),
        forall|x: int|
            0 <= x < f.params@.len() ==> (#[trigger] r.params@[x]).ty == f.params@[x].ty
                && r.params@[x].name@ == f.params@[x].name@,
{
    let mut name: Vec<char> = Vec::new();
    push_chars(&mut name, &f.name);
    let mut params: Vec<crate::wit::Param> = Vec::new();
    let mut i: usize = 0;
    while i < f.params.len()
        invariant
            i <= f.params@.len(),
            params@.len() == i,
            forall|x: int|
                0 <= x < i ==> (#[trigger] params@[x]).ty == f.params@[x].ty && params@[x].name@
                    == f.params@[x].name@,
        decreases f.params@.len() - i,
    {
        let mut pn: Vec<char> = Vec::new();
        push_chars(&mut pn, &f.params[i].name);
        params.push(crate::wit::Param { name: pn, ty: f.params[i].ty });
        i += 1;
    }
    let contents: Option<Vec<char>> = match &f.docs.contents {
        Some(c) => {
            let mut v: Vec<char> = Vec::new();
            push_chars(&mut v, c);
            Some(v)
        },
        None => None,
    };
    crate::wit::Function {
        name,
        kind: f.kind,
        params,
        result: f.result,
        docs: crate::wit::Docs { contents },
    }
}

/// Emit the canonical ABI intrinsics: the reallocation entry every module
/// carries. Only the implementation-unit function buffer changes.
pub fn print_intrinsics(gen: &mut Pascal)
    ensures
        *final(gen) == (Pascal { src: final(gen).src, ..*old(gen) }),
        final(gen).src == (crate::gen::OutBuffers {
            c_fns: final(gen).src.c_fns,
            ..(*old(gen)).src
        }),
{
    gen.src.c_fns.push_str("\n// Canonical ABI intrinsics");
    gen.src.c_fns.push_str("\n");
    gen.src.c_fns.push_str(
        "\n//__attribute__((__weak__, __export_name__(\"cabi_realloc\")))\nfunction cabi_realloc(ptr: Pointer; old_size: SizeUInt; align: SizeUInt; new_size: SizeUInt): Pointer;\nbegin\n  if new_size = 0 then\n  begin\n    cabi_realloc := Pointer(align);\n    exit;\n  end;\n  ReallocMem(ptr, new_size);\n  cabi_realloc := ptr;\nend;\n",
    );
}

/// Assemble the pass's output files: the interface unit, the implementation
/// unit, the thin unit referencing both, and, unless suppressed, the
/// component-type object supplied by the embedding metadata encoder. Fails
/// when the compact UTF-16 encoding would be needed.
pub fn finish(
    gen: &mut Pascal,
    resolve: &Resolve,
    files: &mut Files,
    object: Option<Vec<u8>>,
) -> (r: Result<(), GenError>)
    ensures
        r is Err <==> ((*old(gen)).needs_string && (*old(gen)).opts.string_encoding
            == crate::gen::StringEncoding::CompactUtf16),
        r is Ok ==> ({
            let n0 = (*old(files)).entries@.len() as int;
            let world_snake = crate::ident::snake_of((*old(gen)).world@);
            let with_object = !(*old(gen)).opts.no_object_file && object is Some;
            &&& final(files).entries@.len() == n0 + (if with_object {
                4int
            } else {
                3int
            })
            &&& final(files).entries@[n0].0@ == world_snake + ".pas"@
            &&& final(files).entries@[n0].1 is Text
            &&& final(files).entries@[n0 + 1].0@ == world_snake + "h.inc"@
            &&& final(files).entries@[n0 + 1].1 is Text
            &&& final(files).entries@[n0 + 2].0@ == world_snake + ".inc"@
            &&& final(files).entries@[n0 + 2].1 is Text
            &&& (with_object ==> final(files).entries@[n0 + 3].0@ == world_snake
                + "_component_type.o"@ && final(files).entries@[n0 + 3].1 is Blob)
            &&& (forall|i: int|
                0 <= i < n0 ==> final(files).entries@[i] == (*old(files)).entries@[i])
        }),
{
    let snake = snake_chars(&gen.world);
    // Keep the component-type object linked in through its per-world symbol.
    let mut linking = str_chars("__component_type_object_force_link_");
    push_chars(&mut linking, &snake);
    let mut cinc = str_chars("<stdlib.h>");
    gen.c_includes.push(cinc);
    gen.src.c_adapters.push_str("\n// Ensure that the component type object is linked in\n");
    let mut adapter = str_chars("procedure ");
    push_chars(&mut adapter, &linking);
    push_str(&mut adapter, "; external;\nprocedure ");
    push_chars(&mut adapter, &linking);
    push_str(&mut adapter, "_public_use_in_this_compilation_unit;\nbegin\n  ");
    push_chars(&mut adapter, &linking);
    push_str(&mut adapter, ";\nend;\n");
    gen.src.c_adapters.push_vec(&adapter);
    print_intrinsics(gen);
    if gen.needs_string {
        let ct = match gen.char_type() {
            Ok(c) => c,
            Err(e) => {
                return Err(e);
            },
        };
        let utf16 = matches!(gen.opts.string_encoding, crate::gen::StringEncoding::Utf16);
        if utf16 {
            // A UTF-16 string length helper is generated alongside.
            let mut h = str_chars("\nfunction ");
            push_chars(&mut h, &snake);
            push_str(&mut h, "_string_len(const s: Pwidechar): SizeUInt;\n");
            gen.src.h_helpers.push_vec(&h);
            let mut c = str_chars("\nfunction ");
            push_chars(&mut c, &snake);
            push_str(
                &mut c,
                "_string_len(const s: Pwidechar): SizeUInt;\nvar\n  c: Pwidechar;\nbegin\n  c := s;\n  while c^ <> #0 do\n    inc(c);\n  ",
            );
            push_chars(&mut c, &snake);
            push_str(&mut c, "_string_len := c - s;\nend;\n");
            gen.src.c_helpers.push_vec(&c);
        }
        // String create/set/dup/free helpers.
        let mut h = str_chars("\nfunction ");
        push_chars(&mut h, &snake);
        push_str(&mut h, "_string_create(ptr: P");
        push_str(&mut h, ct);
        push_str(&mut h, "; len: SizeUInt): ");
        push_chars(&mut h, &snake);
        push_str(&mut h, "_string_t;\nprocedure ");
        push_chars(&mut h, &snake);
        push_str(&mut h, "_string_set(ret: P");
        push_chars(&mut h, &snake);
        push_str(&mut h, "_string_t; const s: P");
        push_str(&mut h, ct);
        push_str(&mut h, ");\nprocedure ");
        push_chars(&mut h, &snake);
        push_str(&mut h, "_string_dup(ret: P");
        push_chars(&mut h, &snake);
        push_str(&mut h, "_string_t; const s: P");
        push_str(&mut h, ct);
        push_str(&mut h, ");\nprocedure ");
        push_chars(&mut h, &snake);
        push_str(&mut h, "_string_free(ret: P");
        push_chars(&mut h, &snake);
        push_str(&mut h, "_string_t);\n");
        gen.src.h_helpers.push_vec(&h);
        let mut c = str_chars("\nfunction ");
        push_chars(&mut c, &snake);
        push_str(&mut c, "_string_create(ptr: P");
        push_str(&mut c, ct);
        push_str(&mut c, "; len: SizeUInt): ");
        push_chars(&mut c, &snake);
        push_str(&mut c, "_string_t;\nbegin\n  ");
        push_chars(&mut c, &snake);
        push_str(&mut c, "_string_create.ptr := ptr;\n  ");
        push_chars(&mut c, &snake);
        push_str(&mut c, "_string_create.len := len;\nend;\n");
        gen.src.c_helpers.push_vec(&c);
    }
    if gen.union_needs.int32_float {
        gen.src.c_helpers.push_str("\nunion int32_float { int32_t a; float b; };\n");
    }
    if gen.union_needs.float_int32 {
        gen.src.c_helpers.push_str("\nunion float_int32 { float a; int32_t b; };\n");
    }
    if gen.union_needs.int64_double {
        gen.src.c_helpers.push_str("\nunion int64_double { int64_t a; double b; };\n");
    }
    if gen.union_needs.double_int64 {
        gen.src.c_helpers.push_str("\nunion double_int64 { double a; int64_t b; };\n");
    }
    // The interface unit.
    let mut h_str = crate::source::Source::new();
    let shouty = shouty_chars(&gen.world);
    let mut guard = str_chars("{$ifndef __BINDINGS_");
    push_chars(&mut guard, &shouty);
    push_str(&mut guard, "_H}\n{$define __BINDINGS_");
    push_chars(&mut guard, &shouty);
    push_str(&mut guard, "_H}\n");
    h_str.push_vec(&guard);
    let mut hi: usize = 0;
    while hi < gen.h_includes.len()
        decreases gen.h_includes@.len() - hi,
    {
        let mut line = str_chars("//#include ");
        push_chars(&mut line, &gen.h_includes[hi]);
        push_str(&mut line, "\n");
        h_str.push_vec(&line);
        hi += 1;
    }
    if gen.needs_string {
        let ct = match gen.char_type() {
            Ok(c) => c,
            Err(e) => {
                return Err(e);
            },
        };
        let mut s = str_chars("\ntype\n  PP");
        push_chars(&mut s, &snake);
        push_str(&mut s, "_string_t = ^P");
        push_chars(&mut s, &snake);
        push_str(&mut s, "_string_t;\n  P");
        push_chars(&mut s, &snake);
        push_str(&mut s, "_string_t = ^");
        push_chars(&mut s, &snake);
        push_str(&mut s, "_string_t;\n  ");
        push_chars(&mut s, &snake);
        push_str(&mut s, "_string_t = record\nptr: P");
        push_str(&mut s, ct);
        push_str(&mut s, ";\nlen: SizeUInt;\nend;\n");
        h_str.push_vec(&s);
    }
    h_str.push_vec(gen.src.h_defs.chars());
    h_str.push_vec(gen.src.h_fns.chars());
    if !gen.opts.no_helpers && gen.src.h_helpers.len() > 0 {
        h_str.push_str("\n// Helper Functions\n");
        h_str.push_vec(gen.src.h_helpers.chars());
        h_str.push_str("\n");
    }
    let mut endif = str_chars("\n{$endif}\n");
    h_str.push_vec(&endif);
    // The implementation unit.
    let mut c_str = crate::source::Source::new();
    let mut ci: usize = 0;
    while ci < gen.c_includes.len()
        decreases gen.c_includes@.len() - ci,
    {
        let mut line = str_chars("//#include ");
        push_chars(&mut line, &gen.c_includes[ci]);
        push_str(&mut line, "\n");
        c_str.push_vec(&line);
        ci += 1;
    }
    c_str.push_vec(gen.src.c_defs.chars());
    c_str.push_vec(gen.src.c_fns.chars());
    if !gen.opts.no_helpers && gen.src.c_helpers.len() > 0 {
        c_str.push_str("\n// Helper Functions\n");
        c_str.push_vec(gen.src.c_helpers.chars());
    }
    c_str.push_str("\n// Component Adapters\n");
    // Exports answer the host out of a static area that must outlive the
    // call, until post-return runs.
    if gen.return_pointer_area_size > 0 {
        let mut area = str_chars("__attribute__((__aligned__(");
        push_usize(&mut area, gen.return_pointer_area_align);
        push_str(&mut area, ")))\nstatic uint8_t STATIC_RET_AREA[");
        push_usize(&mut area, gen.return_pointer_area_size);
        push_str(&mut area, "];\n");
        c_str.push_vec(&area);
    }
    c_str.push_vec(gen.src.c_adapters.chars());
    // The thin unit tying both together.
    let mut unit_str = crate::source::Source::new();
    let mut unit = str_chars("unit ");
    push_chars(&mut unit, &snake);
    push_str(&mut unit, ";\n{$PACKRECORDS C}\ninterface\n{$I ");
    push_chars(&mut unit, &snake);
    push_str(&mut unit, "h.inc}\nimplementation\n{$I ");
    push_chars(&mut unit, &snake);
    push_str(&mut unit, ".inc}\nend.\n");
    unit_str.push_vec(&unit);
    let mut f1: Vec<char> = Vec::new();
    push_chars(&mut f1, &snake);
    push_str(&mut f1, ".pas");
    proof {
        assert(f1@ =~= snake@ + ".pas"@);
    }
    let mut uc: Vec<char> = Vec::new();
    push_chars(&mut uc, unit_str.chars());
    files.push(f1, FileData::Text(uc));
    let mut f2: Vec<char> = Vec::new();
    push_chars(&mut f2, &snake);
    push_str(&mut f2, "h.inc");
    proof {
        assert(f2@ =~= snake@ + "h.inc"@);
    }
    let mut hc: Vec<char> = Vec::new();
    push_chars(&mut hc, h_str.chars());
    files.push(f2, FileData::Text(hc));
    let mut f3: Vec<char> = Vec::new();
    push_chars(&mut f3, &snake);
    push_str(&mut f3, ".inc");
    proof {
        assert(f3@ =~= snake@ + ".inc"@);
    }
    let mut cc: Vec<char> = Vec::new();
    push_chars(&mut cc, c_str.chars());
    files.push(f3, FileData::Text(cc));
    if !gen.opts.no_object_file {
        if let Some(blob) = object {
            let mut f4: Vec<char> = Vec::new();
            push_chars(&mut f4, &snake);
            push_str(&mut f4, "_component_type.o");
            proof {
                assert(f4@ =~= snake@ + "_component_type.o"@);
            }
            files.push(f4, FileData::Blob(blob));
        }
    }
    Ok(())
}

} // verus!
