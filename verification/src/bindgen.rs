//! The ABI instruction interpreter: the engine that renders each instruction
//! of a lifting/lowering stream into Pascal statements.
//!
//! The interpreter is a symbolic stack machine: operands are source-level
//! expressions, not runtime values. Each instruction consumes a fixed number
//! of operand expressions and produces a fixed number of result expressions,
//! while appending statements to the current function body. Nested sum-type
//! and list bodies are buffered as blocks, pushed and popped in strict LIFO
//! order ([`FunctionBindgen::push_block`] / [`FunctionBindgen::finish_block`]).
//! Borrowed handles of imported resources lifted for an export adapter are
//! recorded for deferred drops, emitted just before every return path.

use crate::casts::Bitcast;
use crate::classify::{Return, Scalar};
use crate::err::GenError;
use crate::gen::Pascal;
use crate::names::NameSet;
use crate::sig::{WasmSignature, WasmType};
use crate::source::{Source, SourceModel, source_push};
use crate::text::{push_chars, push_str, push_usize, str_chars};
use crate::wit::{Direction, Handle, Resolve, Type, TypeDefKind};
use vstd::prelude::*;

verus! {

/// The rendered Pascal type of a core-wasm slot.
pub fn wasm_type_text(ty: WasmType) -> (r: &'static str)
    ensures
        r@ == (match ty {
            WasmType::I32 => "int32"@,
            WasmType::I64 => "int64"@,
            WasmType::F32 => "single"@,
            WasmType::F64 => "double"@,
            WasmType::Pointer => "Pbyte"@,
            WasmType::PointerOrI64 => "int64"@,
            WasmType::Length => "SizeUInt"@,
        }),
{
    match ty {
        WasmType::I32 => "int32",
        WasmType::I64 => "int64",
        WasmType::F32 => "single",
        WasmType::F64 => "double",
        WasmType::Pointer => "Pbyte",
        WasmType::PointerOrI64 => "int64",
        WasmType::Length => "SizeUInt",
    }
}

/// The rendered Pascal type that carries a discriminant of the given width.
pub fn int_repr(ty: crate::wit::IntRepr) -> (r: &'static str)
    ensures
        r@ == (match ty {
            crate::wit::IntRepr::U8 => "byte"@,
            crate::wit::IntRepr::U16 => "uint16"@,
            crate::wit::IntRepr::U32 => "uint32"@,
            crate::wit::IntRepr::U64 => "uint64"@,
        }),
{
    match ty {
        crate::wit::IntRepr::U8 => "byte",
        crate::wit::IntRepr::U16 => "uint16",
        crate::wit::IntRepr::U32 => "uint32",
        crate::wit::IntRepr::U64 => "uint64",
    }
}

/// The local-variable section of one generated function body: each variable
/// declared once, rendered as a Pascal `var` section.
pub struct PascalVarList {
    /// The declared variables, in declaration order.
    pub entries: Vec<(Vec<char>, Vec<char>)>,
}

impl PascalVarList {
    /// Whether some variable of this name is declared.
    pub open spec fn has(self, name: Seq<char>) -> bool {
        exists|i: int| 0 <= i < self.entries.len() && self.entries[i].0@ == name
    }

    /// No declarations.
    pub fn new() -> (r: PascalVarList)
        ensures
            r.entries@.len() == 0,
    {
        PascalVarList { entries: Vec::new() }
    }

    /// Whether nothing is declared.
    pub fn is_empty(&self) -> (r: bool)
        ensures
            r == (self.entries@.len() == 0),
    {
        self.entries.len() == 0
    }

    /// Declare `name` with type text `typ`; a second declaration of the same
    /// name is a defect and refused.
    pub fn insert(&mut self, name: &Vec<char>, typ: &Vec<char>) -> (r: Result<(), GenError>)
        ensures
            r is Err <==> old(self).has(name@),
            r is Err ==> *final(self) == *old(self),
            r is Ok ==> final(self).entries@.len() == old(self).entries@.len() + 1
                && final(self).entries@.last().0@ == name@ && final(self).entries@.last().1@
                == typ@ && final(self).entries@.take(old(self).entries@.len() as int) == old(
                self,
            ).entries@,
    {
        let mut i: usize = 0;
        while i < self.entries.len()
            invariant
                i <= self.entries@.len(),
                forall|j: int| 0 <= j < i ==> self.entries@[j].0@ != name@,
            decreases self.entries@.len() - i,
        {
            if crate::text::chars_eq(&self.entries[i].0, name) {
                return Err(GenError::AlreadyDefined);
            }
            i += 1;
        }
        let mut n: Vec<char> = Vec::new();
        push_chars(&mut n, name);
        let mut t: Vec<char> = Vec::new();
        push_chars(&mut t, typ);
        let ghost pre = self.entries@;
        self.entries.push((n, t));
        proof {
            assert(self.entries@.take(pre.len() as int) =~= pre);
        }
        Ok(())
    }

    /// The rendered `var` section: a `var` line, then one `  name: typ;` line
    /// per declaration.
    pub open spec fn spec_render(entries: Seq<(Vec<char>, Vec<char>)>) -> Seq<char>
        decreases entries.len(),
    {
        if entries.len() == 0 {
            "var\n"@
        } else {
            Self::spec_render(entries.drop_last()) + "  "@ + entries.last().0@ + ": "@
                + entries.last().1@ + ";\n"@
        }
    }

    /// Render the `var` section; see [`PascalVarList::spec_render`].
    pub fn render(&self) -> (r: Vec<char>)
        ensures
            r@ == Self::spec_render(self.entries@),
    {
        let mut r = str_chars("var\n");
        let mut i: usize = 0;
        while i < self.entries.len()
            invariant
                i <= self.entries@.len(),
                r@ == Self::spec_render(self.entries@.take(i as int)),
            decreases self.entries@.len() - i,
        {
            push_str(&mut r, "  ");
            push_chars(&mut r, &self.entries[i].0);
            push_str(&mut r, ": ");
            push_chars(&mut r, &self.entries[i].1);
            push_str(&mut r, ";\n");
            proof {
                assert(self.entries@.take(i + 1).drop_last() =~= self.entries@.take(i as int));
                assert(self.entries@.take(i + 1).last() == self.entries@[i as int]);
            }
            i += 1;
        }
        proof {
            assert(self.entries@.take(self.entries@.len() as int) =~= self.entries@);
        }
        r
    }
}

/// One generated-signature parameter: whether it is passed by pointer, and
/// its name.
pub struct CParam {
    pub by_pointer: bool,
    pub name: Vec<char>,
}

/// The generated signature descriptor of one function: its rendered name and
/// header, its parameters, the classified return, and the out-parameter
/// names.
pub struct CSig {
    /// The generated function name.
    pub name: Vec<char>,
    /// The rendered header line.
    pub sig: Vec<char>,
    /// The parameters, in order.
    pub params: Vec<CParam>,
    /// The classified return.
    pub ret: Return,
    /// The names of the out-parameters, in order.
    pub retptrs: Vec<Vec<char>>,
}

/// A borrowed handle recorded while lifting an export's arguments, to be
/// dropped on every return path.
pub struct DroppableBorrow {
    /// The temporary holding the raw handle.
    pub name: Vec<char>,
    /// The resource's type identity.
    pub ty: usize,
}

/// One instruction of a lifting/lowering stream. Type references point into
/// the resolve table; instructions that walk a list carry the data the walk
/// needs (the element size), since the stream's producer fixes the layout.
pub enum Instruction {
    /// Push the `nth` parameter expression.
    GetArg { nth: usize },
    /// Push a constant.
    I32Const { val: i32 },
    /// Reinterpret the top operands slot-wise.
    Bitcasts { casts: Vec<Bitcast> },
    /// Push `n` zero constants.
    ConstZero { n: usize },
    U8FromI32,
    S8FromI32,
    U16FromI32,
    S16FromI32,
    U32FromI32,
    S32FromI32,
    S64FromI64,
    U64FromI64,
    I32FromU8,
    I32FromS8,
    I32FromU16,
    I32FromS16,
    I32FromU32,
    I32FromS32,
    I64FromS64,
    I64FromU64,
    CoreF32FromF32,
    CoreF64FromF64,
    F32FromCoreF32,
    F64FromCoreF64,
    CharFromI32,
    I32FromChar,
    BoolFromI32,
    I32FromBool,
    /// Project the fields of a record value.
    RecordLower { ty: usize },
    /// Build a record value through its synthesized constructor.
    RecordLift { ty: usize },
    /// Project the members of a tuple value.
    TupleLower { ty: usize },
    /// Build a tuple value through its synthesized constructor.
    TupleLift { ty: usize },
    /// Extract the raw index of a handle.
    HandleLower,
    /// Wrap a raw index back into a handle type.
    HandleLift { handle: Handle, ty: usize },
    /// Pass a flags value as one word, or split it into two 32-bit halves.
    FlagsLower { ty: usize },
    /// Rebuild a flags value from its word or words.
    FlagsLift { ty: usize },
    /// Name the payload binding the following case blocks use.
    VariantPayloadName,
    /// Dispatch over a variant's tag, splicing one buffered block per case.
    VariantLower { ty: usize, result_types: Vec<WasmType> },
    /// Rebuild a variant from a raw discriminant and the case blocks.
    VariantLift { ty: usize },
    /// Dispatch over an option, splicing the none and some blocks.
    OptionLower { payload: Type, ty: usize, result_types: Vec<WasmType> },
    /// Rebuild an option from a raw discriminant and the two blocks.
    OptionLift { ty: usize },
    /// Dispatch over a result, splicing the ok and err blocks.
    ResultLower { ty: usize, result_types: Vec<WasmType> },
    /// Rebuild a result from a raw discriminant and the two blocks.
    ResultLift { ty: usize },
    EnumLower,
    EnumLift,
    /// Degrade a canonical list to its pointer/length pair.
    ListCanonLower,
    /// Degrade a string to its pointer/length pair.
    StringLower,
    /// Build a canonical list from a pointer/length pair.
    ListCanonLift { element: Type, ty: usize },
    /// Build a string from a pointer/length pair.
    StringLift,
    /// Degrade a non-canonical list to its pointer/length pair, dropping the
    /// buffered element block.
    ListLower,
    /// Build a non-canonical list from a pointer/length pair, dropping the
    /// buffered element block.
    ListLift { element: Type, ty: usize },
    /// The per-element binding inside list blocks.
    IterElem,
    /// The per-element base pointer inside list blocks.
    IterBasePointer,
    /// Call the raw ABI-level trampoline.
    CallWasm { sig: WasmSignature },
    /// Call the interface implementation function.
    CallInterface { params: Vec<Type>, result: Option<Type> },
    /// Emit the return statement(s); always the stream's last instruction.
    Return { amt: usize },
    I32Load { offset: usize },
    I32Load8U { offset: usize },
    I32Load8S { offset: usize },
    I32Load16U { offset: usize },
    I32Load16S { offset: usize },
    I64Load { offset: usize },
    F32Load { offset: usize },
    F64Load { offset: usize },
    PointerLoad { offset: usize },
    LengthLoad { offset: usize },
    I32Store { offset: usize },
    I32Store8 { offset: usize },
    I32Store16 { offset: usize },
    I64Store { offset: usize },
    F32Store { offset: usize },
    F64Store { offset: usize },
    PointerStore { offset: usize },
    LengthStore { offset: usize },
    /// Free the pointed-to allocation.
    GuestDeallocate,
    /// Free a string's allocation.
    GuestDeallocateString,
    /// Dispatch deallocation over a variant's cases.
    GuestDeallocateVariant { blocks: usize },
    /// Free a list, running the buffered element block per element; the
    /// element's byte size comes with the stream.
    GuestDeallocateList { element_size: usize },
    /// Force evaluation of the top operands into themselves.
    Flush { amt: usize },
}

/// The per-function interpreter state; see the module documentation.
pub struct FunctionBindgen {
    /// Names used inside this function body.
    pub locals: NameSet,
    /// The body's local-variable section.
    pub local_vars: PascalVarList,
    /// The statements of the body emitted so far.
    pub src: Source,
    /// The generated signature of the function.
    pub sig: CSig,
    /// The raw trampoline or implementation function calls dispatch to.
    pub func_to_call: Vec<char>,
    /// Buffers of enclosing bodies while a nested block is built.
    pub block_storage: Vec<Source>,
    /// Finished blocks, each with the operands it produced.
    pub blocks: Vec<(Vec<char>, Vec<Vec<char>>)>,
    /// Payload names for pending variant cases.
    pub payloads: Vec<Vec<char>>,
    /// The parameter expressions of the function.
    pub params: Vec<Vec<char>>,
    /// The name holding the raw call's result, once emitted.
    pub wasm_return: Option<Vec<char>>,
    /// How many out-parameters have been stored so far.
    pub ret_store_cnt: usize,
    /// The largest indirect return seen in this import body: imports use a
    /// transient stack buffer.
    pub import_return_pointer_area_size: usize,
    /// Its alignment.
    pub import_return_pointer_area_align: usize,
    /// Borrows to drop before every return path.
    pub borrows: Vec<DroppableBorrow>,
    /// Declarations for the borrow temporaries, spliced before the body.
    pub borrow_decls: Source,
    /// Whether this body belongs to the import direction.
    pub in_import: bool,
}

/// The generator fields [`FunctionBindgen::emit`] never changes: everything
/// but the needed-helper marks and the static return area.
pub open spec fn gen_frame(a: Pascal, b: Pascal) -> bool {
    &&& b.src == a.src
    &&& b.opts == a.opts
    &&& b.h_includes == a.h_includes
    &&& b.c_includes == a.c_includes
    &&& b.names == a.names
    &&& b.prim_names == a.prim_names
    &&& b.world == a.world
    &&& b.renamed_interfaces == a.renamed_interfaces
    &&& b.world_id == a.world_id
    &&& b.dtor_funcs == a.dtor_funcs
    &&& b.type_names == a.type_names
    &&& b.resources == a.resources
}

/// Whether a value of `ty` holds, anywhere inside it, a borrowed handle of an
/// imported resource: such a borrow must be dropped after an export body, so
/// it may not hide inside lists or returns. `None` when a handle points at an
/// unregistered resource.
pub open spec fn spec_droppable_borrow(
    resolve: Resolve,
    res: crate::gen::Resources,
    ty: Type,
) -> Option<bool>
    decreases ty.rank(), 0int, 0int,
    when resolve.wf() && resolve.ty_below(ty, resolve.types.len() as int)
{
    match ty {
        Type::Id(id) => match resolve.types[id as int].kind {
            TypeDefKind::Handle(h) => match h {
                Handle::Borrow(r) => {
                    let origin = resolve.spec_dealias(r as int);
                    if res.defined(origin) {
                        Some(res.info_of(origin).direction == Direction::Import)
                    } else {
                        None
                    }
                },
                Handle::Own(_) => Some(false),
            },
            TypeDefKind::Resource => Some(false),
            TypeDefKind::Flags(_) => Some(false),
            TypeDefKind::Enum(_) => Some(false),
            TypeDefKind::Record(fields) => spec_droppable_borrow_fields(
                resolve,
                res,
                fields@.map_values(|f: crate::wit::Field| f.ty),
                0,
                id as int,
            ),
            TypeDefKind::Tuple(ts) => spec_droppable_borrow_fields(resolve, res, ts@, 0, id as int),
            TypeDefKind::Variant(cases) => spec_droppable_borrow_fields(
                resolve,
                res,
                cases@.map_values(
                    |c: crate::wit::Case|
                        match c.ty {
                            Some(t) => t,
                            None => Type::Bool,
                        },
                ),
                0,
                id as int,
            ),
            TypeDefKind::OptionOf(t) => spec_droppable_borrow(resolve, res, t),
            TypeDefKind::ResultOf(ok, err) => {
                let a = match ok {
                    Some(t) => spec_droppable_borrow(resolve, res, t),
                    None => Some(false),
                };
                match a {
                    None => None,
                    Some(true) => Some(true),
                    Some(false) => match err {
                        Some(t) => spec_droppable_borrow(resolve, res, t),
                        None => Some(false),
                    },
                }
            },
            TypeDefKind::ListOf(t) => spec_droppable_borrow(resolve, res, t),
            TypeDefKind::Future | TypeDefKind::Stream | TypeDefKind::ErrorContext => Some(false),
            TypeDefKind::Alias(t) => spec_droppable_borrow(resolve, res, t),
        },
        _ => Some(false),
    }
}

/// Whether any of the given member types holds a droppable borrow.
pub open spec fn spec_droppable_borrow_fields(
    resolve: Resolve,
    res: crate::gen::Resources,
    ts: Seq<Type>,
    i: int,
    bound: int,
) -> Option<bool>
    decreases bound, 1int, ts.len() - i,
    when resolve.wf() && 0 <= i <= ts.len() && (forall|j: int|
        0 <= j < ts.len() ==> (#[trigger] ts[j]).rank() <= bound) && bound
        <= resolve.types.len() as int
{
    if i >= ts.len() {
        Some(false)
    } else {
        match spec_droppable_borrow(resolve, res, ts[i]) {
            Some(true) => Some(true),
            Some(false) => spec_droppable_borrow_fields(resolve, res, ts, i + 1, bound),
            None => None,
        }
    }
}

/// Whether `ty` holds a borrowed handle of an imported resource; see
/// [`spec_droppable_borrow`].
pub fn contains_droppable_borrow(
    resolve: &Resolve,
    res: &crate::gen::Resources,
    ty: &Type,
) -> (r: Result<bool, GenError>)
    requires
        resolve.wf(),
        resolve.ty_below(*ty, resolve.types.len() as int),
    ensures
        r matches Ok(b) ==> Some(b) == spec_droppable_borrow(*resolve, *res, *ty),
        r is Err <==> spec_droppable_borrow(*resolve, *res, *ty) is None,
    decreases ty.rank(), 1int,
{
    match ty {
        Type::Id(id) => {
            let idv = *id;
            proof {
                assert(resolve.kind_below(resolve.types[idv as int].kind, idv as int));
            }
            match &resolve.types[idv].kind {
                TypeDefKind::Handle(h) => match h {
                    Handle::Borrow(r) => {
                        let origin = crate::wit::dealias(resolve, *r);
                        match res.direction(origin) {
                            Ok(d) => Ok(matches!(d, Direction::Import)),
                            Err(e) => Err(e),
                        }
                    },
                    Handle::Own(_) => Ok(false),
                },
                TypeDefKind::Resource => Ok(false),
                TypeDefKind::Flags(_) => Ok(false),
                TypeDefKind::Enum(_) => Ok(false),
                TypeDefKind::Record(fields) => {
                    let ghost tseq = fields@.map_values(|f: crate::wit::Field| f.ty);
                    let mut j: usize = 0;
                    proof {
                        assert(forall|q: int|
                            0 <= q < tseq.len() ==> (#[trigger] tseq[q]).rank() <= idv as int);
                    }
                    loop
                        invariant
                            resolve.wf(),
                            resolve.types.len() > idv,
                            *ty == Type::Id(idv),
                            resolve.types[idv as int].kind matches TypeDefKind::Record(f) && f
                                == *fields,
                            tseq == fields@.map_values(|f: crate::wit::Field| f.ty),
                            j <= fields@.len(),
                            spec_droppable_borrow_fields(*resolve, *res, tseq, 0, idv as int)
                                is Some <==> spec_droppable_borrow_fields(
                                *resolve,
                                *res,
                                tseq,
                                j as int,
                                idv as int,
                            ) is Some,
                            spec_droppable_borrow_fields(*resolve, *res, tseq, 0, idv as int)
                                matches Some(w) ==> w == spec_droppable_borrow_fields(
                                *resolve,
                                *res,
                                tseq,
                                j as int,
                                idv as int,
                            )->Some_0,
                        decreases fields@.len() - j,
                    {
                        if j >= fields.len() {
                            return Ok(false);
                        }
                        let t2 = fields[j].ty;
                        proof {
                            assert(resolve.ty_below(tseq[j as int], idv as int));
                        }
                        match contains_droppable_borrow(resolve, res, &t2) {
                            Ok(b) => {
                                if b {
                                    return Ok(true);
                                }
                            },
                            Err(e) => {
                                return Err(e);
                            },
                        }
                        j += 1;
                    }
                },
                TypeDefKind::Tuple(ts) => {
                    let ghost tseq = ts@;
                    let mut j: usize = 0;
                    proof {
                        assert(forall|q: int|
                            0 <= q < tseq.len() ==> (#[trigger] tseq[q]).rank() <= idv as int);
                    }
                    loop
                        invariant
                            resolve.wf(),
                            resolve.types.len() > idv,
                            *ty == Type::Id(idv),
                            resolve.types[idv as int].kind matches TypeDefKind::Tuple(f) && f
                                == *ts,
                            tseq == ts@,
                            j <= ts@.len(),
                            spec_droppable_borrow_fields(*resolve, *res, tseq, 0, idv as int)
                                is Some <==> spec_droppable_borrow_fields(
                                *resolve,
                                *res,
                                tseq,
                                j as int,
                                idv as int,
                            ) is Some,
                            spec_droppable_borrow_fields(*resolve, *res, tseq, 0, idv as int)
                                matches Some(w) ==> w == spec_droppable_borrow_fields(
                                *resolve,
                                *res,
                                tseq,
                                j as int,
                                idv as int,
                            )->Some_0,
                        decreases ts@.len() - j,
                    {
                        if j >= ts.len() {
                            return Ok(false);
                        }
                        let t2 = ts[j];
                        proof {
                            assert(resolve.ty_below(tseq[j as int], idv as int));
                        }
                        match contains_droppable_borrow(resolve, res, &t2) {
                            Ok(b) => {
                                if b {
                                    return Ok(true);
                                }
                            },
                            Err(e) => {
                                return Err(e);
                            },
                        }
                        j += 1;
                    }
                },
                TypeDefKind::Variant(cases) => {
                    let ghost tseq = cases@.map_values(
                        |c: crate::wit::Case|
                            match c.ty {
                                Some(t) => t,
                                None => Type::Bool,
                            },
                    );
                    let mut j: usize = 0;
                    proof {
                        assert(forall|q: int| 0 <= q < cases@.len() ==> (#[trigger] cases@[q].ty
                            matches Some(tt) ==> resolve.ty_below(tt, idv as int)));
                        assert(forall|q: int|
                            0 <= q < tseq.len() ==> (#[trigger] tseq[q]).rank() <= idv as int);
                    }
                    loop
                        invariant
                            resolve.wf(),
                            resolve.types.len() > idv,
                            *ty == Type::Id(idv),
                            resolve.types[idv as int].kind matches TypeDefKind::Variant(f) && f
                                == *cases,
                            tseq == cases@.map_values(
                                |c: crate::wit::Case|
                                    match c.ty {
                                        Some(t) => t,
                                        None => Type::Bool,
                                    },
                            ),
                            j <= cases@.len(),
                            spec_droppable_borrow_fields(*resolve, *res, tseq, 0, idv as int)
                                is Some <==> spec_droppable_borrow_fields(
                                *resolve,
                                *res,
                                tseq,
                                j as int,
                                idv as int,
                            ) is Some,
                            spec_droppable_borrow_fields(*resolve, *res, tseq, 0, idv as int)
                                matches Some(w) ==> w == spec_droppable_borrow_fields(
                                *resolve,
                                *res,
                                tseq,
                                j as int,
                                idv as int,
                            )->Some_0,
                        decreases cases@.len() - j,
                    {
                        if j >= cases.len() {
                            return Ok(false);
                        }
                        let t2 = match &cases[j].ty {
                            Some(t) => *t,
                            None => Type::Bool,
                        };
                        proof {
                            assert(tseq[j as int] == t2);
                            assert(resolve.ty_below(tseq[j as int], idv as int));
                        }
                        match contains_droppable_borrow(resolve, res, &t2) {
                            Ok(b) => {
                                if b {
                                    return Ok(true);
                                }
                            },
                            Err(e) => {
                                return Err(e);
                            },
                        }
                        j += 1;
                    }
                },
                TypeDefKind::OptionOf(t) => {
                    let t2 = *t;
                    contains_droppable_borrow(resolve, res, &t2)
                },
                TypeDefKind::ResultOf(ok, err) => {
                    if let Some(t) = ok {
                        let t2 = *t;
                        match contains_droppable_borrow(resolve, res, &t2) {
                            Ok(b) => {
                                if b {
                                    return Ok(true);
                                }
                            },
                            Err(e) => {
                                return Err(e);
                            },
                        }
                    }
                    if let Some(t) = err {
                        let t2 = *t;
                        match contains_droppable_borrow(resolve, res, &t2) {
                            Ok(b) => {
                                return Ok(b);
                            },
                            Err(e) => {
                                return Err(e);
                            },
                        }
                    }
                    Ok(false)
                },
                TypeDefKind::ListOf(t) => {
                    let t2 = *t;
                    contains_droppable_borrow(resolve, res, &t2)
                },
                TypeDefKind::Future | TypeDefKind::Stream | TypeDefKind::ErrorContext => Ok(false),
                TypeDefKind::Alias(t) => {
                    let t2 = *t;
                    contains_droppable_borrow(resolve, res, &t2)
                },
            }
        },
        _ => Ok(false),
    }
}

impl FunctionBindgen {
    /// A fresh interpreter for one function body.
    pub fn new(sig: CSig, func_to_call: Vec<char>, in_import: bool) -> (r: FunctionBindgen)
        ensures
            r.sig == sig,
            r.func_to_call == func_to_call,
            r.in_import == in_import,
            r.block_storage@.len() == 0,
            r.blocks@.len() == 0,
            r.payloads@.len() == 0,
            r.params@.len() == 0,
            r.borrows@.len() == 0,
            r.ret_store_cnt == 0,
            r.import_return_pointer_area_size == 0,
            r.import_return_pointer_area_align == 0,
            r.src@.s.len() == 0,
            r.wasm_return is None,
    {
        FunctionBindgen {
            locals: NameSet::new(),
            local_vars: PascalVarList::new(),
            src: Source::new(),
            sig,
            func_to_call,
            block_storage: Vec::new(),
            blocks: Vec::new(),
            payloads: Vec::new(),
            params: Vec::new(),
            wasm_return: None,
            ret_store_cnt: 0,
            import_return_pointer_area_size: 0,
            import_return_pointer_area_align: 0,
            borrows: Vec::new(),
            borrow_decls: Source::new(),
            in_import,
        }
    }

    /// Emit `loc := op;`.
    pub fn store_op(&mut self, op: &Vec<char>, loc: &Vec<char>)
        ensures
            final(self).src@ == source_push(
                source_push(
                    source_push(source_push(old(self).src@, loc@), " := "@),
                    op@,
                ),
                ";\n"@,
            ),
            *final(self) == (FunctionBindgen { src: final(self).src, ..*old(self) }),
    {
        self.src.push_vec(loc);
        self.src.push_str(" := ");
        self.src.push_vec(op);
        self.src.push_str(";\n");
    }

    /// Begin a nested block: the current body is saved and a fresh buffer
    /// started.
    pub fn push_block(&mut self)
        ensures
            final(self).block_storage@ == old(self).block_storage@.push(old(self).src),
            final(self).src@.s.len() == 0,
            *final(self) == (FunctionBindgen {
                block_storage: final(self).block_storage,
                src: final(self).src,
                ..*old(self)
            }),
    {
        let mut fresh = Source::new();
        core::mem::swap(&mut self.src, &mut fresh);
        self.block_storage.push(fresh);
    }

    /// Finish the innermost block: its text and the operands it produced are
    /// recorded, and the enclosing body is restored. The blocks stack mirrors
    /// the nesting, strictly LIFO.
    pub fn finish_block(&mut self, operands: Vec<Vec<char>>) -> (r: Result<(), GenError>)
        ensures
            r is Ok <==> old(self).block_storage@.len() > 0,
            r is Err ==> *final(self) == *old(self),
            r is Ok ==> {
                &&& final(self).block_storage@ == old(self).block_storage@.drop_last()
                &&& final(self).src == old(self).block_storage@.last()
                &&& final(self).blocks@.len() == old(self).blocks@.len() + 1
                &&& final(self).blocks@.last().0@ == old(self).src@.s
                &&& final(self).blocks@.last().1 == operands
                &&& final(self).blocks@.drop_last() == old(self).blocks@
                &&& *final(self) == (FunctionBindgen {
                    block_storage: final(self).block_storage,
                    src: final(self).src,
                    blocks: final(self).blocks,
                    ..*old(self)
                })
            },
    {
        if self.block_storage.len() == 0 {
            return Err(GenError::BadInstruction);
        }
        match self.block_storage.pop() {
            Some(mut to_restore) => {
                core::mem::swap(&mut self.src, &mut to_restore);
                let mut text: Vec<char> = Vec::new();
                push_chars(&mut text, to_restore.chars());
                self.blocks.push((text, operands));
                proof {
                    assert(final(self).blocks@.drop_last() =~= old(self).blocks@);
                }
                Ok(())
            },
            None => Err(GenError::BadInstruction),
        }
    }

    /// Pop the last `n` finished blocks, oldest first.
    pub fn pop_blocks(&mut self, n: usize) -> (r: Result<Vec<(Vec<char>, Vec<Vec<char>>)>, GenError>)
        ensures
            r is Ok <==> n <= old(self).blocks@.len(),
            r is Err ==> *final(self) == *old(self),
            r matches Ok(v) ==> {
                &&& v@ == old(self).blocks@.skip(old(self).blocks@.len() - n)
                &&& final(self).blocks@ == old(self).blocks@.take(old(self).blocks@.len() - n)
                &&& *final(self) == (FunctionBindgen { blocks: final(self).blocks, ..*old(self) })
            },
    {
        if n > self.blocks.len() {
            return Err(GenError::BadInstruction);
        }
        let at = self.blocks.len() - n;
        let tail = self.blocks.split_off(at);
        Ok(tail)
    }

    /// Pop the last `n` payload names, oldest first.
    pub fn pop_payloads(&mut self, n: usize) -> (r: Result<Vec<Vec<char>>, GenError>)
        ensures
            r is Ok <==> n <= old(self).payloads@.len(),
            r is Err ==> *final(self) == *old(self),
            r matches Ok(v) ==> {
                &&& v@ == old(self).payloads@.skip(old(self).payloads@.len() - n)
                &&& final(self).payloads@ == old(self).payloads@.take(
                    old(self).payloads@.len() - n,
                )
                &&& *final(self) == (FunctionBindgen { payloads: final(self).payloads, ..*old(self) })
            },
    {
        if n > self.payloads.len() {
            return Err(GenError::BadInstruction);
        }
        let at = self.payloads.len() - n;
        let tail = self.payloads.split_off(at);
        Ok(tail)
    }

    /// Store `op` through the next out-parameter.
    pub fn store_in_retptr(&mut self, op: &Vec<char>) -> (r: Result<(), GenError>)
        ensures
            r is Ok <==> old(self).ret_store_cnt < old(self).sig.retptrs@.len(),
            r is Err ==> *final(self) == *old(self),
            r is Ok ==> final(self).ret_store_cnt == old(self).ret_store_cnt + 1 && *final(self)
                == (FunctionBindgen {
                src: final(self).src,
                ret_store_cnt: final(self).ret_store_cnt,
                ..*old(self)
            }),
            r is Ok ==> final(self).src@ == spec_store_stmt(
                old(self).src@,
                old(self).sig.retptrs@[old(self).ret_store_cnt as int]@ + "^"@,
                op@,
            ),
    {
        if self.ret_store_cnt >= self.sig.retptrs.len() {
            return Err(GenError::BadInstruction);
        }
        let mut loc: Vec<char> = Vec::new();
        push_chars(&mut loc, &self.sig.retptrs[self.ret_store_cnt]);
        push_str(&mut loc, "^");
        proof {
            assert(loc@ =~= self.sig.retptrs@[self.ret_store_cnt as int]@ + "^"@);
        }
        self.store_op(op, &loc);
        self.ret_store_cnt = self.ret_store_cnt + 1;
        Ok(())
    }

    /// Empty types have no state and get no store, but the out-parameter
    /// count advances past them.
    pub fn empty_return_value(&mut self) -> (r: Result<(), GenError>)
        ensures
            r is Ok <==> old(self).ret_store_cnt < old(self).sig.retptrs@.len(),
            r is Err ==> *final(self) == *old(self),
            r is Ok ==> *final(self) == (FunctionBindgen {
                ret_store_cnt: (old(self).ret_store_cnt + 1) as usize,
                ..*old(self)
            }),
    {
        if self.ret_store_cnt >= self.sig.retptrs.len() {
            return Err(GenError::BadInstruction);
        }
        self.ret_store_cnt = self.ret_store_cnt + 1;
        Ok(())
    }

    /// A return-pointer expression. Imports draw it from a transient
    /// stack-scoped buffer sized to the largest indirect return of this body;
    /// exports draw it from the process-wide static area sized to the largest
    /// indirect return across the whole pass, because the buffer must stay
    /// valid until the host's post-return call.
    pub fn return_pointer(&mut self, gen: &mut Pascal, size: usize, align: usize) -> (r: Result<
        Vec<char>,
        GenError,
    >)
        ensures
            gen_frame(*old(gen), *final(gen)),
            final(gen).needs_string == old(gen).needs_string,
            final(gen).union_needs == old(gen).union_needs,
            old(self).in_import ==> {
                &&& *final(gen) == *old(gen)
                &&& final(self).import_return_pointer_area_size == (if size > old(
                    self,
                ).import_return_pointer_area_size {
                    size
                } else {
                    old(self).import_return_pointer_area_size
                })
                &&& final(self).import_return_pointer_area_align == (if align > old(
                    self,
                ).import_return_pointer_area_align {
                    align
                } else {
                    old(self).import_return_pointer_area_align
                })
            },
            !old(self).in_import ==> {
                &&& final(gen).return_pointer_area_size == (if size > old(
                    gen,
                ).return_pointer_area_size {
                    size
                } else {
                    old(gen).return_pointer_area_size
                })
                &&& final(gen).return_pointer_area_align == (if align > old(
                    gen,
                ).return_pointer_area_align {
                    align
                } else {
                    old(gen).return_pointer_area_align
                })
                &&& final(self).import_return_pointer_area_size == old(
                    self,
                ).import_return_pointer_area_size
                &&& final(self).import_return_pointer_area_align == old(
                    self,
                ).import_return_pointer_area_align
            },
            final(self).in_import == old(self).in_import,
            final(self).borrows == old(self).borrows,
            final(self).blocks == old(self).blocks,
            final(self).sig == old(self).sig,
            r matches Ok(p) ==> {
                &&& !old(self).locals.contains(p@)
                &&& final(self).locals.contains(p@)
                &&& final(self).src@ == source_push(
                    source_push(old(self).src@, p@),
                    if old(self).in_import {
                        " := Pbyte(@ret_area);\n"@
                    } else {
                        " := Pbyte(@STATIC_RET_AREA);\n"@
                    },
                )
                &&& final(self).local_vars.entries@.len() == old(
                    self,
                ).local_vars.entries@.len() + 1
                &&& final(self).local_vars.entries@.last().0@ == p@
                &&& final(self).local_vars.entries@.last().1@ == "Pbyte"@
            },
    {
        let stem = str_chars("ptr");
        let ptr = self.locals.tmp(&stem);
        let pbyte = str_chars("Pbyte");
        if self.in_import {
            if size > self.import_return_pointer_area_size {
                self.import_return_pointer_area_size = size;
            }
            if align > self.import_return_pointer_area_align {
                self.import_return_pointer_area_align = align;
            }
            match self.local_vars.insert(&ptr, &pbyte) {
                Ok(_) => {},
                Err(e) => {
                    return Err(e);
                },
            }
            self.src.push_vec(&ptr);
            self.src.push_str(" := Pbyte(@ret_area);\n");
        } else {
            if size > gen.return_pointer_area_size {
                gen.return_pointer_area_size = size;
            }
            if align > gen.return_pointer_area_align {
                gen.return_pointer_area_align = align;
            }
            match self.local_vars.insert(&ptr, &pbyte) {
                Ok(_) => {},
                Err(e) => {
                    return Err(e);
                },
            }
            self.src.push_vec(&ptr);
            self.src.push_str(" := Pbyte(@STATIC_RET_AREA);\n");
        }
        Ok(ptr)
    }

    /// Refuse to lift a value that would carry a borrowed handle needing
    /// autodrop where no drop point exists (inside lists, or across the
    /// return boundary).
    pub fn assert_no_droppable_borrows(&self, gen: &Pascal, resolve: &Resolve, ty: &Type) -> (r:
        Result<(), GenError>)
        requires
            resolve.wf(),
            resolve.ty_below(*ty, resolve.types.len() as int),
        ensures
            (!self.in_import && gen.opts.autodrop_borrows == crate::gen::Enabled::Yes
                && spec_droppable_borrow(*resolve, gen.resources, *ty) == Some(true)) ==> r is Err,
            (spec_droppable_borrow(*resolve, gen.resources, *ty) == Some(false)) ==> r is Ok,
            (self.in_import || gen.opts.autodrop_borrows == crate::gen::Enabled::No) ==> r is Ok,
    {
        if !self.in_import && matches!(gen.opts.autodrop_borrows, crate::gen::Enabled::Yes) {
            match contains_droppable_borrow(resolve, &gen.resources, ty) {
                Ok(true) => Err(GenError::BorrowEscapes),
                Ok(false) => Ok(()),
                Err(e) => Err(e),
            }
        } else {
            Ok(())
        }
    }
}

/// The texts of a list of operand expressions.
pub open spec fn texts_of(v: Seq<Vec<char>>) -> Seq<Seq<char>> {
    v.map_values(|x: Vec<char>| x@)
}

/// Appending an expression appends its text.
pub proof fn lemma_texts_push(s: Seq<Vec<char>>, x: Vec<char>)
    ensures
        texts_of(s.push(x)) =~= texts_of(s).push(x@),
{
    assert(forall|k: int| 0 <= k < s.len() ==> #[trigger] texts_of(s.push(x))[k] == s[k]@);
    assert(texts_of(s.push(x))[s.len() as int] == x@);
}

/// The rendered text of an `i32` constant.
pub open spec fn spec_i32_text(val: i32) -> Seq<char> {
    if val >= 0 {
        crate::text::dec_digits(val as nat)
    } else {
        "-"@ + crate::text::dec_digits((-(val as int)) as nat)
    }
}

/// Append the decimal rendering of `val`.
pub fn push_i32(dst: &mut Vec<char>, val: i32)
    ensures
        final(dst)@ == old(dst)@ + spec_i32_text(val),
{
    if val >= 0 {
        push_usize(dst, val as usize);
    } else {
        push_str(dst, "-");
        let mag: usize = if val == i32::MIN {
            0x80000000usize
        } else {
            (-val) as usize
        };
        push_usize(dst, mag);
    }
}

/// The exact result expressions of the pure instructions: those that push
/// result expressions without touching any other state. `None` for
/// instructions outside this family, or when the operand count does not fit.
pub open spec fn spec_pure_results(
    resolve: Resolve,
    params: Seq<Vec<char>>,
    inst: Instruction,
    ops: Seq<Seq<char>>,
) -> Option<Seq<Seq<char>>> {
    match inst {
        Instruction::GetArg { nth } => if nth < params.len() {
            Some(seq![params[nth as int]@])
        } else {
            None
        },
        Instruction::I32Const { val } => Some(seq![spec_i32_text(val)]),
        Instruction::ConstZero { n } => Some(Seq::new(n as nat, |i: int| "0"@)),
        Instruction::U8FromI32 => if ops.len() == 1 {
            Some(seq!["byte("@ + ops[0] + ")"@])
        } else {
            None
        },
        Instruction::S8FromI32 => if ops.len() == 1 {
            Some(seq!["int8("@ + ops[0] + ")"@])
        } else {
            None
        },
        Instruction::U16FromI32 => if ops.len() == 1 {
            Some(seq!["uint16("@ + ops[0] + ")"@])
        } else {
            None
        },
        Instruction::S16FromI32 => if ops.len() == 1 {
            Some(seq!["int16("@ + ops[0] + ")"@])
        } else {
            None
        },
        Instruction::U32FromI32 => if ops.len() == 1 {
            Some(seq!["uint32("@ + ops[0] + ")"@])
        } else {
            None
        },
        Instruction::S32FromI32 | Instruction::S64FromI64 => if ops.len() == 1 {
            Some(seq![ops[0]])
        } else {
            None
        },
        Instruction::U64FromI64 => if ops.len() == 1 {
            Some(seq!["uint64("@ + ops[0] + ")"@])
        } else {
            None
        },
        Instruction::I32FromU8 | Instruction::I32FromS8 | Instruction::I32FromU16
            | Instruction::I32FromS16 | Instruction::I32FromU32 => if ops.len() == 1 {
            Some(seq!["int32("@ + ops[0] + ")"@])
        } else {
            None
        },
        Instruction::I32FromS32 | Instruction::I64FromS64 => if ops.len() == 1 {
            Some(seq![ops[0]])
        } else {
            None
        },
        Instruction::I64FromU64 => if ops.len() == 1 {
            Some(seq!["int64("@ + ops[0] + ")"@])
        } else {
            None
        },
        Instruction::CoreF32FromF32 | Instruction::CoreF64FromF64 | Instruction::F32FromCoreF32
            | Instruction::F64FromCoreF64 => if ops.len() == 1 {
            Some(seq![ops[0]])
        } else {
            None
        },
        Instruction::CharFromI32 => if ops.len() == 1 {
            Some(seq!["uint32("@ + ops[0] + ")"@])
        } else {
            None
        },
        Instruction::I32FromChar => if ops.len() == 1 {
            Some(seq!["int32("@ + ops[0] + ")"@])
        } else {
            None
        },
        Instruction::BoolFromI32 => if ops.len() == 1 {
            Some(seq!["(("@ + ops[0] + ") <> 0)"@])
        } else {
            None
        },
        Instruction::I32FromBool => if ops.len() == 1 {
            Some(seq!["int32(ord("@ + ops[0] + "))"@])
        } else {
            None
        },
        Instruction::HandleLower => if ops.len() == 1 {
            Some(seq!["("@ + ops[0] + ").__handle"@])
        } else {
            None
        },
        Instruction::EnumLower => if ops.len() == 1 {
            Some(seq!["int32("@ + ops[0] + ")"@])
        } else {
            None
        },
        Instruction::EnumLift => if ops.len() == 1 {
            Some(seq![ops[0]])
        } else {
            None
        },
        Instruction::RecordLower { ty } => if ops.len() == 1 && ty < resolve.types.len() {
            match resolve.types[ty as int].kind {
                TypeDefKind::Record(fields) => Some(
                    Seq::new(
                        fields@.len(),
                        |i: int|
                            "("@ + ops[0] + ")."@ + crate::ident::pascal_ident_of(
                                fields@[i].name@,
                            ),
                    ),
                ),
                _ => None,
            }
        } else {
            None
        },
        Instruction::TupleLower { ty } => if ops.len() == 1 && ty < resolve.types.len() {
            match resolve.types[ty as int].kind {
                TypeDefKind::Tuple(ts) => Some(
                    Seq::new(
                        ts@.len(),
                        |i: int| "("@ + ops[0] + ").f"@ + crate::text::dec_digits(i as nat),
                    ),
                ),
                _ => None,
            }
        } else {
            None
        },
        Instruction::ListCanonLower | Instruction::StringLower => if ops.len() == 1 {
            Some(seq!["Pbyte(("@ + ops[0] + ").ptr)"@, "("@ + ops[0] + ").len"@])
        } else {
            None
        },
        Instruction::IterElem => Some(seq!["e"@]),
        Instruction::IterBasePointer => Some(seq!["base"@]),
        Instruction::I32Load { offset } => if ops.len() == 1 {
            Some(
                seq![
                    "Pint32("@ + ops[0] + " + "@ + crate::text::dec_digits(offset as nat) + ")^"@
                ],
            )
        } else {
            None
        },
        Instruction::I64Load { offset } => if ops.len() == 1 {
            Some(
                seq![
                    "Pint64("@ + ops[0] + " + "@ + crate::text::dec_digits(offset as nat) + ")^"@
                ],
            )
        } else {
            None
        },
        Instruction::F32Load { offset } => if ops.len() == 1 {
            Some(
                seq![
                    "Psingle("@ + ops[0] + " + "@ + crate::text::dec_digits(offset as nat) + ")^"@
                ],
            )
        } else {
            None
        },
        Instruction::F64Load { offset } => if ops.len() == 1 {
            Some(
                seq![
                    "Pdouble("@ + ops[0] + " + "@ + crate::text::dec_digits(offset as nat) + ")^"@
                ],
            )
        } else {
            None
        },
        Instruction::PointerLoad { offset } => if ops.len() == 1 {
            Some(
                seq![
                    "PPbyte("@ + ops[0] + " + "@ + crate::text::dec_digits(offset as nat) + ")^"@
                ],
            )
        } else {
            None
        },
        Instruction::LengthLoad { offset } => if ops.len() == 1 {
            Some(
                seq![
                    "PSizeUInt("@ + ops[0] + " + "@ + crate::text::dec_digits(offset as nat)
                        + ")^"@
                ],
            )
        } else {
            None
        },
        Instruction::I32Load8U { offset } => if ops.len() == 1 {
            Some(
                seq![
                    "int32(Pbyte("@ + ops[0] + " + "@ + crate::text::dec_digits(offset as nat)
                        + ")^)"@
                ],
            )
        } else {
            None
        },
        Instruction::I32Load8S { offset } => if ops.len() == 1 {
            Some(
                seq![
                    "int32(Pint8("@ + ops[0] + " + "@ + crate::text::dec_digits(offset as nat)
                        + ")^)"@
                ],
            )
        } else {
            None
        },
        Instruction::I32Load16U { offset } => if ops.len() == 1 {
            Some(
                seq![
                    "int32(Puint16("@ + ops[0] + " + "@ + crate::text::dec_digits(offset as nat)
                        + ")^)"@
                ],
            )
        } else {
            None
        },
        Instruction::I32Load16S { offset } => if ops.len() == 1 {
            Some(
                seq![
                    "int32(Pint16("@ + ops[0] + " + "@ + crate::text::dec_digits(offset as nat)
                        + ")^)"@
                ],
            )
        } else {
            None
        },
        Instruction::Flush { amt } => if ops.len() == amt {
            Some(ops)
        } else {
            None
        },
        _ => None,
    }
}

/// Render the pure instructions: exact against [`spec_pure_results`]; `None`
/// for instructions outside the family.
#[allow(unused_variables)]
fn emit_pure(
    resolve: &Resolve,
    params: &Vec<Vec<char>>,
    inst: &Instruction,
    operands: &Vec<Vec<char>>,
) -> (r: Option<Result<Vec<Vec<char>>, GenError>>)
    ensures
        r matches Some(x) ==> (x matches Ok(v) ==> spec_pure_results(
            *resolve,
            params@,
            *inst,
            texts_of(operands@),
        ) == Some(texts_of(v@))),
        r is None ==> spec_pure_results(*resolve, params@, *inst, texts_of(operands@)) is None,
        spec_pure_results(*resolve, params@, *inst, texts_of(operands@)) matches Some(exp) ==> (
        r matches Some(x) && x matches Ok(v) && texts_of(v@) == exp),
        (match *inst {
            Instruction::HandleLift { .. } => r is None,
            Instruction::FlagsLower { .. } => r is None,
            Instruction::FlagsLift { .. } => r is None,
            Instruction::VariantLower { .. } => r is None,
            Instruction::Return { .. } => r is None,
            Instruction::ListCanonLift { .. } => r is None,
            Instruction::CallWasm { .. } => r is None,
            _ => true,
        }),
{
    let one: bool = operands.len() == 1;
    let ghost ops = texts_of(operands@);
    proof {
        if operands@.len() == 1 {
            assert(ops[0] == operands@[0]@);
        }
    }
    match inst {
        Instruction::GetArg { nth } => {
            if *nth < params.len() {
                let mut v: Vec<char> = Vec::new();
                push_chars(&mut v, &params[*nth]);
                proof {
                    assert(v@ =~= params@[*nth as int]@);
                }
                Some(Ok(one_result(v)))
            } else {
                Some(Err(GenError::BadInstruction))
            }
        },
        Instruction::I32Const { val } => {
            let mut v: Vec<char> = Vec::new();
            push_i32(&mut v, *val);
            proof {
                assert(v@ =~= spec_i32_text(*val));
            }
            Some(Ok(one_result(v)))
        },
        Instruction::ConstZero { n } => {
            let nn = *n;
            let mut res: Vec<Vec<char>> = Vec::new();
            let mut i: usize = 0;
            while i < nn
                invariant
                    i <= nn,
                    texts_of(res@) == Seq::new(i as nat, |k: int| "0"@),
                decreases nn - i,
            {
                let ghost r0 = res@;
                res.push(str_chars("0"));
                proof {
                    lemma_texts_push(r0, res@.last());
                    assert(texts_of(res@) =~= Seq::new((i + 1) as nat, |k: int| "0"@));
                }
                i += 1;
            }
            Some(Ok(res))
        },
        Instruction::U8FromI32 => Some(wrap1(operands, "byte(", ")")),
        Instruction::S8FromI32 => Some(wrap1(operands, "int8(", ")")),
        Instruction::U16FromI32 => Some(wrap1(operands, "uint16(", ")")),
        Instruction::S16FromI32 => Some(wrap1(operands, "int16(", ")")),
        Instruction::U32FromI32 => Some(wrap1(operands, "uint32(", ")")),
        Instruction::S32FromI32 | Instruction::S64FromI64 => Some(copy1(operands)),
        Instruction::U64FromI64 => Some(wrap1(operands, "uint64(", ")")),
        Instruction::I32FromU8 | Instruction::I32FromS8 | Instruction::I32FromU16
            | Instruction::I32FromS16 | Instruction::I32FromU32 => Some(
            wrap1(operands, "int32(", ")"),
        ),
        Instruction::I32FromS32 | Instruction::I64FromS64 => Some(copy1(operands)),
        Instruction::I64FromU64 => Some(wrap1(operands, "int64(", ")")),
        Instruction::CoreF32FromF32 | Instruction::CoreF64FromF64 | Instruction::F32FromCoreF32
            | Instruction::F64FromCoreF64 => Some(copy1(operands)),
        Instruction::CharFromI32 => Some(wrap1(operands, "uint32(", ")")),
        Instruction::I32FromChar => Some(wrap1(operands, "int32(", ")")),
        Instruction::BoolFromI32 => Some(wrap1(operands, "((", ") <> 0)")),
        Instruction::I32FromBool => Some(wrap1(operands, "int32(ord(", "))")),
        Instruction::HandleLower => Some(wrap1(operands, "(", ").__handle")),
        Instruction::EnumLower => Some(wrap1(operands, "int32(", ")")),
        Instruction::EnumLift => Some(copy1(operands)),
        Instruction::RecordLower { ty } => {
            if !one || *ty >= resolve.types.len() {
                return Some(Err(GenError::BadInstruction));
            }
            match &resolve.types[*ty].kind {
                TypeDefKind::Record(fields) => {
                    let mut res: Vec<Vec<char>> = Vec::new();
                    let mut i: usize = 0;
                    let ghost goal = Seq::new(
                        fields@.len(),
                        |k: int|
                            "("@ + ops[0] + ")."@ + crate::ident::pascal_ident_of(
                                fields@[k].name@,
                            ),
                    );
                    while i < fields.len()
                        invariant
                            i <= fields@.len(),
                            one,
                            operands@.len() == 1,
                            ops == texts_of(operands@),
                            goal == Seq::new(
                                fields@.len(),
                                |k: int|
                                    "("@ + ops[0] + ")."@ + crate::ident::pascal_ident_of(
                                        fields@[k].name@,
                                    ),
                            ),
                            texts_of(res@) == goal.take(i as int),
                        decreases fields@.len() - i,
                    {
                        let mut v = str_chars("(");
                        push_chars(&mut v, &operands[0]);
                        push_str(&mut v, ").");
                        let pid = crate::ident::to_pascal_ident(&fields[i].name);
                        push_chars(&mut v, &pid);
                        let ghost r0 = res@;
                        let ghost vv = v@;
                        res.push(v);
                        proof {
                            lemma_texts_push(r0, res@.last());
                            assert(goal.take(i + 1).drop_last() =~= goal.take(i as int));
                            assert(goal.take(i + 1).last() == goal[i as int]);
                            assert(vv == goal[i as int]);
                            assert(texts_of(res@) =~= goal.take(i + 1));
                        }
                        i += 1;
                    }
                    proof {
                        assert(goal.take(fields@.len() as int) =~= goal);
                    }
                    Some(Ok(res))
                },
                _ => Some(Err(GenError::BadInstruction)),
            }
        },
        Instruction::TupleLower { ty } => {
            if !one || *ty >= resolve.types.len() {
                return Some(Err(GenError::BadInstruction));
            }
            match &resolve.types[*ty].kind {
                TypeDefKind::Tuple(ts) => {
                    let mut res: Vec<Vec<char>> = Vec::new();
                    let mut i: usize = 0;
                    let ghost goal = Seq::new(
                        ts@.len(),
                        |k: int| "("@ + ops[0] + ").f"@ + crate::text::dec_digits(k as nat),
                    );
                    while i < ts.len()
                        invariant
                            i <= ts@.len(),
                            one,
                            operands@.len() == 1,
                            ops == texts_of(operands@),
                            goal == Seq::new(
                                ts@.len(),
                                |k: int|
                                    "("@ + ops[0] + ").f"@ + crate::text::dec_digits(k as nat),
                            ),
                            texts_of(res@) == goal.take(i as int),
                        decreases ts@.len() - i,
                    {
                        let mut v = str_chars("(");
                        push_chars(&mut v, &operands[0]);
                        push_str(&mut v, ").f");
                        push_usize(&mut v, i);
                        let ghost r0 = res@;
                        let ghost vv = v@;
                        res.push(v);
                        proof {
                            lemma_texts_push(r0, res@.last());
                            assert(goal.take(i + 1).drop_last() =~= goal.take(i as int));
                            assert(goal.take(i + 1).last() == goal[i as int]);
                            assert(vv == goal[i as int]);
                            assert(texts_of(res@) =~= goal.take(i + 1));
                        }
                        i += 1;
                    }
                    proof {
                        assert(goal.take(ts@.len() as int) =~~= goal);
                    }
                    Some(Ok(res))
                },
                _ => Some(Err(GenError::BadInstruction)),
            }
        },
        Instruction::ListCanonLower | Instruction::StringLower => {
            if !one {
                return Some(Err(GenError::BadInstruction));
            }
            let mut a = str_chars("Pbyte((");
            push_chars(&mut a, &operands[0]);
            push_str(&mut a, ").ptr)");
            let mut b = str_chars("(");
            push_chars(&mut b, &operands[0]);
            push_str(&mut b, ").len");
            let ghost av = a@;
            let ghost bv = b@;
            let mut res: Vec<Vec<char>> = Vec::new();
            res.push(a);
            proof {
                lemma_texts_push(Seq::empty(), res@.last());
            }
            let ghost r1 = res@;
            res.push(b);
            proof {
                lemma_texts_push(r1, res@.last());
                assert(texts_of(res@) =~= seq![
                    "Pbyte(("@ + ops[0] + ").ptr)"@,
                    "("@ + ops[0] + ").len"@,
                ]);
            }
            Some(Ok(res))
        },
        Instruction::IterElem => Some(Ok(one_result(str_chars("e")))),
        Instruction::IterBasePointer => Some(Ok(one_result(str_chars("base")))),
        Instruction::I32Load { offset } => Some(load1(operands, "Pint32(", *offset, ")^")),
        Instruction::I64Load { offset } => Some(load1(operands, "Pint64(", *offset, ")^")),
        Instruction::F32Load { offset } => Some(load1(operands, "Psingle(", *offset, ")^")),
        Instruction::F64Load { offset } => Some(load1(operands, "Pdouble(", *offset, ")^")),
        Instruction::PointerLoad { offset } => Some(load1(operands, "PPbyte(", *offset, ")^")),
        Instruction::LengthLoad { offset } => Some(load1(operands, "PSizeUInt(", *offset, ")^")),
        Instruction::I32Load8U { offset } => Some(
            load1(operands, "int32(Pbyte(", *offset, ")^)"),
        ),
        Instruction::I32Load8S { offset } => Some(
            load1(operands, "int32(Pint8(", *offset, ")^)"),
        ),
        Instruction::I32Load16U { offset } => Some(
            load1(operands, "int32(Puint16(", *offset, ")^)"),
        ),
        Instruction::I32Load16S { offset } => Some(
            load1(operands, "int32(Pint16(", *offset, ")^)"),
        ),
        Instruction::Flush { amt } => {
            if operands.len() != *amt {
                return Some(Err(GenError::BadInstruction));
            }
            let mut res: Vec<Vec<char>> = Vec::new();
            let mut i: usize = 0;
            while i < operands.len()
                invariant
                    i <= operands@.len(),
                    texts_of(res@) == texts_of(operands@).take(i as int),
                decreases operands@.len() - i,
            {
                let mut v: Vec<char> = Vec::new();
                push_chars(&mut v, &operands[i]);
                proof {
                    assert(v@ =~= operands@[i as int]@);
                }
                let ghost r0 = res@;
                res.push(v);
                proof {
                    lemma_texts_push(r0, res@.last());
                    assert(texts_of(res@) =~= texts_of(operands@).take(i + 1));
                }
                i += 1;
            }
            proof {
                assert(texts_of(operands@).take(operands@.len() as int) =~~= texts_of(operands@));
            }
            Some(Ok(res))
        },
        _ => None,
    }
}

/// A single result expression.
fn one_result(v: Vec<char>) -> (r: Vec<Vec<char>>)
    ensures
        texts_of(r@) == seq![v@],
{
    let ghost vv = v@;
    let mut r: Vec<Vec<char>> = Vec::new();
    r.push(v);
    proof {
        lemma_texts_push(Seq::empty(), r@.last());
        assert(texts_of(r@) =~= seq![vv]);
    }
    r
}

/// The single operand passed through unchanged; an error unless there is
/// exactly one operand.
fn copy1(operands: &Vec<Vec<char>>) -> (r: Result<Vec<Vec<char>>, GenError>)
    ensures
        r is Ok <==> operands@.len() == 1,
        r matches Ok(v) ==> texts_of(v@) == seq![operands@[0]@],
{
    if operands.len() != 1 {
        return Err(GenError::BadInstruction);
    }
    let mut v: Vec<char> = Vec::new();
    push_chars(&mut v, &operands[0]);
    proof {
        assert(v@ =~= operands@[0]@);
    }
    Ok(one_result(v))
}

/// One operand wrapped as `pre ... post`; an error unless there is exactly
/// one operand.
fn wrap1(operands: &Vec<Vec<char>>, pre: &str, post: &str) -> (r: Result<Vec<Vec<char>>, GenError>)
    ensures
        r is Ok <==> operands@.len() == 1,
        r matches Ok(v) ==> texts_of(v@) == seq![pre@ + operands@[0]@ + post@],
{
    if operands.len() != 1 {
        return Err(GenError::BadInstruction);
    }
    let mut v = str_chars(pre);
    push_chars(&mut v, &operands[0]);
    push_str(&mut v, post);
    Ok(one_result(v))
}

/// A load expression `pre op + offset post`; an error unless there is exactly
/// one operand.
fn load1(operands: &Vec<Vec<char>>, pre: &str, offset: usize, post: &str) -> (r: Result<
    Vec<Vec<char>>,
    GenError,
>)
    ensures
        r is Ok <==> operands@.len() == 1,
        r matches Ok(v) ==> texts_of(v@) == seq![
            pre@ + operands@[0]@ + " + "@ + crate::text::dec_digits(offset as nat) + post@
        ],
{
    if operands.len() != 1 {
        return Err(GenError::BadInstruction);
    }
    let mut v = str_chars(pre);
    push_chars(&mut v, &operands[0]);
    push_str(&mut v, " + ");
    push_usize(&mut v, offset);
    push_str(&mut v, post);
    Ok(one_result(v))
}

/// The body state after the deferred drop calls for `borrows[i..]` are
/// appended: for each recorded borrow, a guarded call of its resource's drop
/// import. `None` when a borrow names an unregistered resource.
pub open spec fn spec_drops(
    m: SourceModel,
    res: crate::gen::Resources,
    borrows: Seq<DroppableBorrow>,
    i: int,
) -> Option<SourceModel>
    decreases borrows.len() - i,
    when 0 <= i <= borrows.len()
{
    if i >= borrows.len() {
        Some(m)
    } else {
        let b = borrows[i];
        if res.defined(b.ty as int) {
            let m1 = source_push(m, "if ("@ + b.name@ + " != 0) {\n"@);
            let m2 = source_push(
                m1,
                "  "@ + res.info_of(b.ty as int).drop_fn@ + "("@ + b.name@ + ");\n"@,
            );
            let m3 = source_push(m2, "}\n"@);
            spec_drops(m3, res, borrows, i + 1)
        } else {
            None
        }
    }
}

/// The body state an export return starts from: the borrow declarations
/// spliced in front of the body built so far.
pub open spec fn spec_return_base(decls: SourceModel, body: SourceModel) -> SourceModel {
    SourceModel {
        s: decls.s + body.s,
        indent: if decls.indent + body.indent <= crate::source::MAX_INDENT as nat {
            (decls.indent + body.indent) as nat
        } else {
            crate::source::MAX_INDENT as nat
        },
        in_line_comment: body.in_line_comment,
        continuing_line: decls.continuing_line,
    }
}

/// The rendered store statement `loc := op;`.
pub open spec fn spec_store_stmt(m: SourceModel, loc: Seq<char>, op: Seq<char>) -> SourceModel {
    source_push(source_push(source_push(source_push(m, loc), " := "@), op), ";\n"@)
}

/// Whether `ty` is a flags type that travels as one core word (at most 32
/// members).
pub open spec fn spec_flags_one_word(resolve: Resolve, ty: int) -> bool {
    0 <= ty < resolve.types.len() && match resolve.types[ty].kind {
        TypeDefKind::Flags(fs) => fs.len() < usize::MAX - 31 && match crate::wit::spec_flags_repr(
            fs.len() as nat,
        ) {
            crate::wit::FlagsRepr::U8 => true,
            crate::wit::FlagsRepr::U16 => true,
            crate::wit::FlagsRepr::U32(w) => w <= 1,
        },
        _ => false,
    }
}

/// Whether `ty` is a flags type that travels as two 32-bit words (33 to 64
/// members).
pub open spec fn spec_flags_two_words(resolve: Resolve, ty: int) -> bool {
    0 <= ty < resolve.types.len() && match resolve.types[ty].kind {
        TypeDefKind::Flags(fs) => fs.len() < usize::MAX - 31 && crate::wit::spec_flags_repr(
            fs.len() as nat,
        ) == crate::wit::FlagsRepr::U32(2usize),
        _ => false,
    }
}

/// The expression reconstructing a two-word flags value: the low half OR-ed
/// with the high half shifted left 32. Joining the halves this way reproduces
/// the mask bit for bit; [`crate::casts::lemma_flags_round_trip`] states that
/// law of the underlying arithmetic.
pub open spec fn spec_flags_lift_text(name: Seq<char>, lo: Seq<char>, hi: Seq<char>) -> Seq<
    char,
> {
    "(("@ + name + ") ("@ + lo + ")) | ((("@ + name + ") ("@ + hi + ")) << 32)"@
}

/// The import-side return of a flattened option: the payload stored through
/// the out-parameter, then `exit` of the discriminant (true iff some; the
/// slot is unspecified when false).
pub open spec fn spec_option_import_return(
    m: SourceModel,
    retptr: Seq<char>,
    op: Seq<char>,
) -> SourceModel {
    let m1 = spec_store_stmt(m, retptr + "^"@, op + ".val"@);
    source_push(source_push(source_push(m1, "exit("@), op), ".is_some);\n"@)
}

/// The import-side return of a flattened result: on the ok path the ok
/// payload (where present) goes through the first out-parameter and the
/// function exits true; on the err path the err payload (where present) goes
/// through the remaining out-parameter and the function exits false. Each
/// path stores only its own slot.
pub open spec fn spec_result_import_return(
    m: SourceModel,
    retptrs: Seq<Vec<char>>,
    op: Seq<char>,
    has_ok: bool,
    has_err: bool,
) -> SourceModel {
    let m1 = source_push(source_push(source_push(m, "if not "@), op), ".is_err then\nbegin\n"@);
    let m2 = if has_ok {
        spec_store_stmt(m1, retptrs[0]@ + "^"@, op + ".ok"@)
    } else {
        m1
    };
    let m3 = source_push(m2, "exit(true);\nend\nelse\nbegin\n"@);
    let m4 = if has_err {
        spec_store_stmt(
            m3,
            retptrs[if has_ok {
                1int
            } else {
                0int
            }]@ + "^"@,
            op + ".err"@,
        )
    } else {
        m3
    };
    source_push(m4, "exit(false);\nend;\n"@)
}

/// The first `i` call arguments joined with `, `.
pub open spec fn spec_args_prefix(ops: Seq<Seq<char>>, i: int) -> Seq<char>
    decreases i,
{
    if i <= 0 {
        Seq::<char>::empty()
    } else {
        spec_args_prefix(ops, i - 1) + (if i - 1 > 0 {
            ", "@
        } else {
            Seq::<char>::empty()
        }) + ops[i - 1]
    }
}

/// What lifting a handle guarantees. A borrow of a resource this world
/// exports becomes a direct pointer cast and neither the body, the borrow
/// declarations nor the deferred-drop list change; a borrow of an imported
/// resource becomes the canonical handle wrapper and, in an export body with
/// autodrop on, exactly one fresh temporary is declared (initialized to
/// zero), assigned the raw operand in the body, and recorded for deferred
/// drop under the dealiased resource identity.
pub open spec fn spec_handle_lift_post(
    pre: FunctionBindgen,
    post: FunctionBindgen,
    gen: Pascal,
    resolve: Resolve,
    handle: Handle,
    ty: usize,
    ops: Seq<Seq<char>>,
    res: Seq<Seq<char>>,
) -> bool {
    match handle {
        Handle::Borrow(rs) => {
            let origin = resolve.spec_dealias(rs as int);
            &&& gen.resources.defined(origin)
            &&& (gen.resources.info_of(origin).direction == Direction::Export ==> {
                &&& post.borrows == pre.borrows
                &&& post.borrow_decls == pre.borrow_decls
                &&& post.src == pre.src
                &&& res == seq![
                    "(("@ + crate::gen::spec_type_name(
                        gen.world@,
                        gen.type_names,
                        Type::Id(origin as usize),
                    )->Some_0 + "*) "@ + ops[0] + ")"@
                ]
            })
            &&& (gen.resources.info_of(origin).direction == Direction::Import ==> {
                &&& res == seq![
                    crate::gen::spec_type_name(gen.world@, gen.type_names, Type::Id(ty))->Some_0
                        + "("@ + ops[0] + ")"@
                ]
                &&& (if !pre.in_import && gen.opts.autodrop_borrows == crate::gen::Enabled::Yes {
                    &&& post.borrows@.len() == pre.borrows@.len() + 1
                    &&& post.borrows@.last().ty == origin as usize
                    &&& post.borrows@.drop_last() == pre.borrows@
                    &&& post.borrow_decls@ == source_push(
                        source_push(
                            source_push(pre.borrow_decls@, "int32_t "@),
                            post.borrows@.last().name@,
                        ),
                        " = 0;\n"@,
                    )
                    &&& post.src@ == source_push(
                        source_push(
                            source_push(
                                source_push(pre.src@, post.borrows@.last().name@),
                                " = "@,
                            ),
                            ops[0],
                        ),
                        ";\n"@,
                    )
                } else {
                    &&& post.borrows == pre.borrows
                    &&& post.borrow_decls == pre.borrow_decls
                    &&& post.src == pre.src
                })
            })
        },
        Handle::Own(_) => post.borrows == pre.borrows && post.borrow_decls == pre.borrow_decls,
    }
}

/// When lifting a handle is owed success: one operand, the resource in the
/// table and registered, and the needed canonical name defined.
pub open spec fn spec_handle_lift_ready(
    gen: Pascal,
    resolve: Resolve,
    handle: Handle,
    ty: usize,
    ops: Seq<Seq<char>>,
) -> bool {
    match handle {
        Handle::Borrow(rs) => ops.len() == 1 && rs < resolve.types.len() && {
            let origin = resolve.spec_dealias(rs as int);
            &&& gen.resources.defined(origin)
            &&& (gen.resources.info_of(origin).direction == Direction::Export
                ==> gen.type_names.defined(origin))
            &&& (gen.resources.info_of(origin).direction == Direction::Import
                ==> gen.type_names.defined(ty as int))
        },
        Handle::Own(rs) => ops.len() == 1 && rs < resolve.types.len() && gen.resources.defined(
            resolve.spec_dealias(rs as int),
        ) && gen.type_names.defined(ty as int),
    }
}

impl FunctionBindgen {
    /// Render one instruction: consume the given operand expressions, append
    /// statements to the body, and produce the result expressions.
    ///
    /// The pure instructions produce exactly the expressions
    /// [`spec_pure_results`] gives. Lifting a borrow of a resource this world
    /// exports reinterprets the operand as a direct pointer and records no
    /// deferred drop; a borrow of an imported resource is recorded for
    /// deferred drop exactly when this is an export body and autodrop is on.
    /// The export return splices the recorded drops, one guarded call each,
    /// before the return statement. Unsupported features abort with an error.
    pub fn emit(
        &mut self,
        gen: &mut Pascal,
        resolve: &Resolve,
        inst: &Instruction,
        operands: &Vec<Vec<char>>,
    ) -> (r: Result<Vec<Vec<char>>, GenError>)
        requires
            resolve.wf(),
        ensures
            gen_frame(*old(gen), *final(gen)),
            final(self).in_import == old(self).in_import,
            final(self).sig == old(self).sig,
            final(self).params == old(self).params,
            r matches Ok(res) ==> (spec_pure_results(
                *resolve,
                old(self).params@,
                *inst,
                texts_of(operands@),
            ) matches Some(exp) ==> texts_of(res@) == exp),
            spec_pure_results(*resolve, old(self).params@, *inst, texts_of(operands@)) is Some
                ==> (r is Ok && *final(self) == *old(self) && *final(gen) == *old(gen)),
            r matches Ok(res) ==> (match *inst {
                Instruction::Bitcasts { casts } => texts_of(res@) == Seq::new(
                    casts@.len(),
                    |i: int| crate::casts::spec_cast_text(texts_of(operands@)[i], casts@[i]),
                ),
                _ => true,
            }),
            r matches Ok(res) ==> (match *inst {
                Instruction::HandleLift { handle, ty } => spec_handle_lift_post(
                    *old(self),
                    *final(self),
                    *old(gen),
                    *resolve,
                    handle,
                    ty,
                    texts_of(operands@),
                    texts_of(res@),
                ),
                _ => true,
            }),
            (match *inst {
                Instruction::HandleLift { handle, ty } => spec_handle_lift_ready(
                    *old(gen),
                    *resolve,
                    handle,
                    ty,
                    texts_of(operands@),
                ),
                _ => false,
            }) ==> r is Ok,
            (match *inst {
                Instruction::FlagsLower { ty } => spec_flags_one_word(*resolve, ty as int)
                    && operands@.len() == 1,
                Instruction::FlagsLift { ty } => spec_flags_one_word(*resolve, ty as int)
                    && operands@.len() == 1,
                _ => false,
            }) ==> (r matches Ok(res) && texts_of(res@) == seq![texts_of(operands@)[0]]
                && *final(self) == *old(self) && *final(gen) == *old(gen)),
            (match *inst {
                Instruction::FlagsLift { ty } => spec_flags_two_words(*resolve, ty as int)
                    && operands@.len() == 2 && old(gen).type_names.defined(ty as int),
                _ => false,
            }) ==> (match *inst {
                Instruction::FlagsLift { ty } => r matches Ok(res) && texts_of(res@) == seq![
                    spec_flags_lift_text(
                        old(gen).type_names.name_of(ty as int),
                        texts_of(operands@)[0],
                        texts_of(operands@)[1],
                    )
                ] && *final(self) == *old(self) && *final(gen) == *old(gen),
                _ => true,
            }),
            r matches Ok(res) ==> (match *inst {
                Instruction::VariantLower { ty, result_types } => (ty < resolve.types.len()
                    && match resolve.types[ty as int].kind {
                    TypeDefKind::Variant(cs) => {
                        &&& old(self).blocks@.len() >= cs.len()
                        &&& old(self).payloads@.len() >= cs.len()
                        &&& final(self).blocks@ == old(self).blocks@.take(
                            old(self).blocks@.len() - cs.len(),
                        )
                        &&& final(self).payloads@ == old(self).payloads@.take(
                            old(self).payloads@.len() - cs.len(),
                        )
                        &&& res@.len() == result_types@.len()
                    },
                    _ => false,
                }),
                _ => true,
            }),
            (match *inst {
                Instruction::CallWasm { sig } => sig.results@.len() == 0,
                _ => false,
            }) ==> (r matches Ok(res) && res@.len() == 0 && *final(gen) == *old(gen)
                && final(self).src@ == source_push(
                old(self).src@,
                old(self).func_to_call@ + "("@ + spec_args_prefix(
                    texts_of(operands@),
                    operands@.len() as int,
                ) + ");\n"@,
            )),
            old(self).in_import ==> (match *inst {
                Instruction::Return { .. } => (match old(self).sig.ret.scalar {
                    Some(Scalar::OptionBool(_)) => operands@.len() == 1 ==> {
                        &&& (r is Ok <==> old(self).ret_store_cnt < old(
                            self,
                        ).sig.retptrs@.len())
                        &&& (r is Ok ==> final(self).ret_store_cnt == old(self).ret_store_cnt
                            + 1 && final(self).src@ == spec_option_import_return(
                            old(self).src@,
                            old(self).sig.retptrs@[old(self).ret_store_cnt as int]@,
                            texts_of(operands@)[0],
                        ))
                    },
                    Some(Scalar::ResultBool(ok, err)) => (operands@.len() == 1 && old(
                        self,
                    ).ret_store_cnt == 0 && old(self).sig.retptrs@.len() <= 2) ==> {
                        let need = (if ok is Some {
                            1int
                        } else {
                            0int
                        }) + (if err is Some {
                            1int
                        } else {
                            0int
                        });
                        &&& (r is Ok <==> old(self).sig.retptrs@.len() == need)
                        &&& (r is Ok ==> final(self).ret_store_cnt == old(
                            self,
                        ).sig.retptrs@.len() && final(self).src@ == spec_result_import_return(
                            old(self).src@,
                            old(self).sig.retptrs@,
                            texts_of(operands@)[0],
                            ok is Some,
                            err is Some,
                        ))
                    },
                    _ => true,
                }),
                _ => true,
            }),
            r is Ok && !old(self).in_import ==> (match *inst {
                Instruction::Return { amt } => {
                    let base = spec_return_base(old(self).borrow_decls@, old(self).src@);
                    &&& spec_drops(base, old(gen).resources, old(self).borrows@, 0) is Some
                    &&& final(self).src@ == (if amt == 1 {
                        source_push(
                            spec_drops(base, old(gen).resources, old(self).borrows@, 0)->Some_0,
                            "return "@ + texts_of(operands@)[0] + ";\n"@,
                        )
                    } else {
                        spec_drops(base, old(gen).resources, old(self).borrows@, 0)->Some_0
                    })
                },
                _ => true,
            }),
            !old(self).in_import ==> (match *inst {
                Instruction::Return { amt } => (amt <= 1 && (amt == 1 ==> operands@.len() >= 1)
                    && (forall|j: int|
                    0 <= j < old(self).borrows@.len() ==> old(gen).resources.defined(
                        (#[trigger] old(self).borrows@[j]).ty as int,
                    ))) ==> r is Ok,
                _ => true,
            }),
    {
        match emit_pure(resolve, &self.params, inst, operands) {
            Some(r2) => {
                return r2;
            },
            None => {},
        }
        match inst {
            Instruction::Bitcasts { casts } => self.emit_bitcasts(gen, resolve, casts, operands),
            Instruction::RecordLift { ty } => self.emit_record_lift(gen, resolve, ty, operands),
            Instruction::TupleLift { ty } => self.emit_tuple_lift(gen, resolve, ty, operands),
            Instruction::HandleLift { handle, ty } => self.emit_handle_lift(
                gen,
                resolve,
                handle,
                ty,
                operands,
            ),
            Instruction::FlagsLower { ty } => self.emit_flags_lower(gen, resolve, ty, operands),
            Instruction::FlagsLift { ty } => self.emit_flags_lift(gen, resolve, ty, operands),
            Instruction::VariantPayloadName => self.emit_payload_name(gen, resolve, operands),
            Instruction::ListCanonLift { element, ty } => self.emit_list_canon_lift(
                gen,
                resolve,
                element,
                ty,
                operands,
            ),
            Instruction::StringLift => self.emit_string_lift(gen, resolve, operands),
            Instruction::ListLower => self.emit_list_lower(gen, resolve, operands),
            Instruction::ListLift { element, ty } => self.emit_list_lift(
                gen,
                resolve,
                element,
                ty,
                operands,
            ),
            Instruction::CallWasm { sig } => self.emit_call_wasm(gen, resolve, sig, operands),
            Instruction::GuestDeallocate => self.emit_guest_dealloc(gen, resolve, operands),
            Instruction::GuestDeallocateString => self.emit_guest_dealloc_string(
                gen,
                resolve,
                operands,
            ),
            Instruction::GuestDeallocateVariant { blocks } => self.emit_guest_dealloc_variant(
                gen,
                resolve,
                blocks,
                operands,
            ),
            Instruction::GuestDeallocateList { element_size } => self.emit_guest_dealloc_list(
                gen,
                resolve,
                element_size,
                operands,
            ),
            Instruction::Return { amt } => {
                if self.in_import {
                    self.emit_import_return(*amt, operands)
                } else {
                    self.emit_export_return(gen, *amt, operands)
                }
            },
            Instruction::I32Store { offset } => self.emit_store("int32", *offset, operands),
            Instruction::I64Store { offset } => self.emit_store("int64", *offset, operands),
            Instruction::F32Store { offset } => self.emit_store("single", *offset, operands),
            Instruction::F64Store { offset } => self.emit_store("double", *offset, operands),
            Instruction::I32Store8 { offset } => self.emit_store("int8", *offset, operands),
            Instruction::I32Store16 { offset } => self.emit_store("int16", *offset, operands),
            Instruction::PointerStore { offset } => self.emit_store(
                "Puint8_t",
                *offset,
                operands,
            ),
            Instruction::LengthStore { offset } => self.emit_store("SizeUInt", *offset, operands),
            Instruction::VariantLower { ty, result_types } => self.emit_variant_lower(
                gen,
                resolve,
                *ty,
                result_types,
                operands,
            ),
            Instruction::VariantLift { ty } => self.emit_variant_lift(gen, resolve, *ty, operands),
            Instruction::OptionLower { payload, ty, result_types } => self.emit_option_lower(
                gen,
                payload,
                result_types,
                operands,
            ),
            Instruction::OptionLift { ty } => self.emit_option_lift(gen, *ty, operands),
            Instruction::ResultLower { ty, result_types } => self.emit_result_lower(
                gen,
                resolve,
                *ty,
                result_types,
                operands,
            ),
            Instruction::ResultLift { ty } => self.emit_result_lift(gen, resolve, *ty, operands),
            Instruction::CallInterface { params, result } => self.emit_call_interface(
                gen,
                params,
                result,
                operands,
            ),
            _ => Err(GenError::Unsupported),
        }
    }


    fn emit_bitcasts(&mut self, gen: &mut Pascal, resolve: &Resolve, casts: &Vec<Bitcast>, operands: &Vec<Vec<char>>) -> (r: Result<Vec<Vec<char>>, GenError>)
        requires
            resolve.wf(),
        ensures
            gen_frame(*old(gen), *final(gen)),
            final(self).in_import == old(self).in_import,
            final(self).sig == old(self).sig,
            final(self).params == old(self).params,
            r matches Ok(res) ==> texts_of(res@) == Seq::new(
                casts@.len(),
                |i: int| crate::casts::spec_cast_text(texts_of(operands@)[i], casts@[i]),
            ),
    {
        if operands.len() != casts.len() {
            return Err(GenError::BadInstruction);
        }
        let mut res: Vec<Vec<char>> = Vec::new();
        let mut i: usize = 0;
        let ghost goal = Seq::new(
            casts@.len(),
            |k: int| crate::casts::spec_cast_text(texts_of(operands@)[k], casts@[k]),
        );
        while i < casts.len()
            invariant
                i <= casts@.len(),
                operands@.len() == casts@.len(),
                gen_frame(*old(gen), *gen),
                goal == Seq::new(
                    casts@.len(),
                    |k: int|
                        crate::casts::spec_cast_text(texts_of(operands@)[k], casts@[k]),
                ),
                texts_of(res@) == goal.take(i as int),
            decreases casts@.len() - i,
        {
            let v = crate::casts::perform_cast(
                &operands[i],
                &casts[i],
                &mut gen.union_needs,
            );
            let ghost r0 = res@;
            res.push(v);
            proof {
                lemma_texts_push(r0, res@.last());
                assert(goal.take(i + 1).drop_last() =~= goal.take(i as int));
                assert(texts_of(res@) =~= goal.take(i + 1));
            }
            i += 1;
        }
        proof {
            assert(goal.take(casts@.len() as int) =~~= goal);
        }
        Ok(res)
    }


    fn emit_record_lift(&mut self, gen: &mut Pascal, resolve: &Resolve, ty: &usize, operands: &Vec<Vec<char>>) -> (r: Result<Vec<Vec<char>>, GenError>)
        requires
            resolve.wf(),
        ensures
            gen_frame(*old(gen), *final(gen)),
            final(self).in_import == old(self).in_import,
            final(self).sig == old(self).sig,
            final(self).params == old(self).params,
    {
        let name = match gen.ty_name(&Type::Id(*ty)) {
            Ok(n) => n,
            Err(e) => {
                return Err(e);
            },
        };
        if *ty >= resolve.types.len() {
            return Err(GenError::BadTypeIndex);
        }
        let prefix = match strip_t(&name) {
            Ok(p) => p,
            Err(e) => {
                return Err(e);
            },
        };
        match &resolve.types[*ty].kind {
            TypeDefKind::Record(fields) => {
                if fields.len() != operands.len() {
                    return Err(GenError::BadInstruction);
                }
                let mut result: Vec<char> = Vec::new();
                push_chars(&mut result, &prefix);
                push_str(&mut result, "_create(\n");
                let mut i: usize = 0;
                while i < fields.len()
                    invariant
                        i <= fields@.len(),
                        fields@.len() == operands@.len(),
                        resolve.wf(),
                        resolve.types.len() > *ty,
                        gen_frame(*old(gen), *gen),
                        resolve.types[*ty as int].kind matches TypeDefKind::Record(f) && f
                            == *fields,
                    decreases fields@.len() - i,
                {
                    proof {
                        assert(resolve.kind_below(
                            resolve.types[*ty as int].kind,
                            *ty as int,
                        ));
                        assert(resolve.ty_below(fields@[i as int].ty, *ty as int));
                    }
                    let fty = fields[i].ty;
                    match gen.push_type_name(&fty, &mut result) {
                        Ok(_) => {},
                        Err(e) => {
                            return Err(e);
                        },
                    }
                    push_str(&mut result, "(");
                    push_chars(&mut result, &operands[i]);
                    push_str(&mut result, "),\n");
                    i += 1;
                }
                trim_trailing_comma(&mut result);
                push_str(&mut result, ")");
                Ok(one_result(result))
            },
            _ => Err(GenError::BadInstruction),
        }
    }


    fn emit_tuple_lift(&mut self, gen: &mut Pascal, resolve: &Resolve, ty: &usize, operands: &Vec<Vec<char>>) -> (r: Result<Vec<Vec<char>>, GenError>)
        requires
            resolve.wf(),
        ensures
            gen_frame(*old(gen), *final(gen)),
            final(self).in_import == old(self).in_import,
            final(self).sig == old(self).sig,
            final(self).params == old(self).params,
    {
        let name = match gen.ty_name(&Type::Id(*ty)) {
            Ok(n) => n,
            Err(e) => {
                return Err(e);
            },
        };
        if *ty >= resolve.types.len() {
            return Err(GenError::BadTypeIndex);
        }
        let prefix = match strip_t(&name) {
            Ok(p) => p,
            Err(e) => {
                return Err(e);
            },
        };
        match &resolve.types[*ty].kind {
            TypeDefKind::Tuple(ts) => {
                if ts.len() != operands.len() {
                    return Err(GenError::BadInstruction);
                }
                let mut result: Vec<char> = Vec::new();
                push_chars(&mut result, &prefix);
                push_str(&mut result, "_create(\n");
                let mut i: usize = 0;
                while i < ts.len()
                    invariant
                        i <= ts@.len(),
                        ts@.len() == operands@.len(),
                        resolve.wf(),
                        resolve.types.len() > *ty,
                        gen_frame(*old(gen), *gen),
                        resolve.types[*ty as int].kind matches TypeDefKind::Tuple(f) && f
                            == *ts,
                    decreases ts@.len() - i,
                {
                    proof {
                        assert(resolve.kind_below(
                            resolve.types[*ty as int].kind,
                            *ty as int,
                        ));
                        assert(resolve.ty_below(ts@[i as int], *ty as int));
                    }
                    let fty = ts[i];
                    match gen.push_type_name(&fty, &mut result) {
                        Ok(_) => {},
                        Err(e) => {
                            return Err(e);
                        },
                    }
                    push_str(&mut result, "(");
                    push_chars(&mut result, &operands[i]);
                    push_str(&mut result, "),\n");
                    i += 1;
                }
                trim_trailing_comma(&mut result);
                push_str(&mut result, ")");
                Ok(one_result(result))
            },
            _ => Err(GenError::BadInstruction),
        }
    }


    fn emit_handle_lift(&mut self, gen: &mut Pascal, resolve: &Resolve, handle: &Handle, ty: &usize, operands: &Vec<Vec<char>>) -> (r: Result<Vec<Vec<char>>, GenError>)
        requires
            resolve.wf(),
        ensures
            gen_frame(*old(gen), *final(gen)),
            final(self).in_import == old(self).in_import,
            final(self).sig == old(self).sig,
            final(self).params == old(self).params,
            r matches Ok(res) ==> spec_handle_lift_post(
                *old(self),
                *final(self),
                *old(gen),
                *resolve,
                *handle,
                *ty,
                texts_of(operands@),
                texts_of(res@),
            ),
            spec_handle_lift_ready(*old(gen), *resolve, *handle, *ty, texts_of(operands@))
                ==> r is Ok,
    {
        if operands.len() != 1 {
            return Err(GenError::BadInstruction);
        }
        let rs = match handle {
            Handle::Borrow(r0) => *r0,
            Handle::Own(r0) => *r0,
        };
        if rs >= resolve.types.len() {
            return Err(GenError::BadTypeIndex);
        }
        let origin = crate::wit::dealias(resolve, rs);
        let is_borrow = matches!(handle, Handle::Borrow(_));
        if is_borrow {
            let dir = match gen.resources.direction(origin) {
                Ok(d) => d,
                Err(e) => {
                    return Err(e);
                },
            };
            if matches!(dir, Direction::Export) {
                // A borrow of a resource this world itself exports: the
                // operand is the guest's own backing memory, so it is
                // reinterpreted as a direct pointer, and nothing is
                // recorded for deferred drop.
                let name = match gen.ty_name(&Type::Id(origin)) {
                    Ok(n) => n,
                    Err(e) => {
                        return Err(e);
                    },
                };
                let mut v = str_chars("((");
                push_chars(&mut v, &name);
                push_str(&mut v, "*) ");
                push_chars(&mut v, &operands[0]);
                push_str(&mut v, ")");
                return Ok(one_result(v));
            }
            let name = match gen.ty_name(&Type::Id(*ty)) {
                Ok(n) => n,
                Err(e) => {
                    return Err(e);
                },
            };
            let mut v: Vec<char> = Vec::new();
            push_chars(&mut v, &name);
            push_str(&mut v, "(");
            push_chars(&mut v, &operands[0]);
            push_str(&mut v, ")");
            let autodrop = matches!(gen.opts.autodrop_borrows, crate::gen::Enabled::Yes);
            if !self.in_import && autodrop {
                // A borrow of an imported resource received by an
                // export body: copy it into a fresh temporary and
                // record it for the deferred drops at return.
                let stem = str_chars("borrow");
                let bname = self.locals.tmp(&stem);
                self.borrow_decls.push_str("int32_t ");
                self.borrow_decls.push_vec(&bname);
                self.borrow_decls.push_str(" = 0;\n");
                self.src.push_vec(&bname);
                self.src.push_str(" = ");
                self.src.push_vec(&operands[0]);
                self.src.push_str(";\n");
                let mut copy: Vec<char> = Vec::new();
                push_chars(&mut copy, &bname);
                let ghost b0 = self.borrows@;
                self.borrows.push(DroppableBorrow { name: copy, ty: origin });
                proof {
                    assert(self.borrows@.drop_last() =~= b0);
                }
            }
            Ok(one_result(v))
        } else {
            let name = match gen.ty_name(&Type::Id(*ty)) {
                Ok(n) => n,
                Err(e) => {
                    return Err(e);
                },
            };
            let mut v: Vec<char> = Vec::new();
            push_chars(&mut v, &name);
            push_str(&mut v, "(");
            push_chars(&mut v, &operands[0]);
            push_str(&mut v, ")");
            Ok(one_result(v))
        }
    }


    fn emit_flags_lower(&mut self, gen: &mut Pascal, resolve: &Resolve, ty: &usize, operands: &Vec<Vec<char>>) -> (r: Result<Vec<Vec<char>>, GenError>)
        requires
            resolve.wf(),
        ensures
            gen_frame(*old(gen), *final(gen)),
            final(self).in_import == old(self).in_import,
            final(self).sig == old(self).sig,
            final(self).params == old(self).params,
            spec_flags_one_word(*resolve, *ty as int) && operands@.len() == 1 ==> (r matches Ok(
                res,
            ) && texts_of(res@) == seq![texts_of(operands@)[0]] && *final(self) == *old(self)
                && *final(gen) == *old(gen)),
    {
        if operands.len() != 1 || *ty >= resolve.types.len() {
            return Err(GenError::BadInstruction);
        }
        let n: usize = match &resolve.types[*ty].kind {
            TypeDefKind::Flags(fs) => fs.len(),
            _ => {
                return Err(GenError::BadInstruction);
            },
        };
        if n >= usize::MAX - 31 {
            return Err(GenError::Unsupported);
        }
        match crate::wit::flags_repr(n) {
            crate::wit::FlagsRepr::U8 | crate::wit::FlagsRepr::U16 => copy1(operands),
            crate::wit::FlagsRepr::U32(words) => {
                if words <= 1 {
                    copy1(operands)
                } else if words == 2 {
                    let name = match gen.ty_name(&Type::Id(*ty)) {
                        Ok(nm) => nm,
                        Err(e) => {
                            return Err(e);
                        },
                    };
                    let stem = str_chars("flags");
                    let tmp = self.locals.tmp(&stem);
                    self.src.push_vec(&name);
                    self.src.push_str(" ");
                    self.src.push_vec(&tmp);
                    self.src.push_str(" = ");
                    self.src.push_vec(&operands[0]);
                    self.src.push_str(";\n");
                    let mut lo: Vec<char> = Vec::new();
                    push_chars(&mut lo, &tmp);
                    push_str(&mut lo, " & 0xffffffff");
                    let mut hi = str_chars("(");
                    push_chars(&mut hi, &tmp);
                    push_str(&mut hi, " >> 32) & 0xffffffff");
                    let mut res: Vec<Vec<char>> = Vec::new();
                    res.push(lo);
                    res.push(hi);
                    Ok(res)
                } else {
                    Err(GenError::Unsupported)
                }
            },
        }
    }


    fn emit_flags_lift(&mut self, gen: &mut Pascal, resolve: &Resolve, ty: &usize, operands: &Vec<Vec<char>>) -> (r: Result<Vec<Vec<char>>, GenError>)
        requires
            resolve.wf(),
        ensures
            gen_frame(*old(gen), *final(gen)),
            final(self).in_import == old(self).in_import,
            final(self).sig == old(self).sig,
            final(self).params == old(self).params,
            spec_flags_one_word(*resolve, *ty as int) && operands@.len() == 1 ==> (r matches Ok(
                res,
            ) && texts_of(res@) == seq![texts_of(operands@)[0]] && *final(self) == *old(self)
                && *final(gen) == *old(gen)),
            spec_flags_two_words(*resolve, *ty as int) && operands@.len() == 2 && old(
                gen,
            ).type_names.defined(*ty as int) ==> (r matches Ok(res) && texts_of(res@) == seq![
                spec_flags_lift_text(
                    old(gen).type_names.name_of(*ty as int),
                    texts_of(operands@)[0],
                    texts_of(operands@)[1],
                )
            ] && *final(self) == *old(self) && *final(gen) == *old(gen)),
    {
        if *ty >= resolve.types.len() {
            return Err(GenError::BadInstruction);
        }
        let n: usize = match &resolve.types[*ty].kind {
            TypeDefKind::Flags(fs) => fs.len(),
            _ => {
                return Err(GenError::BadInstruction);
            },
        };
        if n >= usize::MAX - 31 {
            return Err(GenError::Unsupported);
        }
        match crate::wit::flags_repr(n) {
            crate::wit::FlagsRepr::U8 | crate::wit::FlagsRepr::U16 => copy1(operands),
            crate::wit::FlagsRepr::U32(words) => {
                if words <= 1 {
                    copy1(operands)
                } else if words == 2 {
                    if operands.len() != 2 {
                        return Err(GenError::BadInstruction);
                    }
                    let name = match gen.ty_name(&Type::Id(*ty)) {
                        Ok(nm) => nm,
                        Err(e) => {
                            return Err(e);
                        },
                    };
                    // Reconstruct the full-width mask: the low half
                    // OR-ed with the high half shifted left 32.
                    let mut v = str_chars("((");
                    push_chars(&mut v, &name);
                    push_str(&mut v, ") (");
                    push_chars(&mut v, &operands[0]);
                    push_str(&mut v, ")) | (((");
                    push_chars(&mut v, &name);
                    push_str(&mut v, ") (");
                    push_chars(&mut v, &operands[1]);
                    push_str(&mut v, ")) << 32)");
                    Ok(one_result(v))
                } else {
                    Err(GenError::Unsupported)
                }
            },
        }
    }


    fn emit_payload_name(&mut self, gen: &mut Pascal, resolve: &Resolve, operands: &Vec<Vec<char>>) -> (r: Result<Vec<Vec<char>>, GenError>)
        requires
            resolve.wf(),
        ensures
            gen_frame(*old(gen), *final(gen)),
            final(self).in_import == old(self).in_import,
            final(self).sig == old(self).sig,
            final(self).params == old(self).params,
    {
        let stem = str_chars("payload");
        let name = self.locals.tmp(&stem);
        let mut v: Vec<char> = Vec::new();
        push_chars(&mut v, &name);
        push_str(&mut v, "^");
        self.payloads.push(name);
        Ok(one_result(v))
    }


    fn emit_list_canon_lift(&mut self, gen: &mut Pascal, resolve: &Resolve, element: &Type, ty: &usize, operands: &Vec<Vec<char>>) -> (r: Result<Vec<Vec<char>>, GenError>)
        requires
            resolve.wf(),
        ensures
            gen_frame(*old(gen), *final(gen)),
            final(self).in_import == old(self).in_import,
            final(self).sig == old(self).sig,
            final(self).params == old(self).params,
    {
        if operands.len() != 2 || *ty >= resolve.types.len() {
            return Err(GenError::BadInstruction);
        }
        proof {
            assert(resolve.ty_below(Type::Id(*ty), resolve.types.len() as int));
        }
        match self.assert_no_droppable_borrows(gen, resolve, &Type::Id(*ty)) {
            Ok(_) => {},
            Err(e) => {
                return Err(e);
            },
        }
        let list_name = match gen.ty_name(&Type::Id(*ty)) {
            Ok(nm) => nm,
            Err(e) => {
                return Err(e);
            },
        };
        let elem_name = match gen.ty_name(element) {
            Ok(nm) => nm,
            Err(e) => {
                return Err(e);
            },
        };
        let prefix = match strip_t(&list_name) {
            Ok(p) => p,
            Err(e) => {
                return Err(e);
            },
        };
        let mut v: Vec<char> = Vec::new();
        push_chars(&mut v, &prefix);
        push_str(&mut v, "_create(P");
        push_chars(&mut v, &elem_name);
        push_str(&mut v, "(");
        push_chars(&mut v, &operands[0]);
        push_str(&mut v, "), ");
        push_chars(&mut v, &operands[1]);
        push_str(&mut v, ")");
        proof {
            assert forall|p: Seq<char>|
                old(gen).type_names.name_of(*ty as int) == p + "_t"@ implies v@ == (p
                + "_create(P"@) + elem_name@ + "("@ + operands@[0]@ + "), "@ + operands@[1]@
                + ")"@ by {
                crate::text::lemma_concat_cancel_right(p, prefix@, "_t"@);
                assert(v@ =~= (p + "_create(P"@) + elem_name@ + "("@ + operands@[0]@ + "), "@
                    + operands@[1]@ + ")"@);
            }
        }
        Ok(one_result(v))
    }


    fn emit_string_lift(&mut self, gen: &mut Pascal, resolve: &Resolve, operands: &Vec<Vec<char>>) -> (r: Result<Vec<Vec<char>>, GenError>)
        requires
            resolve.wf(),
        ensures
            gen_frame(*old(gen), *final(gen)),
            final(self).in_import == old(self).in_import,
            final(self).sig == old(self).sig,
            final(self).params == old(self).params,
    {
        if operands.len() != 2 {
            return Err(GenError::BadInstruction);
        }
        let list_name = match gen.ty_name(&Type::Str) {
            Ok(nm) => nm,
            Err(e) => {
                return Err(e);
            },
        };
        let prefix = match strip_t(&list_name) {
            Ok(p) => p,
            Err(e) => {
                return Err(e);
            },
        };
        let ct = match gen.char_type() {
            Ok(c) => c,
            Err(e) => {
                return Err(e);
            },
        };
        let mut v: Vec<char> = Vec::new();
        push_chars(&mut v, &prefix);
        push_str(&mut v, "_create(P");
        push_str(&mut v, ct);
        push_str(&mut v, "(");
        push_chars(&mut v, &operands[0]);
        push_str(&mut v, "), ");
        push_chars(&mut v, &operands[1]);
        push_str(&mut v, ")");
        Ok(one_result(v))
    }


    fn emit_list_lower(&mut self, gen: &mut Pascal, resolve: &Resolve, operands: &Vec<Vec<char>>) -> (r: Result<Vec<Vec<char>>, GenError>)
        requires
            resolve.wf(),
        ensures
            gen_frame(*old(gen), *final(gen)),
            final(self).in_import == old(self).in_import,
            final(self).sig == old(self).sig,
            final(self).params == old(self).params,
    {
        if operands.len() != 1 {
            return Err(GenError::BadInstruction);
        }
        match self.pop_blocks(1) {
            Ok(_) => {},
            Err(e) => {
                return Err(e);
            },
        }
        let mut a = str_chars("Pbyte((");
        push_chars(&mut a, &operands[0]);
        push_str(&mut a, ").ptr)");
        let mut b = str_chars("(");
        push_chars(&mut b, &operands[0]);
        push_str(&mut b, ").len");
        let mut res: Vec<Vec<char>> = Vec::new();
        res.push(a);
        res.push(b);
        Ok(res)
    }


    fn emit_list_lift(&mut self, gen: &mut Pascal, resolve: &Resolve, element: &Type, ty: &usize, operands: &Vec<Vec<char>>) -> (r: Result<Vec<Vec<char>>, GenError>)
        requires
            resolve.wf(),
        ensures
            gen_frame(*old(gen), *final(gen)),
            final(self).in_import == old(self).in_import,
            final(self).sig == old(self).sig,
            final(self).params == old(self).params,
    {
        if operands.len() != 2 || *ty >= resolve.types.len() {
            return Err(GenError::BadInstruction);
        }
        proof {
            assert(resolve.ty_below(Type::Id(*ty), resolve.types.len() as int));
        }
        match self.assert_no_droppable_borrows(gen, resolve, &Type::Id(*ty)) {
            Ok(_) => {},
            Err(e) => {
                return Err(e);
            },
        }
        match self.pop_blocks(1) {
            Ok(_) => {},
            Err(e) => {
                return Err(e);
            },
        }
        let list_name = match gen.ty_name(&Type::Id(*ty)) {
            Ok(nm) => nm,
            Err(e) => {
                return Err(e);
            },
        };
        let elem_name = match gen.ty_name(element) {
            Ok(nm) => nm,
            Err(e) => {
                return Err(e);
            },
        };
        let prefix = match strip_t(&list_name) {
            Ok(p) => p,
            Err(e) => {
                return Err(e);
            },
        };
        let mut v: Vec<char> = Vec::new();
        push_chars(&mut v, &prefix);
        push_str(&mut v, "_create( P");
        push_chars(&mut v, &elem_name);
        push_str(&mut v, "(");
        push_chars(&mut v, &operands[0]);
        push_str(&mut v, "), ");
        push_chars(&mut v, &operands[1]);
        push_str(&mut v, " )");
        Ok(one_result(v))
    }


    fn emit_call_wasm(&mut self, gen: &mut Pascal, resolve: &Resolve, sig: &WasmSignature, operands: &Vec<Vec<char>>) -> (r: Result<Vec<Vec<char>>, GenError>)
        requires
            resolve.wf(),
        ensures
            gen_frame(*old(gen), *final(gen)),
            final(self).in_import == old(self).in_import,
            final(self).sig == old(self).sig,
            final(self).params == old(self).params,
            sig.results@.len() > 1 ==> r == Err::<Vec<Vec<char>>, GenError>(
                GenError::MultiValueReturn,
            ) && *final(self) == *old(self) && *final(gen) == *old(gen),
            sig.results@.len() == 0 ==> (r matches Ok(res) && res@.len() == 0 && *final(gen)
                == *old(gen) && final(self).src@ == source_push(
                old(self).src@,
                old(self).func_to_call@ + "("@ + spec_args_prefix(
                    texts_of(operands@),
                    operands@.len() as int,
                ) + ");\n"@,
            ) && *final(self) == (FunctionBindgen { src: final(self).src, ..*old(self) })),
    {
        let mut res: Vec<Vec<char>> = Vec::new();
        if sig.results.len() == 1 {
            let stem = str_chars("ret");
            let ret = self.locals.tmp(&stem);
            let wt = str_chars(wasm_type_text(sig.results[0]));
            match self.local_vars.insert(&ret, &wt) {
                Ok(_) => {},
                Err(e) => {
                    return Err(e);
                },
            }
            let mut wr: Vec<char> = Vec::new();
            push_chars(&mut wr, &ret);
            self.wasm_return = Some(wr);
            self.src.push_str(" ");
            self.src.push_vec(&ret);
            self.src.push_str(" := ");
            res.push(ret);
        } else if sig.results.len() > 1 {
            return Err(GenError::MultiValueReturn);
        }
        let mut call: Vec<char> = Vec::new();
        push_chars(&mut call, &self.func_to_call);
        push_str(&mut call, "(");
        proof {
            assert(call@ =~= self.func_to_call@ + "("@ + spec_args_prefix(
                texts_of(operands@),
                0,
            ));
        }
        let mut i: usize = 0;
        while i < operands.len()
            invariant
                i <= operands@.len(),
                call@ == self.func_to_call@ + "("@ + spec_args_prefix(
                    texts_of(operands@),
                    i as int,
                ),
            decreases operands@.len() - i,
        {
            if i > 0 {
                push_str(&mut call, ", ");
            }
            push_chars(&mut call, &operands[i]);
            proof {
                assert(call@ =~= self.func_to_call@ + "("@ + spec_args_prefix(
                    texts_of(operands@),
                    i + 1,
                ));
            }
            i += 1;
        }
        push_str(&mut call, ");\n");
        proof {
            assert(call@ =~= self.func_to_call@ + "("@ + spec_args_prefix(
                texts_of(operands@),
                operands@.len() as int,
            ) + ");\n"@);
        }
        self.src.push_vec(&call);
        Ok(res)
    }


    fn emit_guest_dealloc(&mut self, gen: &mut Pascal, resolve: &Resolve, operands: &Vec<Vec<char>>) -> (r: Result<Vec<Vec<char>>, GenError>)
        requires
            resolve.wf(),
        ensures
            gen_frame(*old(gen), *final(gen)),
            final(self).in_import == old(self).in_import,
            final(self).sig == old(self).sig,
            final(self).params == old(self).params,
            r is Ok <==> operands@.len() == 1,
            r matches Ok(res) ==> res@.len() == 0 && *final(gen) == *old(gen) && final(self).src@
                == source_push(
                source_push(
                    source_push(old(self).src@, "free("@),
                    texts_of(operands@)[0],
                ),
                ");\n"@,
            ) && *final(self) == (FunctionBindgen { src: final(self).src, ..*old(self) }),
    {
        if operands.len() != 1 {
            return Err(GenError::BadInstruction);
        }
        self.src.push_str("free(");
        self.src.push_vec(&operands[0]);
        self.src.push_str(");\n");
        Ok(Vec::new())
    }


    fn emit_guest_dealloc_string(&mut self, gen: &mut Pascal, resolve: &Resolve, operands: &Vec<Vec<char>>) -> (r: Result<Vec<Vec<char>>, GenError>)
        requires
            resolve.wf(),
        ensures
            gen_frame(*old(gen), *final(gen)),
            final(self).in_import == old(self).in_import,
            final(self).sig == old(self).sig,
            final(self).params == old(self).params,
            r is Ok <==> operands@.len() == 2,
            r matches Ok(res) ==> res@.len() == 0 && *final(gen) == *old(gen) && final(self).src@
                == source_push(
                source_push(
                    source_push(
                        source_push(
                            source_push(
                                source_push(
                                    source_push(old(self).src@, "if (("@),
                                    texts_of(operands@)[1],
                                ),
                                ") > 0) {\n"@,
                            ),
                            "free("@,
                        ),
                        texts_of(operands@)[0],
                    ),
                    ");\n"@,
                ),
                "}\n"@,
            ) && *final(self) == (FunctionBindgen { src: final(self).src, ..*old(self) }),
    {
        if operands.len() != 2 {
            return Err(GenError::BadInstruction);
        }
        self.src.push_str("if ((");
        self.src.push_vec(&operands[1]);
        self.src.push_str(") > 0) {\n");
        self.src.push_str("free(");
        self.src.push_vec(&operands[0]);
        self.src.push_str(");\n");
        self.src.push_str("}\n");
        Ok(Vec::new())
    }


    fn emit_guest_dealloc_variant(&mut self, gen: &mut Pascal, resolve: &Resolve, blocks: &usize, operands: &Vec<Vec<char>>) -> (r: Result<Vec<Vec<char>>, GenError>)
        requires
            resolve.wf(),
        ensures
            gen_frame(*old(gen), *final(gen)),
            final(self).in_import == old(self).in_import,
            final(self).sig == old(self).sig,
            final(self).params == old(self).params,
    {
        if operands.len() != 1 {
            return Err(GenError::BadInstruction);
        }
        let bl = match self.pop_blocks(*blocks) {
            Ok(b) => b,
            Err(e) => {
                return Err(e);
            },
        };
        self.src.push_str("{5}switch ((int32_t) ");
        self.src.push_vec(&operands[0]);
        self.src.push_str(") {\n");
        let mut i: usize = 0;
        while i < bl.len()
            invariant
                self.sig == old(self).sig,
                self.params == old(self).params,
                self.in_import == old(self).in_import,
            decreases bl@.len() - i,
        {
            if bl[i].1.len() != 0 {
                return Err(GenError::BadInstruction);
            }
            self.src.push_str("case ");
            let mut num: Vec<char> = Vec::new();
            push_usize(&mut num, i);
            self.src.push_vec(&num);
            self.src.push_str(": {\n");
            self.src.push_vec(&bl[i].0);
            self.src.push_str("break;\n}\n");
            i += 1;
        }
        self.src.push_str("}\n");
        Ok(Vec::new())
    }


    fn emit_guest_dealloc_list(&mut self, gen: &mut Pascal, resolve: &Resolve, element_size: &usize, operands: &Vec<Vec<char>>) -> (r: Result<Vec<Vec<char>>, GenError>)
        requires
            resolve.wf(),
        ensures
            gen_frame(*old(gen), *final(gen)),
            final(self).in_import == old(self).in_import,
            final(self).sig == old(self).sig,
            final(self).params == old(self).params,
    {
        if operands.len() != 2 {
            return Err(GenError::BadInstruction);
        }
        let bl = match self.pop_blocks(1) {
            Ok(b) => b,
            Err(e) => {
                return Err(e);
            },
        };
        if bl[0].1.len() != 0 {
            return Err(GenError::BadInstruction);
        }
        let stem_len = str_chars("len");
        let len_name = self.locals.tmp(&stem_len);
        self.src.push_str("size_t ");
        self.src.push_vec(&len_name);
        self.src.push_str(" = ");
        self.src.push_vec(&operands[1]);
        self.src.push_str(";\n");
        self.src.push_str("if (");
        self.src.push_vec(&len_name);
        self.src.push_str(" > 0) {\n");
        let stem_ptr = str_chars("ptr");
        let ptr_name = self.locals.tmp(&stem_ptr);
        self.src.push_str("uint8_t *");
        self.src.push_vec(&ptr_name);
        self.src.push_str(" = ");
        self.src.push_vec(&operands[0]);
        self.src.push_str(";\n");
        let stem_i = str_chars("i");
        let i_name = self.locals.tmp(&stem_i);
        self.src.push_str("for (size_t ");
        self.src.push_vec(&i_name);
        self.src.push_str(" = 0; ");
        self.src.push_vec(&i_name);
        self.src.push_str(" < ");
        self.src.push_vec(&len_name);
        self.src.push_str("; ");
        self.src.push_vec(&i_name);
        self.src.push_str("++) {\n");
        self.src.push_str("uint8_t *base = ");
        self.src.push_vec(&ptr_name);
        self.src.push_str(" + ");
        self.src.push_vec(&i_name);
        self.src.push_str(" * ");
        let mut sz: Vec<char> = Vec::new();
        push_usize(&mut sz, *element_size);
        self.src.push_vec(&sz);
        self.src.push_str(";\n");
        self.src.push_str("(void) base;\n");
        self.src.push_vec(&bl[0].0);
        self.src.push_str("}\n");
        self.src.push_str("free(");
        self.src.push_vec(&ptr_name);
        self.src.push_str(");\n");
        self.src.push_str("}\n");
        Ok(Vec::new())
    }
}

/// The canonical-name suffix, as a trigger anchor for quantifying over
/// possible prefixes.
pub open spec fn suffix_t(p: Seq<char>) -> Seq<char> {
    "_t"@
}

/// The type name with its `_t` suffix removed: the prefix helper names are
/// derived from.
pub(crate) fn strip_t(name: &Vec<char>) -> (r: Result<Vec<char>, GenError>)
    ensures
        r matches Ok(v) ==> name@ == v@ + "_t"@,
        r is Err ==> (forall|p: Seq<char>| name@ != p + #[trigger] suffix_t(p)),
{
    proof {
        reveal_strlit("_t");
    }
    if name.len() < 2 {
        proof {
            assert forall|p: Seq<char>| name@ != p + suffix_t(p) by {
                assert((p + "_t"@).len() >= 2);
            }
        }
        return Err(GenError::BadInstruction);
    }
    if name[name.len() - 1] != 't' || name[name.len() - 2] != '_' {
        proof {
            assert forall|p: Seq<char>| name@ != p + suffix_t(p) by {
                if name@ == p + "_t"@ {
                    assert(name@[name@.len() - 1] == 't');
                    assert(name@[name@.len() - 2] == '_');
                }
            }
        }
        return Err(GenError::BadInstruction);
    }
    let mut v: Vec<char> = Vec::new();
    let mut i: usize = 0;
    while i < name.len() - 2
        invariant
            name@.len() >= 2,
            i <= name@.len() - 2,
            v@ == name@.take(i as int),
        decreases name@.len() - i,
    {
        v.push(name[i]);
        proof {
            assert(v@ =~= name@.take(i + 1));
        }
        i += 1;
    }
    proof {
        assert(name@ =~= v@ + "_t"@) by {
            reveal_strlit("_t");
        }
    }
    Ok(v)
}

/// Drop a trailing `,\n` left by a joined argument list.
fn trim_trailing_comma(v: &mut Vec<char>)
    ensures
        final(v)@ == (if old(v)@.len() >= 2 && old(v)@[old(v)@.len() - 2] == ',' && old(v)@[old(
            v,
        )@.len() - 1] == '\n' {
            old(v)@.take(old(v)@.len() - 2)
        } else {
            old(v)@
        }),
{
    if v.len() >= 2 && v[v.len() - 2] == ',' && v[v.len() - 1] == '\n' {
        let _ = v.pop();
        let _ = v.pop();
    }
}

/// Copy a list of types.
fn copy_types(v: &Vec<Type>) -> (r: Vec<Type>)
    ensures
        r@ == v@,
{
    let mut r: Vec<Type> = Vec::new();
    let mut i: usize = 0;
    while i < v.len()
        invariant
            i <= v@.len(),
            r@ == v@.take(i as int),
        decreases v@.len() - i,
    {
        r.push(v[i]);
        proof {
            assert(r@ =~= v@.take(i + 1));
        }
        i += 1;
    }
    proof {
        assert(v@.take(v@.len() as int) =~= v@);
    }
    r
}

/// The rendered store statement.
pub open spec fn spec_store_text(
    ty: Seq<char>,
    offset: nat,
    op0: Seq<char>,
    op1: Seq<char>,
) -> Seq<char> {
    "P"@ + ty + "("@ + op1 + " + "@ + crate::text::dec_digits(offset) + ")^ := "@ + op0 + ";\n"@
}

impl FunctionBindgen {
    /// Emit a store of `operands[0]` through `operands[1]` plus `offset`.
    fn emit_store(&mut self, ty: &str, offset: usize, operands: &Vec<Vec<char>>) -> (r: Result<
        Vec<Vec<char>>,
        GenError,
    >)
        ensures
            r is Ok <==> operands@.len() == 2,
            r matches Ok(res) ==> res@.len() == 0 && final(self).src@ == source_push(
                old(self).src@,
                spec_store_text(
                    ty@,
                    offset as nat,
                    texts_of(operands@)[0],
                    texts_of(operands@)[1],
                ),
            ),
            *final(self) == (FunctionBindgen { src: final(self).src, ..*old(self) }),
    {
        if operands.len() != 2 {
            return Err(GenError::BadInstruction);
        }
        let mut t = str_chars("P");
        push_str(&mut t, ty);
        push_str(&mut t, "(");
        push_chars(&mut t, &operands[1]);
        push_str(&mut t, " + ");
        push_usize(&mut t, offset);
        push_str(&mut t, ")^ := ");
        push_chars(&mut t, &operands[0]);
        push_str(&mut t, ";\n");
        self.src.push_vec(&t);
        Ok(Vec::new())
    }

    /// Emit the return of an import body: scalar classifications return their
    /// value directly, boolean-flattened classifications store the payloads
    /// through the out-parameters first.
    fn emit_import_return(&mut self, amt: usize, operands: &Vec<Vec<char>>) -> (r: Result<
        Vec<Vec<char>>,
        GenError,
    >)
        ensures
            *final(self) == (FunctionBindgen {
                src: final(self).src,
                ret_store_cnt: final(self).ret_store_cnt,
                ..*old(self)
            }),
            r matches Ok(res) ==> res@.len() == 0,
            old(self).sig.ret.scalar matches Some(Scalar::OptionBool(_)) && operands@.len() == 1
                ==> {
                &&& (r is Ok <==> old(self).ret_store_cnt < old(self).sig.retptrs@.len())
                &&& (r is Ok ==> final(self).ret_store_cnt == old(self).ret_store_cnt + 1
                    && final(self).src@ == spec_option_import_return(
                    old(self).src@,
                    old(self).sig.retptrs@[old(self).ret_store_cnt as int]@,
                    texts_of(operands@)[0],
                ))
            },
            match old(self).sig.ret.scalar {
                Some(Scalar::ResultBool(ok, err)) => (operands@.len() == 1 && old(
                    self,
                ).ret_store_cnt == 0 && old(self).sig.retptrs@.len() <= 2) ==> {
                    let need = (if ok is Some {
                        1int
                    } else {
                        0int
                    }) + (if err is Some {
                        1int
                    } else {
                        0int
                    });
                    &&& (r is Ok <==> old(self).sig.retptrs@.len() == need)
                    &&& (r is Ok ==> final(self).ret_store_cnt == old(self).sig.retptrs@.len()
                        && final(self).src@ == spec_result_import_return(
                        old(self).src@,
                        old(self).sig.retptrs@,
                        texts_of(operands@)[0],
                        ok is Some,
                        err is Some,
                    ))
                },
                _ => true,
            },
    {
        let scalar = match &self.sig.ret.scalar {
            Some(s) => Some(*s),
            None => None,
        };
        match scalar {
            None => {
                let mut i: usize = 0;
                while i < operands.len()
                    invariant
                        old(self).sig.ret.scalar is None,
                        *self == (FunctionBindgen {
                            src: self.src,
                            ret_store_cnt: self.ret_store_cnt,
                            ..*old(self)
                        }),
                    decreases operands@.len() - i,
                {
                    match self.store_in_retptr(&operands[i]) {
                        Ok(_) => {},
                        Err(e) => {
                            return Err(e);
                        },
                    }
                    i += 1;
                }
                Ok(Vec::new())
            },
            Some(Scalar::Void) => {
                if operands.len() != 0 {
                    return Err(GenError::BadInstruction);
                }
                Ok(Vec::new())
            },
            Some(Scalar::Type(_)) => {
                if operands.len() != 1 {
                    return Err(GenError::BadInstruction);
                }
                self.src.push_str("exit(");
                self.src.push_vec(&operands[0]);
                self.src.push_str(");\n");
                Ok(Vec::new())
            },
            Some(Scalar::OptionBool(_)) => {
                if operands.len() != 1 {
                    return Err(GenError::BadInstruction);
                }
                let mut val: Vec<char> = Vec::new();
                push_chars(&mut val, &operands[0]);
                push_str(&mut val, ".val");
                proof {
                    assert(val@ =~= operands@[0]@ + ".val"@);
                }
                match self.store_in_retptr(&val) {
                    Ok(_) => {},
                    Err(e) => {
                        return Err(e);
                    },
                }
                self.src.push_str("exit(");
                self.src.push_vec(&operands[0]);
                self.src.push_str(".is_some);\n");
                Ok(Vec::new())
            },
            Some(Scalar::ResultBool(ok, err)) => {
                if operands.len() != 1 {
                    return Err(GenError::BadInstruction);
                }
                if self.sig.retptrs.len() > 2 {
                    return Err(GenError::BadInstruction);
                }
                self.src.push_str("if not ");
                self.src.push_vec(&operands[0]);
                self.src.push_str(".is_err then\nbegin\n");
                if ok.is_some() {
                    let mut val: Vec<char> = Vec::new();
                    push_chars(&mut val, &operands[0]);
                    push_str(&mut val, ".ok");
                    proof {
                        assert(val@ =~= operands@[0]@ + ".ok"@);
                    }
                    match self.store_in_retptr(&val) {
                        Ok(_) => {},
                        Err(e) => {
                            return Err(e);
                        },
                    }
                }
                self.src.push_str("exit(true);\nend\nelse\nbegin\n");
                if err.is_some() {
                    let mut val: Vec<char> = Vec::new();
                    push_chars(&mut val, &operands[0]);
                    push_str(&mut val, ".err");
                    proof {
                        assert(val@ =~= operands@[0]@ + ".err"@);
                    }
                    match self.store_in_retptr(&val) {
                        Ok(_) => {},
                        Err(e) => {
                            return Err(e);
                        },
                    }
                }
                self.src.push_str("exit(false);\nend;\n");
                if self.ret_store_cnt != self.sig.retptrs.len() {
                    return Err(GenError::BadInstruction);
                }
                Ok(Vec::new())
            },
        }
    }

    /// Emit the return of an export body: the borrow declarations are spliced
    /// in front of the body, then one guarded drop call for every borrow
    /// recorded while lifting the arguments, then the return statement.
    fn emit_export_return(&mut self, gen: &Pascal, amt: usize, operands: &Vec<Vec<char>>) -> (r:
        Result<Vec<Vec<char>>, GenError>)
        ensures
            r matches Ok(res) ==> res@.len() == 0,
            r is Ok ==> {
                let base = spec_return_base(old(self).borrow_decls@, old(self).src@);
                &&& spec_drops(base, gen.resources, old(self).borrows@, 0) is Some
                &&& final(self).src@ == (if amt == 1 {
                    source_push(
                        spec_drops(base, gen.resources, old(self).borrows@, 0)->Some_0,
                        "return "@ + texts_of(operands@)[0] + ";\n"@,
                    )
                } else {
                    spec_drops(base, gen.resources, old(self).borrows@, 0)->Some_0
                })
            },
            *final(self) == (FunctionBindgen {
                src: final(self).src,
                borrow_decls: final(self).borrow_decls,
                ..*old(self)
            }),
            (amt <= 1 && (amt == 1 ==> operands@.len() >= 1) && (forall|j: int|
                0 <= j < old(self).borrows@.len() ==> gen.resources.defined(
                    (#[trigger] old(self).borrows@[j]).ty as int,
                ))) ==> r is Ok,
    {
        if amt > 1 {
            return Err(GenError::BadInstruction);
        }
        if amt == 1 && operands.len() < 1 {
            return Err(GenError::BadInstruction);
        }
        // Splice the borrow declarations ahead of the body built so far.
        let mut tmp = Source::new();
        core::mem::swap(&mut tmp, &mut self.borrow_decls);
        core::mem::swap(&mut tmp, &mut self.src);
        self.src.append_src(&tmp);
        let ghost base = spec_return_base(old(self).borrow_decls@, old(self).src@);
        proof {
            assert(self.src@ =~= base);
        }
        let ghost bseq = self.borrows@;
        let mut i: usize = 0;
        while i < self.borrows.len()
            invariant
                bseq == self.borrows@,
                i <= bseq.len(),
                spec_drops(self.src@, gen.resources, bseq, i as int) == spec_drops(
                    base,
                    gen.resources,
                    bseq,
                    0,
                ),
                *self == (FunctionBindgen { src: self.src, borrow_decls: self.borrow_decls, ..*old(self) }),
            decreases bseq.len() - i,
        {
            let bty = self.borrows[i].ty;
            let drop_fn = match gen.resources.drop_fn(bty) {
                Ok(d) => d,
                Err(e) => {
                    proof {
                        assert(old(self).borrows@[i as int].ty == bty);
                    }
                    return Err(e);
                },
            };
            let mut l1 = str_chars("if (");
            push_chars(&mut l1, &self.borrows[i].name);
            push_str(&mut l1, " != 0) {\n");
            self.src.push_vec(&l1);
            let mut l2 = str_chars("  ");
            push_chars(&mut l2, &drop_fn);
            push_str(&mut l2, "(");
            push_chars(&mut l2, &self.borrows[i].name);
            push_str(&mut l2, ");\n");
            self.src.push_vec(&l2);
            self.src.push_str("}\n");
            i += 1;
        }
        proof {
            assert(spec_drops(self.src@, gen.resources, bseq, bseq.len() as int) == Some(
                self.src@,
            ));
        }
        if amt == 1 {
            let mut l = str_chars("return ");
            push_chars(&mut l, &operands[0]);
            push_str(&mut l, ";\n");
            self.src.push_vec(&l);
        }
        Ok(Vec::new())
    }
}

impl FunctionBindgen {
    /// Lower a variant: dispatch on the source value's tag, splicing each
    /// case's buffered block and collecting its results into shared
    /// temporaries.
    fn emit_variant_lower(
        &mut self,
        gen: &mut Pascal,
        resolve: &Resolve,
        ty: usize,
        result_types: &Vec<WasmType>,
        operands: &Vec<Vec<char>>,
    ) -> (r: Result<Vec<Vec<char>>, GenError>)
        requires
            resolve.wf(),
        ensures
            gen_frame(*old(gen), *final(gen)),
            final(self).in_import == old(self).in_import,
            final(self).sig == old(self).sig,
            final(self).params == old(self).params,
            r is Ok ==> (ty < resolve.types.len() && match resolve.types[ty as int].kind {
                TypeDefKind::Variant(cs) => {
                    &&& old(self).blocks@.len() >= cs.len()
                    &&& old(self).payloads@.len() >= cs.len()
                    &&& final(self).blocks@ == old(self).blocks@.take(
                        old(self).blocks@.len() - cs.len(),
                    )
                    &&& final(self).payloads@ == old(self).payloads@.take(
                        old(self).payloads@.len() - cs.len(),
                    )
                },
                _ => false,
            }),
            r matches Ok(res) ==> res@.len() == result_types@.len(),
    {
        if operands.len() != 1 || ty >= resolve.types.len() {
            return Err(GenError::BadInstruction);
        }
        let ncases = match &resolve.types[ty].kind {
            TypeDefKind::Variant(cases) => cases.len(),
            _ => {
                return Err(GenError::BadInstruction);
            },
        };
        let blocks = match self.pop_blocks(ncases) {
            Ok(b) => b,
            Err(e) => {
                return Err(e);
            },
        };
        let payloads = match self.pop_payloads(ncases) {
            Ok(p) => p,
            Err(e) => {
                return Err(e);
            },
        };
        let ghost blocks_after = self.blocks@;
        let ghost payloads_after = self.payloads@;
        let mut results: Vec<Vec<char>> = Vec::new();
        let mut variant_results: Vec<Vec<char>> = Vec::new();
        let stem = str_chars("variant");
        let mut k: usize = 0;
        while k < result_types.len()
            invariant
                operands@.len() == 1,
                k <= result_types@.len(),
                results@.len() == k,
                self.sig == old(self).sig,
                self.params == old(self).params,
                self.in_import == old(self).in_import,
                self.blocks@ == blocks_after,
                self.payloads@ == payloads_after,
            decreases result_types@.len() - k,
        {
            let name = self.locals.tmp(&stem);
            let wt = str_chars(wasm_type_text(result_types[k]));
            match self.local_vars.insert(&name, &wt) {
                Ok(_) => {},
                Err(e) => {
                    return Err(e);
                },
            }
            let mut c1: Vec<char> = Vec::new();
            push_chars(&mut c1, &name);
            results.push(c1);
            variant_results.push(name);
            k += 1;
        }
        self.src.push_str("case int32((");
        self.src.push_vec(&operands[0]);
        self.src.push_str(").tag) of\n");
        let mut i: usize = 0;
        while i < ncases
            invariant
                resolve.wf(),
                ty < resolve.types.len(),
                operands@.len() == 1,
                resolve.types[ty as int].kind matches TypeDefKind::Variant(cs) && cs.len()
                    == ncases,
                blocks@.len() == ncases,
                payloads@.len() == ncases,
                gen_frame(*old(gen), *gen),
                self.sig == old(self).sig,
                self.params == old(self).params,
                self.in_import == old(self).in_import,
                self.blocks@ == blocks_after,
                self.payloads@ == payloads_after,
            decreases ncases - i,
        {
            let mut num: Vec<char> = Vec::new();
            push_usize(&mut num, i);
            self.src.push_vec(&num);
            self.src.push_str(":\nbegin\n");
            let case_ty: Option<Type> = match &resolve.types[ty].kind {
                TypeDefKind::Variant(cases) => cases[i].ty,
                _ => None,
            };
            if let Some(t) = case_ty {
                let tyname = match gen.ty_name(&t) {
                    Ok(n) => n,
                    Err(e) => {
                        return Err(e);
                    },
                };
                let mut pt = str_chars("P");
                push_chars(&mut pt, &tyname);
                match self.local_vars.insert(&payloads[i], &pt) {
                    Ok(_) => {},
                    Err(e) => {
                        return Err(e);
                    },
                }
                self.src.push_vec(&payloads[i]);
                self.src.push_str(" := @(");
                self.src.push_vec(&operands[0]);
                self.src.push_str(")");
                self.src.push_str(".");
                let cname: Vec<char> = match &resolve.types[ty].kind {
                    TypeDefKind::Variant(cases) => crate::ident::to_pascal_ident(&cases[i].name),
                    _ => Vec::new(),
                };
                self.src.push_vec(&cname);
                self.src.push_str(";\n");
            }
            self.src.push_vec(&blocks[i].0);
            let nres = blocks[i].1.len();
            let mut k2: usize = 0;
            while k2 < variant_results.len() && k2 < nres
                invariant
                    nres == blocks@[i as int].1@.len(),
                    i < blocks@.len(),
                    self.sig == old(self).sig,
                    self.params == old(self).params,
                    self.in_import == old(self).in_import,
                    self.blocks@ == blocks_after,
                    self.payloads@ == payloads_after,
                decreases variant_results@.len() - k2,
            {
                self.src.push_vec(&variant_results[k2]);
                self.src.push_str(" := ");
                self.src.push_vec(&blocks[i].1[k2]);
                self.src.push_str(";\n");
                k2 += 1;
            }
            self.src.push_str("end;\n");
            i += 1;
        }
        self.src.push_str("end;\n");
        Ok(results)
    }

    /// Lift a variant: dispatch on an incoming raw discriminant, splice each
    /// arm's buffered lifting code, and assign the arm's field.
    fn emit_variant_lift(
        &mut self,
        gen: &mut Pascal,
        resolve: &Resolve,
        ty: usize,
        operands: &Vec<Vec<char>>,
    ) -> (r: Result<Vec<Vec<char>>, GenError>)
        requires
            resolve.wf(),
        ensures
            gen_frame(*old(gen), *final(gen)),
            final(self).in_import == old(self).in_import,
            final(self).sig == old(self).sig,
            final(self).params == old(self).params,
    {
        if operands.len() != 1 || ty >= resolve.types.len() {
            return Err(GenError::BadInstruction);
        }
        let ncases = match &resolve.types[ty].kind {
            TypeDefKind::Variant(cases) => cases.len(),
            _ => {
                return Err(GenError::BadInstruction);
            },
        };
        let blocks = match self.pop_blocks(ncases) {
            Ok(b) => b,
            Err(e) => {
                return Err(e);
            },
        };
        let tyname = match gen.ty_name(&Type::Id(ty)) {
            Ok(n) => n,
            Err(e) => {
                return Err(e);
            },
        };
        let stem = str_chars("variant");
        let result = self.locals.tmp(&stem);
        match self.local_vars.insert(&result, &tyname) {
            Ok(_) => {},
            Err(e) => {
                return Err(e);
            },
        }
        self.src.push_vec(&result);
        self.src.push_str(".tag := ");
        self.src.push_vec(&operands[0]);
        self.src.push_str(";\n");
        self.src.push_str("case int32(");
        self.src.push_vec(&result);
        self.src.push_str(".tag) of\n");
        let mut i: usize = 0;
        while i < ncases
            invariant
                resolve.wf(),
                ty < resolve.types.len(),
                resolve.types[ty as int].kind matches TypeDefKind::Variant(cs) && cs.len()
                    == ncases,
                blocks@.len() == ncases,
                gen_frame(*old(gen), *gen),
                self.sig == old(self).sig,
                self.params == old(self).params,
                self.in_import == old(self).in_import,
            decreases ncases - i,
        {
            let mut num: Vec<char> = Vec::new();
            push_usize(&mut num, i);
            self.src.push_vec(&num);
            self.src.push_str(":\nbegin\n");
            self.src.push_vec(&blocks[i].0);
            let has_payload: bool = match &resolve.types[ty].kind {
                TypeDefKind::Variant(cases) => cases[i].ty.is_some(),
                _ => false,
            };
            if blocks[i].1.len() != (if has_payload {
                1usize
            } else {
                0usize
            }) {
                return Err(GenError::BadInstruction);
            }
            if has_payload {
                let mut dst: Vec<char> = Vec::new();
                push_chars(&mut dst, &result);
                push_str(&mut dst, ".");
                let cname: Vec<char> = match &resolve.types[ty].kind {
                    TypeDefKind::Variant(cases) => crate::ident::to_pascal_ident(&cases[i].name),
                    _ => Vec::new(),
                };
                push_chars(&mut dst, &cname);
                let mut op: Vec<char> = Vec::new();
                push_chars(&mut op, &blocks[i].1[0]);
                self.store_op(&op, &dst);
            }
            self.src.push_str("end;\n");
            i += 1;
        }
        self.src.push_str("end;\n");
        Ok(one_result(result))
    }

    /// Lower an option: an if/else over `is_some`, binding the payload
    /// pointer in the some branch.
    fn emit_option_lower(
        &mut self,
        gen: &mut Pascal,
        payload: &Type,
        result_types: &Vec<WasmType>,
        operands: &Vec<Vec<char>>,
    ) -> (r: Result<Vec<Vec<char>>, GenError>)
        ensures
            gen_frame(*old(gen), *final(gen)),
            final(self).in_import == old(self).in_import,
            final(self).sig == old(self).sig,
            final(self).params == old(self).params,
    {
        if operands.len() != 1 {
            return Err(GenError::BadInstruction);
        }
        let two = match self.pop_blocks(2) {
            Ok(b) => b,
            Err(e) => {
                return Err(e);
            },
        };
        let pl = match self.pop_payloads(2) {
            Ok(p) => p,
            Err(e) => {
                return Err(e);
            },
        };
        let mut none_text: Vec<char> = Vec::new();
        push_chars(&mut none_text, &two[0].0);
        let mut some_text: Vec<char> = Vec::new();
        push_chars(&mut some_text, &two[1].0);
        let mut results: Vec<Vec<char>> = Vec::new();
        let stem = str_chars("option");
        let mut k: usize = 0;
        while k < result_types.len()
            invariant
                two@.len() == 2,
                pl@.len() == 2,
                operands@.len() == 1,
                self.sig == old(self).sig,
                self.params == old(self).params,
                self.in_import == old(self).in_import,
            decreases result_types@.len() - k,
        {
            if two[0].1.len() <= k || two[1].1.len() <= k {
                return Err(GenError::BadInstruction);
            }
            let name = self.locals.tmp(&stem);
            self.src.push_str(wasm_type_text(result_types[k]));
            self.src.push_str(" ");
            self.src.push_vec(&name);
            self.src.push_str(";\n");
            push_chars(&mut some_text, &name);
            push_str(&mut some_text, " = ");
            push_chars(&mut some_text, &two[1].1[k]);
            push_str(&mut some_text, ";\n");
            push_chars(&mut none_text, &name);
            push_str(&mut none_text, " = ");
            push_chars(&mut none_text, &two[0].1[k]);
            push_str(&mut none_text, ";\n");
            results.push(name);
            k += 1;
        }
        let ptyname = match gen.ty_name(payload) {
            Ok(n) => n,
            Err(e) => {
                return Err(e);
            },
        };
        self.src.push_str("if ((");
        self.src.push_vec(&operands[0]);
        self.src.push_str(").is_some) {\n");
        self.src.push_str("const ");
        self.src.push_vec(&ptyname);
        self.src.push_str(" *");
        self.src.push_vec(&pl[1]);
        self.src.push_str(" = &(");
        self.src.push_vec(&operands[0]);
        self.src.push_str(").val;\n");
        self.src.push_vec(&some_text);
        self.src.push_str("} else {\n");
        self.src.push_vec(&none_text);
        self.src.push_str("}\n");
        Ok(results)
    }

    /// Lift an option: a two-way dispatch on the raw discriminant that sets
    /// `is_some` and, in the some arm, the payload field.
    fn emit_option_lift(&mut self, gen: &mut Pascal, ty: usize, operands: &Vec<Vec<char>>) -> (r:
        Result<Vec<Vec<char>>, GenError>)
        ensures
            gen_frame(*old(gen), *final(gen)),
            final(self).in_import == old(self).in_import,
            final(self).sig == old(self).sig,
            final(self).params == old(self).params,
    {
        if operands.len() != 1 {
            return Err(GenError::BadInstruction);
        }
        let two = match self.pop_blocks(2) {
            Ok(b) => b,
            Err(e) => {
                return Err(e);
            },
        };
        if two[0].1.len() != 0 || two[1].1.len() != 1 {
            return Err(GenError::BadInstruction);
        }
        let tyname = match gen.ty_name(&Type::Id(ty)) {
            Ok(n) => n,
            Err(e) => {
                return Err(e);
            },
        };
        let stem = str_chars("option");
        let result = self.locals.tmp(&stem);
        match self.local_vars.insert(&result, &tyname) {
            Ok(_) => {},
            Err(e) => {
                return Err(e);
            },
        }
        self.src.push_str("case ");
        self.src.push_vec(&operands[0]);
        self.src.push_str(" of\n0:\nbegin\n");
        self.src.push_vec(&result);
        self.src.push_str(".is_some := false;\n");
        self.src.push_vec(&two[0].0);
        self.src.push_str("end;\n1:\nbegin\n");
        self.src.push_vec(&result);
        self.src.push_str(".is_some := true;\n");
        self.src.push_vec(&two[1].0);
        self.src.push_vec(&result);
        self.src.push_str(".val := ");
        self.src.push_vec(&two[1].1[0]);
        self.src.push_str(";\nend;\nend;\n");
        Ok(one_result(result))
    }

    /// Lower a result: an if/else over `is_err`, binding the ok or err
    /// payload pointer in its branch.
    fn emit_result_lower(
        &mut self,
        gen: &mut Pascal,
        resolve: &Resolve,
        ty: usize,
        result_types: &Vec<WasmType>,
        operands: &Vec<Vec<char>>,
    ) -> (r: Result<Vec<Vec<char>>, GenError>)
        requires
            resolve.wf(),
        ensures
            gen_frame(*old(gen), *final(gen)),
            final(self).in_import == old(self).in_import,
            final(self).sig == old(self).sig,
            final(self).params == old(self).params,
    {
        if operands.len() != 1 || ty >= resolve.types.len() {
            return Err(GenError::BadInstruction);
        }
        let (ok_ty, err_ty): (Option<Type>, Option<Type>) = match &resolve.types[ty].kind {
            TypeDefKind::ResultOf(a, b) => (*a, *b),
            _ => {
                return Err(GenError::BadInstruction);
            },
        };
        proof {
            assert(resolve.kind_below(resolve.types[ty as int].kind, ty as int));
        }
        let two = match self.pop_blocks(2) {
            Ok(b) => b,
            Err(e) => {
                return Err(e);
            },
        };
        let pl = match self.pop_payloads(2) {
            Ok(p) => p,
            Err(e) => {
                return Err(e);
            },
        };
        let mut ok_text: Vec<char> = Vec::new();
        push_chars(&mut ok_text, &two[0].0);
        let mut err_text: Vec<char> = Vec::new();
        push_chars(&mut err_text, &two[1].0);
        let mut results: Vec<Vec<char>> = Vec::new();
        let stem = str_chars("result");
        let mut k: usize = 0;
        while k < result_types.len()
            invariant
                two@.len() == 2,
                pl@.len() == 2,
                operands@.len() == 1,
                self.sig == old(self).sig,
                self.params == old(self).params,
                self.in_import == old(self).in_import,
            decreases result_types@.len() - k,
        {
            if two[0].1.len() <= k || two[1].1.len() <= k {
                return Err(GenError::BadInstruction);
            }
            let name = self.locals.tmp(&stem);
            let wt = str_chars(wasm_type_text(result_types[k]));
            match self.local_vars.insert(&name, &wt) {
                Ok(_) => {},
                Err(e) => {
                    return Err(e);
                },
            }
            push_chars(&mut ok_text, &name);
            push_str(&mut ok_text, " := ");
            push_chars(&mut ok_text, &two[0].1[k]);
            push_str(&mut ok_text, ";\n");
            push_chars(&mut err_text, &name);
            push_str(&mut err_text, " := ");
            push_chars(&mut err_text, &two[1].1[k]);
            push_str(&mut err_text, ";\n");
            results.push(name);
            k += 1;
        }
        self.src.push_str("if (");
        self.src.push_vec(&operands[0]);
        self.src.push_str(").is_err then\nbegin\n");
        if let Some(t) = err_ty {
            let tn = match gen.ty_name(&t) {
                Ok(n) => n,
                Err(e) => {
                    return Err(e);
                },
            };
            self.src.push_str("const ");
            self.src.push_vec(&tn);
            self.src.push_str(" *");
            self.src.push_vec(&pl[1]);
            self.src.push_str(" = &(");
            self.src.push_vec(&operands[0]);
            self.src.push_str(").val.err;\n");
        }
        self.src.push_vec(&err_text);
        self.src.push_str("end\nelse\nbegin\n");
        if let Some(t) = ok_ty {
            let tn = match gen.ty_name(&t) {
                Ok(n) => n,
                Err(e) => {
                    return Err(e);
                },
            };
            self.src.push_str("const ");
            self.src.push_vec(&tn);
            self.src.push_str(" *");
            self.src.push_vec(&pl[0]);
            self.src.push_str(" = &(");
            self.src.push_vec(&operands[0]);
            self.src.push_str(").val.ok;\n");
        }
        self.src.push_vec(&ok_text);
        self.src.push_str("end;\n");
        Ok(results)
    }

    /// Lift a result: a two-way dispatch on the raw discriminant that sets
    /// `is_err` and the arm's payload field.
    fn emit_result_lift(
        &mut self,
        gen: &mut Pascal,
        resolve: &Resolve,
        ty: usize,
        operands: &Vec<Vec<char>>,
    ) -> (r: Result<Vec<Vec<char>>, GenError>)
        requires
            resolve.wf(),
        ensures
            gen_frame(*old(gen), *final(gen)),
            final(self).in_import == old(self).in_import,
            final(self).sig == old(self).sig,
            final(self).params == old(self).params,
    {
        if operands.len() != 1 || ty >= resolve.types.len() {
            return Err(GenError::BadInstruction);
        }
        let (ok_ty, err_ty): (Option<Type>, Option<Type>) = match &resolve.types[ty].kind {
            TypeDefKind::ResultOf(a, b) => (*a, *b),
            _ => {
                return Err(GenError::BadInstruction);
            },
        };
        let two = match self.pop_blocks(2) {
            Ok(b) => b,
            Err(e) => {
                return Err(e);
            },
        };
        let ok_n: usize = if ok_ty.is_some() {
            1
        } else {
            0
        };
        let err_n: usize = if err_ty.is_some() {
            1
        } else {
            0
        };
        if two[0].1.len() != ok_n || two[1].1.len() != err_n {
            return Err(GenError::BadInstruction);
        }
        let tyname = match gen.ty_name(&Type::Id(ty)) {
            Ok(n) => n,
            Err(e) => {
                return Err(e);
            },
        };
        let stem = str_chars("result");
        let result = self.locals.tmp(&stem);
        match self.local_vars.insert(&result, &tyname) {
            Ok(_) => {},
            Err(e) => {
                return Err(e);
            },
        }
        self.src.push_str("case ");
        self.src.push_vec(&operands[0]);
        self.src.push_str(" of\n0:\nbegin\n");
        self.src.push_vec(&result);
        self.src.push_str(".is_err := false;\n");
        self.src.push_vec(&two[0].0);
        if ok_ty.is_some() {
            self.src.push_vec(&result);
            self.src.push_str(".ok := ");
            self.src.push_vec(&two[0].1[0]);
            self.src.push_str(";\n");
        }
        self.src.push_str("end;\n1:\nbegin\n");
        self.src.push_vec(&result);
        self.src.push_str(".is_err := true;\n");
        self.src.push_vec(&two[1].0);
        if err_ty.is_some() {
            self.src.push_vec(&result);
            self.src.push_str(".err := ");
            self.src.push_vec(&two[1].1[0]);
            self.src.push_str(";\n");
        }
        self.src.push_str("end;\nend;\n");
        Ok(one_result(result))
    }

    /// Call the interface implementation function, reconstructing a flattened
    /// option/result output from the boolean and the out-parameters right
    /// after the call.
    fn emit_call_interface(
        &mut self,
        gen: &mut Pascal,
        params: &Vec<Type>,
        result: &Option<Type>,
        operands: &Vec<Vec<char>>,
    ) -> (r: Result<Vec<Vec<char>>, GenError>)
        ensures
            gen_frame(*old(gen), *final(gen)),
            final(self).in_import == old(self).in_import,
            final(self).sig == old(self).sig,
            final(self).params == old(self).params,
    {
        if operands.len() != params.len() || operands.len() > self.sig.params.len() {
            return Err(GenError::BadInstruction);
        }
        let mut args: Vec<char> = Vec::new();
        let stem_arg = str_chars("arg");
        let mut i: usize = 0;
        while i < operands.len()
            invariant
                operands@.len() == params@.len(),
                operands@.len() <= self.sig.params@.len(),
                self.sig == old(self).sig,
                self.params == old(self).params,
                self.in_import == old(self).in_import,
                gen_frame(*old(gen), *gen),
            decreases operands@.len() - i,
        {
            if i > 0 {
                push_str(&mut args, ", ");
            }
            let byref = self.sig.params[i].by_pointer;
            if byref {
                let name = self.locals.tmp(&stem_arg);
                let tn = match gen.ty_name(&params[i]) {
                    Ok(n) => n,
                    Err(e) => {
                        return Err(e);
                    },
                };
                self.src.push_vec(&tn);
                self.src.push_str(" ");
                self.src.push_vec(&name);
                self.src.push_str(" = ");
                self.src.push_vec(&operands[i]);
                self.src.push_str(";\n");
                push_str(&mut args, "&");
                push_chars(&mut args, &name);
            } else {
                push_chars(&mut args, &operands[i]);
            }
            i += 1;
        }
        let scalar = match &self.sig.ret.scalar {
            Some(s) => Some(*s),
            None => None,
        };
        match scalar {
            None => {
                let rp = copy_types(&self.sig.ret.retptrs);
                let mut retptrs: Vec<Vec<char>> = Vec::new();
                let stem_ret = str_chars("ret");
                let mut k: usize = 0;
                while k < rp.len()
                    invariant
                        self.sig == old(self).sig,
                        self.params == old(self).params,
                        self.in_import == old(self).in_import,
                        gen_frame(*old(gen), *gen),
                    decreases rp@.len() - k,
                {
                    let name = self.locals.tmp(&stem_ret);
                    let tn = match gen.ty_name(&rp[k]) {
                        Ok(n) => n,
                        Err(e) => {
                            return Err(e);
                        },
                    };
                    self.src.push_vec(&tn);
                    self.src.push_str(" ");
                    self.src.push_vec(&name);
                    self.src.push_str(";\n");
                    if args.len() > 0 {
                        push_str(&mut args, ", ");
                    }
                    push_str(&mut args, "&");
                    push_chars(&mut args, &name);
                    retptrs.push(name);
                    k += 1;
                }
                self.src.push_vec(&self.sig.name);
                self.src.push_str("(");
                self.src.push_vec(&args);
                self.src.push_str(");\n");
                Ok(retptrs)
            },
            Some(Scalar::Void) => {
                self.src.push_vec(&self.sig.name);
                self.src.push_str("(");
                self.src.push_vec(&args);
                self.src.push_str(");\n");
                Ok(Vec::new())
            },
            Some(Scalar::Type(_)) => {
                let rt = match result {
                    Some(t) => *t,
                    None => {
                        return Err(GenError::BadInstruction);
                    },
                };
                let tn = match gen.ty_name(&rt) {
                    Ok(n) => n,
                    Err(e) => {
                        return Err(e);
                    },
                };
                let stem_ret = str_chars("ret");
                let ret = self.locals.tmp(&stem_ret);
                self.src.push_vec(&tn);
                self.src.push_str(" ");
                self.src.push_vec(&ret);
                self.src.push_str(" = ");
                self.src.push_vec(&self.sig.name);
                self.src.push_str("(");
                self.src.push_vec(&args);
                self.src.push_str(");\n");
                Ok(one_result(ret))
            },
            Some(Scalar::OptionBool(t)) => {
                let rt = match result {
                    Some(t2) => *t2,
                    None => {
                        return Err(GenError::BadInstruction);
                    },
                };
                let stem_ret = str_chars("ret");
                let ret = self.locals.tmp(&stem_ret);
                let stem_val = str_chars("val");
                let val = self.locals.tmp(&stem_val);
                if args.len() > 0 {
                    push_str(&mut args, ", ");
                }
                push_str(&mut args, "&");
                push_chars(&mut args, &val);
                let ptn = match gen.ty_name(&t) {
                    Ok(n) => n,
                    Err(e) => {
                        return Err(e);
                    },
                };
                self.src.push_vec(&ptn);
                self.src.push_str(" ");
                self.src.push_vec(&val);
                self.src.push_str(";\n");
                self.src.push_str("bool ");
                self.src.push_vec(&ret);
                self.src.push_str(" = ");
                self.src.push_vec(&self.sig.name);
                self.src.push_str("(");
                self.src.push_vec(&args);
                self.src.push_str(");\n");
                let otn = match gen.ty_name(&rt) {
                    Ok(n) => n,
                    Err(e) => {
                        return Err(e);
                    },
                };
                let oret = self.locals.tmp(&stem_ret);
                self.src.push_vec(&otn);
                self.src.push_str(" ");
                self.src.push_vec(&oret);
                self.src.push_str(";\n");
                self.src.push_vec(&oret);
                self.src.push_str(".is_some = ");
                self.src.push_vec(&ret);
                self.src.push_str(";\n");
                self.src.push_vec(&oret);
                self.src.push_str(".val = ");
                self.src.push_vec(&val);
                self.src.push_str(";\n");
                Ok(one_result(oret))
            },
            Some(Scalar::ResultBool(ok_t, err_t)) => {
                let rt = match result {
                    Some(t2) => *t2,
                    None => {
                        return Err(GenError::BadInstruction);
                    },
                };
                let rtn = match gen.ty_name(&rt) {
                    Ok(n) => n,
                    Err(e) => {
                        return Err(e);
                    },
                };
                let stem_ret = str_chars("ret");
                let ret = self.locals.tmp(&stem_ret);
                self.src.push_vec(&rtn);
                self.src.push_str(" ");
                self.src.push_vec(&ret);
                self.src.push_str(";\n");
                let rp = copy_types(&self.sig.ret.retptrs);
                let mut next: usize = 0;
                let mut ok_name: Option<Vec<char>> = None;
                if ok_t.is_some() && next < rp.len() {
                    let stem_ok = str_chars("ok");
                    let val = self.locals.tmp(&stem_ok);
                    if args.len() > 0 {
                        push_str(&mut args, ", ");
                    }
                    push_str(&mut args, "&");
                    push_chars(&mut args, &val);
                    let tn = match gen.ty_name(&rp[next]) {
                        Ok(n) => n,
                        Err(e) => {
                            return Err(e);
                        },
                    };
                    self.src.push_vec(&tn);
                    self.src.push_str(" ");
                    self.src.push_vec(&val);
                    self.src.push_str(";\n");
                    ok_name = Some(val);
                    next += 1;
                }
                let mut err_name: Option<Vec<char>> = None;
                if next < rp.len() {
                    let stem_err = str_chars("err");
                    let val = self.locals.tmp(&stem_err);
                    if args.len() > 0 {
                        push_str(&mut args, ", ");
                    }
                    push_str(&mut args, "&");
                    push_chars(&mut args, &val);
                    let tn = match gen.ty_name(&rp[next]) {
                        Ok(n) => n,
                        Err(e) => {
                            return Err(e);
                        },
                    };
                    self.src.push_vec(&tn);
                    self.src.push_str(" ");
                    self.src.push_vec(&val);
                    self.src.push_str(";\n");
                    err_name = Some(val);
                    next += 1;
                }
                if next != rp.len() {
                    return Err(GenError::BadInstruction);
                }
                self.src.push_vec(&ret);
                self.src.push_str(".is_err = !");
                self.src.push_vec(&self.sig.name);
                self.src.push_str("(");
                self.src.push_vec(&args);
                self.src.push_str(");\n");
                if err_t.is_some() {
                    if let Some(en) = &err_name {
                        self.src.push_str("if (");
                        self.src.push_vec(&ret);
                        self.src.push_str(".is_err) {\n");
                        self.src.push_vec(&ret);
                        self.src.push_str(".val.err = ");
                        self.src.push_vec(en);
                        self.src.push_str(";\n}\n");
                    }
                }
                if ok_t.is_some() {
                    if let Some(on) = &ok_name {
                        self.src.push_str("if (!");
                        self.src.push_vec(&ret);
                        self.src.push_str(".is_err) {\n");
                        self.src.push_vec(&ret);
                        self.src.push_str(".val.ok = ");
                        self.src.push_vec(on);
                        self.src.push_str(";\n}\n");
                    }
                }
                Ok(one_result(ret))
            },
        }
    }
}

/// One step of a lifting/lowering stream: open a nested block, close the
/// innermost block handing it its result expressions, or render an
/// instruction.
pub enum Op {
    /// Begin a nested block.
    PushBlock,
    /// Finish the innermost block; its last `results` stack entries become
    /// the block's operands.
    FinishBlock { results: usize },
    /// Render one instruction.
    Emit(Instruction),
}

/// How many operand expressions `inst` consumes.
pub fn op_pops(resolve: &Resolve, inst: &Instruction) -> (r: Result<usize, GenError>)
    requires
        resolve.wf(),
{
    match inst {
        Instruction::GetArg { .. } => Ok(0),
        Instruction::I32Const { .. } => Ok(0),
        Instruction::Bitcasts { casts } => Ok(casts.len()),
        Instruction::ConstZero { .. } => Ok(0),
        Instruction::RecordLower { ty } | Instruction::TupleLower { ty } | Instruction::RecordLift {
            ty,
        } | Instruction::TupleLift { ty } => {
            if *ty >= resolve.types.len() {
                return Err(GenError::BadTypeIndex);
            }
            match (&resolve.types[*ty].kind, inst) {
                (TypeDefKind::Record(fs), Instruction::RecordLift { .. }) => Ok(fs.len()),
                (TypeDefKind::Tuple(ts), Instruction::TupleLift { .. }) => Ok(ts.len()),
                (TypeDefKind::Record(_), Instruction::RecordLower { .. }) => Ok(1),
                (TypeDefKind::Tuple(_), Instruction::TupleLower { .. }) => Ok(1),
                _ => Err(GenError::BadInstruction),
            }
        },
        Instruction::HandleLower | Instruction::HandleLift { .. } => Ok(1),
        Instruction::FlagsLower { ty } => {
            if *ty >= resolve.types.len() {
                return Err(GenError::BadTypeIndex);
            }
            Ok(1)
        },
        Instruction::FlagsLift { ty } => {
            if *ty >= resolve.types.len() {
                return Err(GenError::BadTypeIndex);
            }
            let n: usize = match &resolve.types[*ty].kind {
                TypeDefKind::Flags(fs) => fs.len(),
                _ => {
                    return Err(GenError::BadInstruction);
                },
            };
            if n >= usize::MAX - 31 {
                return Err(GenError::Unsupported);
            }
            match crate::wit::flags_repr(n) {
                crate::wit::FlagsRepr::U8 | crate::wit::FlagsRepr::U16 => Ok(1),
                crate::wit::FlagsRepr::U32(w) => Ok(if w <= 1 {
                    1
                } else {
                    w
                }),
            }
        },
        Instruction::VariantPayloadName => Ok(0),
        Instruction::VariantLower { .. } | Instruction::VariantLift { .. } => Ok(1),
        Instruction::OptionLower { .. } | Instruction::OptionLift { .. } => Ok(1),
        Instruction::ResultLower { .. } | Instruction::ResultLift { .. } => Ok(1),
        Instruction::EnumLower | Instruction::EnumLift => Ok(1),
        Instruction::ListCanonLower | Instruction::StringLower | Instruction::ListLower => Ok(1),
        Instruction::ListCanonLift { .. } | Instruction::StringLift | Instruction::ListLift {
            ..
        } => Ok(2),
        Instruction::IterElem | Instruction::IterBasePointer => Ok(0),
        Instruction::CallWasm { sig } => Ok(sig.params.len()),
        Instruction::CallInterface { params, .. } => Ok(params.len()),
        Instruction::Return { amt } => Ok(*amt),
        Instruction::I32Load { .. } | Instruction::I32Load8U { .. } | Instruction::I32Load8S {
            ..
        } | Instruction::I32Load16U { .. } | Instruction::I32Load16S { .. }
            | Instruction::I64Load { .. } | Instruction::F32Load { .. } | Instruction::F64Load {
            ..
        } | Instruction::PointerLoad { .. } | Instruction::LengthLoad { .. } => Ok(1),
        Instruction::I32Store { .. } | Instruction::I32Store8 { .. } | Instruction::I32Store16 {
            ..
        } | Instruction::I64Store { .. } | Instruction::F32Store { .. } | Instruction::F64Store {
            ..
        } | Instruction::PointerStore { .. } | Instruction::LengthStore { .. } => Ok(2),
        Instruction::GuestDeallocate => Ok(1),
        Instruction::GuestDeallocateString => Ok(2),
        Instruction::GuestDeallocateVariant { .. } => Ok(1),
        Instruction::GuestDeallocateList { .. } => Ok(2),
        Instruction::Flush { amt } => Ok(*amt),
        _ => Ok(1),
    }
}

impl FunctionBindgen {
    /// Run a whole stream: the state machine that collects arguments, builds
    /// nested blocks, and ends in the return emission. Maintains the operand
    /// stack, popping what each instruction consumes and pushing what it
    /// produces; aborts on the first error.
    pub fn run(
        &mut self,
        gen: &mut Pascal,
        resolve: &Resolve,
        ops: &Vec<Op>,
    ) -> (r: Result<(), GenError>)
        requires
            resolve.wf(),
        ensures
            final(self).in_import == old(self).in_import,
            final(self).sig == old(self).sig,
            gen_frame(*old(gen), *final(gen)),
            ops@.len() == 0 ==> (r is Ok && *final(self) == *old(self) && *final(gen) == *old(
                gen,
            )),
    {
        let mut stack: Vec<Vec<char>> = Vec::new();
        let mut i: usize = 0;
        while i < ops.len()
            invariant
                resolve.wf(),
                self.in_import == old(self).in_import,
                self.sig == old(self).sig,
                gen_frame(*old(gen), *gen),
                ops@.len() == 0 ==> (*self == *old(self) && *gen == *old(gen)),
            decreases ops@.len() - i,
        {
            match &ops[i] {
                Op::PushBlock => {
                    self.push_block();
                },
                Op::FinishBlock { results } => {
                    if *results > stack.len() {
                        return Err(GenError::BadInstruction);
                    }
                    let at = stack.len() - *results;
                    let block_results = stack.split_off(at);
                    match self.finish_block(block_results) {
                        Ok(_) => {},
                        Err(e) => {
                            return Err(e);
                        },
                    }
                },
                Op::Emit(inst) => {
                    let n = match op_pops(resolve, inst) {
                        Ok(n) => n,
                        Err(e) => {
                            return Err(e);
                        },
                    };
                    if n > stack.len() {
                        return Err(GenError::BadInstruction);
                    }
                    let at = stack.len() - n;
                    let operands = stack.split_off(at);
                    let mut results = match self.emit(gen, resolve, inst, &operands) {
                        Ok(res) => res,
                        Err(e) => {
                            return Err(e);
                        },
                    };
                    stack.append(&mut results);
                },
            }
            i += 1;
        }
        Ok(())
    }
}


} // verus!
