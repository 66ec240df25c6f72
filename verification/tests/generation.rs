use pascal::bindgen::{Instruction, Op};
use pascal::err::GenError;
use pascal::gen::{Opts, Pascal, Resources, StringEncoding, TypeNames, TypeTexts};
use pascal::sig::{WasmSignature, WasmType};
use pascal::text::{chars_string, str_chars};
use pascal::wit::{Docs, Function, FunctionKind, Param, Resolve, Type, TypeDef, TypeDefKind, TypeOwner};
use pascal::worldgen::{finish, import_func, Files, IfaceCtx};

fn no_docs() -> Docs {
    Docs { contents: None }
}

fn empty_resolve() -> Resolve {
    Resolve { types: Vec::new(), interfaces: Vec::new(), packages: Vec::new(), worlds: Vec::new() }
}

fn fresh_gen(world: &str, ntypes: usize) -> Pascal {
    let mut gen = Pascal::new(Opts::new());
    gen.world = str_chars(world);
    gen.type_names = TypeNames::new(ntypes);
    gen.dtor_funcs = TypeTexts::new(ntypes);
    gen.resources = Resources::new(ntypes);
    gen
}

// A scalar import end to end: the trampoline declaration, the public header,
// and the adapter body rendered from its lowering stream.
#[test]
fn scalar_import_renders_whole_adapter() {
    let resolve = empty_resolve();
    let mut gen = fresh_gen("demo", 0);
    let mut ctx = IfaceCtx::new(true, None, Some(str_chars("$root")));
    let func = Function {
        name: str_chars("ping"),
        kind: FunctionKind::Freestanding,
        params: vec![Param { name: str_chars("x"), ty: Type::U32 }],
        result: Some(Type::U32),
        docs: no_docs(),
    };
    let call_sig = WasmSignature {
        params: vec![WasmType::I32],
        results: vec![WasmType::I32],
        indirect_params: false,
        retptr: false,
    };
    let ops = vec![
        Op::Emit(Instruction::GetArg { nth: 0 }),
        Op::Emit(Instruction::I32FromU32),
        Op::Emit(Instruction::CallWasm { sig: call_sig }),
        Op::Emit(Instruction::U32FromI32),
        Op::Emit(Instruction::Return { amt: 1 }),
    ];
    import_func(&mut gen, &mut ctx, &resolve, &None, &func, &ops).unwrap();
    let header = ctx.src.h_fns.as_str();
    assert!(header.contains("function demo_ping(x: uint32): uint32;"));
    let trampoline = ctx.src.c_fns.as_str();
    assert!(trampoline.contains("function __wasm_import_demo_ping(para1: int32): int32"));
    assert!(trampoline.contains("external '$root' name 'ping';"));
    let adapter = ctx.src.c_adapters.as_str();
    assert!(adapter.contains("__wasm_import_demo_ping(int32(x));"));
    assert!(adapter.contains("exit(uint32(ret));"));
}

// Unsupported canonical ABI features abort generation with a hard error.
#[test]
fn unsupported_features_abort() {
    let resolve = Resolve {
        types: vec![TypeDef {
            name: Some(str_chars("fut")),
            kind: TypeDefKind::Future,
            owner: TypeOwner::NoOwner,
            docs: no_docs(),
        }],
        interfaces: Vec::new(),
        packages: Vec::new(),
        worlds: Vec::new(),
    };
    let r = pascal::classify::classify_ret(&resolve, &Some(Type::Id(0)), true);
    assert!(matches!(r, Err(GenError::Unsupported)));
    // The compact UTF-16 encoding has no character type.
    let mut gen = fresh_gen("w", 0);
    gen.opts.string_encoding = StringEncoding::CompactUtf16;
    assert!(matches!(gen.char_type(), Err(GenError::Unsupported)));
}

// Assembling a pass yields the three text units; string helpers appear when
// strings were used.
#[test]
fn finish_emits_three_units() {
    let resolve = empty_resolve();
    let mut gen = fresh_gen("demo", 0);
    gen.needs_string = true;
    let mut files = Files::new();
    finish(&mut gen, &resolve, &mut files, None).unwrap();
    assert_eq!(files.entries.len(), 3);
    let names: Vec<String> = files
        .entries
        .iter()
        .map(|(n, _)| chars_string(n))
        .collect();
    assert!(names.contains(&"demo.pas".to_string()));
    assert!(names.contains(&"demoh.inc".to_string()));
    assert!(names.contains(&"demo.inc".to_string()));
    for (name, data) in files.entries.iter() {
        if chars_string(name) == "demoh.inc" {
            match data {
                pascal::worldgen::FileData::Text(t) => {
                    let text = chars_string(t);
                    assert!(text.contains("demo_string_t = record"));
                    assert!(text.contains("{$ifndef __BINDINGS_DEMO_H}"));
                }
                _ => panic!("expected a text unit"),
            }
        }
    }
}

// The static return area appears only when an export needed one, sized to
// the largest indirect return of the pass.
#[test]
fn static_return_area_is_sized_to_maximum() {
    let resolve = empty_resolve();
    let mut gen = fresh_gen("demo", 0);
    gen.return_pointer_area_size = 24;
    gen.return_pointer_area_align = 8;
    let mut files = Files::new();
    finish(&mut gen, &resolve, &mut files, None).unwrap();
    for (name, data) in files.entries.iter() {
        if chars_string(name) == "demo.inc" {
            match data {
                pascal::worldgen::FileData::Text(t) => {
                    let text = chars_string(t);
                    assert!(text.contains("STATIC_RET_AREA[24]"));
                    assert!(text.contains("__aligned__(8)"));
                }
                _ => panic!("expected a text unit"),
            }
        }
    }
}

// An imported resource renders its drop helper, both index-wrapper records
// and the own-to-borrow conversion, and registers its drop intrinsic.
#[test]
fn imported_resource_renders_handles_and_drop() {
    let resolve = Resolve {
        types: vec![TypeDef {
            name: Some(str_chars("blob")),
            kind: TypeDefKind::Resource,
            owner: TypeOwner::NoOwner,
            docs: Docs { contents: None },
        }],
        interfaces: Vec::new(),
        packages: Vec::new(),
        worlds: Vec::new(),
    };
    let mut gen = fresh_gen("demo", 1);
    let mut ctx = IfaceCtx::new(true, None, Some(str_chars("demo:pkg/store")));
    pascal::worldgen::type_resource(&mut gen, &mut ctx, &resolve, 0).unwrap();
    let helpers = ctx.src.h_helpers.as_str();
    assert!(helpers.contains("procedure demo_blob_drop_own(handle: demo_own_blob_t);"));
    assert!(helpers.contains("function demo_borrow_blob(handle: demo_own_blob_t): demo_borrow_blob_t;"));
    let bodies = ctx.src.c_helpers.as_str();
    assert!(bodies.contains(
        "procedure __wasm_import_demo_blob_drop(handle: int32); external 'demo:pkg/store' name '[resource-drop]blob';"
    ));
    assert!(bodies.contains("__wasm_import_demo_blob_drop(handle.__handle);"));
    let defs = ctx.src.h_defs.as_str();
    assert!(defs.contains("demo_own_blob_t = record"));
    assert!(defs.contains("demo_borrow_blob_t = record"));
    let drop_fn = gen.resources.drop_fn(0).unwrap();
    assert_eq!(chars_string(&drop_fn), "__wasm_import_demo_blob_drop");
}

// Under signature flattening an option-typed parameter becomes a nullable
// `maybe_` pointer to its payload.
#[test]
fn flattened_option_parameter_is_maybe_pointer() {
    let resolve = Resolve {
        types: vec![TypeDef {
            name: None,
            kind: TypeDefKind::OptionOf(Type::U32),
            owner: TypeOwner::NoOwner,
            docs: Docs { contents: None },
        }],
        interfaces: Vec::new(),
        packages: Vec::new(),
        worlds: Vec::new(),
    };
    let mut gen = fresh_gen("demo", 1);
    gen.type_names.register(0, &str_chars("demo_option_u32_t"), false).unwrap();
    let mut ctx = IfaceCtx::new(true, None, Some(str_chars("$root")));
    let func = Function {
        name: str_chars("take"),
        kind: FunctionKind::Freestanding,
        params: vec![Param { name: str_chars("x"), ty: Type::Id(0) }],
        result: None,
        docs: no_docs(),
    };
    let cs = pascal::worldgen::print_sig(&mut gen, &mut ctx, &resolve, &None, &func, true).unwrap();
    let sig = chars_string(&cs.sig);
    assert!(sig.contains("maybe_x: Puint32"), "{sig}");
    let mut gen2 = fresh_gen("demo", 1);
    gen2.type_names.register(0, &str_chars("demo_option_u32_t"), false).unwrap();
    let flat = pascal::worldgen::print_sig(&mut gen2, &mut ctx, &resolve, &None, &func, false).unwrap();
    let sig2 = chars_string(&flat.sig);
    assert!(sig2.contains("x: Pdemo_option_u32_t"), "{sig2}");
}
