use pascal::bindgen::{CSig, FunctionBindgen, Instruction};
use pascal::casts::{
    flags_high_half, flags_join_halves, flags_low_half, lift_bool, lift_s16, lift_s8, lift_u16,
    lift_u32, lift_u64, lift_u8, lower_bool, lower_s16, lower_s8, lower_u16, lower_u32, lower_u64,
    lower_u8, perform_cast, Bitcast, UnionNeeds,
};
use pascal::classify::{Return, Scalar};
use pascal::err::GenError;
use pascal::gen::{Enabled, Opts, Pascal, ResourceInfo, Resources, TypeNames, TypeTexts};
use pascal::sig::{reject_multi_value, wasm_signature, AbiVariant, WasmSignature, WasmType};
use pascal::text::{chars_string, str_chars};
#[allow(unused_imports)]
use pascal::bindgen::Op;
use pascal::wit::{
    Direction, Docs, Function, FunctionKind, Handle, Param, Resolve, Type, TypeDef, TypeDefKind,
    TypeOwner,
};

fn s(v: &Vec<char>) -> String {
    chars_string(v)
}

fn no_docs() -> Docs {
    Docs { contents: None }
}

fn empty_resolve() -> Resolve {
    Resolve { types: Vec::new(), interfaces: Vec::new(), packages: Vec::new(), worlds: Vec::new() }
}

fn void_sig() -> CSig {
    CSig {
        name: str_chars("callee"),
        sig: Vec::new(),
        params: Vec::new(),
        ret: Return { scalar: Some(Scalar::Void), retptrs: Vec::new() },
        retptrs: Vec::new(),
    }
}

// Integer narrowing/widening round trips: lower-then-lift reproduces every
// representable value; out-of-range lowering truncates via two's-complement
// wraparound, not saturation.
#[test]
fn integer_round_trips() {
    for x in [0u8, 1, 127, 128, 255] {
        assert_eq!(lift_u8(lower_u8(x)), x);
    }
    assert_eq!(lift_u8(300), 44); // 300 mod 256, no saturation at 255
    assert_eq!(lift_u8(-1), 255);
    for x in [-128i8, -1, 0, 1, 127] {
        assert_eq!(lift_s8(lower_s8(x)), x);
    }
    assert_eq!(lift_s8(130), -126);
    for x in [0u16, 1, 65535] {
        assert_eq!(lift_u16(lower_u16(x)), x);
    }
    assert_eq!(lift_u16(65536 + 7), 7);
    for x in [-32768i16, -1, 0, 32767] {
        assert_eq!(lift_s16(lower_s16(x)), x);
    }
    for x in [0u32, 1, u32::MAX] {
        assert_eq!(lift_u32(lower_u32(x)), x);
    }
    for x in [0u64, 1, u64::MAX] {
        assert_eq!(lift_u64(lower_u64(x)), x);
    }
    assert_eq!(lift_bool(lower_bool(true)), true);
    assert_eq!(lift_bool(lower_bool(false)), false);
}

// A 40-member flags value survives the two-word split bit for bit.
#[test]
fn flags_two_word_round_trip() {
    let mask: u64 = 0xAB_CDEF_1234; // a 40-bit mask
    let lo = flags_low_half(mask);
    let hi = flags_high_half(mask);
    assert_eq!(flags_join_halves(lo, hi), mask);
    for mask in [0u64, 1, 0xFF_FFFF_FFFF, u64::MAX] {
        assert_eq!(
            flags_join_halves(flags_low_half(mask), flags_high_half(mask)),
            mask
        );
    }
}

#[test]
fn bitcasts_render_as_reinterpretations() {
    let op = str_chars("x");
    let mut needs = UnionNeeds {
        int32_float: false,
        float_int32: false,
        int64_double: false,
        double_int64: false,
    };
    let r = perform_cast(&op, &Bitcast::F32ToI32, &mut needs);
    assert_eq!(s(&r), "((union float_int32){ x }).b");
    assert!(needs.float_int32);
    let r2 = perform_cast(&op, &Bitcast::I32ToI64, &mut needs);
    assert_eq!(s(&r2), "int64(x)");
}

// The scalar conversion instructions render exactly the documented casts.
#[test]
fn scalar_conversions_render() {
    let resolve = empty_resolve();
    let mut gen = Pascal::new(Opts::new());
    let mut f = FunctionBindgen::new(void_sig(), str_chars("t"), true);
    let ops = vec![str_chars("v")];
    let r = f
        .emit(&mut gen, &resolve, &Instruction::U8FromI32, &ops)
        .unwrap();
    assert_eq!(s(&r[0]), "byte(v)");
    let r = f
        .emit(&mut gen, &resolve, &Instruction::I32FromU8, &ops)
        .unwrap();
    assert_eq!(s(&r[0]), "int32(v)");
    let r = f
        .emit(&mut gen, &resolve, &Instruction::BoolFromI32, &ops)
        .unwrap();
    assert_eq!(s(&r[0]), "((v) <> 0)");
    let r = f
        .emit(&mut gen, &resolve, &Instruction::I32FromBool, &ops)
        .unwrap();
    assert_eq!(s(&r[0]), "int32(ord(v))");
    let r = f
        .emit(&mut gen, &resolve, &Instruction::HandleLower, &ops)
        .unwrap();
    assert_eq!(s(&r[0]), "(v).__handle");
    let r = f
        .emit(&mut gen, &resolve, &Instruction::I32Load { offset: 4 }, &ops)
        .unwrap();
    assert_eq!(s(&r[0]), "Pint32(v + 4)^");
}

fn borrow_resolve() -> Resolve {
    Resolve {
        types: vec![
            TypeDef {
                name: Some(str_chars("res")),
                kind: TypeDefKind::Resource,
                owner: TypeOwner::Iface(0),
                docs: no_docs(),
            },
            TypeDef {
                name: None,
                kind: TypeDefKind::Handle(Handle::Borrow(0)),
                owner: TypeOwner::NoOwner,
                docs: no_docs(),
            },
        ],
        interfaces: Vec::new(),
        packages: Vec::new(),
        worlds: Vec::new(),
    }
}

fn gen_with_resource(direction: Direction) -> Pascal {
    let mut gen = Pascal::new(Opts::new());
    gen.type_names = TypeNames::new(2);
    gen.dtor_funcs = TypeTexts::new(2);
    gen.resources = Resources::new(2);
    gen.type_names
        .register(0, &str_chars("ns_res_t"), false)
        .unwrap();
    gen.type_names
        .register(1, &str_chars("ns_borrow_res_t"), false)
        .unwrap();
    gen.resources
        .register(
            0,
            ResourceInfo {
                direction,
                own: str_chars("ns_own_res_t"),
                borrow: str_chars("ns_borrow_res_t"),
                drop_fn: str_chars("__wasm_import_ns_res_drop"),
            },
        )
        .unwrap();
    gen
}

// A borrow of a resource this world exports lifts as a direct pointer cast
// and records nothing for deferred drop.
#[test]
fn exported_resource_borrow_is_pointer_cast() {
    let resolve = borrow_resolve();
    let mut gen = gen_with_resource(Direction::Export);
    gen.opts.autodrop_borrows = Enabled::Yes;
    let mut f = FunctionBindgen::new(void_sig(), str_chars("t"), false);
    let ops = vec![str_chars("arg0")];
    let r = f
        .emit(
            &mut gen,
            &resolve,
            &Instruction::HandleLift { handle: Handle::Borrow(0), ty: 1 },
            &ops,
        )
        .unwrap();
    assert_eq!(s(&r[0]), "((ns_res_t*) arg0)");
    assert_eq!(f.borrows.len(), 0);
}

// A borrow of an imported resource, lifted in an export body with autodrop
// on, is recorded once and dropped exactly once right before the return.
#[test]
fn imported_resource_borrow_is_autodropped_once() {
    let resolve = borrow_resolve();
    let mut gen = gen_with_resource(Direction::Import);
    gen.opts.autodrop_borrows = Enabled::Yes;
    let mut f = FunctionBindgen::new(void_sig(), str_chars("t"), false);
    let ops = vec![str_chars("arg0")];
    let r = f
        .emit(
            &mut gen,
            &resolve,
            &Instruction::HandleLift { handle: Handle::Borrow(0), ty: 1 },
            &ops,
        )
        .unwrap();
    assert_eq!(s(&r[0]), "ns_borrow_res_t(arg0)");
    assert_eq!(f.borrows.len(), 1);
    let rets = vec![str_chars("result0")];
    f.emit(&mut gen, &resolve, &Instruction::Return { amt: 1 }, &rets)
        .unwrap();
    let body = f.src.as_str();
    let drops = body.matches("__wasm_import_ns_res_drop(").count();
    assert_eq!(drops, 1);
    let drop_at = body.find("__wasm_import_ns_res_drop(").unwrap();
    let ret_at = body.find("return result0;").unwrap();
    assert!(drop_at < ret_at);
}

// Without autodrop, nothing is recorded.
#[test]
fn imported_resource_borrow_without_autodrop() {
    let resolve = borrow_resolve();
    let mut gen = gen_with_resource(Direction::Import);
    let mut f = FunctionBindgen::new(void_sig(), str_chars("t"), false);
    let ops = vec![str_chars("arg0")];
    f.emit(
        &mut gen,
        &resolve,
        &Instruction::HandleLift { handle: Handle::Borrow(0), ty: 1 },
        &ops,
    )
    .unwrap();
    assert_eq!(f.borrows.len(), 0);
}

// A core signature with more than one result is rejected before any code is
// emitted for the function.
#[test]
fn multi_value_return_is_rejected() {
    let two = WasmSignature {
        params: Vec::new(),
        results: vec![WasmType::I32, WasmType::I32],
        indirect_params: false,
        retptr: false,
    };
    assert!(matches!(reject_multi_value(&two), Err(GenError::MultiValueReturn)));
    let one = WasmSignature {
        params: Vec::new(),
        results: vec![WasmType::I32],
        indirect_params: false,
        retptr: false,
    };
    assert!(reject_multi_value(&one).is_ok());
    // The interpreter refuses it at the call site too, before emitting.
    let resolve = empty_resolve();
    let mut gen = Pascal::new(Opts::new());
    let mut f = FunctionBindgen::new(void_sig(), str_chars("t"), true);
    let before = f.src.len();
    let r = f.emit(&mut gen, &resolve, &Instruction::CallWasm { sig: two }, &Vec::new());
    assert!(matches!(r, Err(GenError::MultiValueReturn)));
    assert_eq!(f.src.len(), before);
}

// The flattening itself never produces more than one core result: a wide
// tuple result falls back to a return pointer.
#[test]
fn wide_results_use_retptr() {
    let resolve = Resolve {
        types: vec![TypeDef {
            name: Some(str_chars("pair")),
            kind: TypeDefKind::Tuple(vec![Type::U32, Type::U32]),
            owner: TypeOwner::NoOwner,
            docs: no_docs(),
        }],
        interfaces: Vec::new(),
        packages: Vec::new(),
        worlds: Vec::new(),
    };
    let func = Function {
        name: str_chars("f"),
        kind: FunctionKind::Freestanding,
        params: Vec::new(),
        result: Some(Type::Id(0)),
        docs: no_docs(),
    };
    let imp = wasm_signature(&resolve, AbiVariant::GuestImport, &func).unwrap();
    assert!(imp.retptr);
    assert_eq!(imp.results.len(), 0);
    assert_eq!(imp.params.len(), 1); // the return pointer
    let exp = wasm_signature(&resolve, AbiVariant::GuestExport, &func).unwrap();
    assert!(exp.retptr);
    assert_eq!(exp.results.len(), 1);
    assert!(matches!(exp.results[0], WasmType::Pointer));
}

// Flags with more than 32 members travel as two words, low bits first.
#[test]
fn forty_member_flags_lower_and_lift() {
    let mut flags = Vec::new();
    for i in 0..40u32 {
        let mut name = str_chars("f");
        pascal::text::push_usize(&mut name, i as usize);
        flags.push(pascal::wit::Flag { name, docs: Docs { contents: None } });
    }
    let resolve = Resolve {
        types: vec![TypeDef {
            name: Some(str_chars("big")),
            kind: TypeDefKind::Flags(flags),
            owner: TypeOwner::NoOwner,
            docs: no_docs(),
        }],
        interfaces: Vec::new(),
        packages: Vec::new(),
        worlds: Vec::new(),
    };
    let mut gen = Pascal::new(Opts::new());
    gen.type_names = TypeNames::new(1);
    gen.type_names.register(0, &str_chars("w_big_t"), false).unwrap();
    let mut f = FunctionBindgen::new(void_sig(), str_chars("t"), true);
    let ops = vec![str_chars("v")];
    let lowered = f
        .emit(&mut gen, &resolve, &Instruction::FlagsLower { ty: 0 }, &ops)
        .unwrap();
    assert_eq!(lowered.len(), 2);
    assert!(s(&lowered[0]).ends_with(" & 0xffffffff"));
    assert!(s(&lowered[1]).contains(">> 32"));
    let halves = vec![str_chars("lo"), str_chars("hi")];
    let lifted = f
        .emit(&mut gen, &resolve, &Instruction::FlagsLift { ty: 0 }, &halves)
        .unwrap();
    assert_eq!(s(&lifted[0]), "((w_big_t) (lo)) | (((w_big_t) (hi)) << 32)");
}

fn option_bool_sig() -> CSig {
    CSig {
        name: str_chars("w_f"),
        sig: Vec::new(),
        params: Vec::new(),
        ret: Return {
            scalar: Some(Scalar::OptionBool(pascal::wit::Type::U32)),
            retptrs: vec![pascal::wit::Type::U32],
        },
        retptrs: vec![str_chars("ret")],
    }
}

// The import-side return of a flattened option stores the payload through
// the out-parameter and exits on the discriminant.
#[test]
fn option_import_return_text() {
    let resolve = empty_resolve();
    let mut gen = Pascal::new(Opts::new());
    let mut f = FunctionBindgen::new(option_bool_sig(), str_chars("t"), true);
    let ops = vec![str_chars("v")];
    let res = f
        .emit(&mut gen, &resolve, &Instruction::Return { amt: 1 }, &ops)
        .unwrap();
    assert_eq!(res.len(), 0);
    assert_eq!(f.src.as_str(), "ret^ := v.val;\nexit(v.is_some);\n");
}

// The import-side return of a flattened result fills the ok slot on the ok
// path and the err slot on the err path, exiting true or false.
#[test]
fn result_import_return_text() {
    let resolve = empty_resolve();
    let mut gen = Pascal::new(Opts::new());
    let sig = CSig {
        name: str_chars("w_g"),
        sig: Vec::new(),
        params: Vec::new(),
        ret: Return {
            scalar: Some(Scalar::ResultBool(
                Some(pascal::wit::Type::U32),
                Some(pascal::wit::Type::Str),
            )),
            retptrs: vec![pascal::wit::Type::U32, pascal::wit::Type::Str],
        },
        retptrs: vec![str_chars("ret"), str_chars("err")],
    };
    let mut f = FunctionBindgen::new(sig, str_chars("t"), true);
    let ops = vec![str_chars("v")];
    f.emit(&mut gen, &resolve, &Instruction::Return { amt: 1 }, &ops)
        .unwrap();
    let body = f.src.as_str();
    assert!(body.contains("if not v.is_err then"));
    assert!(body.contains("ret^ := v.ok;"));
    assert!(body.contains("exit(true);"));
    assert!(body.contains("err^ := v.err;"));
    assert!(body.contains("exit(false);"));
    assert_eq!(f.ret_store_cnt, 2);
}

// Pure conversions append no statements to the body.
#[test]
fn pure_conversions_leave_the_body_alone() {
    let resolve = empty_resolve();
    let mut gen = Pascal::new(Opts::new());
    let mut f = FunctionBindgen::new(void_sig(), str_chars("t"), true);
    let ops = vec![str_chars("v")];
    f.emit(&mut gen, &resolve, &Instruction::U8FromI32, &ops).unwrap();
    f.emit(&mut gen, &resolve, &Instruction::I32Load { offset: 0 }, &ops)
        .unwrap();
    assert_eq!(f.src.len(), 0);
}

// Deallocation instructions render the exact free calls.
#[test]
fn dealloc_texts() {
    let resolve = empty_resolve();
    let mut gen = Pascal::new(Opts::new());
    let mut f = FunctionBindgen::new(void_sig(), str_chars("t"), true);
    f.emit(&mut gen, &resolve, &Instruction::GuestDeallocate, &vec![str_chars("p")])
        .unwrap();
    assert_eq!(f.src.as_str(), "free(p);\n");
    let mut f2 = FunctionBindgen::new(void_sig(), str_chars("t"), true);
    f2.emit(
        &mut gen,
        &resolve,
        &Instruction::GuestDeallocateString,
        &vec![str_chars("p"), str_chars("l")],
    )
    .unwrap();
    assert_eq!(f2.src.as_str(), "if ((l) > 0) {\n  free(p);\n}\n");
}

// The return-pointer allocator tracks the maxima and emits the area binding.
#[test]
fn return_pointer_areas() {
    let mut gen = Pascal::new(Opts::new());
    let mut f = FunctionBindgen::new(void_sig(), str_chars("t"), true);
    let p = f.return_pointer(&mut gen, 8, 4).unwrap();
    assert_eq!(chars_string(&p), "ptr");
    let _ = f.return_pointer(&mut gen, 16, 8).unwrap();
    let _ = f.return_pointer(&mut gen, 4, 2).unwrap();
    assert_eq!(f.import_return_pointer_area_size, 16);
    assert_eq!(f.import_return_pointer_area_align, 8);
    assert_eq!(gen.return_pointer_area_size, 0);
    assert!(f.src.as_str().contains("ptr := Pbyte(@ret_area);"));
    let mut fx = FunctionBindgen::new(void_sig(), str_chars("t"), false);
    let _ = fx.return_pointer(&mut gen, 24, 8).unwrap();
    assert_eq!(gen.return_pointer_area_size, 24);
    assert!(fx.src.as_str().contains("ptr := Pbyte(@STATIC_RET_AREA);"));
}
