use pascal::classify::{classify_ret, Scalar};
use pascal::err::GenError;
use pascal::gen::{Opts, Pascal, TypeNames};
use pascal::text::{chars_string, str_chars};
use pascal::tyname::{c_func_name, push_ty_name, Rename};
use pascal::wit::{
    Docs, FlagsRepr, Function, FunctionKind, Param, Resolve, Type, TypeDef, TypeDefKind,
    TypeOwner, flags_repr,
};
use pascal::worldgen::{print_sig, IfaceCtx};

fn s(v: &Vec<char>) -> String {
    chars_string(v)
}

fn no_docs() -> Docs {
    Docs { contents: None }
}

// Registering the same type identity twice is refused, and two distinct
// identities never receive the same name; a pooled primitive shape may share
// its name with other pooled entries only.
#[test]
fn registry_is_canonical() {
    let mut tn = TypeNames::new(8);
    assert!(tn.register(5, &str_chars("ns_a_t"), false).is_ok());
    assert!(matches!(
        tn.register(5, &str_chars("ns_b_t"), false),
        Err(GenError::DuplicateType)
    ));
    assert!(matches!(
        tn.register(3, &str_chars("ns_a_t"), false),
        Err(GenError::AlreadyDefined)
    ));
    assert_eq!(s(&tn.lookup(5).unwrap()), "ns_a_t");
    // Pooled primitive shapes share one global name.
    let reused_first = tn.register(1, &str_chars("w_list_u8_t"), true).unwrap();
    assert!(!reused_first);
    let reused_second = tn.register(2, &str_chars("w_list_u8_t"), true).unwrap();
    assert!(reused_second);
    assert_eq!(s(&tn.lookup(1).unwrap()), s(&tn.lookup(2).unwrap()));
    // A pooled name still may not collide with an individual one.
    assert!(tn.register(4, &str_chars("ns_a_t"), true).is_err());
}

#[test]
fn structural_encodings() {
    let resolve = Resolve {
        types: vec![
            TypeDef {
                name: None,
                kind: TypeDefKind::OptionOf(Type::Str),
                owner: TypeOwner::NoOwner,
                docs: no_docs(),
            },
            TypeDef {
                name: None,
                kind: TypeDefKind::Tuple(vec![Type::U32, Type::Id(0)]),
                owner: TypeOwner::NoOwner,
                docs: no_docs(),
            },
            TypeDef {
                name: None,
                kind: TypeDefKind::ResultOf(Some(Type::U32), None),
                owner: TypeOwner::NoOwner,
                docs: no_docs(),
            },
        ],
        interfaces: Vec::new(),
        packages: Vec::new(),
        worlds: Vec::new(),
    };
    let mut out: Vec<char> = Vec::new();
    push_ty_name(&resolve, &Type::Id(0), &mut out).unwrap();
    assert_eq!(s(&out), "option_string");
    let mut out2: Vec<char> = Vec::new();
    push_ty_name(&resolve, &Type::Id(1), &mut out2).unwrap();
    assert_eq!(s(&out2), "tuple2_u32_option_string");
    let mut out3: Vec<char> = Vec::new();
    push_ty_name(&resolve, &Type::Id(2), &mut out3).unwrap();
    assert_eq!(s(&out3), "result_u32_void");
}

#[test]
fn function_names_join_namespace_and_name() {
    let resolve = Resolve {
        types: Vec::new(),
        interfaces: Vec::new(),
        packages: Vec::new(),
        worlds: Vec::new(),
    };
    let renames: Vec<Rename> = Vec::new();
    let name = c_func_name(
        &resolve,
        true,
        &str_chars("demo"),
        &None,
        &str_chars("do-thing"),
        &renames,
    )
    .unwrap();
    assert_eq!(s(&name), "demo_do_thing");
    let ex = c_func_name(
        &resolve,
        false,
        &str_chars("demo"),
        &None,
        &str_chars("do-thing"),
        &renames,
    )
    .unwrap();
    assert_eq!(s(&ex), "exports_demo_do_thing");
}

#[test]
fn flags_representation_widths() {
    assert!(matches!(flags_repr(0), FlagsRepr::U32(0)));
    assert!(matches!(flags_repr(8), FlagsRepr::U8));
    assert!(matches!(flags_repr(16), FlagsRepr::U16));
    assert!(matches!(flags_repr(17), FlagsRepr::U32(1)));
    assert!(matches!(flags_repr(40), FlagsRepr::U32(2)));
}

// `f(x: u32) -> option<u32>` under flattening becomes a boolean-returning
// function with exactly one out-parameter of type `u32`.
#[test]
fn option_flattening_signature() {
    let resolve = Resolve {
        types: vec![TypeDef {
            name: None,
            kind: TypeDefKind::OptionOf(Type::U32),
            owner: TypeOwner::NoOwner,
            docs: no_docs(),
        }],
        interfaces: Vec::new(),
        packages: Vec::new(),
        worlds: Vec::new(),
    };
    let func = Function {
        name: str_chars("f"),
        kind: FunctionKind::Freestanding,
        params: vec![Param { name: str_chars("x"), ty: Type::U32 }],
        result: Some(Type::Id(0)),
        docs: no_docs(),
    };
    let ret = classify_ret(&resolve, &func.result, true).unwrap();
    assert!(matches!(ret.scalar, Some(Scalar::OptionBool(Type::U32))));
    assert_eq!(ret.retptrs.len(), 1);
    assert!(matches!(ret.retptrs[0], Type::U32));
    // The rendered header: boolean function, payload through `ret`.
    let mut gen = Pascal::new(Opts::new());
    gen.world = str_chars("w");
    gen.type_names = TypeNames::new(1);
    gen.type_names
        .register(0, &str_chars("w_option_u32_t"), true)
        .unwrap();
    let mut ctx = IfaceCtx::new(true, None, Some(str_chars("$root")));
    let cs = print_sig(&mut gen, &mut ctx, &resolve, &None, &func, true).unwrap();
    assert_eq!(s(&cs.sig), "function w_f(x: uint32; ret: Puint32): boolean");
    assert_eq!(cs.retptrs.len(), 1);
    assert_eq!(s(&cs.retptrs[0]), "ret");
    // Without flattening the same result is fully indirect.
    let ret2 = classify_ret(&resolve, &func.result, false).unwrap();
    assert!(ret2.scalar.is_none());
    assert_eq!(ret2.retptrs.len(), 1);
    assert!(matches!(ret2.retptrs[0], Type::Id(0)));
}

// `g() -> result<u32, string>` under flattening becomes a boolean-returning
// function with out-parameters `[ok, err]` in that order.
#[test]
fn result_flattening_signature() {
    let resolve = Resolve {
        types: vec![TypeDef {
            name: None,
            kind: TypeDefKind::ResultOf(Some(Type::U32), Some(Type::Str)),
            owner: TypeOwner::NoOwner,
            docs: no_docs(),
        }],
        interfaces: Vec::new(),
        packages: Vec::new(),
        worlds: Vec::new(),
    };
    let func = Function {
        name: str_chars("g"),
        kind: FunctionKind::Freestanding,
        params: Vec::new(),
        result: Some(Type::Id(0)),
        docs: no_docs(),
    };
    let ret = classify_ret(&resolve, &func.result, true).unwrap();
    assert!(matches!(
        ret.scalar,
        Some(Scalar::ResultBool(Some(Type::U32), Some(Type::Str)))
    ));
    assert_eq!(ret.retptrs.len(), 2);
    assert!(matches!(ret.retptrs[0], Type::U32));
    assert!(matches!(ret.retptrs[1], Type::Str));
    let mut gen = Pascal::new(Opts::new());
    gen.world = str_chars("w");
    gen.type_names = TypeNames::new(1);
    gen.type_names
        .register(0, &str_chars("w_result_u32_string_t"), true)
        .unwrap();
    let mut ctx = IfaceCtx::new(true, None, Some(str_chars("$root")));
    let cs = print_sig(&mut gen, &mut ctx, &resolve, &None, &func, true).unwrap();
    assert_eq!(
        s(&cs.sig),
        "function w_g(ret: Puint32; err: Pw_string_t): boolean"
    );
    assert_eq!(s(&cs.retptrs[0]), "ret");
    assert_eq!(s(&cs.retptrs[1]), "err");
}

// A void result yields no return value and no out-parameters.
#[test]
fn void_classification() {
    let resolve = Resolve {
        types: Vec::new(),
        interfaces: Vec::new(),
        packages: Vec::new(),
        worlds: Vec::new(),
    };
    let ret = classify_ret(&resolve, &None, true).unwrap();
    assert!(matches!(ret.scalar, Some(Scalar::Void)));
    assert_eq!(ret.retptrs.len(), 0);
}
