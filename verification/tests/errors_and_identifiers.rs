use pascal::bindgen::{FunctionBindgen, Instruction, CSig};
use pascal::classify::{Return, Scalar};
use pascal::err::GenError;
use pascal::gen::{Enabled, Opts, Pascal, ResourceInfo, Resources, TypeNames, TypeTexts};
use pascal::text::{chars_string, str_chars};
use pascal::tyname::{interface_identifier, Rename};
use pascal::wit::{
    Direction, Docs, Handle, Iface, Package, PackageName, Resolve, Type, TypeDef, TypeDefKind,
    TypeOwner, WorldKey,
};
use pascal::worldgen::{type_resource, IfaceCtx};

fn s(v: &Vec<char>) -> String {
    chars_string(v)
}

fn no_docs() -> Docs {
    Docs { contents: None }
}

fn void_sig() -> CSig {
    CSig {
        name: str_chars("callee"),
        sig: Vec::new(),
        params: Vec::new(),
        ret: Return { scalar: Some(Scalar::Void), retptrs: Vec::new() },
        retptrs: Vec::new(),
    }
}

#[test]
fn interface_identifier_embeds_versions_only_when_needed() {
    let resolve = Resolve {
        types: Vec::new(),
        interfaces: vec![Iface {
            name: Some(str_chars("api")),
            package: Some(0),
            functions: Vec::new(),
        }],
        packages: vec![
            Package {
                name: PackageName {
                    namespace: str_chars("demo"),
                    name: str_chars("pkg"),
                    version: Some(str_chars("1.2.0")),
                },
            },
            Package {
                name: PackageName {
                    namespace: str_chars("demo"),
                    name: str_chars("pkg"),
                    version: Some(str_chars("2.0.0-rc")),
                },
            },
        ],
        worlds: Vec::new(),
    };
    let renames: Vec<Rename> = Vec::new();
    let id = interface_identifier(&resolve, &WorldKey::Iface(0), false, &renames).unwrap();
    assert_eq!(s(&id), "demo_pkg_1_2_0_api");
    let ex = interface_identifier(&resolve, &WorldKey::Iface(0), true, &renames).unwrap();
    assert_eq!(s(&ex), "exports_demo_pkg_1_2_0_api");
    // A requested rename wins, with the export prefix for interface keys.
    let renames = vec![Rename { key: WorldKey::Iface(0), to: str_chars("nice") }];
    let rn = interface_identifier(&resolve, &WorldKey::Iface(0), true, &renames).unwrap();
    assert_eq!(s(&rn), "exports_nice");
}

#[test]
fn duplicate_resource_registration_is_a_defect() {
    let mut res = Resources::new(2);
    let info = || ResourceInfo {
        direction: Direction::Import,
        own: str_chars("o"),
        borrow: str_chars("b"),
        drop_fn: str_chars("d"),
    };
    assert!(res.register(0, info()).is_ok());
    assert!(matches!(res.register(0, info()), Err(GenError::DuplicateResource)));
    assert!(matches!(res.register(5, info()), Err(GenError::BadTypeIndex)));
}

#[test]
fn lookups_before_definition_fail_loudly() {
    let mut gen = Pascal::new(Opts::new());
    gen.type_names = TypeNames::new(4);
    assert!(matches!(gen.ty_name(&Type::Id(2)), Err(GenError::MissingEntry)));
}

#[test]
fn wrong_operand_count_is_refused() {
    let resolve = Resolve {
        types: Vec::new(),
        interfaces: Vec::new(),
        packages: Vec::new(),
        worlds: Vec::new(),
    };
    let mut gen = Pascal::new(Opts::new());
    let mut f = FunctionBindgen::new(void_sig(), str_chars("t"), true);
    let none: Vec<Vec<char>> = Vec::new();
    assert!(matches!(
        f.emit(&mut gen, &resolve, &Instruction::U8FromI32, &none),
        Err(GenError::BadInstruction)
    ));
}

// Lifting a list whose elements hold a droppable borrow has no valid drop
// point and must fail fast.
#[test]
fn list_of_borrows_cannot_be_autodropped() {
    let resolve = Resolve {
        types: vec![
            TypeDef {
                name: Some(str_chars("res")),
                kind: TypeDefKind::Resource,
                owner: TypeOwner::NoOwner,
                docs: no_docs(),
            },
            TypeDef {
                name: None,
                kind: TypeDefKind::Handle(Handle::Borrow(0)),
                owner: TypeOwner::NoOwner,
                docs: no_docs(),
            },
            TypeDef {
                name: None,
                kind: TypeDefKind::ListOf(Type::Id(1)),
                owner: TypeOwner::NoOwner,
                docs: no_docs(),
            },
        ],
        interfaces: Vec::new(),
        packages: Vec::new(),
        worlds: Vec::new(),
    };
    let mut gen = Pascal::new(Opts::new());
    gen.opts.autodrop_borrows = Enabled::Yes;
    gen.type_names = TypeNames::new(3);
    gen.dtor_funcs = TypeTexts::new(3);
    gen.resources = Resources::new(3);
    gen.resources
        .register(
            0,
            ResourceInfo {
                direction: Direction::Import,
                own: str_chars("o"),
                borrow: str_chars("b"),
                drop_fn: str_chars("d"),
            },
        )
        .unwrap();
    let mut f = FunctionBindgen::new(void_sig(), str_chars("t"), false);
    let ops = vec![str_chars("p"), str_chars("l")];
    let r = f.emit(
        &mut gen,
        &resolve,
        &Instruction::ListCanonLift { element: Type::Id(1), ty: 2 },
        &ops,
    );
    assert!(matches!(r, Err(GenError::BorrowEscapes)));
}

// Resources exported straight from a world, without an interface, are not
// supported.
#[test]
fn world_resource_export_is_refused() {
    let resolve = Resolve {
        types: vec![TypeDef {
            name: Some(str_chars("res")),
            kind: TypeDefKind::Resource,
            owner: TypeOwner::World(0),
            docs: no_docs(),
        }],
        interfaces: Vec::new(),
        packages: Vec::new(),
        worlds: Vec::new(),
    };
    let mut gen = Pascal::new(Opts::new());
    gen.world = str_chars("w");
    gen.type_names = TypeNames::new(1);
    gen.dtor_funcs = TypeTexts::new(1);
    gen.resources = Resources::new(1);
    gen.type_names.register(0, &str_chars("w_res_t"), false).unwrap();
    let mut ctx = IfaceCtx::new(false, None, None);
    let r = type_resource(&mut gen, &mut ctx, &resolve, 0);
    assert!(matches!(r, Err(GenError::WorldResourceExport)));
}

// Importing a resource emits the drop intrinsic and the own-to-borrow
// conversion with the fixed host import names.
#[test]
fn imported_resource_helpers() {
    let resolve = Resolve {
        types: vec![TypeDef {
            name: Some(str_chars("blob")),
            kind: TypeDefKind::Resource,
            owner: TypeOwner::World(0),
            docs: no_docs(),
        }],
        interfaces: Vec::new(),
        packages: Vec::new(),
        worlds: Vec::new(),
    };
    let mut gen = Pascal::new(Opts::new());
    gen.world = str_chars("w");
    gen.type_names = TypeNames::new(1);
    gen.dtor_funcs = TypeTexts::new(1);
    gen.resources = Resources::new(1);
    gen.type_names.register(0, &str_chars("w_blob_t"), false).unwrap();
    let mut ctx = IfaceCtx::new(true, None, Some(str_chars("$root")));
    type_resource(&mut gen, &mut ctx, &resolve, 0).unwrap();
    let ch = ctx.src.c_helpers.as_str();
    assert!(ch.contains("external '$root' name '[resource-drop]blob';"));
    assert!(ch.contains("function w_borrow_blob(handle: w_own_blob_t): w_borrow_blob_t;"));
    assert_eq!(s(&gen.resources.own_name(0).unwrap()), "w_own_blob_t");
}
