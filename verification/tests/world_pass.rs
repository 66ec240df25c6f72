use pascal::gen::{Opts, Pascal, Resources, TypeNames, TypeTexts};
use pascal::text::{chars_string, str_chars};
use pascal::wit::{
    Docs, Field, Iface, Package, PackageName, Resolve, Type, TypeDef, TypeDefKind, TypeOwner,
    World, WorldItem, WorldKey,
};
use pascal::world::imported_types_used_by_exported_interfaces;
use pascal::worldgen::{define_live_types, IfaceCtx};

fn s(v: &Vec<char>) -> String {
    chars_string(v)
}

fn no_docs() -> Docs {
    Docs { contents: None }
}

// A world that imports interface 0 and exports interface 1, where the export
// reaches one of the import's types but not the other.
fn shared_world() -> Resolve {
    let t0 = TypeDef {
        // An import-owned record the export leans on.
        name: Some(str_chars("shared")),
        kind: TypeDefKind::Record(vec![Field {
            name: str_chars("a"),
            ty: Type::U32,
            docs: no_docs(),
        }]),
        owner: TypeOwner::Iface(0),
        docs: no_docs(),
    };
    let t1 = TypeDef {
        // An import-owned record nothing exported reaches.
        name: Some(str_chars("orphan")),
        kind: TypeDefKind::Record(vec![Field {
            name: str_chars("b"),
            ty: Type::U32,
            docs: no_docs(),
        }]),
        owner: TypeOwner::Iface(0),
        docs: no_docs(),
    };
    let t2 = TypeDef {
        // The export-owned record wrapping the shared one.
        name: Some(str_chars("wrapper")),
        kind: TypeDefKind::Record(vec![Field {
            name: str_chars("inner"),
            ty: Type::Id(0),
            docs: no_docs(),
        }]),
        owner: TypeOwner::Iface(1),
        docs: no_docs(),
    };
    Resolve {
        types: vec![t0, t1, t2],
        interfaces: vec![
            Iface { name: Some(str_chars("imports")), package: Some(0), functions: Vec::new() },
            Iface { name: Some(str_chars("exports")), package: Some(0), functions: Vec::new() },
        ],
        packages: vec![Package {
            name: PackageName {
                namespace: str_chars("demo"),
                name: str_chars("pkg"),
                version: None,
            },
        }],
        worlds: vec![World {
            name: str_chars("w"),
            imports: vec![(WorldKey::Iface(0), WorldItem::Iface(0))],
            exports: vec![(WorldKey::Iface(1), WorldItem::Iface(1))],
        }],
    }
}

// After import/export processing, surviving import-side entries are exactly
// the import-owned types an exported interface transitively reaches.
#[test]
fn purge_keeps_exactly_the_export_reachable_imports() {
    let resolve = shared_world();
    let live = imported_types_used_by_exported_interfaces(&resolve, 0);
    assert_eq!(live.len(), 3);
    assert!(live[0]); // reached through the exported wrapper
    assert!(!live[1]); // import-only
    let mut gen = Pascal::new(Opts::new());
    gen.world = str_chars("w");
    gen.type_names = TypeNames::new(3);
    gen.dtor_funcs = TypeTexts::new(3);
    gen.resources = Resources::new(3);
    gen.type_names.register(0, &str_chars("a_t"), false).unwrap();
    gen.type_names.register(1, &str_chars("b_t"), false).unwrap();
    gen.remove_types_redefined_by_exports(&resolve, 0);
    assert!(gen.type_names.lookup(0).is_ok());
    assert!(gen.type_names.lookup(1).is_err());
}

// Registering the same identity twice within one pass yields the same name
// both times and does not re-emit its declaration.
#[test]
fn defining_live_types_is_idempotent() {
    let resolve = shared_world();
    let mut gen = Pascal::new(Opts::new());
    gen.world = str_chars("w");
    gen.type_names = TypeNames::new(3);
    gen.dtor_funcs = TypeTexts::new(3);
    gen.resources = Resources::new(3);
    let key = WorldKey::Iface(0);
    let mut ctx = IfaceCtx::new(true, Some((0, key)), Some(str_chars("demo:pkg/imports")));
    let live = vec![true, true, false];
    define_live_types(&mut gen, &mut ctx, &resolve, &live).unwrap();
    let first = s(&gen.type_names.lookup(0).unwrap());
    assert_eq!(first, "demo_pkg_imports_shared_t");
    let defs_len_after_first = ctx.src.h_defs.len();
    // A second pass over the same live set re-emits nothing and keeps names.
    define_live_types(&mut gen, &mut ctx, &resolve, &live).unwrap();
    assert_eq!(s(&gen.type_names.lookup(0).unwrap()), first);
    assert_eq!(ctx.src.h_defs.len(), defs_len_after_first);
}

#[test]
fn waitable_handles_are_nonzero() {
    let w = pascal::waitable::WaitableSet::from_raw(7).unwrap();
    assert_eq!(w.as_raw(), 7);
    assert!(pascal::waitable::WaitableSet::from_raw(0).is_err());
}

// The executable well-formedness check accepts exactly what the proofs
// assume: a topologically sorted table with in-range references.
#[test]
fn resolver_check_catches_bad_input() {
    let good = shared_world();
    assert!(pascal::world::check_resolve(&good));
    // A forward reference breaks the topological order.
    let bad = Resolve {
        types: vec![TypeDef {
            name: None,
            kind: TypeDefKind::ListOf(Type::Id(5)),
            owner: TypeOwner::NoOwner,
            docs: no_docs(),
        }],
        interfaces: Vec::new(),
        packages: Vec::new(),
        worlds: Vec::new(),
    };
    assert!(!pascal::world::check_resolve(&bad));
}

// An interface both imported and exported shares one type identity for both
// occurrences: after the purge nothing the exported interface owns survives,
// so export processing defines it anew in the export namespace.
#[test]
fn both_ways_interface_entries_are_purged() {
    let resolve = Resolve {
        types: vec![TypeDef {
            name: Some(str_chars("shared")),
            kind: TypeDefKind::Record(vec![Field {
                name: str_chars("a"),
                ty: Type::U32,
                docs: no_docs(),
            }]),
            owner: TypeOwner::Iface(0),
            docs: no_docs(),
        }],
        interfaces: vec![Iface {
            name: Some(str_chars("both")),
            package: Some(0),
            functions: Vec::new(),
        }],
        packages: vec![Package {
            name: PackageName {
                namespace: str_chars("demo"),
                name: str_chars("pkg"),
                version: None,
            },
        }],
        worlds: vec![World {
            name: str_chars("w"),
            imports: vec![(WorldKey::Iface(0), WorldItem::Iface(0))],
            exports: vec![(WorldKey::Iface(0), WorldItem::Iface(0))],
        }],
    };
    let live = imported_types_used_by_exported_interfaces(&resolve, 0);
    assert!(!live[0]);
    let mut gen = Pascal::new(Opts::new());
    gen.world = str_chars("w");
    gen.type_names = TypeNames::new(1);
    gen.dtor_funcs = TypeTexts::new(1);
    gen.resources = Resources::new(1);
    gen.type_names
        .register(0, &str_chars("demo_pkg_both_shared_t"), false)
        .unwrap();
    gen.remove_types_redefined_by_exports(&resolve, 0);
    assert!(gen.type_names.lookup(0).is_err());
    // The export pass then names it afresh, in the export namespace.
    let key = WorldKey::Iface(0);
    let mut ctx = IfaceCtx::new(false, Some((0, key)), None);
    let live_export = vec![true];
    define_live_types(&mut gen, &mut ctx, &resolve, &live_export).unwrap();
    assert_eq!(
        chars_string(&gen.type_names.lookup(0).unwrap()),
        "exports_demo_pkg_both_shared_t"
    );
}
