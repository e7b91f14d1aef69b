use apply_pub::fold::{apply, ApplyError};
use apply_pub::tree::{FieldKind, ImportKind, Item, Span, Visibility};

// The same node with its visibility flag (and its children's) erased:
// two trees with equal erasures have the same shape.
fn erased(i: &Item) -> Item {
    match i {
        Item::Import { kind, .. } => Item::Import { kind: *kind, vis: Visibility::Inherited },
        Item::Function { body, .. } => Item::Function {
            vis: Visibility::Inherited,
            body: erased_all(body),
        },
        Item::Method { body, .. } => Item::Method {
            vis: Visibility::Inherited,
            body: erased_all(body),
        },
        Item::Module { items, .. } => Item::Module {
            vis: Visibility::Inherited,
            items: erased_all(items),
        },
        Item::TypeDecl { fields, .. } => Item::TypeDecl {
            vis: Visibility::Inherited,
            fields: erased_all(fields),
        },
        Item::Field { kind, .. } => Item::Field { kind: *kind, vis: Visibility::Inherited },
        Item::Trait { items, .. } => Item::Trait {
            vis: Visibility::Inherited,
            items: erased_all(items),
        },
        Item::InherentImpl { items, .. } => Item::InherentImpl {
            vis: Visibility::Inherited,
            items: erased_all(items),
        },
        Item::TraitImpl { items, .. } => Item::TraitImpl {
            vis: Visibility::Inherited,
            items: erased_all(items),
        },
        Item::ForeignBlock { items, .. } => Item::ForeignBlock {
            vis: Visibility::Inherited,
            items: erased_all(items),
        },
        Item::ForeignItem { .. } => Item::ForeignItem { vis: Visibility::Inherited },
        Item::MacInvocation { span } => Item::MacInvocation { span: *span },
    }
}

fn erased_all(v: &[Item]) -> Vec<Item> {
    v.iter().map(erased).collect()
}

// One tree with every node kind in it, including an already expanded
// macro invocation sitting in a module.
fn mixed_tree() -> Item {
    Item::Module {
        vis: Visibility::Inherited,
        items: vec![
            Item::Import { kind: ImportKind::UseAlias, vis: Visibility::Inherited },
            Item::Import { kind: ImportKind::ExternCrate, vis: Visibility::Public },
            Item::Function {
                vis: Visibility::Inherited,
                body: vec![Item::TypeDecl {
                    vis: Visibility::Inherited,
                    fields: vec![Item::Field { kind: FieldKind::Unnamed, vis: Visibility::Inherited }],
                }],
            },
            Item::Trait {
                vis: Visibility::Inherited,
                items: vec![Item::Method { vis: Visibility::Inherited, body: vec![] }],
            },
            Item::TraitImpl {
                vis: Visibility::Inherited,
                items: vec![Item::Method { vis: Visibility::Inherited, body: vec![] }],
            },
            Item::InherentImpl {
                vis: Visibility::Inherited,
                items: vec![Item::Method { vis: Visibility::Inherited, body: vec![] }],
            },
            Item::ForeignBlock {
                vis: Visibility::Inherited,
                items: vec![Item::ForeignItem { vis: Visibility::Inherited }],
            },
            Item::MacInvocation { span: Span { lo: 10, hi: 20 } },
        ],
    }
}

#[test]
fn shape_is_kept() {
    let out = apply(mixed_tree()).unwrap();
    assert_eq!(erased(&out), erased(&mixed_tree()));
}

#[test]
fn applying_twice_is_applying_once() {
    let once = apply(mixed_tree()).unwrap();
    let twice = apply(apply(mixed_tree()).unwrap()).unwrap();
    assert_eq!(twice, once);
}

#[test]
fn function_body_exclusion_direct() {
    // A module holding a function whose body declares a module with one
    // more function.  The declaration directly inside the function body
    // keeps its visibility; the module's own child is published again.
    let input = Item::Module {
        vis: Visibility::Inherited,
        items: vec![Item::Function {
            vis: Visibility::Inherited,
            body: vec![Item::Module {
                vis: Visibility::Inherited,
                items: vec![Item::Function { vis: Visibility::Inherited, body: vec![] }],
            }],
        }],
    };
    let expected = Item::Module {
        vis: Visibility::Public,
        items: vec![Item::Function {
            vis: Visibility::Public,
            body: vec![Item::Module {
                vis: Visibility::Inherited,
                items: vec![Item::Function { vis: Visibility::Public, body: vec![] }],
            }],
        }],
    };
    assert_eq!(apply(input).unwrap(), expected);
}

#[test]
fn trait_impl_method_kept_inherent_method_published() {
    let input = Item::Module {
        vis: Visibility::Inherited,
        items: vec![
            Item::TraitImpl {
                vis: Visibility::Inherited,
                items: vec![Item::Method { vis: Visibility::Inherited, body: vec![] }],
            },
            Item::InherentImpl {
                vis: Visibility::Inherited,
                items: vec![Item::Method { vis: Visibility::Inherited, body: vec![] }],
            },
        ],
    };
    let expected = Item::Module {
        vis: Visibility::Public,
        items: vec![
            Item::TraitImpl {
                vis: Visibility::Inherited,
                items: vec![Item::Method { vis: Visibility::Inherited, body: vec![] }],
            },
            Item::InherentImpl {
                vis: Visibility::Inherited,
                items: vec![Item::Method { vis: Visibility::Public, body: vec![] }],
            },
        ],
    };
    assert_eq!(apply(input).unwrap(), expected);
}

#[test]
fn fields_published_inside_function_body() {
    // The struct declared in the function body keeps its visibility,
    // yet both of its fields are published.
    let input = Item::Function {
        vis: Visibility::Inherited,
        body: vec![Item::TypeDecl {
            vis: Visibility::Inherited,
            fields: vec![
                Item::Field { kind: FieldKind::Named, vis: Visibility::Inherited },
                Item::Field { kind: FieldKind::Named, vis: Visibility::Inherited },
            ],
        }],
    };
    let expected = Item::Function {
        vis: Visibility::Public,
        body: vec![Item::TypeDecl {
            vis: Visibility::Inherited,
            fields: vec![
                Item::Field { kind: FieldKind::Named, vis: Visibility::Public },
                Item::Field { kind: FieldKind::Named, vis: Visibility::Public },
            ],
        }],
    };
    assert_eq!(apply(input).unwrap(), expected);
}

#[test]
fn foreign_block_stays_symbols_published() {
    let input = Item::Module {
        vis: Visibility::Inherited,
        items: vec![Item::ForeignBlock {
            vis: Visibility::Inherited,
            items: vec![
                Item::ForeignItem { vis: Visibility::Inherited },
                Item::ForeignItem { vis: Visibility::Inherited },
            ],
        }],
    };
    let expected = Item::Module {
        vis: Visibility::Public,
        items: vec![Item::ForeignBlock {
            vis: Visibility::Inherited,
            items: vec![
                Item::ForeignItem { vis: Visibility::Public },
                Item::ForeignItem { vis: Visibility::Public },
            ],
        }],
    };
    assert_eq!(apply(input).unwrap(), expected);
}

#[test]
fn unexpanded_macro_refused() {
    let span = Span { lo: 3, hi: 9 };
    let err = apply(Item::MacInvocation { span }).unwrap_err();
    assert_eq!(err, ApplyError::UnexpandedMacro { span });
    assert_eq!(err.span(), span);
    assert_eq!(err.message(), "cannot apply the visibility rewrite to a macro invocation");
}

#[test]
fn import_rule_split() {
    let input = Item::Module {
        vis: Visibility::Inherited,
        items: vec![
            Item::Import { kind: ImportKind::UseAlias, vis: Visibility::Inherited },
            Item::Import { kind: ImportKind::ExternCrate, vis: Visibility::Inherited },
            Item::Import { kind: ImportKind::ExternCrate, vis: Visibility::Public },
        ],
    };
    let expected = Item::Module {
        vis: Visibility::Public,
        items: vec![
            Item::Import { kind: ImportKind::UseAlias, vis: Visibility::Public },
            Item::Import { kind: ImportKind::ExternCrate, vis: Visibility::Inherited },
            Item::Import { kind: ImportKind::ExternCrate, vis: Visibility::Public },
        ],
    };
    assert_eq!(apply(input).unwrap(), expected);
}
