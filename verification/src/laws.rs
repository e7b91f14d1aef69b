//! The laws the transform obeys, stated over the model and proved once
//! and for all: the fold never changes the shape of the tree, it is
//! idempotent, and each exclusion rule holds exactly as stated.

use vstd::prelude::*;

use crate::fold::{folded, folded_seq, lemma_folded_seq_props};
use crate::tree::{vis_of, FieldKind, ImportKind, ItemModel, ItemVariant, Visibility};

verus! {

/// A node with its visibility flag erased (and its children's,
/// recursively): what is left is exactly the shape of the subtree —
/// variant, arity, ordering and nesting, and every field that is not a
/// visibility flag.
pub open spec fn shape_of(m: ItemModel) -> ItemModel
    decreases m,
{
    match m {
        ItemModel::Import { kind, vis } => ItemModel::Import { kind, vis: Visibility::Inherited },
        ItemModel::Function { vis, body } => ItemModel::Function {
            vis: Visibility::Inherited,
            body: shapes_of(body),
        },
        ItemModel::Method { vis, body } => ItemModel::Method {
            vis: Visibility::Inherited,
            body: shapes_of(body),
        },
        ItemModel::Module { vis, items } => ItemModel::Module {
            vis: Visibility::Inherited,
            items: shapes_of(items),
        },
        ItemModel::TypeDecl { vis, fields } => ItemModel::TypeDecl {
            vis: Visibility::Inherited,
            fields: shapes_of(fields),
        },
        ItemModel::Field { kind, vis } => ItemModel::Field { kind, vis: Visibility::Inherited },
        ItemModel::Trait { vis, items } => ItemModel::Trait {
            vis: Visibility::Inherited,
            items: shapes_of(items),
        },
        ItemModel::InherentImpl { vis, items } => ItemModel::InherentImpl {
            vis: Visibility::Inherited,
            items: shapes_of(items),
        },
        ItemModel::TraitImpl { vis, items } => ItemModel::TraitImpl {
            vis: Visibility::Inherited,
            items: shapes_of(items),
        },
        ItemModel::ForeignBlock { vis, items } => ItemModel::ForeignBlock {
            vis: Visibility::Inherited,
            items: shapes_of(items),
        },
        ItemModel::ForeignItem { vis } => ItemModel::ForeignItem { vis: Visibility::Inherited },
        ItemModel::MacInvocation { span } => ItemModel::MacInvocation { span },
    }
}

/// The shapes of a sequence of sibling nodes, in order.
pub open spec fn shapes_of(s: Seq<ItemModel>) -> Seq<ItemModel>
    decreases s,
{
    if s.len() == 0 {
        Seq::empty()
    } else {
        seq![shape_of(s[0])] + shapes_of(s.subrange(1, s.len() as int))
    }
}

/// `shapes_of` maps the sequence elementwise: it keeps the length and
/// takes each node's shape in place.
pub proof fn lemma_shapes_of_props(s: Seq<ItemModel>)
    ensures
        shapes_of(s).len() == s.len(),
        forall|k: int| 0 <= k < s.len() ==> shapes_of(s)[k] == shape_of(s[k]),
    decreases s,
{
    if s.len() > 0 {
        let rest = s.subrange(1, s.len() as int);
        lemma_shapes_of_props(rest);
        assert forall|k: int| 0 <= k < s.len() implies shapes_of(s)[k] == shape_of(s[k]) by {
            if k > 0 {
                assert(rest[k - 1] == s[k]);
            }
        }
    }
}

/// Structural identity: whatever context a node is folded in, the fold
/// returns a tree of exactly the shape of the input — same variants, same
/// node count, same ordering and nesting of children; only visibility
/// flags differ.
pub proof fn lemma_structural_identity(m: ItemModel, parent: ItemVariant)
    ensures
        shape_of(folded(m, parent)) == shape_of(m),
    decreases m,
{
    match m {
        ItemModel::Function { vis, body } => {
            lemma_structural_identity_seq(body, ItemVariant::IsFn);
        },
        ItemModel::Method { vis, body } => {
            lemma_structural_identity_seq(body, ItemVariant::IsOther);
        },
        ItemModel::Module { vis, items } => {
            lemma_structural_identity_seq(items, ItemVariant::IsOther);
        },
        ItemModel::TypeDecl { vis, fields } => {
            lemma_structural_identity_seq(fields, ItemVariant::IsOther);
        },
        ItemModel::Trait { vis, items } => {
            lemma_structural_identity_seq(items, ItemVariant::IsOther);
        },
        ItemModel::InherentImpl { vis, items } => {
            lemma_structural_identity_seq(items, ItemVariant::IsTypeImpl);
        },
        ItemModel::TraitImpl { vis, items } => {
            lemma_structural_identity_seq(items, ItemVariant::IsTraitImpl);
        },
        ItemModel::ForeignBlock { vis, items } => {
            lemma_structural_identity_seq(items, ItemVariant::IsExternBlock);
        },
        _ => {},
    }
}

/// Structural identity, lifted to the children of a node.
pub proof fn lemma_structural_identity_seq(s: Seq<ItemModel>, ctx: ItemVariant)
    ensures
        shapes_of(folded_seq(s, ctx)) == shapes_of(s),
    decreases s,
{
    lemma_folded_seq_props(s, ctx);
    lemma_shapes_of_props(folded_seq(s, ctx));
    lemma_shapes_of_props(s);
    assert forall|k: int| 0 <= k < s.len() implies shapes_of(folded_seq(s, ctx))[k] == shapes_of(
        s,
    )[k] by {
        lemma_structural_identity(s[k], ctx);
    }
    assert(shapes_of(folded_seq(s, ctx)) =~= shapes_of(s));
}

/// Idempotence: public is a terminal state of the rewrite, so folding a
/// tree a second time, in the same context, changes nothing.
pub proof fn lemma_idempotence(m: ItemModel, parent: ItemVariant)
    ensures
        folded(folded(m, parent), parent) == folded(m, parent),
    decreases m,
{
    match m {
        ItemModel::Function { vis, body } => {
            lemma_idempotence_seq(body, ItemVariant::IsFn);
        },
        ItemModel::Method { vis, body } => {
            lemma_idempotence_seq(body, ItemVariant::IsOther);
        },
        ItemModel::Module { vis, items } => {
            lemma_idempotence_seq(items, ItemVariant::IsOther);
        },
        ItemModel::TypeDecl { vis, fields } => {
            lemma_idempotence_seq(fields, ItemVariant::IsOther);
        },
        ItemModel::Trait { vis, items } => {
            lemma_idempotence_seq(items, ItemVariant::IsOther);
        },
        ItemModel::InherentImpl { vis, items } => {
            lemma_idempotence_seq(items, ItemVariant::IsTypeImpl);
        },
        ItemModel::TraitImpl { vis, items } => {
            lemma_idempotence_seq(items, ItemVariant::IsTraitImpl);
        },
        ItemModel::ForeignBlock { vis, items } => {
            lemma_idempotence_seq(items, ItemVariant::IsExternBlock);
        },
        _ => {},
    }
}

/// Idempotence, lifted to the children of a node.
pub proof fn lemma_idempotence_seq(s: Seq<ItemModel>, ctx: ItemVariant)
    ensures
        folded_seq(folded_seq(s, ctx), ctx) == folded_seq(s, ctx),
    decreases s,
{
    lemma_folded_seq_props(s, ctx);
    lemma_folded_seq_props(folded_seq(s, ctx), ctx);
    assert forall|k: int| 0 <= k < s.len() implies folded_seq(folded_seq(s, ctx), ctx)[k]
        == folded_seq(s, ctx)[k] by {
        lemma_idempotence(s[k], ctx);
    }
    assert(folded_seq(folded_seq(s, ctx), ctx) =~= folded_seq(s, ctx));
}

/// Function-body exclusion: a declaration found directly inside a
/// function body keeps exactly the visibility it was declared with.  The
/// rule governs the nodes the general item rewrite reaches; imports,
/// struct fields, methods and foreign declarations are reached by their
/// own dedicated rules instead, which do not consult the context.
pub proof fn lemma_function_body_exclusion(m: ItemModel)
    requires
        !(m is Import),
        !(m is Field),
        !(m is Method),
        !(m is ForeignItem),
    ensures
        vis_of(folded(m, ItemVariant::IsFn)) == vis_of(m),
{
}

/// Trait-impl exclusion: a method found in a trait implementation keeps
/// its visibility, while a method found in an inherent implementation is
/// published.
pub proof fn lemma_trait_impl_exclusion(vis: Visibility, body: Seq<ItemModel>)
    ensures
        vis_of(folded((ItemModel::Method { vis, body }), ItemVariant::IsTraitImpl)) == Some(vis),
        vis_of(folded((ItemModel::Method { vis, body }), ItemVariant::IsTypeImpl)) == Some(
            Visibility::Public,
        ),
{
}

/// Field publication is unconditional: a struct field is published
/// whatever context it is found in — even inside a function body, where
/// the declaration that carries the field is itself left unchanged.
pub proof fn lemma_field_publication(kind: FieldKind, vis: Visibility, parent: ItemVariant)
    ensures
        folded((ItemModel::Field { kind, vis }), parent) == (ItemModel::Field {
            kind,
            vis: Visibility::Public,
        }),
{
}

/// Foreign-block carve-out: the foreign block itself is never elevated,
/// in any context, yet every declaration inside it is published
/// unconditionally.
pub proof fn lemma_foreign_block_carve_out(
    vis: Visibility,
    items: Seq<ItemModel>,
    parent: ItemVariant,
    decl_vis: Visibility,
)
    ensures
        vis_of(folded((ItemModel::ForeignBlock { vis, items }), parent)) == Some(vis),
        folded((ItemModel::ForeignItem { vis: decl_vis }), parent) == (ItemModel::ForeignItem {
            vis: Visibility::Public,
        }),
{
}

/// Import rule split: a `use` alias is published in every context, while
/// an `extern crate` directive is never changed.
pub proof fn lemma_import_rule_split(vis: Visibility, parent: ItemVariant)
    ensures
        folded((ItemModel::Import { kind: ImportKind::UseAlias, vis }), parent)
            == (ItemModel::Import { kind: ImportKind::UseAlias, vis: Visibility::Public }),
        folded((ItemModel::Import { kind: ImportKind::ExternCrate, vis }), parent)
            == (ItemModel::Import { kind: ImportKind::ExternCrate, vis }),
{
}

} // verus!

