//! The visibility fold itself: the rewrite rule for each node kind, the
//! recursive walk, and the one public entry point, [`apply`].

use vstd::prelude::*;

use crate::tree::{items_model, kind_of, lemma_items_model_props};
use crate::tree::{Item, ItemModel, ItemVariant, ImportKind, Span, Visibility};

verus! {

/// The one failure the transform can report: the root it was handed is an
/// unexpanded macro invocation, whose contents it refuses to guess at.
#[derive(Clone, Copy, PartialEq, Eq, Structural, Debug)]
pub enum ApplyError {
    UnexpandedMacro { span: Span },
}

impl ApplyError {
    /// The human-readable diagnostic for this error.
    pub fn message(&self) -> (r: &'static str)
        ensures
            r@ == "cannot apply the visibility rewrite to a macro invocation"@,
    {
        "cannot apply the visibility rewrite to a macro invocation"
    }

    /// The source location the error should be reported against.
    pub fn span(&self) -> (r: Span)
        ensures
            self matches ApplyError::UnexpandedMacro { span } ==> r == span,
    {
        match self {
            ApplyError::UnexpandedMacro { span } => *span,
        }
    }
}

/// The rewrite rule for a proper item found in context `parent`: a node
/// inside a function body keeps its visibility, a node whose own kind
/// carries no meaningful visibility keeps its visibility, and every other
/// node is published.
pub open spec fn rewritten_item_vis(vis: Visibility, parent: ItemVariant, own: ItemVariant) -> Visibility {
    if !(parent is IsFn) && own.spec_can_be_made_pub() {
        Visibility::Public
    } else {
        vis
    }
}

/// The rewrite rule for a method found in context `parent`: published
/// unless the enclosing block is a trait implementation, whose members'
/// visibility is fixed by the trait contract.
pub open spec fn rewritten_method_vis(vis: Visibility, parent: ItemVariant) -> Visibility {
    if parent is IsTraitImpl {
        vis
    } else {
        Visibility::Public
    }
}

/// The rewrite rule for an import: a `use` alias is published, an
/// `extern crate` directive is left untouched.
pub open spec fn rewritten_import_vis(vis: Visibility, kind: ImportKind) -> Visibility {
    if kind is UseAlias {
        Visibility::Public
    } else {
        vis
    }
}

/// What the fold turns one node into, given the kind of the declaration
/// the node was found in.  Children are folded in the context the node
/// itself establishes; the node's own visibility is rewritten according
/// to the context it was found in.
pub open spec fn folded(m: ItemModel, parent: ItemVariant) -> ItemModel
    decreases m,
{
    match m {
        ItemModel::Import { kind, vis } => ItemModel::Import {
            kind,
            vis: rewritten_import_vis(vis, kind),
        },
        ItemModel::Function { vis, body } => ItemModel::Function {
            vis: rewritten_item_vis(vis, parent, kind_of(m)),
            body: folded_seq(body, kind_of(m)),
        },
        ItemModel::Method { vis, body } => ItemModel::Method {
            vis: rewritten_method_vis(vis, parent),
            body: folded_seq(body, kind_of(m)),
        },
        ItemModel::Module { vis, items } => ItemModel::Module {
            vis: rewritten_item_vis(vis, parent, kind_of(m)),
            items: folded_seq(items, kind_of(m)),
        },
        ItemModel::TypeDecl { vis, fields } => ItemModel::TypeDecl {
            vis: rewritten_item_vis(vis, parent, kind_of(m)),
            fields: folded_seq(fields, kind_of(m)),
        },
        ItemModel::Field { kind, vis } => ItemModel::Field { kind, vis: Visibility::Public },
        ItemModel::Trait { vis, items } => ItemModel::Trait {
            vis: rewritten_item_vis(vis, parent, kind_of(m)),
            items: folded_seq(items, kind_of(m)),
        },
        ItemModel::InherentImpl { vis, items } => ItemModel::InherentImpl {
            vis: rewritten_item_vis(vis, parent, kind_of(m)),
            items: folded_seq(items, kind_of(m)),
        },
        ItemModel::TraitImpl { vis, items } => ItemModel::TraitImpl {
            vis: rewritten_item_vis(vis, parent, kind_of(m)),
            items: folded_seq(items, kind_of(m)),
        },
        ItemModel::ForeignBlock { vis, items } => ItemModel::ForeignBlock {
            vis: rewritten_item_vis(vis, parent, kind_of(m)),
            items: folded_seq(items, kind_of(m)),
        },
        ItemModel::ForeignItem { vis } => ItemModel::ForeignItem { vis: Visibility::Public },
        ItemModel::MacInvocation { span } => ItemModel::MacInvocation { span },
    }
}

/// The fold applied to each of a node's children in order, all in the
/// same context.
pub open spec fn folded_seq(s: Seq<ItemModel>, ctx: ItemVariant) -> Seq<ItemModel>
    decreases s,
{
    if s.len() == 0 {
        Seq::empty()
    } else {
        seq![folded(s[0], ctx)] + folded_seq(s.subrange(1, s.len() as int), ctx)
    }
}

/// `folded_seq` maps the sequence elementwise: it keeps the length and
/// the order, and folds each child in place.
pub proof fn lemma_folded_seq_props(s: Seq<ItemModel>, ctx: ItemVariant)
    ensures
        folded_seq(s, ctx).len() == s.len(),
        forall|k: int| 0 <= k < s.len() ==> folded_seq(s, ctx)[k] == folded(s[k], ctx),
    decreases s,
{
    if s.len() > 0 {
        let rest = s.subrange(1, s.len() as int);
        lemma_folded_seq_props(rest, ctx);
        assert forall|k: int| 0 <= k < s.len() implies folded_seq(s, ctx)[k] == folded(
            s[k],
            ctx,
        ) by {
            if k > 0 {
                assert(rest[k - 1] == s[k]);
            }
        }
    }
}

/// Executable form of [`rewritten_item_vis`].
fn rewrite_item_vis(vis: Visibility, parent: ItemVariant, own: ItemVariant) -> (r: Visibility)
    ensures
        r == rewritten_item_vis(vis, parent, own),
{
    if !parent.is_fn() && own.can_be_made_pub() {
        Visibility::Public
    } else {
        vis
    }
}

/// Folds one node found in context `parent`, building a fresh node; the
/// input tree is left untouched.
fn fold_item(i: &Item, parent: ItemVariant) -> (r: Item)
    ensures
        r@ == folded(i@, parent),
    decreases *i,
{
    match i {
        Item::Import { kind, vis } => {
            let new_vis = match kind {
                ImportKind::UseAlias => Visibility::Public,
                ImportKind::ExternCrate => *vis,
            };
            Item::Import { kind: *kind, vis: new_vis }
        },
        Item::Function { vis, body } => Item::Function {
            vis: rewrite_item_vis(*vis, parent, ItemVariant::IsFn),
            body: fold_items(body, ItemVariant::IsFn),
        },
        Item::Method { vis, body } => {
            let new_vis = if parent.is_trait_impl() {
                *vis
            } else {
                Visibility::Public
            };
            Item::Method { vis: new_vis, body: fold_items(body, ItemVariant::IsOther) }
        },
        Item::Module { vis, items } => Item::Module {
            vis: rewrite_item_vis(*vis, parent, ItemVariant::IsOther),
            items: fold_items(items, ItemVariant::IsOther),
        },
        Item::TypeDecl { vis, fields } => Item::TypeDecl {
            vis: rewrite_item_vis(*vis, parent, ItemVariant::IsOther),
            fields: fold_items(fields, ItemVariant::IsOther),
        },
        Item::Field { kind, vis } => Item::Field { kind: *kind, vis: Visibility::Public },
        Item::Trait { vis, items } => Item::Trait {
            vis: rewrite_item_vis(*vis, parent, ItemVariant::IsOther),
            items: fold_items(items, ItemVariant::IsOther),
        },
        Item::InherentImpl { vis, items } => Item::InherentImpl {
            vis: rewrite_item_vis(*vis, parent, ItemVariant::IsTypeImpl),
            items: fold_items(items, ItemVariant::IsTypeImpl),
        },
        Item::TraitImpl { vis, items } => Item::TraitImpl {
            vis: rewrite_item_vis(*vis, parent, ItemVariant::IsTraitImpl),
            items: fold_items(items, ItemVariant::IsTraitImpl),
        },
        Item::ForeignBlock { vis, items } => Item::ForeignBlock {
            vis: rewrite_item_vis(*vis, parent, ItemVariant::IsExternBlock),
            items: fold_items(items, ItemVariant::IsExternBlock),
        },
        Item::ForeignItem { vis: _ } => Item::ForeignItem { vis: Visibility::Public },
        Item::MacInvocation { span } => Item::MacInvocation { span: *span },
    }
}

/// Folds every child of a node, in order, in the context the node
/// establishes.
fn fold_items(v: &Vec<Item>, ctx: ItemVariant) -> (r: Vec<Item>)
    ensures
        items_model(r@) == folded_seq(items_model(v@), ctx),
    decreases v@,
{
    let mut out: Vec<Item> = Vec::new();
    let n = v.len();
    let mut j: usize = 0;
    while j < n
        invariant
            n == v@.len(),
            j <= n,
            out@.len() == j,
            forall|k: int| 0 <= k < j ==> out@[k]@ == folded(v@[k]@, ctx),
        decreases n - j,
    {
        let next = fold_item(&v[j], ctx);
        out.push(next);
        j += 1;
    }
    proof {
        lemma_items_model_props(out@);
        lemma_items_model_props(v@);
        lemma_folded_seq_props(items_model(v@), ctx);
        assert(items_model(out@) =~= folded_seq(items_model(v@), ctx));
    }
    out
}

/// The entry point: rewrites the visibility of every declaration nested
/// under `root` according to the decision table, and fails if and only if
/// `root` itself is an unexpanded macro invocation.  The rewritten tree
/// has the shape of the input tree; the input is consumed, never shared.
pub fn apply(root: Item) -> (r: Result<Item, ApplyError>)
    ensures
        root matches Item::MacInvocation { span } ==> r == Result::<Item, ApplyError>::Err(
            ApplyError::UnexpandedMacro { span },
        ),
        !(root is MacInvocation) ==> (r matches Ok(out) && out@ == folded(
            root@,
            ItemVariant::IsOther,
        )),
{
    match root {
        Item::MacInvocation { span } => Err(ApplyError::UnexpandedMacro { span }),
        _ => Ok(fold_item(&root, ItemVariant::IsOther)),
    }
}

} // verus!
