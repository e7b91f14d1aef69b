//! The declaration-tree node taxonomy, its mathematical model, and the
//! traversal context that the visibility fold threads through the tree.

use vstd::prelude::*;

verus! {

/// A region of source text, kept so that an error can be reported against
/// the place that caused it.
#[derive(Clone, Copy, PartialEq, Eq, Structural, Debug)]
pub struct Span {
    pub lo: u32,
    pub hi: u32,
}

/// Whether a declaration is visible outside its enclosing scope.
/// `Inherited` is the default a declaration is written with.
#[derive(Clone, Copy, PartialEq, Eq, Structural, Debug)]
pub enum Visibility {
    Public,
    Inherited,
}

/// The two sub-variants of an import statement.
#[derive(Clone, Copy, PartialEq, Eq, Structural, Debug)]
pub enum ImportKind {
    UseAlias,
    ExternCrate,
}

/// Whether a struct field is named or positional.
#[derive(Clone, Copy, PartialEq, Eq, Structural, Debug)]
pub enum FieldKind {
    Named,
    Unnamed,
}

/// The kind of the immediately enclosing declaration, tracked while the
/// fold descends so that each node can be rewritten according to the
/// context it was found in.
#[derive(Clone, Copy, PartialEq, Eq, Structural, Debug)]
pub enum ItemVariant {
    IsFn,
    IsTraitImpl,
    IsTypeImpl,
    IsExternBlock,
    IsOther,
}

impl ItemVariant {
    /// The context is a function body.
    pub fn is_fn(self) -> (r: bool)
        ensures
            r == (self is IsFn),
    {
        match self {
            ItemVariant::IsFn => true,
            _ => false,
        }
    }

    /// The context is a trait implementation block.
    pub fn is_trait_impl(self) -> (r: bool)
        ensures
            r == (self is IsTraitImpl),
    {
        match self {
            ItemVariant::IsTraitImpl => true,
            _ => false,
        }
    }

    /// The context is an inherent implementation block.
    pub fn is_type_impl(self) -> (r: bool)
        ensures
            r == (self is IsTypeImpl),
    {
        match self {
            ItemVariant::IsTypeImpl => true,
            _ => false,
        }
    }

    /// The context is a foreign (external-linkage) block.
    pub fn is_extern_block(self) -> (r: bool)
        ensures
            r == (self is IsExternBlock),
    {
        match self {
            ItemVariant::IsExternBlock => true,
            _ => false,
        }
    }

    /// A declaration of this kind carries a visibility that the fold is
    /// allowed to elevate: everything but implementation blocks and
    /// foreign blocks.
    pub open spec fn spec_can_be_made_pub(self) -> bool {
        !(self is IsTraitImpl) && !(self is IsTypeImpl) && !(self is IsExternBlock)
    }

    /// Executable form of [`Self::spec_can_be_made_pub`].
    pub fn can_be_made_pub(self) -> (r: bool)
        ensures
            r == self.spec_can_be_made_pub(),
    {
        !self.is_trait_impl() && !self.is_type_impl() && !self.is_extern_block()
    }
}

/// One declaration node.  The tree is heterogeneous: besides proper items
/// (functions, modules, type declarations, traits, implementation blocks,
/// foreign blocks) it also holds the import statements, struct fields,
/// methods and foreign declarations nested under them, and the opaque
/// macro-invocation node whose contents cannot be examined.
#[allow(inconsistent_fields)]
#[derive(PartialEq, Eq, Debug)]
pub enum Item {
    /// An import statement; `kind` says whether it is a `use` alias or an
    /// `extern crate` directive.
    Import { kind: ImportKind, vis: Visibility },
    /// A function declaration; `body` holds the declarations nested
    /// directly inside the function body.
    Function { vis: Visibility, body: Vec<Item> },
    /// A method declared inside an implementation block or a trait.
    Method { vis: Visibility, body: Vec<Item> },
    /// A module with its ordered children.
    Module { vis: Visibility, items: Vec<Item> },
    /// A type alias, struct or enum declaration; `fields` holds its
    /// struct fields, if any.
    TypeDecl { vis: Visibility, fields: Vec<Item> },
    /// A struct field, named or positional.
    Field { kind: FieldKind, vis: Visibility },
    /// A trait declaration with its members.
    Trait { vis: Visibility, items: Vec<Item> },
    /// An implementation block that implements a type directly.
    InherentImpl { vis: Visibility, items: Vec<Item> },
    /// An implementation block that implements a named trait for a type.
    TraitImpl { vis: Visibility, items: Vec<Item> },
    /// A foreign (external-linkage) block with its declarations.
    ForeignBlock { vis: Visibility, items: Vec<Item> },
    /// A function or static declared inside a foreign block.
    ForeignItem { vis: Visibility },
    /// An opaque, not yet expanded macro invocation.
    MacInvocation { span: Span },
}

/// The mathematical model of a declaration node: the same taxonomy with
/// every child sequence abstracted to a `Seq`.  All contracts in this
/// crate speak of this type.
#[allow(inconsistent_fields)]
pub enum ItemModel {
    Import { kind: ImportKind, vis: Visibility },
    Function { vis: Visibility, body: Seq<ItemModel> },
    Method { vis: Visibility, body: Seq<ItemModel> },
    Module { vis: Visibility, items: Seq<ItemModel> },
    TypeDecl { vis: Visibility, fields: Seq<ItemModel> },
    Field { kind: FieldKind, vis: Visibility },
    Trait { vis: Visibility, items: Seq<ItemModel> },
    InherentImpl { vis: Visibility, items: Seq<ItemModel> },
    TraitImpl { vis: Visibility, items: Seq<ItemModel> },
    ForeignBlock { vis: Visibility, items: Seq<ItemModel> },
    ForeignItem { vis: Visibility },
    MacInvocation { span: Span },
}

/// The model of one node.
pub open spec fn item_model(i: Item) -> ItemModel
    decreases i,
{
    match i {
        Item::Import { kind, vis } => ItemModel::Import { kind, vis },
        Item::Function { vis, body } => ItemModel::Function { vis, body: items_model(body@) },
        Item::Method { vis, body } => ItemModel::Method { vis, body: items_model(body@) },
        Item::Module { vis, items } => ItemModel::Module { vis, items: items_model(items@) },
        Item::TypeDecl { vis, fields } => ItemModel::TypeDecl {
            vis,
            fields: items_model(fields@),
        },
        Item::Field { kind, vis } => ItemModel::Field { kind, vis },
        Item::Trait { vis, items } => ItemModel::Trait { vis, items: items_model(items@) },
        Item::InherentImpl { vis, items } => ItemModel::InherentImpl {
            vis,
            items: items_model(items@),
        },
        Item::TraitImpl { vis, items } => ItemModel::TraitImpl {
            vis,
            items: items_model(items@),
        },
        Item::ForeignBlock { vis, items } => ItemModel::ForeignBlock {
            vis,
            items: items_model(items@),
        },
        Item::ForeignItem { vis } => ItemModel::ForeignItem { vis },
        Item::MacInvocation { span } => ItemModel::MacInvocation { span },
    }
}

/// The model of a sequence of sibling nodes, in order.
pub open spec fn items_model(s: Seq<Item>) -> Seq<ItemModel>
    decreases s,
{
    if s.len() == 0 {
        Seq::empty()
    } else {
        seq![item_model(s[0])] + items_model(s.subrange(1, s.len() as int))
    }
}

impl View for Item {
    type V = ItemModel;

    open spec fn view(&self) -> ItemModel {
        item_model(*self)
    }
}

/// `items_model` maps the sequence elementwise: it keeps the length and
/// models each node in place.
pub proof fn lemma_items_model_props(s: Seq<Item>)
    ensures
        items_model(s).len() == s.len(),
        forall|k: int| 0 <= k < s.len() ==> items_model(s)[k] == item_model(s[k]),
    decreases s,
{
    if s.len() > 0 {
        let rest = s.subrange(1, s.len() as int);
        lemma_items_model_props(rest);
        assert forall|k: int| 0 <= k < s.len() implies items_model(s)[k] == item_model(s[k]) by {
            if k > 0 {
                assert(rest[k - 1] == s[k]);
            }
        }
    }
}

/// The kind a node establishes as the context for its own children: its
/// own variant, collapsed to the five-state traversal context.
pub open spec fn kind_of(m: ItemModel) -> ItemVariant {
    match m {
        ItemModel::Function { .. } => ItemVariant::IsFn,
        ItemModel::TraitImpl { .. } => ItemVariant::IsTraitImpl,
        ItemModel::InherentImpl { .. } => ItemVariant::IsTypeImpl,
        ItemModel::ForeignBlock { .. } => ItemVariant::IsExternBlock,
        _ => ItemVariant::IsOther,
    }
}

/// The visibility flag a node carries, if it carries one: every node but
/// the opaque macro invocation does.
pub open spec fn vis_of(m: ItemModel) -> Option<Visibility> {
    match m {
        ItemModel::Import { vis, .. } => Some(vis),
        ItemModel::Function { vis, .. } => Some(vis),
        ItemModel::Method { vis, .. } => Some(vis),
        ItemModel::Module { vis, .. } => Some(vis),
        ItemModel::TypeDecl { vis, .. } => Some(vis),
        ItemModel::Field { vis, .. } => Some(vis),
        ItemModel::Trait { vis, .. } => Some(vis),
        ItemModel::InherentImpl { vis, .. } => Some(vis),
        ItemModel::TraitImpl { vis, .. } => Some(vis),
        ItemModel::ForeignBlock { vis, .. } => Some(vis),
        ItemModel::ForeignItem { vis } => Some(vis),
        ItemModel::MacInvocation { .. } => None,
    }
}

} // verus!
