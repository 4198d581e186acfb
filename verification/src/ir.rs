//! The output side of the processor: the intermediate representation built
//! for the declarations that pass validation, together with the spec-level
//! views that the contracts speak about.

use vstd::prelude::*;
use crate::decl::Visibility;

verus! {

/// The view of a sequence of type texts: each as its character sequence.
pub open spec fn types_view(types: Seq<String>) -> Seq<Seq<char>> {
    types.map_values(|t: String| t@)
}

/// One accepted variant of a tagged union: its name and its payload types
/// in declaration order (empty for the unit form).
#[derive(Debug, Clone, PartialEq, Eq)]
pub struct Variant {
    pub name: String,
    pub fields: Vec<String>,
}

/// The spec-level value of a [`Variant`].
#[verifier::ext_equal]
pub ghost struct VariantV {
    pub name: Seq<char>,
    pub fields: Seq<Seq<char>>,
}

impl View for Variant {
    type V = VariantV;

    open spec fn view(&self) -> VariantV {
        VariantV { name: self.name@, fields: types_view(self.fields@) }
    }
}

/// The view of a sequence of accepted variants.
pub open spec fn variants_view(variants: Seq<Variant>) -> Seq<VariantV> {
    variants.map_values(|v: Variant| v@)
}

/// The single return slot of a built signature; its name is always the
/// fixed text `Output`.
#[derive(Debug, Clone, PartialEq, Eq)]
pub struct ReturnSlot {
    pub name: String,
    pub ty: String,
}

/// The spec-level value of a [`ReturnSlot`].
#[verifier::ext_equal]
pub ghost struct ReturnSlotV {
    pub name: Seq<char>,
    pub ty: Seq<char>,
}

impl View for ReturnSlot {
    type V = ReturnSlotV;

    open spec fn view(&self) -> ReturnSlotV {
        ReturnSlotV { name: self.name@, ty: self.ty@ }
    }
}

/// The view of a sequence of return slots.
pub open spec fn slots_view(slots: Seq<ReturnSlot>) -> Seq<ReturnSlotV> {
    slots.map_values(|s: ReturnSlot| s@)
}

/// The signature of an accepted type-level function. A value of this type
/// is only ever built once every structural constraint has passed:
/// construction and validation are inseparable.
#[derive(Debug, Clone, PartialEq, Eq)]
pub struct Signature {
    pub vis: Visibility,
    pub name: String,
    pub is_unsafe: bool,
    /// At most one entry: empty when the declaration has no explicit
    /// return type, exactly one slot otherwise.
    pub outputs: Vec<ReturnSlot>,
}

/// The spec-level value of a [`Signature`].
#[verifier::ext_equal]
pub ghost struct SignatureV {
    pub vis: Visibility,
    pub name: Seq<char>,
    pub is_unsafe: bool,
    pub outputs: Seq<ReturnSlotV>,
}

impl View for Signature {
    type V = SignatureV;

    open spec fn view(&self) -> SignatureV {
        SignatureV {
            vis: self.vis,
            name: self.name@,
            is_unsafe: self.is_unsafe,
            outputs: slots_view(self.outputs@),
        }
    }
}

/// One translated body statement. Local bindings and nested items are
/// always rejected with a diagnostic, and no translation is defined yet
/// for either expression form, so the builder currently never produces a
/// node; the two variants record the intended split.
#[derive(Debug, Clone, Copy, PartialEq, Eq)]
pub enum StmtIr {
    Expression,
    TrailingExpression,
}

/// An accepted type-level function: its signature and its translated body.
#[derive(Debug, Clone, PartialEq, Eq)]
pub struct Function {
    pub sig: Signature,
    pub body: Vec<StmtIr>,
}

/// The spec-level value of a [`Function`].
#[verifier::ext_equal]
pub ghost struct FunctionV {
    pub sig: SignatureV,
    pub body: Seq<StmtIr>,
}

impl View for Function {
    type V = FunctionV;

    open spec fn view(&self) -> FunctionV {
        FunctionV { sig: self.sig@, body: self.body@ }
    }
}

/// One accepted top-level item.
#[derive(Debug, Clone, PartialEq, Eq)]
pub enum Item {
    /// An accepted tagged union: its variants in declaration order.
    TaggedUnion(Vec<Variant>),
    /// An accepted type-level function.
    Function(Function),
}

/// The spec-level value of an [`Item`].
#[verifier::ext_equal]
pub ghost enum ItemV {
    TaggedUnion(Seq<VariantV>),
    Function(FunctionV),
}

impl View for Item {
    type V = ItemV;

    open spec fn view(&self) -> ItemV {
        match self {
            Item::TaggedUnion(vs) => ItemV::TaggedUnion(variants_view(vs@)),
            Item::Function(f) => ItemV::Function(f@),
        }
    }
}

/// The view of a sequence of accepted items.
pub open spec fn items_view(items: Seq<Item>) -> Seq<ItemV> {
    items.map_values(|it: Item| it@)
}

} // verus!
