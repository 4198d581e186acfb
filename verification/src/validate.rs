//! The core of the processor: the spec-level model of what each
//! declaration yields, the declaration classifier, the two structural
//! validators, the statement builder for function bodies, and the driver
//! over a whole batch.

use vstd::prelude::*;
use vstd::string::StringExecFns;
use crate::decl::{Decl, FnDecl, GenericParam, StmtDecl, VariantDecl, VariantFields};
use crate::diag::{
    msgs_view, msg_named_fields, msg_const, msg_async, msg_custom_abi, msg_variadic,
    msg_lifetime_generics, msg_let_binding, msg_nested_item, msg_expression,
    named_fields_message, const_message, async_message, custom_abi_message, variadic_message,
    lifetime_generics_message, let_binding_message, nested_item_message, expression_message,
    DiagnosticSet,
};
use crate::ir::{
    types_view, variants_view, items_view, Variant, VariantV, ReturnSlot, ReturnSlotV, Signature,
    SignatureV, StmtIr, Function, FunctionV, Item, ItemV,
};

verus! {

// ---------------------------------------------------------------------
// Spec model: what processing one declaration yields.
// ---------------------------------------------------------------------

/// Whether a parsed variant is in the disallowed named-field form.
pub open spec fn variant_is_named(v: VariantDecl) -> bool {
    v.fields is Named
}

/// Whether some variant of the list is in the named-field form.
pub open spec fn has_named_variant(vs: Seq<VariantDecl>) -> bool {
    exists|i: int| 0 <= i < vs.len() && variant_is_named(vs[i])
}

/// The variant record built from one unit-form or positional-form parsed
/// variant: the name kept, the payload types copied verbatim in order.
pub open spec fn variant_ir(v: VariantDecl) -> VariantV {
    VariantV {
        name: v.name@,
        fields: match v.fields {
            VariantFields::Positional(ts) => types_view(ts@),
            _ => Seq::empty(),
        },
    }
}

/// The tagged-union record built from a variant list without named-field
/// variants: every variant, in declaration order.
pub open spec fn union_ir(vs: Seq<VariantDecl>) -> Seq<VariantV> {
    vs.map_values(|v: VariantDecl| variant_ir(v))
}

/// Constraint: a type-level function must not carry a
/// compile-time-constant marker.
pub open spec fn violates_const(f: FnDecl) -> bool {
    f.is_const
}

/// Constraint: a type-level function must not carry an asynchronous
/// marker.
pub open spec fn violates_async(f: FnDecl) -> bool {
    f.is_async
}

/// Constraint: a type-level function must not declare a custom calling
/// convention.
pub open spec fn violates_abi(f: FnDecl) -> bool {
    f.has_custom_abi
}

/// Constraint: a type-level function must not be variadic.
pub open spec fn violates_variadic(f: FnDecl) -> bool {
    f.is_variadic
}

/// Constraint: every generic parameter of a type-level function must be a
/// lifetime parameter.
pub open spec fn violates_generics(f: FnDecl) -> bool {
    exists|i: int| 0 <= i < f.generics@.len() && !(f.generics@[i] is Lifetime)
}

/// A singleton diagnostic list when `cond` holds, the empty list
/// otherwise.
pub open spec fn opt_diag(cond: bool, m: Seq<char>) -> Seq<Seq<char>> {
    if cond {
        seq![m]
    } else {
        Seq::empty()
    }
}

/// The local diagnostic buffer of the signature validator: the message of
/// every violated constraint, in the fixed order the five constraints are
/// checked, independently of one another.
pub open spec fn sig_diags(f: FnDecl) -> Seq<Seq<char>> {
    opt_diag(violates_const(f), msg_const()) + opt_diag(violates_async(f), msg_async())
        + opt_diag(violates_abi(f), msg_custom_abi())
        + opt_diag(violates_variadic(f), msg_variadic())
        + opt_diag(violates_generics(f), msg_lifetime_generics())
}

/// The diagnostic that translating one body statement records. Local
/// bindings and nested items are rejected by design; the two expression
/// forms have no defined translation yet, so they are reported rather
/// than silently accepted.
pub open spec fn stmt_diag(s: StmtDecl) -> Seq<char> {
    match s {
        StmtDecl::LocalBinding => msg_let_binding(),
        StmtDecl::NestedItem => msg_nested_item(),
        StmtDecl::Expression => msg_expression(),
        StmtDecl::TrailingExpression => msg_expression(),
    }
}

/// The diagnostics recorded while translating a body, one per statement,
/// in statement order; no statement aborts the ones after it.
pub open spec fn body_diags(body: Seq<StmtDecl>) -> Seq<Seq<char>> {
    body.map_values(|s: StmtDecl| stmt_diag(s))
}

/// The signature record built from a declaration that passed all five
/// constraints: visibility, name and unsafe marker copied, and one
/// `Output` slot exactly when a return type was declared.
pub open spec fn signature_ir(f: FnDecl) -> SignatureV {
    SignatureV {
        vis: f.vis,
        name: f.name@,
        is_unsafe: f.is_unsafe,
        outputs: match f.ret {
            Option::None => Seq::empty(),
            Option::Some(t) => seq![ReturnSlotV { name: "Output"@, ty: t@ }],
        },
    }
}

/// The function record built from an accepted declaration. No statement
/// kind currently has a translation, so the built body is always empty.
pub open spec fn function_ir(f: FnDecl) -> FunctionV {
    FunctionV { sig: signature_ir(f), body: Seq::empty() }
}

/// The diagnostics that processing one declaration records, when the
/// classifier reaches it with a clean diagnostic set.
pub open spec fn decl_diags(d: Decl) -> Seq<Seq<char>> {
    match d {
        Decl::TaggedUnion(vs) => if has_named_variant(vs@) {
            seq![msg_named_fields()]
        } else {
            Seq::empty()
        },
        Decl::Function(f) => if sig_diags(f).len() > 0 {
            sig_diags(f)
        } else {
            body_diags(f.body@)
        },
        Decl::Other => Seq::empty(),
    }
}

/// The items that processing one declaration appends, when the classifier
/// reaches it with a clean diagnostic set. A function whose signature
/// passes is appended even when its body statements were reported.
pub open spec fn decl_items(d: Decl) -> Seq<ItemV> {
    match d {
        Decl::TaggedUnion(vs) => if has_named_variant(vs@) {
            Seq::empty()
        } else {
            seq![ItemV::TaggedUnion(union_ir(vs@))]
        },
        Decl::Function(f) => if sig_diags(f).len() > 0 {
            Seq::empty()
        } else {
            seq![ItemV::Function(function_ir(f))]
        },
        Decl::Other => Seq::empty(),
    }
}

/// Whether each of the first `n` declarations would record no diagnostic.
pub open spec fn prefix_clean(ds: Seq<Decl>, n: int) -> bool {
    forall|j: int| 0 <= j < n ==> decl_diags(ds[j]).len() == 0
}

/// The diagnostics of a whole batch: those of the first declaration that
/// records any, and nothing of the declarations after it.
pub open spec fn batch_diags(ds: Seq<Decl>) -> Seq<Seq<char>>
    decreases ds.len(),
{
    if ds.len() == 0 {
        Seq::empty()
    } else if decl_diags(ds[0]).len() > 0 {
        decl_diags(ds[0])
    } else {
        batch_diags(ds.drop_first())
    }
}

/// The items of a whole batch: everything appended up to and including
/// the first declaration that records a diagnostic.
pub open spec fn batch_items(ds: Seq<Decl>) -> Seq<ItemV>
    decreases ds.len(),
{
    if ds.len() == 0 {
        Seq::empty()
    } else if decl_diags(ds[0]).len() > 0 {
        decl_items(ds[0])
    } else {
        decl_items(ds[0]) + batch_items(ds.drop_first())
    }
}

// ---------------------------------------------------------------------
// Tagged-union validator.
// ---------------------------------------------------------------------

/// Checks one tagged-union declaration's variants in order. A unit-form
/// or positional-form variant becomes a record with its payload types
/// copied verbatim; the first named-field variant records a diagnostic
/// and aborts this declaration, discarding the records built so far.
pub fn validate_tagged_union(variants: &Vec<VariantDecl>, diags: &mut DiagnosticSet) -> (r: Option<
    Vec<Variant>,
>)
    ensures
        has_named_variant(variants@) ==> r is None && final(diags)@ == old(diags)@.push(
            msg_named_fields(),
        ),
        !has_named_variant(variants@) ==> r is Some && final(diags)@ == old(diags)@
            && variants_view(r->Some_0@) == union_ir(variants@),
{
    let mut out: Vec<Variant> = Vec::new();
    let mut i: usize = 0;
    while i < variants.len()
        invariant
            i <= variants@.len(),
            diags@ == old(diags)@,
            out@.len() == i,
            forall|j: int| 0 <= j < i ==> !variant_is_named(variants@[j]),
            forall|j: int| 0 <= j < i ==> out@[j]@ =~~= variant_ir(variants@[j]),
        decreases variants@.len() - i,
    {
        let ghost prev = out@;
        match &variants[i].fields {
            VariantFields::Named => {
                diags.push(named_fields_message());
                assert(variant_is_named(variants@[i as int]));
                return None;
            },
            VariantFields::Unit => {
                let name = variants[i].name.clone();
                out.push(Variant { name, fields: Vec::new() });
            },
            VariantFields::Positional(ts) => {
                let mut fields: Vec<String> = Vec::new();
                let mut k: usize = 0;
                while k < ts.len()
                    invariant
                        k <= ts@.len(),
                        fields@.len() == k,
                        forall|j: int| 0 <= j < k ==> fields@[j]@ == ts@[j]@,
                    decreases ts@.len() - k,
                {
                    fields.push(ts[k].clone());
                    k += 1;
                }
                proof {
                    assert(types_view(fields@) =~~= types_view(ts@));
                }
                let name = variants[i].name.clone();
                out.push(Variant { name, fields });
            },
        }
        proof {
            assert(out@[i as int]@ =~~= variant_ir(variants@[i as int]));
            assert forall|j: int| 0 <= j < i + 1 implies out@[j]@ =~~= variant_ir(
                variants@[j],
            ) by {
                if j < i {
                    assert(out@[j] == prev[j]);
                }
            }
        }
        i += 1;
    }
    proof {
        assert forall|j: int| 0 <= j < variants@.len() implies variants_view(out@)[j] =~~= union_ir(
            variants@,
        )[j] by {
            assert(variants_view(out@)[j] == out@[j]@);
            assert(union_ir(variants@)[j] == variant_ir(variants@[j]));
        }
        assert(variants_view(out@) =~~= union_ir(variants@));
    }
    Some(out)
}

// ---------------------------------------------------------------------
// Function-signature validator and statement builder.
// ---------------------------------------------------------------------

/// Evaluates the five signature constraints independently, without
/// short-circuiting one against another, and returns the local buffer of
/// every violated constraint's diagnostic, in the fixed checking order.
pub fn check_signature(f: &FnDecl) -> (buffer: Vec<String>)
    ensures
        msgs_view(buffer@) == sig_diags(*f),
{
    let mut buffer: Vec<String> = Vec::new();
    if f.is_const {
        buffer.push(const_message());
    }
    proof {
        assert(msgs_view(buffer@) =~~= opt_diag(violates_const(*f), msg_const()));
    }
    if f.is_async {
        buffer.push(async_message());
    }
    proof {
        assert(msgs_view(buffer@) =~~= opt_diag(violates_const(*f), msg_const()) + opt_diag(
            violates_async(*f),
            msg_async(),
        ));
    }
    if f.has_custom_abi {
        buffer.push(custom_abi_message());
    }
    proof {
        assert(msgs_view(buffer@) =~~= opt_diag(violates_const(*f), msg_const()) + opt_diag(
            violates_async(*f),
            msg_async(),
        ) + opt_diag(violates_abi(*f), msg_custom_abi()));
    }
    if f.is_variadic {
        buffer.push(variadic_message());
    }
    proof {
        assert(msgs_view(buffer@) =~~= opt_diag(violates_const(*f), msg_const()) + opt_diag(
            violates_async(*f),
            msg_async(),
        ) + opt_diag(violates_abi(*f), msg_custom_abi()) + opt_diag(
            violates_variadic(*f),
            msg_variadic(),
        ));
    }
    let mut all_lifetimes = true;
    let mut i: usize = 0;
    while i < f.generics.len()
        invariant
            i <= f.generics@.len(),
            all_lifetimes <==> (forall|j: int| 0 <= j < i ==> f.generics@[j] is Lifetime),
        decreases f.generics@.len() - i,
    {
        match f.generics[i] {
            GenericParam::Lifetime => {},
            _ => {
                all_lifetimes = false;
            },
        }
        i += 1;
    }
    if !all_lifetimes {
        buffer.push(lifetime_generics_message());
    }
    proof {
        assert(all_lifetimes == !violates_generics(*f));
        assert(msgs_view(buffer@) =~~= sig_diags(*f));
    }
    buffer
}

/// Translates a function body's statements in order. Every statement is
/// currently rejected with its diagnostic — local bindings and nested
/// items by design, expression statements because their translation is an
/// open design gap — and translation of the remaining statements goes on
/// regardless, so the built sequence is empty.
pub fn build_body(stmts: &Vec<StmtDecl>, diags: &mut DiagnosticSet) -> (r: Vec<StmtIr>)
    ensures
        final(diags)@ == old(diags)@ + body_diags(stmts@),
        r@ == Seq::<StmtIr>::empty(),
{
    let out: Vec<StmtIr> = Vec::new();
    let mut i: usize = 0;
    proof {
        assert(diags@ =~~= old(diags)@ + body_diags(stmts@.take(0)));
    }
    while i < stmts.len()
        invariant
            i <= stmts@.len(),
            diags@ == old(diags)@ + body_diags(stmts@.take(i as int)),
            out@.len() == 0,
        decreases stmts@.len() - i,
    {
        match stmts[i] {
            StmtDecl::LocalBinding => diags.push(let_binding_message()),
            StmtDecl::NestedItem => diags.push(nested_item_message()),
            StmtDecl::Expression => diags.push(expression_message()),
            StmtDecl::TrailingExpression => diags.push(expression_message()),
        }
        proof {
            assert(diags@ =~~= old(diags)@ + body_diags(stmts@.take(i as int + 1)));
        }
        i += 1;
    }
    proof {
        assert(stmts@.take(stmts@.len() as int) =~= stmts@);
    }
    out
}

/// Checks one function declaration against the five signature
/// constraints. On any violation, the whole local buffer is copied into
/// the shared diagnostic set and the declaration is rejected, its body
/// never visited. Otherwise the signature record is built, the body is
/// translated, and the completed function record is returned even when
/// body statements were reported.
pub fn validate_function(f: &FnDecl, diags: &mut DiagnosticSet) -> (r: Option<Function>)
    ensures
        sig_diags(*f).len() > 0 ==> r is None && final(diags)@ == old(diags)@ + sig_diags(*f),
        sig_diags(*f).len() == 0 ==> r is Some && final(diags)@ == old(diags)@ + body_diags(
            f.body@,
        ) && r->Some_0@ == function_ir(*f),
{
    let buffer = check_signature(f);
    if buffer.len() > 0 {
        let mut i: usize = 0;
        while i < buffer.len()
            invariant
                i <= buffer@.len(),
                diags@ == old(diags)@ + msgs_view(buffer@.take(i as int)),
            decreases buffer@.len() - i,
        {
            let m = buffer[i].clone();
            diags.push(m);
            proof {
                assert(diags@ =~~= old(diags)@ + msgs_view(buffer@.take(i as int + 1)));
            }
            i += 1;
        }
        proof {
            assert(buffer@.take(buffer@.len() as int) =~= buffer@);
        }
        return None;
    }
    proof {
        assert(msgs_view(buffer@) =~~= Seq::<Seq<char>>::empty());
        assert(sig_diags(*f).len() == 0);
    }
    let body = build_body(&f.body, diags);
    let outputs: Vec<ReturnSlot> = match &f.ret {
        Option::None => Vec::new(),
        Option::Some(t) => {
            let mut v: Vec<ReturnSlot> = Vec::new();
            v.push(ReturnSlot { name: String::from_str("Output"), ty: t.clone() });
            v
        },
    };
    let func = Function {
        sig: Signature {
            vis: f.vis,
            name: f.name.clone(),
            is_unsafe: f.is_unsafe,
            outputs,
        },
        body,
    };
    proof {
        assert(func@ =~~= function_ir(*f));
    }
    Some(func)
}

// ---------------------------------------------------------------------
// Declaration classifier and batch driver.
// ---------------------------------------------------------------------

/// Dispatches one declaration to the matching validator, appending the
/// accepted record to `items`. Once any diagnostic has been recorded for
/// the batch, the declaration is not examined at all; declarations of an
/// unrecognized kind are skipped without error or record.
pub fn classify(d: &Decl, items: &mut Vec<Item>, diags: &mut DiagnosticSet)
    ensures
        old(diags)@.len() > 0 ==> final(diags)@ == old(diags)@ && final(items)@ == old(items)@,
        old(diags)@.len() == 0 ==> final(diags)@ == decl_diags(*d) && items_view(final(items)@)
            == items_view(old(items)@) + decl_items(*d),
{
    if !diags.is_empty() {
        return;
    }
    let ghost items0 = items@;
    match d {
        Decl::TaggedUnion(vs) => {
            match validate_tagged_union(vs, diags) {
                Option::Some(variants) => {
                    items.push(Item::TaggedUnion(variants));
                    proof {
                        assert(items_view(items@) =~~= items_view(items0) + decl_items(*d));
                    }
                },
                Option::None => {
                    proof {
                        assert(diags@ =~~= decl_diags(*d));
                        assert(items_view(items@) =~~= items_view(items0) + decl_items(*d));
                    }
                },
            }
        },
        Decl::Function(f) => {
            match validate_function(f, diags) {
                Option::Some(func) => {
                    items.push(Item::Function(func));
                    proof {
                        assert(items_view(items@) =~~= items_view(items0) + decl_items(*d));
                    }
                },
                Option::None => {
                    proof {
                        assert(items_view(items@) =~~= items_view(items0) + decl_items(*d));
                    }
                },
            }
        },
        Decl::Other => {
            proof {
                assert(items_view(items@) =~~= items_view(items0) + decl_items(*d));
            }
        },
    }
}

/// Relates the batch model over a prefix one declaration longer to the
/// model over the prefix itself: a clean prefix takes the next
/// declaration's diagnostics and items; a failed prefix is final.
pub proof fn lemma_batch_extend(ds: Seq<Decl>, i: int)
    requires
        0 <= i < ds.len(),
    ensures
        batch_diags(ds.take(i)).len() == 0 ==> batch_diags(ds.take(i + 1)) == decl_diags(ds[i])
            && batch_items(ds.take(i + 1)) == batch_items(ds.take(i)) + decl_items(ds[i]),
        batch_diags(ds.take(i)).len() > 0 ==> batch_diags(ds.take(i + 1)) == batch_diags(
            ds.take(i),
        ) && batch_items(ds.take(i + 1)) == batch_items(ds.take(i)),
    decreases i,
{
    if i == 0 {
        assert(ds.take(0) =~= Seq::<Decl>::empty());
        assert(ds.take(1) =~= seq![ds[0]]);
        assert(seq![ds[0]].drop_first() =~= Seq::<Decl>::empty());
        assert(batch_items(ds.take(0)) + decl_items(ds[0]) =~= decl_items(ds[0]));
    } else {
        let tail = ds.drop_first();
        lemma_batch_extend(tail, i - 1);
        assert(ds.take(i).drop_first() =~= tail.take(i - 1));
        assert(ds.take(i + 1).drop_first() =~= tail.take(i));
        assert(ds.take(i)[0] == ds[0]);
        assert(ds.take(i + 1)[0] == ds[0]);
        assert(tail[i - 1] == ds[i]);
        if decl_diags(ds[0]).len() > 0 {
        } else {
            if batch_diags(ds.take(i)).len() == 0 {
                assert(decl_items(ds[0]) + (batch_items(tail.take(i - 1)) + decl_items(ds[i]))
                    =~= (decl_items(ds[0]) + batch_items(tail.take(i - 1))) + decl_items(ds[i]));
            }
        }
    }
}

/// What one run of the processor leaves behind: the accepted items and
/// the shared diagnostic set.
pub struct Processed {
    pub items: Vec<Item>,
    pub diags: DiagnosticSet,
}

/// Runs the whole batch through the classifier in order, threading one
/// shared diagnostic set, and returns the accepted items together with
/// the diagnostics recorded up to the first failing declaration.
pub fn process(decls: &Vec<Decl>) -> (r: Processed)
    ensures
        items_view(r.items@) == batch_items(decls@),
        r.diags@ == batch_diags(decls@),
{
    let mut items: Vec<Item> = Vec::new();
    let mut diags = DiagnosticSet::new();
    let mut i: usize = 0;
    proof {
        assert(items_view(items@) =~~= batch_items(decls@.take(0)));
        assert(diags@ =~~= batch_diags(decls@.take(0)));
    }
    while i < decls.len()
        invariant
            i <= decls@.len(),
            items_view(items@) == batch_items(decls@.take(i as int)),
            diags@ == batch_diags(decls@.take(i as int)),
        decreases decls@.len() - i,
    {
        proof {
            lemma_batch_extend(decls@, i as int);
        }
        classify(&decls[i], &mut items, &mut diags);
        i += 1;
    }
    proof {
        assert(decls@.take(decls@.len() as int) =~= decls@);
    }
    Processed { items, diags }
}

/// The one output of a run: the fixed success sentinel when no diagnostic
/// was recorded, otherwise the recorded diagnostic messages in append
/// order.
#[derive(Debug, Clone, PartialEq, Eq)]
pub enum Outcome {
    Success,
    Failure(Vec<String>),
}

/// The driver: consumes the whole batch, then inspects the diagnostic
/// set — empty means the success sentinel, non-empty means the full
/// accumulated diagnostic text, in the order the diagnostics were
/// appended.
pub fn encode(decls: &Vec<Decl>) -> (r: Outcome)
    ensures
        batch_diags(decls@).len() == 0 ==> r is Success,
        batch_diags(decls@).len() > 0 ==> r is Failure && msgs_view(r->Failure_0@) == batch_diags(
            decls@,
        ),
{
    let p = process(decls);
    if p.diags.is_empty() {
        Outcome::Success
    } else {
        Outcome::Failure(p.diags.into_messages())
    }
}

} // verus!
