//! Laws of the processor, stated over the spec model and proved once for
//! all inputs: what a declaration contributes to a batch, that every
//! violated signature constraint is reported independently, and how a
//! batch short-circuits at its first failing declaration.

use vstd::prelude::*;
use crate::decl::{Decl, FnDecl, VariantDecl};
use crate::diag::{
    msg_named_fields, msg_const, msg_async, msg_custom_abi, msg_variadic, msg_lifetime_generics,
    msg_let_binding,
};
use crate::ir::ItemV;
use crate::validate::{
    batch_diags, batch_items, body_diags, decl_diags, decl_items, has_named_variant, opt_diag,
    prefix_clean, sig_diags, union_ir, variant_ir, violates_abi, violates_async, violates_const,
    violates_generics, violates_variadic, lemma_batch_extend,
};

verus! {

/// A tagged-union declaration whose variants are all unit or positional
/// yields exactly one record, with the variants in original order and
/// each variant's payload types preserved in order, and records no
/// diagnostic.
pub proof fn lemma_valid_union_accepted(vs: Vec<VariantDecl>)
    requires
        !has_named_variant(vs@),
    ensures
        decl_diags(Decl::TaggedUnion(vs)) == Seq::<Seq<char>>::empty(),
        decl_items(Decl::TaggedUnion(vs)) == seq![ItemV::TaggedUnion(union_ir(vs@))],
        union_ir(vs@).len() == vs@.len(),
        forall|i: int| 0 <= i < vs@.len() ==> union_ir(vs@)[i] == variant_ir(vs@[i]),
{
}

/// A tagged union containing a variant with named fields yields the
/// named-field diagnostic and no record at all, however many valid
/// variants precede the offending one.
pub proof fn lemma_named_variant_rejects(vs: Vec<VariantDecl>)
    requires
        has_named_variant(vs@),
    ensures
        decl_diags(Decl::TaggedUnion(vs)) == seq![msg_named_fields()],
        decl_items(Decl::TaggedUnion(vs)).len() == 0,
{
}

/// A function declaration violating exactly one of the five signature
/// constraints yields exactly the one corresponding diagnostic.
pub proof fn lemma_single_violation_reported(f: FnDecl)
    ensures
        violates_const(f) && !violates_async(f) && !violates_abi(f) && !violates_variadic(f)
            && !violates_generics(f) ==> sig_diags(f) == seq![msg_const()],
        !violates_const(f) && violates_async(f) && !violates_abi(f) && !violates_variadic(f)
            && !violates_generics(f) ==> sig_diags(f) == seq![msg_async()],
        !violates_const(f) && !violates_async(f) && violates_abi(f) && !violates_variadic(f)
            && !violates_generics(f) ==> sig_diags(f) == seq![msg_custom_abi()],
        !violates_const(f) && !violates_async(f) && !violates_abi(f) && violates_variadic(f)
            && !violates_generics(f) ==> sig_diags(f) == seq![msg_variadic()],
        !violates_const(f) && !violates_async(f) && !violates_abi(f) && !violates_variadic(f)
            && violates_generics(f) ==> sig_diags(f) == seq![msg_lifetime_generics()],
{
    if violates_const(f) && !violates_async(f) && !violates_abi(f) && !violates_variadic(f)
        && !violates_generics(f) {
        assert(sig_diags(f) =~= seq![msg_const()]);
    }
    if !violates_const(f) && violates_async(f) && !violates_abi(f) && !violates_variadic(f)
        && !violates_generics(f) {
        assert(sig_diags(f) =~= seq![msg_async()]);
    }
    if !violates_const(f) && !violates_async(f) && violates_abi(f) && !violates_variadic(f)
        && !violates_generics(f) {
        assert(sig_diags(f) =~= seq![msg_custom_abi()]);
    }
    if !violates_const(f) && !violates_async(f) && !violates_abi(f) && violates_variadic(f)
        && !violates_generics(f) {
        assert(sig_diags(f) =~= seq![msg_variadic()]);
    }
    if !violates_const(f) && !violates_async(f) && !violates_abi(f) && !violates_variadic(f)
        && violates_generics(f) {
        assert(sig_diags(f) =~= seq![msg_lifetime_generics()]);
    }
}

/// The five signature constraints are evaluated independently, never
/// short-circuited against one another: the diagnostic of every violated
/// constraint appears in the buffer, and with no violation the buffer is
/// empty.
pub proof fn lemma_every_violation_reported(f: FnDecl)
    ensures
        violates_const(f) ==> sig_diags(f).contains(msg_const()),
        violates_async(f) ==> sig_diags(f).contains(msg_async()),
        violates_abi(f) ==> sig_diags(f).contains(msg_custom_abi()),
        violates_variadic(f) ==> sig_diags(f).contains(msg_variadic()),
        violates_generics(f) ==> sig_diags(f).contains(msg_lifetime_generics()),
        !violates_const(f) && !violates_async(f) && !violates_abi(f) && !violates_variadic(f)
            && !violates_generics(f) ==> sig_diags(f).len() == 0,
        sig_diags(f).len() > 0 ==> decl_items(Decl::Function(f)).len() == 0 && decl_diags(
            Decl::Function(f),
        ) == sig_diags(f),
{
    let i1 = opt_diag(violates_const(f), msg_const()).len() as int;
    let i2 = i1 + opt_diag(violates_async(f), msg_async()).len() as int;
    let i3 = i2 + opt_diag(violates_abi(f), msg_custom_abi()).len() as int;
    let i4 = i3 + opt_diag(violates_variadic(f), msg_variadic()).len() as int;
    if violates_const(f) {
        assert(sig_diags(f)[0] == msg_const());
    }
    if violates_async(f) {
        assert(sig_diags(f)[i1] == msg_async());
    }
    if violates_abi(f) {
        assert(sig_diags(f)[i2] == msg_custom_abi());
    }
    if violates_variadic(f) {
        assert(sig_diags(f)[i3] == msg_variadic());
    }
    if violates_generics(f) {
        assert(sig_diags(f)[i4] == msg_lifetime_generics());
    }
}

/// A local-binding statement anywhere in a function body is reported with
/// its diagnostic; and since the five signature constraints never look at
/// the body, a function whose signature is clean is still rejected only
/// statement by statement, its diagnostics being exactly the body's.
pub proof fn lemma_let_binding_reported(f: FnDecl, i: int)
    requires
        0 <= i < f.body@.len(),
        f.body@[i] is LocalBinding,
    ensures
        body_diags(f.body@).contains(msg_let_binding()),
        sig_diags(f).len() == 0 ==> decl_diags(Decl::Function(f)) == body_diags(f.body@),
{
    assert(body_diags(f.body@)[i] == msg_let_binding());
}

/// Each of the first `n` declarations of a clean prefix contributes no
/// diagnostic to the batch.
pub proof fn lemma_clean_prefix(ds: Seq<Decl>, n: int)
    requires
        0 <= n <= ds.len(),
        prefix_clean(ds, n),
    ensures
        batch_diags(ds.take(n)).len() == 0,
    decreases n,
{
    if n > 0 {
        let tail = ds.drop_first();
        assert(decl_diags(ds[0]).len() == 0);
        assert(ds.take(n)[0] == ds[0]);
        assert(ds.take(n).drop_first() =~= tail.take(n - 1));
        assert forall|j: int| 0 <= j < n - 1 implies decl_diags(tail[j]).len() == 0 by {
            assert(tail[j] == ds[j + 1]);
        }
        lemma_clean_prefix(tail, n - 1);
    }
}

/// Once some prefix of the batch has recorded a diagnostic, the rest of
/// the batch changes nothing: neither the diagnostics nor the items.
pub proof fn lemma_batch_stops(ds: Seq<Decl>, n: int)
    requires
        0 <= n <= ds.len(),
        batch_diags(ds.take(n)).len() > 0,
    ensures
        batch_diags(ds) == batch_diags(ds.take(n)),
        batch_items(ds) == batch_items(ds.take(n)),
    decreases n,
{
    assert(n > 0);
    let tail = ds.drop_first();
    assert(ds.take(n)[0] == ds[0]);
    assert(ds.take(n).drop_first() =~= tail.take(n - 1));
    if decl_diags(ds[0]).len() > 0 {
    } else {
        lemma_batch_stops(tail, n - 1);
    }
}

/// Whole-batch short-circuiting: when every declaration before position
/// `i` is clean and the one at `i` fails, the batch's diagnostics are
/// exactly that declaration's, and nothing after it contributes an item.
pub proof fn lemma_batch_short_circuit(ds: Seq<Decl>, i: int)
    requires
        0 <= i < ds.len(),
        prefix_clean(ds, i),
        decl_diags(ds[i]).len() > 0,
    ensures
        batch_diags(ds) == decl_diags(ds[i]),
        batch_items(ds) == batch_items(ds.take(i)) + decl_items(ds[i]),
{
    lemma_clean_prefix(ds, i);
    lemma_batch_extend(ds, i);
    lemma_batch_stops(ds, i + 1);
}

/// A completely clean batch records no diagnostic at all, so the driver
/// emits the success sentinel.
pub proof fn lemma_clean_batch(ds: Seq<Decl>)
    requires
        prefix_clean(ds, ds.len() as int),
    ensures
        batch_diags(ds).len() == 0,
{
    lemma_clean_prefix(ds, ds.len() as int);
    assert(ds.take(ds.len() as int) =~= ds);
}

} // verus!
