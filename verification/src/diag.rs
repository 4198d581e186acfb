//! The diagnostic aggregator: one shared, append-only sink of diagnostic
//! messages, plus the fixed message texts that the validators record.

use vstd::prelude::*;
use vstd::string::StringExecFns;

verus! {

/// The view of a sequence of messages: each message as its character
/// sequence.
pub open spec fn msgs_view(msgs: Seq<String>) -> Seq<Seq<char>> {
    msgs.map_values(|m: String| m@)
}

/// The ordered, append-only collection of diagnostic messages shared by
/// the whole traversal. Once it is non-empty the batch is failed, and the
/// classifier stops examining further declarations.
pub struct DiagnosticSet {
    msgs: Vec<String>,
}

impl View for DiagnosticSet {
    type V = Seq<Seq<char>>;

    closed spec fn view(&self) -> Seq<Seq<char>> {
        msgs_view(self.msgs@)
    }
}

impl DiagnosticSet {
    pub fn new() -> (r: DiagnosticSet)
        ensures
            r@ == Seq::<Seq<char>>::empty(),
    {
        let r = DiagnosticSet { msgs: Vec::new() };
        proof {
            assert(r@ =~= Seq::<Seq<char>>::empty());
        }
        r
    }

    /// Record one diagnostic at the end of the collection.
    pub fn push(&mut self, msg: String)
        ensures
            final(self)@ == old(self)@.push(msg@),
    {
        self.msgs.push(msg);
        proof {
            assert(self@ =~= old(self)@.push(msg@));
        }
    }

    pub fn is_empty(&self) -> (r: bool)
        ensures
            r == (self@.len() == 0),
    {
        self.msgs.len() == 0
    }

    pub fn len(&self) -> (r: usize)
        ensures
            r == self@.len(),
    {
        self.msgs.len()
    }

    /// Read one recorded message.
    pub fn message(&self, i: usize) -> (r: &String)
        requires
            i < self@.len(),
        ensures
            r@ == self@[i as int],
    {
        &self.msgs[i]
    }

    /// Hand the recorded messages out, in the order they were appended.
    pub fn into_messages(self) -> (r: Vec<String>)
        ensures
            msgs_view(r@) == self@,
    {
        self.msgs
    }
}

/// The diagnostic for a tagged-union variant with named fields.
pub open spec fn msg_named_fields() -> Seq<char> {
    "variants cannot have named fields"@
}

/// The diagnostic for a function carrying a compile-time-constant marker.
pub open spec fn msg_const() -> Seq<char> {
    "type functions cannot be marked const"@
}

/// The diagnostic for a function carrying an asynchronous marker.
pub open spec fn msg_async() -> Seq<char> {
    "type functions cannot be marked async"@
}

/// The diagnostic for a function declaring a custom calling convention.
pub open spec fn msg_custom_abi() -> Seq<char> {
    "type functions cannot have a custom abi"@
}

/// The diagnostic for a variadic function.
pub open spec fn msg_variadic() -> Seq<char> {
    "type functions cannot be variadic"@
}

/// The diagnostic for a generic parameter that is not a lifetime.
pub open spec fn msg_lifetime_generics() -> Seq<char> {
    "type functions may only be generic over lifetimes"@
}

/// The diagnostic for a local binding inside a function body.
pub open spec fn msg_let_binding() -> Seq<char> {
    "let bindings are unimplemented"@
}

/// The diagnostic for a nested declaration inside a function body.
pub open spec fn msg_nested_item() -> Seq<char> {
    "items cannot be used inside of type functions"@
}

/// The diagnostic for an expression statement, whose translation into the
/// intermediate representation is deliberately left undefined.
pub open spec fn msg_expression() -> Seq<char> {
    "expression statements are not yet supported"@
}

pub fn named_fields_message() -> (r: String)
    ensures
        r@ == msg_named_fields(),
{
    String::from_str("variants cannot have named fields")
}

pub fn const_message() -> (r: String)
    ensures
        r@ == msg_const(),
{
    String::from_str("type functions cannot be marked const")
}

pub fn async_message() -> (r: String)
    ensures
        r@ == msg_async(),
{
    String::from_str("type functions cannot be marked async")
}

pub fn custom_abi_message() -> (r: String)
    ensures
        r@ == msg_custom_abi(),
{
    String::from_str("type functions cannot have a custom abi")
}

pub fn variadic_message() -> (r: String)
    ensures
        r@ == msg_variadic(),
{
    String::from_str("type functions cannot be variadic")
}

pub fn lifetime_generics_message() -> (r: String)
    ensures
        r@ == msg_lifetime_generics(),
{
    String::from_str("type functions may only be generic over lifetimes")
}

pub fn let_binding_message() -> (r: String)
    ensures
        r@ == msg_let_binding(),
{
    String::from_str("let bindings are unimplemented")
}

pub fn nested_item_message() -> (r: String)
    ensures
        r@ == msg_nested_item(),
{
    String::from_str("items cannot be used inside of type functions")
}

pub fn expression_message() -> (r: String)
    ensures
        r@ == msg_expression(),
{
    String::from_str("expression statements are not yet supported")
}

} // verus!
