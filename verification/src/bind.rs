//! The binding record: a stable name paired with the native function that
//! implements it, with equality over the whole record.

use vstd::prelude::*;
use vstd::std_specs::cmp::PartialEqSpec;
use crate::value::ControlFlowImpact;
use crate::value::NativeValue;

verus! {

/// Holds the native function pointer of a binding.
///
/// Verus takes no function-pointer type in a signature, so the pointer sits
/// in this opaque struct and is reached through its public field. Its
/// abstract equality is pointer identity: two handlers are one value exactly
/// when they point at the same function.
#[verifier::external_body]
pub struct NativeHandler {
    /// The bare function pointer, as a native library hands it out.
    pub inner: fn(Vec<NativeValue>) -> Option<ControlFlowImpact>,
}

impl Clone for NativeHandler {
    /// Relies on function pointers being plain copyable addresses.
    #[verifier::external_body]
    fn clone(&self) -> (r: Self)
        ensures
            r == *self,
    {
        NativeHandler { inner: self.inner }
    }
}

impl Copy for NativeHandler {

}

impl core::hash::Hash for NativeHandler {
    /// Relies on the standard `Hash` of function pointers, which hashes the
    /// address the handler's equality compares.
    #[verifier::external_body]
    fn hash<H: core::hash::Hasher>(&self, state: &mut H) {
        self.inner.hash(state)
    }
}

/// Relies on `==` of function pointers: equal exactly when both point at the
/// same function, which is what a handler is as an abstract value.
#[verifier::external_body]
fn handler_eq(a: &NativeHandler, b: &NativeHandler) -> (r: bool)
    ensures
        r == (*a == *b),
{
    a.inner == b.inner
}

/// Relies on `==` of string slices: equal exactly when the two slices hold
/// the same text.
#[verifier::external_body]
fn str_eq(a: &str, b: &str) -> (r: bool)
    ensures
        r == (a@ == b@),
{
    a == b
}

/// Struct representing a coda native-bind, offering an interface between
/// coda code and natively compiled code.
#[derive(Clone, Hash)]
pub struct NativeBind {
    /// The name/identifier of the [`NativeBind`].
    pub name: &'static str,
    /// The function handling the interfacing.
    pub handler: NativeHandler,
}

impl PartialEq for NativeBind {
    fn eq(&self, other: &Self) -> (r: bool) {
        str_eq(self.name, other.name) && handler_eq(&self.handler, &other.handler)
    }
}

impl vstd::std_specs::cmp::PartialEqSpecImpl for NativeBind {
    open spec fn obeys_eq_spec() -> bool {
        true
    }

    open spec fn eq_spec(&self, other: &Self) -> bool {
        self.name@ == other.name@ && self.handler == other.handler
    }
}

impl Eq for NativeBind {

}

/// Law: two bindings compare equal exactly when both the name and the
/// underlying function agree; a differing name alone already makes them
/// unequal, whatever the functions are.
pub proof fn lemma_bind_equality(a: NativeBind, b: NativeBind)
    ensures
        a.eq_spec(&b) <==> (a.name@ == b.name@ && a.handler == b.handler),
        a.name@ != b.name@ ==> !a.eq_spec(&b),
{
}

} // verus!
