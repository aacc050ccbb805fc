//! The loader's error type: a simple named failure of this module's own, or
//! the underlying dynamic-loading failure wrapped whole.

use vstd::prelude::*;
use vstd::std_specs::convert::FromSpec;

verus! {

/// Declares dlopen's error type, so an underlying dynamic-loading failure
/// can be carried and wrapped without being inspected.
#[verifier::external_type_specification]
#[verifier::external_body]
pub struct ExDlopenError(dlopen::Error);

/// Enum representing an error occured when trying to load
/// [`NativeBind`](crate::bind::NativeBind)s.
#[derive(Debug)]
pub enum BindLoadError {
    Simple(&'static str),
    DlOpen(dlopen::Error),
}

/// The fixed prefix every load-error message carries.
pub open spec fn error_prefix() -> Seq<char> {
    "BindLoadError: "@
}

/// Relies on the `Display` of dlopen's `Error` for the text of the
/// underlying failure: it always writes a non-empty fixed description of the
/// failure first, before any platform message.
#[verifier::external_body]
fn dlopen_error_string(e: &dlopen::Error) -> (r: String)
    ensures
        r@.len() > 0,
{
    e.to_string()
}

impl From<dlopen::Error> for BindLoadError {
    fn from(error: dlopen::Error) -> (r: Self) {
        BindLoadError::DlOpen(error)
    }
}

impl vstd::std_specs::convert::FromSpecImpl<dlopen::Error> for BindLoadError {
    open spec fn obeys_from_spec() -> bool {
        true
    }

    open spec fn from_spec(error: dlopen::Error) -> Self {
        BindLoadError::DlOpen(error)
    }
}

/// Builds an error's textual form from the failure text it carries: the
/// fixed prefix, then the text itself, verbatim.
pub fn prefixed_message(text: &str) -> (r: String)
    ensures
        r@ == error_prefix() + text@,
{
    let mut out = String::from_str("BindLoadError: ");
    out.append(text);
    out
}

impl BindLoadError {
    /// The error's textual form: the fixed prefix, then the simple message
    /// itself or the underlying dynamic-loading failure's own text,
    /// propagated verbatim through [`prefixed_message`].
    pub fn message(&self) -> (r: String)
        ensures
            r@.len() >= error_prefix().len(),
            r@.subrange(0, error_prefix().len() as int) == error_prefix(),
            self matches BindLoadError::Simple(m) ==> r@ == error_prefix() + m@,
            self matches BindLoadError::DlOpen(_) ==> r@.len() > error_prefix().len(),
    {
        let out = match self {
            BindLoadError::Simple(message) => prefixed_message(message),
            BindLoadError::DlOpen(error) => {
                let text = dlopen_error_string(error);
                prefixed_message(text.as_str())
            },
        };
        proof {
            assert(out@.subrange(0, error_prefix().len() as int) =~= error_prefix());
        }
        out
    }
}

/// Law: an underlying dynamic-loading failure is always wrapped whole;
/// converting it never yields the simple variant.
pub proof fn lemma_dlopen_failure_wrapped(error: dlopen::Error)
    ensures
        BindLoadError::from_spec(error) == BindLoadError::DlOpen(error),
        !(BindLoadError::from_spec(error) matches BindLoadError::Simple(_)),
{
}

} // verus!
