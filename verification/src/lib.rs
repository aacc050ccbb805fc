//! Native-interop layer for the coda runtime: the tagged value type exchanged
//! with natively compiled extension functions, the control-flow signal such a
//! function may raise, the named binding record that registers one, and the
//! error type of the binding loader.

pub mod bind;
pub mod error;
pub mod text;
pub mod value;

pub use bind::NativeBind;
pub use bind::NativeHandler;
pub use bind::lemma_bind_equality;
pub use error::BindLoadError;
pub use error::error_prefix;
pub use error::prefixed_message;
pub use error::lemma_dlopen_failure_wrapped;
pub use value::ControlFlowImpact;
pub use value::NativeValue;
pub use value::double_text;
pub use value::value_text;
pub use text::int_text;
pub use text::nat_text;
