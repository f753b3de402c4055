//! A dynamic foreign-function invocation bridge.
//!
//! Given a loaded native shared library, a symbol name (or a raw address),
//! a call signature described as data, and a sequence of tagged argument
//! values, the bridge marshals the arguments into their native machine
//! representations, plans the native call, and decodes the raw result back
//! into the dynamic value model.
//!
//! The native call itself, symbol resolution, and raw memory reads are
//! performed by unverified host code around this library; everything that
//! decides, validates, converts, and encodes is here, with contracts.

pub mod call;
pub mod dec;
pub mod marshal;
pub mod registry;
pub mod sample_lib;
pub mod utf8;
pub mod value;
