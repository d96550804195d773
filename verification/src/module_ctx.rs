//! Module-level context handed to the compiler by its host: the identity
//! of a function within its module, the shared module metadata, and the
//! shared read-only function body. The core only reads these values and
//! passes them through to the selected backend tier.

use std::sync::Arc;
use vstd::prelude::*;

verus! {

/// Identity of one function local to a module. Cross-function links in a
/// code object's call-offset table refer to functions by this index.
#[derive(Debug, Clone, Copy, PartialEq, Eq, Structural)]
pub struct FuncIndex {
    pub value: u32,
}

impl FuncIndex {
    pub fn new(value: u32) -> (r: Self)
        ensures
            r.value == value,
    {
        FuncIndex { value }
    }

    pub fn index(&self) -> (r: u32)
        ensures
            r == self.value,
    {
        self.value
    }
}

/// Immutable description of a module: how many functions it declares.
/// Shared read-only between all compile jobs of the module.
#[derive(Debug, Clone, Copy, PartialEq, Eq, Structural)]
pub struct ModuleInfo {
    pub func_count: u32,
}

/// A shared, reference-counted, read-only representation of one
/// function's source form, passed opaquely to the selected backend tier.
pub type SharedFunctionBody = Arc<Vec<u8>>;

/// Relies on `Arc::clone` (std): cloning a shared handle yields a handle
/// to the same value.
#[verifier::external_body]
pub(crate) fn share<T>(v: &Arc<T>) -> (r: Arc<T>)
    ensures
        r == *v,
{
    v.clone()
}

/// Relies on `Arc::deref` (std): a shared handle dereferences to the value
/// it was created over.
#[verifier::external_body]
pub(crate) fn body_bytes(body: &SharedFunctionBody) -> (r: &Vec<u8>)
    ensures
        r@ == body@,
{
    &**body
}

} // verus!
