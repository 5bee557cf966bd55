//! Diagnostic-naming support for rewritten bindings.
//!
//! The instrumentation pass wraps a binding whose initializer creates a
//! resource with a naming step. At runtime that step must attach the
//! binding's textual name when the produced value is a resource view and do
//! nothing otherwise; the wrapper type and trait pair here let the rewritten
//! code pick the right behaviour by the value's type.

use vstd::prelude::*;

use crate::rps_types::Buffer;
use crate::rps_types::Texture;
use crate::rpsl_runtime::Trace;
use crate::rpsl_runtime::TraceEvent;

verus! {

/// Wraps the value produced by an instrumented binding initializer.
pub struct ResourceNamer<T>(pub T);

/// The naming step for resource views: records the binding's name against
/// the viewed resource.
pub trait ResourceNamerTrait {
    /// The handle of the resource the wrapped view refers to.
    spec fn spec_resource_id(&self) -> u32;

    /// Attaches `name` to the wrapped resource.
    fn set_name(&self, trace: &mut Trace, name: &[u8])
        ensures
            final(trace).events@.len() == old(trace).events@.len() + 1,
            final(trace).events@.drop_last() == old(trace).events@,
            final(trace).events@.last() matches TraceEvent::NameResource {
                resource_hdl,
                name: n,
            } && resource_hdl == self.spec_resource_id() && n@ == name@,
    ;
}

impl ResourceNamerTrait for ResourceNamer<Buffer> {
    open spec fn spec_resource_id(&self) -> u32 {
        self.0.spec_id()
    }

    fn set_name(&self, trace: &mut Trace, name: &[u8]) {
        self.0.set_name(trace, name);
    }
}

impl ResourceNamerTrait for ResourceNamer<Texture> {
    open spec fn spec_resource_id(&self) -> u32 {
        self.0.spec_id()
    }

    fn set_name(&self, trace: &mut Trace, name: &[u8]) {
        self.0.set_name(trace, name);
    }
}

/// The naming step for everything else: attaching a name to a value that is
/// no resource view does nothing.
pub trait NonResourceNamerTrait {
    /// Leaves the trace untouched.
    fn set_name(&self, trace: &mut Trace, name: &[u8])
        ensures
            final(trace).events@ == old(trace).events@,
    {
    }
}

impl<T> NonResourceNamerTrait for ResourceNamer<T> {

}

} // verus!
