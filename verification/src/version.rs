//! The version record of the runtime.

use crate::transaction::Runtime;
use std::collections::BTreeSet;
use vstd::prelude::*;

verus! {

/// Name of the runtime specification, and of its implementation.
pub open spec fn runtime_name() -> Seq<char> {
    "akropolisos-node"@
}

/// Version of the authorship interface.
pub const AUTHORING_VERSION: u32 = 2;

/// Version of the runtime specification.
pub const SPEC_VERSION: u32 = 2;

/// Version of the implementation of the specification.
pub const IMPL_VERSION: u32 = 2;

/// What identifies a runtime: the names and version numbers that a node
/// compares to decide whether it can execute blocks natively.
pub struct RuntimeVersion {
    pub spec_name: String,
    pub impl_name: String,
    pub authoring_version: u32,
    pub spec_version: u32,
    pub impl_version: u32,
    /// The runtime APIs that the runtime implements: the identifier of each
    /// and its version.
    pub apis: Vec<([u8; 8], u32)>,
}

/// The version of the runtime when it is compiled natively, with the
/// specification versions, besides its own, that it can author blocks for.
pub struct NativeVersion {
    pub runtime_version: RuntimeVersion,
    pub can_author_with: BTreeSet<u32>,
}

/// The runtime version that `version` and `native_version` report, with the
/// runtime API versions `apis`.
pub open spec fn is_this_runtime(v: RuntimeVersion, apis: Seq<([u8; 8], u32)>) -> bool {
    &&& v.spec_name@ == runtime_name()
    &&& v.impl_name@ == runtime_name()
    &&& v.authoring_version == AUTHORING_VERSION
    &&& v.spec_version == SPEC_VERSION
    &&& v.impl_version == IMPL_VERSION
    &&& v.apis@ == apis
}

impl Runtime {
    /// This runtime's version, listing `apis`, the versions of the runtime
    /// APIs that it implements (which the API declarations determine).
    pub fn version(apis: Vec<([u8; 8], u32)>) -> (v: RuntimeVersion)
        ensures
            is_this_runtime(v, apis@),
            v.apis@ == apis@,
    {
        proof {
            reveal_strlit("akropolisos-node");
        }
        RuntimeVersion {
            spec_name: "akropolisos-node".to_owned(),
            impl_name: "akropolisos-node".to_owned(),
            authoring_version: AUTHORING_VERSION,
            spec_version: SPEC_VERSION,
            impl_version: IMPL_VERSION,
            apis,
        }
    }
}

/// The version information used to identify this runtime when compiled
/// natively: this runtime's version, listing the runtime API versions
/// `apis`, and no other specification version to author blocks for.
pub fn native_version(apis: Vec<([u8; 8], u32)>) -> (v: NativeVersion)
    ensures
        is_this_runtime(v.runtime_version, apis@),
        v.runtime_version.apis@ == apis@,
        v.can_author_with@ == Set::<u32>::empty(),
{
    NativeVersion { runtime_version: Runtime::version(apis), can_author_with: BTreeSet::new() }
}


/// The version reported for a list of runtime APIs names this runtime, with
/// authoring, specification and implementation version 2, and lists exactly
/// the APIs given: as many, the same entries, in the same order.
pub proof fn lemma_version_lists_given_apis(v: RuntimeVersion, apis: Seq<([u8; 8], u32)>)
    requires
        is_this_runtime(v, apis),
    ensures
        v.spec_name@ == "akropolisos-node"@,
        v.impl_name@ == "akropolisos-node"@,
        v.authoring_version == 2 && v.spec_version == 2 && v.impl_version == 2,
        v.apis@.len() == apis.len(),
        forall|i: int| 0 <= i < apis.len() ==> #[trigger] v.apis@[i] == apis[i],
{
}

} // verus!
