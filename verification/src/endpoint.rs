//! The endpoint resolver: both the connecting and the listening process
//! derive the local rendezvous point independently from one fixed,
//! reverse-DNS-style name, so the resolution must be a function of the
//! platform's capability alone.
//!
//! On platforms with namespaced local sockets the identifier is the
//! fixed name itself; elsewhere it is a well-known filesystem path,
//! the temporary directory prefix followed by the same name.

use vstd::prelude::*;

use interprocess::local_socket::GenericNamespaced;
use interprocess::local_socket::NameType;

verus! {

use vstd::string::StringExecFns;

/// A resolved local IPC endpoint identifier.
pub enum EndpointId {
    /// A namespaced identifier, on platforms that support one.
    Namespaced { name: String },
    /// A well-known filesystem path, the fallback everywhere else.
    Path { path: String },
}

/// The fixed name both sides resolve from.
pub open spec fn spec_endpoint_base_name() -> Seq<char> {
    "com.yourcompany.projectagentis.broker.sock"@
}

/// The fixed temporary-directory prefix of the filesystem fallback.
pub open spec fn spec_temp_dir_prefix() -> Seq<char> {
    "/tmp/"@
}

/// The fixed name both sides resolve from.
pub fn endpoint_base_name() -> (s: &'static str)
    ensures
        s@ == spec_endpoint_base_name(),
{
    "com.yourcompany.projectagentis.broker.sock"
}

/// What the resolved endpoint must be, as a function of whether the
/// platform supports namespaced identifiers.
pub open spec fn endpoint_matches(e: EndpointId, ns_supported: bool) -> bool {
    if ns_supported {
        e matches EndpointId::Namespaced { name } && name@ == spec_endpoint_base_name()
    } else {
        e matches EndpointId::Path { path } && path@ == spec_temp_dir_prefix()
            + spec_endpoint_base_name()
    }
}

/// Resolves the endpoint for a platform with the given capability: the
/// namespaced identifier where supported, else the filesystem path made
/// of the temporary-directory prefix and the same fixed name.
pub fn resolve_endpoint_for(ns_supported: bool) -> (e: EndpointId)
    ensures
        endpoint_matches(e, ns_supported),
{
    if ns_supported {
        EndpointId::Namespaced { name: String::from_str(endpoint_base_name()) }
    } else {
        let prefix = String::from_str("/tmp/");
        EndpointId::Path { path: prefix.concat(endpoint_base_name()) }
    }
}

/// Relies on interprocess::local_socket::GenericNamespaced::is_supported:
/// whether this platform offers namespaced local-socket names. The
/// answer depends on the running system, so nothing is assumed of it.
#[verifier::external_body]
fn namespaced_supported() -> bool {
    GenericNamespaced::is_supported()
}

/// Resolves the endpoint this process rendezvouses at: one of the two
/// strategies, chosen by platform capability alone.
pub fn resolve_endpoint() -> (e: EndpointId)
    ensures
        endpoint_matches(e, true) || endpoint_matches(e, false),
{
    let ns = namespaced_supported();
    resolve_endpoint_for(ns)
}

/// Rendezvous agreement: two endpoints resolved under the same platform
/// capability are the same identifier, so a connector and a listener
/// that share the platform meet at one endpoint.
pub proof fn lemma_rendezvous_agreement(a: EndpointId, b: EndpointId, ns_supported: bool)
    requires
        endpoint_matches(a, ns_supported),
        endpoint_matches(b, ns_supported),
    ensures
        a is Namespaced <==> b is Namespaced,
        a matches EndpointId::Namespaced { name } ==> b is Namespaced && name@ == b->name@,
        a matches EndpointId::Path { path } ==> b is Path && path@ == b->path@,
{
}

} // verus!
