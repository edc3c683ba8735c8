//! Kubernetes client wrapper. Offline, it is a lightweight stand-in that
//! remembers the namespace it would work in.

use vstd::prelude::*;

verus! {

/// Default namespace for Keystone resources
pub const KEYSTONE_NAMESPACE: &'static str = "keystone-system";

/// Why a request to the cluster could not be served. Offline, every request
/// is answered by the client itself, so none fails.
#[derive(Clone, Copy, Debug, PartialEq, Eq, Structural)]
pub enum ClientError {
    /// The cluster could not be reached.
    Unreachable,
}

/// Lightweight mock client used during offline development
#[derive(Debug)]
pub struct KubeClient {
    namespace: String,
}

impl View for KubeClient {
    type V = Seq<char>;

    /// The namespace that the client works in.
    closed spec fn view(&self) -> Seq<char> {
        self.namespace@
    }
}

impl KubeClient {
    /// Create a new KubeClient using default kubeconfig
    pub fn try_default() -> (client: Result<Self, ClientError>)
        ensures
            client matches Ok(made) && made@ == "keystone-system"@,
    {
        Ok(KubeClient { namespace: String::from_str("keystone-system") })
    }

    /// Create a new KubeClient with a specific namespace
    pub fn with_namespace(namespace: &str) -> (client: Result<Self, ClientError>)
        ensures
            client matches Ok(made) && made@ == namespace@,
    {
        Ok(KubeClient { namespace: String::from_str(namespace) })
    }

    /// Get the current namespace
    pub fn namespace(&self) -> (namespace: &str)
        ensures
            namespace@ == self@,
    {
        self.namespace.as_str()
    }

    /// Set the namespace for operations
    pub fn set_namespace(&mut self, namespace: &str)
        ensures
            final(self)@ == namespace@,
    {
        self.namespace = String::from_str(namespace);
    }

    /// Check if the client can connect to the cluster. Offline, it cannot.
    pub fn health_check(&self) -> (healthy: Result<bool, ClientError>)
        ensures
            healthy == Ok::<bool, ClientError>(false),
    {
        Ok(false)
    }
}

} // verus!
