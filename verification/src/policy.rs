//! A trivial authorization policy: one that always returns the same
//! constant decision, whoever asks for whatever resource.

use vstd::prelude::*;

use crate::error::ClientError;

verus! {

/// The outcome of an authorization check.
#[derive(Debug, Clone, Copy, PartialEq, Eq, Structural, Hash)]
pub enum Decision {
    /// The request is allowed.
    Allow,
    /// The request is denied.
    Deny,
}

/// The kind of access a request asks for.
#[derive(Debug, Clone, Copy, PartialEq, Eq, Structural, Hash)]
pub enum Permission {
    /// Read access.
    Read,
    /// Write access.
    Write,
    /// Administrative access.
    Manage,
}

/// Who is asking: an anonymous caller or a named principal.
#[derive(Debug, Clone)]
pub enum Recipient {
    /// A caller without an identity.
    Anonymous,
    /// A named principal.
    User(String),
}

impl Recipient {
    /// The anonymous caller.
    pub fn anonymous() -> (r: Recipient)
        ensures
            r is Anonymous,
    {
        Recipient::Anonymous
    }
}

/// A dot-separated resource name, held as its segments.
#[derive(Debug, Clone)]
pub struct ResourceName {
    /// The name's segments, outermost first.
    pub segments: Vec<String>,
}

impl ResourceName {
    /// A name from its segments, outermost first.
    pub fn new(segments: Vec<String>) -> (r: ResourceName)
        ensures
            r.segments == segments,
    {
        ResourceName { segments }
    }
}

/// A reference to a securable resource.
#[derive(Debug, Clone)]
pub enum ResourceIdent {
    /// A share, by name.
    Share(ResourceName),
    /// A catalog, by name.
    Catalog(ResourceName),
    /// A schema, by name.
    Schema(ResourceName),
    /// A table, by name.
    Table(ResourceName),
    /// A credential, by name.
    Credential(ResourceName),
}

impl ResourceIdent {
    /// A share resource with the given name.
    pub fn share(name: ResourceName) -> (r: ResourceIdent)
        ensures
            r == ResourceIdent::Share(name),
    {
        ResourceIdent::Share(name)
    }
}

/// Policy that always returns a constant decision.
///
/// This policy is mainly useful for testing and development, or servers
/// that do not require authorization checks - e.g. when deployed in a
/// trusted environment.
#[derive(Debug, Clone, Copy)]
pub struct ConstantPolicy {
    /// The decision returned for every request.
    pub decision: Decision,
}

impl Default for ConstantPolicy {
    /// By default every request is allowed.
    fn default() -> (r: ConstantPolicy)
        ensures
            r.decision == Decision::Allow,
    {
        ConstantPolicy { decision: Decision::Allow }
    }
}

impl ConstantPolicy {
    /// Create a new instance of [`ConstantPolicy`].
    pub fn new(decision: Decision) -> (r: ConstantPolicy)
        ensures
            r.decision == decision,
    {
        ConstantPolicy { decision }
    }

    /// Authorize a request: always the constant decision, whoever asks
    /// for whatever resource, and never an error.
    pub fn authorize(
        &self,
        _resource: &ResourceIdent,
        _permission: &Permission,
        _recipient: &Recipient,
    ) -> (r: Result<Decision, ClientError>)
        ensures
            r == Ok::<Decision, ClientError>(self.decision),
    {
        Ok(self.decision)
    }
}

} // verus!
