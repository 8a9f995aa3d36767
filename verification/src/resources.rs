//! Deploying and deleting single resources.
use crate::client::Client;
use crate::proto;
use crate::text::{text_or_empty, unwrap_or_empty};
use vstd::prelude::*;

verus! {

/// Deploys resource to Zeebe.
pub struct DeployResourceBuilder {
    pub client: Client,
    pub resource_name: Option<String>,
    pub content: Vec<u8>,
    pub tenant_id: Option<String>,
}

impl DeployResourceBuilder {
    /// Create a new deploy resource builder.
    pub fn new(client: Client) -> (r: Self)
        ensures
            r.client == client,
            r.resource_name is None,
            r.content@.len() == 0,
            r.tenant_id is None,
    {
        DeployResourceBuilder { client, resource_name: None, content: Vec::new(), tenant_id: None }
    }

    /// Set tenant_id for the deployment.
    pub fn with_tenant_id<T: Into<String>>(self, tenant_id: T) -> (r: Self)
        ensures
            r.tenant_id matches Some(t) && call_ensures(T::into, (tenant_id,), t),
            r == (DeployResourceBuilder { tenant_id: r.tenant_id, ..self }),
    {
        DeployResourceBuilder { tenant_id: Some(tenant_id.into()), ..self }
    }

    /// Set the name of the resource.
    pub fn with_resource_name<T: Into<String>>(self, resource_name: T) -> (r: Self)
        ensures
            r.resource_name matches Some(n) && call_ensures(T::into, (resource_name,), n),
            r == (DeployResourceBuilder { resource_name: r.resource_name, ..self }),
    {
        DeployResourceBuilder { resource_name: Some(resource_name.into()), ..self }
    }

    /// Set the content of the resource.
    pub fn with_content<T: Into<Vec<u8>>>(self, content: T) -> (r: Self)
        ensures
            call_ensures(T::into, (content,), r.content),
            r == (DeployResourceBuilder { content: r.content, ..self }),
    {
        DeployResourceBuilder { content: content.into(), ..self }
    }

    /// The deployment request: the one resource, with an empty name and
    /// tenant where none is set.
    pub fn into_request(self) -> (r: proto::DeployResourceRequest)
        ensures
            r.tenant_id@ == text_or_empty(self.tenant_id),
            r.resources@.len() == 1,
            r.resources@[0].name@ == text_or_empty(self.resource_name),
            r.resources@[0].content == self.content,
    {
        let mut resources: Vec<proto::Resource> = Vec::new();
        resources.push(proto::Resource { name: unwrap_or_empty(self.resource_name), content: self.content });
        proto::DeployResourceRequest { tenant_id: unwrap_or_empty(self.tenant_id), resources }
    }
}

/// Deletes resource from Zeebe.
pub struct DeleteResourceBuilder {
    pub client: Client,
    pub resource_key: Option<i64>,
    pub operation_reference: Option<u64>,
}

impl DeleteResourceBuilder {
    /// Create a new delete resource builder.
    pub fn new(client: Client) -> (r: Self)
        ensures
            r == (DeleteResourceBuilder { client, resource_key: None, operation_reference: None }),
    {
        DeleteResourceBuilder { client, resource_key: None, operation_reference: None }
    }

    /// Set the resource key to delete.
    pub fn with_resource_key(self, resource_key: i64) -> (r: Self)
        ensures
            r == (DeleteResourceBuilder { resource_key: Some(resource_key), ..self }),
    {
        DeleteResourceBuilder { resource_key: Some(resource_key), ..self }
    }

    /// Set the operation reference.
    pub fn with_operation_reference(self, operation_reference: u64) -> (r: Self)
        ensures
            r == (DeleteResourceBuilder { operation_reference: Some(operation_reference), ..self }),
    {
        DeleteResourceBuilder { operation_reference: Some(operation_reference), ..self }
    }

    /// The delete request: the resource key, zero where none is set.
    pub fn into_request(self) -> (r: proto::DeleteResourceRequest)
        ensures
            r.resource_key == (match self.resource_key { Some(k) => k, None => 0i64 }),
            r.operation_reference == self.operation_reference,
    {
        let resource_key: i64 = match self.resource_key {
            Some(k) => k,
            None => 0,
        };
        proto::DeleteResourceRequest { resource_key, operation_reference: self.operation_reference }
    }
}

} // verus!
