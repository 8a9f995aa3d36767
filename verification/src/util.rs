//! Publishing messages and resolving incidents.
use crate::client::Client;
use crate::error::{Result, ZeebeError};
use crate::json::{variables_text, variables_to_text};
use crate::proto;
use crate::text::{text_or_empty, unwrap_or_empty};
use vstd::prelude::*;

verus! {

/// Configuration to publish a message.
pub struct PublishMessageBuilder {
    pub client: Client,
    pub name: Option<String>,
    pub correlation_key: Option<String>,
    pub time_to_live: Option<u64>,
    pub message_id: Option<String>,
    pub variables: Option<serde_json::Value>,
    pub tenant_id: Option<String>,
}

impl PublishMessageBuilder {
    /// Create a new publish message builder.
    pub fn new(client: Client) -> (r: Self)
        ensures
            r == (PublishMessageBuilder {
                client,
                name: None,
                correlation_key: None,
                time_to_live: None,
                message_id: None,
                variables: None,
                tenant_id: None,
            }),
    {
        PublishMessageBuilder {
            client,
            name: None,
            correlation_key: None,
            time_to_live: None,
            message_id: None,
            variables: None,
            tenant_id: None,
        }
    }

    /// Set the name of the message.
    pub fn with_name<T: Into<String>>(self, name: T) -> (r: Self)
        ensures
            r.name matches Some(n) && call_ensures(T::into, (name,), n),
            r == (PublishMessageBuilder { name: r.name, ..self }),
    {
        PublishMessageBuilder { name: Some(name.into()), ..self }
    }

    /// Set the correlation key of the message.
    pub fn with_correlation_key<T: Into<String>>(self, correlation_key: T) -> (r: Self)
        ensures
            r.correlation_key matches Some(k) && call_ensures(T::into, (correlation_key,), k),
            r == (PublishMessageBuilder { correlation_key: r.correlation_key, ..self }),
    {
        PublishMessageBuilder { correlation_key: Some(correlation_key.into()), ..self }
    }

    /// Set how long the message should be buffered on the broker, in milliseconds
    pub fn with_time_to_live(self, ttl: u64) -> (r: Self)
        ensures
            r == (PublishMessageBuilder { time_to_live: Some(ttl), ..self }),
    {
        PublishMessageBuilder { time_to_live: Some(ttl), ..self }
    }

    /// Set the unique ID of the message; can be omitted. only useful to ensure only
    /// one message with the given ID will ever be published (during its lifetime)
    pub fn with_message_id<T: Into<String>>(self, message_id: T) -> (r: Self)
        ensures
            r.message_id matches Some(m) && call_ensures(T::into, (message_id,), m),
            r == (PublishMessageBuilder { message_id: r.message_id, ..self }),
    {
        PublishMessageBuilder { message_id: Some(message_id.into()), ..self }
    }

    /// Set the JSON document representing the variables in the message.
    pub fn with_variables(self, variables: serde_json::Value) -> (r: Self)
        ensures
            r == (PublishMessageBuilder { variables: Some(variables), ..self }),
    {
        PublishMessageBuilder { variables: Some(variables), ..self }
    }

    /// Set the tenant ID of the message.
    pub fn with_tenant_id<T: Into<String>>(self, tenant_id: T) -> (r: Self)
        ensures
            r.tenant_id matches Some(t) && call_ensures(T::into, (tenant_id,), t),
            r == (PublishMessageBuilder { tenant_id: r.tenant_id, ..self }),
    {
        PublishMessageBuilder { tenant_id: Some(tenant_id.into()), ..self }
    }

    /// The publish request this builder describes; an error when the message
    /// has no name.
    pub fn into_request(self) -> (r: Result<proto::PublishMessageRequest>)
        ensures
            match self.name {
                None => crate::error::is_invalid_parameters(r, "`name` must be set"),
                Some(n) => r matches Ok(req) && {
                    &&& req.name == n
                    &&& req.correlation_key@ == text_or_empty(self.correlation_key)
                    &&& req.time_to_live == (match self.time_to_live { Some(t) => t, None => 0u64 }) as i64
                    &&& req.message_id@ == text_or_empty(self.message_id)
                    &&& variables_text(self.variables, req.variables)
                    &&& req.tenant_id@ == text_or_empty(self.tenant_id)
                },
            },
    {
        let name = match self.name {
            Some(n) => n,
            None => return Err(ZeebeError::InvalidParameters("`name` must be set")),
        };
        let time_to_live: u64 = match self.time_to_live {
            Some(t) => t,
            None => 0,
        };
        Ok(proto::PublishMessageRequest {
            name,
            correlation_key: unwrap_or_empty(self.correlation_key),
            time_to_live: time_to_live as i64,
            message_id: unwrap_or_empty(self.message_id),
            variables: variables_to_text(&self.variables),
            tenant_id: unwrap_or_empty(self.tenant_id),
        })
    }
}

/// The publish message data.
#[derive(Debug)]
pub struct PublishMessageResponse(pub proto::PublishMessageResponse);

impl PublishMessageResponse {
    /// The unique ID of the message that was published
    pub fn key(&self) -> (r: i64)
        ensures
            r == self.0.key,
    {
        self.0.key
    }
}

/// Configuration to resolve an incident.
pub struct ResolveIncidentBuilder {
    pub client: Client,
    pub incident_key: Option<i64>,
    pub operation_reference: Option<u64>,
}

impl ResolveIncidentBuilder {
    /// Create a new resolve incident builder.
    pub fn new(client: Client) -> (r: Self)
        ensures
            r == (ResolveIncidentBuilder { client, incident_key: None, operation_reference: None }),
    {
        ResolveIncidentBuilder { client, incident_key: None, operation_reference: None }
    }

    /// Set the unique ID of the incident to resolve.
    pub fn with_incident_key(self, incident_key: i64) -> (r: Self)
        ensures
            r == (ResolveIncidentBuilder { incident_key: Some(incident_key), ..self }),
    {
        ResolveIncidentBuilder { incident_key: Some(incident_key), ..self }
    }

    /// Set a reference key chosen by the user and will be part of all records resulted from this operation
    pub fn with_operation_reference(self, operation_reference: u64) -> (r: Self)
        ensures
            r == (ResolveIncidentBuilder { operation_reference: Some(operation_reference), ..self }),
    {
        ResolveIncidentBuilder { operation_reference: Some(operation_reference), ..self }
    }

    /// The resolve request this builder describes; an error when no incident
    /// is named.
    pub fn into_request(self) -> (r: Result<proto::ResolveIncidentRequest>)
        ensures
            match self.incident_key {
                None => crate::error::is_invalid_parameters(r, "`incident_key` must be set"),
                Some(k) => r matches Ok(req) && req.incident_key == k
                    && req.operation_reference == self.operation_reference,
            },
    {
        match self.incident_key {
            Some(incident_key) => Ok(proto::ResolveIncidentRequest {
                incident_key,
                operation_reference: self.operation_reference,
            }),
            None => Err(ZeebeError::InvalidParameters("`incident_key` must be set")),
        }
    }
}

/// The resolve incident data.
#[derive(Debug)]
pub struct ResolveIncidentResponse(pub proto::ResolveIncidentResponse);

} // verus!
