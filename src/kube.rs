//! The cloud provider configuration of the node: the identity the catalog is
//! read under, and how its access token is obtained.
use vstd::prelude::*;

verus! {

/// The cloud provider configuration file of the node.
#[derive(Debug, Clone, PartialEq, Default)]
pub struct CloudProviderConfig {
    pub cloud: String,
    pub tenant_id: String,
    pub subscription_id: String,
    pub aad_client_id: String,
    pub aad_client_secret: String,
    pub resource_group: String,
    pub location: String,
    pub vm_type: String,
    pub subnet_name: String,
    pub security_group_name: String,
    pub vnet_name: String,
    pub vnet_resource_group: String,
    pub route_table_name: String,
    pub primary_availability_set_name: String,
    pub primary_scale_set_name: String,
    pub cloud_provider_backoff_mode: String,
    pub cloud_provider_backoff: bool,
    pub cloud_provider_backoff_retries: i64,
    pub cloud_provider_backoff_duration: i64,
    pub cloud_provider_ratelimit: Option<bool>,
    pub cloud_provider_rate_limit_qps: Option<i64>,
    pub cloud_provider_rate_limit_bucket: i64,
    pub cloud_provider_ratelimit_qpswrite: i64,
    pub cloud_provider_ratelimit_bucket_write: i64,
    pub use_managed_identity_extension: bool,
    pub user_assigned_identity_id: String,
    pub use_instance_metadata: bool,
    pub load_balancer_sku: String,
    pub disable_outbound_snat: bool,
    pub exclude_master_from_standard_lb: bool,
    pub provider_vault_name: String,
    pub maximum_load_balancer_rule_count: i64,
    pub provider_key_name: String,
    pub provider_key_version: String,
}

/// How the access token for the resource catalog is requested.
#[derive(Debug, Clone, PartialEq)]
pub enum TokenRequest {
    /// From the managed identity endpoint of the instance.
    ManagedIdentity { client_id: String },
    /// With the client credentials of a service principal, for a resource.
    ServicePrincipal {
        client_id: String,
        client_secret: String,
        tenant_id: String,
        resource: String,
    },
}

/// The resource that a service principal token is requested for.
pub open spec fn management_resource() -> Seq<char> {
    "https://management.azure.com"@
}

/// The client id `msi` selects the managed identity, named by the user
/// assigned identity id; any other is a service principal's.
pub fn token_request(config: &CloudProviderConfig) -> (r: TokenRequest)
    ensures
        config.aad_client_id@ == "msi"@ ==> r == (TokenRequest::ManagedIdentity {
            client_id: config.user_assigned_identity_id,
        }),
        config.aad_client_id@ != "msi"@ ==> (match r {
            TokenRequest::ServicePrincipal { client_id, client_secret, tenant_id, resource } => {
                &&& client_id == config.aad_client_id
                &&& client_secret == config.aad_client_secret
                &&& tenant_id == config.tenant_id
                &&& resource@ == management_resource()
            },
            _ => false,
        }),
{
    if crate::text::same_text(config.aad_client_id.as_str(), "msi") {
        TokenRequest::ManagedIdentity { client_id: config.user_assigned_identity_id.clone() }
    } else {
        TokenRequest::ServicePrincipal {
            client_id: config.aad_client_id.clone(),
            client_secret: config.aad_client_secret.clone(),
            tenant_id: config.tenant_id.clone(),
            resource: String::from_str("https://management.azure.com"),
        }
    }
}

} // verus!
