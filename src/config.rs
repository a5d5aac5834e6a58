//! The provider configuration: global policy and the configured resources with
//! their overrides.

use vstd::prelude::*;

use crate::builder;

verus! {

/// Error of turning a builder into a configuration value.
#[derive(Clone, Debug, PartialEq, Eq)]
pub struct ConversionError {
    pub message: String,
}

impl ConversionError {
    /// The text that describes the error.
    pub fn message(&self) -> (r: String)
        ensures
            r@ == self.message@,
    {
        self.message.clone()
    }
}

impl From<String> for ConversionError {
    fn from(value: String) -> (r: Self)
        ensures
            r.message == value,
    {
        ConversionError { message: value }
    }
}

impl vstd::std_specs::convert::FromSpecImpl<String> for ConversionError {
    open spec fn obeys_from_spec() -> bool {
        true
    }

    open spec fn from_spec(v: String) -> Self {
        ConversionError { message: v }
    }
}

/// Provider configuration: global policy and the configured resources.
#[derive(Clone, Debug, PartialEq, Eq)]
pub struct RestApiProviderConfiguration {
    /// Global policy; absent means every global default applies.
    pub global: Option<RestApiProviderConfigurationGlobal>,
    /// The configured resources.
    pub resources: Option<RestApiProviderConfigurationResources>,
}

impl RestApiProviderConfiguration {
    /// Whether every field holds its default value.
    pub open spec fn is_default(&self) -> bool {
        self.global is None
        && self.resources is None
    }

    /// A builder whose fields hold their defaults.
    pub fn builder() -> (r: builder::RestApiProviderConfiguration)
        ensures
            r.is_initial(),
    {
        builder::RestApiProviderConfiguration::new()
    }
}

impl Default for RestApiProviderConfiguration {
    fn default() -> (r: Self)
        ensures
            r.is_default(),
    {
        RestApiProviderConfiguration {
            global: None,
            resources: None,
        }
    }
}

/// Global policy that applies to every resource unless a resource overrides it.
#[derive(Clone, Debug, PartialEq, Eq)]
pub struct RestApiProviderConfigurationGlobal {
    /// Client certificate file for mTLS, used together with `key_file`.
    pub cert_file: Option<String>,
    /// Client certificate as a string for mTLS, used together with `key_string`.
    pub cert_string: Option<String>,
    /// Keys copied from the gathered object data into every update request.
    pub copy_keys: Vec<String>,
    /// HTTP method used to create objects; defaults to `POST`.
    pub create_method: String,
    /// Whether a create request returns the created object.
    pub create_returns_object: Option<bool>,
    /// Whether the generated client prints debug information.
    pub debug: Option<bool>,
    /// HTTP method used to delete objects; defaults to `DELETE`.
    pub destroy_method: String,
    /// Header names and values set on every outbound request, in the order given.
    pub headers: Vec<(String, String)>,
    /// `/`-delimited path of the identifier within a response object.
    pub id_attribute: Option<String>,
    /// Whether TLS verification of the host is disabled.
    pub insecure: Option<bool>,
    /// Client key file for mTLS, used together with `cert_file`.
    pub key_file: Option<String>,
    /// Client key as a string for mTLS, used together with `cert_string`.
    pub key_string: Option<String>,
    /// OAuth client-credential flow settings.
    pub oauth_client_credentials: Vec<RestApiProviderConfigurationGlobalOauthClientCredentialsItem>,
    /// Password for basic authentication.
    pub password: Option<String>,
    /// HTTP method used to read objects; defaults to `GET`.
    pub read_method: String,
    /// Root certificate authority file.
    pub root_ca_file: Option<String>,
    /// Root certificate authority as a string.
    pub root_ca_string: Option<String>,
    /// Path probed to check that the API is reachable.
    pub test_path: Option<String>,
    /// HTTP method used to update objects; defaults to `PUT`.
    pub update_method: String,
    /// Base URI of the API.
    pub uri: Option<String>,
    /// Whether the client keeps cookies between requests.
    pub use_cookies: Option<bool>,
    /// User name for basic authentication.
    pub username: Option<String>,
    /// Whether create and update requests return the object.
    pub write_returns_object: Option<bool>,
    /// Prefix stripped from every response before it is decoded.
    pub xssi_prefix: Option<String>,
}

impl RestApiProviderConfigurationGlobal {
    /// Whether every field holds its default value.
    pub open spec fn is_default(&self) -> bool {
        self.cert_file is None
        && self.cert_string is None
        && self.copy_keys@.len() == 0
        && self.create_method@ == "POST"@
        && self.create_returns_object is None
        && self.debug is None
        && self.destroy_method@ == "DELETE"@
        && self.headers@.len() == 0
        && self.id_attribute is None
        && self.insecure is None
        && self.key_file is None
        && self.key_string is None
        && self.oauth_client_credentials@.len() == 0
        && self.password is None
        && self.read_method@ == "GET"@
        && self.root_ca_file is None
        && self.root_ca_string is None
        && self.test_path is None
        && self.update_method@ == "PUT"@
        && self.uri is None
        && self.use_cookies is None
        && self.username is None
        && self.write_returns_object is None
        && self.xssi_prefix is None
    }

    /// A builder whose fields hold their defaults.
    pub fn builder() -> (r: builder::RestApiProviderConfigurationGlobal)
        ensures
            r.is_initial(),
    {
        builder::RestApiProviderConfigurationGlobal::new()
    }
}

impl Default for RestApiProviderConfigurationGlobal {
    fn default() -> (r: Self)
        ensures
            r.is_default(),
    {
        RestApiProviderConfigurationGlobal {
            cert_file: None,
            cert_string: None,
            copy_keys: Vec::new(),
            create_method: String::from_str("POST"),
            create_returns_object: None,
            debug: None,
            destroy_method: String::from_str("DELETE"),
            headers: Vec::new(),
            id_attribute: None,
            insecure: None,
            key_file: None,
            key_string: None,
            oauth_client_credentials: Vec::new(),
            password: None,
            read_method: String::from_str("GET"),
            root_ca_file: None,
            root_ca_string: None,
            test_path: None,
            update_method: String::from_str("PUT"),
            uri: None,
            use_cookies: None,
            username: None,
            write_returns_object: None,
            xssi_prefix: None,
        }
    }
}

/// Settings of the OAuth client-credential flow.
#[derive(Clone, Debug, PartialEq, Eq)]
pub struct RestApiProviderConfigurationGlobalOauthClientCredentialsItem {
    /// Extra endpoint parameters: each name with its value written as JSON text.
    pub endpoint_params: Vec<(String, String)>,
    /// The OAuth client id.
    pub oauth_client_id: Option<String>,
    /// The OAuth client secret.
    pub oauth_client_secret: Option<String>,
    /// Scopes requested for the token.
    pub oauth_scopes: Vec<String>,
    /// Endpoint that hands out tokens.
    pub oauth_token_endpoint: Option<String>,
}

impl RestApiProviderConfigurationGlobalOauthClientCredentialsItem {
    /// Whether every field holds its default value.
    pub open spec fn is_default(&self) -> bool {
        self.endpoint_params@.len() == 0
        && self.oauth_client_id is None
        && self.oauth_client_secret is None
        && self.oauth_scopes@.len() == 0
        && self.oauth_token_endpoint is None
    }

    /// A builder whose fields hold their defaults.
    pub fn builder() -> (r: builder::RestApiProviderConfigurationGlobalOauthClientCredentialsItem)
        ensures
            r.is_initial(),
    {
        builder::RestApiProviderConfigurationGlobalOauthClientCredentialsItem::new()
    }
}

impl Default for RestApiProviderConfigurationGlobalOauthClientCredentialsItem {
    fn default() -> (r: Self)
        ensures
            r.is_default(),
    {
        RestApiProviderConfigurationGlobalOauthClientCredentialsItem {
            endpoint_params: Vec::new(),
            oauth_client_id: None,
            oauth_client_secret: None,
            oauth_scopes: Vec::new(),
            oauth_token_endpoint: None,
        }
    }
}

/// The configured resources, keyed by name in the order in which they were declared.
#[derive(Clone, Debug, PartialEq, Eq)]
pub struct RestApiProviderConfigurationResources {
    /// Whether data sources are generated; defaults to `true`.
    pub generate_data_source: bool,
    /// Whether resources are generated; defaults to `true`.
    pub generate_resource: bool,
    /// Each resource name with its override, in declaration order.
    pub extra: Vec<(String, RestApiProviderConfigurationResourcesExtraValue)>,
}

impl RestApiProviderConfigurationResources {
    /// A builder whose fields hold their defaults.
    pub fn builder() -> (r: builder::RestApiProviderConfigurationResources)
        ensures
            r.is_initial(),
    {
        builder::RestApiProviderConfigurationResources::new()
    }
}

/// The override of one resource.
#[derive(Clone, Debug, PartialEq, Eq)]
pub struct RestApiProviderConfigurationResourcesExtraValue {
    /// Overrides of the create operation.
    pub create: Option<RestApiProviderConfigurationResourcesExtraValueCreate>,
    /// Whether the generated client prints debug information for this resource.
    pub debug: Option<bool>,
    /// Overrides of the destroy operation.
    pub destroy: Option<RestApiProviderConfigurationResourcesExtraValueDestroy>,
    /// Attributes whose change forces the object to be recreated.
    pub force_new: Vec<String>,
    /// `/`-delimited path of the identifier; overrides the global one.
    pub id_attribute: Option<String>,
    /// Whether every change made on the server is ignored.
    pub ignore_all_server_changes: bool,
    /// Attributes whose changes on the server are ignored.
    pub ignore_changes_to: Vec<String>,
    /// Name of the identifier attribute in the generated schema.
    pub object_id: Option<String>,
    /// API path of the resource; required.
    pub path: String,
    /// Query string appended to every request.
    pub query_string: Option<String>,
    /// Overrides of the read operation.
    pub read: Option<RestApiProviderConfigurationResourcesExtraValueRead>,
    /// Overrides of the update operation.
    pub update: Option<RestApiProviderConfigurationResourcesExtraValueUpdate>,
}

impl RestApiProviderConfigurationResourcesExtraValue {
    /// A builder whose fields hold their defaults.
    pub fn builder() -> (r: builder::RestApiProviderConfigurationResourcesExtraValue)
        ensures
            r.is_initial(),
    {
        builder::RestApiProviderConfigurationResourcesExtraValue::new()
    }
}

/// Overrides of the create operation of a resource.
#[derive(Clone, Debug, PartialEq, Eq)]
pub struct RestApiProviderConfigurationResourcesExtraValueCreate {
    /// HTTP method of the create request.
    pub method: Option<String>,
    /// Path of the create request.
    pub path: Option<String>,
}

impl RestApiProviderConfigurationResourcesExtraValueCreate {
    /// Whether every field holds its default value.
    pub open spec fn is_default(&self) -> bool {
        self.method is None
        && self.path is None
    }

    /// A builder whose fields hold their defaults.
    pub fn builder() -> (r: builder::RestApiProviderConfigurationResourcesExtraValueCreate)
        ensures
            r.is_initial(),
    {
        builder::RestApiProviderConfigurationResourcesExtraValueCreate::new()
    }
}

impl Default for RestApiProviderConfigurationResourcesExtraValueCreate {
    fn default() -> (r: Self)
        ensures
            r.is_default(),
    {
        RestApiProviderConfigurationResourcesExtraValueCreate {
            method: None,
            path: None,
        }
    }
}

/// Overrides of the destroy operation of a resource.
#[derive(Clone, Debug, PartialEq, Eq)]
pub struct RestApiProviderConfigurationResourcesExtraValueDestroy {
    /// HTTP method of the destroy request.
    pub method: Option<String>,
    /// Path of the destroy request.
    pub path: Option<String>,
}

impl RestApiProviderConfigurationResourcesExtraValueDestroy {
    /// Whether every field holds its default value.
    pub open spec fn is_default(&self) -> bool {
        self.method is None
        && self.path is None
    }

    /// A builder whose fields hold their defaults.
    pub fn builder() -> (r: builder::RestApiProviderConfigurationResourcesExtraValueDestroy)
        ensures
            r.is_initial(),
    {
        builder::RestApiProviderConfigurationResourcesExtraValueDestroy::new()
    }
}

impl Default for RestApiProviderConfigurationResourcesExtraValueDestroy {
    fn default() -> (r: Self)
        ensures
            r.is_default(),
    {
        RestApiProviderConfigurationResourcesExtraValueDestroy {
            method: None,
            path: None,
        }
    }
}

/// Overrides of the update operation of a resource.
#[derive(Clone, Debug, PartialEq, Eq)]
pub struct RestApiProviderConfigurationResourcesExtraValueUpdate {
    /// HTTP method of the update request.
    pub method: Option<String>,
    /// Path of the update request.
    pub path: Option<String>,
}

impl RestApiProviderConfigurationResourcesExtraValueUpdate {
    /// Whether every field holds its default value.
    pub open spec fn is_default(&self) -> bool {
        self.method is None
        && self.path is None
    }

    /// A builder whose fields hold their defaults.
    pub fn builder() -> (r: builder::RestApiProviderConfigurationResourcesExtraValueUpdate)
        ensures
            r.is_initial(),
    {
        builder::RestApiProviderConfigurationResourcesExtraValueUpdate::new()
    }
}

impl Default for RestApiProviderConfigurationResourcesExtraValueUpdate {
    fn default() -> (r: Self)
        ensures
            r.is_default(),
    {
        RestApiProviderConfigurationResourcesExtraValueUpdate {
            method: None,
            path: None,
        }
    }
}

/// Overrides of the read operation of a resource.
#[derive(Clone, Debug, PartialEq, Eq)]
pub struct RestApiProviderConfigurationResourcesExtraValueRead {
    /// HTTP method of the read request.
    pub method: Option<String>,
    /// Path of the read request.
    pub path: Option<String>,
    /// Search that locates the object in a list instead of fetching it directly.
    pub search: Option<RestApiProviderConfigurationResourcesExtraValueReadSearch>,
}

impl RestApiProviderConfigurationResourcesExtraValueRead {
    /// Whether every field holds its default value.
    pub open spec fn is_default(&self) -> bool {
        self.method is None
        && self.path is None
        && self.search is None
    }

    /// A builder whose fields hold their defaults.
    pub fn builder() -> (r: builder::RestApiProviderConfigurationResourcesExtraValueRead)
        ensures
            r.is_initial(),
    {
        builder::RestApiProviderConfigurationResourcesExtraValueRead::new()
    }
}

impl Default for RestApiProviderConfigurationResourcesExtraValueRead {
    fn default() -> (r: Self)
        ensures
            r.is_default(),
    {
        RestApiProviderConfigurationResourcesExtraValueRead {
            method: None,
            path: None,
            search: None,
        }
    }
}

/// How an object is found in a list returned by a search request.
#[derive(Clone, Debug, PartialEq, Eq)]
pub struct RestApiProviderConfigurationResourcesExtraValueReadSearch {
    /// Query string of the search request.
    pub query_string: Option<String>,
    /// Path of the list of results within the response.
    pub results_key: Option<String>,
    /// Attribute of each result that is compared; required.
    pub search_key: String,
    /// Path of the search request.
    pub search_path: Option<String>,
    /// Value that the compared attribute must have; required.
    pub search_value: String,
}

impl RestApiProviderConfigurationResourcesExtraValueReadSearch {
    /// A builder whose fields hold their defaults.
    pub fn builder() -> (r: builder::RestApiProviderConfigurationResourcesExtraValueReadSearch)
        ensures
            r.is_initial(),
    {
        builder::RestApiProviderConfigurationResourcesExtraValueReadSearch::new()
    }
}

} // verus!
