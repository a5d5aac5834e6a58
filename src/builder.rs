//! Builders of the provider configuration: each field holds its value or the
//! reason it has none, and `build` yields the configuration or the first error.

use vstd::prelude::*;

use crate::config;
use crate::config::ConversionError;

verus! {

/// Builder of [`config::RestApiProviderConfiguration`]: each field holds its value, or the message
/// of why it has none.
#[derive(Debug)]
pub struct RestApiProviderConfiguration {
    pub global: Result<Option<config::RestApiProviderConfigurationGlobal>, String>,
    pub resources: Result<Option<config::RestApiProviderConfigurationResources>, String>,
}

impl RestApiProviderConfiguration {
    /// Whether every field holds what a new builder starts with.
    pub open spec fn is_initial(&self) -> bool {
        self.global == Ok::<Option<config::RestApiProviderConfigurationGlobal>, String>(None)
        && self.resources == Ok::<Option<config::RestApiProviderConfigurationResources>, String>(None)
    }

    /// The message of the first field, in declaration order, that holds no value.
    pub open spec fn first_error(&self) -> Option<String> {
        if let Err(m) = self.global { Some(m) } else { if let Err(m) = self.resources { Some(m) } else { None } }
    }

    /// A builder whose fields hold their defaults; a required field holds the
    /// message that no value was supplied.
    pub fn new() -> (r: Self)
        ensures
            r.is_initial(),
    {
        RestApiProviderConfiguration {
            global: Ok(None),
            resources: Ok(None),
        }
    }

    /// Sets `global`. Global policy; absent means every global default applies.
    pub fn global(self, value: Option<config::RestApiProviderConfigurationGlobal>) -> (r: Self)
        ensures
            r == (RestApiProviderConfiguration { global: Ok(value), ..self }),
    {
        RestApiProviderConfiguration { global: Ok(value), ..self }
    }

    /// Sets `resources`. The configured resources.
    pub fn resources(self, value: Option<config::RestApiProviderConfigurationResources>) -> (r: Self)
        ensures
            r == (RestApiProviderConfiguration { resources: Ok(value), ..self }),
    {
        RestApiProviderConfiguration { resources: Ok(value), ..self }
    }

    /// The configuration value, or the error of the first field that holds none.
    pub fn build(self) -> (r: Result<config::RestApiProviderConfiguration, ConversionError>)
        ensures
            match self.first_error() {
                Some(m) => r == Err::<config::RestApiProviderConfiguration, ConversionError>(ConversionError { message: m }),
                None => r matches Ok(c) && self.global == Ok::<Option<config::RestApiProviderConfigurationGlobal>, String>(c.global) && self.resources == Ok::<Option<config::RestApiProviderConfigurationResources>, String>(c.resources),
            },
    {
        let global = match self.global {
            Ok(v) => v,
            Err(m) => {
                return Err(ConversionError { message: m });
            },
        };
        let resources = match self.resources {
            Ok(v) => v,
            Err(m) => {
                return Err(ConversionError { message: m });
            },
        };
        Ok(config::RestApiProviderConfiguration { global, resources })
    }
}

impl Default for RestApiProviderConfiguration {
    fn default() -> (r: Self)
        ensures
            r.is_initial(),
    {
        RestApiProviderConfiguration::new()
    }
}

/// Builder of [`config::RestApiProviderConfigurationGlobal`]: each field holds its value, or the message
/// of why it has none.
#[derive(Debug)]
pub struct RestApiProviderConfigurationGlobal {
    pub cert_file: Result<Option<String>, String>,
    pub cert_string: Result<Option<String>, String>,
    pub copy_keys: Result<Vec<String>, String>,
    pub create_method: Result<String, String>,
    pub create_returns_object: Result<Option<bool>, String>,
    pub debug: Result<Option<bool>, String>,
    pub destroy_method: Result<String, String>,
    pub headers: Result<Vec<(String, String)>, String>,
    pub id_attribute: Result<Option<String>, String>,
    pub insecure: Result<Option<bool>, String>,
    pub key_file: Result<Option<String>, String>,
    pub key_string: Result<Option<String>, String>,
    pub oauth_client_credentials: Result<Vec<config::RestApiProviderConfigurationGlobalOauthClientCredentialsItem>, String>,
    pub password: Result<Option<String>, String>,
    pub read_method: Result<String, String>,
    pub root_ca_file: Result<Option<String>, String>,
    pub root_ca_string: Result<Option<String>, String>,
    pub test_path: Result<Option<String>, String>,
    pub update_method: Result<String, String>,
    pub uri: Result<Option<String>, String>,
    pub use_cookies: Result<Option<bool>, String>,
    pub username: Result<Option<String>, String>,
    pub write_returns_object: Result<Option<bool>, String>,
    pub xssi_prefix: Result<Option<String>, String>,
}

impl RestApiProviderConfigurationGlobal {
    /// Whether every field holds what a new builder starts with.
    pub open spec fn is_initial(&self) -> bool {
        self.cert_file == Ok::<Option<String>, String>(None)
        && self.cert_string == Ok::<Option<String>, String>(None)
        && (self.copy_keys matches Ok(v) && v@.len() == 0)
        && (self.create_method matches Ok(v) && v@ == "POST"@)
        && self.create_returns_object == Ok::<Option<bool>, String>(None)
        && self.debug == Ok::<Option<bool>, String>(None)
        && (self.destroy_method matches Ok(v) && v@ == "DELETE"@)
        && (self.headers matches Ok(v) && v@.len() == 0)
        && self.id_attribute == Ok::<Option<String>, String>(None)
        && self.insecure == Ok::<Option<bool>, String>(None)
        && self.key_file == Ok::<Option<String>, String>(None)
        && self.key_string == Ok::<Option<String>, String>(None)
        && (self.oauth_client_credentials matches Ok(v) && v@.len() == 0)
        && self.password == Ok::<Option<String>, String>(None)
        && (self.read_method matches Ok(v) && v@ == "GET"@)
        && self.root_ca_file == Ok::<Option<String>, String>(None)
        && self.root_ca_string == Ok::<Option<String>, String>(None)
        && self.test_path == Ok::<Option<String>, String>(None)
        && (self.update_method matches Ok(v) && v@ == "PUT"@)
        && self.uri == Ok::<Option<String>, String>(None)
        && self.use_cookies == Ok::<Option<bool>, String>(None)
        && self.username == Ok::<Option<String>, String>(None)
        && self.write_returns_object == Ok::<Option<bool>, String>(None)
        && self.xssi_prefix == Ok::<Option<String>, String>(None)
    }

    /// The message of the first field, in declaration order, that holds no value.
    pub open spec fn first_error(&self) -> Option<String> {
        if let Err(m) = self.cert_file { Some(m) } else { if let Err(m) = self.cert_string { Some(m) } else { if let Err(m) = self.copy_keys { Some(m) } else { if let Err(m) = self.create_method { Some(m) } else { if let Err(m) = self.create_returns_object { Some(m) } else { if let Err(m) = self.debug { Some(m) } else { if let Err(m) = self.destroy_method { Some(m) } else { if let Err(m) = self.headers { Some(m) } else { if let Err(m) = self.id_attribute { Some(m) } else { if let Err(m) = self.insecure { Some(m) } else { if let Err(m) = self.key_file { Some(m) } else { if let Err(m) = self.key_string { Some(m) } else { if let Err(m) = self.oauth_client_credentials { Some(m) } else { if let Err(m) = self.password { Some(m) } else { if let Err(m) = self.read_method { Some(m) } else { if let Err(m) = self.root_ca_file { Some(m) } else { if let Err(m) = self.root_ca_string { Some(m) } else { if let Err(m) = self.test_path { Some(m) } else { if let Err(m) = self.update_method { Some(m) } else { if let Err(m) = self.uri { Some(m) } else { if let Err(m) = self.use_cookies { Some(m) } else { if let Err(m) = self.username { Some(m) } else { if let Err(m) = self.write_returns_object { Some(m) } else { if let Err(m) = self.xssi_prefix { Some(m) } else { None } } } } } } } } } } } } } } } } } } } } } } } }
    }

    /// A builder whose fields hold their defaults; a required field holds the
    /// message that no value was supplied.
    pub fn new() -> (r: Self)
        ensures
            r.is_initial(),
    {
        RestApiProviderConfigurationGlobal {
            cert_file: Ok(None),
            cert_string: Ok(None),
            copy_keys: Ok(Vec::new()),
            create_method: Ok(String::from_str("POST")),
            create_returns_object: Ok(None),
            debug: Ok(None),
            destroy_method: Ok(String::from_str("DELETE")),
            headers: Ok(Vec::new()),
            id_attribute: Ok(None),
            insecure: Ok(None),
            key_file: Ok(None),
            key_string: Ok(None),
            oauth_client_credentials: Ok(Vec::new()),
            password: Ok(None),
            read_method: Ok(String::from_str("GET")),
            root_ca_file: Ok(None),
            root_ca_string: Ok(None),
            test_path: Ok(None),
            update_method: Ok(String::from_str("PUT")),
            uri: Ok(None),
            use_cookies: Ok(None),
            username: Ok(None),
            write_returns_object: Ok(None),
            xssi_prefix: Ok(None),
        }
    }

    /// Sets `cert_file`. Client certificate file for mTLS, used together with `key_file`.
    pub fn cert_file(self, value: Option<String>) -> (r: Self)
        ensures
            r == (RestApiProviderConfigurationGlobal { cert_file: Ok(value), ..self }),
    {
        RestApiProviderConfigurationGlobal { cert_file: Ok(value), ..self }
    }

    /// Sets `cert_string`. Client certificate as a string for mTLS, used together with `key_string`.
    pub fn cert_string(self, value: Option<String>) -> (r: Self)
        ensures
            r == (RestApiProviderConfigurationGlobal { cert_string: Ok(value), ..self }),
    {
        RestApiProviderConfigurationGlobal { cert_string: Ok(value), ..self }
    }

    /// Sets `copy_keys`. Keys copied from the gathered object data into every update request.
    pub fn copy_keys(self, value: Vec<String>) -> (r: Self)
        ensures
            r == (RestApiProviderConfigurationGlobal { copy_keys: Ok(value), ..self }),
    {
        RestApiProviderConfigurationGlobal { copy_keys: Ok(value), ..self }
    }

    /// Sets `create_method`. HTTP method used to create objects; defaults to `POST`.
    pub fn create_method(self, value: String) -> (r: Self)
        ensures
            r == (RestApiProviderConfigurationGlobal { create_method: Ok(value), ..self }),
    {
        RestApiProviderConfigurationGlobal { create_method: Ok(value), ..self }
    }

    /// Sets `create_returns_object`. Whether a create request returns the created object.
    pub fn create_returns_object(self, value: Option<bool>) -> (r: Self)
        ensures
            r == (RestApiProviderConfigurationGlobal { create_returns_object: Ok(value), ..self }),
    {
        RestApiProviderConfigurationGlobal { create_returns_object: Ok(value), ..self }
    }

    /// Sets `debug`. Whether the generated client prints debug information.
    pub fn debug(self, value: Option<bool>) -> (r: Self)
        ensures
            r == (RestApiProviderConfigurationGlobal { debug: Ok(value), ..self }),
    {
        RestApiProviderConfigurationGlobal { debug: Ok(value), ..self }
    }

    /// Sets `destroy_method`. HTTP method used to delete objects; defaults to `DELETE`.
    pub fn destroy_method(self, value: String) -> (r: Self)
        ensures
            r == (RestApiProviderConfigurationGlobal { destroy_method: Ok(value), ..self }),
    {
        RestApiProviderConfigurationGlobal { destroy_method: Ok(value), ..self }
    }

    /// Sets `headers`. Header names and values set on every outbound request, in the order given.
    pub fn headers(self, value: Vec<(String, String)>) -> (r: Self)
        ensures
            r == (RestApiProviderConfigurationGlobal { headers: Ok(value), ..self }),
    {
        RestApiProviderConfigurationGlobal { headers: Ok(value), ..self }
    }

    /// Sets `id_attribute`. `/`-delimited path of the identifier within a response object.
    pub fn id_attribute(self, value: Option<String>) -> (r: Self)
        ensures
            r == (RestApiProviderConfigurationGlobal { id_attribute: Ok(value), ..self }),
    {
        RestApiProviderConfigurationGlobal { id_attribute: Ok(value), ..self }
    }

    /// Sets `insecure`. Whether TLS verification of the host is disabled.
    pub fn insecure(self, value: Option<bool>) -> (r: Self)
        ensures
            r == (RestApiProviderConfigurationGlobal { insecure: Ok(value), ..self }),
    {
        RestApiProviderConfigurationGlobal { insecure: Ok(value), ..self }
    }

    /// Sets `key_file`. Client key file for mTLS, used together with `cert_file`.
    pub fn key_file(self, value: Option<String>) -> (r: Self)
        ensures
            r == (RestApiProviderConfigurationGlobal { key_file: Ok(value), ..self }),
    {
        RestApiProviderConfigurationGlobal { key_file: Ok(value), ..self }
    }

    /// Sets `key_string`. Client key as a string for mTLS, used together with `cert_string`.
    pub fn key_string(self, value: Option<String>) -> (r: Self)
        ensures
            r == (RestApiProviderConfigurationGlobal { key_string: Ok(value), ..self }),
    {
        RestApiProviderConfigurationGlobal { key_string: Ok(value), ..self }
    }

    /// Sets `oauth_client_credentials`. OAuth client-credential flow settings.
    pub fn oauth_client_credentials(self, value: Vec<config::RestApiProviderConfigurationGlobalOauthClientCredentialsItem>) -> (r: Self)
        ensures
            r == (RestApiProviderConfigurationGlobal { oauth_client_credentials: Ok(value), ..self }),
    {
        RestApiProviderConfigurationGlobal { oauth_client_credentials: Ok(value), ..self }
    }

    /// Sets `password`. Password for basic authentication.
    pub fn password(self, value: Option<String>) -> (r: Self)
        ensures
            r == (RestApiProviderConfigurationGlobal { password: Ok(value), ..self }),
    {
        RestApiProviderConfigurationGlobal { password: Ok(value), ..self }
    }

    /// Sets `read_method`. HTTP method used to read objects; defaults to `GET`.
    pub fn read_method(self, value: String) -> (r: Self)
        ensures
            r == (RestApiProviderConfigurationGlobal { read_method: Ok(value), ..self }),
    {
        RestApiProviderConfigurationGlobal { read_method: Ok(value), ..self }
    }

    /// Sets `root_ca_file`. Root certificate authority file.
    pub fn root_ca_file(self, value: Option<String>) -> (r: Self)
        ensures
            r == (RestApiProviderConfigurationGlobal { root_ca_file: Ok(value), ..self }),
    {
        RestApiProviderConfigurationGlobal { root_ca_file: Ok(value), ..self }
    }

    /// Sets `root_ca_string`. Root certificate authority as a string.
    pub fn root_ca_string(self, value: Option<String>) -> (r: Self)
        ensures
            r == (RestApiProviderConfigurationGlobal { root_ca_string: Ok(value), ..self }),
    {
        RestApiProviderConfigurationGlobal { root_ca_string: Ok(value), ..self }
    }

    /// Sets `test_path`. Path probed to check that the API is reachable.
    pub fn test_path(self, value: Option<String>) -> (r: Self)
        ensures
            r == (RestApiProviderConfigurationGlobal { test_path: Ok(value), ..self }),
    {
        RestApiProviderConfigurationGlobal { test_path: Ok(value), ..self }
    }

    /// Sets `update_method`. HTTP method used to update objects; defaults to `PUT`.
    pub fn update_method(self, value: String) -> (r: Self)
        ensures
            r == (RestApiProviderConfigurationGlobal { update_method: Ok(value), ..self }),
    {
        RestApiProviderConfigurationGlobal { update_method: Ok(value), ..self }
    }

    /// Sets `uri`. Base URI of the API.
    pub fn uri(self, value: Option<String>) -> (r: Self)
        ensures
            r == (RestApiProviderConfigurationGlobal { uri: Ok(value), ..self }),
    {
        RestApiProviderConfigurationGlobal { uri: Ok(value), ..self }
    }

    /// Sets `use_cookies`. Whether the client keeps cookies between requests.
    pub fn use_cookies(self, value: Option<bool>) -> (r: Self)
        ensures
            r == (RestApiProviderConfigurationGlobal { use_cookies: Ok(value), ..self }),
    {
        RestApiProviderConfigurationGlobal { use_cookies: Ok(value), ..self }
    }

    /// Sets `username`. User name for basic authentication.
    pub fn username(self, value: Option<String>) -> (r: Self)
        ensures
            r == (RestApiProviderConfigurationGlobal { username: Ok(value), ..self }),
    {
        RestApiProviderConfigurationGlobal { username: Ok(value), ..self }
    }

    /// Sets `write_returns_object`. Whether create and update requests return the object.
    pub fn write_returns_object(self, value: Option<bool>) -> (r: Self)
        ensures
            r == (RestApiProviderConfigurationGlobal { write_returns_object: Ok(value), ..self }),
    {
        RestApiProviderConfigurationGlobal { write_returns_object: Ok(value), ..self }
    }

    /// Sets `xssi_prefix`. Prefix stripped from every response before it is decoded.
    pub fn xssi_prefix(self, value: Option<String>) -> (r: Self)
        ensures
            r == (RestApiProviderConfigurationGlobal { xssi_prefix: Ok(value), ..self }),
    {
        RestApiProviderConfigurationGlobal { xssi_prefix: Ok(value), ..self }
    }

    /// The configuration value, or the error of the first field that holds none.
    pub fn build(self) -> (r: Result<config::RestApiProviderConfigurationGlobal, ConversionError>)
        ensures
            match self.first_error() {
                Some(m) => r == Err::<config::RestApiProviderConfigurationGlobal, ConversionError>(ConversionError { message: m }),
                None => r matches Ok(c) && self.cert_file == Ok::<Option<String>, String>(c.cert_file) && self.cert_string == Ok::<Option<String>, String>(c.cert_string) && self.copy_keys == Ok::<Vec<String>, String>(c.copy_keys) && self.create_method == Ok::<String, String>(c.create_method) && self.create_returns_object == Ok::<Option<bool>, String>(c.create_returns_object) && self.debug == Ok::<Option<bool>, String>(c.debug) && self.destroy_method == Ok::<String, String>(c.destroy_method) && self.headers == Ok::<Vec<(String, String)>, String>(c.headers) && self.id_attribute == Ok::<Option<String>, String>(c.id_attribute) && self.insecure == Ok::<Option<bool>, String>(c.insecure) && self.key_file == Ok::<Option<String>, String>(c.key_file) && self.key_string == Ok::<Option<String>, String>(c.key_string) && self.oauth_client_credentials == Ok::<Vec<config::RestApiProviderConfigurationGlobalOauthClientCredentialsItem>, String>(c.oauth_client_credentials) && self.password == Ok::<Option<String>, String>(c.password) && self.read_method == Ok::<String, String>(c.read_method) && self.root_ca_file == Ok::<Option<String>, String>(c.root_ca_file) && self.root_ca_string == Ok::<Option<String>, String>(c.root_ca_string) && self.test_path == Ok::<Option<String>, String>(c.test_path) && self.update_method == Ok::<String, String>(c.update_method) && self.uri == Ok::<Option<String>, String>(c.uri) && self.use_cookies == Ok::<Option<bool>, String>(c.use_cookies) && self.username == Ok::<Option<String>, String>(c.username) && self.write_returns_object == Ok::<Option<bool>, String>(c.write_returns_object) && self.xssi_prefix == Ok::<Option<String>, String>(c.xssi_prefix),
            },
    {
        let cert_file = match self.cert_file {
            Ok(v) => v,
            Err(m) => {
                return Err(ConversionError { message: m });
            },
        };
        let cert_string = match self.cert_string {
            Ok(v) => v,
            Err(m) => {
                return Err(ConversionError { message: m });
            },
        };
        let copy_keys = match self.copy_keys {
            Ok(v) => v,
            Err(m) => {
                return Err(ConversionError { message: m });
            },
        };
        let create_method = match self.create_method {
            Ok(v) => v,
            Err(m) => {
                return Err(ConversionError { message: m });
            },
        };
        let create_returns_object = match self.create_returns_object {
            Ok(v) => v,
            Err(m) => {
                return Err(ConversionError { message: m });
            },
        };
        let debug = match self.debug {
            Ok(v) => v,
            Err(m) => {
                return Err(ConversionError { message: m });
            },
        };
        let destroy_method = match self.destroy_method {
            Ok(v) => v,
            Err(m) => {
                return Err(ConversionError { message: m });
            },
        };
        let headers = match self.headers {
            Ok(v) => v,
            Err(m) => {
                return Err(ConversionError { message: m });
            },
        };
        let id_attribute = match self.id_attribute {
            Ok(v) => v,
            Err(m) => {
                return Err(ConversionError { message: m });
            },
        };
        let insecure = match self.insecure {
            Ok(v) => v,
            Err(m) => {
                return Err(ConversionError { message: m });
            },
        };
        let key_file = match self.key_file {
            Ok(v) => v,
            Err(m) => {
                return Err(ConversionError { message: m });
            },
        };
        let key_string = match self.key_string {
            Ok(v) => v,
            Err(m) => {
                return Err(ConversionError { message: m });
            },
        };
        let oauth_client_credentials = match self.oauth_client_credentials {
            Ok(v) => v,
            Err(m) => {
                return Err(ConversionError { message: m });
            },
        };
        let password = match self.password {
            Ok(v) => v,
            Err(m) => {
                return Err(ConversionError { message: m });
            },
        };
        let read_method = match self.read_method {
            Ok(v) => v,
            Err(m) => {
                return Err(ConversionError { message: m });
            },
        };
        let root_ca_file = match self.root_ca_file {
            Ok(v) => v,
            Err(m) => {
                return Err(ConversionError { message: m });
            },
        };
        let root_ca_string = match self.root_ca_string {
            Ok(v) => v,
            Err(m) => {
                return Err(ConversionError { message: m });
            },
        };
        let test_path = match self.test_path {
            Ok(v) => v,
            Err(m) => {
                return Err(ConversionError { message: m });
            },
        };
        let update_method = match self.update_method {
            Ok(v) => v,
            Err(m) => {
                return Err(ConversionError { message: m });
            },
        };
        let uri = match self.uri {
            Ok(v) => v,
            Err(m) => {
                return Err(ConversionError { message: m });
            },
        };
        let use_cookies = match self.use_cookies {
            Ok(v) => v,
            Err(m) => {
                return Err(ConversionError { message: m });
            },
        };
        let username = match self.username {
            Ok(v) => v,
            Err(m) => {
                return Err(ConversionError { message: m });
            },
        };
        let write_returns_object = match self.write_returns_object {
            Ok(v) => v,
            Err(m) => {
                return Err(ConversionError { message: m });
            },
        };
        let xssi_prefix = match self.xssi_prefix {
            Ok(v) => v,
            Err(m) => {
                return Err(ConversionError { message: m });
            },
        };
        Ok(config::RestApiProviderConfigurationGlobal { cert_file, cert_string, copy_keys, create_method, create_returns_object, debug, destroy_method, headers, id_attribute, insecure, key_file, key_string, oauth_client_credentials, password, read_method, root_ca_file, root_ca_string, test_path, update_method, uri, use_cookies, username, write_returns_object, xssi_prefix })
    }
}

impl Default for RestApiProviderConfigurationGlobal {
    fn default() -> (r: Self)
        ensures
            r.is_initial(),
    {
        RestApiProviderConfigurationGlobal::new()
    }
}

/// Builder of [`config::RestApiProviderConfigurationGlobalOauthClientCredentialsItem`]: each field holds its value, or the message
/// of why it has none.
#[derive(Debug)]
pub struct RestApiProviderConfigurationGlobalOauthClientCredentialsItem {
    pub endpoint_params: Result<Vec<(String, String)>, String>,
    pub oauth_client_id: Result<Option<String>, String>,
    pub oauth_client_secret: Result<Option<String>, String>,
    pub oauth_scopes: Result<Vec<String>, String>,
    pub oauth_token_endpoint: Result<Option<String>, String>,
}

impl RestApiProviderConfigurationGlobalOauthClientCredentialsItem {
    /// Whether every field holds what a new builder starts with.
    pub open spec fn is_initial(&self) -> bool {
        (self.endpoint_params matches Ok(v) && v@.len() == 0)
        && self.oauth_client_id == Ok::<Option<String>, String>(None)
        && self.oauth_client_secret == Ok::<Option<String>, String>(None)
        && (self.oauth_scopes matches Ok(v) && v@.len() == 0)
        && self.oauth_token_endpoint == Ok::<Option<String>, String>(None)
    }

    /// The message of the first field, in declaration order, that holds no value.
    pub open spec fn first_error(&self) -> Option<String> {
        if let Err(m) = self.endpoint_params { Some(m) } else { if let Err(m) = self.oauth_client_id { Some(m) } else { if let Err(m) = self.oauth_client_secret { Some(m) } else { if let Err(m) = self.oauth_scopes { Some(m) } else { if let Err(m) = self.oauth_token_endpoint { Some(m) } else { None } } } } }
    }

    /// A builder whose fields hold their defaults; a required field holds the
    /// message that no value was supplied.
    pub fn new() -> (r: Self)
        ensures
            r.is_initial(),
    {
        RestApiProviderConfigurationGlobalOauthClientCredentialsItem {
            endpoint_params: Ok(Vec::new()),
            oauth_client_id: Ok(None),
            oauth_client_secret: Ok(None),
            oauth_scopes: Ok(Vec::new()),
            oauth_token_endpoint: Ok(None),
        }
    }

    /// Sets `endpoint_params`. Extra endpoint parameters: each name with its value written as JSON text.
    pub fn endpoint_params(self, value: Vec<(String, String)>) -> (r: Self)
        ensures
            r == (RestApiProviderConfigurationGlobalOauthClientCredentialsItem { endpoint_params: Ok(value), ..self }),
    {
        RestApiProviderConfigurationGlobalOauthClientCredentialsItem { endpoint_params: Ok(value), ..self }
    }

    /// Sets `oauth_client_id`. The OAuth client id.
    pub fn oauth_client_id(self, value: Option<String>) -> (r: Self)
        ensures
            r == (RestApiProviderConfigurationGlobalOauthClientCredentialsItem { oauth_client_id: Ok(value), ..self }),
    {
        RestApiProviderConfigurationGlobalOauthClientCredentialsItem { oauth_client_id: Ok(value), ..self }
    }

    /// Sets `oauth_client_secret`. The OAuth client secret.
    pub fn oauth_client_secret(self, value: Option<String>) -> (r: Self)
        ensures
            r == (RestApiProviderConfigurationGlobalOauthClientCredentialsItem { oauth_client_secret: Ok(value), ..self }),
    {
        RestApiProviderConfigurationGlobalOauthClientCredentialsItem { oauth_client_secret: Ok(value), ..self }
    }

    /// Sets `oauth_scopes`. Scopes requested for the token.
    pub fn oauth_scopes(self, value: Vec<String>) -> (r: Self)
        ensures
            r == (RestApiProviderConfigurationGlobalOauthClientCredentialsItem { oauth_scopes: Ok(value), ..self }),
    {
        RestApiProviderConfigurationGlobalOauthClientCredentialsItem { oauth_scopes: Ok(value), ..self }
    }

    /// Sets `oauth_token_endpoint`. Endpoint that hands out tokens.
    pub fn oauth_token_endpoint(self, value: Option<String>) -> (r: Self)
        ensures
            r == (RestApiProviderConfigurationGlobalOauthClientCredentialsItem { oauth_token_endpoint: Ok(value), ..self }),
    {
        RestApiProviderConfigurationGlobalOauthClientCredentialsItem { oauth_token_endpoint: Ok(value), ..self }
    }

    /// The configuration value, or the error of the first field that holds none.
    pub fn build(self) -> (r: Result<config::RestApiProviderConfigurationGlobalOauthClientCredentialsItem, ConversionError>)
        ensures
            match self.first_error() {
                Some(m) => r == Err::<config::RestApiProviderConfigurationGlobalOauthClientCredentialsItem, ConversionError>(ConversionError { message: m }),
                None => r matches Ok(c) && self.endpoint_params == Ok::<Vec<(String, String)>, String>(c.endpoint_params) && self.oauth_client_id == Ok::<Option<String>, String>(c.oauth_client_id) && self.oauth_client_secret == Ok::<Option<String>, String>(c.oauth_client_secret) && self.oauth_scopes == Ok::<Vec<String>, String>(c.oauth_scopes) && self.oauth_token_endpoint == Ok::<Option<String>, String>(c.oauth_token_endpoint),
            },
    {
        let endpoint_params = match self.endpoint_params {
            Ok(v) => v,
            Err(m) => {
                return Err(ConversionError { message: m });
            },
        };
        let oauth_client_id = match self.oauth_client_id {
            Ok(v) => v,
            Err(m) => {
                return Err(ConversionError { message: m });
            },
        };
        let oauth_client_secret = match self.oauth_client_secret {
            Ok(v) => v,
            Err(m) => {
                return Err(ConversionError { message: m });
            },
        };
        let oauth_scopes = match self.oauth_scopes {
            Ok(v) => v,
            Err(m) => {
                return Err(ConversionError { message: m });
            },
        };
        let oauth_token_endpoint = match self.oauth_token_endpoint {
            Ok(v) => v,
            Err(m) => {
                return Err(ConversionError { message: m });
            },
        };
        Ok(config::RestApiProviderConfigurationGlobalOauthClientCredentialsItem { endpoint_params, oauth_client_id, oauth_client_secret, oauth_scopes, oauth_token_endpoint })
    }
}

impl Default for RestApiProviderConfigurationGlobalOauthClientCredentialsItem {
    fn default() -> (r: Self)
        ensures
            r.is_initial(),
    {
        RestApiProviderConfigurationGlobalOauthClientCredentialsItem::new()
    }
}

/// Builder of [`config::RestApiProviderConfigurationResources`]: each field holds its value, or the message
/// of why it has none.
#[derive(Debug)]
pub struct RestApiProviderConfigurationResources {
    pub generate_data_source: Result<bool, String>,
    pub generate_resource: Result<bool, String>,
    pub extra: Result<Vec<(String, config::RestApiProviderConfigurationResourcesExtraValue)>, String>,
}

impl RestApiProviderConfigurationResources {
    /// Whether every field holds what a new builder starts with.
    pub open spec fn is_initial(&self) -> bool {
        self.generate_data_source == Ok::<bool, String>(true)
        && self.generate_resource == Ok::<bool, String>(true)
        && (self.extra matches Err(m) && m@ == "no value supplied for extra"@)
    }

    /// The message of the first field, in declaration order, that holds no value.
    pub open spec fn first_error(&self) -> Option<String> {
        if let Err(m) = self.generate_data_source { Some(m) } else { if let Err(m) = self.generate_resource { Some(m) } else { if let Err(m) = self.extra { Some(m) } else { None } } }
    }

    /// A builder whose fields hold their defaults; a required field holds the
    /// message that no value was supplied.
    pub fn new() -> (r: Self)
        ensures
            r.is_initial(),
    {
        RestApiProviderConfigurationResources {
            generate_data_source: Ok(true),
            generate_resource: Ok(true),
            extra: Err(String::from_str("no value supplied for extra")),
        }
    }

    /// Sets `generate_data_source`. Whether data sources are generated; defaults to `true`.
    pub fn generate_data_source(self, value: bool) -> (r: Self)
        ensures
            r == (RestApiProviderConfigurationResources { generate_data_source: Ok(value), ..self }),
    {
        RestApiProviderConfigurationResources { generate_data_source: Ok(value), ..self }
    }

    /// Sets `generate_resource`. Whether resources are generated; defaults to `true`.
    pub fn generate_resource(self, value: bool) -> (r: Self)
        ensures
            r == (RestApiProviderConfigurationResources { generate_resource: Ok(value), ..self }),
    {
        RestApiProviderConfigurationResources { generate_resource: Ok(value), ..self }
    }

    /// Sets `extra`, which is required. Each resource name with its override, in
    /// declaration order.
    pub fn extra(self, value: Vec<(String, config::RestApiProviderConfigurationResourcesExtraValue)>) -> (r: Self)
        ensures
            r == (RestApiProviderConfigurationResources { extra: Ok(value), ..self }),
    {
        RestApiProviderConfigurationResources { extra: Ok(value), ..self }
    }

    /// The configuration value, or the error of the first field that holds none.
    pub fn build(self) -> (r: Result<config::RestApiProviderConfigurationResources, ConversionError>)
        ensures
            match self.first_error() {
                Some(m) => r == Err::<config::RestApiProviderConfigurationResources, ConversionError>(ConversionError { message: m }),
                None => r matches Ok(c) && self.generate_data_source == Ok::<bool, String>(c.generate_data_source) && self.generate_resource == Ok::<bool, String>(c.generate_resource) && self.extra == Ok::<Vec<(String, config::RestApiProviderConfigurationResourcesExtraValue)>, String>(c.extra),
            },
    {
        let generate_data_source = match self.generate_data_source {
            Ok(v) => v,
            Err(m) => {
                return Err(ConversionError { message: m });
            },
        };
        let generate_resource = match self.generate_resource {
            Ok(v) => v,
            Err(m) => {
                return Err(ConversionError { message: m });
            },
        };
        let extra = match self.extra {
            Ok(v) => v,
            Err(m) => {
                return Err(ConversionError { message: m });
            },
        };
        Ok(config::RestApiProviderConfigurationResources { generate_data_source, generate_resource, extra })
    }
}

impl Default for RestApiProviderConfigurationResources {
    fn default() -> (r: Self)
        ensures
            r.is_initial(),
    {
        RestApiProviderConfigurationResources::new()
    }
}

/// Builder of [`config::RestApiProviderConfigurationResourcesExtraValue`]: each field holds its value, or the message
/// of why it has none.
#[derive(Debug)]
pub struct RestApiProviderConfigurationResourcesExtraValue {
    pub create: Result<Option<config::RestApiProviderConfigurationResourcesExtraValueCreate>, String>,
    pub debug: Result<Option<bool>, String>,
    pub destroy: Result<Option<config::RestApiProviderConfigurationResourcesExtraValueDestroy>, String>,
    pub force_new: Result<Vec<String>, String>,
    pub id_attribute: Result<Option<String>, String>,
    pub ignore_all_server_changes: Result<bool, String>,
    pub ignore_changes_to: Result<Vec<String>, String>,
    pub object_id: Result<Option<String>, String>,
    pub path: Result<String, String>,
    pub query_string: Result<Option<String>, String>,
    pub read: Result<Option<config::RestApiProviderConfigurationResourcesExtraValueRead>, String>,
    pub update: Result<Option<config::RestApiProviderConfigurationResourcesExtraValueUpdate>, String>,
}

impl RestApiProviderConfigurationResourcesExtraValue {
    /// Whether every field holds what a new builder starts with.
    pub open spec fn is_initial(&self) -> bool {
        self.create == Ok::<Option<config::RestApiProviderConfigurationResourcesExtraValueCreate>, String>(None)
        && self.debug == Ok::<Option<bool>, String>(None)
        && self.destroy == Ok::<Option<config::RestApiProviderConfigurationResourcesExtraValueDestroy>, String>(None)
        && (self.force_new matches Ok(v) && v@.len() == 0)
        && self.id_attribute == Ok::<Option<String>, String>(None)
        && self.ignore_all_server_changes == Ok::<bool, String>(false)
        && (self.ignore_changes_to matches Ok(v) && v@.len() == 0)
        && self.object_id == Ok::<Option<String>, String>(None)
        && (self.path matches Err(m) && m@ == "no value supplied for path"@)
        && self.query_string == Ok::<Option<String>, String>(None)
        && self.read == Ok::<Option<config::RestApiProviderConfigurationResourcesExtraValueRead>, String>(None)
        && self.update == Ok::<Option<config::RestApiProviderConfigurationResourcesExtraValueUpdate>, String>(None)
    }

    /// The message of the first field, in declaration order, that holds no value.
    pub open spec fn first_error(&self) -> Option<String> {
        if let Err(m) = self.create { Some(m) } else { if let Err(m) = self.debug { Some(m) } else { if let Err(m) = self.destroy { Some(m) } else { if let Err(m) = self.force_new { Some(m) } else { if let Err(m) = self.id_attribute { Some(m) } else { if let Err(m) = self.ignore_all_server_changes { Some(m) } else { if let Err(m) = self.ignore_changes_to { Some(m) } else { if let Err(m) = self.object_id { Some(m) } else { if let Err(m) = self.path { Some(m) } else { if let Err(m) = self.query_string { Some(m) } else { if let Err(m) = self.read { Some(m) } else { if let Err(m) = self.update { Some(m) } else { None } } } } } } } } } } } }
    }

    /// A builder whose fields hold their defaults; a required field holds the
    /// message that no value was supplied.
    pub fn new() -> (r: Self)
        ensures
            r.is_initial(),
    {
        RestApiProviderConfigurationResourcesExtraValue {
            create: Ok(None),
            debug: Ok(None),
            destroy: Ok(None),
            force_new: Ok(Vec::new()),
            id_attribute: Ok(None),
            ignore_all_server_changes: Ok(false),
            ignore_changes_to: Ok(Vec::new()),
            object_id: Ok(None),
            path: Err(String::from_str("no value supplied for path")),
            query_string: Ok(None),
            read: Ok(None),
            update: Ok(None),
        }
    }

    /// Sets `create`. Overrides of the create operation.
    pub fn create(self, value: Option<config::RestApiProviderConfigurationResourcesExtraValueCreate>) -> (r: Self)
        ensures
            r == (RestApiProviderConfigurationResourcesExtraValue { create: Ok(value), ..self }),
    {
        RestApiProviderConfigurationResourcesExtraValue { create: Ok(value), ..self }
    }

    /// Sets `debug`. Whether the generated client prints debug information for this resource.
    pub fn debug(self, value: Option<bool>) -> (r: Self)
        ensures
            r == (RestApiProviderConfigurationResourcesExtraValue { debug: Ok(value), ..self }),
    {
        RestApiProviderConfigurationResourcesExtraValue { debug: Ok(value), ..self }
    }

    /// Sets `destroy`. Overrides of the destroy operation.
    pub fn destroy(self, value: Option<config::RestApiProviderConfigurationResourcesExtraValueDestroy>) -> (r: Self)
        ensures
            r == (RestApiProviderConfigurationResourcesExtraValue { destroy: Ok(value), ..self }),
    {
        RestApiProviderConfigurationResourcesExtraValue { destroy: Ok(value), ..self }
    }

    /// Sets `force_new`. Attributes whose change forces the object to be recreated.
    pub fn force_new(self, value: Vec<String>) -> (r: Self)
        ensures
            r == (RestApiProviderConfigurationResourcesExtraValue { force_new: Ok(value), ..self }),
    {
        RestApiProviderConfigurationResourcesExtraValue { force_new: Ok(value), ..self }
    }

    /// Sets `id_attribute`. `/`-delimited path of the identifier; overrides the global one.
    pub fn id_attribute(self, value: Option<String>) -> (r: Self)
        ensures
            r == (RestApiProviderConfigurationResourcesExtraValue { id_attribute: Ok(value), ..self }),
    {
        RestApiProviderConfigurationResourcesExtraValue { id_attribute: Ok(value), ..self }
    }

    /// Sets `ignore_all_server_changes`. Whether every change made on the server is ignored.
    pub fn ignore_all_server_changes(self, value: bool) -> (r: Self)
        ensures
            r == (RestApiProviderConfigurationResourcesExtraValue { ignore_all_server_changes: Ok(value), ..self }),
    {
        RestApiProviderConfigurationResourcesExtraValue { ignore_all_server_changes: Ok(value), ..self }
    }

    /// Sets `ignore_changes_to`. Attributes whose changes on the server are ignored.
    pub fn ignore_changes_to(self, value: Vec<String>) -> (r: Self)
        ensures
            r == (RestApiProviderConfigurationResourcesExtraValue { ignore_changes_to: Ok(value), ..self }),
    {
        RestApiProviderConfigurationResourcesExtraValue { ignore_changes_to: Ok(value), ..self }
    }

    /// Sets `object_id`. Name of the identifier attribute in the generated schema.
    pub fn object_id(self, value: Option<String>) -> (r: Self)
        ensures
            r == (RestApiProviderConfigurationResourcesExtraValue { object_id: Ok(value), ..self }),
    {
        RestApiProviderConfigurationResourcesExtraValue { object_id: Ok(value), ..self }
    }

    /// Sets `path`. API path of the resource; required.
    pub fn path(self, value: String) -> (r: Self)
        ensures
            r == (RestApiProviderConfigurationResourcesExtraValue { path: Ok(value), ..self }),
    {
        RestApiProviderConfigurationResourcesExtraValue { path: Ok(value), ..self }
    }

    /// Sets `query_string`. Query string appended to every request.
    pub fn query_string(self, value: Option<String>) -> (r: Self)
        ensures
            r == (RestApiProviderConfigurationResourcesExtraValue { query_string: Ok(value), ..self }),
    {
        RestApiProviderConfigurationResourcesExtraValue { query_string: Ok(value), ..self }
    }

    /// Sets `read`. Overrides of the read operation.
    pub fn read(self, value: Option<config::RestApiProviderConfigurationResourcesExtraValueRead>) -> (r: Self)
        ensures
            r == (RestApiProviderConfigurationResourcesExtraValue { read: Ok(value), ..self }),
    {
        RestApiProviderConfigurationResourcesExtraValue { read: Ok(value), ..self }
    }

    /// Sets `update`. Overrides of the update operation.
    pub fn update(self, value: Option<config::RestApiProviderConfigurationResourcesExtraValueUpdate>) -> (r: Self)
        ensures
            r == (RestApiProviderConfigurationResourcesExtraValue { update: Ok(value), ..self }),
    {
        RestApiProviderConfigurationResourcesExtraValue { update: Ok(value), ..self }
    }

    /// The configuration value, or the error of the first field that holds none.
    pub fn build(self) -> (r: Result<config::RestApiProviderConfigurationResourcesExtraValue, ConversionError>)
        ensures
            match self.first_error() {
                Some(m) => r == Err::<config::RestApiProviderConfigurationResourcesExtraValue, ConversionError>(ConversionError { message: m }),
                None => r matches Ok(c) && self.create == Ok::<Option<config::RestApiProviderConfigurationResourcesExtraValueCreate>, String>(c.create) && self.debug == Ok::<Option<bool>, String>(c.debug) && self.destroy == Ok::<Option<config::RestApiProviderConfigurationResourcesExtraValueDestroy>, String>(c.destroy) && self.force_new == Ok::<Vec<String>, String>(c.force_new) && self.id_attribute == Ok::<Option<String>, String>(c.id_attribute) && self.ignore_all_server_changes == Ok::<bool, String>(c.ignore_all_server_changes) && self.ignore_changes_to == Ok::<Vec<String>, String>(c.ignore_changes_to) && self.object_id == Ok::<Option<String>, String>(c.object_id) && self.path == Ok::<String, String>(c.path) && self.query_string == Ok::<Option<String>, String>(c.query_string) && self.read == Ok::<Option<config::RestApiProviderConfigurationResourcesExtraValueRead>, String>(c.read) && self.update == Ok::<Option<config::RestApiProviderConfigurationResourcesExtraValueUpdate>, String>(c.update),
            },
    {
        let create = match self.create {
            Ok(v) => v,
            Err(m) => {
                return Err(ConversionError { message: m });
            },
        };
        let debug = match self.debug {
            Ok(v) => v,
            Err(m) => {
                return Err(ConversionError { message: m });
            },
        };
        let destroy = match self.destroy {
            Ok(v) => v,
            Err(m) => {
                return Err(ConversionError { message: m });
            },
        };
        let force_new = match self.force_new {
            Ok(v) => v,
            Err(m) => {
                return Err(ConversionError { message: m });
            },
        };
        let id_attribute = match self.id_attribute {
            Ok(v) => v,
            Err(m) => {
                return Err(ConversionError { message: m });
            },
        };
        let ignore_all_server_changes = match self.ignore_all_server_changes {
            Ok(v) => v,
            Err(m) => {
                return Err(ConversionError { message: m });
            },
        };
        let ignore_changes_to = match self.ignore_changes_to {
            Ok(v) => v,
            Err(m) => {
                return Err(ConversionError { message: m });
            },
        };
        let object_id = match self.object_id {
            Ok(v) => v,
            Err(m) => {
                return Err(ConversionError { message: m });
            },
        };
        let path = match self.path {
            Ok(v) => v,
            Err(m) => {
                return Err(ConversionError { message: m });
            },
        };
        let query_string = match self.query_string {
            Ok(v) => v,
            Err(m) => {
                return Err(ConversionError { message: m });
            },
        };
        let read = match self.read {
            Ok(v) => v,
            Err(m) => {
                return Err(ConversionError { message: m });
            },
        };
        let update = match self.update {
            Ok(v) => v,
            Err(m) => {
                return Err(ConversionError { message: m });
            },
        };
        Ok(config::RestApiProviderConfigurationResourcesExtraValue { create, debug, destroy, force_new, id_attribute, ignore_all_server_changes, ignore_changes_to, object_id, path, query_string, read, update })
    }
}

impl Default for RestApiProviderConfigurationResourcesExtraValue {
    fn default() -> (r: Self)
        ensures
            r.is_initial(),
    {
        RestApiProviderConfigurationResourcesExtraValue::new()
    }
}

/// Builder of [`config::RestApiProviderConfigurationResourcesExtraValueCreate`]: each field holds its value, or the message
/// of why it has none.
#[derive(Debug)]
pub struct RestApiProviderConfigurationResourcesExtraValueCreate {
    pub method: Result<Option<String>, String>,
    pub path: Result<Option<String>, String>,
}

impl RestApiProviderConfigurationResourcesExtraValueCreate {
    /// Whether every field holds what a new builder starts with.
    pub open spec fn is_initial(&self) -> bool {
        self.method == Ok::<Option<String>, String>(None)
        && self.path == Ok::<Option<String>, String>(None)
    }

    /// The message of the first field, in declaration order, that holds no value.
    pub open spec fn first_error(&self) -> Option<String> {
        if let Err(m) = self.method { Some(m) } else { if let Err(m) = self.path { Some(m) } else { None } }
    }

    /// A builder whose fields hold their defaults; a required field holds the
    /// message that no value was supplied.
    pub fn new() -> (r: Self)
        ensures
            r.is_initial(),
    {
        RestApiProviderConfigurationResourcesExtraValueCreate {
            method: Ok(None),
            path: Ok(None),
        }
    }

    /// Sets `method`. HTTP method of the create request.
    pub fn method(self, value: Option<String>) -> (r: Self)
        ensures
            r == (RestApiProviderConfigurationResourcesExtraValueCreate { method: Ok(value), ..self }),
    {
        RestApiProviderConfigurationResourcesExtraValueCreate { method: Ok(value), ..self }
    }

    /// Sets `path`. Path of the create request.
    pub fn path(self, value: Option<String>) -> (r: Self)
        ensures
            r == (RestApiProviderConfigurationResourcesExtraValueCreate { path: Ok(value), ..self }),
    {
        RestApiProviderConfigurationResourcesExtraValueCreate { path: Ok(value), ..self }
    }

    /// The configuration value, or the error of the first field that holds none.
    pub fn build(self) -> (r: Result<config::RestApiProviderConfigurationResourcesExtraValueCreate, ConversionError>)
        ensures
            match self.first_error() {
                Some(m) => r == Err::<config::RestApiProviderConfigurationResourcesExtraValueCreate, ConversionError>(ConversionError { message: m }),
                None => r matches Ok(c) && self.method == Ok::<Option<String>, String>(c.method) && self.path == Ok::<Option<String>, String>(c.path),
            },
    {
        let method = match self.method {
            Ok(v) => v,
            Err(m) => {
                return Err(ConversionError { message: m });
            },
        };
        let path = match self.path {
            Ok(v) => v,
            Err(m) => {
                return Err(ConversionError { message: m });
            },
        };
        Ok(config::RestApiProviderConfigurationResourcesExtraValueCreate { method, path })
    }
}

impl Default for RestApiProviderConfigurationResourcesExtraValueCreate {
    fn default() -> (r: Self)
        ensures
            r.is_initial(),
    {
        RestApiProviderConfigurationResourcesExtraValueCreate::new()
    }
}

/// Builder of [`config::RestApiProviderConfigurationResourcesExtraValueDestroy`]: each field holds its value, or the message
/// of why it has none.
#[derive(Debug)]
pub struct RestApiProviderConfigurationResourcesExtraValueDestroy {
    pub method: Result<Option<String>, String>,
    pub path: Result<Option<String>, String>,
}

impl RestApiProviderConfigurationResourcesExtraValueDestroy {
    /// Whether every field holds what a new builder starts with.
    pub open spec fn is_initial(&self) -> bool {
        self.method == Ok::<Option<String>, String>(None)
        && self.path == Ok::<Option<String>, String>(None)
    }

    /// The message of the first field, in declaration order, that holds no value.
    pub open spec fn first_error(&self) -> Option<String> {
        if let Err(m) = self.method { Some(m) } else { if let Err(m) = self.path { Some(m) } else { None } }
    }

    /// A builder whose fields hold their defaults; a required field holds the
    /// message that no value was supplied.
    pub fn new() -> (r: Self)
        ensures
            r.is_initial(),
    {
        RestApiProviderConfigurationResourcesExtraValueDestroy {
            method: Ok(None),
            path: Ok(None),
        }
    }

    /// Sets `method`. HTTP method of the destroy request.
    pub fn method(self, value: Option<String>) -> (r: Self)
        ensures
            r == (RestApiProviderConfigurationResourcesExtraValueDestroy { method: Ok(value), ..self }),
    {
        RestApiProviderConfigurationResourcesExtraValueDestroy { method: Ok(value), ..self }
    }

    /// Sets `path`. Path of the destroy request.
    pub fn path(self, value: Option<String>) -> (r: Self)
        ensures
            r == (RestApiProviderConfigurationResourcesExtraValueDestroy { path: Ok(value), ..self }),
    {
        RestApiProviderConfigurationResourcesExtraValueDestroy { path: Ok(value), ..self }
    }

    /// The configuration value, or the error of the first field that holds none.
    pub fn build(self) -> (r: Result<config::RestApiProviderConfigurationResourcesExtraValueDestroy, ConversionError>)
        ensures
            match self.first_error() {
                Some(m) => r == Err::<config::RestApiProviderConfigurationResourcesExtraValueDestroy, ConversionError>(ConversionError { message: m }),
                None => r matches Ok(c) && self.method == Ok::<Option<String>, String>(c.method) && self.path == Ok::<Option<String>, String>(c.path),
            },
    {
        let method = match self.method {
            Ok(v) => v,
            Err(m) => {
                return Err(ConversionError { message: m });
            },
        };
        let path = match self.path {
            Ok(v) => v,
            Err(m) => {
                return Err(ConversionError { message: m });
            },
        };
        Ok(config::RestApiProviderConfigurationResourcesExtraValueDestroy { method, path })
    }
}

impl Default for RestApiProviderConfigurationResourcesExtraValueDestroy {
    fn default() -> (r: Self)
        ensures
            r.is_initial(),
    {
        RestApiProviderConfigurationResourcesExtraValueDestroy::new()
    }
}

/// Builder of [`config::RestApiProviderConfigurationResourcesExtraValueUpdate`]: each field holds its value, or the message
/// of why it has none.
#[derive(Debug)]
pub struct RestApiProviderConfigurationResourcesExtraValueUpdate {
    pub method: Result<Option<String>, String>,
    pub path: Result<Option<String>, String>,
}

impl RestApiProviderConfigurationResourcesExtraValueUpdate {
    /// Whether every field holds what a new builder starts with.
    pub open spec fn is_initial(&self) -> bool {
        self.method == Ok::<Option<String>, String>(None)
        && self.path == Ok::<Option<String>, String>(None)
    }

    /// The message of the first field, in declaration order, that holds no value.
    pub open spec fn first_error(&self) -> Option<String> {
        if let Err(m) = self.method { Some(m) } else { if let Err(m) = self.path { Some(m) } else { None } }
    }

    /// A builder whose fields hold their defaults; a required field holds the
    /// message that no value was supplied.
    pub fn new() -> (r: Self)
        ensures
            r.is_initial(),
    {
        RestApiProviderConfigurationResourcesExtraValueUpdate {
            method: Ok(None),
            path: Ok(None),
        }
    }

    /// Sets `method`. HTTP method of the update request.
    pub fn method(self, value: Option<String>) -> (r: Self)
        ensures
            r == (RestApiProviderConfigurationResourcesExtraValueUpdate { method: Ok(value), ..self }),
    {
        RestApiProviderConfigurationResourcesExtraValueUpdate { method: Ok(value), ..self }
    }

    /// Sets `path`. Path of the update request.
    pub fn path(self, value: Option<String>) -> (r: Self)
        ensures
            r == (RestApiProviderConfigurationResourcesExtraValueUpdate { path: Ok(value), ..self }),
    {
        RestApiProviderConfigurationResourcesExtraValueUpdate { path: Ok(value), ..self }
    }

    /// The configuration value, or the error of the first field that holds none.
    pub fn build(self) -> (r: Result<config::RestApiProviderConfigurationResourcesExtraValueUpdate, ConversionError>)
        ensures
            match self.first_error() {
                Some(m) => r == Err::<config::RestApiProviderConfigurationResourcesExtraValueUpdate, ConversionError>(ConversionError { message: m }),
                None => r matches Ok(c) && self.method == Ok::<Option<String>, String>(c.method) && self.path == Ok::<Option<String>, String>(c.path),
            },
    {
        let method = match self.method {
            Ok(v) => v,
            Err(m) => {
                return Err(ConversionError { message: m });
            },
        };
        let path = match self.path {
            Ok(v) => v,
            Err(m) => {
                return Err(ConversionError { message: m });
            },
        };
        Ok(config::RestApiProviderConfigurationResourcesExtraValueUpdate { method, path })
    }
}

impl Default for RestApiProviderConfigurationResourcesExtraValueUpdate {
    fn default() -> (r: Self)
        ensures
            r.is_initial(),
    {
        RestApiProviderConfigurationResourcesExtraValueUpdate::new()
    }
}

/// Builder of [`config::RestApiProviderConfigurationResourcesExtraValueRead`]: each field holds its value, or the message
/// of why it has none.
#[derive(Debug)]
pub struct RestApiProviderConfigurationResourcesExtraValueRead {
    pub method: Result<Option<String>, String>,
    pub path: Result<Option<String>, String>,
    pub search: Result<Option<config::RestApiProviderConfigurationResourcesExtraValueReadSearch>, String>,
}

impl RestApiProviderConfigurationResourcesExtraValueRead {
    /// Whether every field holds what a new builder starts with.
    pub open spec fn is_initial(&self) -> bool {
        self.method == Ok::<Option<String>, String>(None)
        && self.path == Ok::<Option<String>, String>(None)
        && self.search == Ok::<Option<config::RestApiProviderConfigurationResourcesExtraValueReadSearch>, String>(None)
    }

    /// The message of the first field, in declaration order, that holds no value.
    pub open spec fn first_error(&self) -> Option<String> {
        if let Err(m) = self.method { Some(m) } else { if let Err(m) = self.path { Some(m) } else { if let Err(m) = self.search { Some(m) } else { None } } }
    }

    /// A builder whose fields hold their defaults; a required field holds the
    /// message that no value was supplied.
    pub fn new() -> (r: Self)
        ensures
            r.is_initial(),
    {
        RestApiProviderConfigurationResourcesExtraValueRead {
            method: Ok(None),
            path: Ok(None),
            search: Ok(None),
        }
    }

    /// Sets `method`. HTTP method of the read request.
    pub fn method(self, value: Option<String>) -> (r: Self)
        ensures
            r == (RestApiProviderConfigurationResourcesExtraValueRead { method: Ok(value), ..self }),
    {
        RestApiProviderConfigurationResourcesExtraValueRead { method: Ok(value), ..self }
    }

    /// Sets `path`. Path of the read request.
    pub fn path(self, value: Option<String>) -> (r: Self)
        ensures
            r == (RestApiProviderConfigurationResourcesExtraValueRead { path: Ok(value), ..self }),
    {
        RestApiProviderConfigurationResourcesExtraValueRead { path: Ok(value), ..self }
    }

    /// Sets `search`. Search that locates the object in a list instead of fetching it directly.
    pub fn search(self, value: Option<config::RestApiProviderConfigurationResourcesExtraValueReadSearch>) -> (r: Self)
        ensures
            r == (RestApiProviderConfigurationResourcesExtraValueRead { search: Ok(value), ..self }),
    {
        RestApiProviderConfigurationResourcesExtraValueRead { search: Ok(value), ..self }
    }

    /// The configuration value, or the error of the first field that holds none.
    pub fn build(self) -> (r: Result<config::RestApiProviderConfigurationResourcesExtraValueRead, ConversionError>)
        ensures
            match self.first_error() {
                Some(m) => r == Err::<config::RestApiProviderConfigurationResourcesExtraValueRead, ConversionError>(ConversionError { message: m }),
                None => r matches Ok(c) && self.method == Ok::<Option<String>, String>(c.method) && self.path == Ok::<Option<String>, String>(c.path) && self.search == Ok::<Option<config::RestApiProviderConfigurationResourcesExtraValueReadSearch>, String>(c.search),
            },
    {
        let method = match self.method {
            Ok(v) => v,
            Err(m) => {
                return Err(ConversionError { message: m });
            },
        };
        let path = match self.path {
            Ok(v) => v,
            Err(m) => {
                return Err(ConversionError { message: m });
            },
        };
        let search = match self.search {
            Ok(v) => v,
            Err(m) => {
                return Err(ConversionError { message: m });
            },
        };
        Ok(config::RestApiProviderConfigurationResourcesExtraValueRead { method, path, search })
    }
}

impl Default for RestApiProviderConfigurationResourcesExtraValueRead {
    fn default() -> (r: Self)
        ensures
            r.is_initial(),
    {
        RestApiProviderConfigurationResourcesExtraValueRead::new()
    }
}

/// Builder of [`config::RestApiProviderConfigurationResourcesExtraValueReadSearch`]: each field holds its value, or the message
/// of why it has none.
#[derive(Debug)]
pub struct RestApiProviderConfigurationResourcesExtraValueReadSearch {
    pub query_string: Result<Option<String>, String>,
    pub results_key: Result<Option<String>, String>,
    pub search_key: Result<String, String>,
    pub search_path: Result<Option<String>, String>,
    pub search_value: Result<String, String>,
}

impl RestApiProviderConfigurationResourcesExtraValueReadSearch {
    /// Whether every field holds what a new builder starts with.
    pub open spec fn is_initial(&self) -> bool {
        self.query_string == Ok::<Option<String>, String>(None)
        && self.results_key == Ok::<Option<String>, String>(None)
        && (self.search_key matches Err(m) && m@ == "no value supplied for search_key"@)
        && self.search_path == Ok::<Option<String>, String>(None)
        && (self.search_value matches Err(m) && m@ == "no value supplied for search_value"@)
    }

    /// The message of the first field, in declaration order, that holds no value.
    pub open spec fn first_error(&self) -> Option<String> {
        if let Err(m) = self.query_string { Some(m) } else { if let Err(m) = self.results_key { Some(m) } else { if let Err(m) = self.search_key { Some(m) } else { if let Err(m) = self.search_path { Some(m) } else { if let Err(m) = self.search_value { Some(m) } else { None } } } } }
    }

    /// A builder whose fields hold their defaults; a required field holds the
    /// message that no value was supplied.
    pub fn new() -> (r: Self)
        ensures
            r.is_initial(),
    {
        RestApiProviderConfigurationResourcesExtraValueReadSearch {
            query_string: Ok(None),
            results_key: Ok(None),
            search_key: Err(String::from_str("no value supplied for search_key")),
            search_path: Ok(None),
            search_value: Err(String::from_str("no value supplied for search_value")),
        }
    }

    /// Sets `query_string`. Query string of the search request.
    pub fn query_string(self, value: Option<String>) -> (r: Self)
        ensures
            r == (RestApiProviderConfigurationResourcesExtraValueReadSearch { query_string: Ok(value), ..self }),
    {
        RestApiProviderConfigurationResourcesExtraValueReadSearch { query_string: Ok(value), ..self }
    }

    /// Sets `results_key`. Path of the list of results within the response.
    pub fn results_key(self, value: Option<String>) -> (r: Self)
        ensures
            r == (RestApiProviderConfigurationResourcesExtraValueReadSearch { results_key: Ok(value), ..self }),
    {
        RestApiProviderConfigurationResourcesExtraValueReadSearch { results_key: Ok(value), ..self }
    }

    /// Sets `search_key`. Attribute of each result that is compared; required.
    pub fn search_key(self, value: String) -> (r: Self)
        ensures
            r == (RestApiProviderConfigurationResourcesExtraValueReadSearch { search_key: Ok(value), ..self }),
    {
        RestApiProviderConfigurationResourcesExtraValueReadSearch { search_key: Ok(value), ..self }
    }

    /// Sets `search_path`. Path of the search request.
    pub fn search_path(self, value: Option<String>) -> (r: Self)
        ensures
            r == (RestApiProviderConfigurationResourcesExtraValueReadSearch { search_path: Ok(value), ..self }),
    {
        RestApiProviderConfigurationResourcesExtraValueReadSearch { search_path: Ok(value), ..self }
    }

    /// Sets `search_value`. Value that the compared attribute must have; required.
    pub fn search_value(self, value: String) -> (r: Self)
        ensures
            r == (RestApiProviderConfigurationResourcesExtraValueReadSearch { search_value: Ok(value), ..self }),
    {
        RestApiProviderConfigurationResourcesExtraValueReadSearch { search_value: Ok(value), ..self }
    }

    /// The configuration value, or the error of the first field that holds none.
    pub fn build(self) -> (r: Result<config::RestApiProviderConfigurationResourcesExtraValueReadSearch, ConversionError>)
        ensures
            match self.first_error() {
                Some(m) => r == Err::<config::RestApiProviderConfigurationResourcesExtraValueReadSearch, ConversionError>(ConversionError { message: m }),
                None => r matches Ok(c) && self.query_string == Ok::<Option<String>, String>(c.query_string) && self.results_key == Ok::<Option<String>, String>(c.results_key) && self.search_key == Ok::<String, String>(c.search_key) && self.search_path == Ok::<Option<String>, String>(c.search_path) && self.search_value == Ok::<String, String>(c.search_value),
            },
    {
        let query_string = match self.query_string {
            Ok(v) => v,
            Err(m) => {
                return Err(ConversionError { message: m });
            },
        };
        let results_key = match self.results_key {
            Ok(v) => v,
            Err(m) => {
                return Err(ConversionError { message: m });
            },
        };
        let search_key = match self.search_key {
            Ok(v) => v,
            Err(m) => {
                return Err(ConversionError { message: m });
            },
        };
        let search_path = match self.search_path {
            Ok(v) => v,
            Err(m) => {
                return Err(ConversionError { message: m });
            },
        };
        let search_value = match self.search_value {
            Ok(v) => v,
            Err(m) => {
                return Err(ConversionError { message: m });
            },
        };
        Ok(config::RestApiProviderConfigurationResourcesExtraValueReadSearch { query_string, results_key, search_key, search_path, search_value })
    }
}

impl Default for RestApiProviderConfigurationResourcesExtraValueReadSearch {
    fn default() -> (r: Self)
        ensures
            r.is_initial(),
    {
        RestApiProviderConfigurationResourcesExtraValueReadSearch::new()
    }
}

impl From<config::RestApiProviderConfiguration> for RestApiProviderConfiguration {
    /// A builder that holds every field of `value`.
    fn from(value: config::RestApiProviderConfiguration) -> (r: Self)
        ensures
            r == (RestApiProviderConfiguration { global: Ok(value.global), resources: Ok(value.resources) }),
    {
        RestApiProviderConfiguration { global: Ok(value.global), resources: Ok(value.resources) }
    }
}

impl vstd::std_specs::convert::FromSpecImpl<config::RestApiProviderConfiguration> for RestApiProviderConfiguration {
    open spec fn obeys_from_spec() -> bool {
        true
    }

    open spec fn from_spec(value: config::RestApiProviderConfiguration) -> Self {
        RestApiProviderConfiguration { global: Ok(value.global), resources: Ok(value.resources) }
    }
}

impl From<config::RestApiProviderConfigurationGlobal> for RestApiProviderConfigurationGlobal {
    /// A builder that holds every field of `value`.
    fn from(value: config::RestApiProviderConfigurationGlobal) -> (r: Self)
        ensures
            r == (RestApiProviderConfigurationGlobal { cert_file: Ok(value.cert_file), cert_string: Ok(value.cert_string), copy_keys: Ok(value.copy_keys), create_method: Ok(value.create_method), create_returns_object: Ok(value.create_returns_object), debug: Ok(value.debug), destroy_method: Ok(value.destroy_method), headers: Ok(value.headers), id_attribute: Ok(value.id_attribute), insecure: Ok(value.insecure), key_file: Ok(value.key_file), key_string: Ok(value.key_string), oauth_client_credentials: Ok(value.oauth_client_credentials), password: Ok(value.password), read_method: Ok(value.read_method), root_ca_file: Ok(value.root_ca_file), root_ca_string: Ok(value.root_ca_string), test_path: Ok(value.test_path), update_method: Ok(value.update_method), uri: Ok(value.uri), use_cookies: Ok(value.use_cookies), username: Ok(value.username), write_returns_object: Ok(value.write_returns_object), xssi_prefix: Ok(value.xssi_prefix) }),
    {
        RestApiProviderConfigurationGlobal { cert_file: Ok(value.cert_file), cert_string: Ok(value.cert_string), copy_keys: Ok(value.copy_keys), create_method: Ok(value.create_method), create_returns_object: Ok(value.create_returns_object), debug: Ok(value.debug), destroy_method: Ok(value.destroy_method), headers: Ok(value.headers), id_attribute: Ok(value.id_attribute), insecure: Ok(value.insecure), key_file: Ok(value.key_file), key_string: Ok(value.key_string), oauth_client_credentials: Ok(value.oauth_client_credentials), password: Ok(value.password), read_method: Ok(value.read_method), root_ca_file: Ok(value.root_ca_file), root_ca_string: Ok(value.root_ca_string), test_path: Ok(value.test_path), update_method: Ok(value.update_method), uri: Ok(value.uri), use_cookies: Ok(value.use_cookies), username: Ok(value.username), write_returns_object: Ok(value.write_returns_object), xssi_prefix: Ok(value.xssi_prefix) }
    }
}

impl vstd::std_specs::convert::FromSpecImpl<config::RestApiProviderConfigurationGlobal> for RestApiProviderConfigurationGlobal {
    open spec fn obeys_from_spec() -> bool {
        true
    }

    open spec fn from_spec(value: config::RestApiProviderConfigurationGlobal) -> Self {
        RestApiProviderConfigurationGlobal { cert_file: Ok(value.cert_file), cert_string: Ok(value.cert_string), copy_keys: Ok(value.copy_keys), create_method: Ok(value.create_method), create_returns_object: Ok(value.create_returns_object), debug: Ok(value.debug), destroy_method: Ok(value.destroy_method), headers: Ok(value.headers), id_attribute: Ok(value.id_attribute), insecure: Ok(value.insecure), key_file: Ok(value.key_file), key_string: Ok(value.key_string), oauth_client_credentials: Ok(value.oauth_client_credentials), password: Ok(value.password), read_method: Ok(value.read_method), root_ca_file: Ok(value.root_ca_file), root_ca_string: Ok(value.root_ca_string), test_path: Ok(value.test_path), update_method: Ok(value.update_method), uri: Ok(value.uri), use_cookies: Ok(value.use_cookies), username: Ok(value.username), write_returns_object: Ok(value.write_returns_object), xssi_prefix: Ok(value.xssi_prefix) }
    }
}

impl From<config::RestApiProviderConfigurationGlobalOauthClientCredentialsItem> for RestApiProviderConfigurationGlobalOauthClientCredentialsItem {
    /// A builder that holds every field of `value`.
    fn from(value: config::RestApiProviderConfigurationGlobalOauthClientCredentialsItem) -> (r: Self)
        ensures
            r == (RestApiProviderConfigurationGlobalOauthClientCredentialsItem { endpoint_params: Ok(value.endpoint_params), oauth_client_id: Ok(value.oauth_client_id), oauth_client_secret: Ok(value.oauth_client_secret), oauth_scopes: Ok(value.oauth_scopes), oauth_token_endpoint: Ok(value.oauth_token_endpoint) }),
    {
        RestApiProviderConfigurationGlobalOauthClientCredentialsItem { endpoint_params: Ok(value.endpoint_params), oauth_client_id: Ok(value.oauth_client_id), oauth_client_secret: Ok(value.oauth_client_secret), oauth_scopes: Ok(value.oauth_scopes), oauth_token_endpoint: Ok(value.oauth_token_endpoint) }
    }
}

impl vstd::std_specs::convert::FromSpecImpl<config::RestApiProviderConfigurationGlobalOauthClientCredentialsItem> for RestApiProviderConfigurationGlobalOauthClientCredentialsItem {
    open spec fn obeys_from_spec() -> bool {
        true
    }

    open spec fn from_spec(value: config::RestApiProviderConfigurationGlobalOauthClientCredentialsItem) -> Self {
        RestApiProviderConfigurationGlobalOauthClientCredentialsItem { endpoint_params: Ok(value.endpoint_params), oauth_client_id: Ok(value.oauth_client_id), oauth_client_secret: Ok(value.oauth_client_secret), oauth_scopes: Ok(value.oauth_scopes), oauth_token_endpoint: Ok(value.oauth_token_endpoint) }
    }
}

impl From<config::RestApiProviderConfigurationResources> for RestApiProviderConfigurationResources {
    /// A builder that holds every field of `value`.
    fn from(value: config::RestApiProviderConfigurationResources) -> (r: Self)
        ensures
            r == (RestApiProviderConfigurationResources { generate_data_source: Ok(value.generate_data_source), generate_resource: Ok(value.generate_resource), extra: Ok(value.extra) }),
    {
        RestApiProviderConfigurationResources { generate_data_source: Ok(value.generate_data_source), generate_resource: Ok(value.generate_resource), extra: Ok(value.extra) }
    }
}

impl vstd::std_specs::convert::FromSpecImpl<config::RestApiProviderConfigurationResources> for RestApiProviderConfigurationResources {
    open spec fn obeys_from_spec() -> bool {
        true
    }

    open spec fn from_spec(value: config::RestApiProviderConfigurationResources) -> Self {
        RestApiProviderConfigurationResources { generate_data_source: Ok(value.generate_data_source), generate_resource: Ok(value.generate_resource), extra: Ok(value.extra) }
    }
}

impl From<config::RestApiProviderConfigurationResourcesExtraValue> for RestApiProviderConfigurationResourcesExtraValue {
    /// A builder that holds every field of `value`.
    fn from(value: config::RestApiProviderConfigurationResourcesExtraValue) -> (r: Self)
        ensures
            r == (RestApiProviderConfigurationResourcesExtraValue { create: Ok(value.create), debug: Ok(value.debug), destroy: Ok(value.destroy), force_new: Ok(value.force_new), id_attribute: Ok(value.id_attribute), ignore_all_server_changes: Ok(value.ignore_all_server_changes), ignore_changes_to: Ok(value.ignore_changes_to), object_id: Ok(value.object_id), path: Ok(value.path), query_string: Ok(value.query_string), read: Ok(value.read), update: Ok(value.update) }),
    {
        RestApiProviderConfigurationResourcesExtraValue { create: Ok(value.create), debug: Ok(value.debug), destroy: Ok(value.destroy), force_new: Ok(value.force_new), id_attribute: Ok(value.id_attribute), ignore_all_server_changes: Ok(value.ignore_all_server_changes), ignore_changes_to: Ok(value.ignore_changes_to), object_id: Ok(value.object_id), path: Ok(value.path), query_string: Ok(value.query_string), read: Ok(value.read), update: Ok(value.update) }
    }
}

impl vstd::std_specs::convert::FromSpecImpl<config::RestApiProviderConfigurationResourcesExtraValue> for RestApiProviderConfigurationResourcesExtraValue {
    open spec fn obeys_from_spec() -> bool {
        true
    }

    open spec fn from_spec(value: config::RestApiProviderConfigurationResourcesExtraValue) -> Self {
        RestApiProviderConfigurationResourcesExtraValue { create: Ok(value.create), debug: Ok(value.debug), destroy: Ok(value.destroy), force_new: Ok(value.force_new), id_attribute: Ok(value.id_attribute), ignore_all_server_changes: Ok(value.ignore_all_server_changes), ignore_changes_to: Ok(value.ignore_changes_to), object_id: Ok(value.object_id), path: Ok(value.path), query_string: Ok(value.query_string), read: Ok(value.read), update: Ok(value.update) }
    }
}

impl From<config::RestApiProviderConfigurationResourcesExtraValueCreate> for RestApiProviderConfigurationResourcesExtraValueCreate {
    /// A builder that holds every field of `value`.
    fn from(value: config::RestApiProviderConfigurationResourcesExtraValueCreate) -> (r: Self)
        ensures
            r == (RestApiProviderConfigurationResourcesExtraValueCreate { method: Ok(value.method), path: Ok(value.path) }),
    {
        RestApiProviderConfigurationResourcesExtraValueCreate { method: Ok(value.method), path: Ok(value.path) }
    }
}

impl vstd::std_specs::convert::FromSpecImpl<config::RestApiProviderConfigurationResourcesExtraValueCreate> for RestApiProviderConfigurationResourcesExtraValueCreate {
    open spec fn obeys_from_spec() -> bool {
        true
    }

    open spec fn from_spec(value: config::RestApiProviderConfigurationResourcesExtraValueCreate) -> Self {
        RestApiProviderConfigurationResourcesExtraValueCreate { method: Ok(value.method), path: Ok(value.path) }
    }
}

impl From<config::RestApiProviderConfigurationResourcesExtraValueDestroy> for RestApiProviderConfigurationResourcesExtraValueDestroy {
    /// A builder that holds every field of `value`.
    fn from(value: config::RestApiProviderConfigurationResourcesExtraValueDestroy) -> (r: Self)
        ensures
            r == (RestApiProviderConfigurationResourcesExtraValueDestroy { method: Ok(value.method), path: Ok(value.path) }),
    {
        RestApiProviderConfigurationResourcesExtraValueDestroy { method: Ok(value.method), path: Ok(value.path) }
    }
}

impl vstd::std_specs::convert::FromSpecImpl<config::RestApiProviderConfigurationResourcesExtraValueDestroy> for RestApiProviderConfigurationResourcesExtraValueDestroy {
    open spec fn obeys_from_spec() -> bool {
        true
    }

    open spec fn from_spec(value: config::RestApiProviderConfigurationResourcesExtraValueDestroy) -> Self {
        RestApiProviderConfigurationResourcesExtraValueDestroy { method: Ok(value.method), path: Ok(value.path) }
    }
}

impl From<config::RestApiProviderConfigurationResourcesExtraValueUpdate> for RestApiProviderConfigurationResourcesExtraValueUpdate {
    /// A builder that holds every field of `value`.
    fn from(value: config::RestApiProviderConfigurationResourcesExtraValueUpdate) -> (r: Self)
        ensures
            r == (RestApiProviderConfigurationResourcesExtraValueUpdate { method: Ok(value.method), path: Ok(value.path) }),
    {
        RestApiProviderConfigurationResourcesExtraValueUpdate { method: Ok(value.method), path: Ok(value.path) }
    }
}

impl vstd::std_specs::convert::FromSpecImpl<config::RestApiProviderConfigurationResourcesExtraValueUpdate> for RestApiProviderConfigurationResourcesExtraValueUpdate {
    open spec fn obeys_from_spec() -> bool {
        true
    }

    open spec fn from_spec(value: config::RestApiProviderConfigurationResourcesExtraValueUpdate) -> Self {
        RestApiProviderConfigurationResourcesExtraValueUpdate { method: Ok(value.method), path: Ok(value.path) }
    }
}

impl From<config::RestApiProviderConfigurationResourcesExtraValueRead> for RestApiProviderConfigurationResourcesExtraValueRead {
    /// A builder that holds every field of `value`.
    fn from(value: config::RestApiProviderConfigurationResourcesExtraValueRead) -> (r: Self)
        ensures
            r == (RestApiProviderConfigurationResourcesExtraValueRead { method: Ok(value.method), path: Ok(value.path), search: Ok(value.search) }),
    {
        RestApiProviderConfigurationResourcesExtraValueRead { method: Ok(value.method), path: Ok(value.path), search: Ok(value.search) }
    }
}

impl vstd::std_specs::convert::FromSpecImpl<config::RestApiProviderConfigurationResourcesExtraValueRead> for RestApiProviderConfigurationResourcesExtraValueRead {
    open spec fn obeys_from_spec() -> bool {
        true
    }

    open spec fn from_spec(value: config::RestApiProviderConfigurationResourcesExtraValueRead) -> Self {
        RestApiProviderConfigurationResourcesExtraValueRead { method: Ok(value.method), path: Ok(value.path), search: Ok(value.search) }
    }
}

impl From<config::RestApiProviderConfigurationResourcesExtraValueReadSearch> for RestApiProviderConfigurationResourcesExtraValueReadSearch {
    /// A builder that holds every field of `value`.
    fn from(value: config::RestApiProviderConfigurationResourcesExtraValueReadSearch) -> (r: Self)
        ensures
            r == (RestApiProviderConfigurationResourcesExtraValueReadSearch { query_string: Ok(value.query_string), results_key: Ok(value.results_key), search_key: Ok(value.search_key), search_path: Ok(value.search_path), search_value: Ok(value.search_value) }),
    {
        RestApiProviderConfigurationResourcesExtraValueReadSearch { query_string: Ok(value.query_string), results_key: Ok(value.results_key), search_key: Ok(value.search_key), search_path: Ok(value.search_path), search_value: Ok(value.search_value) }
    }
}

impl vstd::std_specs::convert::FromSpecImpl<config::RestApiProviderConfigurationResourcesExtraValueReadSearch> for RestApiProviderConfigurationResourcesExtraValueReadSearch {
    open spec fn obeys_from_spec() -> bool {
        true
    }

    open spec fn from_spec(value: config::RestApiProviderConfigurationResourcesExtraValueReadSearch) -> Self {
        RestApiProviderConfigurationResourcesExtraValueReadSearch { query_string: Ok(value.query_string), results_key: Ok(value.results_key), search_key: Ok(value.search_key), search_path: Ok(value.search_path), search_value: Ok(value.search_value) }
    }
}
} // verus!
