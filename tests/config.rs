use provider_codegen::config::{
    ConversionError, RestApiProviderConfiguration, RestApiProviderConfigurationGlobal,
    RestApiProviderConfigurationGlobalOauthClientCredentialsItem,
    RestApiProviderConfigurationResources, RestApiProviderConfigurationResourcesExtraValue,
    RestApiProviderConfigurationResourcesExtraValueCreate,
    RestApiProviderConfigurationResourcesExtraValueDestroy,
    RestApiProviderConfigurationResourcesExtraValueRead,
    RestApiProviderConfigurationResourcesExtraValueReadSearch,
    RestApiProviderConfigurationResourcesExtraValueUpdate,
};

#[test]
fn global_defaults_name_the_usual_methods() {
    let g = RestApiProviderConfigurationGlobal::default();
    assert_eq!(g.create_method, "POST");
    assert_eq!(g.read_method, "GET");
    assert_eq!(g.update_method, "PUT");
    assert_eq!(g.destroy_method, "DELETE");
    assert_eq!(g.id_attribute, None);
    assert!(g.headers.is_empty());
    let built = RestApiProviderConfigurationGlobal::builder().build().unwrap();
    assert_eq!(built, g);
}

#[test]
fn global_builder_sets_fields() {
    let g = RestApiProviderConfigurationGlobal::builder()
        .uri(Some("https://api.example.com".to_string()))
        .create_method("PUT".to_string())
        .headers(vec![("X-Key".to_string(), "v".to_string())])
        .insecure(Some(true))
        .build()
        .unwrap();
    assert_eq!(g.uri, Some("https://api.example.com".to_string()));
    assert_eq!(g.create_method, "PUT");
    assert_eq!(g.read_method, "GET");
    assert_eq!(g.headers, vec![("X-Key".to_string(), "v".to_string())]);
    assert_eq!(g.insecure, Some(true));
}

#[test]
fn resource_requires_a_path() {
    let err = RestApiProviderConfigurationResourcesExtraValue::builder().build().unwrap_err();
    assert_eq!(err.message(), "no value supplied for path");
    let ok = RestApiProviderConfigurationResourcesExtraValue::builder()
        .path("/pets".to_string())
        .ignore_all_server_changes(true)
        .object_id(Some("pet_id".to_string()))
        .query_string(Some("a=1".to_string()))
        .debug(Some(false))
        .build()
        .unwrap();
    assert_eq!(ok.path, "/pets");
    assert!(ok.ignore_all_server_changes);
    assert_eq!(ok.object_id, Some("pet_id".to_string()));
    assert_eq!(ok.query_string, Some("a=1".to_string()));
    assert_eq!(ok.debug, Some(false));
    assert!(ok.force_new.is_empty());
}

#[test]
fn search_requires_key_and_value() {
    let err = RestApiProviderConfigurationResourcesExtraValueReadSearch::builder().build().unwrap_err();
    assert_eq!(err.message(), "no value supplied for search_key");
    let err = RestApiProviderConfigurationResourcesExtraValueReadSearch::builder()
        .search_key("name".to_string())
        .build()
        .unwrap_err();
    assert_eq!(err.message(), "no value supplied for search_value");
    let s = RestApiProviderConfigurationResourcesExtraValueReadSearch::builder()
        .search_key("name".to_string())
        .search_value("rex".to_string())
        .search_path(Some("/pets/search".to_string()))
        .results_key(Some("data/items".to_string()))
        .query_string(Some("q=rex".to_string()))
        .build()
        .unwrap();
    assert_eq!(s.search_key, "name");
    assert_eq!(s.search_value, "rex");
    assert_eq!(s.search_path, Some("/pets/search".to_string()));
    assert_eq!(s.results_key, Some("data/items".to_string()));
    assert_eq!(s.query_string, Some("q=rex".to_string()));
}

#[test]
fn operation_builders_carry_method_and_path() {
    let c = RestApiProviderConfigurationResourcesExtraValueCreate::builder()
        .method(Some("PUT".to_string()))
        .path(Some("/a".to_string()))
        .build()
        .unwrap();
    assert_eq!(c, RestApiProviderConfigurationResourcesExtraValueCreate { method: Some("PUT".to_string()), path: Some("/a".to_string()) });
    let d = RestApiProviderConfigurationResourcesExtraValueDestroy::builder().method(Some("POST".to_string())).build().unwrap();
    assert_eq!(d.method, Some("POST".to_string()));
    assert_eq!(d.path, None);
    let u = RestApiProviderConfigurationResourcesExtraValueUpdate::builder().path(Some("/b".to_string())).build().unwrap();
    assert_eq!(u.path, Some("/b".to_string()));
    let r = RestApiProviderConfigurationResourcesExtraValueRead::builder().search(None).build().unwrap();
    assert_eq!(r, RestApiProviderConfigurationResourcesExtraValueRead::default());
    assert_eq!(RestApiProviderConfigurationResourcesExtraValueUpdate::default().method, None);
}

#[test]
fn resources_default_to_generating_everything() {
    let err = RestApiProviderConfigurationResources::builder().build().unwrap_err();
    assert_eq!(err.message(), "no value supplied for extra");
    let r = RestApiProviderConfigurationResources::builder().extra(Vec::new()).build().unwrap();
    assert!(r.generate_data_source);
    assert!(r.generate_resource);
    assert!(r.extra.is_empty());
    let ov = RestApiProviderConfigurationResourcesExtraValue::builder().path("/x".to_string()).build().unwrap();
    let r = RestApiProviderConfigurationResources::builder()
        .generate_data_source(false)
        .generate_resource(true)
        .extra(vec![("x".to_string(), ov.clone())])
        .build()
        .unwrap();
    assert!(!r.generate_data_source);
    assert_eq!(r.extra, vec![("x".to_string(), ov)]);
}

#[test]
fn oauth_item_builder() {
    let item = RestApiProviderConfigurationGlobalOauthClientCredentialsItem::builder()
        .oauth_client_id(Some("id".to_string()))
        .oauth_client_secret(Some("SECRET-REDACTED".to_string()))
        .oauth_scopes(vec!["read".to_string()])
        .oauth_token_endpoint(Some("https://auth".to_string()))
        .endpoint_params(vec![("audience".to_string(), "\"api\"".to_string())])
        .build()
        .unwrap();
    assert_eq!(item.oauth_client_id, Some("id".to_string()));
    assert_eq!(item.oauth_scopes, vec!["read".to_string()]);
    assert_eq!(item.endpoint_params.len(), 1);
    assert_eq!(RestApiProviderConfigurationGlobalOauthClientCredentialsItem::default().oauth_client_id, None);
}

#[test]
fn configuration_builder_and_errors() {
    let c = RestApiProviderConfiguration::builder()
        .global(Some(RestApiProviderConfigurationGlobal::default()))
        .resources(None)
        .build()
        .unwrap();
    assert!(c.global.is_some());
    assert!(c.resources.is_none());
    assert_eq!(RestApiProviderConfiguration::default(), RestApiProviderConfiguration { global: None, resources: None });
    let e = ConversionError::from("bad".to_string());
    assert_eq!(e.message(), "bad");
}

#[test]
fn builder_from_value_builds_it_back() {
    let ov = RestApiProviderConfigurationResourcesExtraValue::builder()
        .path("/pets".to_string())
        .force_new(vec!["name".to_string()])
        .build()
        .unwrap();
    let again = provider_codegen::builder::RestApiProviderConfigurationResourcesExtraValue::from(ov.clone()).build().unwrap();
    assert_eq!(again, ov);
    let g = RestApiProviderConfigurationGlobal::default();
    let back = provider_codegen::builder::RestApiProviderConfigurationGlobal::from(g.clone()).build().unwrap();
    assert_eq!(back, g);
}
