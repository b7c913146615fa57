use xata_proxy::model::ProjectRequest;
use xata_proxy::xata_service::{Config, HttpMethod, XataService};

fn sample_config() -> Config {
    Config {
        database_url: "https://db.example.com/db/demo".to_string(),
        api_key: "api-key-123".to_string(),
    }
}

fn sample_request() -> ProjectRequest {
    ProjectRequest {
        name: "website".to_string(),
        description: "company site".to_string(),
        status: "active".to_string(),
    }
}

#[test]
fn env_loader_returns_the_present_value() {
    let v = XataService::env_loader(Some("https://db.example.com".to_string()));
    assert_eq!(v, "https://db.example.com");
}

#[test]
fn env_loader_substitutes_fallback_for_missing_value() {
    let v = XataService::env_loader(None);
    assert_eq!(v, "Error loading env variable");
}

#[test]
fn config_new_loads_both_values() {
    let c = Config::new(
        Some("https://db.example.com".to_string()),
        Some("k123".to_string()),
    );
    assert_eq!(c.database_url, "https://db.example.com");
    assert_eq!(c.api_key, "k123");
}

#[test]
fn config_new_falls_back_on_missing_values() {
    let c = Config::new(None, None);
    assert_eq!(c.database_url, "Error loading env variable");
    assert_eq!(c.api_key, "Error loading env variable");
}

#[test]
fn table_url_is_base_plus_fixed_path() {
    let u = XataService::table_url(&"https://db.example.com/db/demo".to_string());
    assert_eq!(u, "https://db.example.com/db/demo:main/tables/Project/data");
}

#[test]
fn row_url_appends_the_identifier() {
    let u = XataService::row_url(
        &"https://db.example.com/db/demo".to_string(),
        &"rec_42".to_string(),
    );
    assert_eq!(u, "https://db.example.com/db/demo:main/tables/Project/data/rec_42");
}

#[test]
fn headers_carry_json_content_type_and_bearer_token() {
    let h = XataService::create_headers(&"api-key-123".to_string());
    assert_eq!(h.content_type, "application/json");
    assert_eq!(h.authorization, "Bearer api-key-123");
}

#[test]
fn create_request_is_a_post_with_the_body() {
    let cfg = sample_config();
    let req = XataService::create_project(&cfg, sample_request());
    assert_eq!(req.method, HttpMethod::Post);
    assert_eq!(req.url, "https://db.example.com/db/demo:main/tables/Project/data");
    assert_eq!(req.headers.authorization, "Bearer api-key-123");
    let body = req.body.expect("a create carries a body");
    assert_eq!(body.name, "website");
    assert_eq!(body.description, "company site");
    assert_eq!(body.status, "active");
}

#[test]
fn get_request_is_a_bodiless_get_on_the_row() {
    let cfg = sample_config();
    let req = XataService::get_project(&cfg, &"rec_42".to_string());
    assert_eq!(req.method, HttpMethod::Get);
    assert_eq!(req.url, "https://db.example.com/db/demo:main/tables/Project/data/rec_42");
    assert!(req.body.is_none());
}

#[test]
fn update_request_is_a_put_with_the_body() {
    let cfg = sample_config();
    let req = XataService::update_project(&cfg, sample_request(), &"rec_42".to_string());
    assert_eq!(req.method, HttpMethod::Put);
    assert_eq!(req.url, "https://db.example.com/db/demo:main/tables/Project/data/rec_42");
    assert_eq!(req.body.expect("an update carries a body").name, "website");
}

#[test]
fn delete_request_is_a_bodiless_delete_on_the_row() {
    let cfg = sample_config();
    let req = XataService::delete_project(&cfg, &"rec_42".to_string());
    assert_eq!(req.method, HttpMethod::Delete);
    assert_eq!(req.url, "https://db.example.com/db/demo:main/tables/Project/data/rec_42");
    assert!(req.body.is_none());
}

#[test]
fn delete_confirmation_embeds_the_identifier() {
    let s = XataService::delete_confirmation(&"rec_42".to_string());
    assert_eq!(s, "Project with ID: rec_42 deleted successfully!!");
    assert!(s.contains("rec_42"));
}
