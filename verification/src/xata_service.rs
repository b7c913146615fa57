//! Construction of the outbound requests sent to the upstream database's
//! REST API: URL assembly, headers, and the per-operation request plans.
//!
//! Nothing here performs I/O. Each operation yields an [`OutboundRequest`]
//! that describes exactly one outbound call; the unverified shell sends it
//! and hands the outcome back to the handler layer.

use vstd::prelude::*;
use vstd::string::StringExecFns;

use crate::model::ProjectRequest;

verus! {

/// Environment-derived configuration: the upstream base URL and the static
/// bearer token, loaded once at process start and passed in explicitly.
#[derive(Debug, Clone)]
pub struct Config {
    pub database_url: String,
    pub api_key: String,
}

/// The two headers every outbound request carries.
#[derive(Debug, Clone)]
pub struct Headers {
    pub content_type: String,
    pub authorization: String,
}

/// The HTTP method of an outbound request.
#[derive(Debug, Clone, Copy, PartialEq, Eq, Structural)]
pub enum HttpMethod {
    Post,
    Get,
    Put,
    Delete,
}

/// A full description of one outbound call: method, URL, headers, and the
/// request body where the operation carries one.
#[derive(Debug, Clone)]
pub struct OutboundRequest {
    pub method: HttpMethod,
    pub url: String,
    pub headers: Headers,
    pub body: Option<ProjectRequest>,
}

/// The fallback text substituted for a configuration value that is absent
/// from the environment.
pub open spec fn spec_env_fallback() -> Seq<char> {
    "Error loading env variable"@
}

/// What loading one configuration value yields: the value itself, or the
/// fallback text when the variable is absent.
pub open spec fn spec_env_loader(value: Option<Seq<char>>) -> Seq<char> {
    match value {
        Some(v) => v,
        None => spec_env_fallback(),
    }
}

/// The view of an optional string, field for field.
pub open spec fn opt_string_view(value: Option<String>) -> Option<Seq<char>> {
    match value {
        Some(v) => Some(v@),
        None => None,
    }
}

/// The URL of the Project table itself: `{base}:main/tables/Project/data`.
pub open spec fn spec_table_url(base: Seq<char>) -> Seq<char> {
    base + ":main/tables/Project/data"@
}

/// The URL of one row of the Project table:
/// `{base}:main/tables/Project/data/{id}`.
pub open spec fn spec_row_url(base: Seq<char>, id: Seq<char>) -> Seq<char> {
    base + ":main/tables/Project/data/"@ + id
}

/// The authorization header value: `Bearer {key}`.
pub open spec fn spec_bearer(key: Seq<char>) -> Seq<char> {
    "Bearer "@ + key
}

/// Whether a header set is the one every outbound request carries: a JSON
/// content type and a bearer token built from the configured key.
pub open spec fn spec_headers(h: Headers, key: Seq<char>) -> bool {
    &&& h.content_type@ == "application/json"@
    &&& h.authorization@ == spec_bearer(key)
}

/// The confirmation text synthesized after a successful delete.
pub open spec fn spec_delete_confirmation(id: Seq<char>) -> Seq<char> {
    "Project with ID: "@ + id + " deleted successfully!!"@
}

impl Config {
    /// Builds the configuration from the two environment lookups, falling
    /// back to the error text where a variable is absent.
    pub fn new(database_url: Option<String>, api_key: Option<String>) -> (c: Config)
        ensures
            c.database_url@ == spec_env_loader(opt_string_view(database_url)),
            c.api_key@ == spec_env_loader(opt_string_view(api_key)),
    {
        Config {
            database_url: XataService::env_loader(database_url),
            api_key: XataService::env_loader(api_key),
        }
    }
}

/// Builder of the outbound requests for the four Project operations.
pub struct XataService;

impl XataService {
    /// Turns one environment lookup into a configuration value, substituting
    /// the fallback text when the variable is absent.
    pub fn env_loader(value: Option<String>) -> (r: String)
        ensures
            r@ == spec_env_loader(opt_string_view(value)),
    {
        match value {
            Some(v) => v,
            None => "Error loading env variable".to_owned(),
        }
    }

    /// The headers sent on every outbound request: a JSON content type and
    /// the static bearer token.
    pub fn create_headers(api_key: &String) -> (h: Headers)
        ensures
            spec_headers(h, api_key@),
    {
        Headers {
            content_type: "application/json".to_owned(),
            authorization: "Bearer ".to_owned().concat(api_key.as_str()),
        }
    }

    /// The URL of the Project table.
    pub fn table_url(base: &String) -> (r: String)
        ensures
            r@ == spec_table_url(base@),
    {
        base.clone().concat(":main/tables/Project/data")
    }

    /// The URL of the row holding one Project.
    pub fn row_url(base: &String, id: &String) -> (r: String)
        ensures
            r@ == spec_row_url(base@, id@),
    {
        base.clone().concat(":main/tables/Project/data/").concat(id.as_str())
    }

    /// The outbound request that creates a Project: a POST of the request
    /// body against the table URL.
    pub fn create_project(config: &Config, new_project: ProjectRequest) -> (r: OutboundRequest)
        ensures
            r.method is Post,
            r.url@ == spec_table_url(config.database_url@),
            spec_headers(r.headers, config.api_key@),
            r.body matches Some(b) && b@ == new_project@,
    {
        OutboundRequest {
            method: HttpMethod::Post,
            url: XataService::table_url(&config.database_url),
            headers: XataService::create_headers(&config.api_key),
            body: Some(new_project),
        }
    }

    /// The outbound request that fetches one Project: a bodiless GET against
    /// the row URL.
    pub fn get_project(config: &Config, project_id: &String) -> (r: OutboundRequest)
        ensures
            r.method is Get,
            r.url@ == spec_row_url(config.database_url@, project_id@),
            spec_headers(r.headers, config.api_key@),
            r.body is None,
    {
        OutboundRequest {
            method: HttpMethod::Get,
            url: XataService::row_url(&config.database_url, project_id),
            headers: XataService::create_headers(&config.api_key),
            body: None,
        }
    }

    /// The outbound request that updates one Project: a PUT of the request
    /// body against the row URL.
    pub fn update_project(
        config: &Config,
        updated_project: ProjectRequest,
        project_id: &String,
    ) -> (r: OutboundRequest)
        ensures
            r.method is Put,
            r.url@ == spec_row_url(config.database_url@, project_id@),
            spec_headers(r.headers, config.api_key@),
            r.body matches Some(b) && b@ == updated_project@,
    {
        OutboundRequest {
            method: HttpMethod::Put,
            url: XataService::row_url(&config.database_url, project_id),
            headers: XataService::create_headers(&config.api_key),
            body: Some(updated_project),
        }
    }

    /// The outbound request that deletes one Project: a bodiless DELETE
    /// against the row URL.
    pub fn delete_project(config: &Config, project_id: &String) -> (r: OutboundRequest)
        ensures
            r.method is Delete,
            r.url@ == spec_row_url(config.database_url@, project_id@),
            spec_headers(r.headers, config.api_key@),
            r.body is None,
    {
        OutboundRequest {
            method: HttpMethod::Delete,
            url: XataService::row_url(&config.database_url, project_id),
            headers: XataService::create_headers(&config.api_key),
            body: None,
        }
    }

    /// The confirmation text returned to the caller after a successful
    /// delete; it embeds the requested identifier.
    pub fn delete_confirmation(project_id: &String) -> (r: String)
        ensures
            r@ == spec_delete_confirmation(project_id@),
    {
        "Project with ID: "
            .to_owned()
            .concat(project_id.as_str())
            .concat(" deleted successfully!!")
    }
}

} // verus!
