use vstd::prelude::*;

verus! {

/// The architect's decision on what the project needs.
#[derive(Debug, Clone, Copy, PartialEq, Eq, Structural)]
pub struct ProjectScope {
    pub is_crud_required: bool,
    pub is_user_login_and_logout: bool,
    pub is_external_urls_required: bool,
}

/// The project record that the agents of one run fill in turn.
///
/// `project_description` is set at creation and never changed; the other
/// fields go from absent to present, and `external_urls` may only shrink
/// once present. `backend_code` and `api_endpoint_schema` belong to agents
/// further down the pipeline.
#[derive(Debug, Clone)]
pub struct FactSheet {
    pub project_description: String,
    pub project_scope: Option<ProjectScope>,
    pub external_urls: Option<Vec<String>>,
    pub backend_code: Option<String>,
    pub api_endpoint_schema: Option<String>,
}

impl FactSheet {
    /// A record holding only the project description.
    pub fn new(project_description: String) -> (r: FactSheet)
        ensures
            r.project_description == project_description,
            r.project_scope is None,
            r.external_urls is None,
            r.backend_code is None,
            r.api_endpoint_schema is None,
    {
        FactSheet {
            project_description,
            project_scope: None,
            external_urls: None,
            backend_code: None,
            api_endpoint_schema: None,
        }
    }
}

} // verus!
