//! From a parsed command to a decision: which remote request to send, with
//! which query parameters and headers, whether to page through it, and what
//! local narrowing to apply to the result — or which local action to take.
//!
//! Sending the planned request, rendering the result and performing local
//! actions are the caller's concern; every decision below is verified
//! against the `*_plan_ok` predicates, which pin path, query, headers,
//! paging and post-processing per command.

use vstd::prelude::*;

use crate::commands::{
    ApCommands, AppCommands, AppConfigCommands, ClientCommands, DeviceCommands,
    DeviceEnrichmentFilter, IssueCommands, SetVerifySslAction, ShowCommands,
};
use crate::issues::{build_issue_search_params, spec_search_key};

verus! {

/// First offset of a paginated listing.
pub const PAGE_OFFSET_START: u64 = 1;

/// Page size of a paginated listing.
pub const PAGE_LIMIT: u64 = 500;

/// The path of the remote token endpoint, under the service's base URL.
pub fn auth_token_path() -> (p: String)
    ensures
        p@ == "/dna/system/api/v1/auth/token"@,
{
    String::from_str("/dna/system/api/v1/auth/token")
}

/// One authenticated GET the executor is to perform.
pub struct ApiRequest {
    /// Path under the service's base URL.
    pub path: String,
    /// Query parameters.
    pub query: Vec<(String, String)>,
    /// Headers beside the token header.
    pub headers: Vec<(String, String)>,
    /// Whether to advance an offset cursor page by page until an empty
    /// page, concatenating the results.
    pub paged: bool,
}

/// What to do with the fetched devices before rendering.
pub enum PostProcess {
    /// Render the result as it came.
    Unfiltered,
    /// Keep the devices passing the filter.
    FilterList(crate::commands::DeviceListFilter),
    /// Keep the first device the filter picks.
    FindOne(crate::commands::DeviceDetailFilter),
}

/// The plan a `show` command calls for.
pub struct ShowPlan {
    /// The request to send.
    pub request: ApiRequest,
    /// The local narrowing to apply.
    pub post: PostProcess,
}

/// The plan a device command calls for: listings and details fetch the
/// full paginated device list and narrow it locally; enrichment asks the
/// enrichment endpoint for the one device, named by entity headers.
pub open spec fn device_plan_ok(subcommand: DeviceCommands, plan: ShowPlan) -> bool {
    match subcommand {
        DeviceCommands::List { filter } => plan.request.path@
            == "/dna/intent/api/v1/network-device"@ && plan.request.paged
            && plan.request.query@.len() == 0 && plan.request.headers@.len() == 0 && plan.post
            == PostProcess::FilterList(filter),
        DeviceCommands::Detail { filter } => plan.request.path@
            == "/dna/intent/api/v1/network-device"@ && plan.request.paged
            && plan.request.query@.len() == 0 && plan.request.headers@.len() == 0 && plan.post
            == PostProcess::FindOne(filter),
        DeviceCommands::Enrichment { filter } => plan.request.path@
            == "/dna/intent/api/v1/device-enrichment-details"@ && !plan.request.paged
            && plan.request.query@.len() == 0 && plan.request.headers@.len() == 2
            && plan.request.headers@[0].0@ == "entity_type"@ && plan.request.headers@[1].0@
            == "entity_value"@ && plan.post == PostProcess::Unfiltered && (match filter {
            DeviceEnrichmentFilter::Mac { mac_address } => plan.request.headers@[0].1@
                == "mac_address"@ && plan.request.headers@[1].1 == mac_address,
            DeviceEnrichmentFilter::Ip { ip_address } => plan.request.headers@[0].1@
                == "ip_address"@ && plan.request.headers@[1].1 == ip_address,
        }),
    }
}

/// The plan a client command calls for: details by MAC as a query
/// parameter, enrichment by entity headers with an optional issue category.
pub open spec fn client_plan_ok(subcommand: ClientCommands, plan: ShowPlan) -> bool {
    &&& plan.post == PostProcess::Unfiltered
    &&& !plan.request.paged
    &&& match subcommand {
        ClientCommands::Detail { mac_address } => plan.request.path@
            == "/dna/intent/api/v1/client-detail"@ && plan.request.headers@.len() == 0
            && plan.request.query@.len() == 1 && plan.request.query@[0].0@ == "macAddress"@
            && plan.request.query@[0].1 == mac_address,
        ClientCommands::Enrichment { entity_type, entity_value, issue_category } => plan.request.path@
            == "/dna/intent/api/v1/client-enrichment-details"@ && plan.request.query@.len() == 0
            && plan.request.headers@[0].0@ == "entity_type"@ && plan.request.headers@[0].1
            == entity_type && plan.request.headers@[1].0@ == "entity_value"@
            && plan.request.headers@[1].1 == entity_value && (match issue_category {
            Option::Some(category) => plan.request.headers@.len() == 3
                && plan.request.headers@[2].0@ == "issueCategory"@ && plan.request.headers@[2].1
                == category,
            Option::None => plan.request.headers@.len() == 2,
        }),
    }
}

/// The outcome an issue command calls for: the issue endpoint with the one
/// mapped search parameter, and no plan at all when a criterion is named
/// without a value.
pub open spec fn issue_plan_ok(subcommand: IssueCommands, r: Option<ShowPlan>) -> bool {
    match subcommand {
        IssueCommands::List { search_option, search_input } => {
            &&& (r is None <==> search_option is Some && search_input is None)
            &&& (r matches Some(plan) ==> plan.request.path@ == "/dna/intent/api/v1/issues"@
                && !plan.request.paged && plan.request.headers@.len() == 0 && plan.post
                == PostProcess::Unfiltered)
            &&& (search_option matches Some(o) ==> (search_input matches Some(inp) ==> (
            r matches Some(plan) && plan.request.query@.len() == 1 && plan.request.query@[0].0@
                == spec_search_key(o) && plan.request.query@[0].1 == inp)))
            &&& (search_option is None ==> (r matches Some(plan) && plan.request.query@.len()
                == 0))
        },
    }
}

/// The plan an access-point command calls for: one AP's configuration by
/// MAC, or every RF profile.
pub open spec fn ap_plan_ok(subcommand: ApCommands, plan: ShowPlan) -> bool {
    &&& plan.post == PostProcess::Unfiltered
    &&& !plan.request.paged
    &&& plan.request.headers@.len() == 0
    &&& match subcommand {
        ApCommands::Config { mac_address } => plan.request.path@
            == "/dna/intent/api/v1/wireless/accesspoint-configuration/summary"@
            && plan.request.query@.len() == 1 && plan.request.query@[0].0@ == "key"@
            && plan.request.query@[0].1 == mac_address,
        ApCommands::RfProfile => plan.request.path@ == "/dna/intent/api/v1/wireless/rf-profile"@
            && plan.request.query@.len() == 0,
    }
}

/// A plain request: the path alone, nothing else.
fn bare_request(path: &str, paged: bool) -> (r: ApiRequest)
    ensures
        r.path@ == path@,
        r.query@.len() == 0,
        r.headers@.len() == 0,
        r.paged == paged,
{
    ApiRequest {
        path: String::from_str(path),
        query: Vec::new(),
        headers: Vec::new(),
        paged,
    }
}

/// Plans a device command.
pub fn handle_device_command(subcommand: DeviceCommands) -> (plan: ShowPlan)
    ensures
        device_plan_ok(subcommand, plan),
{
    match subcommand {
        DeviceCommands::List { filter } => ShowPlan {
            request: bare_request("/dna/intent/api/v1/network-device", true),
            post: PostProcess::FilterList(filter),
        },
        DeviceCommands::Detail { filter } => ShowPlan {
            request: bare_request("/dna/intent/api/v1/network-device", true),
            post: PostProcess::FindOne(filter),
        },
        DeviceCommands::Enrichment { filter } => {
            let mut headers: Vec<(String, String)> = Vec::new();
            match filter {
                DeviceEnrichmentFilter::Mac { mac_address } => {
                    headers.push((String::from_str("entity_type"), String::from_str(
                        "mac_address",
                    )));
                    headers.push((String::from_str("entity_value"), mac_address));
                },
                DeviceEnrichmentFilter::Ip { ip_address } => {
                    headers.push((String::from_str("entity_type"), String::from_str("ip_address")));
                    headers.push((String::from_str("entity_value"), ip_address));
                },
            }
            ShowPlan {
                request: ApiRequest {
                    path: String::from_str("/dna/intent/api/v1/device-enrichment-details"),
                    query: Vec::new(),
                    headers,
                    paged: false,
                },
                post: PostProcess::Unfiltered,
            }
        },
    }
}

/// Plans a client command.
pub fn handle_client_command(subcommand: ClientCommands) -> (plan: ShowPlan)
    ensures
        client_plan_ok(subcommand, plan),
{
    match subcommand {
        ClientCommands::Detail { mac_address } => {
            let mut query: Vec<(String, String)> = Vec::new();
            query.push((String::from_str("macAddress"), mac_address));
            ShowPlan {
                request: ApiRequest {
                    path: String::from_str("/dna/intent/api/v1/client-detail"),
                    query,
                    headers: Vec::new(),
                    paged: false,
                },
                post: PostProcess::Unfiltered,
            }
        },
        ClientCommands::Enrichment { entity_type, entity_value, issue_category } => {
            let mut headers: Vec<(String, String)> = Vec::new();
            headers.push((String::from_str("entity_type"), entity_type));
            headers.push((String::from_str("entity_value"), entity_value));
            match issue_category {
                Option::Some(category) => {
                    headers.push((String::from_str("issueCategory"), category));
                },
                Option::None => {},
            }
            ShowPlan {
                request: ApiRequest {
                    path: String::from_str("/dna/intent/api/v1/client-enrichment-details"),
                    query: Vec::new(),
                    headers,
                    paged: false,
                },
                post: PostProcess::Unfiltered,
            }
        },
    }
}

/// Plans an issue listing.
pub fn handle_issue_command(subcommand: IssueCommands) -> (r: Option<ShowPlan>)
    ensures
        issue_plan_ok(subcommand, r),
{
    match subcommand {
        IssueCommands::List { search_option, search_input } => {
            match build_issue_search_params(search_option, search_input) {
                Option::Some(query) => Some(ShowPlan {
                    request: ApiRequest {
                        path: String::from_str("/dna/intent/api/v1/issues"),
                        query,
                        headers: Vec::new(),
                        paged: false,
                    },
                    post: PostProcess::Unfiltered,
                }),
                Option::None => None,
            }
        },
    }
}

/// Plans an access-point command.
pub fn handle_ap_command(subcommand: ApCommands) -> (plan: ShowPlan)
    ensures
        ap_plan_ok(subcommand, plan),
{
    match subcommand {
        ApCommands::Config { mac_address } => {
            let mut query: Vec<(String, String)> = Vec::new();
            query.push((String::from_str("key"), mac_address));
            ShowPlan {
                request: ApiRequest {
                    path: String::from_str(
                        "/dna/intent/api/v1/wireless/accesspoint-configuration/summary",
                    ),
                    query,
                    headers: Vec::new(),
                    paged: false,
                },
                post: PostProcess::Unfiltered,
            }
        },
        ApCommands::RfProfile => ShowPlan {
            request: bare_request("/dna/intent/api/v1/wireless/rf-profile", false),
            post: PostProcess::Unfiltered,
        },
    }
}

/// Plans a `show` command by dispatching to the planner of its subject;
/// each subject's plan is pinned by its own predicate, and no plan comes
/// back only for an issue search missing its value.
pub fn handle_show_command(subcommand: ShowCommands) -> (r: Option<ShowPlan>)
    ensures
        ({
            match subcommand {
                ShowCommands::Device { subcommand } => r matches Some(plan) && device_plan_ok(
                    subcommand,
                    plan,
                ),
                ShowCommands::Client { subcommand } => r matches Some(plan) && client_plan_ok(
                    subcommand,
                    plan,
                ),
                ShowCommands::Issue { subcommand } => issue_plan_ok(subcommand, r),
                ShowCommands::Ap { subcommand } => r matches Some(plan) && ap_plan_ok(
                    subcommand,
                    plan,
                ),
            }
        }),
{
    match subcommand {
        ShowCommands::Device { subcommand } => Some(handle_device_command(subcommand)),
        ShowCommands::Client { subcommand } => Some(handle_client_command(subcommand)),
        ShowCommands::Issue { subcommand } => handle_issue_command(subcommand),
        ShowCommands::Ap { subcommand } => Some(handle_ap_command(subcommand)),
    }
}

/// The local action an application command calls for.
pub enum AppAction {
    /// Delete the configuration file and the credential store.
    ResetConfig,
    /// Print the current configuration, password hidden.
    ShowConfig,
    /// Write a new service URL into the configuration.
    SetUrl {
        /// The new URL.
        url: String,
    },
    /// Write the TLS verification setting into the configuration.
    SetVerifySsl {
        /// Whether certificates are verified.
        enable: bool,
    },
    /// Replace the stored credentials, keeping the other settings.
    ResetCredentials,
    /// Update the program to the latest release.
    Update,
}

/// The action each configuration command maps to.
pub open spec fn spec_app_config_action(subcommand: AppConfigCommands) -> AppAction {
    match subcommand {
        AppConfigCommands::Reset => AppAction::ResetConfig,
        AppConfigCommands::Show => AppAction::ShowConfig,
        AppConfigCommands::SetUrl { url } => AppAction::SetUrl { url },
        AppConfigCommands::SetVerifySsl { action } => AppAction::SetVerifySsl {
            enable: action == SetVerifySslAction::Enable,
        },
        AppConfigCommands::ResetCredentials => AppAction::ResetCredentials,
    }
}

/// Decides the local action of a configuration command.
pub fn handle_app_config_command(subcommand: AppConfigCommands) -> (a: AppAction)
    ensures
        a == spec_app_config_action(subcommand),
{
    match subcommand {
        AppConfigCommands::Reset => AppAction::ResetConfig,
        AppConfigCommands::Show => AppAction::ShowConfig,
        AppConfigCommands::SetUrl { url } => AppAction::SetUrl { url },
        AppConfigCommands::SetVerifySsl { action } => AppAction::SetVerifySsl {
            enable: match action {
                SetVerifySslAction::Enable => true,
                SetVerifySslAction::Disable => false,
            },
        },
        AppConfigCommands::ResetCredentials => AppAction::ResetCredentials,
    }
}

/// The action each application command maps to.
pub open spec fn spec_app_action(subcommand: AppCommands) -> AppAction {
    match subcommand {
        AppCommands::Config { subcommand } => spec_app_config_action(subcommand),
        AppCommands::Update => AppAction::Update,
    }
}

/// Decides the local action of an application command.
pub fn handle_app_command(subcommand: AppCommands) -> (a: AppAction)
    ensures
        a == spec_app_action(subcommand),
{
    match subcommand {
        AppCommands::Config { subcommand } => handle_app_config_command(subcommand),
        AppCommands::Update => AppAction::Update,
    }
}

} // verus!
