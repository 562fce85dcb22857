//! The issue model and the search parameters an issue listing sends.
//!
//! The remote's issue endpoint accepts one optional search criterion as a
//! query parameter; which field name each criterion maps to is decided and
//! verified here.

use vstd::prelude::*;

use crate::commands::SearchOption;

verus! {

/// One issue, as the issue endpoint reports it.
#[allow(non_snake_case)]
pub struct Issue {
    /// Issue identifier.
    pub issueId: Option<String>,
    /// Short name.
    pub name: Option<String>,
    /// Site the issue belongs to.
    pub siteId: Option<String>,
    /// Device the issue concerns.
    pub deviceId: Option<String>,
    /// Role of that device.
    pub deviceRole: Option<String>,
    /// Whether the issue is AI-driven.
    pub aiDriven: Option<String>,
    /// MAC address of the affected client.
    pub clientMac: Option<String>,
    /// How often the issue occurred.
    pub issue_occurence_count: Option<i32>,
    /// Status.
    pub status: Option<String>,
    /// Priority.
    pub priority: Option<String>,
    /// Category.
    pub category: Option<String>,
    /// Last occurrence, in epoch milliseconds.
    pub last_occurence_time: Option<i64>,
}

/// The issue endpoint's reply.
#[allow(non_snake_case)]
pub struct IssueListResponse {
    /// API version string.
    pub version: Option<String>,
    /// Total number of issues, as the remote states it.
    pub totalCount: Option<String>,
    /// The issues themselves.
    pub response: Option<Vec<Issue>>,
}

/// The query-parameter name a search criterion maps to.
pub open spec fn spec_search_key(option: SearchOption) -> Seq<char> {
    match option {
        SearchOption::StartTime => "startTime"@,
        SearchOption::EndTime => "endTime"@,
        SearchOption::SiteId => "siteId"@,
        SearchOption::DeviceId => "deviceId"@,
        SearchOption::MacAddress => "macAddress"@,
        SearchOption::Priority => "priority"@,
        SearchOption::AiDriven => "aiDriven"@,
        SearchOption::IssueStatus => "issueStatus"@,
    }
}

/// The query-parameter name for a search criterion.
pub fn search_option_key(option: &SearchOption) -> (k: String)
    ensures
        k@ == spec_search_key(*option),
{
    match option {
        SearchOption::StartTime => String::from_str("startTime"),
        SearchOption::EndTime => String::from_str("endTime"),
        SearchOption::SiteId => String::from_str("siteId"),
        SearchOption::DeviceId => String::from_str("deviceId"),
        SearchOption::MacAddress => String::from_str("macAddress"),
        SearchOption::Priority => String::from_str("priority"),
        SearchOption::AiDriven => String::from_str("aiDriven"),
        SearchOption::IssueStatus => String::from_str("issueStatus"),
    }
}

/// Builds the query parameters of an issue search: empty without a
/// criterion, the one mapped pair with a criterion and its value, and
/// nothing — the command is rejected — when a criterion is given without a
/// value.
pub fn build_issue_search_params(
    search_option: Option<SearchOption>,
    search_input: Option<String>,
) -> (r: Option<Vec<(String, String)>>)
    ensures
        r is None <==> search_option is Some && search_input is None,
        search_option is None ==> (r matches Some(v) ==> v@.len() == 0),
        search_option matches Some(o) ==> (search_input matches Some(inp) ==> (r matches Some(v)
            && v@.len() == 1 && v@[0].0@ == spec_search_key(o) && v@[0].1 == inp)),
{
    match search_option {
        Option::Some(option) => match search_input {
            Option::Some(input) => {
                let mut params: Vec<(String, String)> = Vec::new();
                params.push((search_option_key(&option), input));
                Some(params)
            },
            Option::None => None,
        },
        Option::None => Some(Vec::new()),
    }
}

} // verus!
