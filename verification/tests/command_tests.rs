use catalysh::commands::{
    ApCommands, AppCommands, AppConfigCommands, ClientCommands, DeviceCommands,
    DeviceDetailFilter, DeviceEnrichmentFilter, DeviceListFilter, IssueCommands, SearchOption,
    SetVerifySslAction, ShowCommands,
};
use catalysh::config::Config;
use catalysh::handlers::{
    auth_token_path, handle_app_command, handle_show_command, AppAction, PostProcess,
    PAGE_LIMIT, PAGE_OFFSET_START,
};
use catalysh::issues::{build_issue_search_params, search_option_key};

#[test]
fn device_list_plan_is_paged_network_device() {
    let plan = handle_show_command(ShowCommands::Device {
        subcommand: DeviceCommands::List {
            filter: DeviceListFilter::Hostname {
                partial_hostname: Some("edge".to_string()),
            },
        },
    })
    .unwrap();
    assert_eq!(plan.request.path, "/dna/intent/api/v1/network-device");
    assert!(plan.request.paged);
    assert!(plan.request.query.is_empty());
    assert!(plan.request.headers.is_empty());
    match plan.post {
        PostProcess::FilterList(DeviceListFilter::Hostname { partial_hostname }) => {
            assert_eq!(partial_hostname.unwrap(), "edge");
        }
        _ => panic!("wrong post-processing"),
    }
}

#[test]
fn device_detail_plan_finds_locally() {
    let plan = handle_show_command(ShowCommands::Device {
        subcommand: DeviceCommands::Detail {
            filter: DeviceDetailFilter::Mac {
                mac_address: "aa:bb".to_string(),
            },
        },
    })
    .unwrap();
    assert!(plan.request.paged);
    match plan.post {
        PostProcess::FindOne(DeviceDetailFilter::Mac { mac_address }) => {
            assert_eq!(mac_address, "aa:bb");
        }
        _ => panic!("wrong post-processing"),
    }
}

#[test]
fn device_enrichment_plan_uses_entity_headers() {
    let plan = handle_show_command(ShowCommands::Device {
        subcommand: DeviceCommands::Enrichment {
            filter: DeviceEnrichmentFilter::Ip {
                ip_address: "10.0.0.1".to_string(),
            },
        },
    })
    .unwrap();
    assert_eq!(plan.request.path, "/dna/intent/api/v1/device-enrichment-details");
    assert!(!plan.request.paged);
    assert_eq!(
        plan.request.headers,
        vec![
            ("entity_type".to_string(), "ip_address".to_string()),
            ("entity_value".to_string(), "10.0.0.1".to_string())
        ]
    );
}

#[test]
fn client_detail_plan_queries_by_mac() {
    let plan = handle_show_command(ShowCommands::Client {
        subcommand: ClientCommands::Detail {
            mac_address: "aa:bb:cc".to_string(),
        },
    })
    .unwrap();
    assert_eq!(plan.request.path, "/dna/intent/api/v1/client-detail");
    assert_eq!(
        plan.request.query,
        vec![("macAddress".to_string(), "aa:bb:cc".to_string())]
    );
}

#[test]
fn client_enrichment_plan_carries_optional_category() {
    let plan = handle_show_command(ShowCommands::Client {
        subcommand: ClientCommands::Enrichment {
            entity_type: "network_user_id".to_string(),
            entity_value: "user1".to_string(),
            issue_category: Some("onboarding".to_string()),
        },
    })
    .unwrap();
    assert_eq!(plan.request.path, "/dna/intent/api/v1/client-enrichment-details");
    assert_eq!(plan.request.headers.len(), 3);
    assert_eq!(
        plan.request.headers[2],
        ("issueCategory".to_string(), "onboarding".to_string())
    );
}

#[test]
fn issue_plan_maps_search_option() {
    let plan = handle_show_command(ShowCommands::Issue {
        subcommand: IssueCommands::List {
            search_option: Some(SearchOption::MacAddress),
            search_input: Some("aa:bb".to_string()),
        },
    })
    .unwrap();
    assert_eq!(plan.request.path, "/dna/intent/api/v1/issues");
    assert_eq!(
        plan.request.query,
        vec![("macAddress".to_string(), "aa:bb".to_string())]
    );
}

#[test]
fn issue_search_without_input_is_rejected() {
    let r = handle_show_command(ShowCommands::Issue {
        subcommand: IssueCommands::List {
            search_option: Some(SearchOption::Priority),
            search_input: None,
        },
    });
    assert!(r.is_none());
}

#[test]
fn issue_search_keys_are_exact() {
    assert_eq!(search_option_key(&SearchOption::StartTime), "startTime");
    assert_eq!(search_option_key(&SearchOption::EndTime), "endTime");
    assert_eq!(search_option_key(&SearchOption::SiteId), "siteId");
    assert_eq!(search_option_key(&SearchOption::DeviceId), "deviceId");
    assert_eq!(search_option_key(&SearchOption::MacAddress), "macAddress");
    assert_eq!(search_option_key(&SearchOption::Priority), "priority");
    assert_eq!(search_option_key(&SearchOption::AiDriven), "aiDriven");
    assert_eq!(search_option_key(&SearchOption::IssueStatus), "issueStatus");
}

#[test]
fn issue_search_without_option_sends_no_params() {
    let params = build_issue_search_params(None, Some("ignored".to_string())).unwrap();
    assert!(params.is_empty());
}

#[test]
fn ap_config_plan_queries_by_key() {
    let plan = handle_show_command(ShowCommands::Ap {
        subcommand: ApCommands::Config {
            mac_address: "de:ad".to_string(),
        },
    })
    .unwrap();
    assert_eq!(
        plan.request.path,
        "/dna/intent/api/v1/wireless/accesspoint-configuration/summary"
    );
    assert_eq!(plan.request.query, vec![("key".to_string(), "de:ad".to_string())]);
}

#[test]
fn rf_profile_plan_is_plain_get() {
    let plan = handle_show_command(ShowCommands::Ap {
        subcommand: ApCommands::RfProfile,
    })
    .unwrap();
    assert_eq!(plan.request.path, "/dna/intent/api/v1/wireless/rf-profile");
    assert!(!plan.request.paged);
    assert!(plan.request.query.is_empty());
}

#[test]
fn app_commands_map_to_actions() {
    assert!(matches!(
        handle_app_command(AppCommands::Update),
        AppAction::Update
    ));
    assert!(matches!(
        handle_app_command(AppCommands::Config {
            subcommand: AppConfigCommands::Reset
        }),
        AppAction::ResetConfig
    ));
    assert!(matches!(
        handle_app_command(AppCommands::Config {
            subcommand: AppConfigCommands::Show
        }),
        AppAction::ShowConfig
    ));
    match handle_app_command(AppCommands::Config {
        subcommand: AppConfigCommands::SetUrl {
            url: "https://dnac.example.com".to_string(),
        },
    }) {
        AppAction::SetUrl { url } => assert_eq!(url, "https://dnac.example.com"),
        _ => panic!("wrong action"),
    }
    assert!(matches!(
        handle_app_command(AppCommands::Config {
            subcommand: AppConfigCommands::SetVerifySsl {
                action: SetVerifySslAction::Enable
            }
        }),
        AppAction::SetVerifySsl { enable: true }
    ));
    assert!(matches!(
        handle_app_command(AppCommands::Config {
            subcommand: AppConfigCommands::SetVerifySsl {
                action: SetVerifySslAction::Disable
            }
        }),
        AppAction::SetVerifySsl { enable: false }
    ));
    assert!(matches!(
        handle_app_command(AppCommands::Config {
            subcommand: AppConfigCommands::ResetCredentials
        }),
        AppAction::ResetCredentials
    ));
}

#[test]
fn auth_token_endpoint_path_is_fixed() {
    assert_eq!(auth_token_path(), "/dna/system/api/v1/auth/token");
}

#[test]
fn pagination_constants_match_the_remote_convention() {
    assert_eq!(PAGE_OFFSET_START, 1);
    assert_eq!(PAGE_LIMIT, 500);
}

#[test]
fn config_new_keeps_fields() {
    let cfg = Config::new(
        "https://dnac.example.com".to_string(),
        "alice".to_string(),
        true,
    );
    assert_eq!(cfg.dnac_url, "https://dnac.example.com");
    assert_eq!(cfg.username, "alice");
    assert!(cfg.verify_ssl);
}
