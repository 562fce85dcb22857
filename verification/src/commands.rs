//! The command language of the interactive shell: what a user can ask for.
//!
//! Parsing a command line into these types is the front end's concern; the
//! library receives the parsed command and decides, in `crate::handlers`,
//! which remote request or local action it calls for.

use vstd::prelude::*;

verus! {

/// A parsed command line.
pub struct Cli {
    /// The command the line named.
    pub command: Commands,
}

/// The top-level commands of the shell.
#[allow(inconsistent_fields)]
pub enum Commands {
    /// Show commands.
    Show {
        /// What to show.
        subcommand: ShowCommands,
    },
    /// Start the configuration sub-shell.
    Config,
    /// Application-level commands.
    App {
        /// Which application command.
        subcommand: AppCommands,
    },
    /// Clear the screen.
    Clear,
    /// Exit the program.
    Exit,
}

/// What to show.
#[allow(inconsistent_fields)]
pub enum ShowCommands {
    /// Device information.
    Device {
        /// Which device view.
        subcommand: DeviceCommands,
    },
    /// Client information.
    Client {
        /// Which client view.
        subcommand: ClientCommands,
    },
    /// Issues reported by the remote service.
    Issue {
        /// Which issue listing.
        subcommand: IssueCommands,
    },
    /// Access-point information.
    Ap {
        /// Which access-point view.
        subcommand: ApCommands,
    },
}

/// Device views.
#[allow(inconsistent_fields)]
pub enum DeviceCommands {
    /// List devices.
    List {
        /// How to narrow the listing.
        filter: DeviceListFilter,
    },
    /// Details of one device.
    Detail {
        /// How to pick the device.
        filter: DeviceDetailFilter,
    },
    /// Enrichment details of one device.
    Enrichment {
        /// How to pick the device.
        filter: DeviceEnrichmentFilter,
    },
}

/// How a device listing is narrowed.
pub enum DeviceListFilter {
    /// Every device.
    All,
    /// Devices whose hostname contains the given fragment (every device
    /// with a hostname, when no fragment is given).
    Hostname {
        /// Fragment to look for.
        partial_hostname: Option<String>,
    },
    /// Devices whose management IP address contains the given fragment.
    Ip {
        /// Fragment to look for.
        partial_ip: Option<String>,
    },
    /// Devices whose associated wireless controller IP contains the given
    /// fragment.
    Wlc {
        /// Fragment to look for.
        partial_wlc: Option<String>,
    },
}

/// How a single device is picked for its details.
pub enum DeviceDetailFilter {
    /// By exact hostname.
    Hostname {
        /// The hostname.
        hostname: String,
    },
    /// By exact MAC address.
    Mac {
        /// The MAC address.
        mac_address: String,
    },
    /// By exact management IP address.
    Ip {
        /// The IP address.
        ip_address: String,
    },
}

/// How a device is picked for enrichment details.
pub enum DeviceEnrichmentFilter {
    /// By MAC address.
    Mac {
        /// The MAC address.
        mac_address: String,
    },
    /// By IP address.
    Ip {
        /// The IP address.
        ip_address: String,
    },
}

/// Client views.
pub enum ClientCommands {
    /// Details of one client by MAC address.
    Detail {
        /// The client's MAC address.
        mac_address: String,
    },
    /// Enrichment by network user id or MAC address.
    Enrichment {
        /// The entity kind the value names.
        entity_type: String,
        /// The user id or MAC address.
        entity_value: String,
        /// Restrict reported issues to this category.
        issue_category: Option<String>,
    },
}

/// Issue listings.
pub enum IssueCommands {
    /// List issues matching a search criterion.
    List {
        /// Which field to search by, if any.
        search_option: Option<SearchOption>,
        /// The value to search for; required when an option is given.
        search_input: Option<String>,
    },
}

/// The fields an issue search can filter by.
#[derive(Clone, Copy, Debug, PartialEq, Eq, Structural)]
pub enum SearchOption {
    /// Start of the time window.
    StartTime,
    /// End of the time window.
    EndTime,
    /// Site identifier.
    SiteId,
    /// Device identifier.
    DeviceId,
    /// MAC address of a device or client.
    MacAddress,
    /// Issue priority.
    Priority,
    /// Whether the issue is AI-driven.
    AiDriven,
    /// Issue status.
    IssueStatus,
}

/// Access-point views.
pub enum ApCommands {
    /// Configuration of one access point by MAC address.
    Config {
        /// The access point's MAC address.
        mac_address: String,
    },
    /// Every radio-frequency profile.
    RfProfile,
}

/// Application-level commands.
pub enum AppCommands {
    /// Configuration commands.
    Config {
        /// Which configuration command.
        subcommand: AppConfigCommands,
    },
    /// Update the program to the latest release.
    Update,
}

/// Application configuration commands.
pub enum AppConfigCommands {
    /// Remove the configuration and the stored credentials.
    Reset,
    /// Show the current configuration.
    Show,
    /// Set the remote service's URL.
    SetUrl {
        /// The new URL.
        url: String,
    },
    /// Turn TLS certificate verification on or off.
    SetVerifySsl {
        /// Which way.
        action: SetVerifySslAction,
    },
    /// Replace the stored credentials, keeping the other settings.
    ResetCredentials,
}

/// The two TLS verification settings.
#[derive(Clone, Copy, Debug, PartialEq, Eq, Structural)]
pub enum SetVerifySslAction {
    /// Verify certificates.
    Enable,
    /// Accept invalid certificates.
    Disable,
}

} // verus!
