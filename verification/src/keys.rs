//! Names of the translation keys for the user-visible texts of the registry.
//! The matching `.ftl` files live at `fs-i18n/locales/{lang}/registry.ftl`.
use vstd::prelude::*;

verus! {

// ── Status ───────────────────────────────────────────────────────────────────

/// CLI listing header.
pub const CLI_LISTING_HEADER: &'static str = "registry-cli-listing-header";

/// Shown when no services are registered.
pub const CLI_NO_SERVICES: &'static str = "registry-cli-no-services";

/// Endpoint lookup result (variables: `capability`, `endpoint`).
pub const CLI_ENDPOINT_FOUND: &'static str = "registry-cli-endpoint-found";

/// Endpoint not found for capability (variable: `capability`).
pub const CLI_ENDPOINT_NOT_FOUND: &'static str = "registry-cli-endpoint-not-found";

// ── Errors ───────────────────────────────────────────────────────────────────

/// Database error (variable: `reason`).
pub const ERROR_DATABASE: &'static str = "registry-error-database";

/// Entry not found (variable: `id`).
pub const ERROR_NOT_FOUND: &'static str = "registry-error-not-found";

/// JSON serialisation error (variable: `reason`).
pub const ERROR_JSON: &'static str = "registry-error-json";

// ── Info ─────────────────────────────────────────────────────────────────────

/// Service registered (variables: `name`, `capability`).
pub const INFO_REGISTERED: &'static str = "registry-info-registered";

/// Service unregistered (variable: `name`).
pub const INFO_UNREGISTERED: &'static str = "registry-info-unregistered";

/// Server started (variables: `grpc`, `rest`).
pub const INFO_SERVER_STARTED: &'static str = "registry-info-server-started";

} // verus!
