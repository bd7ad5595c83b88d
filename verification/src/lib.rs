//! Service lifecycle orchestration: the shutdown outcomes of a set of
//! long-lived services, how they are reported, the shutdown sequence with its
//! two deadlines, and the tick bookkeeping of periodic services.

pub mod duration;
pub mod failed_service_outcomes;
pub mod registry;
pub mod report_text;
pub mod running_service;
pub mod service_shutdown_error;
pub mod service_shutdown_options;
pub mod service_shutdown_outcome;
pub mod service_shutdown_outcome_collection;
pub mod shutdown_sequence;
pub mod tick_context;

pub use failed_service_outcomes::FailedServiceOutcomes;
pub use service_shutdown_error::ServiceShutdownError;
pub use service_shutdown_options::ServiceShutdownOptions;
pub use service_shutdown_outcome::classify_service_outcome;
pub use service_shutdown_outcome::panic_payload_to_string;
pub use service_shutdown_outcome::PanicPayload;
pub use service_shutdown_outcome::ServiceShutdownOutcome;
pub use service_shutdown_outcome::ServiceShutdownOutcomeWithServiceName;
pub use service_shutdown_outcome_collection::ServiceShutdownOutcomeCollection;
pub use tick_context::FirstTickTiming;
pub use tick_context::TickContext;
