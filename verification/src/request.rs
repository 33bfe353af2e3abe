//! HTMX request headers.

pub mod hx_boosted;
pub mod hx_current_url;
pub mod hx_history_restore_request;
pub mod hx_preload;
pub mod hx_prompt;
pub mod hx_request;
pub mod hx_request_type;
pub mod hx_source;
pub mod hx_target;
pub mod hx_trigger;
pub mod hx_trigger_name;

pub use self::hx_boosted::HxBoosted;
pub use self::hx_current_url::HxCurrentUrl;
pub use self::hx_history_restore_request::HxHistoryRestoreRequest;
pub use self::hx_preload::HxPreload;
pub use self::hx_prompt::HxPrompt;
pub use self::hx_request::HxRequest;
pub use self::hx_request_type::HxRequestType;
pub use self::hx_source::HxSource;
pub use self::hx_target::HxTarget;
pub use self::hx_trigger::HxTrigger;
pub use self::hx_trigger_name::HxTriggerName;
