//! HTMX response headers.

pub mod hx_location;
pub mod hx_push_url;
pub mod hx_redirect;
pub mod hx_refresh;
pub mod hx_replace_url;
pub mod hx_reselect;
pub mod hx_reswap;
pub mod hx_retarget;
pub mod hx_trigger;
pub mod hx_trigger_after_settle;
pub mod hx_trigger_after_swap;
pub mod options;

pub use self::hx_location::HxLocation;
pub use self::hx_push_url::HxPushUrl;
pub use self::hx_redirect::HxRedirect;
pub use self::hx_refresh::HxRefresh;
pub use self::hx_replace_url::HxReplaceUrl;
pub use self::hx_reselect::HxReselect;
pub use self::hx_reswap::HxReswap;
pub use self::hx_retarget::HxRetarget;
pub use self::hx_trigger::HxTrigger;
pub use self::hx_trigger_after_settle::HxTriggerAfterSettle;
pub use self::hx_trigger_after_swap::HxTriggerAfterSwap;
