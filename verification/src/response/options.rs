//! Options of HTMX response headers.

pub mod events;
pub mod location_options;
pub mod swap_option;

pub use self::events::Event;
pub use self::events::Events;
pub use self::location_options::LocationOptions;
pub use self::swap_option::SwapOption;
