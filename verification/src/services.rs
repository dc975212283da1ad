//! The services of the data layer.

pub mod api_client;
pub mod brew_client;
pub mod cache_entry;
pub mod cache_manager;
pub mod package_service;
pub mod prefetch_service;
pub mod selection;
pub mod store;

pub use brew_client::BrewClient;
pub use cache_manager::CacheManager;
pub use package_service::PackageService;
pub use prefetch_service::PrefetchService;
