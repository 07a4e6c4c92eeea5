//! Client-side bridge to a Nacos configuration and naming registry.
//!
//! The crate holds the decisions of the bridge and none of its waiting:
//! which request a call turns into, what a reply means to the host, which
//! handler is owed which pushed snapshot, and in what order. The caller owns
//! the connection, the threads and the host's callables; it performs each
//! request and each call that the library hands out, and reports back what
//! came of it.
pub mod config;
pub mod dispatcher;
pub mod error;
pub mod event;
pub mod instance;
pub mod naming;
pub mod options;
pub mod registry;
pub mod sdk;

pub use config::{ConfigRequest, NacosConfigChangeListener, NacosConfigClient};
pub use dispatcher::{Delivery, Dispatcher, Handler, PushOutcome};
pub use error::{NacosError, RemoteFailure};
pub use event::{NacosConfigResponse, PushEvent, Topic};
pub use instance::{NacosServiceInstance, ServiceInstance, Weight};
pub use naming::{NacosNamingClient, NacosNamingEventListener, NamingRequest};
pub use options::ClientOptions;
pub use registry::{Subscribed, SubscriptionRegistry};
