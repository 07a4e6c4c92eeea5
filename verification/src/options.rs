//! The connection parameters that a host gives, and the properties of the
//! remote client that follow from them.
use crate::sdk::{
    new_props, no_credentials, props_held, unknown_app_name, with_app_name, with_auth_password,
    with_auth_username, with_load_cache_at_start, with_namespace, with_push_empty_protection,
    with_server_addr, PropsView,
};
use nacos_sdk::api::props::ClientProps;
use vstd::prelude::*;

verus! {

/// Connection parameters as the host gives them. What is absent stays
/// absent here; a default is put in its place only where the value is handed
/// to the remote client.
#[derive(Clone, Debug, PartialEq, Eq)]
pub struct ClientOptions {
    /// Server address list: `address:port[,address:port]...`.
    pub server_addr: String,
    /// Namespace, also called tenant.
    pub namespace: String,
    /// Name of the application.
    pub app_name: Option<String>,
    /// User name for the login over HTTP.
    pub username: Option<String>,
    /// Password for the login over HTTP.
    pub password: Option<String>,
    /// Access key of a cloud account.
    pub access_key: Option<String>,
    /// Access secret of a cloud account.
    pub access_secret: Option<String>,
    /// Region in which a cloud signature is made.
    pub signature_region_id: Option<String>,
    /// Whether an empty membership push is ignored; on unless switched off.
    pub naming_push_empty_protection: Option<bool>,
    /// Whether the naming cache is read at start; off unless switched on.
    pub naming_load_cache_at_start: Option<bool>,
}

impl ClientOptions {
    /// The application name that the remote client is given: the host's,
    /// or `unknown`.
    pub open spec fn resolved_app_name(&self) -> Seq<char> {
        match self.app_name {
            Some(name) => name@,
            None => "unknown"@,
        }
    }

    /// Whether the client logs in: it does when both a user name and a
    /// password are given.
    pub open spec fn auth_enabled(&self) -> bool {
        self.username is Some && self.password is Some
    }

    /// The authentication context that the remote client is given.
    pub open spec fn resolved_auth_context(&self) -> Map<Seq<char>, Seq<char>> {
        if self.auth_enabled() {
            no_credentials().insert("username"@, self.username->Some_0@).insert(
                "password"@,
                self.password->Some_0@,
            )
        } else {
            no_credentials()
        }
    }

    /// Whether an empty membership push is ignored.
    pub open spec fn resolved_push_empty_protection(&self) -> bool {
        match self.naming_push_empty_protection {
            Some(enabled) => enabled,
            None => true,
        }
    }

    /// Whether the naming cache is read at start.
    pub open spec fn resolved_load_cache_at_start(&self) -> bool {
        match self.naming_load_cache_at_start {
            Some(enabled) => enabled,
            None => false,
        }
    }

    /// Whether a set of properties carries what these options resolve to
    /// for any client: addresses, namespace, application name and login.
    pub open spec fn matches_props(&self, held: PropsView) -> bool {
        &&& held.server_addr == self.server_addr@
        &&& held.namespace == self.namespace@
        &&& held.app_name == self.resolved_app_name()
        &&& held.auth_context == self.resolved_auth_context()
    }

    /// Whether a set of properties carries, beyond [`Self::matches_props`],
    /// the two flags of the naming client.
    pub open spec fn matches_naming_props(&self, held: PropsView) -> bool {
        &&& self.matches_props(held)
        &&& held.push_empty_protection == self.resolved_push_empty_protection()
        &&& held.load_cache_at_start == self.resolved_load_cache_at_start()
    }

    /// Puts the ten parameters together, each as given.
    pub fn new(
        server_addr: String,
        namespace: String,
        app_name: Option<String>,
        username: Option<String>,
        password: Option<String>,
        access_key: Option<String>,
        access_secret: Option<String>,
        signature_region_id: Option<String>,
        naming_push_empty_protection: Option<bool>,
        naming_load_cache_at_start: Option<bool>,
    ) -> (options: ClientOptions)
        ensures
            options == (ClientOptions {
                server_addr,
                namespace,
                app_name,
                username,
                password,
                access_key,
                access_secret,
                signature_region_id,
                naming_push_empty_protection,
                naming_load_cache_at_start,
            }),
    {
        ClientOptions {
            server_addr,
            namespace,
            app_name,
            username,
            password,
            access_key,
            access_secret,
            signature_region_id,
            naming_push_empty_protection,
            naming_load_cache_at_start,
        }
    }

    /// The application name handed to the remote client.
    pub fn app_name_or_default(&self) -> (name: String)
        ensures
            name@ == self.resolved_app_name(),
    {
        match &self.app_name {
            Some(name) => name.clone(),
            None => unknown_app_name(),
        }
    }

    /// Whether the client logs in with a user name and a password.
    pub fn is_auth_enabled(&self) -> (enabled: bool)
        ensures
            enabled == self.auth_enabled(),
    {
        self.username.is_some() && self.password.is_some()
    }

    /// Whether an empty membership push is ignored.
    pub fn push_empty_protection(&self) -> (enabled: bool)
        ensures
            enabled == self.resolved_push_empty_protection(),
    {
        match self.naming_push_empty_protection {
            Some(enabled) => enabled,
            None => true,
        }
    }

    /// Whether the naming cache is read at start.
    pub fn load_cache_at_start(&self) -> (enabled: bool)
        ensures
            enabled == self.resolved_load_cache_at_start(),
    {
        match self.naming_load_cache_at_start {
            Some(enabled) => enabled,
            None => false,
        }
    }

    /// The properties of a remote client for these options: the addresses
    /// and the namespace as given, the application name or its default, and
    /// the login where both of its halves are present. A user name without a
    /// password, or a password without a user name, is left out.
    pub fn client_props(&self) -> (props: ClientProps)
        ensures
            self.matches_props(props_held(props)),
    {
        let props = new_props();
        let props = with_server_addr(props, self.server_addr.clone());
        let props = with_namespace(props, self.namespace.clone());
        let props = with_app_name(props, self.app_name_or_default());
        match (&self.username, &self.password) {
            (Some(username), Some(password)) => {
                let props = with_auth_username(props, username.clone());
                with_auth_password(props, password.clone())
            },
            _ => props,
        }
    }

    /// The properties of a naming client: those of [`Self::client_props`]
    /// and the two naming flags, each resolved to its default where absent.
    pub fn naming_props(&self) -> (props: ClientProps)
        ensures
            self.matches_naming_props(props_held(props)),
    {
        let props = self.client_props();
        let props = with_push_empty_protection(props, self.push_empty_protection());
        with_load_cache_at_start(props, self.load_cache_at_start())
    }
}

} // verus!
