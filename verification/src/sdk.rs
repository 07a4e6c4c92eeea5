//! The boundary with the `nacos_sdk` crate.
//!
//! Every statement in this file is taken on trust from the SDK's source. The
//! rest of the crate is proved against these statements and touches the SDK
//! through nothing else.
use crate::error::RemoteFailure;
use nacos_sdk::api::config::{ConfigResponse, ConfigServiceBuilder};
use nacos_sdk::api::error::Error;
use nacos_sdk::api::naming::NamingServiceBuilder;
use nacos_sdk::api::props::ClientProps;
use vstd::prelude::*;

verus! {

#[verifier::external_type_specification]
#[verifier::external_body]
pub struct ExError(nacos_sdk::api::error::Error);

#[verifier::external_type_specification]
#[verifier::external_body]
pub struct ExConfigResponse(nacos_sdk::api::config::ConfigResponse);

#[verifier::external_type_specification]
#[verifier::external_body]
pub struct ExClientProps(nacos_sdk::api::props::ClientProps);

#[verifier::external_type_specification]
#[verifier::external_body]
pub struct ExConfigServiceBuilder(nacos_sdk::api::config::ConfigServiceBuilder);

#[verifier::external_type_specification]
#[verifier::external_body]
pub struct ExNamingServiceBuilder(nacos_sdk::api::naming::NamingServiceBuilder);

/// What a set of connection properties holds, as far as this crate writes
/// it. These are the stored values: the SDK may still prefer a variable of
/// the process environment over them when it connects.
pub struct PropsView {
    pub server_addr: Seq<char>,
    pub namespace: Seq<char>,
    pub app_name: Seq<char>,
    pub auth_context: Map<Seq<char>, Seq<char>>,
    pub push_empty_protection: bool,
    pub load_cache_at_start: bool,
}

/// The authentication context of a client that does not log in.
pub open spec fn no_credentials() -> Map<Seq<char>, Seq<char>> {
    Map::empty()
}

/// The values stored in a `ClientProps`.
pub uninterp spec fn props_held(props: ClientProps) -> PropsView;

/// The properties that a builder of the configuration service was made with.
pub uninterp spec fn config_builder_props(builder: ConfigServiceBuilder) -> PropsView;

/// Whether a builder of the configuration service logs in over HTTP.
pub uninterp spec fn config_builder_http_auth(builder: ConfigServiceBuilder) -> bool;

/// The properties that a builder of the naming service was made with.
pub uninterp spec fn naming_builder_props(builder: NamingServiceBuilder) -> PropsView;

/// Whether a builder of the naming service logs in over HTTP.
pub uninterp spec fn naming_builder_http_auth(builder: NamingServiceBuilder) -> bool;

/// The variant of an SDK error, where it is one that the server or the
/// request itself caused.
pub uninterp spec fn request_failure_of(err: Error) -> Option<RemoteFailure>;

/// The variant of an SDK error, where it is one of the connection.
pub uninterp spec fn link_failure_of(err: Error) -> RemoteFailure;

/// The `Debug` rendering of an SDK error.
pub uninterp spec fn failure_text_of(err: Error) -> Seq<char>;

/// The namespace that a response of the SDK carries.
pub uninterp spec fn response_namespace(resp: ConfigResponse) -> Seq<char>;

/// The data id that a response of the SDK carries.
pub uninterp spec fn response_data_id(resp: ConfigResponse) -> Seq<char>;

/// The group that a response of the SDK carries.
pub uninterp spec fn response_group(resp: ConfigResponse) -> Seq<char>;

/// The content that a response of the SDK carries.
pub uninterp spec fn response_content(resp: ConfigResponse) -> Seq<char>;

/// The content type that a response of the SDK carries.
pub uninterp spec fn response_content_type(resp: ConfigResponse) -> Seq<char>;

/// The checksum that a response of the SDK carries.
pub uninterp spec fn response_md5(resp: ConfigResponse) -> Seq<char>;

/// Tells apart the variants of `nacos_sdk::api::error::Error` that a
/// request or the server's answer to it gives rise to; every other variant
/// comes out as `None`.
#[verifier::external_body]
pub(crate) fn request_failure(err: &Error) -> (kind: Option<RemoteFailure>)
    ensures
        kind == request_failure_of(*err),
{
    match err {
        Error::Serialization(_) => Some(RemoteFailure::Serialization),
        Error::ErrResult(_) => Some(RemoteFailure::ErrResult),
        Error::InvalidParam(_, _) => Some(RemoteFailure::InvalidParam),
        Error::ErrResponse(_, _, _, _) => Some(RemoteFailure::ErrResponse),
        Error::ConfigNotFound(_) => Some(RemoteFailure::ConfigNotFound),
        Error::ConfigQueryConflict(_) => Some(RemoteFailure::ConfigQueryConflict),
        _ => None,
    }
}

/// Tells apart the variants of `nacos_sdk::api::error::Error` that speak of
/// the connection. The enum is open to new variants: one that this crate
/// does not know, the retired retry variant, and the variants that
/// [`request_failure`] names come out as `Other`.
#[verifier::external_body]
pub(crate) fn link_failure(err: &Error) -> (kind: RemoteFailure)
    ensures
        kind == link_failure_of(*err),
{
    match err {
        Error::ClientShutdown(_) => RemoteFailure::ClientShutdown,
        Error::ClientUnhealthy(_) => RemoteFailure::ClientUnhealthy,
        Error::TonicGrpcTransport(_) => RemoteFailure::GrpcTransport,
        Error::TonicGrpcStatus(_) => RemoteFailure::GrpcStatus,
        Error::GrpcBufferRequest(_) => RemoteFailure::GrpcBufferRequest,
        Error::NoAvailableServer => RemoteFailure::NoAvailableServer,
        Error::WrongServerAddress(_) => RemoteFailure::WrongServerAddress,
        _ => RemoteFailure::Other,
    }
}

/// Renders an SDK error with its derived `Debug` impl, the form in which the
/// remote side's detail reaches the host.
#[verifier::external_body]
pub(crate) fn failure_text(err: &Error) -> (text: String)
    ensures
        text@ == failure_text_of(*err),
{
    format!("{:?}", err)
}

/// `ConfigResponse::namespace` hands out the response's namespace.
#[verifier::external_body]
pub(crate) fn namespace_of(resp: &ConfigResponse) -> (text: String)
    ensures
        text@ == response_namespace(*resp),
{
    resp.namespace().clone()
}

/// `ConfigResponse::data_id` hands out the response's data id.
#[verifier::external_body]
pub(crate) fn data_id_of(resp: &ConfigResponse) -> (text: String)
    ensures
        text@ == response_data_id(*resp),
{
    resp.data_id().clone()
}

/// `ConfigResponse::group` hands out the response's group.
#[verifier::external_body]
pub(crate) fn group_of(resp: &ConfigResponse) -> (text: String)
    ensures
        text@ == response_group(*resp),
{
    resp.group().clone()
}

/// `ConfigResponse::content` hands out the response's content.
#[verifier::external_body]
pub(crate) fn content_of(resp: &ConfigResponse) -> (text: String)
    ensures
        text@ == response_content(*resp),
{
    resp.content().clone()
}

/// `ConfigResponse::content_type` hands out the response's content type.
#[verifier::external_body]
pub(crate) fn content_type_of(resp: &ConfigResponse) -> (text: String)
    ensures
        text@ == response_content_type(*resp),
{
    resp.content_type().clone()
}

/// `ConfigResponse::md5` hands out the response's checksum.
#[verifier::external_body]
pub(crate) fn md5_of(resp: &ConfigResponse) -> (text: String)
    ensures
        text@ == response_md5(*resp),
{
    resp.md5().clone()
}

/// `nacos_sdk::api::constants::UNKNOWN`, the application name of a client
/// that gives none: the text `unknown`.
#[verifier::external_body]
pub(crate) fn unknown_app_name() -> (text: String)
    ensures
        text@ == "unknown"@,
{
    nacos_sdk::api::constants::UNKNOWN.to_string()
}

/// `ClientProps::new` starts with an empty authentication context.
#[verifier::external_body]
pub(crate) fn new_props() -> (made: ClientProps)
    ensures
        props_held(made).auth_context == no_credentials(),
{
    ClientProps::new()
}

/// `ClientProps::server_addr` stores the address list and nothing else.
#[verifier::external_body]
pub(crate) fn with_server_addr(props: ClientProps, server_addr: String) -> (out: ClientProps)
    ensures
        props_held(out) == (PropsView { server_addr: server_addr@, ..props_held(props) }),
{
    props.server_addr(server_addr)
}

/// `ClientProps::namespace` stores the namespace and nothing else.
#[verifier::external_body]
pub(crate) fn with_namespace(props: ClientProps, namespace: String) -> (out: ClientProps)
    ensures
        props_held(out) == (PropsView { namespace: namespace@, ..props_held(props) }),
{
    props.namespace(namespace)
}

/// `ClientProps::app_name` stores the application name and nothing else.
#[verifier::external_body]
pub(crate) fn with_app_name(props: ClientProps, app_name: String) -> (out: ClientProps)
    ensures
        props_held(out) == (PropsView { app_name: app_name@, ..props_held(props) }),
{
    props.app_name(app_name)
}

/// `ClientProps::auth_username` puts the user name into the authentication
/// context under the key `username`.
#[verifier::external_body]
pub(crate) fn with_auth_username(props: ClientProps, username: String) -> (out: ClientProps)
    ensures
        props_held(out) == (PropsView {
            auth_context: props_held(props).auth_context.insert("username"@, username@),
            ..props_held(props)
        }),
{
    props.auth_username(username)
}

/// `ClientProps::auth_password` puts the password into the authentication
/// context under the key `password`.
#[verifier::external_body]
pub(crate) fn with_auth_password(props: ClientProps, password: String) -> (out: ClientProps)
    ensures
        props_held(out) == (PropsView {
            auth_context: props_held(props).auth_context.insert("password"@, password@),
            ..props_held(props)
        }),
{
    props.auth_password(password)
}

/// `ClientProps::naming_push_empty_protection` stores the flag and nothing
/// else.
#[verifier::external_body]
pub(crate) fn with_push_empty_protection(props: ClientProps, enabled: bool) -> (out: ClientProps)
    ensures
        props_held(out) == (PropsView { push_empty_protection: enabled, ..props_held(props) }),
{
    props.naming_push_empty_protection(enabled)
}

/// `ClientProps::naming_load_cache_at_start` stores the flag and nothing
/// else.
#[verifier::external_body]
pub(crate) fn with_load_cache_at_start(props: ClientProps, enabled: bool) -> (out: ClientProps)
    ensures
        props_held(out) == (PropsView { load_cache_at_start: enabled, ..props_held(props) }),
{
    props.naming_load_cache_at_start(enabled)
}

/// `ConfigServiceBuilder::new` keeps the properties and has no
/// authentication plugin.
#[verifier::external_body]
pub(crate) fn config_builder(props: ClientProps) -> (builder: ConfigServiceBuilder)
    ensures
        config_builder_props(builder) == props_held(props),
        !config_builder_http_auth(builder),
{
    ConfigServiceBuilder::new(props)
}

/// `ConfigServiceBuilder::enable_auth_plugin_http` installs the HTTP login
/// plugin and keeps the properties.
#[verifier::external_body]
pub(crate) fn config_builder_with_http_auth(builder: ConfigServiceBuilder) -> (out:
    ConfigServiceBuilder)
    ensures
        config_builder_props(out) == config_builder_props(builder),
        config_builder_http_auth(out),
{
    builder.enable_auth_plugin_http()
}

/// `NamingServiceBuilder::new` keeps the properties and has no
/// authentication plugin.
#[verifier::external_body]
pub(crate) fn naming_builder(props: ClientProps) -> (builder: NamingServiceBuilder)
    ensures
        naming_builder_props(builder) == props_held(props),
        !naming_builder_http_auth(builder),
{
    NamingServiceBuilder::new(props)
}

/// `NamingServiceBuilder::enable_auth_plugin_http` installs the HTTP login
/// plugin and keeps the properties.
#[verifier::external_body]
pub(crate) fn naming_builder_with_http_auth(builder: NamingServiceBuilder) -> (out:
    NamingServiceBuilder)
    ensures
        naming_builder_props(out) == naming_builder_props(builder),
        naming_builder_http_auth(out),
{
    builder.enable_auth_plugin_http()
}

} // verus!
