//! Topics and the snapshots that the server pushes for them.
use crate::error::{NacosError, NacosErrorView};
use crate::instance::{host_views, NacosServiceInstance, NacosServiceInstanceView};
use crate::sdk::{
    content_of, content_type_of, data_id_of, group_of, md5_of, namespace_of, response_content,
    response_content_type, response_data_id, response_group, response_md5, response_namespace,
};
use nacos_sdk::api::config::ConfigResponse;
use vstd::prelude::*;

verus! {

/// A configuration entry as the host reads it.
#[derive(Clone, Debug, PartialEq, Eq)]
pub struct NacosConfigResponse {
    /// Namespace, also called tenant.
    pub namespace: String,
    /// Data id.
    pub data_id: String,
    /// Group.
    pub group: String,
    /// Content.
    pub content: String,
    /// Type of the content: json, properties, xml, html, text, yaml.
    pub content_type: String,
    /// Checksum of the content.
    pub md5: String,
}

/// The mathematical value of a [`NacosConfigResponse`].
pub struct NacosConfigResponseView {
    pub namespace: Seq<char>,
    pub data_id: Seq<char>,
    pub group: Seq<char>,
    pub content: Seq<char>,
    pub content_type: Seq<char>,
    pub md5: Seq<char>,
}

impl View for NacosConfigResponse {
    type V = NacosConfigResponseView;

    open spec fn view(&self) -> NacosConfigResponseView {
        NacosConfigResponseView {
            namespace: self.namespace@,
            data_id: self.data_id@,
            group: self.group@,
            content: self.content@,
            content_type: self.content_type@,
            md5: self.md5@,
        }
    }
}

/// What a response of the SDK carries, field by field.
pub open spec fn response_held(resp: ConfigResponse) -> NacosConfigResponseView {
    NacosConfigResponseView {
        namespace: response_namespace(resp),
        data_id: response_data_id(resp),
        group: response_group(resp),
        content: response_content(resp),
        content_type: response_content_type(resp),
        md5: response_md5(resp),
    }
}

/// Reads a response of the SDK into the host's form.
pub fn transfer_conf_resp(config_resp: ConfigResponse) -> (ffi_conf_resp: NacosConfigResponse)
    ensures
        ffi_conf_resp@ == response_held(config_resp),
{
    NacosConfigResponse {
        namespace: namespace_of(&config_resp),
        data_id: data_id_of(&config_resp),
        group: group_of(&config_resp),
        content: content_of(&config_resp),
        content_type: content_type_of(&config_resp),
        md5: md5_of(&config_resp),
    }
}

/// What a subscription watches: one configuration entry, or the membership
/// of one service in a set of clusters.
#[derive(Clone, Debug, PartialEq, Eq)]
pub enum Topic {
    Config { data_id: String, group: String },
    Naming { service_name: String, group: String, clusters: Vec<String> },
}

/// The mathematical value of a [`Topic`]. The clusters of a naming topic
/// are a set: neither their order nor a repetition tells two topics apart.
pub enum TopicView {
    Config { data_id: Seq<char>, group: Seq<char> },
    Naming { service_name: Seq<char>, group: Seq<char>, clusters: Set<Seq<char>> },
}

/// The names that occur in a list.
pub open spec fn names_of(list: Seq<String>) -> Set<Seq<char>> {
    Set::new(|name: Seq<char>| exists|i: int| 0 <= i < list.len() && (#[trigger] list[i])@ == name)
}

impl View for Topic {
    type V = TopicView;

    open spec fn view(&self) -> TopicView {
        match self {
            Topic::Config { data_id, group } => TopicView::Config {
                data_id: data_id@,
                group: group@,
            },
            Topic::Naming { service_name, group, clusters } => TopicView::Naming {
                service_name: service_name@,
                group: group@,
                clusters: names_of(clusters@),
            },
        }
    }
}

/// The error for a required component that is empty: a validation error
/// that names the component.
pub open spec fn missing(component: Seq<char>) -> NacosErrorView {
    NacosErrorView::Validation(component)
}

/// What is wrong with the key of a configuration entry, if anything: the
/// data id is looked at first, then the group.
pub open spec fn config_key_error(data_id: Seq<char>, group: Seq<char>) -> Option<NacosErrorView> {
    if data_id.len() == 0 {
        Some(missing("data_id"@))
    } else if group.len() == 0 {
        Some(missing("group"@))
    } else {
        None
    }
}

/// What is wrong with the key of a service, if anything: the service name
/// is looked at first, then the group.
pub open spec fn service_key_error(service_name: Seq<char>, group: Seq<char>) -> Option<
    NacosErrorView,
> {
    if service_name.len() == 0 {
        Some(missing("service_name"@))
    } else if group.len() == 0 {
        Some(missing("group"@))
    } else {
        None
    }
}

/// What [`Topic::config`] gives: the topic, unless its key is refused.
pub open spec fn config_topic(data_id: Seq<char>, group: Seq<char>) -> Result<
    TopicView,
    NacosErrorView,
> {
    match config_key_error(data_id, group) {
        Some(err) => Err(err),
        None => Ok(TopicView::Config { data_id, group }),
    }
}

/// What [`Topic::naming`] gives: the topic, unless its key is refused.
pub open spec fn naming_topic(
    service_name: Seq<char>,
    group: Seq<char>,
    clusters: Set<Seq<char>>,
) -> Result<TopicView, NacosErrorView> {
    match service_key_error(service_name, group) {
        Some(err) => Err(err),
        None => Ok(TopicView::Naming { service_name, group, clusters }),
    }
}

/// The value of an error that may be absent.
pub open spec fn error_view(err: Option<NacosError>) -> Option<NacosErrorView> {
    match err {
        Some(err) => Some(err@),
        None => None,
    }
}

/// Checks the key of a configuration entry: neither the data id nor the
/// group may be empty.
pub fn check_config_key(data_id: &String, group: &String) -> (err: Option<NacosError>)
    ensures
        error_view(err) == config_key_error(data_id@, group@),
{
    if data_id.as_str().is_empty() {
        Some(NacosError::Validation("data_id".to_owned()))
    } else if group.as_str().is_empty() {
        Some(NacosError::Validation("group".to_owned()))
    } else {
        None
    }
}

/// Checks the key of a service: neither the service name nor the group
/// may be empty.
pub fn check_service_key(service_name: &String, group: &String) -> (err: Option<NacosError>)
    ensures
        error_view(err) == service_key_error(service_name@, group@),
{
    if service_name.as_str().is_empty() {
        Some(NacosError::Validation("service_name".to_owned()))
    } else if group.as_str().is_empty() {
        Some(NacosError::Validation("group".to_owned()))
    } else {
        None
    }
}

/// The value of a result that holds a topic or an error.
pub open spec fn topic_result_view(result: Result<Topic, NacosError>) -> Result<
    TopicView,
    NacosErrorView,
> {
    match result {
        Ok(topic) => Ok(topic@),
        Err(err) => Err(err@),
    }
}

/// Whether a name occurs in a list.
pub fn contains_name(list: &Vec<String>, name: &String) -> (found: bool)
    ensures
        found == names_of(list@).contains(name@),
{
    let mut i: usize = 0;
    while i < list.len()
        invariant
            i <= list.len(),
            forall|k: int| 0 <= k < i ==> (#[trigger] list[k])@ != name@,
        decreases list.len() - i,
    {
        if list[i] == *name {
            return true;
        }
        i += 1;
    }
    false
}

/// Whether every name of one list occurs in another.
pub fn covers(wide: &Vec<String>, narrow: &Vec<String>) -> (covered: bool)
    ensures
        covered == names_of(narrow@).subset_of(names_of(wide@)),
{
    let mut i: usize = 0;
    while i < narrow.len()
        invariant
            i <= narrow.len(),
            forall|k: int| 0 <= k < i ==> names_of(wide@).contains((#[trigger] narrow[k])@),
        decreases narrow.len() - i,
    {
        if !contains_name(wide, &narrow[i]) {
            assert(names_of(narrow@).contains(narrow[i as int]@));
            return false;
        }
        i += 1;
    }
    true
}

impl Topic {
    /// Whether no required component of the topic is empty.
    pub open spec fn valid(&self) -> bool {
        match self {
            Topic::Config { data_id, group } => data_id@.len() > 0 && group@.len() > 0,
            Topic::Naming { service_name, group, .. } => service_name@.len() > 0 && group@.len()
                > 0,
        }
    }

    /// The topic of a configuration entry.
    pub fn config(data_id: String, group: String) -> (result: Result<Topic, NacosError>)
        ensures
            topic_result_view(result) == config_topic(data_id@, group@),
            result is Ok ==> result->Ok_0.valid(),
    {
        match check_config_key(&data_id, &group) {
            Some(err) => Err(err),
            None => Ok(Topic::Config { data_id, group }),
        }
    }

    /// The topic of a service's membership in the given clusters; no
    /// cluster named means all of them.
    pub fn naming(service_name: String, group: String, clusters: Vec<String>) -> (result: Result<
        Topic,
        NacosError,
    >)
        ensures
            topic_result_view(result) == naming_topic(service_name@, group@, names_of(clusters@)),
            result is Ok ==> result->Ok_0.valid(),
    {
        match check_service_key(&service_name, &group) {
            Some(err) => Err(err),
            None => Ok(Topic::Naming { service_name, group, clusters }),
        }
    }

    /// Whether two topics are the same topic.
    pub fn same(&self, other: &Topic) -> (same: bool)
        ensures
            same == (self@ == other@),
    {
        match (self, other) {
            (
                Topic::Config { data_id, group },
                Topic::Config { data_id: other_id, group: other_group },
            ) => *data_id == *other_id && *group == *other_group,
            (
                Topic::Naming { service_name, group, clusters },
                Topic::Naming {
                    service_name: other_name,
                    group: other_group,
                    clusters: other_clusters,
                },
            ) => {
                if *service_name == *other_name && *group == *other_group {
                    let forth = covers(other_clusters, clusters);
                    let back = covers(clusters, other_clusters);
                    proof {
                        if forth && back {
                            assert(names_of(clusters@) =~= names_of(other_clusters@));
                        }
                    }
                    forth && back
                } else {
                    false
                }
            },
            _ => false,
        }
    }

    /// A copy of the topic.
    pub fn duplicate(&self) -> (copy: Topic)
        ensures
            copy@ == self@,
            copy.valid() == self.valid(),
    {
        match self {
            Topic::Config { data_id, group } => Topic::Config {
                data_id: data_id.clone(),
                group: group.clone(),
            },
            Topic::Naming { service_name, group, clusters } => Topic::Naming {
                service_name: service_name.clone(),
                group: group.clone(),
                clusters: clone_names(clusters),
            },
        }
    }
}

/// A copy of a list of names.
pub fn clone_names(list: &Vec<String>) -> (copy: Vec<String>)
    ensures
        copy@ == list@,
{
    let mut copy: Vec<String> = Vec::new();
    let mut i: usize = 0;
    while i < list.len()
        invariant
            i <= list.len(),
            copy@ == list@.subrange(0, i as int),
        decreases list.len() - i,
    {
        copy.push(list[i].clone());
        assert(copy@ =~= list@.subrange(0, i + 1));
        i += 1;
    }
    assert(copy@ =~= list@);
    copy
}

/// A snapshot pushed by the server. Each one replaces what was known of
/// its topic.
#[derive(Clone, Debug, PartialEq, Eq)]
pub enum PushEvent {
    /// The present state of a configuration entry.
    ConfigSnapshot(NacosConfigResponse),
    /// The present members of a service.
    MembershipSnapshot(Vec<NacosServiceInstance>),
}

/// The mathematical value of a [`PushEvent`].
pub enum PushEventView {
    ConfigSnapshot(NacosConfigResponseView),
    MembershipSnapshot(Seq<NacosServiceInstanceView>),
}

impl View for PushEvent {
    type V = PushEventView;

    open spec fn view(&self) -> PushEventView {
        match self {
            PushEvent::ConfigSnapshot(entry) => PushEventView::ConfigSnapshot(entry@),
            PushEvent::MembershipSnapshot(members) => PushEventView::MembershipSnapshot(
                host_views(members@),
            ),
        }
    }
}

} // verus!
