//! The application-communication topic family and its catalog.

use vstd::prelude::*;

use crate::app_comm::ApplicationCommunication;
use crate::strmap::StringMap;
use crate::topic::Topic;

verus! {

/// The configuration that application-communication topics default to: a
/// compacted log with a 10 MiB segment size and a 24 h compaction lag.
pub open spec fn default_compact_config_map() -> Map<Seq<char>, Seq<char>> {
    Map::empty().insert("cleanup.policy"@, "compact"@).insert("segment.bytes"@, "10485760"@)
        .insert("min.compaction.lag.ms"@, "86400000"@)
}

/// A topic of the application-communication family: fixed kind and domain,
/// a per-topic dataset name, and the shared compacted-log configuration
/// unless the topic opts out.
pub struct AppTopic {
    base: ApplicationCommunication,
    dataset_name: &'static str,
    use_default_config: bool,
}

impl AppTopic {
    /// A topic with the shared compacted-log configuration.
    pub fn new(dataset_name: &'static str) -> (r: Self)
        ensures
            r.spec_kind() == "application"@,
            r.spec_domain() == "communication"@,
            r.spec_dataset() == dataset_name@,
            r.spec_config() == default_compact_config_map(),
    {
        Self { base: ApplicationCommunication, dataset_name, use_default_config: true }
    }

    /// A topic that opts out of the shared configuration: its configuration
    /// is empty.
    pub fn with_custom_config(dataset_name: &'static str) -> (r: Self)
        ensures
            r.spec_kind() == "application"@,
            r.spec_domain() == "communication"@,
            r.spec_dataset() == dataset_name@,
            r.spec_config() == Map::<Seq<char>, Seq<char>>::empty(),
    {
        Self { base: ApplicationCommunication, dataset_name, use_default_config: false }
    }
}

impl Topic for AppTopic {
    closed spec fn spec_kind(&self) -> Seq<char> {
        self.base.spec_kind()
    }

    closed spec fn spec_domain(&self) -> Seq<char> {
        self.base.spec_domain()
    }

    closed spec fn spec_dataset(&self) -> Seq<char> {
        self.dataset_name@
    }

    closed spec fn spec_config(&self) -> Map<Seq<char>, Seq<char>> {
        if self.use_default_config {
            default_compact_config_map()
        } else {
            Map::empty()
        }
    }

    fn kind(&self) -> (r: &str) {
        self.base.kind()
    }

    fn domain(&self) -> (r: &str) {
        self.base.domain()
    }

    fn dataset(&self) -> (r: &str) {
        self.dataset_name
    }

    fn config(&self) -> (r: StringMap) {
        if self.use_default_config {
            let mut c = StringMap::new();
            c.insert("cleanup.policy", "compact");
            c.insert("segment.bytes", "10485760");
            c.insert("min.compaction.lag.ms", "86400000");
            c
        } else {
            StringMap::new()
        }
    }
}

pub fn app_channels() -> (r: AppTopic)
    ensures
        r.spec_kind() == "application"@,
        r.spec_domain() == "communication"@,
        r.spec_dataset() == "channels"@,
        r.spec_config() == default_compact_config_map(),
{
    AppTopic::new("channels")
}

pub fn app_contacts() -> (r: AppTopic)
    ensures
        r.spec_kind() == "application"@,
        r.spec_domain() == "communication"@,
        r.spec_dataset() == "contacts"@,
        r.spec_config() == default_compact_config_map(),
{
    AppTopic::new("contacts")
}

pub fn app_messages() -> (r: AppTopic)
    ensures
        r.spec_kind() == "application"@,
        r.spec_domain() == "communication"@,
        r.spec_dataset() == "messages"@,
        r.spec_config() == default_compact_config_map(),
{
    AppTopic::new("messages")
}

pub fn app_metadata() -> (r: AppTopic)
    ensures
        r.spec_kind() == "application"@,
        r.spec_domain() == "communication"@,
        r.spec_dataset() == "metadata"@,
        r.spec_config() == default_compact_config_map(),
{
    AppTopic::new("metadata")
}

pub fn app_read_receipts() -> (r: AppTopic)
    ensures
        r.spec_kind() == "application"@,
        r.spec_domain() == "communication"@,
        r.spec_dataset() == "read-receipt"@,
        r.spec_config() == default_compact_config_map(),
{
    AppTopic::new("read-receipt")
}

pub fn app_sources() -> (r: AppTopic)
    ensures
        r.spec_kind() == "application"@,
        r.spec_domain() == "communication"@,
        r.spec_dataset() == "sources"@,
        r.spec_config() == default_compact_config_map(),
{
    AppTopic::new("sources")
}

pub fn app_tags() -> (r: AppTopic)
    ensures
        r.spec_kind() == "application"@,
        r.spec_domain() == "communication"@,
        r.spec_dataset() == "tags"@,
        r.spec_config() == default_compact_config_map(),
{
    AppTopic::new("tags")
}

pub fn app_templates() -> (r: AppTopic)
    ensures
        r.spec_kind() == "application"@,
        r.spec_domain() == "communication"@,
        r.spec_dataset() == "templates"@,
        r.spec_config() == default_compact_config_map(),
{
    AppTopic::new("templates")
}

pub fn app_users() -> (r: AppTopic)
    ensures
        r.spec_kind() == "application"@,
        r.spec_domain() == "communication"@,
        r.spec_dataset() == "users"@,
        r.spec_config() == default_compact_config_map(),
{
    AppTopic::new("users")
}

pub fn app_webhooks() -> (r: AppTopic)
    ensures
        r.spec_kind() == "application"@,
        r.spec_domain() == "communication"@,
        r.spec_dataset() == "webhooks"@,
        r.spec_config() == default_compact_config_map(),
{
    AppTopic::new("webhooks")
}

} // verus!
