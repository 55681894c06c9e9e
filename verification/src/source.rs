//! The source-events topic family and its catalog.

use vstd::prelude::*;

use crate::strmap::StringMap;
use crate::topic::Topic;

verus! {

/// A topic of the source-events family: kind `source`, a per-topic domain
/// and dataset, and an empty configuration.
pub struct SourceTopic {
    kind: &'static str,
    domain: &'static str,
    dataset: &'static str,
}

impl SourceTopic {
    pub fn new(domain: &'static str, dataset: &'static str) -> (r: Self)
        ensures
            r.spec_kind() == "source"@,
            r.spec_domain() == domain@,
            r.spec_dataset() == dataset@,
            r.spec_config() == Map::<Seq<char>, Seq<char>>::empty(),
    {
        Self { kind: "source", domain, dataset }
    }
}

impl Topic for SourceTopic {
    closed spec fn spec_kind(&self) -> Seq<char> {
        self.kind@
    }

    closed spec fn spec_domain(&self) -> Seq<char> {
        self.domain@
    }

    closed spec fn spec_dataset(&self) -> Seq<char> {
        self.dataset@
    }

    closed spec fn spec_config(&self) -> Map<Seq<char>, Seq<char>> {
        Map::empty()
    }

    fn kind(&self) -> (r: &str) {
        self.kind
    }

    fn domain(&self) -> (r: &str) {
        self.domain
    }

    fn dataset(&self) -> (r: &str) {
        self.dataset
    }

    fn config(&self) -> (r: StringMap) {
        StringMap::new()
    }
}

pub fn source_facebook_events() -> (r: SourceTopic)
    ensures
        r.spec_kind() == "source"@,
        r.spec_domain() == "facebook"@,
        r.spec_dataset() == "events"@,
        r.spec_config() == Map::<Seq<char>, Seq<char>>::empty(),
{
    SourceTopic::new("facebook", "events")
}

pub fn source_whatsapp_events() -> (r: SourceTopic)
    ensures
        r.spec_kind() == "source"@,
        r.spec_domain() == "whatsapp"@,
        r.spec_dataset() == "events"@,
        r.spec_config() == Map::<Seq<char>, Seq<char>>::empty(),
{
    SourceTopic::new("whatsapp", "events")
}

pub fn source_viber_events() -> (r: SourceTopic)
    ensures
        r.spec_kind() == "source"@,
        r.spec_domain() == "viber"@,
        r.spec_dataset() == "events"@,
        r.spec_config() == Map::<Seq<char>, Seq<char>>::empty(),
{
    SourceTopic::new("viber", "events")
}

pub fn source_twilio_events() -> (r: SourceTopic)
    ensures
        r.spec_kind() == "source"@,
        r.spec_domain() == "twilio"@,
        r.spec_dataset() == "events"@,
        r.spec_config() == Map::<Seq<char>, Seq<char>>::empty(),
{
    SourceTopic::new("twilio", "events")
}

pub fn source_google_events() -> (r: SourceTopic)
    ensures
        r.spec_kind() == "source"@,
        r.spec_domain() == "google"@,
        r.spec_dataset() == "events"@,
        r.spec_config() == Map::<Seq<char>, Seq<char>>::empty(),
{
    SourceTopic::new("google", "events")
}

} // verus!
