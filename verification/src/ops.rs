//! The operations topic family and its catalog.

use vstd::prelude::*;

use crate::strmap::StringMap;
use crate::topic::Topic;
use crate::topic_impl::OpsApplication;

verus! {

/// A topic of the operations family: fixed kind and domain, a per-topic
/// dataset name, and an empty configuration.
pub struct OpsTopic {
    base: OpsApplication,
    dataset_name: &'static str,
}

impl OpsTopic {
    pub fn new(dataset_name: &'static str) -> (r: Self)
        ensures
            r.spec_kind() == "ops"@,
            r.spec_domain() == "application"@,
            r.spec_dataset() == dataset_name@,
            r.spec_config() == Map::<Seq<char>, Seq<char>>::empty(),
    {
        Self { base: OpsApplication, dataset_name }
    }
}

impl Topic for OpsTopic {
    closed spec fn spec_kind(&self) -> Seq<char> {
        self.base.spec_kind()
    }

    closed spec fn spec_domain(&self) -> Seq<char> {
        self.base.spec_domain()
    }

    closed spec fn spec_dataset(&self) -> Seq<char> {
        self.dataset_name@
    }

    closed spec fn spec_config(&self) -> Map<Seq<char>, Seq<char>> {
        Map::empty()
    }

    fn kind(&self) -> (r: &str) {
        self.base.kind()
    }

    fn domain(&self) -> (r: &str) {
        self.base.domain()
    }

    fn dataset(&self) -> (r: &str) {
        self.dataset_name
    }

    fn config(&self) -> (r: StringMap) {
        StringMap::new()
    }
}

pub fn ops_components() -> (r: OpsTopic)
    ensures
        r.spec_kind() == "ops"@,
        r.spec_domain() == "application"@,
        r.spec_dataset() == "components"@,
        r.spec_config() == Map::<Seq<char>, Seq<char>>::empty(),
{
    OpsTopic::new("components")
}

pub fn ops_logs() -> (r: OpsTopic)
    ensures
        r.spec_kind() == "ops"@,
        r.spec_domain() == "application"@,
        r.spec_dataset() == "logs"@,
        r.spec_config() == Map::<Seq<char>, Seq<char>>::empty(),
{
    OpsTopic::new("logs")
}

} // verus!
