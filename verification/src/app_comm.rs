//! The application-communication domain marker topic.

use vstd::prelude::*;

use crate::strmap::StringMap;
use crate::topic::Topic;

verus! {

/// Marker topic for the application-communication domain: carries the kind
/// and domain that every concrete application topic shares.
pub struct ApplicationCommunication;

impl Topic for ApplicationCommunication {
    open spec fn spec_kind(&self) -> Seq<char> {
        "application"@
    }

    open spec fn spec_domain(&self) -> Seq<char> {
        "communication"@
    }

    open spec fn spec_dataset(&self) -> Seq<char> {
        ""@
    }

    open spec fn spec_config(&self) -> Map<Seq<char>, Seq<char>> {
        Map::empty()
    }

    fn kind(&self) -> (r: &str) {
        "application"
    }

    fn domain(&self) -> (r: &str) {
        "communication"
    }

    fn dataset(&self) -> (r: &str) {
        ""
    }

    fn config(&self) -> (r: StringMap) {
        StringMap::new()
    }
}

} // verus!
