//! Marker topics for the well-known kind and domain pairs.

use vstd::prelude::*;

use crate::strmap::StringMap;
use crate::topic::Topic;

verus! {

/// Marker topic for the operations domain of the application.
pub struct OpsApplication;

impl Topic for OpsApplication {
    open spec fn spec_kind(&self) -> Seq<char> {
        "ops"@
    }

    open spec fn spec_domain(&self) -> Seq<char> {
        "application"@
    }

    open spec fn spec_dataset(&self) -> Seq<char> {
        ""@
    }

    open spec fn spec_config(&self) -> Map<Seq<char>, Seq<char>> {
        Map::empty()
    }

    fn kind(&self) -> (r: &str) {
        "ops"
    }

    fn domain(&self) -> (r: &str) {
        "application"
    }

    fn dataset(&self) -> (r: &str) {
        ""
    }

    fn config(&self) -> (r: StringMap) {
        StringMap::new()
    }
}

/// Marker topic for the application-communication domain.
pub struct ApplicationCommunication;

impl Topic for ApplicationCommunication {
    open spec fn spec_kind(&self) -> Seq<char> {
        "application"@
    }

    open spec fn spec_domain(&self) -> Seq<char> {
        "communication"@
    }

    open spec fn spec_dataset(&self) -> Seq<char> {
        ""@
    }

    open spec fn spec_config(&self) -> Map<Seq<char>, Seq<char>> {
        Map::empty()
    }

    fn kind(&self) -> (r: &str) {
        "application"
    }

    fn domain(&self) -> (r: &str) {
        "communication"
    }

    fn dataset(&self) -> (r: &str) {
        ""
    }

    fn config(&self) -> (r: StringMap) {
        StringMap::new()
    }
}

/// Marker topic for the twilio source domain.
pub struct SourceTwilio;

impl Topic for SourceTwilio {
    open spec fn spec_kind(&self) -> Seq<char> {
        "source"@
    }

    open spec fn spec_domain(&self) -> Seq<char> {
        "twilio"@
    }

    open spec fn spec_dataset(&self) -> Seq<char> {
        ""@
    }

    open spec fn spec_config(&self) -> Map<Seq<char>, Seq<char>> {
        Map::empty()
    }

    fn kind(&self) -> (r: &str) {
        "source"
    }

    fn domain(&self) -> (r: &str) {
        "twilio"
    }

    fn dataset(&self) -> (r: &str) {
        ""
    }

    fn config(&self) -> (r: StringMap) {
        StringMap::new()
    }
}

} // verus!
