//! What the dashboards read of a resource's metadata.

use vstd::prelude::*;

verus! {

/// Metadata of a stored resource.
#[derive(Clone, Debug, Default, PartialEq)]
pub struct Metadata {
    /// The name of the resource, if it has been given one.
    pub name: Option<String>,
}

/// The name, or the empty text where there is none.
pub open spec fn name_or_empty(name: Option<String>) -> Seq<char> {
    match name {
        Some(text) => text@,
        None => Seq::empty(),
    }
}

impl Metadata {
    /// Metadata that holds `name`.
    pub fn named(name: &str) -> (metadata: Metadata)
        ensures
            name_or_empty(metadata.name) == name@,
            metadata.name is Some,
    {
        Metadata { name: Some(String::from_str(name)) }
    }

    /// The name, or the empty string where there is none.
    pub fn name_or_default(&self) -> (name: String)
        ensures
            name@ == name_or_empty(self.name),
    {
        match &self.name {
            Some(text) => text.clone(),
            None => String::new(),
        }
    }
}

} // verus!
