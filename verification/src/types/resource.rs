//! The part of a Kubernetes object's metadata that the reconcilers read.

use vstd::prelude::*;

verus! {

/// Metadata of a custom resource: its identity and whether its deletion has
/// been requested (a deletion timestamp is set).
#[derive(Debug, Clone)]
pub struct ResourceMeta {
    pub name: Option<String>,
    pub generate_name: Option<String>,
    pub namespace: Option<String>,
    pub uid: Option<String>,
    pub deletion_requested: bool,
}

/// The name of an object, falling back to its generate-name, then to "".
pub open spec fn name_any_of(meta: ResourceMeta) -> Seq<char> {
    match meta.name {
        Some(n) => n@,
        None => match meta.generate_name {
            Some(g) => g@,
            None => Seq::empty(),
        },
    }
}

impl ResourceMeta {
    /// The object's name, or its generate-name, or the empty string.
    pub fn name_any(&self) -> (name: String)
        ensures
            name@ == name_any_of(*self),
    {
        match &self.name {
            Some(n) => n.clone(),
            None => match &self.generate_name {
                Some(g) => g.clone(),
                None => String::new(),
            },
        }
    }
}

} // verus!
