//! What the operator can ask for.

use vstd::prelude::*;

verus! {

/// The arguments of one run.
#[derive(Debug)]
pub struct Args {
    pub action: Action,
}

/// One request to the store.
#[derive(Debug)]
pub enum Action {
    /// Set the store up for the key of the given id.
    Initialize {
        /// id of the key that the store is to use
        key_id: String,
    },
    /// Insert a value of the given name.
    Insert {
        /// name of the entry
        name: String,
        /// key id for the key used to encrypt this entry
        key_id: String,
    },
    /// Retrieve the value of the given name.
    Retrieve {
        /// name of the secret to retrieve
        name: String,
    },
}

} // verus!
