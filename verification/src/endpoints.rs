//! Which store each reader connects to.

use vstd::prelude::*;

verus! {

/// The connection strings of the two endpoints.
#[derive(Debug, PartialEq, Eq)]
pub struct Endpoints {
    /// Where the writer writes and the primary reader polls.
    pub primary: String,
    /// Where the secondary reader polls.
    pub replica: String,
}

/// Settles the two endpoints from the configured connection strings. The
/// primary is required: without it there is nothing to monitor and the
/// result is `None`. Without a replica the secondary reader polls the
/// primary.
pub fn resolve_endpoints(primary: Option<String>, replica: Option<String>) -> (endpoints: Option<
    Endpoints,
>)
    ensures
        primary is None ==> endpoints is None,
        primary matches Some(url) ==> {
            &&& endpoints matches Some(found)
            &&& found.primary@ == url@
            &&& replica matches Some(other) ==> found.replica@ == other@
            &&& replica is None ==> found.replica@ == url@
        },
{
    match primary {
        None => None,
        Some(url) => {
            let replica = match replica {
                Some(other) => other,
                None => url.clone(),
            };
            Some(Endpoints { primary: url, replica })
        },
    }
}

} // verus!
