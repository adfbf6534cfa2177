//! What this machine tells of itself.
use vstd::prelude::*;
use crate::interfaces::{lists_addresses, Listing};

verus! {

/// Whether this is an answer of the machine to the question for its addresses. Nothing outside
/// this module can tell an answer but by asking: all that is known of one is that its texts are
/// addresses.
pub closed spec fn is_answer(listing: Listing) -> bool {
    lists_addresses(listing)
}

/// Every text in an answer is an address.
pub proof fn law_answers_list_addresses(listing: Listing)
    requires
        is_answer(listing),
    ensures
        lists_addresses(listing),
{
}

} // verus!
