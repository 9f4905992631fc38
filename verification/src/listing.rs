//! The listing record that groups a post's descriptive fields and slots.

use vstd::prelude::*;
use crate::slot::Slot;

verus! {

/// A recruitment post: free-text fields as they were read from the source,
/// and one slot per party position in display order.
#[derive(Debug, Clone)]
pub struct PFListing {
    pub title: String,
    pub author: String,
    pub flags: String,
    pub description: String,
    pub slots: Vec<Slot>,
    pub last_updated: String,
    pub expires_in: String,
    pub min_ilvl: String,
    pub data_center: String,
    pub pf_category: String,
}

} // verus!
