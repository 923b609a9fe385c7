//! The composite response structure.

use crate::data::primitives::{Discriminator, UserName};
use vstd::prelude::*;

verus! {

/// A resolved identity record: the store-assigned id together with the
/// validated name and discriminator the lookup was keyed on.  This is the
/// response payload shape; it is never persisted here.
pub struct UserObject {
    /// The id the store assigned to the row.
    pub id: usize,
    /// The validated display name the lookup matched.
    pub user_name: UserName,
    /// The validated discriminator the lookup matched.
    pub discriminator: Discriminator,
}

} // verus!
