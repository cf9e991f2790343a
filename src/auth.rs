use vstd::prelude::*;

verus! {

/// Storage of user accounts, for stores that keep them.
pub trait UserRepository {
    /// Creates a user account.
    fn create();
}

} // verus!
