//! System bootstrap: creation of the singleton admin record.

use vstd::prelude::*;
use crate::states::AdminAccount;

verus! {

/// Create the admin record at bootstrap: the signer that paid for the
/// record becomes the authority for every later privileged operation.
/// `bump` is the storage-derivation seed the host ledger handed out.
pub fn init_admin(authority: u64, bump: u8) -> (a: AdminAccount)
    ensures
        a == (AdminAccount { authority, bump }),
{
    AdminAccount { authority, bump }
}

} // verus!
