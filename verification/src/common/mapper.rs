//! Turning stored records into their views, giving the record up.

use vstd::prelude::*;
use crate::models::account_model::{AccountDbModel, AccountViewModel};
use crate::models::printfile_model::{PrintFileDbModel, PrintFileViewModel};
use crate::models::view_model::ViewModel;

verus! {

/// The view of a print file: every field but the path.
pub fn printfile_to_viewmodel(printfile: PrintFileDbModel) -> (view: PrintFileViewModel)
    ensures
        printfile.shown_as(&view),
{
    PrintFileViewModel {
        uuid: printfile.uuid,
        user_uuid: printfile.user_uuid,
        name: printfile.name,
        size: printfile.size,
        checksum: printfile.checksum,
        file_type: printfile.file_type,
        file_storage_type: printfile.file_storage_type,
        created_at: printfile.created_at,
    }
}

/// The view of an account: its identifier, email and user name.
pub fn account_to_viewmodel(account: AccountDbModel) -> (view: AccountViewModel)
    ensures
        account.shown_as(&view),
{
    AccountViewModel { uuid: account.uuid, email: account.email, username: account.username }
}

} // verus!
