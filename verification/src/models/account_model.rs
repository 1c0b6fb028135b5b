//! Accounts: the stored record, its view, and the registration and login
//! requests.

use vstd::prelude::*;
use crate::models::view_model::ViewModel;

verus! {

/// An account as stored. Times are seconds since the Unix epoch, in decimal.
#[derive(Clone, Debug, PartialEq, Eq)]
pub struct AccountDbModel {
    pub uuid: String,
    pub username: String,
    pub email: String,
    pub password: String,
    pub created_at: String,
    pub updated_at: String,
}

/// An account as shown: never the password.
#[derive(Clone, Debug, PartialEq, Eq)]
pub struct AccountViewModel {
    pub uuid: String,
    pub username: String,
    pub email: String,
}

/// A request to register an account.
#[derive(Clone, Debug, PartialEq, Eq)]
pub struct AccountRegisterModel {
    pub username: String,
    pub email: String,
    pub password: String,
    pub password_confirmation: String,
}

/// A request to log in.
#[derive(Clone, Debug, PartialEq, Eq)]
pub struct AccountLoginModel {
    pub username: String,
    pub password: String,
}

impl ViewModel for AccountDbModel {
    type Model = AccountViewModel;

    open spec fn shown_as(&self, model: &AccountViewModel) -> bool {
        &&& model.uuid@ == self.uuid@
        &&& model.username@ == self.username@
        &&& model.email@ == self.email@
    }

    fn to_viewmodel(&self) -> (model: AccountViewModel) {
        AccountViewModel {
            uuid: self.uuid.clone(),
            username: self.username.clone(),
            email: self.email.clone(),
        }
    }
}

} // verus!
