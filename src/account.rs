use vstd::prelude::*;

verus! {

/// The handler's view of one account: its writability flag and its data
/// buffer, whose length is the buffer's fixed capacity.
pub struct Account {
    pub is_writable: bool,
    pub data: Vec<u8>,
}

/// The mathematical value of an [`Account`].
pub struct AccountState {
    pub is_writable: bool,
    pub data: Seq<u8>,
}

impl View for Account {
    type V = AccountState;

    open spec fn view(&self) -> AccountState {
        AccountState { is_writable: self.is_writable, data: self.data@ }
    }
}

/// The view of each account of a list, in order.
pub open spec fn accounts_view(accounts: Seq<Account>) -> Seq<AccountState> {
    Seq::new(accounts.len(), |i: int| accounts[i]@)
}

impl Account {
    /// An account with the given writability and data buffer.
    pub fn new(is_writable: bool, data: Vec<u8>) -> (r: Account)
        ensures
            r@ == (AccountState { is_writable, data: data@ }),
    {
        Account { is_writable, data }
    }

    /// The capacity of the data buffer, in bytes.
    pub fn capacity(&self) -> (r: usize)
        ensures
            r == self@.data.len(),
    {
        self.data.len()
    }
}

} // verus!
