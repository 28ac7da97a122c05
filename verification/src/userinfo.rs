//! The persisted user record as the UI sees it: a read-only snapshot,
//! replaced wholesale when a "record changed" notification arrives.

use vstd::prelude::*;

verus! {

/// A snapshot of the persisted user record.
pub struct UserInfo {
    pub user_name: String,
    pub user_id: String,
    pub joined_at: String,
}

impl UserInfo {
    /// The empty record used before anything has been persisted.
    pub fn new() -> (r: UserInfo)
        ensures
            r.user_name@.len() == 0,
            r.user_id@.len() == 0,
            r.joined_at@.len() == 0,
    {
        UserInfo { user_name: String::new(), user_id: String::new(), joined_at: String::new() }
    }
}

/// The widget state showing the current record.
pub struct UserInfoComponent {
    pub user_info: UserInfo,
}

impl UserInfoComponent {
    pub fn new(user_info: UserInfo) -> (r: UserInfoComponent)
        ensures
            r.user_info == user_info,
    {
        UserInfoComponent { user_info }
    }
}

} // verus!
