//! Types for blocking and unblocking users

use vstd::prelude::*;

verus! {

/// Block/Unblock response
#[derive(Debug, Clone)]
pub struct BlockResponse {
    /// Success status for each user
    pub data: Vec<BlockResult>,
}

/// Block result for a single user
#[derive(Debug, Clone)]
pub struct BlockResult {
    /// Input user phone number
    pub input: String,
    /// WhatsApp ID
    pub wa_id: Option<String>,
    /// Success status
    pub success: bool,
}

/// Blocked users list response
#[derive(Debug, Clone)]
pub struct BlockedUsersResponse {
    /// List of blocked users
    pub data: Vec<BlockedUser>,
}

/// Blocked user info
#[derive(Debug, Clone)]
pub struct BlockedUser {
    /// WhatsApp ID of blocked user
    pub wa_id: String,
}

} // verus!
