//! The plain request/response value shapes of the wider service that the
//! authentication subsystem guards.  They carry no behaviour here; handlers
//! receive them only after the interceptor has resolved a subject.

use vstd::prelude::*;

use std::collections::HashMap;

verus! {

/// A request to create a user.
#[derive(Clone, Debug)]
pub struct UserRequestDto {
    pub public_key: String,
}

/// A request to open a message request toward another user.
#[derive(Clone, Debug)]
pub struct MessageRequestRequestDto {
    pub destination_id: String,
}

/// A message to deliver to a group: one ciphertext per recipient id, and an
/// optional idempotency key.
#[derive(Clone, Debug)]
pub struct MessageRequestDto {
    pub content: HashMap<String, String>,
    pub idempotency_key: Option<String>,
}

/// A browser push subscription to register for a user.
#[derive(Clone, Debug)]
pub struct UserPushSubscriptionRequestDto {
    pub endpoint: String,
    pub p256dh: String,
    pub auth: String,
}

/// A request for a presigned upload URL with this content type.
#[derive(Clone, Debug)]
pub struct PresignedUploadUrlRequestDto {
    pub content_type: String,
}

/// The presigned upload URL handed back.
#[derive(Clone, Debug)]
pub struct PresignedUploadUrlResponseDto {
    pub url: String,
}

} // verus!
