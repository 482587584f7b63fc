//! Requests to the server's endpoints, and refreshing the room listings from
//! their replies.

use crate::error::ApiError;
use crate::json::{opt_text, reply_document, reply_json};
use crate::room::{
    channel_rooms_of, decode_joined_channels, decode_rooms, direct_rooms_of, joined_channels_of,
    joined_listing_ok, room_rows, rooms_listed, rooms_listing_ok,
};
use crate::session::{logged_in, RocketChat, SessionView};
use vstd::prelude::*;

verus! {

pub const LOGIN_ENDPOINT: &'static str = "api/v1/login";

pub const JOINED_CHANNELS_ENDPOINT: &'static str = "api/v1/channels.list.joined";

pub const ROOMS_ENDPOINT: &'static str = "api/v1/rooms.get";

/// A GET request with the session's authentication headers
/// (`X-Auth-Token`, `X-User-Id`).
pub struct GetRequest {
    pub url: String,
    pub auth_token: String,
    pub user_id: String,
}

pub open spec fn endpoint_url_of(s: SessionView, endpoint: Seq<char>) -> Seq<char> {
    s.url + "/"@ + endpoint
}

/// The request for an endpoint, where the session is logged in.
pub open spec fn get_request_ok(s: SessionView, endpoint: Seq<char>, r: Result<GetRequest, ApiError>) -> bool {
    &&& r is Ok <==> logged_in(s)
    &&& r matches Ok(q) ==> q.url@ == endpoint_url_of(s, endpoint) && q.auth_token@ == s.auth_token
        && q.user_id@ == s.user_id
    &&& r matches Err(e) ==> e == ApiError::PreconditionViolation
}

/// The session after the reply to the joined-channel listing, and what the
/// refresh reports. A failed request leaves the last listing as it was.
pub open spec fn joined_refresh(s: SessionView, reply: Option<Seq<char>>) -> (SessionView, Result<(), ApiError>) {
    match reply_json(reply) {
        Err(e) => (s, Err(e)),
        Ok(j) => if joined_listing_ok(j) {
            (SessionView { joined_channels: joined_channels_of(j), ..s }, Ok(()))
        } else {
            (s, Err(ApiError::MalformedResponse))
        },
    }
}

/// The session after the reply to the room listing, and what the refresh
/// reports: `Ok(false)` where the server reported no success and nothing
/// changed, `Ok(true)` where both room listings were replaced.
pub open spec fn rooms_refresh(s: SessionView, reply: Option<Seq<char>>) -> (SessionView, Result<bool, ApiError>) {
    match reply_json(reply) {
        Err(e) => (s, Err(e)),
        Ok(j) => if !rooms_listed(j) {
            (s, Ok(false))
        } else if rooms_listing_ok(j) {
            (
                SessionView {
                    direct_rooms: direct_rooms_of(room_rows(j)->0),
                    channel_rooms: channel_rooms_of(room_rows(j)->0),
                    ..s
                },
                Ok(true),
            )
        } else {
            (s, Err(ApiError::MalformedResponse))
        },
    }
}

impl RocketChat {
    /// The address of an endpoint of the server.
    pub fn endpoint_url(&self, endpoint: &str) -> (r: String)
        ensures
            r@ == endpoint_url_of(self@, endpoint@),
    {
        let base = self.url().to_owned();
        base.concat("/").concat(endpoint)
    }

    fn get_request(&self, endpoint: &str) -> (r: Result<GetRequest, ApiError>)
        ensures
            get_request_ok(self@, endpoint@, r),
    {
        if !self.is_logged_in() {
            return Err(ApiError::PreconditionViolation);
        }
        let (user_id, auth_token) = self.get_session();
        Ok(GetRequest { url: self.endpoint_url(endpoint), auth_token, user_id })
    }

    /// The request that lists the joined channels; only a logged-in session
    /// may make it.
    pub fn joined_channels_request(&self) -> (r: Result<GetRequest, ApiError>)
        ensures
            get_request_ok(self@, JOINED_CHANNELS_ENDPOINT@, r),
    {
        self.get_request(JOINED_CHANNELS_ENDPOINT)
    }

    /// The request that lists all rooms; only a logged-in session may make it.
    pub fn rooms_request(&self) -> (r: Result<GetRequest, ApiError>)
        ensures
            get_request_ok(self@, ROOMS_ENDPOINT@, r),
    {
        self.get_request(ROOMS_ENDPOINT)
    }

    /// Takes the reply to the joined-channel listing (`None`: the transport
    /// failed) and replaces the joined channels with it.
    pub fn finish_joined_channels(&mut self, reply: Option<String>) -> (r: Result<(), ApiError>)
        ensures
            (final(self)@, r) == joined_refresh(old(self)@, opt_text(reply)),
    {
        let j = match reply_document(reply) {
            Ok(j) => j,
            Err(e) => return Err(e),
        };
        match decode_joined_channels(&j) {
            Ok(channels) => {
                self.set_joined_channels(channels);
                Ok(())
            },
            Err(e) => Err(e),
        }
    }

    /// Takes the reply to the room listing (`None`: the transport failed) and
    /// replaces the direct rooms and the channel rooms with it.
    pub fn finish_rooms(&mut self, reply: Option<String>) -> (r: Result<bool, ApiError>)
        ensures
            (final(self)@, r) == rooms_refresh(old(self)@, opt_text(reply)),
    {
        let j = match reply_document(reply) {
            Ok(j) => j,
            Err(e) => return Err(e),
        };
        match decode_rooms(&j) {
            Ok(Some((direct, channels))) => {
                self.set_direct_rooms(direct);
                self.set_channel_rooms(channels);
                Ok(true)
            },
            Ok(None) => Ok(false),
            Err(e) => Err(e),
        }
    }
}

} // verus!
