//! The session store: the server's address, the authentication state and the
//! last room listings.
//!
//! Every read and write goes through `&self` or `&mut self`, so the borrow
//! rules make each one a critical section of its own; a caller that shares a
//! store between tasks puts it behind a lock.

use crate::room::{channels_view, direct_rooms_view, Channel, ChannelView, DirectRoom, DirectRoomView};
use vstd::prelude::*;

verus! {

/// The state that concurrent callers must not see half updated.
struct ExclusiveData {
    auth_token: String,
    user_id: String,
    joined_channels: Vec<Channel>,
    direct_rooms: Vec<DirectRoom>,
    channel_rooms: Vec<Channel>,
}

impl ExclusiveData {
    fn new(auth_token: String, user_id: String) -> (r: Self)
        ensures
            r.auth_token == auth_token,
            r.user_id == user_id,
            r.joined_channels@.len() == 0,
            r.direct_rooms@.len() == 0,
            r.channel_rooms@.len() == 0,
    {
        ExclusiveData {
            auth_token,
            user_id,
            joined_channels: Vec::new(),
            direct_rooms: Vec::new(),
            channel_rooms: Vec::new(),
        }
    }
}

/// A session with one chat server.
pub struct RocketChat {
    url: String,
    exclusive_data: ExclusiveData,
}

/// What a session holds. An empty token means no token; an empty user id
/// means not logged in.
pub struct SessionView {
    pub url: Seq<char>,
    pub auth_token: Seq<char>,
    pub user_id: Seq<char>,
    pub joined_channels: Seq<ChannelView>,
    pub direct_rooms: Seq<DirectRoomView>,
    pub channel_rooms: Seq<ChannelView>,
}

pub open spec fn logged_in(s: SessionView) -> bool {
    s.user_id.len() > 0
}

/// The session with its user id cleared.
pub open spec fn cleared(s: SessionView) -> SessionView {
    SessionView { user_id: Seq::empty(), ..s }
}

impl View for RocketChat {
    type V = SessionView;

    closed spec fn view(&self) -> SessionView {
        SessionView {
            url: self.url@,
            auth_token: self.exclusive_data.auth_token@,
            user_id: self.exclusive_data.user_id@,
            joined_channels: channels_view(self.exclusive_data.joined_channels@),
            direct_rooms: direct_rooms_view(self.exclusive_data.direct_rooms@),
            channel_rooms: channels_view(self.exclusive_data.channel_rooms@),
        }
    }
}

fn copy_channels(v: &Vec<Channel>) -> (r: Vec<Channel>)
    ensures
        channels_view(r@) == channels_view(v@),
{
    let r = v.clone();
    assert(channels_view(r@) =~= channels_view(v@)) by {
        assert forall|i: int| 0 <= i < r@.len() implies r@[i] == v@[i] by {
            assert(cloned::<Channel>(v[i], r[i]));
        }
    }
    r
}

fn copy_direct_rooms(v: &Vec<DirectRoom>) -> (r: Vec<DirectRoom>)
    ensures
        direct_rooms_view(r@) == direct_rooms_view(v@),
{
    let mut r: Vec<DirectRoom> = Vec::new();
    let mut i: usize = 0;
    while i < v.len()
        invariant
            i <= v@.len(),
            r@.len() == i,
            forall|k: int| 0 <= k < i ==> (#[trigger] r@[k])@ == v@[k]@,
        decreases v@.len() - i,
    {
        r.push(v[i].clone());
        i = i + 1;
    }
    assert(direct_rooms_view(r@) =~= direct_rooms_view(v@));
    r
}

impl RocketChat {
    /// A session with the server at `url`, holding `auth_token` (possibly
    /// empty) and not logged in.
    pub fn new(url: &str, auth_token: &str) -> (r: Self)
        ensures
            r@ == (SessionView {
                url: url@,
                auth_token: auth_token@,
                user_id: Seq::empty(),
                joined_channels: Seq::empty(),
                direct_rooms: Seq::empty(),
                channel_rooms: Seq::empty(),
            }),
    {
        let r = RocketChat {
            url: url.to_owned(),
            exclusive_data: ExclusiveData::new(auth_token.to_owned(), String::new()),
        };
        assert(r@.joined_channels =~= Seq::empty());
        assert(r@.direct_rooms =~= Seq::empty());
        assert(r@.channel_rooms =~= Seq::empty());
        r
    }

    pub fn url(&self) -> (r: &str)
        ensures
            r@ == self@.url,
    {
        self.url.as_str()
    }

    pub fn is_logged_in(&self) -> (r: bool)
        ensures
            r == logged_in(self@),
    {
        !self.exclusive_data.user_id.as_str().is_empty()
    }

    pub fn get_user_id(&self) -> (r: String)
        ensures
            r@ == self@.user_id,
    {
        self.exclusive_data.user_id.clone()
    }

    pub fn get_auth_token(&self) -> (r: String)
        ensures
            r@ == self@.auth_token,
    {
        self.exclusive_data.auth_token.clone()
    }

    /// The user id and the token, read together, for the headers of one request.
    pub fn get_session(&self) -> (r: (String, String))
        ensures
            r.0@ == self@.user_id,
            r.1@ == self@.auth_token,
    {
        (self.exclusive_data.user_id.clone(), self.exclusive_data.auth_token.clone())
    }

    pub fn set_auth_token(&mut self, token: String)
        ensures
            final(self)@ == (SessionView { auth_token: token@, ..old(self)@ }),
    {
        self.exclusive_data.auth_token = token;
    }

    pub fn set_user_id(&mut self, id: String)
        ensures
            final(self)@ == (SessionView { user_id: id@, ..old(self)@ }),
    {
        self.exclusive_data.user_id = id;
    }

    /// Sets the user id and the token in one step.
    pub fn set_session(&mut self, id: String, token: String)
        ensures
            final(self)@ == (SessionView { user_id: id@, auth_token: token@, ..old(self)@ }),
    {
        self.exclusive_data.user_id = id;
        self.exclusive_data.auth_token = token;
    }

    /// Forgets the user id, so that the session is no longer logged in.
    pub fn clear_user_id(&mut self)
        ensures
            final(self)@ == cleared(old(self)@),
            !logged_in(final(self)@),
    {
        self.exclusive_data.user_id = String::new();
    }

    pub fn set_joined_channels(&mut self, channels: Vec<Channel>)
        ensures
            final(self)@ == (SessionView { joined_channels: channels_view(channels@), ..old(self)@ }),
    {
        self.exclusive_data.joined_channels = channels;
    }

    pub fn set_direct_rooms(&mut self, rooms: Vec<DirectRoom>)
        ensures
            final(self)@ == (SessionView { direct_rooms: direct_rooms_view(rooms@), ..old(self)@ }),
    {
        self.exclusive_data.direct_rooms = rooms;
    }

    pub fn set_channel_rooms(&mut self, rooms: Vec<Channel>)
        ensures
            final(self)@ == (SessionView { channel_rooms: channels_view(rooms@), ..old(self)@ }),
    {
        self.exclusive_data.channel_rooms = rooms;
    }

    pub fn get_joined_channels(&self) -> (r: Vec<Channel>)
        ensures
            channels_view(r@) == self@.joined_channels,
    {
        copy_channels(&self.exclusive_data.joined_channels)
    }

    pub fn get_direct_rooms(&self) -> (r: Vec<DirectRoom>)
        ensures
            direct_rooms_view(r@) == self@.direct_rooms,
    {
        copy_direct_rooms(&self.exclusive_data.direct_rooms)
    }

    pub fn get_channel_rooms(&self) -> (r: Vec<Channel>)
        ensures
            channels_view(r@) == self@.channel_rooms,
    {
        copy_channels(&self.exclusive_data.channel_rooms)
    }
}

/// Whatever the session held before, it is not logged in once its user id
/// has been cleared.
pub proof fn lemma_cleared_is_logged_out(s: SessionView)
    ensures
        !logged_in(cleared(s)),
{
}

} // verus!
