//! Channels and direct rooms, and how listing replies decode into them.

use crate::error::ApiError;
use crate::json::{json_array, json_bool, json_field, json_str, json_u64, same_text, str_field, Json};
use crate::timestamp::{str_to_timestamp, timestamp_of};
use vstd::prelude::*;

verus! {

/// The kind of a room, from the server's one-letter discriminator.
#[derive(Debug, Clone, Copy, PartialEq, Eq, Structural)]
pub enum RoomType {
    /// A direct conversation with someone.
    Direct,
    Unknown,
    Channel,
}

pub open spec fn room_type_spec(s: Seq<char>) -> RoomType {
    if s == "d"@ {
        RoomType::Direct
    } else if s == "c"@ || s == "p"@ {
        RoomType::Channel
    } else {
        RoomType::Unknown
    }
}

impl RoomType {
    /// `"d"` is a direct room, `"c"` and `"p"` (a locked channel) are channels,
    /// anything else is unknown.
    pub fn from_str(s: &str) -> (r: RoomType)
        ensures
            r == room_type_spec(s@),
    {
        if same_text(s, "d") {
            RoomType::Direct
        } else if same_text(s, "c") || same_text(s, "p") {
            RoomType::Channel
        } else {
            RoomType::Unknown
        }
    }
}

pub struct Channel {
    pub id: String,
    pub name: String,
    pub num_msgs: u64,
    pub last_message_timestamp: Option<i64>,
}

pub struct DirectRoom {
    pub id: String,
    pub num_msgs: u64,
    pub usernames: Vec<String>,
    pub last_message_timestamp: Option<i64>,
}

pub struct ChannelView {
    pub id: Seq<char>,
    pub name: Seq<char>,
    pub num_msgs: u64,
    pub last_message_timestamp: Option<i64>,
}

pub struct DirectRoomView {
    pub id: Seq<char>,
    pub num_msgs: u64,
    pub usernames: Seq<Seq<char>>,
    pub last_message_timestamp: Option<i64>,
}

pub open spec fn texts_view(v: Seq<String>) -> Seq<Seq<char>> {
    v.map_values(|s: String| s@)
}

impl View for Channel {
    type V = ChannelView;

    open spec fn view(&self) -> ChannelView {
        ChannelView {
            id: self.id@,
            name: self.name@,
            num_msgs: self.num_msgs,
            last_message_timestamp: self.last_message_timestamp,
        }
    }
}

impl View for DirectRoom {
    type V = DirectRoomView;

    open spec fn view(&self) -> DirectRoomView {
        DirectRoomView {
            id: self.id@,
            num_msgs: self.num_msgs,
            usernames: texts_view(self.usernames@),
            last_message_timestamp: self.last_message_timestamp,
        }
    }
}

impl Clone for Channel {
    fn clone(&self) -> (r: Self)
        ensures
            r == *self,
    {
        Channel {
            id: self.id.clone(),
            name: self.name.clone(),
            num_msgs: self.num_msgs,
            last_message_timestamp: self.last_message_timestamp,
        }
    }
}

impl Clone for DirectRoom {
    fn clone(&self) -> (r: Self)
        ensures
            r@ == self@,
    {
        let usernames = self.usernames.clone();
        assert(usernames@ =~= self.usernames@) by {
            assert forall|i: int| 0 <= i < usernames@.len() implies usernames@[i] == self.usernames@[i] by {
                assert(cloned::<String>(self.usernames[i], usernames[i]));
            }
        }
        DirectRoom {
            id: self.id.clone(),
            num_msgs: self.num_msgs,
            usernames,
            last_message_timestamp: self.last_message_timestamp,
        }
    }
}

pub open spec fn channels_view(v: Seq<Channel>) -> Seq<ChannelView> {
    v.map_values(|c: Channel| c@)
}

pub open spec fn direct_rooms_view(v: Seq<DirectRoom>) -> Seq<DirectRoomView> {
    v.map_values(|d: DirectRoom| d@)
}

/// The last-message time of a row: `-1` where it has none, `None` where its
/// text cannot be read.
pub open spec fn last_message_of(row: Json) -> Option<i64> {
    match timestamp_of(json_str(json_field(row, "lm"@))) {
        Ok(t) => Some(t as i64),
        Err(_) => None,
    }
}

/// The message count of a row, `0` where it has none.
pub open spec fn msgs_of(row: Json) -> u64 {
    match json_u64(json_field(row, "msgs"@)) {
        Some(n) => n,
        None => 0,
    }
}

/// The row names a channel: it has a string id and a string name.
pub open spec fn channel_row_ok(row: Json) -> bool {
    json_str(json_field(row, "_id"@)) is Some && json_str(json_field(row, "name"@)) is Some
}

pub open spec fn channel_of(row: Json) -> ChannelView {
    ChannelView {
        id: json_str(json_field(row, "_id"@))->0,
        name: json_str(json_field(row, "name"@))->0,
        num_msgs: msgs_of(row),
        last_message_timestamp: last_message_of(row),
    }
}

/// A row of the joined-channel listing must also give its message count.
pub open spec fn joined_row_ok(row: Json) -> bool {
    channel_row_ok(row) && json_u64(json_field(row, "msgs"@)) is Some
}

pub open spec fn all_strings(a: Seq<Json>) -> bool {
    forall|i: int| 0 <= i < a.len() ==> #[trigger] a[i] is Str
}

pub open spec fn direct_row_ok(row: Json) -> bool {
    &&& json_str(json_field(row, "_id"@)) is Some
    &&& json_array(json_field(row, "usernames"@)) is Some
    &&& all_strings(json_array(json_field(row, "usernames"@))->0)
}

pub open spec fn usernames_of(row: Json) -> Seq<Seq<char>> {
    json_array(json_field(row, "usernames"@))->0.map_values(|j: Json| json_str(Some(j))->0)
}

pub open spec fn direct_room_of(row: Json) -> DirectRoomView {
    DirectRoomView {
        id: json_str(json_field(row, "_id"@))->0,
        num_msgs: msgs_of(row),
        usernames: usernames_of(row),
        last_message_timestamp: last_message_of(row),
    }
}

/// The type of a row of the room listing; a row without `t` is unknown.
pub open spec fn room_type_of(row: Json) -> RoomType {
    match json_str(json_field(row, "t"@)) {
        Some(t) => room_type_spec(t),
        None => room_type_spec(Seq::empty()),
    }
}

/// A room row can be decoded: the fields that its type needs are there.
/// Rows of an unknown type are dropped and need nothing.
pub open spec fn room_row_ok(row: Json) -> bool {
    match room_type_of(row) {
        RoomType::Direct => direct_row_ok(row),
        RoomType::Channel => channel_row_ok(row),
        RoomType::Unknown => true,
    }
}

pub open spec fn as_direct(row: Json) -> Option<DirectRoomView> {
    if room_type_of(row) == RoomType::Direct {
        Some(direct_room_of(row))
    } else {
        None
    }
}

pub open spec fn as_channel(row: Json) -> Option<ChannelView> {
    if room_type_of(row) == RoomType::Channel {
        Some(channel_of(row))
    } else {
        None
    }
}

fn last_message(row: &Json) -> (r: Option<i64>)
    ensures
        r == last_message_of(*row),
{
    match str_to_timestamp(str_field(row, "lm")) {
        Ok(t) => Some(t),
        Err(_) => None,
    }
}

fn msgs(row: &Json) -> (r: Option<u64>)
    ensures
        r == json_u64(json_field(*row, "msgs"@)),
{
    match row.get("msgs") {
        Some(v) => v.as_u64(),
        None => None,
    }
}

/// Decodes a channel row; with `msgs_required`, a row without a message count
/// is refused.
fn channel_from_row(row: &Json, msgs_required: bool) -> (r: Option<Channel>)
    ensures
        r is Some <==> channel_row_ok(*row) && (msgs_required ==> json_u64(json_field(*row, "msgs"@)) is Some),
        r is Some ==> r->0@ == channel_of(*row),
{
    let id = match str_field(row, "_id") {
        Some(s) => s.to_owned(),
        None => return None,
    };
    let name = match str_field(row, "name") {
        Some(s) => s.to_owned(),
        None => return None,
    };
    let num_msgs = match msgs(row) {
        Some(n) => n,
        None => {
            if msgs_required {
                return None;
            }
            0
        },
    };
    Some(Channel { id, name, num_msgs, last_message_timestamp: last_message(row) })
}

fn usernames(a: &Vec<Json>) -> (r: Option<Vec<String>>)
    ensures
        r is Some <==> all_strings(a@),
        r is Some ==> texts_view(r->0@) == a@.map_values(|j: Json| json_str(Some(j))->0),
{
    let mut out: Vec<String> = Vec::new();
    let mut i: usize = 0;
    while i < a.len()
        invariant
            i <= a@.len(),
            out@.len() == i,
            forall|k: int| 0 <= k < i ==> #[trigger] a@[k] is Str,
            forall|k: int| 0 <= k < i ==> Some(#[trigger] out@[k]@) == json_str(Some(a@[k])),
        decreases a@.len() - i,
    {
        match a[i].as_str() {
            Some(s) => out.push(s.to_owned()),
            None => return None,
        }
        i = i + 1;
    }
    assert(texts_view(out@) =~= a@.map_values(|j: Json| json_str(Some(j))->0));
    Some(out)
}

fn direct_room_from_row(row: &Json) -> (r: Option<DirectRoom>)
    ensures
        r is Some <==> direct_row_ok(*row),
        r is Some ==> r->0@ == direct_room_of(*row),
{
    let id = match str_field(row, "_id") {
        Some(s) => s.to_owned(),
        None => return None,
    };
    let names = match row.get("usernames") {
        Some(v) => match v.as_array() {
            Some(a) => match usernames(a) {
                Some(n) => n,
                None => return None,
            },
            None => return None,
        },
        None => return None,
    };
    let num_msgs = match msgs(row) {
        Some(n) => n,
        None => 0,
    };
    Some(DirectRoom { id, num_msgs, usernames: names, last_message_timestamp: last_message(row) })
}

/// The rows of a joined-channel listing.
pub open spec fn joined_rows(body: Json) -> Option<Seq<Json>> {
    json_array(json_field(body, "channels"@))
}

/// A joined-channel listing decodes: it has a `channels` array and every row
/// gives an id, a name and a message count.
pub open spec fn joined_listing_ok(body: Json) -> bool {
    &&& joined_rows(body) is Some
    &&& forall|i: int| 0 <= i < joined_rows(body)->0.len() ==> joined_row_ok(#[trigger] joined_rows(body)->0[i])
}

pub open spec fn joined_channels_of(body: Json) -> Seq<ChannelView> {
    joined_rows(body)->0.map_values(|row: Json| channel_of(row))
}

/// Decodes the reply of the joined-channel listing: one channel per row, in
/// order. A row without id, name or message count makes the whole reply
/// malformed.
pub fn decode_joined_channels(body: &Json) -> (r: Result<Vec<Channel>, ApiError>)
    ensures
        r is Ok <==> joined_listing_ok(*body),
        r matches Ok(v) ==> channels_view(v@) == joined_channels_of(*body),
        r matches Err(e) ==> e == ApiError::MalformedResponse,
{
    let rows = match body.get("channels") {
        Some(v) => match v.as_array() {
            Some(a) => a,
            None => return Err(ApiError::MalformedResponse),
        },
        None => return Err(ApiError::MalformedResponse),
    };
    let ghost spec_rows = joined_rows(*body)->0;
    let mut out: Vec<Channel> = Vec::new();
    let mut i: usize = 0;
    while i < rows.len()
        invariant
            spec_rows == rows@,
            joined_rows(*body) == Some(spec_rows),
            i <= rows@.len(),
            out@.len() == i,
            forall|k: int| 0 <= k < i ==> joined_row_ok(#[trigger] rows@[k]),
            forall|k: int| 0 <= k < i ==> (#[trigger] out@[k])@ == channel_of(rows@[k]),
        decreases rows@.len() - i,
    {
        match channel_from_row(&rows[i], true) {
            Some(c) => out.push(c),
            None => {
                assert(!joined_row_ok(joined_rows(*body)->0[i as int]));
                return Err(ApiError::MalformedResponse);
            },
        }
        i = i + 1;
    }
    assert(channels_view(out@) =~= joined_channels_of(*body));
    Ok(out)
}

/// The rows of a room listing.
pub open spec fn room_rows(body: Json) -> Option<Seq<Json>> {
    json_array(json_field(body, "update"@))
}

/// The room listing reports success.
pub open spec fn rooms_listed(body: Json) -> bool {
    json_bool(json_field(body, "success"@)) == Some(true)
}

/// A successful room listing decodes: it has an `update` array, and every row
/// gives what its type needs.
pub open spec fn rooms_listing_ok(body: Json) -> bool {
    &&& room_rows(body) is Some
    &&& forall|i: int| 0 <= i < room_rows(body)->0.len() ==> room_row_ok(#[trigger] room_rows(body)->0[i])
}

pub open spec fn direct_rooms_of(rows: Seq<Json>) -> Seq<DirectRoomView> {
    rows.filter_map(|row: Json| as_direct(row))
}

pub open spec fn channel_rooms_of(rows: Seq<Json>) -> Seq<ChannelView> {
    rows.filter_map(|row: Json| as_channel(row))
}

/// Decodes the reply of the room listing. A reply that does not report
/// success gives `Ok(None)`: there is nothing to update. Otherwise the direct
/// rows become direct rooms and the channel rows channels, each in order;
/// rows of an unknown type are dropped.
pub fn decode_rooms(body: &Json) -> (r: Result<Option<(Vec<DirectRoom>, Vec<Channel>)>, ApiError>)
    ensures
        !rooms_listed(*body) ==> r == Ok::<Option<(Vec<DirectRoom>, Vec<Channel>)>, ApiError>(None),
        rooms_listed(*body) ==> (r is Ok <==> rooms_listing_ok(*body)),
        rooms_listed(*body) && r is Ok ==> r->Ok_0 is Some,
        r matches Ok(Some((d, c))) ==> direct_rooms_view(d@) == direct_rooms_of(room_rows(*body)->0)
            && channels_view(c@) == channel_rooms_of(room_rows(*body)->0),
        r matches Err(e) ==> e == ApiError::MalformedResponse,
{
    let listed = match body.get("success") {
        Some(v) => match v.as_bool() {
            Some(b) => b,
            None => false,
        },
        None => false,
    };
    if !listed {
        return Ok(None);
    }
    let rows = match body.get("update") {
        Some(v) => match v.as_array() {
            Some(a) => a,
            None => return Err(ApiError::MalformedResponse),
        },
        None => return Err(ApiError::MalformedResponse),
    };
    let ghost spec_rows = room_rows(*body)->0;
    let mut direct: Vec<DirectRoom> = Vec::new();
    let mut channels: Vec<Channel> = Vec::new();
    let mut i: usize = 0;
    while i < rows.len()
        invariant
            spec_rows == rows@,
            room_rows(*body) == Some(spec_rows),
            rooms_listed(*body),
            i <= rows@.len(),
            forall|k: int| 0 <= k < i ==> room_row_ok(#[trigger] rows@[k]),
            direct_rooms_view(direct@) == direct_rooms_of(rows@.take(i as int)),
            channels_view(channels@) == channel_rooms_of(rows@.take(i as int)),
        decreases rows@.len() - i,
    {
        proof {
            rows@.lemma_filter_map_take_succ(|row: Json| as_direct(row), i as int);
            rows@.lemma_filter_map_take_succ(|row: Json| as_channel(row), i as int);
        }
        let row = &rows[i];
        let t = match str_field(row, "t") {
            Some(t) => t,
            None => "",
        };
        proof {
            reveal_strlit("");
        }
        assert(t@ =~= match json_str(json_field(spec_rows[i as int], "t"@)) {
            Some(x) => x,
            None => Seq::empty(),
        });
        let ty = RoomType::from_str(t);
        assert(ty == room_type_of(spec_rows[i as int]));
        match ty {
            RoomType::Direct => {
                match direct_room_from_row(row) {
                    Some(d) => {
                        let ghost before = direct@;
                        direct.push(d);
                        assert(direct_rooms_view(direct@) =~= direct_rooms_view(before).push(d@));
                    },
                    None => {
                        assert(!room_row_ok(room_rows(*body)->0[i as int]));
                        return Err(ApiError::MalformedResponse);
                    },
                }
            },
            RoomType::Channel => {
                match channel_from_row(row, false) {
                    Some(c) => {
                        let ghost before = channels@;
                        channels.push(c);
                        assert(channels_view(channels@) =~= channels_view(before).push(c@));
                    },
                    None => {
                        assert(!room_row_ok(room_rows(*body)->0[i as int]));
                        return Err(ApiError::MalformedResponse);
                    },
                }
            },
            RoomType::Unknown => {},
        }
        i = i + 1;
    }
    assert(rows@.take(rows@.len() as int) =~= rows@);
    Ok(Some((direct, channels)))
}

/// Rooms are classified by their type letter: every direct room that a room
/// listing yields comes from a row whose type is `"d"`, and every channel from
/// a row whose type is `"c"` or `"p"`. So a `"d"` row never yields a channel, a
/// `"c"` or `"p"` row never a direct room, and a row of any other type neither.
pub proof fn lemma_room_classification(rows: Seq<Json>)
    ensures
        forall|d: DirectRoomView| #[trigger] direct_rooms_of(rows).contains(d) ==> exists|row: Json|
            #[trigger] rows.contains(row) && json_str(json_field(row, "t"@)) == Some("d"@)
                && d == direct_room_of(row),
        forall|c: ChannelView| #[trigger] channel_rooms_of(rows).contains(c) ==> exists|row: Json|
            #[trigger] rows.contains(row) && (json_str(json_field(row, "t"@)) == Some("c"@)
                || json_str(json_field(row, "t"@)) == Some("p"@)) && c == channel_of(row),
{
    assert forall|d: DirectRoomView| #[trigger] direct_rooms_of(rows).contains(d) implies exists|row: Json|
        #[trigger] rows.contains(row) && json_str(json_field(row, "t"@)) == Some("d"@)
            && d == direct_room_of(row) by {
        rows.lemma_filter_map_contains(|row: Json| as_direct(row), d);
        let row = choose|row: Json| rows.contains(row) && as_direct(row) == Some(d);
        empty_is_no_type_letter();
    }
    assert forall|c: ChannelView| #[trigger] channel_rooms_of(rows).contains(c) implies exists|row: Json|
        #[trigger] rows.contains(row) && (json_str(json_field(row, "t"@)) == Some("c"@)
            || json_str(json_field(row, "t"@)) == Some("p"@)) && c == channel_of(row) by {
        rows.lemma_filter_map_contains(|row: Json| as_channel(row), c);
        let row = choose|row: Json| rows.contains(row) && as_channel(row) == Some(c);
        empty_is_no_type_letter();
    }
}

proof fn empty_is_no_type_letter()
    ensures
        room_type_spec(Seq::empty()) == RoomType::Unknown,
{
    reveal_strlit("d");
    reveal_strlit("c");
    reveal_strlit("p");
    assert("d"@.len() == 1 && "c"@.len() == 1 && "p"@.len() == 1);
}

} // verus!
