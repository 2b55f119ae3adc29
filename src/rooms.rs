use vstd::prelude::*;
use vstd::string::*;
use crate::registry::Registry;
use crate::text::{decimal, decimal_string};

verus! {

/// What the room list shows of a room besides its identifier.
pub struct ExtraRoomInfo {
    /// Content of the room's raw name event, if available.
    pub raw_name: Option<String>,
    /// Display name computed for the room, if available.
    pub display_name: Option<String>,
    /// Whether the room is a direct-message room, if that could be told.
    pub is_dm: Option<bool>,
}

fn copy_name(n: &Option<String>) -> (r: Option<String>)
    ensures
        r == *n,
{
    match n {
        Some(s) => Some(s.clone()),
        None => None,
    }
}

impl ExtraRoomInfo {
    /// A full copy.
    pub fn copy(&self) -> (r: ExtraRoomInfo)
        ensures
            r == *self,
    {
        ExtraRoomInfo {
            raw_name: copy_name(&self.raw_name),
            display_name: copy_name(&self.display_name),
            is_dm: self.is_dm,
        }
    }
}

/// Cached display attributes of each room seen in the room list.
pub struct RoomProjections {
    infos: Registry<ExtraRoomInfo>,
}

impl RoomProjections {
    /// The attributes held, room by room.
    pub closed spec fn view(&self) -> Map<Seq<char>, ExtraRoomInfo> {
        self.infos.view()
    }

    pub closed spec fn wf(&self) -> bool {
        self.infos.wf()
    }

    /// A store that knows no room.
    pub fn new() -> (r: Self)
        ensures
            r.wf(),
            r.view() == Map::<Seq<char>, ExtraRoomInfo>::empty(),
    {
        RoomProjections { infos: Registry::new() }
    }

    /// The number of rooms known.
    pub fn len(&self) -> (r: usize)
        requires
            self.wf(),
        ensures
            r == self.view().len(),
    {
        self.infos.len()
    }

    /// Records the three attributes of `room_id`, replacing all that was
    /// held for it.
    pub fn update(
        &mut self,
        room_id: String,
        raw_name: Option<String>,
        display_name: Option<String>,
        is_dm: Option<bool>,
    )
        requires
            old(self).wf(),
        ensures
            final(self).wf(),
            final(self).view() == old(self).view().insert(
                room_id@,
                ExtraRoomInfo { raw_name, display_name, is_dm },
            ),
    {
        self.infos.insert(room_id, ExtraRoomInfo { raw_name, display_name, is_dm });
    }

    /// A copy of what is held for `room_id`, if anything.
    pub fn info(&self, room_id: &String) -> (r: Option<ExtraRoomInfo>)
        requires
            self.wf(),
        ensures
            r == (if self.view().contains_key(room_id@) {
                Some(self.view()[room_id@])
            } else {
                None
            }),
    {
        match self.infos.get(room_id) {
            Some(info) => Some(info.copy()),
            None => None,
        }
    }
}

/// After an update, the room's attributes are exactly the three given, whatever
/// was held before; other rooms keep theirs.
pub proof fn lemma_update_overwrites(
    before: Map<Seq<char>, ExtraRoomInfo>,
    room_id: Seq<char>,
    info: ExtraRoomInfo,
    other: Seq<char>,
)
    ensures
        before.insert(room_id, info)[room_id] == info,
        other != room_id ==> before.insert(room_id, info).contains_key(other)
            == before.contains_key(other),
        other != room_id && before.contains_key(other) ==> before.insert(room_id, info)[other]
            == before[other],
{
}

/// The name shown for a room: its display name, else its raw name, each
/// followed by the identifier, else the identifier alone.
pub open spec fn room_label(room_id: Seq<char>, info: Option<ExtraRoomInfo>) -> Seq<char> {
    match info {
        Some(i) => match i.display_name {
            Some(n) => n@ + " ("@ + room_id + ")"@,
            None => match i.raw_name {
                Some(n) => "m.room.name:"@ + n@ + " ("@ + room_id + ")"@,
                None => room_id,
            },
        },
        None => room_id,
    }
}

/// Whether a room is known to be a direct-message room.
pub open spec fn known_dm(info: Option<ExtraRoomInfo>) -> bool {
    match info {
        Some(i) => i.is_dm == Some(true),
        None => false,
    }
}

/// The room list line for the room at `index`: its position, a marker for
/// direct-message rooms, and its label.
pub open spec fn room_line_text(index: nat, room_id: Seq<char>, info: Option<ExtraRoomInfo>) -> Seq<
    char,
> {
    "#"@ + decimal(index) + (if known_dm(info) {
        "\u{1f92b}"@
    } else {
        Seq::empty()
    }) + " "@ + room_label(room_id, info)
}

/// Writes the room list line for the room at `index`.
pub fn room_line(index: u64, room_id: &String, info: &Option<ExtraRoomInfo>) -> (r: String)
    ensures
        r@ == room_line_text(index as nat, room_id@, *info),
{
    proof {
        reveal_strlit("#");
        reveal_strlit("\u{1f92b}");
        reveal_strlit(" ");
        reveal_strlit(" (");
        reveal_strlit(")");
        reveal_strlit("m.room.name:");
    }
    let mut line = String::from_str("#");
    let number = decimal_string(index);
    line.append(number.as_str());
    let dm = match info {
        Some(i) => match i.is_dm {
            Some(d) => d,
            None => false,
        },
        None => false,
    };
    if dm {
        line.append("\u{1f92b}");
    }
    line.append(" ");
    let ghost head = line@;
    match info {
        Some(i) => match &i.display_name {
            Some(n) => {
                line.append(n.as_str());
                line.append(" (");
                line.append(room_id.as_str());
                line.append(")");
            },
            None => match &i.raw_name {
                Some(n) => {
                    line.append("m.room.name:");
                    line.append(n.as_str());
                    line.append(" (");
                    line.append(room_id.as_str());
                    line.append(")");
                },
                None => {
                    line.append(room_id.as_str());
                },
            },
        },
        None => {
            line.append(room_id.as_str());
        },
    }
    assert(line@ =~= room_line_text(index as nat, room_id@, *info));
    line
}

} // verus!
