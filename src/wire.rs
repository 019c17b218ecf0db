//! Transcoding between the maze API's wire shape and the canonical model.
//!
//! A wire payload is the set of top-level fields of a JSON object, each
//! present or absent. Decoding picks the shape by the fields present, in a
//! fixed order: a room, then an exit, then a message. Enumerated strings are
//! checked exactly and an unknown one is an error, never a default.

use vstd::prelude::*;
use crate::pathbot_api::{
    ApiMessageView, CompassDirection, Exit, ExitView, MazeExitHint, Message, MoveDirection,
    PathbotApiMessage, Room, RoomStatus, RoomView,
};

verus! {

/// A top-level field of the wire format.
#[derive(PartialEq, Eq, Structural, Debug, Copy, Clone)]
pub enum WireField {
    Status,
    Message,
    Exits,
    Description,
    MazeExitDirection,
    MazeExitDistance,
    LocationPath,
}

impl WireField {
    pub open spec fn spec_wire_name(self) -> Seq<char> {
        match self {
            WireField::Status => "status"@,
            WireField::Message => "message"@,
            WireField::Exits => "exits"@,
            WireField::Description => "description"@,
            WireField::MazeExitDirection => "mazeExitDirection"@,
            WireField::MazeExitDistance => "mazeExitDistance"@,
            WireField::LocationPath => "locationPath"@,
        }
    }

    /// The field's key in the JSON object.
    pub fn wire_name(self) -> (r: &'static str)
        ensures
            r@ == self.spec_wire_name(),
    {
        match self {
            WireField::Status => "status",
            WireField::Message => "message",
            WireField::Exits => "exits",
            WireField::Description => "description",
            WireField::MazeExitDirection => "mazeExitDirection",
            WireField::MazeExitDistance => "mazeExitDistance",
            WireField::LocationPath => "locationPath",
        }
    }
}

/// Why a payload could not be decoded.
#[derive(PartialEq, Eq, Debug, Clone)]
pub enum DecodeError {
    /// The shape was recognised but a field it needs is absent.
    MissingField(WireField),
    /// An enumerated field holds a string outside its set.
    UnknownEnumValue(WireField, String),
    /// The payload has the fields of none of the three shapes.
    NoMatchingShape,
}

pub enum DecodeErrorView {
    MissingField(WireField),
    UnknownEnumValue(WireField, Seq<char>),
    NoMatchingShape,
}

impl View for DecodeError {
    type V = DecodeErrorView;

    open spec fn view(&self) -> DecodeErrorView {
        match self {
            DecodeError::MissingField(f) => DecodeErrorView::MissingField(*f),
            DecodeError::UnknownEnumValue(f, v) => DecodeErrorView::UnknownEnumValue(*f, v@),
            DecodeError::NoMatchingShape => DecodeErrorView::NoMatchingShape,
        }
    }
}

/// The top-level fields of a payload; `None` for an absent field.
#[derive(PartialEq, Eq, Debug, Clone)]
pub struct WirePayload {
    pub status: Option<String>,
    pub message: Option<String>,
    pub exits: Option<Vec<String>>,
    pub description: Option<String>,
    pub maze_exit_direction: Option<String>,
    pub maze_exit_distance: Option<u32>,
    pub location_path: Option<String>,
}

pub struct WireView {
    pub status: Option<Seq<char>>,
    pub message: Option<Seq<char>>,
    pub exits: Option<Seq<Seq<char>>>,
    pub description: Option<Seq<char>>,
    pub maze_exit_direction: Option<Seq<char>>,
    pub maze_exit_distance: Option<u32>,
    pub location_path: Option<Seq<char>>,
}

pub open spec fn opt_str_view(o: Option<String>) -> Option<Seq<char>> {
    match o {
        Some(s) => Some(s@),
        None => None,
    }
}

pub open spec fn strings_view(v: Seq<String>) -> Seq<Seq<char>> {
    v.map_values(|s: String| s@)
}

impl View for WirePayload {
    type V = WireView;

    open spec fn view(&self) -> WireView {
        WireView {
            status: opt_str_view(self.status),
            message: opt_str_view(self.message),
            exits: match self.exits {
                Some(v) => Some(strings_view(v@)),
                None => None,
            },
            description: opt_str_view(self.description),
            maze_exit_direction: opt_str_view(self.maze_exit_direction),
            maze_exit_distance: self.maze_exit_distance,
            location_path: opt_str_view(self.location_path),
        }
    }
}

pub open spec fn spec_parse_status(s: Seq<char>) -> Option<RoomStatus> {
    if s == RoomStatus::InProgress.spec_wire_name() {
        Some(RoomStatus::InProgress)
    } else if s == RoomStatus::Finished.spec_wire_name() {
        Some(RoomStatus::Finished)
    } else {
        None
    }
}

pub open spec fn spec_parse_move(s: Seq<char>) -> Option<MoveDirection> {
    if s == MoveDirection::N.spec_short_name() {
        Some(MoveDirection::N)
    } else if s == MoveDirection::S.spec_short_name() {
        Some(MoveDirection::S)
    } else if s == MoveDirection::E.spec_short_name() {
        Some(MoveDirection::E)
    } else if s == MoveDirection::W.spec_short_name() {
        Some(MoveDirection::W)
    } else {
        None
    }
}

pub open spec fn spec_parse_compass(s: Seq<char>) -> Option<CompassDirection> {
    if s == CompassDirection::N.spec_short_name() {
        Some(CompassDirection::N)
    } else if s == CompassDirection::S.spec_short_name() {
        Some(CompassDirection::S)
    } else if s == CompassDirection::E.spec_short_name() {
        Some(CompassDirection::E)
    } else if s == CompassDirection::W.spec_short_name() {
        Some(CompassDirection::W)
    } else if s == CompassDirection::NW.spec_short_name() {
        Some(CompassDirection::NW)
    } else if s == CompassDirection::NE.spec_short_name() {
        Some(CompassDirection::NE)
    } else if s == CompassDirection::SW.spec_short_name() {
        Some(CompassDirection::SW)
    } else if s == CompassDirection::SE.spec_short_name() {
        Some(CompassDirection::SE)
    } else {
        None
    }
}

/// Whether `i` is the first position of `s` that names no move.
pub open spec fn is_first_unknown_exit(s: Seq<Seq<char>>, i: int) -> bool {
    &&& 0 <= i < s.len()
    &&& spec_parse_move(s[i]) is None
    &&& forall|j: int| 0 <= j < i ==> (#[trigger] spec_parse_move(s[j])) is Some
}

/// The moves that a list of exit codes names, or the first code that names none.
pub open spec fn spec_parse_exits(s: Seq<Seq<char>>) -> Result<Seq<MoveDirection>, Seq<char>> {
    if forall|i: int| 0 <= i < s.len() ==> (#[trigger] spec_parse_move(s[i])) is Some {
        Ok(s.map_values(|c: Seq<char>| spec_parse_move(c)->Some_0))
    } else {
        Err(s[choose|i: int| is_first_unknown_exit(s, i)])
    }
}

/// A room needs these fields; without one of them the payload is not a room.
pub open spec fn is_room_shaped(w: WireView) -> bool {
    &&& w.status is Some
    &&& w.exits is Some
    &&& w.maze_exit_direction is Some
    &&& w.maze_exit_distance is Some
    &&& w.location_path is Some
}

/// An exit has a status and a description and no exits.
pub open spec fn is_exit_shaped(w: WireView) -> bool {
    &&& w.status is Some
    &&& w.description is Some
    &&& w.exits is None
}

pub open spec fn spec_decode_room(w: WireView) -> Result<ApiMessageView, DecodeErrorView>
    recommends
        is_room_shaped(w),
{
    let status = w.status->Some_0;
    let direction = w.maze_exit_direction->Some_0;
    match spec_parse_status(status) {
        None => Err(DecodeErrorView::UnknownEnumValue(WireField::Status, status)),
        Some(st) => if w.message is None {
            Err(DecodeErrorView::MissingField(WireField::Message))
        } else {
            match spec_parse_exits(w.exits->Some_0) {
                Err(v) => Err(DecodeErrorView::UnknownEnumValue(WireField::Exits, v)),
                Ok(exits) => if w.description is None {
                    Err(DecodeErrorView::MissingField(WireField::Description))
                } else {
                    match spec_parse_compass(direction) {
                        None => Err(
                            DecodeErrorView::UnknownEnumValue(WireField::MazeExitDirection, direction),
                        ),
                        Some(d) => Ok(
                            ApiMessageView::Room(
                                RoomView {
                                    status: st,
                                    message: w.message->Some_0,
                                    exits: exits,
                                    description: w.description->Some_0,
                                    maze_exit_hint: MazeExitHint {
                                        direction: d,
                                        distance: w.maze_exit_distance->Some_0,
                                    },
                                    location_path: w.location_path->Some_0,
                                },
                            ),
                        ),
                    }
                },
            }
        },
    }
}

/// What a payload decodes to.
pub open spec fn spec_decode(w: WireView) -> Result<ApiMessageView, DecodeErrorView> {
    if is_room_shaped(w) {
        spec_decode_room(w)
    } else if is_exit_shaped(w) {
        match spec_parse_status(w.status->Some_0) {
            Some(st) => Ok(
                ApiMessageView::Exit(ExitView { status: st, description: w.description->Some_0 }),
            ),
            None => Err(DecodeErrorView::UnknownEnumValue(WireField::Status, w.status->Some_0)),
        }
    } else if w.message is Some {
        Ok(ApiMessageView::Message(w.message->Some_0))
    } else {
        Err(DecodeErrorView::NoMatchingShape)
    }
}

/// The payload that a message encodes to.
pub open spec fn spec_encode(m: ApiMessageView) -> WireView {
    match m {
        ApiMessageView::Room(r) => WireView {
            status: Some(r.status.spec_wire_name()),
            message: Some(r.message),
            exits: Some(r.exits.map_values(|d: MoveDirection| d.spec_short_name())),
            description: Some(r.description),
            maze_exit_direction: Some(r.maze_exit_hint.direction.spec_short_name()),
            maze_exit_distance: Some(r.maze_exit_hint.distance),
            location_path: Some(r.location_path),
        },
        ApiMessageView::Exit(e) => WireView {
            status: Some(e.status.spec_wire_name()),
            message: None,
            exits: None,
            description: Some(e.description),
            maze_exit_direction: None,
            maze_exit_distance: None,
            location_path: None,
        },
        ApiMessageView::Message(text) => WireView {
            status: None,
            message: Some(text),
            exits: None,
            description: None,
            maze_exit_direction: None,
            maze_exit_distance: None,
            location_path: None,
        },
    }
}


/// Whether a string reads exactly as a given literal.
pub(crate) fn is_text(s: &String, lit: &str) -> (r: bool)
    ensures
        r == (s@ == lit@),
{
    let t = lit.to_owned();
    *s == t
}

impl RoomStatus {
    /// The status that a wire string names, if any.
    pub fn from_wire(s: &String) -> (r: Option<RoomStatus>)
        ensures
            r == spec_parse_status(s@),
    {
        if is_text(s, RoomStatus::InProgress.wire_name()) {
            Some(RoomStatus::InProgress)
        } else if is_text(s, RoomStatus::Finished.wire_name()) {
            Some(RoomStatus::Finished)
        } else {
            None
        }
    }
}

impl MoveDirection {
    /// The move that a wire code names, if any.
    pub fn from_short_name(s: &String) -> (r: Option<MoveDirection>)
        ensures
            r == spec_parse_move(s@),
    {
        if is_text(s, MoveDirection::N.short_name()) {
            Some(MoveDirection::N)
        } else if is_text(s, MoveDirection::S.short_name()) {
            Some(MoveDirection::S)
        } else if is_text(s, MoveDirection::E.short_name()) {
            Some(MoveDirection::E)
        } else if is_text(s, MoveDirection::W.short_name()) {
            Some(MoveDirection::W)
        } else {
            None
        }
    }
}

impl CompassDirection {
    /// The heading that a wire code names, if any.
    pub fn from_short_name(s: &String) -> (r: Option<CompassDirection>)
        ensures
            r == spec_parse_compass(s@),
    {
        if is_text(s, CompassDirection::N.short_name()) {
            Some(CompassDirection::N)
        } else if is_text(s, CompassDirection::S.short_name()) {
            Some(CompassDirection::S)
        } else if is_text(s, CompassDirection::E.short_name()) {
            Some(CompassDirection::E)
        } else if is_text(s, CompassDirection::W.short_name()) {
            Some(CompassDirection::W)
        } else if is_text(s, CompassDirection::NW.short_name()) {
            Some(CompassDirection::NW)
        } else if is_text(s, CompassDirection::NE.short_name()) {
            Some(CompassDirection::NE)
        } else if is_text(s, CompassDirection::SW.short_name()) {
            Some(CompassDirection::SW)
        } else if is_text(s, CompassDirection::SE.short_name()) {
            Some(CompassDirection::SE)
        } else {
            None
        }
    }
}

/// Every name that encoding writes is read back as the value it came from.
pub proof fn lemma_names_parse_back()
    ensures
        forall|st: RoomStatus| spec_parse_status(#[trigger] st.spec_wire_name()) == Some(st),
        forall|d: MoveDirection| spec_parse_move(#[trigger] d.spec_short_name()) == Some(d),
        forall|c: CompassDirection| spec_parse_compass(#[trigger] c.spec_short_name()) == Some(c),
{
    reveal_strlit("in-progress");
    reveal_strlit("finished");
    reveal_strlit("N");
    reveal_strlit("S");
    reveal_strlit("E");
    reveal_strlit("W");
    reveal_strlit("NW");
    reveal_strlit("NE");
    reveal_strlit("SW");
    reveal_strlit("SE");
    assert("in-progress"@ != "finished"@) by {
        assert("in-progress"@[0] != "finished"@[0]);
    }
    assert("N"@ != "S"@) by { assert("N"@[0] != "S"@[0]); }
    assert("N"@ != "E"@) by { assert("N"@[0] != "E"@[0]); }
    assert("N"@ != "W"@) by { assert("N"@[0] != "W"@[0]); }
    assert("S"@ != "E"@) by { assert("S"@[0] != "E"@[0]); }
    assert("S"@ != "W"@) by { assert("S"@[0] != "W"@[0]); }
    assert("E"@ != "W"@) by { assert("E"@[0] != "W"@[0]); }
    assert("NW"@ != "NE"@) by { assert("NW"@[1] != "NE"@[1]); }
    assert("NW"@ != "SW"@) by { assert("NW"@[0] != "SW"@[0]); }
    assert("NW"@ != "SE"@) by { assert("NW"@[0] != "SE"@[0]); }
    assert("NE"@ != "SW"@) by { assert("NE"@[0] != "SW"@[0]); }
    assert("NE"@ != "SE"@) by { assert("NE"@[0] != "SE"@[0]); }
    assert("SW"@ != "SE"@) by { assert("SW"@[1] != "SE"@[1]); }
    assert("N"@.len() == 1 && "S"@.len() == 1 && "E"@.len() == 1 && "W"@.len() == 1);
    assert("NW"@.len() == 2 && "NE"@.len() == 2 && "SW"@.len() == 2 && "SE"@.len() == 2);
}

/// Whether a decoding result is, up to views, the given one.
pub open spec fn result_is(
    r: Result<PathbotApiMessage, DecodeError>,
    expected: Result<ApiMessageView, DecodeErrorView>,
) -> bool {
    match r {
        Ok(m) => expected == Ok::<ApiMessageView, DecodeErrorView>(m@),
        Err(e) => expected == Err::<ApiMessageView, DecodeErrorView>(e@),
    }
}

/// The moves named by a list of exit codes, or the first code that names none.
pub fn decode_exits(codes: &Vec<String>) -> (r: Result<Vec<MoveDirection>, String>)
    ensures
        match r {
            Ok(ds) => spec_parse_exits(strings_view(codes@)) == Ok::<Seq<MoveDirection>, Seq<char>>(ds@),
            Err(v) => spec_parse_exits(strings_view(codes@)) == Err::<Seq<MoveDirection>, Seq<char>>(v@),
        },
{
    let ghost sv = strings_view(codes@);
    let mut out: Vec<MoveDirection> = Vec::new();
    let mut i: usize = 0;
    while i < codes.len()
        invariant
            i <= codes.len(),
            sv == strings_view(codes@),
            sv.len() == codes@.len(),
            out@.len() == i,
            forall|j: int| 0 <= j < i ==> (#[trigger] spec_parse_move(sv[j])) is Some,
            forall|j: int| 0 <= j < i ==> out@[j] == (#[trigger] spec_parse_move(sv[j]))->Some_0,
        decreases codes.len() - i,
    {
        match MoveDirection::from_short_name(&codes[i]) {
            Some(d) => {
                out.push(d);
            },
            None => {
                assert(is_first_unknown_exit(sv, i as int));
                let ghost k = choose|k: int| is_first_unknown_exit(sv, k);
                assert(k == i) by {
                    if k < i {
                        assert(spec_parse_move(sv[k]) is Some);
                    } else if k > i {
                        assert(spec_parse_move(sv[i as int]) is Some);
                    }
                }
                return Err(codes[i].clone());
            },
        }
        i = i + 1;
    }
    assert(out@ =~= sv.map_values(|c: Seq<char>| spec_parse_move(c)->Some_0));
    Ok(out)
}

fn decode_room(
    status: String,
    message: Option<String>,
    exits: Vec<String>,
    description: Option<String>,
    direction: String,
    distance: u32,
    location_path: String,
) -> (r: Result<PathbotApiMessage, DecodeError>)
    ensures
        result_is(
            r,
            spec_decode_room(
                WireView {
                    status: Some(status@),
                    message: opt_str_view(message),
                    exits: Some(strings_view(exits@)),
                    description: opt_str_view(description),
                    maze_exit_direction: Some(direction@),
                    maze_exit_distance: Some(distance),
                    location_path: Some(location_path@),
                },
            ),
        ),
{
    let st = match RoomStatus::from_wire(&status) {
        Some(st) => st,
        None => {
            return Err(DecodeError::UnknownEnumValue(WireField::Status, status));
        },
    };
    let message = match message {
        Some(m) => m,
        None => {
            return Err(DecodeError::MissingField(WireField::Message));
        },
    };
    let moves = match decode_exits(&exits) {
        Ok(ds) => ds,
        Err(v) => {
            return Err(DecodeError::UnknownEnumValue(WireField::Exits, v));
        },
    };
    let description = match description {
        Some(d) => d,
        None => {
            return Err(DecodeError::MissingField(WireField::Description));
        },
    };
    let heading = match CompassDirection::from_short_name(&direction) {
        Some(c) => c,
        None => {
            return Err(DecodeError::UnknownEnumValue(WireField::MazeExitDirection, direction));
        },
    };
    Ok(
        PathbotApiMessage::Room(
            Room {
                status: st,
                message,
                exits: moves,
                description,
                maze_exit_hint: MazeExitHint { direction: heading, distance },
                location_path,
            },
        ),
    )
}

/// Decodes a payload: a room if it has a room's fields, else an exit if it
/// has an exit's, else a message if it has one.
pub fn decode(w: WirePayload) -> (r: Result<PathbotApiMessage, DecodeError>)
    ensures
        result_is(r, spec_decode(w@)),
{
    let WirePayload {
        status,
        message,
        exits,
        description,
        maze_exit_direction,
        maze_exit_distance,
        location_path,
    } = w;
    match (status, exits, maze_exit_direction, maze_exit_distance, location_path) {
        (Some(st), Some(ex), Some(dir), Some(dist), Some(path)) => {
            decode_room(st, message, ex, description, dir, dist, path)
        },
        (status, exits, _, _, _) => {
            match (status, exits, description) {
                (Some(st), None, Some(desc)) => match RoomStatus::from_wire(&st) {
                    Some(s) => Ok(PathbotApiMessage::Exit(Exit { status: s, description: desc })),
                    None => Err(DecodeError::UnknownEnumValue(WireField::Status, st)),
                },
                _ => match message {
                    Some(m) => Ok(PathbotApiMessage::Message(Message { message: m })),
                    None => Err(DecodeError::NoMatchingShape),
                },
            }
        },
    }
}

fn encode_exits(exits: &Vec<MoveDirection>) -> (r: Vec<String>)
    ensures
        strings_view(r@) == exits@.map_values(|d: MoveDirection| d.spec_short_name()),
{
    let mut out: Vec<String> = Vec::new();
    let mut i: usize = 0;
    while i < exits.len()
        invariant
            i <= exits.len(),
            out@.len() == i,
            forall|j: int| 0 <= j < i ==> (#[trigger] out@[j])@ == exits@[j].spec_short_name(),
        decreases exits.len() - i,
    {
        out.push(exits[i].short_name().to_owned());
        i = i + 1;
    }
    assert(strings_view(out@) =~= exits@.map_values(|d: MoveDirection| d.spec_short_name()));
    out
}

/// The wire payload of a message; a room's hint is spread over the two
/// top-level fields `mazeExitDirection` and `mazeExitDistance`.
pub fn encode(m: &PathbotApiMessage) -> (r: WirePayload)
    ensures
        r@ == spec_encode(m@),
{
    match m {
        PathbotApiMessage::Room(room) => WirePayload {
            status: Some(room.status.wire_name().to_owned()),
            message: Some(room.message.clone()),
            exits: Some(encode_exits(&room.exits)),
            description: Some(room.description.clone()),
            maze_exit_direction: Some(room.maze_exit_hint.direction.short_name().to_owned()),
            maze_exit_distance: Some(room.maze_exit_hint.distance),
            location_path: Some(room.location_path.clone()),
        },
        PathbotApiMessage::Exit(exit) => WirePayload {
            status: Some(exit.status.wire_name().to_owned()),
            message: None,
            exits: None,
            description: Some(exit.description.clone()),
            maze_exit_direction: None,
            maze_exit_distance: None,
            location_path: None,
        },
        PathbotApiMessage::Message(msg) => WirePayload {
            status: None,
            message: Some(msg.message.clone()),
            exits: None,
            description: None,
            maze_exit_direction: None,
            maze_exit_distance: None,
            location_path: None,
        },
    }
}

/// Decoding an encoded message gives the message back.
pub proof fn lemma_round_trip(m: ApiMessageView)
    ensures
        spec_decode(spec_encode(m)) == Ok::<ApiMessageView, DecodeErrorView>(m),
{
    lemma_names_parse_back();
    match m {
        ApiMessageView::Room(r) => {
            let codes = r.exits.map_values(|d: MoveDirection| d.spec_short_name());
            assert forall|i: int| 0 <= i < codes.len() implies (#[trigger] spec_parse_move(
                codes[i],
            )) == Some(r.exits[i]) by {
                assert(codes[i] == r.exits[i].spec_short_name());
            }
            assert(codes.map_values(|c: Seq<char>| spec_parse_move(c)->Some_0) =~= r.exits);
        },
        _ => {},
    }
}

/// An enumerated field never falls back to a default: where decoding
/// succeeds, each enumerated string it read is the exact name of the value it
/// produced, and where a room or an exit holds a string outside its field's
/// set, decoding fails.
pub proof fn lemma_unknown_enum_value_fails(w: WireView)
    ensures
        spec_decode(w) matches Ok(ApiMessageView::Room(r)) ==> {
            &&& w.status == Some(r.status.spec_wire_name())
            &&& w.exits == Some(r.exits.map_values(|d: MoveDirection| d.spec_short_name()))
            &&& w.maze_exit_direction == Some(r.maze_exit_hint.direction.spec_short_name())
        },
        spec_decode(w) matches Ok(ApiMessageView::Exit(e)) ==> w.status == Some(
            e.status.spec_wire_name(),
        ),
        is_room_shaped(w) && (spec_parse_status(w.status->Some_0) is None || spec_parse_compass(
            w.maze_exit_direction->Some_0,
        ) is None || exists|i: int|
            0 <= i < w.exits->Some_0.len() && (#[trigger] spec_parse_move(w.exits->Some_0[i]))
                is None) ==> spec_decode(w) is Err,
        !is_room_shaped(w) && is_exit_shaped(w) && spec_parse_status(w.status->Some_0) is None
            ==> spec_decode(w) == Err::<ApiMessageView, DecodeErrorView>(
            DecodeErrorView::UnknownEnumValue(WireField::Status, w.status->Some_0),
        ),
{
    if let Ok(ApiMessageView::Room(r)) = spec_decode(w) {
        let codes = w.exits->Some_0;
        assert(spec_parse_exits(codes) == Ok::<Seq<MoveDirection>, Seq<char>>(r.exits));
        assert forall|i: int| 0 <= i < codes.len() implies codes[i] == (#[trigger] r.exits[i]).spec_short_name() by {
            assert(spec_parse_move(codes[i]) is Some);
        }
        assert(codes =~= r.exits.map_values(|d: MoveDirection| d.spec_short_name()));
    }
}

impl DecodeError {
    pub open spec fn spec_describe(e: DecodeErrorView) -> Seq<char> {
        match e {
            DecodeErrorView::MissingField(f) => "missing field "@ + f.spec_wire_name(),
            DecodeErrorView::UnknownEnumValue(f, v) => "unknown value \""@ + v + "\" for field "@
                + f.spec_wire_name(),
            DecodeErrorView::NoMatchingShape => "the payload is neither a room, an exit nor a message"@,
        }
    }

    /// A sentence for the user.
    pub fn describe(&self) -> (r: String)
        ensures
            r@ == DecodeError::spec_describe(self@),
    {
        match self {
            DecodeError::MissingField(f) => "missing field ".to_owned().concat(f.wire_name()),
            DecodeError::UnknownEnumValue(f, v) => "unknown value \"".to_owned().concat(
                v.as_str(),
            ).concat("\" for field ").concat(f.wire_name()),
            DecodeError::NoMatchingShape => "the payload is neither a room, an exit nor a message".to_owned(),
        }
    }
}

} // verus!
