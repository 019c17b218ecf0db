use pathbot::pathbot_api::{
    CompassDirection, Exit, MazeExitHint, Message, MoveDirection, PathbotApiMessage, Room,
    RoomStatus,
};
use pathbot::wire::{decode, decode_exits, encode, DecodeError, WireField, WirePayload};

fn s(v: &str) -> String {
    v.to_string()
}

fn room_payload() -> WirePayload {
    WirePayload {
        status: Some(s("in-progress")),
        message: Some(s("")),
        exits: Some(vec![s("N"), s("E")]),
        description: Some(s("d")),
        maze_exit_direction: Some(s("NE")),
        maze_exit_distance: Some(5),
        location_path: Some(s("/pathbot/room1")),
    }
}

fn empty_payload() -> WirePayload {
    WirePayload {
        status: None,
        message: None,
        exits: None,
        description: None,
        maze_exit_direction: None,
        maze_exit_distance: None,
        location_path: None,
    }
}

fn sample_room() -> Room {
    Room {
        status: RoomStatus::InProgress,
        message: s("hello"),
        exits: vec![MoveDirection::N, MoveDirection::E, MoveDirection::E],
        description: s("a dark room"),
        maze_exit_hint: MazeExitHint { direction: CompassDirection::SW, distance: 12 },
        location_path: s("/pathbot/abc"),
    }
}

#[test]
fn decodes_room_payload() {
    let m = decode(room_payload()).unwrap();
    let room = match m {
        PathbotApiMessage::Room(r) => r,
        other => panic!("not a room: {:?}", other),
    };
    assert_eq!(room.status, RoomStatus::InProgress);
    assert_eq!(room.exits, vec![MoveDirection::N, MoveDirection::E]);
    assert_eq!(room.maze_exit_hint, MazeExitHint { direction: CompassDirection::NE, distance: 5 });
    assert_eq!(room.location_path, "/pathbot/room1");
    assert_eq!(room.description, "d");
}

#[test]
fn decodes_exit_payload() {
    let mut w = empty_payload();
    w.status = Some(s("finished"));
    w.description = Some(s("done"));
    assert_eq!(
        decode(w).unwrap(),
        PathbotApiMessage::Exit(Exit { status: RoomStatus::Finished, description: s("done") })
    );
}

#[test]
fn decodes_message_payload() {
    let mut w = empty_payload();
    w.message = Some(s("slow down"));
    assert_eq!(decode(w).unwrap(), PathbotApiMessage::Message(Message { message: s("slow down") }));
}

#[test]
fn exit_shape_wins_over_message_shape() {
    let mut w = empty_payload();
    w.status = Some(s("finished"));
    w.description = Some(s("done"));
    w.message = Some(s("bye"));
    assert!(matches!(decode(w), Ok(PathbotApiMessage::Exit(_))));
}

#[test]
fn partial_room_falls_back_to_message() {
    let mut w = room_payload();
    w.location_path = None;
    assert_eq!(decode(w).unwrap(), PathbotApiMessage::Message(Message { message: s("") }));
}

#[test]
fn no_shape_is_an_error() {
    assert_eq!(decode(empty_payload()), Err(DecodeError::NoMatchingShape));
    let mut w = empty_payload();
    w.status = Some(s("finished"));
    assert_eq!(decode(w), Err(DecodeError::NoMatchingShape));
}

#[test]
fn unknown_status_is_rejected() {
    let mut w = room_payload();
    w.status = Some(s("In-Progress"));
    assert_eq!(
        decode(w),
        Err(DecodeError::UnknownEnumValue(WireField::Status, s("In-Progress")))
    );
    let mut e = empty_payload();
    e.status = Some(s("done"));
    e.description = Some(s("x"));
    assert_eq!(decode(e), Err(DecodeError::UnknownEnumValue(WireField::Status, s("done"))));
}

#[test]
fn unknown_exit_is_rejected() {
    let mut w = room_payload();
    w.exits = Some(vec![s("N"), s("NE"), s("x")]);
    assert_eq!(decode(w), Err(DecodeError::UnknownEnumValue(WireField::Exits, s("NE"))));
}

#[test]
fn unknown_compass_direction_is_rejected() {
    let mut w = room_payload();
    w.maze_exit_direction = Some(s("NNE"));
    assert_eq!(
        decode(w),
        Err(DecodeError::UnknownEnumValue(WireField::MazeExitDirection, s("NNE")))
    );
}

#[test]
fn missing_room_fields_are_named() {
    let mut w = room_payload();
    w.message = None;
    assert_eq!(decode(w), Err(DecodeError::MissingField(WireField::Message)));
    let mut w = room_payload();
    w.description = None;
    assert_eq!(decode(w), Err(DecodeError::MissingField(WireField::Description)));
}

#[test]
fn room_round_trip() {
    let room = sample_room();
    let wire = encode(&PathbotApiMessage::Room(room.clone()));
    assert_eq!(wire.status, Some(s("in-progress")));
    assert_eq!(wire.exits, Some(vec![s("N"), s("E"), s("E")]));
    assert_eq!(wire.maze_exit_direction, Some(s("SW")));
    assert_eq!(wire.maze_exit_distance, Some(12));
    assert_eq!(wire.location_path, Some(s("/pathbot/abc")));
    assert_eq!(decode(wire).unwrap(), PathbotApiMessage::Room(room));
}

#[test]
fn exit_and_message_round_trip() {
    let exit = PathbotApiMessage::Exit(Exit { status: RoomStatus::Finished, description: s("out") });
    assert_eq!(decode(encode(&exit)).unwrap(), exit);
    let msg = PathbotApiMessage::Message(Message { message: s("hi") });
    assert_eq!(decode(encode(&msg)).unwrap(), msg);
}

#[test]
fn every_direction_round_trips() {
    for d in [MoveDirection::N, MoveDirection::S, MoveDirection::E, MoveDirection::W] {
        let mut room = sample_room();
        room.exits = vec![d];
        let m = PathbotApiMessage::Room(room);
        assert_eq!(decode(encode(&m)).unwrap(), m);
    }
    for c in [
        CompassDirection::N,
        CompassDirection::S,
        CompassDirection::E,
        CompassDirection::W,
        CompassDirection::NW,
        CompassDirection::NE,
        CompassDirection::SW,
        CompassDirection::SE,
    ] {
        let mut room = sample_room();
        room.maze_exit_hint.direction = c;
        let m = PathbotApiMessage::Room(room);
        assert_eq!(decode(encode(&m)).unwrap(), m);
    }
}

#[test]
fn exits_keep_duplicates_and_order() {
    assert_eq!(
        decode_exits(&vec![s("W"), s("N"), s("W")]),
        Ok(vec![MoveDirection::W, MoveDirection::N, MoveDirection::W])
    );
    assert_eq!(decode_exits(&vec![]), Ok(vec![]));
    assert_eq!(decode_exits(&vec![s("n")]), Err(s("n")));
}

#[test]
fn enum_parsers() {
    assert_eq!(RoomStatus::from_wire(&s("finished")), Some(RoomStatus::Finished));
    assert_eq!(RoomStatus::from_wire(&s("")), None);
    assert_eq!(MoveDirection::from_short_name(&s("W")), Some(MoveDirection::W));
    assert_eq!(MoveDirection::from_short_name(&s("NW")), None);
    assert_eq!(CompassDirection::from_short_name(&s("SE")), Some(CompassDirection::SE));
    assert_eq!(CompassDirection::from_short_name(&s("South")), None);
}

#[test]
fn decode_error_descriptions() {
    assert_eq!(DecodeError::MissingField(WireField::LocationPath).describe(), "missing field locationPath");
    assert_eq!(
        DecodeError::UnknownEnumValue(WireField::MazeExitDirection, s("Q")).describe(),
        "unknown value \"Q\" for field mazeExitDirection"
    );
    assert_eq!(
        DecodeError::NoMatchingShape.describe(),
        "the payload is neither a room, an exit nor a message"
    );
    assert_eq!(WireField::MazeExitDistance.wire_name(), "mazeExitDistance");
}
