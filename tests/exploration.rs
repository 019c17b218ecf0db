use pathbot::coordinate::Coordinate;
use pathbot::keydown::KeydownService;
use pathbot::model::{key_move, response_msg, FetchError, FetchRoomRequest, LogicError, Model, Msg, Update};
use pathbot::notifications::{Notification, NotificationLevel, NotificationQueue};
use pathbot::pathbot_api::{
    CompassDirection, Exit, MazeExitHint, Message, MoveDirection, Room, RoomStatus,
};
use pathbot::state::{State, Status};
use pathbot::wire::{DecodeError, WireField, WirePayload};

fn s(v: &str) -> String {
    v.to_string()
}

fn room(path: &str, exits: Vec<MoveDirection>) -> Room {
    Room {
        status: RoomStatus::InProgress,
        message: s(""),
        exits,
        description: s("d"),
        maze_exit_hint: MazeExitHint { direction: CompassDirection::NE, distance: 5 },
        location_path: s(path),
    }
}

fn shown() -> Update {
    Update { should_render: true, request: None }
}

fn quiet() -> Update {
    Update { should_render: false, request: None }
}

/// A coordinator standing in the start room of the scenario.
fn in_first_room() -> Model {
    let mut m = Model::new();
    m.update(Msg::Init).unwrap();
    let w = WirePayload {
        status: Some(s("in-progress")),
        message: Some(s("")),
        exits: Some(vec![s("N"), s("E")]),
        description: Some(s("d")),
        maze_exit_direction: Some(s("NE")),
        maze_exit_distance: Some(5),
        location_path: Some(s("/pathbot/room1")),
    };
    let msg = response_msg(Ok(w), None);
    assert_eq!(m.update(msg), Ok(shown()));
    m
}

#[test]
fn start_room_scenario() {
    let mut m = Model::new();
    assert!(m.loading());
    assert_eq!(
        m.update(Msg::Init),
        Ok(Update { should_render: true, request: Some(FetchRoomRequest::StartRoom) })
    );
    assert!(m.loading());
    let m = in_first_room();
    let st = m.state();
    assert_eq!(st.status(), &Status::InRoom(s("/pathbot/room1")));
    assert_eq!(st.current_room_id(), Some(&s("/pathbot/room1")));
    assert_eq!(st.current_coordinates(), Some(Coordinate { x: 0, y: 0 }));
    assert!(st.can_move_direction(MoveDirection::N));
    assert!(!st.can_move_direction(MoveDirection::S));
    assert_eq!(
        st.current_exit_hint(),
        Some(MazeExitHint { direction: CompassDirection::NE, distance: 5 })
    );
    assert!(!m.loading());
    assert!(!st.exited());
}

#[test]
fn exit_scenario() {
    let mut m = in_first_room();
    let r = m.update(Msg::FetchNextRoom(MoveDirection::N)).unwrap();
    assert_eq!(
        r.request,
        Some(FetchRoomRequest::NextRoom(s("/pathbot/room1"), MoveDirection::N))
    );
    let mut w = WirePayload {
        status: Some(s("finished")),
        message: None,
        exits: None,
        description: Some(s("done")),
        maze_exit_direction: None,
        maze_exit_distance: None,
        location_path: None,
    };
    w.message = None;
    let msg = response_msg(Ok(w), Some(MoveDirection::N));
    assert_eq!(m.update(msg), Ok(shown()));
    let st = m.state();
    assert_eq!(
        st.status(),
        &Status::Finished(Exit { status: RoomStatus::Finished, description: s("done") })
    );
    assert!(st.exited());
    let (exit_room, at) = st.exit_room().unwrap();
    assert_eq!(*at, Coordinate { x: 0, y: -1 });
    assert_eq!(exit_room.exits, vec![MoveDirection::S]);
    assert_eq!(exit_room.status, RoomStatus::Finished);
    let last = m.notifications().pop().unwrap().1;
    assert_eq!(last.level, NotificationLevel::Success);
    assert_eq!(last.message, "Congratulations! You exited the maze!");
    assert!(!m.loading());
}

#[test]
fn message_scenario() {
    let mut m = in_first_room();
    m.update(Msg::FetchNextRoom(MoveDirection::E)).unwrap();
    assert!(m.loading());
    let before = m.notifications().len();
    let msg = response_msg(
        Ok(WirePayload {
            status: None,
            message: Some(s("slow down")),
            exits: None,
            description: None,
            maze_exit_direction: None,
            maze_exit_distance: None,
            location_path: None,
        }),
        Some(MoveDirection::E),
    );
    assert_eq!(m.update(msg), Ok(shown()));
    assert!(!m.loading());
    let st = m.state();
    assert_eq!(st.status(), &Status::InRoom(s("/pathbot/room1")));
    assert_eq!(st.current_coordinates(), Some(Coordinate { x: 0, y: 0 }));
    let notes = m.notifications();
    assert_eq!(notes.len(), before + 1);
    assert_eq!(notes[before].1, Notification { message: s("slow down"), level: NotificationLevel::Warning });
}

#[test]
fn cached_coordinate_skips_request() {
    let mut m = in_first_room();
    let r = m.update(Msg::FetchNextRoom(MoveDirection::N)).unwrap();
    assert!(r.request.is_some());
    m.update(Msg::ReceivedRoom(room("/pathbot/room2", vec![MoveDirection::S]), Some(MoveDirection::N)))
        .unwrap();
    assert_eq!(m.state().current_coordinates(), Some(Coordinate { x: 0, y: -1 }));
    let notes_before = m.notifications().len();
    let r = m.update(Msg::FetchNextRoom(MoveDirection::S)).unwrap();
    assert_eq!(r, shown());
    assert!(!m.loading());
    assert_eq!(m.state().status(), &Status::InRoom(s("/pathbot/room1")));
    assert_eq!(m.state().current_coordinates(), Some(Coordinate { x: 0, y: 0 }));
    assert_eq!(m.notifications().len(), notes_before);
}

#[test]
fn second_intent_in_flight_is_dropped() {
    let mut m = in_first_room();
    m.update(Msg::FetchNextRoom(MoveDirection::N)).unwrap();
    let status = m.state().status().clone();
    let rooms = m.state().rooms().len();
    assert_eq!(m.update(Msg::FetchNextRoom(MoveDirection::E)), Ok(quiet()));
    assert_eq!(m.update(Msg::Init), Ok(quiet()));
    assert_eq!(m.update(Msg::HandleKeyDown(s("e"))), Ok(quiet()));
    assert_eq!(m.state().status(), &status);
    assert_eq!(m.state().rooms().len(), rooms);
    assert!(m.loading());
}

#[test]
fn moves_without_exit_are_dropped() {
    let mut m = in_first_room();
    assert_eq!(m.update(Msg::FetchNextRoom(MoveDirection::W)), Ok(quiet()));
    assert!(!m.loading());
    let mut fresh = Model::new();
    assert_eq!(fresh.update(Msg::FetchNextRoom(MoveDirection::N)), Ok(quiet()));
}

#[test]
fn finished_is_terminal_until_restart() {
    let mut m = in_first_room();
    m.update(Msg::FetchNextRoom(MoveDirection::N)).unwrap();
    m.update(Msg::ReceivedExit(Exit { status: RoomStatus::Finished, description: s("out") }, Some(MoveDirection::N)))
        .unwrap();
    assert!(!m.state().can_move_direction(MoveDirection::S));
    assert_eq!(m.update(Msg::FetchNextRoom(MoveDirection::S)), Ok(quiet()));
    assert_eq!(m.update(Msg::MoveToRoom(s("/pathbot/room1"))), Err(LogicError::MazeFinished));
    assert_eq!(
        m.update(Msg::ReceivedRoom(room("/pathbot/x", vec![]), None)),
        Err(LogicError::NotLoading)
    );
    assert_eq!(
        m.update(Msg::ReceivedRoom(room("/pathbot/x", vec![]), Some(MoveDirection::S))),
        Err(LogicError::NoCurrentRoom)
    );
    assert!(m.state().exited());
    assert_eq!(
        m.update(Msg::Init),
        Ok(Update { should_render: true, request: Some(FetchRoomRequest::StartRoom) })
    );
    assert_eq!(m.state().status(), &Status::Loading);
    assert!(m.state().rooms().is_empty());
    assert!(m.state().exit_room().is_none());
}

#[test]
fn logic_errors() {
    let mut m = Model::new();
    assert_eq!(
        m.update(Msg::ReceivedRoom(room("/a", vec![]), Some(MoveDirection::N))),
        Err(LogicError::NoCurrentRoom)
    );
    assert_eq!(
        m.update(Msg::ReceivedExit(Exit { status: RoomStatus::Finished, description: s("") }, None)),
        Err(LogicError::NoCurrentRoom)
    );
    assert_eq!(m.update(Msg::MoveToRoom(s("/nowhere"))), Err(LogicError::UnknownRoom));
}

#[test]
fn move_to_known_room() {
    let mut m = in_first_room();
    m.update(Msg::FetchNextRoom(MoveDirection::E)).unwrap();
    m.update(Msg::ReceivedRoom(room("/pathbot/east", vec![MoveDirection::W]), Some(MoveDirection::E)))
        .unwrap();
    assert_eq!(m.update(Msg::MoveToRoom(s("/pathbot/room1"))), Ok(shown()));
    assert_eq!(m.state().current_coordinates(), Some(Coordinate { x: 0, y: 0 }));
    assert_eq!(m.state().cached_room_id(Coordinate { x: 1, y: 0 }), Some(s("/pathbot/east")));
    assert_eq!(m.state().rooms().len(), 2);
}

#[test]
fn failure_adds_warning() {
    let mut m = in_first_room();
    m.update(Msg::FetchNextRoom(MoveDirection::N)).unwrap();
    let msg = response_msg(Err(FetchError::Transport(s("status 503"))), Some(MoveDirection::N));
    assert_eq!(m.update(msg), Ok(shown()));
    assert!(!m.loading());
    let last = m.notifications().pop().unwrap().1;
    assert_eq!(last.level, NotificationLevel::Warning);
    assert_eq!(last.message, "An error occurred while communicating with the API: status 503");
}

#[test]
fn decode_failure_becomes_warning() {
    let mut m = Model::new();
    m.update(Msg::Init).unwrap();
    let w = WirePayload {
        status: Some(s("lost")),
        message: None,
        exits: None,
        description: Some(s("x")),
        maze_exit_direction: None,
        maze_exit_distance: None,
        location_path: None,
    };
    let msg = response_msg(Ok(w), None);
    assert!(matches!(
        &msg,
        Msg::FetchRoomFailed(FetchError::Decode(DecodeError::UnknownEnumValue(WireField::Status, v))) if v == "lost"
    ));
    assert_eq!(m.update(msg), Ok(shown()));
    assert_eq!(m.state().status(), &Status::Loading);
    let last = m.notifications().pop().unwrap().1;
    assert_eq!(
        last.message,
        "An error occurred while communicating with the API: unknown value \"lost\" for field status"
    );
    assert_eq!(FetchError::Malformed(s("bad json")).describe(), "bad json");
}

#[test]
fn room_received_notifies_with_its_message() {
    let mut m = Model::new();
    m.update(Msg::Init).unwrap();
    let mut r = room("/start", vec![MoveDirection::E]);
    r.message = s("welcome");
    m.update(Msg::ReceivedRoom(r, None)).unwrap();
    let notes = m.notifications();
    assert_eq!(notes, vec![(0, Notification { message: s("welcome"), level: NotificationLevel::Info })]);
}

#[test]
fn notifications_keep_insertion_order() {
    let mut m = Model::new();
    for (i, level) in [NotificationLevel::Info, NotificationLevel::Danger, NotificationLevel::Success]
        .iter()
        .enumerate()
    {
        m.update(Msg::NewNotification(Notification { message: format!("n{}", i), level: *level }))
            .unwrap();
    }
    m.update(Msg::NotificationClosed(1)).unwrap();
    m.update(Msg::NotificationClosed(7)).unwrap();
    let ids: Vec<u32> = m.notifications().iter().map(|e| e.0).collect();
    assert_eq!(ids, vec![0, 2]);
    m.update(Msg::NewNotification(Notification { message: s("again"), level: NotificationLevel::Info }))
        .unwrap();
    let ids: Vec<u32> = m.notifications().iter().map(|e| e.0).collect();
    assert_eq!(ids, vec![0, 2, 3]);
    assert_eq!(m.update(Msg::HandleKeyDown(s("Escape"))), Ok(shown()));
    assert!(m.notifications().is_empty());
    m.update(Msg::NewNotification(Notification { message: s("later"), level: NotificationLevel::Info }))
        .unwrap();
    assert_eq!(m.notifications()[0].0, 4);
}

#[test]
fn queue_push_remove_clear() {
    let mut q = NotificationQueue::new();
    let a = q.push(Notification { message: s("a"), level: NotificationLevel::Info });
    let b = q.push(Notification { message: s("a"), level: NotificationLevel::Info });
    assert_eq!((a, b), (Some(0), Some(1)));
    assert_eq!(q.iter().len(), 2);
    q.remove(0);
    q.remove(0);
    assert_eq!(q.iter(), vec![(1, Notification { message: s("a"), level: NotificationLevel::Info })]);
    q.clear();
    assert!(q.iter().is_empty());
    assert_eq!(q.push(Notification { message: s("c"), level: NotificationLevel::Warning }), Some(2));
}

#[test]
fn keys_map_to_moves() {
    assert_eq!(key_move(&s("n")), Some(MoveDirection::N));
    assert_eq!(key_move(&s("E")), Some(MoveDirection::E));
    assert_eq!(key_move(&s("w")), Some(MoveDirection::W));
    assert_eq!(key_move(&s("S")), Some(MoveDirection::S));
    assert_eq!(key_move(&s("x")), None);
    let mut m = in_first_room();
    let r = m.update(Msg::HandleKeyDown(s("n"))).unwrap();
    assert!(r.request.is_some());
    assert_eq!(m.update(Msg::Noop), Ok(quiet()));
    assert_eq!(m.update(Msg::HandleKeyDown(s("q"))), Ok(quiet()));
}

#[test]
fn request_paths() {
    assert_eq!(FetchRoomRequest::StartRoom.path(), "/pathbot/start");
    assert_eq!(FetchRoomRequest::StartRoom.direction(), None);
    let next = FetchRoomRequest::NextRoom(s("/pathbot/r9"), MoveDirection::W);
    assert_eq!(next.path(), "/pathbot/r9");
    assert_eq!(next.direction(), Some(MoveDirection::W));
}

#[test]
fn state_insert_and_revisit() {
    let mut st = State::new();
    assert_eq!(st.current_exits(), None);
    st.insert_room(room("/a", vec![MoveDirection::E, MoveDirection::E]), None);
    assert_eq!(st.current_exits(), Some(&vec![MoveDirection::E, MoveDirection::E]));
    st.insert_room(room("/b", vec![MoveDirection::W]), Some(MoveDirection::E));
    assert_eq!(st.current_coordinates(), Some(Coordinate { x: 1, y: 0 }));
    st.insert_room(room("/c", vec![]), Some(MoveDirection::W));
    assert_eq!(st.current_coordinates(), Some(Coordinate { x: 0, y: 0 }));
    assert_eq!(st.cached_room_id(Coordinate { x: 0, y: 0 }), Some(s("/c")));
    assert!(st.room(&s("/a")).is_some());
    assert_eq!(st.rooms().len(), 3);
    st.enter_room(s("/a"));
    assert_eq!(st.current_room().unwrap().location_path, "/a");
    st.restart();
    assert_eq!(st.status(), &Status::Loading);
    assert_eq!(st.cached_room_id(Coordinate { x: 0, y: 0 }), None);
    assert!(State::default().rooms().is_empty());
}

#[test]
fn keydown_service_has_no_state() {
    let service = KeydownService::new();
    let _other: KeydownService = service;
}

#[test]
fn reached_exit_draws_way_back() {
    let mut st = State::new();
    st.insert_room(room("/a", vec![MoveDirection::W]), None);
    st.reached_exit(Exit { status: RoomStatus::Finished, description: s("bye") }, Some(MoveDirection::W));
    let (r, at) = st.exit_room().unwrap();
    assert_eq!(*at, Coordinate { x: -1, y: 0 });
    assert_eq!(r.exits, vec![MoveDirection::E]);
    assert_eq!(r.description, "bye");
    assert_eq!(st.current_room(), None);
    assert_eq!(st.rooms().len(), 1);
}

#[test]
fn message_received_keeps_rooms() {
    let mut m = in_first_room();
    let rooms = m.state().rooms().len();
    m.update(Msg::ReceivedMessage(Message { message: s("") })).unwrap();
    assert_eq!(m.state().rooms().len(), rooms);
    assert_eq!(m.notifications().pop().unwrap().1.level, NotificationLevel::Warning);
}
