//! The request coordinator: turns user intents and API responses into
//! changes of the exploration state and the notification queue, with at most
//! one request in flight.
//!
//! The surrounding program performs the requests that `update` hands back
//! and feeds the outcome in as a message.

use vstd::prelude::*;
use crate::notifications::{
    Notification, NotificationId, NotificationLevel, NotificationQueue, QueueView,
};
use crate::pathbot_api::{ApiMessageView, Exit, Message, MoveDirection, PathbotApiMessage, Room};
use crate::state::{State, StateView, StatusView};
use crate::wire::{decode, is_text, spec_decode, DecodeError, WirePayload};

verus! {

/// A request for the API.
#[derive(PartialEq, Eq, Debug, Clone)]
pub enum FetchRoomRequest {
    /// The first room of a new maze.
    StartRoom,
    /// The room one move away from the room at this location path.
    NextRoom(String, MoveDirection),
}

impl FetchRoomRequest {
    pub open spec fn spec_path(&self) -> Seq<char> {
        match self {
            FetchRoomRequest::StartRoom => "/pathbot/start"@,
            FetchRoomRequest::NextRoom(path, _) => path@,
        }
    }

    /// The endpoint, relative to the API host.
    pub fn path(&self) -> (r: String)
        ensures
            r@ == self.spec_path(),
    {
        match self {
            FetchRoomRequest::StartRoom => "/pathbot/start".to_owned(),
            FetchRoomRequest::NextRoom(path, _) => path.clone(),
        }
    }

    /// The move that the body asks for; none for the start.
    pub fn direction(&self) -> (r: Option<MoveDirection>)
        ensures
            r == (match self {
                FetchRoomRequest::StartRoom => None,
                FetchRoomRequest::NextRoom(_, d) => Some(*d),
            }),
    {
        match self {
            FetchRoomRequest::StartRoom => None,
            FetchRoomRequest::NextRoom(_, d) => Some(*d),
        }
    }
}

/// Why a request brought no payload.
#[derive(PartialEq, Eq, Debug, Clone)]
pub enum FetchError {
    /// The network failed or the status was not a success.
    Transport(String),
    /// The body is not a JSON object of the expected field types.
    Malformed(String),
    /// The body has no valid shape.
    Decode(DecodeError),
}

impl FetchError {
    pub open spec fn spec_describe(&self) -> Seq<char> {
        match self {
            FetchError::Transport(s) => s@,
            FetchError::Malformed(s) => s@,
            FetchError::Decode(e) => DecodeError::spec_describe(e@),
        }
    }

    /// A sentence for the user.
    pub fn describe(&self) -> (r: String)
        ensures
            r@ == self.spec_describe(),
    {
        match self {
            FetchError::Transport(s) => s.clone(),
            FetchError::Malformed(s) => s.clone(),
            FetchError::Decode(e) => e.describe(),
        }
    }
}

/// An event for the coordinator: a user intent or the outcome of a request.
#[derive(Debug)]
pub enum Msg {
    /// Start over with a new maze.
    Init,
    /// A key was pressed.
    HandleKeyDown(String),
    /// Move one room in a direction.
    FetchNextRoom(MoveDirection),
    /// A room arrived, reached by the move given (none for the first room).
    ReceivedRoom(Room, Option<MoveDirection>),
    /// Enter a room already discovered.
    MoveToRoom(String),
    /// A notice arrived in place of a room.
    ReceivedMessage(Message),
    /// The maze's exit arrived, reached by the move given.
    ReceivedExit(Exit, Option<MoveDirection>),
    /// A request failed.
    FetchRoomFailed(FetchError),
    NewNotification(Notification),
    NotificationClosed(NotificationId),
    ClearNotifications,
    Noop,
}

/// A message that the state machine cannot take in its current state: the
/// coordinator and its caller have fallen out of step.
#[derive(PartialEq, Eq, Structural, Debug, Copy, Clone)]
pub enum LogicError {
    /// A room reached by a move, or the exit, arrived with no current room.
    NoCurrentRoom,
    /// A first room arrived while not loading.
    NotLoading,
    /// A move would leave the representable grid.
    OffGrid,
    /// The room to enter was never discovered.
    UnknownRoom,
    /// The maze has been left; only a restart goes on.
    MazeFinished,
}

/// What the caller does after a message: render again, and send a request.
#[derive(PartialEq, Eq, Debug, Clone)]
pub struct Update {
    pub should_render: bool,
    pub request: Option<FetchRoomRequest>,
}

pub open spec fn quiet() -> Result<Update, LogicError> {
    Ok(Update { should_render: false, request: None })
}

pub open spec fn shown() -> Result<Update, LogicError> {
    Ok(Update { should_render: true, request: None })
}

/// The move that a key asks for.
pub open spec fn spec_key_move(key: Seq<char>) -> Option<MoveDirection> {
    if key == "N"@ || key == "n"@ {
        Some(MoveDirection::N)
    } else if key == "E"@ || key == "e"@ {
        Some(MoveDirection::E)
    } else if key == "W"@ || key == "w"@ {
        Some(MoveDirection::W)
    } else if key == "S"@ || key == "s"@ {
        Some(MoveDirection::S)
    } else {
        None
    }
}

/// The move that a key asks for, if any.
pub fn key_move(key: &String) -> (r: Option<MoveDirection>)
    ensures
        r == spec_key_move(key@),
{
    if is_text(key, "N") || is_text(key, "n") {
        Some(MoveDirection::N)
    } else if is_text(key, "E") || is_text(key, "e") {
        Some(MoveDirection::E)
    } else if is_text(key, "W") || is_text(key, "w") {
        Some(MoveDirection::W)
    } else if is_text(key, "S") || is_text(key, "s") {
        Some(MoveDirection::S)
    } else {
        None
    }
}

pub open spec fn spec_response_msg(
    response: Result<WirePayload, FetchError>,
    last_move: Option<MoveDirection>,
    msg: Msg,
) -> bool {
    match response {
        Err(e) => msg == Msg::FetchRoomFailed(e),
        Ok(w) => match spec_decode(w@) {
            Err(expected) => msg matches Msg::FetchRoomFailed(FetchError::Decode(e)) && e@
                == expected,
            Ok(ApiMessageView::Room(v)) => msg matches Msg::ReceivedRoom(room, m) && room@ == v
                && m == last_move,
            Ok(ApiMessageView::Message(v)) => msg matches Msg::ReceivedMessage(message)
                && message@ == v,
            Ok(ApiMessageView::Exit(v)) => msg matches Msg::ReceivedExit(exit, m) && exit@ == v
                && m == last_move,
        },
    }
}

/// The message for the outcome of a request made for `last_move`: the
/// payload decoded and dispatched by its shape, or the failure.
pub fn response_msg(response: Result<WirePayload, FetchError>, last_move: Option<MoveDirection>) -> (r: Msg)
    ensures
        spec_response_msg(response, last_move, r),
{
    match response {
        Err(e) => Msg::FetchRoomFailed(e),
        Ok(w) => {
            match decode(w) {
                Ok(PathbotApiMessage::Room(room)) => Msg::ReceivedRoom(room, last_move),
                Ok(PathbotApiMessage::Message(message)) => Msg::ReceivedMessage(message),
                Ok(PathbotApiMessage::Exit(exit)) => Msg::ReceivedExit(exit, last_move),
                Err(e) => Msg::FetchRoomFailed(FetchError::Decode(e)),
            }
        },
    }
}

/// The coordinator's abstract state.
pub struct ModelView {
    pub state: StateView,
    /// A request is in flight.
    pub fetching: bool,
    /// The move that the request in flight asks for.
    pub fetching_move: Option<MoveDirection>,
    pub notifications: QueueView,
}

impl ModelView {
    pub open spec fn initial() -> ModelView {
        ModelView {
            state: StateView::initial(),
            fetching: false,
            fetching_move: None,
            notifications: QueueView { entries: Seq::empty(), next_id: 0 },
        }
    }

    /// A request is in flight or the first room has not arrived.
    pub open spec fn loading(self) -> bool {
        self.fetching || self.state.status is Loading
    }

    /// No request in flight, and the exploration state `state`.
    pub open spec fn settled(self, state: StateView) -> ModelView {
        ModelView { state, fetching: false, fetching_move: None, notifications: self.notifications }
    }
}

/// `post` is `pre` with one more notification of this text and level at the
/// back, under the next key; unchanged once the keys are used up.
pub open spec fn notified(
    pre: QueueView,
    post: QueueView,
    text: Seq<char>,
    level: NotificationLevel,
) -> bool {
    if pre.next_id < NotificationId::MAX {
        &&& post.next_id == pre.next_id + 1
        &&& post.entries.len() == pre.entries.len() + 1
        &&& post.entries.drop_last() == pre.entries
        &&& post.entries.last().0 == pre.next_id
        &&& post.entries.last().1.message@ == text
        &&& post.entries.last().1.level == level
    } else {
        post == pre
    }
}

/// Whether a room reached by `last_move` fits the state: the first room
/// while loading, any other one step from the current room.
pub open spec fn accepts_room(s: StateView, last_move: Option<MoveDirection>) -> bool {
    match last_move {
        None => s.status is Loading,
        Some(d) => s.next_coordinate(d) is Some,
    }
}

/// The error for a room or an exit that does not fit the state.
pub open spec fn misfit(s: StateView, last_move: Option<MoveDirection>) -> LogicError {
    match last_move {
        None => LogicError::NotLoading,
        Some(_) => if s.current() is None {
            LogicError::NoCurrentRoom
        } else {
            LogicError::OffGrid
        },
    }
}

pub open spec fn exit_text() -> Seq<char> {
    "Congratulations! You exited the maze!"@
}

pub open spec fn failure_text(e: FetchError) -> Seq<char> {
    "An error occurred while communicating with the API: "@ + e.spec_describe()
}

/// A move intent: dropped while loading, where the room has no such exit, or
/// off the grid; else the room already known at the destination is entered
/// at once, or a request for the next room is made.
pub open spec fn step_move(
    pre: ModelView,
    d: MoveDirection,
    post: ModelView,
    r: Result<Update, LogicError>,
) -> bool {
    if pre.loading() || !pre.state.can_move(d) || pre.state.next_coordinate(d) is None {
        post == pre && r == quiet()
    } else {
        let c = pre.state.next_coordinate(d)->Some_0;
        if pre.state.coord_to_id.contains_key(c) {
            post == pre.settled(pre.state.entering(pre.state.coord_to_id[c])) && r == shown()
        } else {
            &&& post == ModelView { fetching: true, fetching_move: Some(d), ..pre }
            &&& r matches Ok(u)
            &&& u.should_render
            &&& u.request matches Some(FetchRoomRequest::NextRoom(path, m))
            &&& pre.state.status == StatusView::InRoom(path@)
            &&& m == d
        }
    }
}

pub open spec fn step_clear(pre: ModelView, post: ModelView, r: Result<Update, LogicError>) -> bool {
    &&& post == ModelView {
        notifications: QueueView { entries: Seq::empty(), next_id: pre.notifications.next_id },
        ..pre
    }
    &&& r == shown()
}

/// What one message does to the coordinator, and what it hands back.
pub open spec fn step(pre: ModelView, msg: Msg, post: ModelView, r: Result<Update, LogicError>) -> bool {
    match msg {
        Msg::Init => if pre.fetching {
            post == pre && r == quiet()
        } else {
            &&& post == ModelView {
                state: StateView::initial(),
                fetching: true,
                fetching_move: None,
                notifications: pre.notifications,
            }
            &&& r == Ok::<Update, LogicError>(
                Update { should_render: true, request: Some(FetchRoomRequest::StartRoom) },
            )
        },
        Msg::HandleKeyDown(key) => match spec_key_move(key@) {
            Some(d) => step_move(pre, d, post, r),
            None => if key@ == "Escape"@ {
                step_clear(pre, post, r)
            } else {
                post == pre && r == quiet()
            },
        },
        Msg::FetchNextRoom(d) => step_move(pre, d, post, r),
        Msg::ReceivedRoom(room, last_move) => if accepts_room(pre.state, last_move) {
            &&& post.state == pre.state.with_room(
                room@,
                pre.state.position_for(last_move)->Some_0,
            )
            &&& !post.fetching
            &&& post.fetching_move is None
            &&& notified(pre.notifications, post.notifications, room.message@, NotificationLevel::Info)
            &&& r == shown()
        } else {
            post == pre && r == Err::<Update, LogicError>(misfit(pre.state, last_move))
        },
        Msg::MoveToRoom(id) => if pre.state.status is Finished {
            post == pre && r == Err::<Update, LogicError>(LogicError::MazeFinished)
        } else if !pre.state.rooms.contains_key(id@) {
            post == pre && r == Err::<Update, LogicError>(LogicError::UnknownRoom)
        } else {
            post == ModelView { state: pre.state.entering(id@), ..pre } && r == shown()
        },
        Msg::ReceivedMessage(message) => {
            &&& post.state == pre.state
            &&& !post.fetching
            &&& post.fetching_move is None
            &&& notified(pre.notifications, post.notifications, message@, NotificationLevel::Warning)
            &&& r == shown()
        },
        Msg::ReceivedExit(exit, last_move) => if last_move is Some && accepts_room(
            pre.state,
            last_move,
        ) {
            &&& post.state == pre.state.finishing(exit@, last_move->Some_0)
            &&& !post.fetching
            &&& post.fetching_move is None
            &&& notified(pre.notifications, post.notifications, exit_text(), NotificationLevel::Success)
            &&& r == shown()
        } else {
            post == pre && r == Err::<Update, LogicError>(
                if last_move is None {
                    LogicError::NoCurrentRoom
                } else {
                    misfit(pre.state, last_move)
                },
            )
        },
        Msg::FetchRoomFailed(e) => {
            &&& post.state == pre.state
            &&& !post.fetching
            &&& post.fetching_move is None
            &&& notified(pre.notifications, post.notifications, failure_text(e), NotificationLevel::Warning)
            &&& r == shown()
        },
        Msg::NewNotification(n) => {
            &&& post.state == pre.state
            &&& post.fetching == pre.fetching
            &&& post.fetching_move == pre.fetching_move
            &&& notified(pre.notifications, post.notifications, n.message@, n.level)
            &&& r == shown()
        },
        Msg::NotificationClosed(id) => {
            &&& post == ModelView {
                notifications: QueueView {
                    entries: pre.notifications.without(id),
                    next_id: pre.notifications.next_id,
                },
                ..pre
            }
            &&& r == shown()
        },
        Msg::ClearNotifications => step_clear(pre, post, r),
        Msg::Noop => post == pre && r == quiet(),
    }
}

/// A step that is not a restart leaves a finished exploration finished, with
/// the same exit.
pub proof fn lemma_step_keeps_finished(
    pre: ModelView,
    msg: Msg,
    post: ModelView,
    r: Result<Update, LogicError>,
)
    requires
        step(pre, msg, post, r),
        pre.state.status is Finished,
        !(msg is Init),
    ensures
        post.state.status == pre.state.status,
{
}

/// Once the maze has been left, no run of messages without a restart leads
/// into a room again: every state along the run is finished with the same
/// exit.
pub proof fn lemma_finished_until_restart(
    states: Seq<ModelView>,
    msgs: Seq<Msg>,
    results: Seq<Result<Update, LogicError>>,
)
    requires
        states.len() == msgs.len() + 1,
        results.len() == msgs.len(),
        forall|i: int|
            0 <= i < msgs.len() ==> step(
                #[trigger] states[i],
                msgs[i],
                states[i + 1],
                results[i],
            ),
        forall|i: int| 0 <= i < msgs.len() ==> !(#[trigger] msgs[i] is Init),
        states[0].state.status is Finished,
    ensures
        forall|i: int| 0 <= i < states.len() ==> (#[trigger] states[i]).state.status == states[0].state.status,
    decreases msgs.len(),
{
    if msgs.len() > 0 {
        let n = msgs.len() - 1;
        lemma_finished_until_restart(states.drop_last(), msgs.drop_last(), results.drop_last());
        assert(states.drop_last()[n] == states[n]);
        assert(step(states[n], msgs[n], states[n + 1], results[n]));
        assert(!(msgs[n] is Init));
        lemma_step_keeps_finished(states[n], msgs[n], states[n + 1], results[n]);
        assert forall|i: int| 0 <= i < states.len() implies (#[trigger] states[i]).state.status
            == states[0].state.status by {
            if i < states.len() - 1 {
                assert(states.drop_last()[i] == states[i]);
            }
        }
    }
}

/// The coordinator: the exploration state, the in-flight guard and the
/// notifications.
pub struct Model {
    state: State,
    fetching: bool,
    fetching_move: Option<MoveDirection>,
    notifications: NotificationQueue,
}

impl View for Model {
    type V = ModelView;

    closed spec fn view(&self) -> ModelView {
        ModelView {
            state: self.state@,
            fetching: self.fetching,
            fetching_move: self.fetching_move,
            notifications: self.notifications@,
        }
    }
}

impl Model {
    pub closed spec fn wf(&self) -> bool {
        self.state.wf() && self.notifications@.wf()
    }

    /// A coordinator that has not started a maze yet.
    pub fn new() -> (r: Model)
        ensures
            r.wf(),
            r@ == ModelView::initial(),
    {
        Model {
            state: State::new(),
            fetching: false,
            fetching_move: None,
            notifications: NotificationQueue::new(),
        }
    }

    /// The exploration state.
    pub fn state(&self) -> (r: &State)
        requires
            self.wf(),
        ensures
            r.wf(),
            r@ == self@.state,
    {
        &self.state
    }

    /// True while a request is in flight or the first room has not arrived.
    pub fn loading(&self) -> (r: bool)
        ensures
            r == self@.loading(),
    {
        self.fetching || match self.state.status() {
            crate::state::Status::Loading => true,
            _ => false,
        }
    }

    /// The notifications with their keys, in insertion order.
    pub fn notifications(&self) -> (r: Vec<(NotificationId, Notification)>)
        ensures
            r@ == self@.notifications.entries,
    {
        self.notifications.iter()
    }

    fn notify(&mut self, message: String, level: NotificationLevel)
        requires
            old(self).wf(),
        ensures
            final(self).wf(),
            final(self)@.state == old(self)@.state,
            final(self)@.fetching == old(self)@.fetching,
            final(self)@.fetching_move == old(self)@.fetching_move,
            notified(old(self)@.notifications, final(self)@.notifications, message@, level),
    {
        let n = Notification { message, level };
        let _ = self.notifications.push(n);
        proof {
            if old(self)@.notifications.next_id < NotificationId::MAX {
                assert(self@.notifications.entries.drop_last() =~= old(self)@.notifications.entries);
            }
        }
    }

    /// Clears the in-flight guard.
    fn settle(&mut self)
        requires
            old(self).wf(),
        ensures
            final(self).wf(),
            final(self)@ == old(self)@.settled(old(self)@.state),
    {
        self.fetching = false;
        self.fetching_move = None;
    }

    /// Asks for the first room of a new maze, starting over; dropped while a
    /// request is in flight.
    pub fn fetch_start(&mut self) -> (r: Result<Update, LogicError>)
        requires
            old(self).wf(),
        ensures
            final(self).wf(),
            step(old(self)@, Msg::Init, final(self)@, r),
    {
        if self.fetching {
            return Ok(Update { should_render: false, request: None });
        }
        self.state.restart();
        self.fetching = true;
        self.fetching_move = None;
        Ok(Update { should_render: true, request: Some(FetchRoomRequest::StartRoom) })
    }

    /// Asks to move one room in `direction`: dropped while loading, where the
    /// current room has no such exit, or off the grid; the room already known
    /// at the destination is entered without a request.
    pub fn fetch_move(&mut self, direction: MoveDirection) -> (r: Result<Update, LogicError>)
        requires
            old(self).wf(),
        ensures
            final(self).wf(),
            step_move(old(self)@, direction, final(self)@, r),
    {
        proof {
            self.state.lemma_view_wf();
        }
        if self.loading() || !self.state.can_move_direction(direction) {
            return Ok(Update { should_render: false, request: None });
        }
        let destination = match self.state.next_coordinates(direction) {
            Some(c) => c,
            None => {
                return Ok(Update { should_render: false, request: None });
            },
        };
        let current = match self.state.current_room_id() {
            Some(id) => id.clone(),
            None => {
                // a room with an exit is current
                return Ok(Update { should_render: false, request: None });
            },
        };
        match self.state.cached_room_id(destination) {
            Some(cached) => {
                self.state.enter_room(cached);
                self.settle();
                Ok(Update { should_render: true, request: None })
            },
            None => {
                self.fetching = true;
                self.fetching_move = Some(direction);
                Ok(
                    Update {
                        should_render: true,
                        request: Some(FetchRoomRequest::NextRoom(current, direction)),
                    },
                )
            },
        }
    }

    fn clear_notifications(&mut self) -> (r: Result<Update, LogicError>)
        requires
            old(self).wf(),
        ensures
            final(self).wf(),
            step_clear(old(self)@, final(self)@, r),
    {
        self.notifications.clear();
        Ok(Update { should_render: true, request: None })
    }

    /// Handles one message. Start and move intents are dropped while a
    /// request is in flight; a room, an exit, a notice or a failure clears the
    /// guard and adds a notification; a message that does not fit the state
    /// is a logic error and changes nothing.
    pub fn update(&mut self, msg: Msg) -> (r: Result<Update, LogicError>)
        requires
            old(self).wf(),
        ensures
            final(self).wf(),
            step(old(self)@, msg, final(self)@, r),
            old(self)@.state.status is Finished && !(msg is Init) ==> final(self)@.state.status
                == old(self)@.state.status,
            old(self)@.fetching && (msg is Init || msg is FetchNextRoom || (
            msg matches Msg::HandleKeyDown(key) && spec_key_move(key@) is Some)) ==> final(self)@
                == old(self)@ && r == quiet(),
    {
        proof {
            self.state.lemma_view_wf();
        }
        match msg {
            Msg::Init => self.fetch_start(),
            Msg::HandleKeyDown(key) => match key_move(&key) {
                Some(d) => self.fetch_move(d),
                None => if is_text(&key, "Escape") {
                    self.clear_notifications()
                } else {
                    Ok(Update { should_render: false, request: None })
                },
            },
            Msg::FetchNextRoom(d) => self.fetch_move(d),
            Msg::ReceivedRoom(room, last_move) => {
                let fits = match last_move {
                    None => match self.state.status() {
                        crate::state::Status::Loading => true,
                        _ => false,
                    },
                    Some(d) => self.state.next_coordinates(d).is_some(),
                };
                if !fits {
                    return Err(
                        match last_move {
                            None => LogicError::NotLoading,
                            Some(_) => if self.state.current_coordinates().is_none() {
                                LogicError::NoCurrentRoom
                            } else {
                                LogicError::OffGrid
                            },
                        },
                    );
                }
                self.settle();
                let text = room.message.clone();
                self.state.insert_room(room, last_move);
                self.notify(text, NotificationLevel::Info);
                Ok(Update { should_render: true, request: None })
            },
            Msg::MoveToRoom(id) => {
                if self.state.exited() {
                    return Err(LogicError::MazeFinished);
                }
                if self.state.room(&id).is_none() {
                    return Err(LogicError::UnknownRoom);
                }
                self.state.enter_room(id);
                Ok(Update { should_render: true, request: None })
            },
            Msg::ReceivedMessage(message) => {
                self.settle();
                self.notify(message.message, NotificationLevel::Warning);
                Ok(Update { should_render: true, request: None })
            },
            Msg::ReceivedExit(exit, last_move) => {
                let d = match last_move {
                    Some(d) => d,
                    None => {
                        return Err(LogicError::NoCurrentRoom);
                    },
                };
                if self.state.next_coordinates(d).is_none() {
                    return Err(
                        if self.state.current_coordinates().is_none() {
                            LogicError::NoCurrentRoom
                        } else {
                            LogicError::OffGrid
                        },
                    );
                }
                self.settle();
                self.state.reached_exit(exit, last_move);
                self.notify(
                    "Congratulations! You exited the maze!".to_owned(),
                    NotificationLevel::Success,
                );
                Ok(Update { should_render: true, request: None })
            },
            Msg::FetchRoomFailed(e) => {
                self.settle();
                let text = "An error occurred while communicating with the API: ".to_owned().concat(
                    e.describe().as_str(),
                );
                self.notify(text, NotificationLevel::Warning);
                Ok(Update { should_render: true, request: None })
            },
            Msg::NewNotification(n) => {
                self.notify(n.message, n.level);
                Ok(Update { should_render: true, request: None })
            },
            Msg::NotificationClosed(id) => {
                self.notifications.remove(id);
                Ok(Update { should_render: true, request: None })
            },
            Msg::ClearNotifications => self.clear_notifications(),
            Msg::Noop => Ok(Update { should_render: false, request: None }),
        }
    }
}

} // verus!
