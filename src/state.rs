//! The exploration state machine: where the explorer is, which rooms it has
//! discovered and at which grid coordinates.

use vstd::prelude::*;
use crate::coordinate::Coordinate;
use crate::pathbot_api::{
    CompassDirection, Exit, ExitView, MazeExitHint, MoveDirection, Room, RoomStatus, RoomView,
};

verus! {

/// Where the exploration stands.
#[derive(PartialEq, Eq, Debug, Clone)]
pub enum Status {
    /// Waiting for the first room.
    Loading,
    /// In the room with this location path.
    InRoom(String),
    /// Out of the maze, with the exit payload received.
    Finished(Exit),
}

pub enum StatusView {
    Loading,
    InRoom(Seq<char>),
    Finished(ExitView),
}

impl View for Status {
    type V = StatusView;

    open spec fn view(&self) -> StatusView {
        match self {
            Status::Loading => StatusView::Loading,
            Status::InRoom(id) => StatusView::InRoom(id@),
            Status::Finished(e) => StatusView::Finished(e@),
        }
    }
}

/// The abstract state: the discovered rooms by location path, with their
/// coordinates; the room last discovered at each coordinate; the status; and
/// the room drawn for the maze's exit once it is reached.
pub struct StateView {
    pub rooms: Map<Seq<char>, (RoomView, Coordinate)>,
    pub coord_to_id: Map<Coordinate, Seq<char>>,
    pub status: StatusView,
    pub exit_room: Option<(RoomView, Coordinate)>,
}

impl StateView {
    pub open spec fn initial() -> StateView {
        StateView {
            rooms: Map::empty(),
            coord_to_id: Map::empty(),
            status: StatusView::Loading,
            exit_room: None,
        }
    }

    /// The current room with its coordinate, while in a room.
    pub open spec fn current(self) -> Option<(RoomView, Coordinate)> {
        match self.status {
            StatusView::InRoom(id) => if self.rooms.contains_key(id) {
                Some(self.rooms[id])
            } else {
                None
            },
            _ => None,
        }
    }

    pub open spec fn can_move(self, d: MoveDirection) -> bool {
        match self.current() {
            Some(cur) => cur.0.exits.contains(d),
            None => false,
        }
    }

    /// The coordinate one step from the current room, where it is representable.
    pub open spec fn next_coordinate(self, d: MoveDirection) -> Option<Coordinate> {
        match self.current() {
            Some(cur) => if cur.1.can_add(d.spec_delta()) {
                Some(cur.1.spec_add(d.spec_delta()))
            } else {
                None
            },
            None => None,
        }
    }

    /// Where a room reached by `last_move` lies; the origin for the first room.
    pub open spec fn position_for(self, last_move: Option<MoveDirection>) -> Option<Coordinate> {
        match last_move {
            None => Some(Coordinate::origin()),
            Some(d) => self.next_coordinate(d),
        }
    }

    /// The state after discovering `room` at `pos` and entering it.
    pub open spec fn with_room(self, room: RoomView, pos: Coordinate) -> StateView {
        StateView {
            rooms: self.rooms.insert(room.location_path, (room, pos)),
            coord_to_id: self.coord_to_id.insert(pos, room.location_path),
            status: StatusView::InRoom(room.location_path),
            exit_room: self.exit_room,
        }
    }

    /// The state after entering a room already discovered.
    pub open spec fn entering(self, id: Seq<char>) -> StateView {
        StateView { status: StatusView::InRoom(id), ..self }
    }

    /// The state after leaving the maze by `last_move` with `exit`.
    pub open spec fn finishing(self, exit: ExitView, last_move: MoveDirection) -> StateView {
        StateView {
            status: StatusView::Finished(exit),
            exit_room: Some(
                (exit_room_view(exit, last_move), self.next_coordinate(last_move)->Some_0),
            ),
            ..self
        }
    }

    /// The status always names a discovered room, and so does the cache.
    pub open spec fn wf(self) -> bool {
        &&& (self.status matches StatusView::InRoom(id) ==> self.rooms.contains_key(id))
        &&& forall|c: Coordinate| #[trigger]
            self.coord_to_id.contains_key(c) ==> self.rooms.contains_key(self.coord_to_id[c])
    }
}

/// The room drawn where the maze was left: its one way leads back.
pub open spec fn exit_room_view(exit: ExitView, last_move: MoveDirection) -> RoomView {
    RoomView {
        status: RoomStatus::Finished,
        message: "Thank you for playing :)"@,
        exits: seq![last_move.spec_opposite()],
        description: exit.description,
        maze_exit_hint: MazeExitHint { direction: CompassDirection::N, distance: 0 },
        location_path: Seq::empty(),
    }
}

/// The exploration state.
pub struct State {
    rooms: Vec<(Room, Coordinate)>,
    coord_to_id: Vec<(Coordinate, String)>,
    status: Status,
    exit_room: Option<(Room, Coordinate)>,
    room_map: Ghost<Map<Seq<char>, (RoomView, Coordinate)>>,
    coord_map: Ghost<Map<Coordinate, Seq<char>>>,
}

pub open spec fn entry_view(e: (Room, Coordinate)) -> (RoomView, Coordinate) {
    (e.0@, e.1)
}

impl View for State {
    type V = StateView;

    closed spec fn view(&self) -> StateView {
        StateView {
            rooms: self.room_map@,
            coord_to_id: self.coord_map@,
            status: self.status@,
            exit_room: match self.exit_room {
                Some(e) => Some(entry_view(e)),
                None => None,
            },
        }
    }
}

impl State {
    spec fn rooms_wf(&self) -> bool {
        &&& forall|i: int|
            0 <= i < self.rooms@.len() ==> {
                let e = #[trigger] self.rooms@[i];
                &&& self.room_map@.contains_key(e.0.location_path@)
                &&& self.room_map@[e.0.location_path@] == entry_view(e)
            }
        &&& forall|k: Seq<char>| #[trigger]
            self.room_map@.contains_key(k) ==> exists|i: int|
                0 <= i < self.rooms@.len() && (#[trigger] self.rooms@[i]).0.location_path@ == k
        &&& forall|i: int, j: int|
            0 <= i < j < self.rooms@.len() ==> (#[trigger] self.rooms@[i]).0.location_path@
                != (#[trigger] self.rooms@[j]).0.location_path@
    }

    spec fn coords_wf(&self) -> bool {
        &&& forall|i: int|
            0 <= i < self.coord_to_id@.len() ==> {
                let e = #[trigger] self.coord_to_id@[i];
                &&& self.coord_map@.contains_key(e.0)
                &&& self.coord_map@[e.0] == e.1@
            }
        &&& forall|c: Coordinate| #[trigger]
            self.coord_map@.contains_key(c) ==> exists|i: int|
                0 <= i < self.coord_to_id@.len() && (#[trigger] self.coord_to_id@[i]).0 == c
        &&& forall|i: int, j: int|
            0 <= i < j < self.coord_to_id@.len() ==> (#[trigger] self.coord_to_id@[i]).0
                != (#[trigger] self.coord_to_id@[j]).0
    }

    /// The tables agree with the abstract maps, and the abstract state is well formed.
    pub closed spec fn wf(&self) -> bool {
        &&& self.rooms_wf()
        &&& self.coords_wf()
        &&& self@.wf()
    }

    /// A fresh state, waiting for the first room.
    pub fn new() -> (r: State)
        ensures
            r.wf(),
            r@ == StateView::initial(),
    {
        State {
            rooms: Vec::new(),
            coord_to_id: Vec::new(),
            status: Status::Loading,
            exit_room: None,
            room_map: Ghost(Map::empty()),
            coord_map: Ghost(Map::empty()),
        }
    }

    /// The well-formedness of the abstract state follows from that of the tables.
    pub proof fn lemma_view_wf(&self)
        requires
            self.wf(),
        ensures
            self@.wf(),
    {
    }

    fn find_room(&self, id: &String) -> (r: Option<usize>)
        requires
            self.rooms_wf(),
        ensures
            match r {
                Some(i) => i < self.rooms@.len() && self.rooms@[i as int].0.location_path@ == id@,
                None => !self.room_map@.contains_key(id@),
            },
    {
        let mut i: usize = 0;
        while i < self.rooms.len()
            invariant
                i <= self.rooms@.len(),
                forall|j: int| 0 <= j < i ==> (#[trigger] self.rooms@[j]).0.location_path@ != id@,
            decreases self.rooms.len() - i,
        {
            if self.rooms[i].0.location_path == *id {
                return Some(i);
            }
            i = i + 1;
        }
        None
    }

    fn find_coordinate(&self, c: Coordinate) -> (r: Option<usize>)
        requires
            self.coords_wf(),
        ensures
            match r {
                Some(i) => i < self.coord_to_id@.len() && self.coord_to_id@[i as int].0 == c,
                None => !self.coord_map@.contains_key(c),
            },
    {
        let mut i: usize = 0;
        while i < self.coord_to_id.len()
            invariant
                i <= self.coord_to_id@.len(),
                forall|j: int| 0 <= j < i ==> (#[trigger] self.coord_to_id@[j]).0 != c,
            decreases self.coord_to_id.len() - i,
        {
            if self.coord_to_id[i].0 == c {
                return Some(i);
            }
            i = i + 1;
        }
        None
    }

    /// Records `room` at `pos` under its location path, in place of any
    /// room recorded under that path before.
    fn put_room(&mut self, room: Room, pos: Coordinate)
        requires
            old(self).rooms_wf(),
        ensures
            final(self).rooms_wf(),
            final(self).room_map@ == old(self).room_map@.insert(room.location_path@, (room@, pos)),
            final(self).coord_to_id == old(self).coord_to_id,
            final(self).coord_map == old(self).coord_map,
            final(self).status == old(self).status,
            final(self).exit_room == old(self).exit_room,
    {
        let ghost key = room.location_path@;
        let ghost new_map = self.room_map@.insert(key, (room@, pos));
        let found = self.find_room(&room.location_path);
        match found {
            Some(i) => {
                self.rooms.set(i, (room, pos));
                self.room_map = Ghost(new_map);
                assert forall|k: Seq<char>| #[trigger] self.room_map@.contains_key(k) implies exists|j: int|
                    0 <= j < self.rooms@.len() && (#[trigger] self.rooms@[j]).0.location_path@ == k by {
                    if k != key {
                        let j = choose|j: int|
                            0 <= j < old(self).rooms@.len() && (#[trigger] old(self).rooms@[j]).0.location_path@ == k;
                        assert(self.rooms@[j] == old(self).rooms@[j]);
                    } else {
                        assert(self.rooms@[i as int].0.location_path@ == k);
                    }
                }
            },
            None => {
                self.rooms.push((room, pos));
                self.room_map = Ghost(new_map);
                let ghost n = self.rooms@.len() - 1;
                assert forall|k: Seq<char>| #[trigger] self.room_map@.contains_key(k) implies exists|j: int|
                    0 <= j < self.rooms@.len() && (#[trigger] self.rooms@[j]).0.location_path@ == k by {
                    if k != key {
                        let j = choose|j: int|
                            0 <= j < old(self).rooms@.len() && (#[trigger] old(self).rooms@[j]).0.location_path@ == k;
                        assert(self.rooms@[j] == old(self).rooms@[j]);
                    } else {
                        assert(self.rooms@[n].0.location_path@ == k);
                    }
                }
                assert forall|a: int, b: int|
                    0 <= a < b < self.rooms@.len() implies (#[trigger] self.rooms@[a]).0.location_path@
                    != (#[trigger] self.rooms@[b]).0.location_path@ by {
                    if b == n {
                        assert(old(self).room_map@.contains_key(old(self).rooms@[a].0.location_path@));
                    }
                }
            },
        }
    }

    /// Records that the room at `c` has location path `id`.
    fn put_coordinate(&mut self, c: Coordinate, id: String)
        requires
            old(self).coords_wf(),
        ensures
            final(self).coords_wf(),
            final(self).coord_map@ == old(self).coord_map@.insert(c, id@),
            final(self).rooms == old(self).rooms,
            final(self).room_map == old(self).room_map,
            final(self).status == old(self).status,
            final(self).exit_room == old(self).exit_room,
    {
        let ghost key = id@;
        let ghost new_map = self.coord_map@.insert(c, key);
        let found = self.find_coordinate(c);
        match found {
            Some(i) => {
                self.coord_to_id.set(i, (c, id));
                self.coord_map = Ghost(new_map);
                assert forall|k: Coordinate| #[trigger] self.coord_map@.contains_key(k) implies exists|j: int|
                    0 <= j < self.coord_to_id@.len() && (#[trigger] self.coord_to_id@[j]).0 == k by {
                    if k != c {
                        let j = choose|j: int|
                            0 <= j < old(self).coord_to_id@.len() && (#[trigger] old(self).coord_to_id@[j]).0 == k;
                        assert(self.coord_to_id@[j] == old(self).coord_to_id@[j]);
                    } else {
                        assert(self.coord_to_id@[i as int].0 == k);
                    }
                }
            },
            None => {
                self.coord_to_id.push((c, id));
                self.coord_map = Ghost(new_map);
                let ghost n = self.coord_to_id@.len() - 1;
                assert forall|k: Coordinate| #[trigger] self.coord_map@.contains_key(k) implies exists|j: int|
                    0 <= j < self.coord_to_id@.len() && (#[trigger] self.coord_to_id@[j]).0 == k by {
                    if k != c {
                        let j = choose|j: int|
                            0 <= j < old(self).coord_to_id@.len() && (#[trigger] old(self).coord_to_id@[j]).0 == k;
                        assert(self.coord_to_id@[j] == old(self).coord_to_id@[j]);
                    } else {
                        assert(self.coord_to_id@[n].0 == k);
                    }
                }
                assert forall|a: int, b: int|
                    0 <= a < b < self.coord_to_id@.len() implies (#[trigger] self.coord_to_id@[a]).0
                    != (#[trigger] self.coord_to_id@[b]).0 by {
                    if b == n {
                        assert(old(self).coord_map@.contains_key(old(self).coord_to_id@[a].0));
                    }
                }
            },
        }
    }

    fn current_index(&self) -> (r: Option<usize>)
        requires
            self.wf(),
        ensures
            match r {
                Some(i) => {
                    &&& i < self.rooms@.len()
                    &&& self@.current() == Some(entry_view(self.rooms@[i as int]))
                },
                None => self@.current() is None,
            },
    {
        match &self.status {
            Status::InRoom(id) => {
                let found = self.find_room(id);
                match found {
                    Some(i) => {
                        assert(self.room_map@.contains_key(self.rooms@[i as int].0.location_path@));
                        Some(i)
                    },
                    None => None,
                }
            },
            _ => None,
        }
    }

    /// The current status.
    pub fn status(&self) -> (r: &Status)
        ensures
            r@ == self@.status,
    {
        &self.status
    }

    /// Whether the maze has been left.
    pub fn exited(&self) -> (r: bool)
        ensures
            r == (self@.status is Finished),
    {
        match &self.status {
            Status::Finished(_) => true,
            _ => false,
        }
    }

    /// The current room, while in one.
    pub fn current_room(&self) -> (r: Option<&Room>)
        requires
            self.wf(),
        ensures
            r is Some == self@.current() is Some,
            r is Some ==> r->Some_0@ == self@.current()->Some_0.0,
    {
        match self.current_index() {
            Some(i) => Some(&self.rooms[i].0),
            None => None,
        }
    }

    /// The heading and distance to the maze's exit from the current room.
    pub fn current_exit_hint(&self) -> (r: Option<MazeExitHint>)
        requires
            self.wf(),
        ensures
            r == (match self@.current() {
                Some(cur) => Some(cur.0.maze_exit_hint),
                None => None::<MazeExitHint>,
            }),
    {
        match self.current_index() {
            Some(i) => Some(self.rooms[i].0.maze_exit_hint),
            None => None,
        }
    }

    /// The exits of the current room, in the order the API gave them.
    pub fn current_exits(&self) -> (r: Option<&Vec<MoveDirection>>)
        requires
            self.wf(),
        ensures
            r is Some == self@.current() is Some,
            r is Some ==> r->Some_0@ == self@.current()->Some_0.0.exits,
    {
        match self.current_index() {
            Some(i) => Some(&self.rooms[i].0.exits),
            None => None,
        }
    }

    /// The coordinate of the current room.
    pub fn current_coordinates(&self) -> (r: Option<Coordinate>)
        requires
            self.wf(),
        ensures
            r == (match self@.current() {
                Some(cur) => Some(cur.1),
                None => None::<Coordinate>,
            }),
    {
        match self.current_index() {
            Some(i) => Some(self.rooms[i].1),
            None => None,
        }
    }

    /// The location path of the current room.
    pub fn current_room_id(&self) -> (r: Option<&String>)
        ensures
            r is Some == self@.status is InRoom,
            r is Some ==> self@.status == StatusView::InRoom(r->Some_0@),
    {
        match &self.status {
            Status::InRoom(id) => Some(id),
            _ => None,
        }
    }

    /// Whether the current room has an exit in direction `direction`;
    /// false while loading or out of the maze.
    pub fn can_move_direction(&self, direction: MoveDirection) -> (r: bool)
        requires
            self.wf(),
        ensures
            r == self@.can_move(direction),
    {
        match self.current_exits() {
            Some(exits) => {
                let mut i: usize = 0;
                while i < exits.len()
                    invariant
                        i <= exits@.len(),
                        self@.current() is Some,
                        exits@ == self@.current()->Some_0.0.exits,
                        forall|j: int| 0 <= j < i ==> exits@[j] != direction,
                    decreases exits.len() - i,
                {
                    if exits[i] == direction {
                        assert(exits@[i as int] == direction);
                        return true;
                    }
                    i = i + 1;
                }
                false
            },
            None => false,
        }
    }

    /// The coordinate one step away from the current room in `direction`.
    pub fn next_coordinates(&self, direction: MoveDirection) -> (r: Option<Coordinate>)
        requires
            self.wf(),
        ensures
            r == self@.next_coordinate(direction),
    {
        match self.current_coordinates() {
            Some(c) => c.checked_add(direction.delta()),
            None => None,
        }
    }

    /// The location path of the room last discovered at `c`.
    pub fn cached_room_id(&self, c: Coordinate) -> (r: Option<String>)
        requires
            self.wf(),
        ensures
            r is Some == self@.coord_to_id.contains_key(c),
            r is Some ==> r->Some_0@ == self@.coord_to_id[c],
    {
        match self.find_coordinate(c) {
            Some(i) => Some(self.coord_to_id[i].1.clone()),
            None => None,
        }
    }

    /// The room discovered under a location path, with its coordinate.
    pub fn room(&self, id: &String) -> (r: Option<&(Room, Coordinate)>)
        requires
            self.wf(),
        ensures
            r is Some == self@.rooms.contains_key(id@),
            r is Some ==> entry_view(*r->Some_0) == self@.rooms[id@],
    {
        match self.find_room(id) {
            Some(i) => Some(&self.rooms[i]),
            None => None,
        }
    }

    /// Every discovered room with its coordinate, each once.
    pub fn rooms(&self) -> (r: &Vec<(Room, Coordinate)>)
        requires
            self.wf(),
        ensures
            forall|i: int|
                0 <= i < r@.len() ==> self@.rooms.contains_key((#[trigger] r@[i]).0.location_path@)
                    && self@.rooms[r@[i].0.location_path@] == entry_view(r@[i]),
            forall|k: Seq<char>| #[trigger]
                self@.rooms.contains_key(k) ==> exists|i: int|
                    0 <= i < r@.len() && (#[trigger] r@[i]).0.location_path@ == k,
            forall|i: int, j: int|
                0 <= i < j < r@.len() ==> (#[trigger] r@[i]).0.location_path@
                    != (#[trigger] r@[j]).0.location_path@,
    {
        &self.rooms
    }

    /// The room drawn where the maze was left, once it is.
    pub fn exit_room(&self) -> (r: Option<&(Room, Coordinate)>)
        ensures
            r is Some == self@.exit_room is Some,
            r is Some ==> entry_view(*r->Some_0) == self@.exit_room->Some_0,
    {
        match &self.exit_room {
            Some(e) => Some(e),
            None => None,
        }
    }

    /// Records `room`, reached by `last_move` from the current room (or the
    /// first room, at the origin, when `last_move` is `None`), in the rooms
    /// and in the coordinate cache, and enters it. Reaching a room by a move
    /// needs a current room.
    pub fn insert_room(&mut self, room: Room, last_move: Option<MoveDirection>)
        requires
            old(self).wf(),
            old(self)@.position_for(last_move) is Some,
        ensures
            final(self).wf(),
            final(self)@ == old(self)@.with_room(room@, old(self)@.position_for(last_move)->Some_0),
    {
        let position = match last_move {
            Some(prev_move) => {
                let cur = self.current_coordinates();
                match cur {
                    Some(c) => c.add(prev_move.delta()),
                    None => {
                        // excluded by the precondition
                        Coordinate { x: 0, y: 0 }
                    },
                }
            },
            None => Coordinate { x: 0, y: 0 },
        };
        let id = room.location_path.clone();
        let key = room.location_path.clone();
        self.put_room(room, position);
        self.put_coordinate(position, id);
        let ghost mid = *self;
        self.status = Status::InRoom(key);
        assert(self.coord_to_id == mid.coord_to_id);
        assert(self.coord_map == mid.coord_map);
        assert(self.coords_wf());
        assert(self@ =~= old(self)@.with_room(room@, position));
        assert forall|c: Coordinate| #[trigger]
            self@.coord_to_id.contains_key(c) implies self@.rooms.contains_key(self@.coord_to_id[c]) by {
            if c != position {
                assert(old(self)@.coord_to_id.contains_key(c));
            }
        }
    }

    /// Leaves the maze by `last_move` with `exit`: the status becomes
    /// finished, and a room with the exit's description and the one way back
    /// is drawn one step from the current room. The rooms and the cache stay
    /// as they are.
    pub fn reached_exit(&mut self, exit: Exit, last_move: Option<MoveDirection>)
        requires
            old(self).wf(),
            last_move is Some,
            old(self)@.next_coordinate(last_move->Some_0) is Some,
        ensures
            final(self).wf(),
            final(self)@ == old(self)@.finishing(exit@, last_move->Some_0),
    {
        let exit_move = match last_move {
            Some(d) => d,
            None => MoveDirection::N,  // excluded by the precondition
        };
        let position = match self.next_coordinates(exit_move) {
            Some(c) => c,
            None => Coordinate { x: 0, y: 0 },  // excluded by the precondition
        };
        let room = Room {
            status: RoomStatus::Finished,
            message: "Thank you for playing :)".to_owned(),
            exits: vec![exit_move.opposite()],
            description: exit.description.clone(),
            maze_exit_hint: MazeExitHint { direction: CompassDirection::N, distance: 0 },
            location_path: String::new(),
        };
        self.exit_room = Some((room, position));
        self.status = Status::Finished(exit);
        assert(self.coord_to_id == old(self).coord_to_id);
        assert(self.coord_map == old(self).coord_map);
        assert(old(self).coords_wf());
        assert(self.coords_wf());
        assert(room@.exits =~= seq![exit_move.spec_opposite()]);
        assert(self@ =~= old(self)@.finishing(exit@, exit_move));
    }

    /// Enters a room already discovered.
    pub fn enter_room(&mut self, id: String)
        requires
            old(self).wf(),
            old(self)@.rooms.contains_key(id@),
        ensures
            final(self).wf(),
            final(self)@ == old(self)@.entering(id@),
    {
        self.status = Status::InRoom(id);
        assert(self.rooms_wf());
        assert(self.coord_to_id == old(self).coord_to_id);
        assert(self.coord_map == old(self).coord_map);
        assert(old(self).coords_wf());
        assert(self.coords_wf());
        assert(self@.wf());
        assert(self@ =~= old(self)@.entering(id@));
    }

    /// Back to the start: loading, with no room discovered.
    pub fn restart(&mut self)
        ensures
            final(self).wf(),
            final(self)@ == StateView::initial(),
    {
        *self = State::new();
    }
}

impl Default for State {
    fn default() -> (r: State)
        ensures
            r.wf(),
            r@ == StateView::initial(),
    {
        State::new()
    }
}

} // verus!
