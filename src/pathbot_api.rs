//! The canonical model of the maze API's payloads: rooms, exits, messages
//! and the direction types they are made of.

use vstd::prelude::*;

verus! {

/// A move on the grid.
#[derive(PartialEq, Eq, Structural, Debug, Copy, Clone)]
pub enum MoveDirection {
    N,
    S,
    E,
    W,
}

impl MoveDirection {
    /// The one-letter code, as used on the wire.
    pub open spec fn spec_short_name(self) -> Seq<char> {
        match self {
            MoveDirection::N => "N"@,
            MoveDirection::S => "S"@,
            MoveDirection::E => "E"@,
            MoveDirection::W => "W"@,
        }
    }

    pub open spec fn spec_long_name(self) -> Seq<char> {
        match self {
            MoveDirection::N => "North"@,
            MoveDirection::S => "South"@,
            MoveDirection::E => "East"@,
            MoveDirection::W => "West"@,
        }
    }

    /// Clockwise angle in degrees, north being 0.
    pub open spec fn spec_angle_deg(self) -> u32 {
        match self {
            MoveDirection::N => 0,
            MoveDirection::E => 90,
            MoveDirection::S => 180,
            MoveDirection::W => 270,
        }
    }

    pub fn short_name(self) -> (r: &'static str)
        ensures
            r@ == self.spec_short_name(),
    {
        match self {
            MoveDirection::N => "N",
            MoveDirection::S => "S",
            MoveDirection::E => "E",
            MoveDirection::W => "W",
        }
    }

    pub fn long_name(self) -> (r: &'static str)
        ensures
            r@ == self.spec_long_name(),
    {
        match self {
            MoveDirection::N => "North",
            MoveDirection::S => "South",
            MoveDirection::E => "East",
            MoveDirection::W => "West",
        }
    }

    /// Clockwise angle in whole degrees.
    pub fn angle_deg(self) -> (r: u32)
        ensures
            r == self.spec_angle_deg(),
    {
        match self {
            MoveDirection::N => 0,
            MoveDirection::E => 90,
            MoveDirection::S => 180,
            MoveDirection::W => 270,
        }
    }
}


/// One of the eight headings of the compass.
#[derive(PartialEq, Eq, Structural, Debug, Copy, Clone)]
pub enum CompassDirection {
    N,
    S,
    E,
    W,
    NW,
    NE,
    SW,
    SE,
}

impl CompassDirection {
    /// The code, as used on the wire.
    pub open spec fn spec_short_name(self) -> Seq<char> {
        match self {
            CompassDirection::N => "N"@,
            CompassDirection::S => "S"@,
            CompassDirection::E => "E"@,
            CompassDirection::W => "W"@,
            CompassDirection::NW => "NW"@,
            CompassDirection::NE => "NE"@,
            CompassDirection::SW => "SW"@,
            CompassDirection::SE => "SE"@,
        }
    }

    pub open spec fn spec_long_name(self) -> Seq<char> {
        match self {
            CompassDirection::N => "North"@,
            CompassDirection::S => "South"@,
            CompassDirection::E => "East"@,
            CompassDirection::W => "West"@,
            CompassDirection::NW => "North-West"@,
            CompassDirection::NE => "North-East"@,
            CompassDirection::SW => "South-West"@,
            CompassDirection::SE => "South-East"@,
        }
    }

    /// Clockwise angle in degrees: north is 0, each step of 45 goes
    /// through NE, E, SE, S, SW, W and NW.
    pub open spec fn spec_angle_deg(self) -> u32 {
        match self {
            CompassDirection::N => 0,
            CompassDirection::NE => 45,
            CompassDirection::E => 90,
            CompassDirection::SE => 135,
            CompassDirection::S => 180,
            CompassDirection::SW => 225,
            CompassDirection::W => 270,
            CompassDirection::NW => 315,
        }
    }

    pub fn short_name(self) -> (r: &'static str)
        ensures
            r@ == self.spec_short_name(),
    {
        match self {
            CompassDirection::N => "N",
            CompassDirection::S => "S",
            CompassDirection::E => "E",
            CompassDirection::W => "W",
            CompassDirection::NW => "NW",
            CompassDirection::NE => "NE",
            CompassDirection::SW => "SW",
            CompassDirection::SE => "SE",
        }
    }

    pub fn long_name(self) -> (r: &'static str)
        ensures
            r@ == self.spec_long_name(),
    {
        match self {
            CompassDirection::N => "North",
            CompassDirection::S => "South",
            CompassDirection::E => "East",
            CompassDirection::W => "West",
            CompassDirection::NW => "North-West",
            CompassDirection::NE => "North-East",
            CompassDirection::SW => "South-West",
            CompassDirection::SE => "South-East",
        }
    }

    /// Clockwise angle in whole degrees.
    pub fn angle_deg(self) -> (r: u32)
        ensures
            r == self.spec_angle_deg(),
    {
        match self {
            CompassDirection::N => 0,
            CompassDirection::NE => 45,
            CompassDirection::E => 90,
            CompassDirection::SE => 135,
            CompassDirection::S => 180,
            CompassDirection::SW => 225,
            CompassDirection::W => 270,
            CompassDirection::NW => 315,
        }
    }
}

/// Whether the maze goes on from a room.
#[derive(PartialEq, Eq, Structural, Debug, Copy, Clone)]
pub enum RoomStatus {
    InProgress,
    Finished,
}

impl RoomStatus {
    /// The wire spelling.
    pub open spec fn spec_wire_name(self) -> Seq<char> {
        match self {
            RoomStatus::InProgress => "in-progress"@,
            RoomStatus::Finished => "finished"@,
        }
    }

    pub fn wire_name(self) -> (r: &'static str)
        ensures
            r@ == self.spec_wire_name(),
    {
        match self {
            RoomStatus::InProgress => "in-progress",
            RoomStatus::Finished => "finished",
        }
    }
}

/// Heading and distance from a room to the maze's exit.
#[derive(PartialEq, Eq, Structural, Debug, Copy, Clone)]
pub struct MazeExitHint {
    pub direction: CompassDirection,
    pub distance: u32,
}

/// A room of the maze, as the API describes it.
#[derive(PartialEq, Eq, Debug, Clone)]
pub struct Room {
    pub status: RoomStatus,
    pub message: String,
    pub exits: Vec<MoveDirection>,
    pub description: String,
    pub maze_exit_hint: MazeExitHint,
    /// Identifies the room, and is the endpoint of the next move from it.
    pub location_path: String,
}

pub struct RoomView {
    pub status: RoomStatus,
    pub message: Seq<char>,
    pub exits: Seq<MoveDirection>,
    pub description: Seq<char>,
    pub maze_exit_hint: MazeExitHint,
    pub location_path: Seq<char>,
}

impl View for Room {
    type V = RoomView;

    open spec fn view(&self) -> RoomView {
        RoomView {
            status: self.status,
            message: self.message@,
            exits: self.exits@,
            description: self.description@,
            maze_exit_hint: self.maze_exit_hint,
            location_path: self.location_path@,
        }
    }
}

/// The payload that ends the maze.
#[derive(PartialEq, Eq, Debug, Clone)]
pub struct Exit {
    pub status: RoomStatus,
    pub description: String,
}

pub struct ExitView {
    pub status: RoomStatus,
    pub description: Seq<char>,
}

impl View for Exit {
    type V = ExitView;

    open spec fn view(&self) -> ExitView {
        ExitView { status: self.status, description: self.description@ }
    }
}

/// A notice that the API sends in place of a room.
#[derive(PartialEq, Eq, Debug, Clone)]
pub struct Message {
    pub message: String,
}

impl View for Message {
    type V = Seq<char>;

    open spec fn view(&self) -> Seq<char> {
        self.message@
    }
}

/// The three shapes of an API response.
#[derive(PartialEq, Eq, Debug, Clone)]
pub enum PathbotApiMessage {
    Room(Room),
    Message(Message),
    Exit(Exit),
}

pub enum ApiMessageView {
    Room(RoomView),
    Message(Seq<char>),
    Exit(ExitView),
}

impl View for PathbotApiMessage {
    type V = ApiMessageView;

    open spec fn view(&self) -> ApiMessageView {
        match self {
            PathbotApiMessage::Room(r) => ApiMessageView::Room(r@),
            PathbotApiMessage::Message(m) => ApiMessageView::Message(m@),
            PathbotApiMessage::Exit(e) => ApiMessageView::Exit(e@),
        }
    }
}

} // verus!
