//! The entry point: the backend in use and the players it makes.
use vstd::prelude::*;

verus! {

/// A media player as the rest of the program drives it.
pub trait Player {
    fn setup(&self) -> bool;

    fn play(&self);

    fn stop(&self);

    fn set_input_size(&self, size: u64);

    fn push_data(&self, data: Vec<u8>) -> bool;

    fn end_of_stream(&self) -> bool;
}

/// A player that plays nothing: setup and every data operation fail.
#[derive(Clone, Copy, Debug, PartialEq, Eq, Structural)]
pub struct DummyPlayer {}

impl Player for DummyPlayer {
    fn setup(&self) -> (r: bool)
        ensures
            !r,
    {
        false
    }

    fn play(&self) {
    }

    fn stop(&self) {
    }

    fn set_input_size(&self, _size: u64) {
    }

    fn push_data(&self, _data: Vec<u8>) -> (r: bool)
        ensures
            !r,
    {
        false
    }

    fn end_of_stream(&self) -> (r: bool)
        ensures
            !r,
    {
        false
    }
}

/// A source of players.
pub trait PlayerBackend {
    type Player: Player;

    fn make_player() -> Result<Self::Player, ()>;
}

/// The backend used where no media engine is available.
#[derive(Clone, Copy, Debug, PartialEq, Eq, Structural)]
pub struct DummyBackend {}

impl PlayerBackend for DummyBackend {
    type Player = DummyPlayer;

    fn make_player() -> (r: Result<DummyPlayer, ()>)
        ensures
            r == Ok::<DummyPlayer, ()>(DummyPlayer {}),
    {
        Ok(DummyPlayer {})
    }
}

impl DummyBackend {
    /// Prepares the backend; there is nothing to prepare.
    pub fn init() {
    }
}

/// Access to the media backend.
#[derive(Clone, Copy, Debug, PartialEq, Eq, Structural)]
pub struct ServoMedia {}

impl ServoMedia {
    /// Initializes the backend and returns the access point.
    pub fn new() -> (r: Self)
        ensures
            r == (ServoMedia {}),
    {
        DummyBackend::init();
        ServoMedia {}
    }

    /// A new player of the backend.
    pub fn create_player(&self) -> (r: Result<DummyPlayer, ()>)
        ensures
            r == Ok::<DummyPlayer, ()>(DummyPlayer {}),
    {
        match DummyBackend::make_player() {
            Ok(player) => Ok(player),
            Err(_) => Err(()),
        }
    }
}

} // verus!
