//! Gamelogic decisions shared by the client and the server.

use vstd::prelude::*;

use crate::input::Buttons;

verus! {

/// How the player is participating in the game.
#[derive(Debug, Clone, Copy, PartialEq, Eq, Structural)]
pub enum PlayerState {
    /// The player is a freely floating camera observing the game.
    Observing,
    /// The player is watching another player's POV.
    Spectating { spectatee_index: u32 },
    /// The player is playing.
    Playing,
}

/// What a client asks the server to do with its player.
#[derive(Debug, Clone, Copy, PartialEq, Eq, Structural)]
pub enum PlayerRequest {
    /// Start playing.
    Join,
    /// Stop playing and observe.
    Observe,
}

/// The request the local player's buttons make: fire to join when observing,
/// secondary fire to observe when playing.
pub open spec fn request_spec(state: PlayerState, buttons: Buttons) -> Option<PlayerRequest> {
    if state == PlayerState::Observing && buttons.fire1 {
        Some(PlayerRequest::Join)
    } else if state == PlayerState::Playing && buttons.fire2 {
        Some(PlayerRequest::Observe)
    } else {
        None
    }
}

/// The state a player is in once the server grants a request.
pub open spec fn granted_state(req: PlayerRequest) -> PlayerState {
    match req {
        PlayerRequest::Join => PlayerState::Playing,
        PlayerRequest::Observe => PlayerState::Observing,
    }
}

/// The request, if any, that the local player's buttons make this frame.
pub fn player_request(state: PlayerState, buttons: &Buttons) -> (req: Option<PlayerRequest>)
    ensures
        req == request_spec(state, *buttons),
{
    if state == PlayerState::Observing && buttons.fire1 {
        Some(PlayerRequest::Join)
    } else if state == PlayerState::Playing && buttons.fire2 {
        Some(PlayerRequest::Observe)
    } else {
        None
    }
}

/// The server grants a player's request; every client is told the new state.
pub fn grant_request(req: PlayerRequest) -> (state: PlayerState)
    ensures
        state == granted_state(req),
{
    match req {
        PlayerRequest::Join => PlayerState::Playing,
        PlayerRequest::Observe => PlayerState::Observing,
    }
}

/// An observer who fires joins the game, and a player who uses secondary fire
/// goes back to observing; a spectator's buttons ask for nothing.
pub proof fn law_request_toggles_participation(state: PlayerState, buttons: Buttons)
    ensures
        state == PlayerState::Observing && buttons.fire1 ==> (request_spec(state, buttons) matches Some(r)
            && granted_state(r) == PlayerState::Playing),
        state == PlayerState::Playing && buttons.fire2 ==> (request_spec(state, buttons) matches Some(r)
            && granted_state(r) == PlayerState::Observing),
        state is Spectating ==> request_spec(state, buttons) is None,
        request_spec(state, buttons) matches Some(r) ==> granted_state(r) != state,
{
}

/// An observer asks to join exactly when primary fire is held, a player asks to observe
/// exactly when secondary fire is held, and a spectator asks for nothing.
pub proof fn law_request_needs_the_right_button(b: Buttons, spectatee_index: u32)
    ensures
        request_spec(PlayerState::Observing, b) == (if b.fire1 {
            Some(PlayerRequest::Join)
        } else {
            None
        }),
        request_spec(PlayerState::Playing, b) == (if b.fire2 {
            Some(PlayerRequest::Observe)
        } else {
            None
        }),
        request_spec(PlayerState::Spectating { spectatee_index }, b) == None::<PlayerRequest>,
{
}

} // verus!
