//! Game logic of Satoshi Settlers: player name entry, the on-screen keyboard,
//! polling counters, block and invoice messages, and the small computations
//! behind the game scenes.
use vstd::prelude::*;

pub mod block;
pub mod character_components;
pub mod comms;
pub mod game_scene;
pub mod init_setup;
pub mod player;
pub mod player_setup_scene;
pub mod qr_code_overlay_scene;
pub mod sharedstructs;
pub mod text;
pub mod ui;
pub mod web;

verus! {

/// The scenes of the game.
#[derive(Clone, Copy, PartialEq, Eq, Structural, Debug, Hash)]
pub enum AppState {
    /// Choosing a name.
    PlayerSetup,
    /// Playing.
    InGame,
    /// Showing an invoice to pay.
    QrOverlay,
}

/// Whether the invoice overlay is shown.
#[derive(Clone, Copy, PartialEq, Eq, Structural, Debug, Hash)]
pub enum AppQr {
    /// Hidden.
    Off,
    /// Shown, for an invoice of fifty satoshis.
    Fifty,
}

} // verus!
