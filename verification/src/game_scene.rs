//! The game scene: the running sprite, the block height banner, and the
//! button that asks for an invoice.
use vstd::prelude::*;
use crate::comms::{invoice_path, invoice_url};
use crate::init_setup::ActixServerURI;
use crate::ui::{button_look, spec_button_look, ButtonInteraction, ButtonLook};

verus! {

/// Marks the pay button.
pub struct PayButton;

/// An invoice drawn as an SVG picture.
pub struct InvoiceSVG(pub String);

/// Marks the banner that shows the block height, with the height it shows.
pub struct Blockheight(pub u32);

/// Number of frames in the running sprite's sheet, side by side in one row.
pub const SPRITE_FRAMES: usize = 7;

/// The banner the scene starts with, before any block has been reported.
pub fn setup() -> (b: Blockheight)
    ensures
        b.0 == 0,
{
    Blockheight(0)
}

/// The frame after `index` in a sheet of `frames` frames: the next one,
/// wrapping around to the first after the last.
pub open spec fn next_frame(index: int, frames: int) -> int {
    (index + 1) % frames
}

/// Frame to show when the animation timer runs out.
pub fn animate_sprite(index: usize, frames: usize) -> (r: usize)
    requires
        frames > 0,
        index < usize::MAX,
    ensures
        r == next_frame(index as int, frames as int),
        r < frames,
        r == (index + 1) % (frames as int),
        index + 1 < frames ==> r == index + 1,
        index + 1 == frames ==> r == 0,
{
    let r = (index + 1) % frames;
    proof {
        if index + 1 < frames {
            vstd::arithmetic::div_mod::lemma_small_mod((index + 1) as nat, frames as nat);
        }
        if index + 1 == frames {
            vstd::arithmetic::div_mod::lemma_mod_self_0(frames as int);
        }
    }
    r
}

/// The frame reached from `index` after `n` steps.
pub open spec fn frame_after(index: int, frames: int, n: nat) -> int
    decreases n,
{
    if n == 0 {
        index
    } else {
        next_frame(frame_after(index, frames, (n - 1) as nat), frames)
    }
}

/// After `n` steps the animation shows frame `(index + n) % frames`.
pub proof fn lemma_frame_after(index: int, frames: int, n: nat)
    requires
        frames > 0,
        0 <= index < frames,
    ensures
        frame_after(index, frames, n) == (index + n) % frames,
    decreases n,
{
    if n > 0 {
        lemma_frame_after(index, frames, (n - 1) as nat);
        vstd::arithmetic::div_mod::lemma_add_mod_noop_right(1, index + n - 1, frames);
    } else {
        vstd::arithmetic::div_mod::lemma_small_mod(index as nat, frames as nat);
    }
}

/// The animation comes back to the frame it started on after one step per frame.
pub proof fn lemma_animation_cycles(index: int, frames: int)
    requires
        frames > 0,
        0 <= index < frames,
    ensures
        frame_after(index, frames, frames as nat) == index,
{
    lemma_frame_after(index, frames, frames as nat);
    vstd::arithmetic::div_mod::lemma_add_mod_noop_right(index, frames, frames);
    vstd::arithmetic::div_mod::lemma_mod_self_0(frames);
    vstd::arithmetic::div_mod::lemma_small_mod(index as nat, frames as nat);
}

/// What the pay button does in one frame.
pub struct PayButtonResponse {
    /// How the button looks.
    pub look: ButtonLook,
    /// Address to ask for an invoice, once the button is clicked.
    pub request_url: Option<String>,
}

/// The pay button: a click asks the server for an invoice of fifty satoshis.
pub fn pay_button_system(interaction: ButtonInteraction, server: &ActixServerURI) -> (r:
    PayButtonResponse)
    ensures
        r.look == spec_button_look(interaction),
        interaction == ButtonInteraction::Clicked <==> r.request_url is Some,
        r.request_url matches Some(url) ==> url@ == server.0@ + invoice_path(),
{
    let look = button_look(interaction);
    match interaction {
        ButtonInteraction::Clicked => PayButtonResponse { look, request_url: Some(invoice_url(server)) },
        _ => PayButtonResponse { look, request_url: None },
    }
}

} // verus!
