//! Talking to the game server: polling counters, request addresses, and what
//! the replies change in the game.
use vstd::prelude::*;
use vstd::string::*;
use crate::init_setup::ActixServerURI;
use crate::qr_code_overlay_scene::CurrentQrString;
use crate::sharedstructs::{BlockData, InvoiceData};
use crate::text::{
    ascii_upper, ascii_uppercased, concat, i32_to_string, signed_decimal, to_ascii_uppercase,
};
use crate::AppQr;

verus! {

/// Counts frames and polls the replies every `poll_trigger` frames.
pub struct Api100Receiver {
    pub c: i32,
    pub poll_trigger: i32,
}

/// Counts frames and asks for the block height every `poll_trigger` frames.
pub struct Api5000Sender {
    pub c: i32,
    pub poll_trigger: i32,
}

/// Frames between two polls of the replies.
pub const RECEIVE_PERIOD: i32 = 100;

/// Frames between two requests of the block height.
pub const SEND_PERIOD: i32 = 5000;

/// Whether a counter that now reads `c` acts in this frame: `c` is a
/// multiple of the period.
pub open spec fn fires(c: int, poll_trigger: int) -> bool {
    exists|k: int| c == #[trigger] (poll_trigger * k)
}

/// Magnitude of an `i32`, as a `u64`.
fn magnitude(x: i32) -> (m: u64)
    ensures
        m as int == (if x < 0 { -x } else { x as int }),
{
    if x < 0 {
        (-(x as i64)) as u64
    } else {
        x as u64
    }
}

/// One frame of a polling counter: the counter moves on by one, and the
/// frame acts when the new count is a multiple of the period (`c % p == 0`).
fn tick_counter(c: &mut i32, poll_trigger: i32) -> (fired: bool)
    requires
        *old(c) < i32::MAX,
        poll_trigger != 0,
    ensures
        *final(c) == *old(c) + 1,
        fired == fires(*final(c) as int, poll_trigger as int),
{
    *c = *c + 1;
    let a = magnitude(*c);
    let b = magnitude(poll_trigger);
    let r = a % b;
    proof {
        lemma_fires_magnitude(*c as int, poll_trigger as int, a as int, b as int);
    }
    r == 0
}

/// A count is a multiple of the period exactly when its magnitude is a
/// multiple of the period's magnitude.
proof fn lemma_fires_magnitude(c: int, p: int, a: int, b: int)
    requires
        p != 0,
        a == (if c < 0 { -c } else { c }),
        b == (if p < 0 { -p } else { p }),
    ensures
        fires(c, p) == (a % b == 0),
{
    vstd::arithmetic::div_mod::lemma_fundamental_div_mod(a, b);
    if a % b == 0 {
        let q = a / b;
        let k = if (c < 0) == (p < 0) { q } else { -q };
        assert(c == p * k) by (nonlinear_arith)
            requires
                a == b * q,
                a == (if c < 0 { -c } else { c }),
                b == (if p < 0 { -p } else { p }),
                k == (if (c < 0) == (p < 0) { q } else { -q }),
        ;
        assert(fires(c, p));
    }
    if fires(c, p) {
        let k = choose|k: int| c == #[trigger] (p * k);
        let m = if k < 0 { -k } else { k };
        assert(a == m * b) by (nonlinear_arith)
            requires
                c == p * k,
                a == (if c < 0 { -c } else { c }),
                b == (if p < 0 { -p } else { p }),
                m == (if k < 0 { -k } else { k }),
        ;
        vstd::arithmetic::div_mod::lemma_mod_multiples_basic(m, b);
    }
}

impl Api100Receiver {
    /// A counter at zero that polls every `RECEIVE_PERIOD` frames.
    pub fn new() -> (r: Self)
        ensures
            r.c == 0,
            r.poll_trigger == RECEIVE_PERIOD,
    {
        Api100Receiver { c: 0, poll_trigger: RECEIVE_PERIOD }
    }
}

impl Api5000Sender {
    /// A counter at zero that asks every `SEND_PERIOD` frames.
    pub fn new() -> (r: Self)
        ensures
            r.c == 0,
            r.poll_trigger == SEND_PERIOD,
    {
        Api5000Sender { c: 0, poll_trigger: SEND_PERIOD }
    }

    /// Counts one frame and says whether the block height is asked for in it.
    pub fn tick(&mut self) -> (fired: bool)
        requires
            old(self).c < i32::MAX,
            old(self).poll_trigger != 0,
        ensures
            final(self).c == old(self).c + 1,
            final(self).poll_trigger == old(self).poll_trigger,
            fired == fires(final(self).c as int, final(self).poll_trigger as int),
    {
        tick_counter(&mut self.c, self.poll_trigger)
    }
}

/// The two counters that the game starts with.
pub fn setup_comm() -> (r: (Api100Receiver, Api5000Sender))
    ensures
        r.0.c == 0 && r.0.poll_trigger == RECEIVE_PERIOD,
        r.1.c == 0 && r.1.poll_trigger == SEND_PERIOD,
{
    (Api100Receiver::new(), Api5000Sender::new())
}

/// Whether, from a counter at `start`, the `k`-th next frame acts.
pub open spec fn fires_after(start: int, k: int, p: int) -> bool {
    fires(start + k, p)
}

/// Among `p` frames in a row, exactly one is a frame that acts.
pub proof fn lemma_one_fire_per_period(start: int, p: int)
    requires
        p > 0,
    ensures
        exists|k: int| 1 <= k <= p && #[trigger] fires_after(start, k, p),
        forall|k1: int, k2: int|
            1 <= k1 <= p && 1 <= k2 <= p && #[trigger] fires_after(start, k1, p)
                && #[trigger] fires_after(start, k2, p) ==> k1 == k2,
{
    vstd::arithmetic::div_mod::lemma_fundamental_div_mod(start, p);
    let k = p - start % p;
    let q = start / p + 1;
    assert(start + k == p * q) by (nonlinear_arith)
        requires
            start == p * (start / p) + start % p,
            k == p - start % p,
            q == start / p + 1,
    ;
    assert(fires_after(start, k, p));
    assert forall|k1: int, k2: int|
        1 <= k1 <= p && 1 <= k2 <= p && #[trigger] fires_after(start, k1, p)
            && #[trigger] fires_after(start, k2, p) implies k1 == k2 by {
        let m1 = choose|m: int| start + k1 == #[trigger] (p * m);
        let m2 = choose|m: int| start + k2 == #[trigger] (p * m);
        lemma_close_multiples(start + k1, start + k2, p, m1, m2);
    }
}

/// Two multiples of `p` less than `p` apart are equal.
proof fn lemma_close_multiples(a: int, b: int, p: int, m1: int, m2: int)
    requires
        p > 0,
        a == p * m1,
        b == p * m2,
        -p < a - b < p,
    ensures
        a == b,
{
    assert(a - b == p * (m1 - m2)) by (nonlinear_arith)
        requires
            a == p * m1,
            b == p * m2,
    ;
    if m1 - m2 >= 1 {
        assert(p * (m1 - m2) >= p) by (nonlinear_arith)
            requires
                p > 0,
                m1 - m2 >= 1,
        ;
    } else if m1 - m2 <= -1 {
        assert(p * (m1 - m2) <= -p) by (nonlinear_arith)
            requires
                p > 0,
                m1 - m2 <= -1,
        ;
    }
}

/// Path on the server that reports the block height.
pub open spec fn blockheight_path() -> Seq<char> {
    "/blockheight"@
}

/// Path on the server that creates an invoice of fifty thousand millisatoshis.
pub open spec fn invoice_path() -> Seq<char> {
    "/invoice/50000"@
}

/// Address that reports the block height.
pub fn blockheight_url(server: &ActixServerURI) -> (r: String)
    ensures
        r@ == server.0@ + blockheight_path(),
{
    concat(server.0.as_str(), "/blockheight")
}

/// Address that creates an invoice of fifty thousand millisatoshis.
pub fn invoice_url(server: &ActixServerURI) -> (r: String)
    ensures
        r@ == server.0@ + invoice_path(),
{
    concat(server.0.as_str(), "/invoice/50000")
}

/// One frame of the block height requests: the counter moves on, and on the
/// frames that act the address to ask is returned.
pub fn api_height_sender(count: &mut Api5000Sender, server: &ActixServerURI) -> (r: Option<String>)
    requires
        old(count).c < i32::MAX,
        old(count).poll_trigger != 0,
    ensures
        final(count).c == old(count).c + 1,
        final(count).poll_trigger == old(count).poll_trigger,
        fires(final(count).c as int, final(count).poll_trigger as int) <==> r is Some,
        r matches Some(url) ==> url@ == server.0@ + blockheight_path(),
{
    if count.tick() {
        Some(blockheight_url(server))
    } else {
        None
    }
}

/// Text shown for the latest block.
pub open spec fn blockheight_text(height: i32) -> Seq<char> {
    "Current Blockheight: "@ + signed_decimal(height as int)
}

/// What the replies change in the game.
pub struct ReceivedUpdate {
    /// New text for the block height, when a block message arrived.
    pub blockheight_text: Option<String>,
    /// New invoice to show as a QR code, when an invoice arrived.
    pub qr_string: Option<CurrentQrString>,
    /// New state of the invoice overlay, when an invoice arrived.
    pub qr_state: Option<AppQr>,
}

/// Whether `u` is what the replies `height` and `invoice` change: a block
/// message sets the block height text; an invoice is shown, upper-cased, in
/// the invoice overlay; what did not arrive changes nothing.
pub open spec fn updates_for(height: Option<BlockData>, invoice: Option<InvoiceData>, u: ReceivedUpdate) -> bool {
    &&& height is None ==> u.blockheight_text is None
    &&& height matches Some(b) ==> (u.blockheight_text matches Some(t) && t@ == blockheight_text(
        b.height,
    ))
    &&& invoice is None ==> u.qr_string is None && u.qr_state is None
    &&& invoice matches Some(i) ==> u.qr_state == Some(AppQr::Fifty) && (u.qr_string matches Some(
        q) && q.0@ == ascii_uppercased(i.invoice@))
}

/// An arriving invoice is shown whole: the QR text has exactly as many
/// characters as the invoice, each one the invoice's character at the same
/// place, upper-cased; and the overlay opens at half size. A block message
/// sets the text `Current Blockheight: ` followed by the height in decimal.
pub proof fn lemma_updates_show_whole_invoice(
    height: Option<BlockData>,
    invoice: Option<InvoiceData>,
    u: ReceivedUpdate,
)
    requires
        updates_for(height, invoice, u),
    ensures
        invoice matches Some(i) ==> (u.qr_string matches Some(q) && q.0@.len() == i.invoice@.len()
            && forall|k: int| 0 <= k < i.invoice@.len() ==> q.0@[k] == ascii_upper(i.invoice@[k])),
        invoice is Some ==> u.qr_state == Some(AppQr::Fifty),
        invoice is None ==> u.qr_string is None && u.qr_state is None,
        height matches Some(b) ==> (u.blockheight_text matches Some(t) && t@ == "Current Blockheight: "@
            + signed_decimal(b.height as int)),
        height is None ==> u.blockheight_text is None,
{
}

/// What the replies of one poll change.
pub fn apply_replies(height: Option<BlockData>, invoice: Option<InvoiceData>) -> (r: ReceivedUpdate)
    ensures
        updates_for(height, invoice, r),
        invoice matches Some(i) ==> (r.qr_string matches Some(q) && q.0@.len() == i.invoice@.len()
            && forall|k: int| 0 <= k < i.invoice@.len() ==> q.0@[k] == ascii_upper(i.invoice@[k])),
{
    let blockheight_text = match height {
        Some(b) => {
            let h = i32_to_string(b.height);
            Some(concat("Current Blockheight: ", h.as_str()))
        },
        None => None,
    };
    match invoice {
        Some(i) => ReceivedUpdate {
            blockheight_text,
            qr_string: Some(CurrentQrString(to_ascii_uppercase(i.invoice.as_str()))),
            qr_state: Some(AppQr::Fifty),
        },
        None => ReceivedUpdate { blockheight_text, qr_string: None, qr_state: None },
    }
}

/// What the game does about the replies in a frame.
#[derive(Clone, Copy, PartialEq, Eq, Structural, Debug)]
pub enum ReceiverAction {
    /// Leave the reply channels alone: what arrived waits for the next poll.
    Wait,
    /// Take what arrived on the block and invoice channels and apply it with
    /// `apply_replies`.
    ReadReplies,
}

/// One frame of the reply polling: the counter moves on by one, and the
/// replies are read only in the frames whose new count is a multiple of the
/// period; in every other frame the channels are left unread.
pub fn api_receiver(counter: &mut Api100Receiver) -> (a: ReceiverAction)
    requires
        old(counter).c < i32::MAX,
        old(counter).poll_trigger != 0,
    ensures
        final(counter).c == old(counter).c + 1,
        final(counter).poll_trigger == old(counter).poll_trigger,
        (a == ReceiverAction::ReadReplies) == fires(final(counter).c as int, final(counter).poll_trigger as int),
{
    if tick_counter(&mut counter.c, counter.poll_trigger) {
        ReceiverAction::ReadReplies
    } else {
        ReceiverAction::Wait
    }
}

} // verus!
