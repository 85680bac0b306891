use satoshi_settlers::comms::{
    api_height_sender, api_receiver, apply_replies, blockheight_url, invoice_url, setup_comm, Api100Receiver,
    Api5000Sender, ReceiverAction,
};
use satoshi_settlers::init_setup::{setup, ActixServerURI};
use satoshi_settlers::sharedstructs::{BlockData, InvoiceData};
use satoshi_settlers::text::{i32_to_string, to_ascii_uppercase, u32_to_string};
use satoshi_settlers::AppQr;

#[test]
fn counters_start_at_zero() {
    let (receiver, sender) = setup_comm();
    assert_eq!((receiver.c, receiver.poll_trigger), (0, 100));
    assert_eq!((sender.c, sender.poll_trigger), (0, 5000));
}

#[test]
fn receiver_fires_every_hundred_frames() {
    let mut r = Api100Receiver::new();
    let mut fired = vec![];
    for _ in 0..350 {
        if api_receiver(&mut r) == ReceiverAction::ReadReplies {
            fired.push(r.c);
        }
    }
    assert_eq!(fired, vec![100, 200, 300]);
    assert_eq!(r.c, 350);
}

#[test]
fn counter_with_negative_values() {
    let mut r = Api100Receiver { c: -201, poll_trigger: 100 };
    assert_eq!(api_receiver(&mut r), ReceiverAction::ReadReplies);
    assert_eq!(r.c, -200);
    let mut r = Api100Receiver { c: 5, poll_trigger: -3 };
    assert_eq!(api_receiver(&mut r), ReceiverAction::ReadReplies);
    assert_eq!(api_receiver(&mut r), ReceiverAction::Wait);
}

#[test]
fn sender_asks_on_its_period() {
    let server = setup();
    assert_eq!(server.0, "http://localhost:8081");
    let mut s = Api5000Sender::new();
    for _ in 0..4999 {
        assert!(api_height_sender(&mut s, &server).is_none());
    }
    assert_eq!(
        api_height_sender(&mut s, &server),
        Some("http://localhost:8081/blockheight".to_string())
    );
}

#[test]
fn request_addresses() {
    let server = ActixServerURI("https://satoshisettlers.com".to_string());
    assert_eq!(blockheight_url(&server), "https://satoshisettlers.com/blockheight");
    assert_eq!(invoice_url(&server), "https://satoshisettlers.com/invoice/50000");
}

#[test]
fn block_message_sets_the_banner() {
    let b = BlockData { hash: "00".repeat(32), height: 812345 };
    let u = apply_replies(Some(b), None);
    assert_eq!(u.blockheight_text, Some("Current Blockheight: 812345".to_string()));
    assert!(u.qr_string.is_none() && u.qr_state.is_none());
    let u = apply_replies(Some(BlockData { hash: String::new(), height: -7 }), None);
    assert_eq!(u.blockheight_text, Some("Current Blockheight: -7".to_string()));
}

#[test]
fn invoice_message_opens_the_overlay() {
    let i = InvoiceData { invoice: "lnbc20n1p36a7lp".to_string() };
    let u = apply_replies(None, Some(i));
    assert!(u.blockheight_text.is_none());
    assert_eq!(u.qr_string.map(|q| q.0), Some("LNBC20N1P36A7LP".to_string()));
    assert_eq!(u.qr_state, Some(AppQr::Fifty));
    let u = apply_replies(None, None);
    assert!(u.blockheight_text.is_none() && u.qr_string.is_none() && u.qr_state.is_none());
}

#[test]
fn decimal_text_matches_display() {
    for n in [0u32, 7, 10, 99, 100, 4096, 1_000_000, u32::MAX] {
        assert_eq!(u32_to_string(n), n.to_string());
    }
    for n in [0i32, -1, 9, -10, 123456, i32::MAX, i32::MIN] {
        assert_eq!(i32_to_string(n), n.to_string());
    }
}

#[test]
fn ascii_uppercase_matches_std() {
    for s in ["", "lnbc1", "MiXeD 123 ü ß é", "日本語abc"] {
        assert_eq!(to_ascii_uppercase(s), s.to_ascii_uppercase());
        assert_eq!(to_ascii_uppercase(&to_ascii_uppercase(s)), to_ascii_uppercase(s));
    }
}

#[test]
fn block_data_validation() {
    let good = BlockData { hash: "ab".repeat(32), height: 0 };
    assert!(good.validate().is_ok());
    let good = BlockData { hash: "é".repeat(64), height: 1_000_000 };
    assert!(good.validate().is_ok());
    let e = BlockData { hash: "ab".repeat(31), height: 5 }.validate().unwrap_err();
    assert!(e.hash && !e.height);
    let e = BlockData { hash: "ab".repeat(32), height: -1 }.validate().unwrap_err();
    assert!(!e.hash && e.height);
    let e = BlockData { hash: String::new(), height: 1_000_001 }.validate().unwrap_err();
    assert!(e.hash && e.height);
}

#[test]
fn receiver_reads_replies_only_when_it_polls() {
    let mut counter = Api100Receiver { c: 98, poll_trigger: 100 };
    assert_eq!(api_receiver(&mut counter), ReceiverAction::Wait);
    assert_eq!(counter.c, 99);
    assert_eq!(api_receiver(&mut counter), ReceiverAction::ReadReplies);
    assert_eq!(counter.c, 100);
    assert_eq!(api_receiver(&mut counter), ReceiverAction::Wait);
    let u = apply_replies(
        Some(BlockData { hash: String::new(), height: 840000 }),
        Some(InvoiceData { invoice: "lnbc1x".to_string() }),
    );
    assert_eq!(u.blockheight_text, Some("Current Blockheight: 840000".to_string()));
    assert_eq!(u.qr_string.map(|q| q.0), Some("LNBC1X".to_string()));
    assert_eq!(u.qr_state, Some(AppQr::Fifty));
}
