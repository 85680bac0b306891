use satoshi_settlers::block::{block_label, setup as block_setup, Block, Edge};
use satoshi_settlers::game_scene::{animate_sprite, pay_button_system, setup, SPRITE_FRAMES};
use satoshi_settlers::init_setup::ActixServerURI;
use satoshi_settlers::player::{key_velocity, player_movement_facing, Direction, Player};
use satoshi_settlers::qr_code_overlay_scene::{setup_qr, CurrentQrString};
use satoshi_settlers::ui::{button_look, ButtonInteraction, ButtonLook};
use satoshi_settlers::web::{found_item, found_item_reply, pg, Json};

#[test]
fn sprite_cycles_through_its_frames() {
    assert_eq!(setup().0, 0);
    let mut i = 0;
    let mut seen = vec![];
    for _ in 0..SPRITE_FRAMES {
        i = animate_sprite(i, SPRITE_FRAMES);
        seen.push(i);
    }
    assert_eq!(seen, vec![1, 2, 3, 4, 5, 6, 0]);
    assert_eq!(animate_sprite(9, 7), 3);
}

#[test]
fn button_looks() {
    assert_eq!(button_look(ButtonInteraction::Clicked), ButtonLook::Pressed);
    assert_eq!(button_look(ButtonInteraction::Hovered), ButtonLook::Hovered);
    assert_eq!(button_look(ButtonInteraction::Idle), ButtonLook::Normal);
}

#[test]
fn pay_button_asks_for_an_invoice() {
    let server = ActixServerURI("http://localhost:8081".to_string());
    let r = pay_button_system(ButtonInteraction::Clicked, &server);
    assert_eq!(r.look, ButtonLook::Pressed);
    assert_eq!(r.request_url, Some("http://localhost:8081/invoice/50000".to_string()));
    let r = pay_button_system(ButtonInteraction::Hovered, &server);
    assert_eq!(r.look, ButtonLook::Hovered);
    assert!(r.request_url.is_none());
    assert!(pay_button_system(ButtonInteraction::Idle, &server).request_url.is_none());
}

#[test]
fn spiral_numbers_as_ulam_numbers_them() {
    let cases = [
        ((0, 0), 0u32),
        ((1, 0), 1),
        ((1, 1), 2),
        ((0, 1), 3),
        ((-1, 1), 4),
        ((-1, 0), 5),
        ((-1, -1), 6),
        ((0, -1), 7),
        ((1, -1), 8),
        ((-9, 10), 399),
        ((-6, -3), 153),
        ((8, -2), 230),
        ((0, -2), 22),
        ((9, -9), 360),
        ((2, 2), 12),
        ((-3, 3), 36),
        ((-9, -9), 342),
        ((400, -221), 638579),
        ((-398, -129), 634143),
        ((-397, -996), 3970655),
        ((250, 999), 3990755),
    ];
    for ((x, y), v) in cases {
        assert_eq!(block_label(x, y), v.to_string(), "at ({}, {})", x, y);
    }
}

#[test]
fn walking_across_blocks() {
    let (mut block, label) = block_setup();
    assert_eq!(label, "0");
    assert_eq!(block.step(Edge::East), "1");
    assert_eq!(block.step(Edge::North), "2");
    assert_eq!(block.step(Edge::West), "3");
    assert_eq!(block.step(Edge::South), "0");
    assert_eq!((block.x, block.y), (0, 0));
    let mut b = Block { num: 4, x: 5, y: -2 };
    b.step(Edge::South);
    assert_eq!((b.num, b.x, b.y), (4, 5, -3));
}

#[test]
fn player_walk_cycle() {
    let mut p = Player::spawn();
    assert_eq!(p.direction, Direction::Down);
    let frames: Vec<usize> = (0..5).map(|_| p.animate(true).index).collect();
    assert_eq!(frames, vec![1, 0, 2, 0, 1]);
    let f = p.animate(false);
    assert_eq!((f.index, f.flip_x, p.current_animation_index), (0, None, 0));
    p.direction = Direction::Left;
    let f = p.animate(true);
    assert_eq!((f.index, f.flip_x), (4, Some(true)));
    p.direction = Direction::Right;
    let f = p.animate(true);
    assert_eq!((f.index, f.flip_x), (3, Some(false)));
    p.direction = Direction::Up;
    p.current_animation_index = 3;
    let f = p.animate(true);
    assert_eq!((f.index, f.flip_x, p.current_animation_index), (6, None, 0));
}

#[test]
fn keys_and_facing() {
    assert_eq!(key_velocity(true, false, false, false), (0, 1));
    assert_eq!(key_velocity(true, true, false, false), (-1, 1));
    assert_eq!(key_velocity(true, true, true, true), (1, -1));
    assert_eq!(key_velocity(false, false, false, false), (0, 0));
    assert_eq!(player_movement_facing(Direction::Up, 1, 0), Direction::Right);
    assert_eq!(player_movement_facing(Direction::Up, -1, 0), Direction::Left);
    assert_eq!(player_movement_facing(Direction::Left, 1, -1), Direction::Down);
    assert_eq!(player_movement_facing(Direction::Left, 0, 1), Direction::Up);
    assert_eq!(player_movement_facing(Direction::Right, 0, 0), Direction::Right);
}

#[test]
fn invoice_is_drawn_as_a_qr_code() {
    let qr = CurrentQrString("LNBC20N1P36A7LPPP5UC2ZSMMZQU6ZEH8XW54MY6997EU8XYYKM25Y0EPLC09H9M53KC9QDQVTFZ5Y32YG4ZSCQZPGXQZJCSP5VH36CEYL3CRHC7KF0WWMVXAJJ2S4J50NV40DZV7VUMKKGYRZU80Q9QYYSSQW3380SLJFCJ2RSEHPLTAR57VRUYWN8YPJJQFTU8DC56NC36ST3USKHGVJJQJLKHN7AKKDPR8KALH74SLETQDUT8R02EH96LTPG4Y5LCQDFKTJ7".to_string());
    let svg = setup_qr(&qr).expect("the invoice fits");
    assert!(svg.starts_with("<?xml"));
    assert!(svg.contains("#800000") && svg.contains("#ffff80"));
    assert!(svg.contains("width=\"244\""));
    let too_long = CurrentQrString("x".repeat(2000));
    assert!(setup_qr(&too_long).is_none());
}

fn reply(items: Vec<Json>) -> Json {
    Json::Object(vec![
        ("name".to_string(), Json::Str("tidwell".to_string())),
        (
            "character".to_string(),
            Json::Object(vec![
                ("level".to_string(), Json::Number("3".to_string())),
                ("items".to_string(), Json::Array(items)),
            ]),
        ),
    ])
}

#[test]
fn found_item_message() {
    let v = reply(vec![Json::Str("shield".to_string()), Json::Str("sword".to_string())]);
    assert_eq!(found_item(&v), Some("sword"));
    assert_eq!(found_item_reply(Some(v)), Some("Hello you found an item sword!".to_string()));
    assert_eq!(
        found_item_reply(Some(reply(vec![Json::Str("shield".to_string()), Json::Number("3".to_string())]))),
        None
    );
    assert_eq!(found_item_reply(Some(reply(vec![Json::Str("shield".to_string())]))), None);
    assert_eq!(found_item_reply(Some(Json::Null)), None);
    assert_eq!(found_item_reply(Some(Json::Array(vec![]))), None);
    assert_eq!(found_item_reply(None), None);
}

#[test]
fn reply_body_is_parsed_as_json() {
    let body = br#"{"name":"tidwell","character":{"level":3,"items":["shield","sword"]}}"#.to_vec();
    assert_eq!(pg(Ok(body)), Some("Hello you found an item sword!".to_string()));
    let body = br#"{"character":{"items":["shield",7]}}"#.to_vec();
    assert_eq!(pg(Ok(body)), None);
    let body = br#"{"character":{"items":["shield","bow"]}} trailing"#.to_vec();
    assert_eq!(pg(Ok(body)), None);
    assert_eq!(pg(Ok(b"not json".to_vec())), None);
    assert_eq!(pg(Ok(Vec::new())), None);
    let body = " {\"character\" : {\"items\": [null, \"caf\u{e9}\"]}} ".as_bytes().to_vec();
    assert_eq!(pg(Ok(body)), Some("Hello you found an item caf\u{e9}!".to_string()));
}

#[test]
fn failed_request_message() {
    assert_eq!(
        pg(Err("connection refused".to_string())),
        Some("Cant connect to server bro! please report this error: connection refused".to_string())
    );
}

#[test]
fn player_needs_only_the_frames_it_faces() {
    let mut p = Player {
        direction: Direction::Down,
        up_animation_indexes: vec![],
        down_animation_indexes: vec![0, 1, 0, 2],
        left_animation_indexes: vec![],
        right_animation_indexes: vec![],
        current_animation_index: 0,
        flipx_animation_l: true,
        flipx_animation_r: false,
    };
    assert_eq!(p.animate(true).index, 1);
    assert_eq!(p.animate(false).index, 0);
    assert!(p.up_animation_indexes.is_empty());
}

#[test]
fn spiral_numbers_at_the_edge_of_the_range() {
    assert_eq!(block_label(23169, -23169), "2147302920");
    assert_eq!(block_label(-23169, 23169), "2147210244");
    assert_eq!(block_label(23170, 0), "2147326090");
    assert_eq!(block_label(-23170, 23170), "2147395600");
    assert_eq!(block_label(-23170, -23170), "2147441940");
    assert_eq!(block_label(18537, -23170), "2147483647");
    let mut b = Block { num: 0, x: 18536, y: -23170 };
    assert_eq!(b.step(Edge::East), "2147483647");
    assert_eq!((b.x, b.y), (18537, -23170));
}
