use shogi_cards::deck::{Deck, REPLICATION};
use shogi_cards::loader::DeckRecord;
use shogi_cards::model::{DrawCmd, Fill, PerMille};

fn record(img: &str, points: &[u8]) -> DeckRecord {
    DeckRecord { img: String::from(img), points: points.to_vec(), back: None }
}

#[test]
fn deck_iterates_in_lexicographic_key_order() {
    let mut deck = Deck::new();
    deck.insert(String::from("b_piece"), record("b.png", &[0, 4]));
    deck.insert(String::from("a_piece"), record("a.png", &[2]));
    deck.insert(String::from("c_piece"), record("c.png", &[]));
    assert_eq!(deck.len(), 3);
    assert_eq!(deck.get(0).name, "a_piece");
    assert_eq!(deck.get(1).name, "b_piece");
    assert_eq!(deck.get(2).name, "c_piece");
}

#[test]
fn deck_insert_replaces_equal_key() {
    let mut deck = Deck::new();
    deck.insert(String::from("piece"), record("old.png", &[1]));
    deck.insert(String::from("piece"), record("new.png", &[2]));
    assert_eq!(deck.len(), 1);
    assert_eq!(deck.get(0).record.img, "new.png");
}

#[test]
fn assemble_lengths_and_pairing() {
    let mut deck = Deck::new();
    deck.insert(String::from("b_piece"), record("b.png", &[0, 4]));
    deck.insert(String::from("a_piece"), record("a.png", &[2]));
    let copies = 5;
    let (fronts, backs) = deck.assemble("rel/", copies);
    assert_eq!(fronts.len(), 2 * copies);
    assert_eq!(backs.len(), 2 * copies);
    for i in 0..fronts.len() {
        let entry = deck.get(i / copies);
        // Front and back at one index always belong to the same deck entry.
        assert_eq!(fronts[i].content.img, entry.record.img);
        assert_eq!(backs[i].content.img, entry.record.img);
        assert!(!fronts[i].promoted);
        assert!(backs[i].promoted);
    }
}

#[test]
fn assemble_replicates_in_key_order() {
    // The worked deck: b_piece and a_piece, replicated five times each,
    // must process a_piece before b_piece.
    let mut deck = Deck::new();
    deck.insert(String::from("b_piece"), record("b.png", &[0, 4]));
    deck.insert(String::from("a_piece"), record("a.png", &[2]));
    let (fronts, backs) = deck.assemble("rel/", REPLICATION);
    assert_eq!(fronts.len(), 10);
    for i in 0..5 {
        assert_eq!(fronts[i].content.img, "a.png");
        assert_eq!(backs[i].content.img, "a.png");
    }
    for i in 5..10 {
        assert_eq!(fronts[i].content.img, "b.png");
        assert_eq!(backs[i].content.img, "b.png");
    }
}

#[test]
fn assembled_card_draw_recipe() {
    let mut deck = Deck::new();
    deck.insert(String::from("b_piece"), record("b.png", &[0, 4]));
    deck.insert(String::from("a_piece"), record("a.png", &[2]));
    let (fronts, backs) = deck.assemble("rel/", REPLICATION);

    // a_piece front: sky, base ground, image under the shared prefix,
    // then its single marker on the right of the ring.
    let cmds = fronts[0].draw_commands();
    assert_eq!(cmds.len(), 4);
    assert!(matches!(&cmds[0], DrawCmd::Quad { fill: Fill::Sky, .. }));
    assert!(matches!(&cmds[1], DrawCmd::Quad { fill: Fill::GroundBase, .. }));
    match &cmds[2] {
        DrawCmd::Image { path, pos, size } => {
            assert_eq!(path, "rel/a.png");
            assert_eq!(*pos, PerMille { x: 150, y: 150 });
            assert_eq!(*size, PerMille { x: 700, y: 700 });
        },
        other => panic!("expected the image layer, got {:?}", other),
    }
    assert_eq!(
        cmds[3],
        DrawCmd::Ellipse {
            center: PerMille { x: 780, y: 500 },
            radius: PerMille { x: 20, y: 20 },
            fill: Fill::Marker,
        }
    );

    // The a_piece back has no explicit back record: same content,
    // promoted ground palette.
    let back_cmds = backs[0].draw_commands();
    assert!(matches!(&back_cmds[1], DrawCmd::Quad { fill: Fill::GroundPromoted, .. }));

    // b_piece markers sit at the top and bottom of the ring.
    let b_cmds = fronts[5].draw_commands();
    assert_eq!(b_cmds.len(), 5);
    assert_eq!(
        b_cmds[3],
        DrawCmd::Ellipse {
            center: PerMille { x: 500, y: 100 },
            radius: PerMille { x: 20, y: 20 },
            fill: Fill::Marker,
        }
    );
    assert_eq!(
        b_cmds[4],
        DrawCmd::Ellipse {
            center: PerMille { x: 500, y: 900 },
            radius: PerMille { x: 20, y: 20 },
            fill: Fill::Marker,
        }
    );
}
