use shogi_cards::loader::DeckRecord;
use shogi_cards::model::Animal;

fn record(img: &str, points: &[u8], back: Option<(&str, &[u8])>) -> DeckRecord {
    DeckRecord {
        img: String::from(img),
        points: points.to_vec(),
        back: back.map(|(i, p)| Animal { img: String::from(i), points: p.to_vec() }),
    }
}

#[test]
fn split_front_is_never_promoted() {
    let with_back = record("f.png", &[1], Some(("b.png", &[2])));
    let without_back = record("f.png", &[1], None);
    let (front, _) = with_back.split("rel/");
    assert!(!front.promoted);
    let (front, _) = without_back.split("rel/");
    assert!(!front.promoted);
}

#[test]
fn split_default_back_duplicates_front() {
    let rec = record("f.png", &[0, 3], None);
    let (front, back) = rec.split("img/");
    assert_eq!(back.content.img, front.content.img);
    assert_eq!(back.content.points, front.content.points);
    assert_eq!(back.relative_path, "img/");
    assert!(back.promoted);
    assert!(!front.promoted);
}

#[test]
fn split_explicit_back_uses_back_content() {
    let rec = record("f.png", &[0, 3], Some(("alt.png", &[7])));
    let (front, back) = rec.split("img/");
    assert_eq!(front.content.img, "f.png");
    assert_eq!(front.content.points, vec![0, 3]);
    assert_eq!(back.content.img, "alt.png");
    assert_eq!(back.content.points, vec![7]);
    assert!(back.promoted);
}
