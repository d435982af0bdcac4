use stargazer::world::object::{Kind, Object};
use stargazer::world::position::Position;

#[test]
fn test_add() {
    let star = Object {
        name: "myStar".to_string(),
        kind: Kind::Star,
        position: Position::from_str("18:04:20.99,-31:31:8.9").unwrap(),
    };
    println!("{}", star.to_display_string());
}

#[test]
fn object_display_reads_name_kind_and_position() {
    let star = Object {
        name: "myStar".to_string(),
        kind: Kind::Star,
        position: Position::from_str("18:04:20.99,-31:31:8.9").unwrap(),
    };
    assert_eq!(
        star.to_display_string(),
        "Name: myStar\nKind: Star\nRA: 18h4m20.99s, DEC : -31d31m8.9s"
    );
}

#[test]
fn position_rejects_missing_declination() {
    assert!(Position::from_str("18:04:20.99").is_err());
}
