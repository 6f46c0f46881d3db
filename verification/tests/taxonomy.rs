use chess_assets::chess::{ChessPiece, ChessPieceKind, ChessPieceKindParseError};
use std::cmp::Ordering;

fn kinds_in_declared_order() -> Vec<ChessPieceKind> {
    vec![
        ChessPieceKind::Bishop,
        ChessPieceKind::Knight,
        ChessPieceKind::Pawn,
        ChessPieceKind::Rook,
        ChessPieceKind::Queen,
        ChessPieceKind::King,
    ]
}

#[test]
fn parse_round_trips_display_names() {
    for kind in kinds_in_declared_order() {
        let name = kind.to_display_name();
        assert_eq!(ChessPieceKind::parse(name), Ok(kind));
        assert_eq!(ChessPieceKind::parse(&name.to_lowercase()), Ok(kind));
        assert_eq!(ChessPieceKind::parse(&name.to_uppercase()), Ok(kind));
    }
}

#[test]
fn parse_trims_whitespace() {
    assert_eq!(ChessPieceKind::parse("  Rook "), Ok(ChessPieceKind::Rook));
    assert_eq!(ChessPieceKind::parse("\tqueen\n"), Ok(ChessPieceKind::Queen));
}

#[test]
fn parse_rejects_unknown_strings() {
    match ChessPieceKind::parse("archbishop") {
        Err(ChessPieceKindParseError::FailedMatch(s)) => assert_eq!(s, "archbishop"),
        other => panic!("expected a failed match, got {other:?}"),
    }
    match ChessPieceKind::parse("  Archbishop ") {
        Err(ChessPieceKindParseError::FailedMatch(s)) => assert_eq!(s, "archbishop"),
        other => panic!("expected a failed match, got {other:?}"),
    }
    assert!(ChessPieceKind::parse("").is_err());
    assert!(ChessPieceKind::parse("   ").is_err());
}

#[test]
fn all_variants_yields_twelve_distinct_pairs() {
    let variants = ChessPiece::all_variants();
    assert_eq!(variants.len(), 12);
    for i in 0..variants.len() {
        for j in 0..variants.len() {
            if i != j {
                assert_ne!(variants[i], variants[j]);
            }
        }
    }
    let mut expected = Vec::new();
    for kind in kinds_in_declared_order() {
        expected.push(ChessPiece { kind, is_white: false });
        expected.push(ChessPiece { kind, is_white: true });
    }
    assert_eq!(variants, expected);
}

#[test]
fn variant_file_names_are_the_canonical_twelve() {
    let names: Vec<String> = ChessPiece::all_variants()
        .into_iter()
        .map(|p| p.to_file_name())
        .collect();
    let expected = vec![
        "black_bishop.png",
        "white_bishop.png",
        "black_knight.png",
        "white_knight.png",
        "black_pawn.png",
        "white_pawn.png",
        "black_rook.png",
        "white_rook.png",
        "black_queen.png",
        "white_queen.png",
        "black_king.png",
        "white_king.png",
    ];
    assert_eq!(names, expected);
}

#[test]
fn ordering_is_color_first_then_rank() {
    let rank_order = [
        ChessPieceKind::Pawn,
        ChessPieceKind::Knight,
        ChessPieceKind::Bishop,
        ChessPieceKind::Rook,
        ChessPieceKind::Queen,
        ChessPieceKind::King,
    ];
    let mut chain = Vec::new();
    for kind in rank_order {
        chain.push(ChessPiece { kind, is_white: false });
    }
    for kind in rank_order {
        chain.push(ChessPiece { kind, is_white: true });
    }
    for i in 0..chain.len() {
        for j in 0..chain.len() {
            let (a, b) = (chain[i], chain[j]);
            if i < j {
                assert!(a < b);
                assert_eq!(a.cmp(&b), Ordering::Less);
                assert_eq!(b.cmp(&a), Ordering::Greater);
            } else if i == j {
                assert_eq!(a.cmp(&b), Ordering::Equal);
            }
        }
    }
    let black_king = ChessPiece { kind: ChessPieceKind::King, is_white: false };
    let white_pawn = ChessPiece { kind: ChessPieceKind::Pawn, is_white: true };
    assert!(black_king < white_pawn);
}

#[test]
fn to_file_name_is_pure() {
    for piece in ChessPiece::all_variants() {
        assert_eq!(piece.to_file_name(), piece.to_file_name());
    }
    let white_king = ChessPiece { kind: ChessPieceKind::King, is_white: true };
    assert_eq!(white_king.to_file_name(), "white_king.png");
}

#[test]
fn ranks_follow_the_fixed_table() {
    assert_eq!(ChessPieceKind::Pawn.rank(), 0);
    assert_eq!(ChessPieceKind::Knight.rank(), 1);
    assert_eq!(ChessPieceKind::Bishop.rank(), 2);
    assert_eq!(ChessPieceKind::Rook.rank(), 3);
    assert_eq!(ChessPieceKind::Queen.rank(), 4);
    assert_eq!(ChessPieceKind::King.rank(), 5);
}
