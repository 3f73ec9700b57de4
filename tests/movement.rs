use rust_chess::{Board, BoardState, Color, Error, File, MoveError, Piece, Position, Rank, Troop};


#[test]
fn test_pawn_movement() {
    let mut board = Board::default();
    assert_eq!(
        board.move_troop(
            Position {
                rank: Rank::Two,
                file: File::A
            },
            Position {
                rank: Rank::Three,
                file: File::A
            }
        ),
        Ok(())
    );
}


#[test]
fn blocked_path() {
    let mut board = Board::default();
    assert_eq!(
        board.move_troop(
            Position {
                file: File::A,
                rank: Rank::One,
            },
            Position {
                file: File::A,
                rank: Rank::Three,
            },
        ),
        Err(Error::Move(MoveError::PathIsBlocked))
    );
}


#[test]
fn bishop_standard_movement() {
    let mut board = Board::default();
    board.remove_troop(Position {
        file: File::D,
        rank: Rank::Two,
    });
    assert_eq!(
        board.move_troop(
            Position {
                file: File::C,
                rank: Rank::One,
            },
            Position {
                file: File::F,
                rank: Rank::Four,
            },
        ),
        Ok(())
    );
}

#[test]
fn bishop_invalid_movement() {
    let mut board = Board::default();
    assert_eq!(
        board.move_troop(
            Position {
                file: File::C,
                rank: Rank::One,
            },
            Position {
                file: File::C,
                rank: Rank::Four,
            },
        ),
        Err(Error::Move(MoveError::InvalidPath(
            "Bishop must move in a purely diagonal line"
        )))
    );
}


#[test]
fn king_standard_movement() {
    let mut board = Board::default();
    board.remove_troop(Position {
        file: File::E,
        rank: Rank::Two,
    });
    assert_eq!(
        board.move_troop(
            Position {
                file: File::E,
                rank: Rank::One
            },
            Position {
                file: File::E,
                rank: Rank::Two
            },
        ),
        Ok(()),
    );
}

#[test]
fn king_invalid_movement() {
    let mut board = Board::default();
    assert_eq!(
        board.move_troop(
            Position {
                file: File::E,
                rank: Rank::One
            },
            Position {
                file: File::E,
                rank: Rank::Three
            },
        ),
        Err(Error::Move(MoveError::InvalidPath(
            "King cannot move more than one space in any direction"
        ))),
    );
}


#[test]
fn knight_standard_movement() {
    let mut board = Board::default();
    assert_eq!(
        board.move_troop(
            Position {
                file: File::B,
                rank: Rank::One,
            },
            Position {
                file: File::C,
                rank: Rank::Three,
            },
        ),
        Ok(()),
    );
}

#[test]
fn knight_invalid_movement() {
    let mut board = Board::default();
    assert_eq!(
        board.move_troop(
            Position {
                file: File::B,
                rank: Rank::One,
            },
            Position {
                file: File::C,
                rank: Rank::Four,
            },
        ),
        Err(Error::Move(MoveError::InvalidPath(
            "Knight must move either two spaces horizontally and one space vertically, or two spaces vertically and one space horizontally"
        ))),
    );
}


#[test]
fn pawn_standard_movement() {
    let mut board = Board::default();
    assert_eq!(
        board.move_troop(
            Position {
                file: File::A,
                rank: Rank::Two,
            },
            Position {
                file: File::A,
                rank: Rank::Three,
            }
        ),
        Ok(())
    );
}

#[test]
fn double_move_white() {
    let mut board = Board::default();
    assert_eq!(
        board.move_troop(
            Position {
                file: File::A,
                rank: Rank::Two,
            },
            Position {
                file: File::A,
                rank: Rank::Four,
            }
        ),
        Ok(())
    );
}

#[test]
fn double_move_black() {
    let mut board = Board::default();
    board.set_state(BoardState::ToMove(Color::Black));
    assert_eq!(
        board.move_troop(
            Position {
                file: File::A,
                rank: Rank::Seven,
            },
            Position {
                file: File::A,
                rank: Rank::Five,
            }
        ),
        Ok(())
    );
}

#[test]
fn capture() {
    let mut board = Board::default();
    board
        .place_troop(Troop {
            color: Color::Black,
            piece: Piece::Pawn,
            position: Position {
                file: File::B,
                rank: Rank::Three,
            },
        })
        .unwrap();
    assert_eq!(
        board.move_troop(
            Position {
                file: File::A,
                rank: Rank::Two,
            },
            Position {
                file: File::B,
                rank: Rank::Three,
            }
        ),
        Ok(())
    );
}

#[test]
fn non_capture_diagonal() {
    let mut board = Board::default();
    assert_eq!(
        board.move_troop(
            Position {
                file: File::A,
                rank: Rank::Two,
            },
            Position {
                file: File::B,
                rank: Rank::Three,
            }
        ),
        Err(Error::Move(MoveError::InvalidPath(
            "Pawn cannot move diagonally without capturing"
        )))
    );
}

#[test]
fn two_squares_horizontally() {
    let mut board = Board::default();
    assert_eq!(
        board.move_troop(
            Position {
                file: File::A,
                rank: Rank::Two,
            },
            Position {
                file: File::C,
                rank: Rank::Three,
            }
        ),
        Err(Error::Move(MoveError::InvalidPath(
            "Pawn cannot move more than one space horizontally"
        )))
    );
}

#[test]
fn three_squares_vertically() {
    let mut board = Board::default();
    assert_eq!(
        board.move_troop(
            Position {
                file: File::A,
                rank: Rank::Two,
            },
            Position {
                file: File::A,
                rank: Rank::Five,
            }
        ),
        Err(Error::Move(MoveError::InvalidPath(
            "Pawn cannot move more than two spaces vertically"
        )))
    );
}


#[test]
fn rook_movement() {
    let mut board = Board::default();
    board.remove_troop(Position {
        file: File::D,
        rank: Rank::Two,
    });
    assert_eq!(
        board.move_troop(
            Position {
                file: File::D,
                rank: Rank::One,
            },
            Position {
                file: File::D,
                rank: Rank::Four,
            },
        ),
        Ok(())
    );
}

#[test]
fn bishop_movement() {
    let mut board = Board::default();
    board.remove_troop(Position {
        file: File::E,
        rank: Rank::Two,
    });
    assert_eq!(
        board.move_troop(
            Position {
                file: File::D,
                rank: Rank::One,
            },
            Position {
                file: File::F,
                rank: Rank::Three,
            },
        ),
        Ok(())
    );
}

#[test]
fn queen_invalid_movement() {
    let mut board = Board::default();
    assert_eq!(
        board.move_troop(
            Position {
                file: File::D,
                rank: Rank::One
            },
            Position {
                file: File::E,
                rank: Rank::Three
            }
        ),
        Err(Error::Move(MoveError::InvalidPath(
            "Queen must move in a purely vertical, horizontal, or diagonal line"
        )))
    );
}


#[test]
fn rook_standard_movement() {
    let mut board = Board::default();
    board.remove_troop(Position {
        file: File::A,
        rank: Rank::Two,
    });
    assert_eq!(
        board.move_troop(
            Position {
                file: File::A,
                rank: Rank::One,
            },
            Position {
                file: File::A,
                rank: Rank::Four,
            },
        ),
        Ok(()),
    );
}

#[test]
fn diagonal_movement() {
    let mut board = Board::default();
    assert_eq!(
        board.move_troop(
            Position {
                file: File::A,
                rank: Rank::One,
            },
            Position {
                file: File::C,
                rank: Rank::Three,
            },
        ),
        Err(Error::Move(MoveError::InvalidPath(
            "Rook must move in a purely vertical or horizontal line"
        ))),
    );
}

#[test]
fn blocked_vertical() {
    let mut board = Board::default();
    assert_eq!(
        board.move_troop(
            Position {
                file: File::A,
                rank: Rank::One
            },
            Position {
                file: File::A,
                rank: Rank::Three
            }
        ),
        Err(Error::Move(MoveError::PathIsBlocked))
    );
}

#[test]
fn blocked_horizonal() {
    let mut board = Board::default();
    board.remove_troop(Position {
        file: File::C,
        rank: Rank::One,
    });
    assert_eq!(
        board.move_troop(
            Position {
                file: File::A,
                rank: Rank::One
            },
            Position {
                file: File::C,
                rank: Rank::One
            }
        ),
        Err(Error::Move(MoveError::PathIsBlocked))
    );
}
