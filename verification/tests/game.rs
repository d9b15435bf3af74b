use wordle::{BoardRow, Cell, Game, Words};

fn get_pending_row_for_str(s: &str) -> BoardRow {
    assert_eq!(s.len(), 5);
    let cells: Vec<Cell> = s
        .chars()
        .map(|c| Cell::Pending(Some(c.to_ascii_uppercase())))
        .collect();
    BoardRow {
        cells,
        current_cell: None,
    }
}

fn bank(answers: &[&str], extra: &[&str]) -> Words {
    Words::new(
        answers.iter().map(|s| s.to_string()).collect(),
        extra.iter().map(|s| s.to_string()).collect(),
    )
}

fn type_word(game: &mut Game, word: &str) {
    for c in word.chars() {
        game.try_accept_letter(c);
    }
}

#[test]
fn checks_guesses_correctly() {
    let answer = "heart";

    let mut row = get_pending_row_for_str("heart");
    row.check_guess(answer);
    assert_eq!(
        row.cells,
        vec![
            Cell::Correct('H'),
            Cell::Correct('E'),
            Cell::Correct('A'),
            Cell::Correct('R'),
            Cell::Correct('T'),
        ]
    );

    let mut row = get_pending_row_for_str("sound");
    row.check_guess(answer);
    assert_eq!(
        row.cells,
        vec![
            Cell::NotInWord('S'),
            Cell::NotInWord('O'),
            Cell::NotInWord('U'),
            Cell::NotInWord('N'),
            Cell::NotInWord('D'),
        ]
    );

    let mut row = get_pending_row_for_str("earth");
    row.check_guess(answer);
    assert_eq!(
        row.cells,
        vec![
            Cell::InWord('E'),
            Cell::InWord('A'),
            Cell::InWord('R'),
            Cell::InWord('T'),
            Cell::InWord('H'),
        ]
    );
}

#[test]
fn handles_multi_letters_correctly() {
    let mut row = get_pending_row_for_str("gucci");
    row.check_guess("cacti");
    assert_eq!(
        row.cells,
        vec![
            Cell::NotInWord('G'),
            Cell::NotInWord('U'),
            Cell::Correct('C'),
            Cell::InWord('C'),
            Cell::Correct('I'),
        ]
    );

    let mut row = get_pending_row_for_str("bocce");
    row.check_guess("coast");
    assert_eq!(
        row.cells,
        vec![
            Cell::NotInWord('B'),
            Cell::Correct('O'),
            Cell::InWord('C'),
            Cell::NotInWord('C'),
            Cell::NotInWord('E'),
        ]
    );
}

#[test]
fn scored_letters_never_exceed_answer_count() {
    // The answer holds two 's'; of five guessed 's', exactly the two exact
    // matches score and every other one is absent.
    let mut row = get_pending_row_for_str("sssss");
    row.check_guess("glass");
    assert_eq!(
        row.cells,
        vec![
            Cell::NotInWord('S'),
            Cell::NotInWord('S'),
            Cell::NotInWord('S'),
            Cell::Correct('S'),
            Cell::Correct('S'),
        ]
    );

    let mut row = get_pending_row_for_str("mamma");
    row.check_guess("madam");
    assert_eq!(
        row.cells,
        vec![
            Cell::Correct('M'),
            Cell::Correct('A'),
            Cell::InWord('M'),
            Cell::NotInWord('M'),
            Cell::InWord('A'),
        ]
    );
}

#[test]
fn accepts_and_deletes_letters() {
    let mut game = Game::new(bank(&["heart"], &[]));
    assert_eq!(game.rows[0].current_cell, Some(0));

    assert!(game.try_accept_letter('h'));
    assert_eq!(game.rows[0].cells[0], Cell::Pending(Some('H')));
    assert_eq!(game.rows[0].current_cell, Some(1));

    // Not a letter: no repaint, no change.
    assert!(!game.try_accept_letter('1'));
    assert_eq!(game.rows[0].current_cell, Some(1));

    assert!(game.try_delete_letter());
    assert_eq!(game.rows[0].cells[0], Cell::Pending(None));
    assert_eq!(game.rows[0].current_cell, Some(0));

    // Deleting from an empty row is a no-op.
    assert!(!game.try_delete_letter());

    type_word(&mut game, "heart");
    assert_eq!(game.rows[0].current_cell, Some(5));

    // The row is full: a sixth letter is a no-op.
    assert!(!game.try_accept_letter('x'));
    assert_eq!(game.rows[0].current_cell, Some(5));
}

#[test]
fn invalid_word_keeps_row_and_sets_message() {
    let mut game = Game::new(bank(&["heart"], &[]));
    type_word(&mut game, "abcde");
    assert!(game.try_submit_guess());
    assert_eq!(
        game.display_message,
        Some("'abcde' is not a valid word!".to_string())
    );
    assert_eq!(game.current_row, 0);
    assert_eq!(game.has_won, None);
    for j in 0..5 {
        assert!(matches!(game.rows[0].cells[j], Cell::Pending(Some(_))));
    }
    // The next edit clears the advisory message.
    game.try_accept_letter('x');
    assert_eq!(game.display_message, None);
}

#[test]
fn incomplete_row_cannot_be_submitted() {
    let mut game = Game::new(bank(&["heart"], &[]));
    type_word(&mut game, "hea");
    assert!(!game.try_submit_guess());
    assert_eq!(game.current_row, 0);
    assert_eq!(game.has_won, None);
}

#[test]
fn winning_guess_sets_won() {
    let mut game = Game::new(bank(&["heart"], &["sound"]));
    type_word(&mut game, "sound");
    assert!(game.try_submit_guess());
    assert_eq!(game.has_won, None);
    assert_eq!(game.current_row, 1);

    type_word(&mut game, "heart");
    assert!(game.try_submit_guess());
    assert_eq!(game.has_won(), Some(true));
    assert_eq!(game.current_row, 1);
    assert_eq!(
        game.rows[1].cells,
        vec![
            Cell::Correct('H'),
            Cell::Correct('E'),
            Cell::Correct('A'),
            Cell::Correct('R'),
            Cell::Correct('T'),
        ]
    );
}

#[test]
fn six_misses_lose_the_game() {
    let extra = ["sound", "mound", "pound", "round", "bound", "found"];
    let mut game = Game::new(bank(&["heart"], &extra));
    for (i, word) in extra.iter().enumerate() {
        assert_eq!(game.has_won, None);
        assert_eq!(game.current_row, i);
        type_word(&mut game, word);
        assert!(game.try_submit_guess());
    }
    assert_eq!(game.has_won(), Some(false));
    assert_eq!(game.current_row, 5);
}

#[test]
fn restart_resets_the_board() {
    let mut game = Game::new(bank(&["heart"], &[]));
    type_word(&mut game, "heart");
    assert!(game.try_submit_guess());
    assert_eq!(game.has_won(), Some(true));

    assert!(game.restart());
    assert_eq!(game.current_row, 0);
    assert_eq!(game.has_won, None);
    assert_eq!(game.display_message, None);
    assert_eq!(game.rows[0].current_cell, Some(0));
    for k in 0..6 {
        for j in 0..5 {
            assert_eq!(game.rows[k].cells[j], Cell::Pending(None));
        }
    }
    // The answer pool holds a single word, so the fresh answer is known.
    assert_eq!(game.answer(), "heart");
}

#[test]
fn terminal_outcome_ignores_edits() {
    let mut game = Game::new(bank(&["heart"], &[]));
    type_word(&mut game, "heart");
    assert!(game.try_submit_guess());
    assert_eq!(game.has_won(), Some(true));

    let rows_before = game.rows.clone();
    assert!(!game.try_accept_letter('a'));
    assert!(!game.try_delete_letter());
    assert!(!game.try_submit_guess());
    assert_eq!(game.rows, rows_before);
    assert_eq!(game.has_won(), Some(true));
    assert_eq!(game.current_row, 0);
}

#[test]
fn messages_can_be_set_and_cleared() {
    let mut game = Game::new(bank(&["heart"], &[]));
    game.set_message("You win!");
    assert_eq!(game.display_message, Some("You win!".to_string()));
    game.clear_message();
    assert_eq!(game.display_message, None);
}

#[test]
fn final_word_needs_all_letters() {
    let mut row = BoardRow::empty();
    assert_eq!(row.get_final_word(), None);
    row.current_cell = Some(0);
    for c in "HEART".chars() {
        row.try_accept_letter(c);
    }
    assert_eq!(row.get_final_word(), Some("heart".to_string()));
    row.try_delete_letter();
    assert_eq!(row.get_final_word(), None);
}

#[test]
fn cells_report_their_characters() {
    assert_eq!(Cell::Pending(None).get_char(), ' ');
    assert_eq!(Cell::Pending(Some('A')).get_char(), 'A');
    assert_eq!(Cell::NotInWord('B').get_char(), 'B');
    assert_eq!(Cell::InWord('C').get_char(), 'C');
    assert_eq!(Cell::Correct('D').get_char(), 'D');
}
