//! The game board: letter cells, rows, and the engine that applies edit and
//! submit events.

use vstd::prelude::*;

use crate::classify::{
    correct_at, count_char, count_char_in, count_exact_in, count_miss_in,
    lemma_missing_letter_absent, lemma_scored_bounded, present_at, scored_upto,
};
use crate::letters::{is_ascii_letter, is_letter, lower_char, to_lower, to_upper, upper_char};
use crate::words::{contains_word, Words};

verus! {

/// A single letter cell.
///
/// A cell is `Pending(None)` while nothing has been typed into it,
/// `Pending(Some(_))` once a letter has been typed but the row has not been
/// submitted, and one of the three finalized variants after submission:
/// `NotInWord` (absent from the answer, or in excess of its occurrences
/// there), `InWord` (present elsewhere in the answer), or `Correct` (present
/// at this very position).
#[derive(Copy, Clone, Debug, Eq, PartialEq)]
pub enum Cell {
    Pending(Option<char>),
    NotInWord(char),
    InWord(char),
    Correct(char),
}

/// The letter a cell displays: its stored letter, or a space for a cell
/// nothing has been typed into.
pub open spec fn letter_of(c: Cell) -> char {
    match c {
        Cell::Pending(o) => match o {
            Some(l) => l,
            None => ' ',
        },
        Cell::NotInWord(l) => l,
        Cell::InWord(l) => l,
        Cell::Correct(l) => l,
    }
}

/// Whether a letter has been typed into the cell (true of every finalized
/// cell as well).
pub open spec fn cell_has_letter(c: Cell) -> bool {
    !(c matches Cell::Pending(None))
}

/// A finalized cell: one of the three submitted variants.
pub open spec fn cell_finalized(c: Cell) -> bool {
    !(c is Pending)
}

/// A cell a letter has been typed into and which is not yet finalized.
pub open spec fn cell_typed(c: Cell) -> bool {
    c matches Cell::Pending(Some(_))
}

/// The finalized form of the cell at guess position `i`, for the lowercase
/// guess `g` and answer `a`: the classification picks the variant, and the
/// cell keeps its stored letter.
pub open spec fn checked_cell(c: Cell, g: Seq<char>, a: Seq<char>, i: int) -> Cell {
    if correct_at(g, a, i) {
        Cell::Correct(letter_of(c))
    } else if present_at(g, a, i) {
        Cell::InWord(letter_of(c))
    } else {
        Cell::NotInWord(letter_of(c))
    }
}

impl Cell {
    /// Update a typed `Pending` cell to `NotInWord`.
    /// Has no effect on a finalized or empty cell.
    pub fn not_in_word(&mut self)
        ensures
            *final(self) == match *old(self) {
                Cell::Pending(Some(l)) => Cell::NotInWord(l),
                c => c,
            },
    {
        if let Cell::Pending(Some(l)) = *self {
            *self = Cell::NotInWord(l);
        }
    }

    /// Update a typed `Pending` cell to `InWord`.
    /// Has no effect on a finalized or empty cell.
    pub fn in_word(&mut self)
        ensures
            *final(self) == match *old(self) {
                Cell::Pending(Some(l)) => Cell::InWord(l),
                c => c,
            },
    {
        if let Cell::Pending(Some(l)) = *self {
            *self = Cell::InWord(l);
        }
    }

    /// Update a typed `Pending` cell to `Correct`.
    /// Has no effect on a finalized or empty cell.
    pub fn correct(&mut self)
        ensures
            *final(self) == match *old(self) {
                Cell::Pending(Some(l)) => Cell::Correct(l),
                c => c,
            },
    {
        if let Cell::Pending(Some(l)) = *self {
            *self = Cell::Correct(l);
        }
    }

    /// Get the character to display.
    pub fn get_char(&self) -> (c: char)
        ensures
            c == letter_of(*self),
    {
        match *self {
            Cell::Pending(None) => ' ',
            Cell::Pending(Some(c)) => c,
            Cell::NotInWord(c) => c,
            Cell::InWord(c) => c,
            Cell::Correct(c) => c,
        }
    }
}

/// The lowercase word spelled by a row's cells, letter by letter.
pub open spec fn row_word(cells: Seq<Cell>) -> Seq<char> {
    Seq::new(cells.len(), |j: int| to_lower(letter_of(cells[j])))
}

/// Single row of the game board: five cells and an edit cursor.
///
/// The cursor is `Some(i)` on the row currently accepting edits, where `i`
/// counts the typed cells (`5` meaning the row is full and awaiting
/// submission), and `None` on a row that is not being edited.
#[derive(Clone, Debug, PartialEq)]
pub struct BoardRow {
    pub cells: Vec<Cell>,
    pub current_cell: Option<usize>,
}

/// A row no letter has been typed into and which is not being edited.
pub open spec fn row_untouched(r: BoardRow) -> bool {
    &&& r.cells@.len() == 5
    &&& r.current_cell is None
    &&& forall|j: int| 0 <= j < 5 ==> r.cells@[j] == Cell::Pending(None::<char>)
}

/// A row under edit: the cursor counts the typed cells, every cell before
/// it holds a letter, and every cell at or after it is still empty.
pub open spec fn row_editing(r: BoardRow) -> bool {
    &&& r.cells@.len() == 5
    &&& r.current_cell matches Some(i) && i <= 5 && (forall|j: int|
        0 <= j < i ==> cell_typed(r.cells@[j])) && (forall|j: int|
        i <= j < 5 ==> r.cells@[j] == Cell::Pending(None::<char>))
}

/// A submitted row: every cell finalized.
pub open spec fn row_finalized(r: BoardRow) -> bool {
    &&& r.cells@.len() == 5
    &&& forall|j: int| 0 <= j < 5 ==> cell_finalized(r.cells@[j])
}

impl BoardRow {
    pub fn empty() -> (r: BoardRow)
        ensures
            row_untouched(r),
    {
        let mut cells: Vec<Cell> = Vec::new();
        let mut k: usize = 0;
        while k < 5
            invariant
                k <= 5,
                cells@.len() == k,
                forall|j: int| 0 <= j < k ==> cells@[j] == Cell::Pending(None::<char>),
            decreases 5 - k,
        {
            cells.push(Cell::Pending(None));
            k = k + 1;
        }
        BoardRow { cells, current_cell: None }
    }

    /// If all cells hold letters, return the lowercase word they spell.
    /// Otherwise, return None.
    pub fn get_final_word(&self) -> (r: Option<String>)
        requires
            self.cells@.len() == 5,
        ensures
            match r {
                Some(w) => {
                    &&& w@ == row_word(self.cells@)
                    &&& forall|j: int| 0 <= j < 5 ==> cell_has_letter(self.cells@[j])
                },
                None => exists|j: int| 0 <= j < 5 && self.cells@[j] == Cell::Pending(None::<char>),
            },
    {
        let mut word = String::new();
        let mut j: usize = 0;
        while j < 5
            invariant
                j <= 5,
                self.cells@.len() == 5,
                word@.len() == j,
                forall|k: int| 0 <= k < j ==> cell_has_letter(self.cells@[k]),
                forall|k: int|
                    0 <= k < j ==> word@[k] == to_lower(letter_of(self.cells@[k])),
            decreases 5 - j,
        {
            let letter = match self.cells[j] {
                Cell::Pending(None) => {
                    return None;
                },
                Cell::Pending(Some(l)) => l,
                Cell::NotInWord(l) => l,
                Cell::InWord(l) => l,
                Cell::Correct(l) => l,
            };
            let lo = lower_char(letter);
            let ghost word0 = word@;
            push_char(&mut word, lo);
            proof {
                assert forall|k: int|
                    0 <= k < j + 1 implies word@[k] == to_lower(letter_of(self.cells@[k])) by {
                    if k < j {
                        assert(word@[k] == word0[k]);
                    } else {
                        assert(word@[k] == lo);
                    }
                }
            }
            j = j + 1;
        }
        proof {
            assert(word@ =~= row_word(self.cells@));
        }
        Some(word)
    }

    /// Row handler for letter keys.
    /// Returning true indicates that the app should repaint.
    pub fn try_accept_letter(&mut self, letter: char) -> (r: bool)
        requires
            old(self).cells@.len() == 5,
        ensures
            r == (old(self).current_cell matches Some(i) && i < 5),
            r ==> ({
                let i = old(self).current_cell->0 as int;
                &&& final(self).cells@ == old(self).cells@.update(
                    i,
                    Cell::Pending(Some(letter)),
                )
                &&& final(self).current_cell == Some((i + 1) as usize)
            }),
            !r ==> *final(self) == *old(self),
    {
        if let Some(i) = self.current_cell {
            if i < 5 {
                self.cells[i] = Cell::Pending(Some(letter));
                self.current_cell = Some(i + 1);
                true
            } else {
                false
            }
        } else {
            false
        }
    }

    /// Row handler for backspace.
    /// Returning true indicates that the app should repaint.
    pub fn try_delete_letter(&mut self) -> (r: bool)
        requires
            old(self).cells@.len() == 5,
            old(self).current_cell matches Some(i) ==> i <= 5,
        ensures
            r == (old(self).current_cell matches Some(i) && i > 0),
            r ==> ({
                let i = old(self).current_cell->0 as int;
                &&& final(self).cells@ == old(self).cells@.update(
                    i - 1,
                    Cell::Pending(None::<char>),
                )
                &&& final(self).current_cell == Some((i - 1) as usize)
            }),
            !r ==> *final(self) == *old(self),
    {
        if let Some(i) = self.current_cell {
            if i > 0 {
                self.current_cell = Some(i - 1);
                self.cells[i - 1] = Cell::Pending(None);
                true
            } else {
                false
            }
        } else {
            false
        }
    }

    /// Finalize the cells of this row according to the answer.
    ///
    /// Every cell is classified against the answer: correct where its
    /// lowercase letter matches the answer's letter at the same position,
    /// present where the letter's remaining occurrences in the answer cover
    /// it (exact matches first, then left to right), absent otherwise.
    pub fn check_guess(&mut self, answer: &str)
        requires
            old(self).cells@.len() == 5,
            forall|j: int| 0 <= j < 5 ==> cell_typed(old(self).cells@[j]),
            answer@.len() == 5,
        ensures
            final(self).cells@.len() == 5,
            final(self).current_cell == old(self).current_cell,
            forall|j: int|
                0 <= j < 5 ==> final(self).cells@[j] == checked_cell(
                    old(self).cells@[j],
                    row_word(old(self).cells@),
                    answer@,
                    j,
                ),
    {
        let ghost cells0 = self.cells@;
        let guess = self.to_lower_letters();
        let answer_chars = str_to_chars(answer);
        proof {
            assert(guess@ == row_word(cells0));
        }
        let mut i: usize = 0;
        while i < 5
            invariant
                i <= 5,
                self.cells@.len() == 5,
                self.current_cell == old(self).current_cell,
                guess@ == row_word(cells0),
                guess@.len() == 5,
                answer_chars@ == answer@,
                answer@.len() == 5,
                forall|j: int| 0 <= j < 5 ==> cell_typed(cells0[j]),
                forall|j: int| i <= j < 5 ==> self.cells@[j] == cells0[j],
                forall|j: int|
                    0 <= j < i ==> self.cells@[j] == checked_cell(cells0[j], guess@, answer@, j),
            decreases 5 - i,
        {
            let c = guess[i];
            if c == answer_chars[i] {
                self.cells[i].correct();
            } else {
                let exact = count_exact_in(&guess, &answer_chars, c, 5);
                let before = count_miss_in(&guess, &answer_chars, c, i);
                let available = count_char_in(&answer_chars, c, 5);
                if exact + before < available {
                    self.cells[i].in_word();
                } else {
                    self.cells[i].not_in_word();
                }
            }
            i = i + 1;
        }
    }

    /// The lowercase letters of this row's cells, in order.
    fn to_lower_letters(&self) -> (r: Vec<char>)
        requires
            self.cells@.len() == 5,
            forall|j: int| 0 <= j < 5 ==> cell_typed(self.cells@[j]),
        ensures
            r@ == row_word(self.cells@),
    {
        let mut r: Vec<char> = Vec::new();
        let mut j: usize = 0;
        while j < 5
            invariant
                j <= 5,
                self.cells@.len() == 5,
                forall|k: int| 0 <= k < 5 ==> cell_typed(self.cells@[k]),
                r@.len() == j,
                forall|k: int| 0 <= k < j ==> r@[k] == to_lower(letter_of(self.cells@[k])),
            decreases 5 - j,
        {
            let letter = match self.cells[j] {
                Cell::Pending(Some(l)) => l,
                _ => ' ',
            };
            r.push(lower_char(letter));
            j = j + 1;
        }
        proof {
            assert(r@ =~= row_word(self.cells@));
        }
        r
    }
}

/// The advisory message shown when a submitted word is not a valid guess.
pub open spec fn invalid_guess_message(w: Seq<char>) -> Seq<char> {
    "'"@ + w + "' is not a valid word!"@
}

/// Fields of the game that the edit events never change.
pub open spec fn same_board(pre: Game, post: Game) -> bool {
    &&& post.rows == pre.rows
    &&& post.current_row == pre.current_row
    &&& post.answer == pre.answer
    &&& post.words == pre.words
    &&& post.has_won == pre.has_won
}

/// Game state: six rows, the index of the row being edited, the secret
/// answer, the word bank it was drawn from, a transient advisory message,
/// and the outcome (`None` while in progress, `Some(true)` won,
/// `Some(false)` lost).
pub struct Game {
    pub rows: Vec<BoardRow>,
    pub current_row: usize,
    pub answer: String,
    pub words: Words,
    pub display_message: Option<String>,
    pub has_won: Option<bool>,
}

impl Game {
    /// The game invariant: six five-cell rows; the answer is a five-letter
    /// word; rows before the active one are submitted, rows after it are
    /// untouched; the active row is under edit while the game is in
    /// progress and submitted once it is over.
    pub open spec fn wf(self) -> bool {
        &&& self.rows@.len() == 6
        &&& self.current_row < 6
        &&& self.answer@.len() == 5
        &&& self.words.wf()
        &&& forall|k: int| 0 <= k < self.current_row ==> row_finalized(self.rows@[k])
        &&& forall|k: int| self.current_row < k < 6 ==> row_untouched(self.rows@[k])
        &&& if self.has_won is Some {
            row_finalized(self.rows@[self.current_row as int])
        } else {
            row_editing(self.rows@[self.current_row as int])
        }
    }

    /// Start a game on the given word bank, with a freshly chosen answer.
    pub fn new(words: Words) -> (g: Game)
        requires
            words.wf(),
        ensures
            g.wf(),
            g.words == words,
            g.current_row == 0,
            g.has_won is None,
            g.display_message is None,
            g.rows@.len() == 6,
            g.rows@[0].current_cell == Some(0usize),
            forall|k: int, j: int|
                0 <= k < 6 && 0 <= j < 5 ==> g.rows@[k].cells@[j] == Cell::Pending(None::<char>),
            exists|i: int| 0 <= i < words.answers@.len() && g.answer == words.answers@[i],
    {
        let answer = words.get_answer();
        let g = Game {
            rows: starting_rows(),
            current_row: 0,
            answer,
            words,
            display_message: None,
            has_won: None,
        };
        g
    }

    /// Discard the whole board and start over on the same word bank, with a
    /// freshly chosen answer (not guaranteed to differ from the prior one).
    /// Returning true indicates that the app should repaint.
    pub fn restart(&mut self) -> (r: bool)
        requires
            old(self).wf(),
        ensures
            r,
            final(self).wf(),
            final(self).words == old(self).words,
            final(self).current_row == 0,
            final(self).has_won is None,
            final(self).display_message is None,
            final(self).rows@.len() == 6,
            final(self).rows@[0].current_cell == Some(0usize),
            forall|k: int, j: int|
                0 <= k < 6 && 0 <= j < 5 ==> final(self).rows@[k].cells@[j] == Cell::Pending(
                    None::<char>,
                ),
            exists|i: int|
                0 <= i < old(self).words.answers@.len() && final(self).answer == old(
                    self,
                ).words.answers@[i],
    {
        self.rows = starting_rows();
        self.current_row = 0;
        self.answer = self.words.get_answer();
        self.display_message = None;
        self.has_won = None;
        true
    }

    pub fn set_message(&mut self, message: &str)
        ensures
            same_board(*old(self), *final(self)),
            final(self).display_message matches Some(m) && m@ == message@,
    {
        self.display_message = Some(message.to_owned());
    }

    pub fn clear_message(&mut self)
        ensures
            same_board(*old(self), *final(self)),
            final(self).display_message is None,
    {
        self.display_message = None;
    }

    pub fn has_won(&self) -> (r: Option<bool>)
        ensures
            r == self.has_won,
    {
        self.has_won
    }

    pub fn answer(&self) -> (r: &String)
        ensures
            r == self.answer,
    {
        &self.answer
    }

    /// Event handler for letter keys.
    /// Returning true indicates that the app should repaint.
    ///
    /// Once the game is over the event is ignored outright; while the game
    /// is in progress any advisory message is cleared, and an ASCII letter
    /// is stored uppercase at the cursor if the active row has room.
    pub fn try_accept_letter(&mut self, letter: char) -> (r: bool)
        requires
            old(self).wf(),
        ensures
            final(self).wf(),
            old(self).has_won is Some ==> !r && *final(self) == *old(self),
            old(self).has_won is None ==> ({
                let cr = old(self).current_row as int;
                let row = old(self).rows@[cr];
                let cur = row.current_cell->0 as int;
                &&& final(self).display_message is None
                &&& final(self).current_row == old(self).current_row
                &&& final(self).answer == old(self).answer
                &&& final(self).words == old(self).words
                &&& final(self).has_won == old(self).has_won
                &&& final(self).rows@.len() == 6
                &&& if is_ascii_letter(letter) && cur < 5 {
                    &&& r
                    &&& final(self).rows@[cr].cells@ == row.cells@.update(
                        cur,
                        Cell::Pending(Some(to_upper(letter))),
                    )
                    &&& final(self).rows@[cr].current_cell == Some((cur + 1) as usize)
                    &&& forall|k: int|
                        0 <= k < 6 && k != cr ==> final(self).rows@[k] == old(self).rows@[k]
                } else {
                    &&& !r
                    &&& final(self).rows@ == old(self).rows@
                }
            }),
    {
        if self.has_won.is_some() {
            return false;
        }
        self.clear_message();
        if !is_letter(letter) {
            return false;
        }
        let cr = self.current_row;
        let row = &mut self.rows[cr];
        let accepted = row.try_accept_letter(upper_char(letter));
        proof {
            if !accepted {
                assert(self.rows@ =~= old(self).rows@);
            }
        }
        accepted
    }

    /// Event handler for backspace.
    /// Returning true indicates that the app should repaint.
    ///
    /// Once the game is over the event is ignored outright; while the game
    /// is in progress any advisory message is cleared, and the last typed
    /// cell, if any, is reset to empty.
    pub fn try_delete_letter(&mut self) -> (r: bool)
        requires
            old(self).wf(),
        ensures
            final(self).wf(),
            old(self).has_won is Some ==> !r && *final(self) == *old(self),
            old(self).has_won is None ==> ({
                let cr = old(self).current_row as int;
                let row = old(self).rows@[cr];
                let cur = row.current_cell->0 as int;
                &&& final(self).display_message is None
                &&& final(self).current_row == old(self).current_row
                &&& final(self).answer == old(self).answer
                &&& final(self).words == old(self).words
                &&& final(self).has_won == old(self).has_won
                &&& final(self).rows@.len() == 6
                &&& if cur > 0 {
                    &&& r
                    &&& final(self).rows@[cr].cells@ == row.cells@.update(
                        cur - 1,
                        Cell::Pending(None::<char>),
                    )
                    &&& final(self).rows@[cr].current_cell == Some((cur - 1) as usize)
                    &&& forall|k: int|
                        0 <= k < 6 && k != cr ==> final(self).rows@[k] == old(self).rows@[k]
                } else {
                    &&& !r
                    &&& final(self).rows@ == old(self).rows@
                }
            }),
    {
        if self.has_won.is_some() {
            return false;
        }
        self.clear_message();
        let cr = self.current_row;
        let row = &mut self.rows[cr];
        let deleted = row.try_delete_letter();
        proof {
            if !deleted {
                assert(self.rows@ =~= old(self).rows@);
            }
        }
        deleted
    }

    /// Event handler for the enter key.
    /// Returning true indicates that the app should repaint.
    ///
    /// Once the game is over the event is ignored outright. While the game
    /// is in progress, a submission is accepted only from a full row; a
    /// word outside the valid-guess set leaves the row as it is and sets an
    /// advisory message without consuming a turn; a valid word finalizes
    /// every cell of the row by classification against the answer, and the
    /// game is won on an exact match, lost when the last row is spent, and
    /// otherwise moves on to edit the next row.
    pub fn try_submit_guess(&mut self) -> (r: bool)
        requires
            old(self).wf(),
        ensures
            final(self).wf(),
            final(self).answer == old(self).answer,
            final(self).words == old(self).words,
            old(self).has_won is Some ==> !r && *final(self) == *old(self),
            old(self).has_won is None ==> ({
                let cr = old(self).current_row as int;
                let row = old(self).rows@[cr];
                let cur = row.current_cell->0 as int;
                let w = row_word(row.cells@);
                if cur < 5 {
                    &&& !r
                    &&& final(self).rows == old(self).rows
                    &&& final(self).current_row == old(self).current_row
                    &&& final(self).has_won is None
                    &&& final(self).display_message is None
                } else if !contains_word(old(self).words.valid_guesses@, w) {
                    &&& r
                    &&& final(self).rows == old(self).rows
                    &&& final(self).current_row == old(self).current_row
                    &&& final(self).has_won is None
                    &&& final(self).display_message matches Some(m) && m@ == invalid_guess_message(
                        w,
                    )
                } else {
                    &&& r
                    &&& final(self).display_message is None
                    &&& final(self).rows@.len() == 6
                    &&& final(self).rows@[cr].current_cell == row.current_cell
                    &&& forall|j: int|
                        0 <= j < 5 ==> final(self).rows@[cr].cells@[j] == checked_cell(
                            row.cells@[j],
                            w,
                            old(self).answer@,
                            j,
                        )
                    &&& if w == old(self).answer@ {
                        &&& final(self).has_won == Some(true)
                        &&& final(self).current_row == old(self).current_row
                        &&& forall|k: int|
                            0 <= k < 6 && k != cr ==> final(self).rows@[k] == old(self).rows@[k]
                    } else if cr < 5 {
                        &&& final(self).has_won is None
                        &&& final(self).current_row == old(self).current_row + 1
                        &&& final(self).rows@[cr + 1].current_cell == Some(0usize)
                        &&& final(self).rows@[cr + 1].cells@ == old(self).rows@[cr + 1].cells@
                        &&& forall|k: int|
                            0 <= k < 6 && k != cr && k != cr + 1 ==> final(self).rows@[k] == old(
                                self,
                            ).rows@[k]
                    } else {
                        &&& final(self).has_won == Some(false)
                        &&& final(self).current_row == old(self).current_row
                        &&& forall|k: int|
                            0 <= k < 6 && k != cr ==> final(self).rows@[k] == old(self).rows@[k]
                    }
                }
            }),
    {
        if self.has_won.is_some() {
            return false;
        }
        self.clear_message();
        let cr = self.current_row;
        let maybe_word = self.rows[cr].get_final_word();
        match maybe_word {
            None => false,
            Some(guess) => {
                proof {
                    let row = old(self).rows@[cr as int];
                    assert(row.current_cell->0 == 5) by {
                        if row.current_cell->0 < 5 {
                            assert(row.cells@[row.current_cell->0 as int] == Cell::Pending(
                                None::<char>,
                            ));
                        }
                    }
                }
                if !self.words.valid_guess(guess.as_str()) {
                    let mut m = "'".to_owned();
                    m.append(guess.as_str());
                    m.append("' is not a valid word!");
                    self.display_message = Some(m);
                    return true;
                }
                let answer = self.answer.clone();
                let row = &mut self.rows[cr];
                row.check_guess(answer.as_str());
                if guess == self.answer {
                    self.has_won = Some(true);
                    return true;
                }
                if cr < 5 {
                    self.current_row = cr + 1;
                    let next = &mut self.rows[cr + 1];
                    next.current_cell = Some(0);
                } else {
                    self.has_won = Some(false);
                }
                true
            },
        }
    }
}

/// Six untouched rows, the first one opened for editing at cursor zero.
fn starting_rows() -> (rows: Vec<BoardRow>)
    ensures
        rows@.len() == 6,
        rows@[0].current_cell == Some(0usize),
        row_editing(rows@[0]),
        forall|k: int| 1 <= k < 6 ==> row_untouched(rows@[k]),
        forall|k: int, j: int|
            0 <= k < 6 && 0 <= j < 5 ==> rows@[k].cells@[j] == Cell::Pending(None::<char>),
{
    let mut rows: Vec<BoardRow> = Vec::new();
    let mut first = BoardRow::empty();
    first.current_cell = Some(0);
    rows.push(first);
    let mut k: usize = 1;
    while k < 6
        invariant
            1 <= k <= 6,
            rows@.len() == k,
            rows@[0].current_cell == Some(0usize),
            row_editing(rows@[0]),
            forall|j: int| 0 <= j < 5 ==> rows@[0].cells@[j] == Cell::Pending(None::<char>),
            forall|i: int| 1 <= i < k ==> row_untouched(rows@[i]),
        decreases 6 - k,
    {
        rows.push(BoardRow::empty());
        k = k + 1;
    }
    rows
}

/// Number of positions `j < n` of a submitted row whose guessed letter is
/// `c` and whose finalized cell scores: correct or present.
pub open spec fn scored_cells_upto(cells: Seq<Cell>, a: Seq<char>, c: char, n: int) -> int
    decreases n,
{
    if n <= 0 {
        0
    } else {
        scored_cells_upto(cells, a, c, n - 1) + if row_word(cells)[n - 1] == c && (checked_cell(
            cells[n - 1],
            row_word(cells),
            a,
            n - 1,
        ) is Correct || checked_cell(cells[n - 1], row_word(cells), a, n - 1) is InWord) {
            1int
        } else {
            0int
        }
    }
}

proof fn lemma_scored_cells_eq(cells: Seq<Cell>, a: Seq<char>, c: char, n: int)
    ensures
        scored_cells_upto(cells, a, c, n) == scored_upto(row_word(cells), a, c, n),
    decreases n,
{
    if n > 0 {
        lemma_scored_cells_eq(cells, a, c, n - 1);
    }
}

/// For every letter, a submitted row's finalized cells mark correct or
/// present at no more positions than the letter occurs in the answer.
pub proof fn lemma_row_scored_bounded(cells: Seq<Cell>, a: Seq<char>, c: char)
    requires
        cells.len() == 5,
        a.len() == 5,
    ensures
        scored_cells_upto(cells, a, c, 5) <= count_char(a, c),
{
    lemma_scored_cells_eq(cells, a, c, 5);
    lemma_scored_bounded(row_word(cells), a, c);
}

/// A row whose word equals the answer finalizes every cell as correct.
pub proof fn lemma_answer_guess_all_correct(cells: Seq<Cell>, a: Seq<char>)
    requires
        cells.len() == 5,
        a.len() == 5,
        row_word(cells) == a,
    ensures
        forall|i: int|
            0 <= i < 5 ==> checked_cell(cells[i], row_word(cells), a, i) == Cell::Correct(
                letter_of(cells[i]),
            ),
{
}

/// A letter that occurs nowhere in the answer finalizes as absent at every
/// position of the row that guesses it.
pub proof fn lemma_missing_letter_all_absent(cells: Seq<Cell>, a: Seq<char>, c: char)
    requires
        cells.len() == 5,
        a.len() == 5,
        count_char(a, c) == 0,
    ensures
        forall|i: int|
            0 <= i < 5 && row_word(cells)[i] == c ==> checked_cell(
                cells[i],
                row_word(cells),
                a,
                i,
            ) == Cell::NotInWord(letter_of(cells[i])),
{
    lemma_missing_letter_absent(row_word(cells), a, c);
}

/// The characters of a string, in order.
fn str_to_chars(s: &str) -> (r: Vec<char>)
    ensures
        r@ == s@,
{
    let n = s.unicode_len();
    let mut r: Vec<char> = Vec::new();
    let mut j: usize = 0;
    while j < n
        invariant
            j <= n,
            n == s@.len(),
            r@.len() == j,
            forall|k: int| 0 <= k < j ==> r@[k] == s@[k],
        decreases n - j,
    {
        r.push(s.get_char(j));
        j = j + 1;
    }
    proof {
        assert(r@ =~= s@);
    }
    r
}

/// Relies on String::push: appends the character to the end of the string.
#[verifier::external_body]
fn push_char(s: &mut String, c: char)
    ensures
        final(s)@ == old(s)@.push(c),
{
    s.push(c);
}

} // verus!
