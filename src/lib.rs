//! A terminal snake game: the snake's state machine, the game controller's
//! tick logic and the cell model of the board.
pub mod cell;
pub mod game;
pub mod grid;
pub mod snake;
