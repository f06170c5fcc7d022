//! The core of an interactive calculator: two operands, an operator, a
//! result, and the question whether to go on.
//!
//! The library reads and prints nothing and does no arithmetic on doubles.
//! It decides: what a line of input means (`text`, `operator`, `answer`),
//! whether a calculation has a value (`operand`, `calculation`), what is said
//! and in which style (`message`, `style`), and how the session moves from
//! one state to the next (`session`). A program around it does the reading,
//! the printing and the arithmetic that the session asks for.

pub mod answer;
pub mod calculation;
pub mod message;
pub mod operand;
pub mod operator;
pub mod session;
pub mod style;
pub mod text;
