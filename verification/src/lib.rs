//! A line-oriented markdown preprocessor.
//!
//! A document is read line by line. A line may run a command (`!run:`), name
//! another file to read in its place (`!inc:`), open or close a block that is
//! shown only where its flag is given (`!start:`, `!stop:`), or hold tokens
//! that stand for the time of the run. The library decides what each line
//! asks for and keeps the state between lines; reading files, running
//! commands and reading the clock are left to its caller.
//!
//! - [`process`] holds the state, the actions and the step from line to line;
//!   [`laws`] states what holds of that step over all states and lines.
//! - [`fence`] follows the code fence that is open.
//! - [`pieces`] cuts a line by its tokens and [`fill`] puts it together
//!   again; [`clock`] makes the texts of the time tokens and [`paths`] rebases
//!   the image links.
//! - [`run`] reports on a command that was run, and [`wrap`] wraps what it
//!   wrote.
//! - [`text`] searches and replaces in character sequences.

pub mod clock;
pub mod fence;
pub mod fill;
pub mod laws;
pub mod paths;
pub mod pieces;
pub mod process;
pub mod run;
pub mod text;
pub mod wrap;
