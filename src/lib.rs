//! A deterministic finite automaton that walks an agent through a small cave:
//! the agent moves on a 3×3 grid, may grab a treasure and shoot the wumpus,
//! and a word of moves is accepted when the run ends in an accepting state,
//! such as the entrance with the treasure in hand.
pub mod estado;
pub mod labirinto;
pub mod leis;
pub mod palavra;
pub mod simbolo;
