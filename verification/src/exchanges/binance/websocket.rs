pub mod public;
