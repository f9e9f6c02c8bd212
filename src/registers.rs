pub mod registers;

pub use registers::Registers;
