pub mod print;
