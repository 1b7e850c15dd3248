pub mod hero;
