pub mod sink;
