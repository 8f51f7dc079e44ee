pub mod hosting;
pub mod serving;
