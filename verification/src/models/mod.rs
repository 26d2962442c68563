pub mod context;
pub mod run;
pub mod warning;
