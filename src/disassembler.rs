pub mod execution;
