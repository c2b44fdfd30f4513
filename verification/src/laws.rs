//! What holds of the passes on every input.
pub mod hooks_called;
pub mod insertion;
pub mod nodes_kept;
pub mod return_coverage;
pub mod runs;
pub mod taint;
