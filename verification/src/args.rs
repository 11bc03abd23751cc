use vstd::prelude::*;

verus! {

/// The command-line surface: an input path and an output path.
#[derive(Debug, Clone)]
pub struct ConvCli {
    pub input: String,
    pub output: String,
}

} // verus!
