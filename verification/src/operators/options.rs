use vstd::prelude::*;
use crate::operators::binary_operator::BinaryOperatorType;

verus! {

/// How much of the machine an operation may use. It has no part in what is computed.
#[derive(Debug, Clone, Copy, PartialEq, Eq, Structural)]
pub enum ParallelismHint {
    Default,
    Sequential,
}

/// What an operator is told once, when it is made.
#[derive(Debug, Clone, Copy, PartialEq, Eq, Structural)]
pub struct OperatorOptions {
    /// Read the first matrix argument with rows and columns exchanged.
    pub transpose_first_input: bool,
    /// Read the second matrix argument with rows and columns exchanged.
    pub transpose_second_input: bool,
    /// Empty the positions of the result that the mask does not permit, in place of
    /// keeping them.
    pub clear_result_before_write: bool,
    pub parallelism_hint: ParallelismHint,
}

impl OperatorOptions {
    pub fn new(
        clear_result_before_write: bool,
        transpose_first_input: bool,
        transpose_second_input: bool,
        parallelism_hint: ParallelismHint,
    ) -> (options: Self)
        ensures
            options == (OperatorOptions {
                transpose_first_input,
                transpose_second_input,
                clear_result_before_write,
                parallelism_hint,
            }),
    {
        OperatorOptions {
            transpose_first_input,
            transpose_second_input,
            clear_result_before_write,
            parallelism_hint,
        }
    }

    /// Nothing transposed, nothing cleared, no hint.
    pub fn new_default() -> (options: Self)
        ensures
            options == (OperatorOptions {
                transpose_first_input: false,
                transpose_second_input: false,
                clear_result_before_write: false,
                parallelism_hint: ParallelismHint::Default,
            }),
    {
        OperatorOptions {
            transpose_first_input: false,
            transpose_second_input: false,
            clear_result_before_write: false,
            parallelism_hint: ParallelismHint::Default,
        }
    }
}

/// What an operator was made with, for the contracts of the traits that operators
/// implement.
pub trait OperatorConfiguration {
    /// The operator that combines what the result holds with what is written, if
    /// there is one.
    spec fn configured_accumulator(&self) -> Option<BinaryOperatorType>;

    spec fn configured_options(&self) -> OperatorOptions;
}

} // verus!
