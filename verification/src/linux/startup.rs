//! The startup-context decoder.
//!
//! At process entry the kernel leaves on the stack: a machine word
//! holding the argument count; that many argument pointers; a null word;
//! the environment pointers ended by a null word; and the auxiliary
//! vector ended by an `AT_NULL` tag. The stack pointer handed to the
//! entry stub is 16-byte aligned and addresses the argument count; the
//! decoder validates the alignment and the two null terminators, and
//! yields the three vectors. The context is read once and not retained.

use vstd::prelude::*;
use crate::bytes::u64_to_index;
use crate::errors::BootstrapError;
use crate::linux::auxiliary_vector::{AuxiliaryVectorItem, spec_find_zero_word, spec_auxiliary_entries, read_auxiliary_entries, find_zero_word};

verus! {

/// The decoded startup context.
#[derive(Debug)]
pub struct StartupContext {
    /// The argument count, the word the stack pointer addresses.
    pub argument_count: u64,
    /// The argument pointers, one word each.
    pub argument_pointers: Vec<u64>,
    /// The environment pointers, one word each, without their null
    /// terminator.
    pub environment_pointers: Vec<u64>,
    /// The auxiliary vector, without its `AT_NULL` terminator.
    pub auxiliary_entries: Vec<AuxiliaryVectorItem>,
}

/// The stack words hold a complete startup context: the argument vector
/// ends in a null word, a zero word ends the environment pointers, and an
/// `AT_NULL` pair ends the auxiliary vector.
pub open spec fn spec_context_complete(words: Seq<u64>) -> bool {
    &&& words.len() >= 2
    &&& words[0] + 2 <= words.len()
    &&& words[1 + words[0]] == 0
    &&& spec_find_zero_word(words, words[0] + 2) is Some
    &&& spec_auxiliary_entries(words, spec_find_zero_word(words, words[0] + 2).unwrap() + 1)
        is Some
}

impl StartupContext {
    /// Decodes the startup context from the stack words, validating the
    /// stack pointer's 16-byte alignment and the null terminators.
    ///
    /// `words[i]` is the machine word at address `stack_pointer + 8 * i`;
    /// `words[0]` is the argument count.
    pub fn decode(words: &Vec<u64>, stack_pointer: u64) -> (r: Result<
        StartupContext,
        BootstrapError,
    >)
        ensures
            match r {
                Ok(ctx) => {
                    &&& stack_pointer % 16 == 0
                    &&& spec_context_complete(words@)
                    &&& ctx.argument_count == words@[0]
                    &&& ctx.argument_pointers@ == words@.subrange(1, 1 + words@[0])
                    &&& ctx.environment_pointers@ == words@.subrange(
                        words@[0] + 2,
                        spec_find_zero_word(words@, words@[0] + 2).unwrap(),
                    )
                    &&& Some(ctx.auxiliary_entries@) == spec_auxiliary_entries(
                        words@,
                        spec_find_zero_word(words@, words@[0] + 2).unwrap() + 1,
                    )
                },
                Err(BootstrapError::MisalignedStackPointer) => stack_pointer % 16 != 0,
                Err(BootstrapError::MissingArgumentTerminator) => {
                    &&& stack_pointer % 16 == 0
                    &&& words@.len() >= 2
                    &&& words@[0] + 2 <= words@.len()
                    &&& words@[1 + words@[0]] != 0
                },
                Err(BootstrapError::TruncatedStartupContext) => {
                    &&& stack_pointer % 16 == 0
                    &&& !spec_context_complete(words@)
                    &&& (words@.len() < 2 || words@[0] + 2 > words@.len() || words@[1
                        + words@[0]] == 0)
                },
                Err(_) => false,
            },
    {
        if stack_pointer % 16 != 0 {
            return Err(BootstrapError::MisalignedStackPointer);
        }
        if words.len() < 2 {
            return Err(BootstrapError::TruncatedStartupContext);
        }
        let argument_count = words[0];
        if argument_count > words.len() as u64 - 2 {
            return Err(BootstrapError::TruncatedStartupContext);
        }
        let terminator = u64_to_index(1 + argument_count);
        if words[terminator] != 0 {
            return Err(BootstrapError::MissingArgumentTerminator);
        }

        let mut argument_pointers: Vec<u64> = Vec::new();
        let mut i: usize = 1;
        while i < terminator
            invariant
                1 <= i <= terminator,
                terminator < words@.len(),
                argument_pointers@ == words@.subrange(1, i as int),
            decreases terminator - i,
        {
            argument_pointers.push(words[i]);
            proof {
                assert(argument_pointers@ =~= words@.subrange(1, i + 1));
            }
            i += 1;
        }

        let environment_start = terminator + 1;
        let zero = match find_zero_word(words, environment_start) {
            Ok(z) => z,
            Err(e) => {
                return Err(e);
            },
        };
        let mut environment_pointers: Vec<u64> = Vec::new();
        let mut cur: usize = environment_start;
        while cur < zero
            invariant
                environment_start <= cur <= zero < words@.len(),
                environment_pointers@ == words@.subrange(environment_start as int, cur as int),
            decreases zero - cur,
        {
            environment_pointers.push(words[cur]);
            proof {
                assert(environment_pointers@ =~= words@.subrange(
                    environment_start as int,
                    cur + 1,
                ));
            }
            cur += 1;
        }

        let auxiliary_entries = match read_auxiliary_entries(words, zero + 1) {
            Ok(items) => items,
            Err(e) => {
                return Err(e);
            },
        };
        Ok(
            StartupContext {
                argument_count,
                argument_pointers,
                environment_pointers,
                auxiliary_entries,
            },
        )
    }
}

} // verus!
