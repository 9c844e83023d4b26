//! A generic last-in-first-out container whose behaviour is stated over a
//! sequence model: the end of the sequence is the top of the stack.

mod stack;

pub use stack::{
    Stack, below_top, law_fresh_stack, law_is_empty_iff_len_zero, law_lifo, law_push_then_pop,
    law_queries_depend_on_contents, pop_results, popped_all, pushed_all, top,
};
