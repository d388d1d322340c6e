//! The options of the attribute that sets a pool up around a function, and
//! the calls on a builder that they stand for.

use vstd::prelude::*;

verus! {

/// The options as they were written. Functions are given by their names.
pub struct PoolOptions {
    /// The number of worker threads.
    pub threads: Option<usize>,
    /// The stack size of the worker threads in bytes.
    pub stack_size: Option<usize>,
    /// A fixed name for the worker threads.
    pub name: Option<String>,
    /// The function that names the worker threads.
    pub name_fn: Option<String>,
    /// The hook called before every task.
    pub before: Option<String>,
    /// The hook called after every task.
    pub after: Option<String>,
}

/// One call on a builder.
pub enum BuilderCall<'a> {
    ThreadNumber(usize),
    ThreadStackSize(usize),
    ThreadName(&'a String),
    ThreadNameFn(&'a String),
    Before(&'a String),
    After(&'a String),
}

/// The call that an option stands for, if the option is given.
pub open spec fn call_for<'a, V>(option: Option<V>, call: spec_fn(V) -> BuilderCall<'a>) -> Seq<
    BuilderCall<'a>,
> {
    match option {
        Some(value) => seq![call(value)],
        None => Seq::empty(),
    }
}

impl PoolOptions {
    /// Whether the options can be met: a fixed name and a naming function
    /// exclude each other.
    pub open spec fn valid(&self) -> bool {
        !(self.name is Some && self.name_fn is Some)
    }

    /// The calls that the options stand for: one for each option given, in
    /// the order threads, stack size, name, naming function, before, after.
    pub open spec fn calls<'a>(&'a self) -> Seq<BuilderCall<'a>> {
        call_for(self.threads, |n: usize| BuilderCall::ThreadNumber(n)) + call_for(
            self.stack_size,
            |n: usize| BuilderCall::ThreadStackSize(n),
        ) + call_for(self.name, |s: String| BuilderCall::ThreadName(&s)) + call_for(
            self.name_fn,
            |s: String| BuilderCall::ThreadNameFn(&s),
        ) + call_for(self.before, |s: String| BuilderCall::Before(&s)) + call_for(
            self.after,
            |s: String| BuilderCall::After(&s),
        )
    }

    /// Whether the options can be met.
    pub fn is_valid(&self) -> (valid: bool)
        ensures
            valid == self.valid(),
    {
        !(self.name.is_some() && self.name_fn.is_some())
    }

    /// The calls to make on a fresh builder, in their order.
    pub fn to_calls<'a>(&'a self) -> (calls: Vec<BuilderCall<'a>>)
        requires
            self.valid(),
        ensures
            calls@ == self.calls(),
    {
        let mut calls: Vec<BuilderCall<'a>> = Vec::new();
        if let Some(threads) = &self.threads {
            calls.push(BuilderCall::ThreadNumber(*threads));
        }
        if let Some(size) = &self.stack_size {
            calls.push(BuilderCall::ThreadStackSize(*size));
        }
        if let Some(name) = &self.name {
            calls.push(BuilderCall::ThreadName(name));
        }
        if let Some(fun) = &self.name_fn {
            calls.push(BuilderCall::ThreadNameFn(fun));
        }
        if let Some(fun) = &self.before {
            calls.push(BuilderCall::Before(fun));
        }
        if let Some(fun) = &self.after {
            calls.push(BuilderCall::After(fun));
        }
        calls
    }
}

} // verus!
