//! An example business function with its input, secret and output types.
use vstd::prelude::*;

use crate::io::Context;

verus! {

/// The example's input.
#[derive(Debug)]
pub struct InputJson {
    pub data: String,
}

/// The example's secrets.
#[derive(Debug)]
pub struct SecretJson {
    pub password: String,
}

/// The example's output.
#[derive(Debug)]
pub struct OutputJson {
    pub error: String,
    pub data: u64,
}

/// The example business function: it reports no error and returns the random
/// number it was given.
pub fn hello_world(ctx: Context<String, SecretJson>, random: u64) -> (r: OutputJson)
    ensures
        r.error@ == Seq::<char>::empty(),
        r.data == random,
{
    let _ = ctx;
    OutputJson { error: String::new(), data: random }
}

} // verus!
