//! The message generator: per call it either yields a fixed welcome text or
//! a simulated failure, chosen by one fair coin flip.

use vstd::prelude::*;

verus! {

/// The text produced by a successful generation.
pub open spec fn welcome_text() -> Seq<char> {
    "Welcome to Axum Play!"@
}

/// The reason carried by a simulated generation failure.
pub open spec fn failure_reason() -> Seq<char> {
    "no message for you!"@
}

/// A simulated failure of the message generator, carrying its reason.
pub struct GenerationError {
    pub reason: String,
}

/// Decides one generation outcome from a single coin flip: a raised coin is
/// the simulated failure, otherwise the welcome message. This is the
/// deterministic seam behind [`generate_message`]; tests drive it directly.
pub fn generate_message_with(fail: bool) -> (r: Result<&'static str, GenerationError>)
    ensures
        fail <==> r is Err,
        r matches Ok(text) ==> text@ == welcome_text(),
        r matches Err(e) ==> e.reason@ == failure_reason(),
{
    if fail {
        Err(GenerationError { reason: String::from_str("no message for you!") })
    } else {
        Ok("Welcome to Axum Play!")
    }
}

/// Relies on `rand::random::<bool>`: draws one boolean from the thread-local
/// generator. The result is random, so nothing is promised of it.
#[verifier::external_body]
fn random_bool() -> (b: bool) {
    rand::random()
}

/// Generates the message: a simulated failure or the fixed welcome text,
/// chosen by a fair coin. Every outcome is one of those two values.
pub fn generate_message() -> (r: Result<&'static str, GenerationError>)
    ensures
        r matches Ok(text) ==> text@ == welcome_text(),
        r matches Err(e) ==> e.reason@ == failure_reason(),
{
    generate_message_with(random_bool())
}

} // verus!
