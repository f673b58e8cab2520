//! The greeting: a request that carries a name, and the response that
//! addresses it.

use crate::text::{
    is_blank, lemma_trim_is_idempotent, lemma_trimmed_is_empty_iff_blank, trim, trimmed,
};
use vstd::prelude::*;

verus! {

/// Asks for a greeting. The name may be empty or padded with whitespace.
#[derive(Debug, Clone)]
pub struct GreetingRequest {
    pub name: String,
}

/// The greeting that answers a request.
#[derive(Debug, Clone)]
pub struct GreetingResponse {
    pub message: String,
}

/// The name that a greeting uses for a request without one.
pub open spec fn default_name() -> Seq<char> {
    "World"@
}

/// What comes before the name in a greeting.
pub open spec fn greeting_opening() -> Seq<char> {
    "Hello, "@
}

/// What comes after the name in a greeting.
pub open spec fn greeting_closing() -> Seq<char> {
    "! This message is generated in the Rust backend and sent to the UI via a typed API."@
}

/// The name that a greeting addresses: the given one without the whitespace
/// around it, or the default where nothing is left of it.
pub open spec fn resolved_name(name: Seq<char>) -> Seq<char> {
    if trimmed(name).len() == 0 {
        default_name()
    } else {
        trimmed(name)
    }
}

/// The message that greets `name`.
pub open spec fn greeting_message(name: Seq<char>) -> Seq<char> {
    greeting_opening() + resolved_name(name) + greeting_closing()
}

/// Whether `part` occurs in `text` as a run of consecutive characters.
pub open spec fn occurs_in(part: Seq<char>, text: Seq<char>) -> bool {
    exists|at: int|
        0 <= at && at + part.len() <= text.len() && #[trigger] text.subrange(
            at,
            at + part.len(),
        ) == part
}

/// Greets the name of a request. Always succeeds.
pub fn make_greeting(req: GreetingRequest) -> (response: GreetingResponse)
    ensures
        response.message@ == greeting_message(req.name@),
{
    let given = trim(req.name.as_str());
    let name = if given.is_empty() {
        "World"
    } else {
        given
    };
    let mut message = "Hello, ".to_string();
    message.append(name);
    message.append(
        "! This message is generated in the Rust backend and sent to the UI via a typed API.",
    );
    GreetingResponse { message }
}

/// A greeting does not depend on the whitespace around the name: the name
/// and the name trimmed beforehand are greeted alike.
pub proof fn lemma_greeting_ignores_padding(name: Seq<char>)
    ensures
        greeting_message(trimmed(name)) == greeting_message(name),
{
    lemma_trim_is_idempotent(name);
}

/// The name of every greeting stands in its message between the opening and
/// the closing.
pub proof fn lemma_greeting_holds_resolved_name(name: Seq<char>)
    ensures
        occurs_in(resolved_name(name), greeting_message(name)),
{
    let at: int = greeting_opening().len() as int;
    let part = resolved_name(name);
    assert(greeting_message(name).subrange(at, at + part.len()) =~= part);
}

/// A name that is empty or holds whitespace only is greeted as the default
/// name, which then stands in the message.
pub proof fn lemma_blank_name_greets_default(name: Seq<char>)
    requires
        is_blank(name),
    ensures
        greeting_message(name) == greeting_opening() + default_name() + greeting_closing(),
        occurs_in(default_name(), greeting_message(name)),
{
    lemma_trimmed_is_empty_iff_blank(name);
    lemma_greeting_holds_resolved_name(name);
}

/// A name of which something is left after trimming is greeted as what is
/// left, which then stands in the message.
pub proof fn lemma_given_name_greets_trimmed(name: Seq<char>)
    requires
        !is_blank(name),
    ensures
        trimmed(name).len() > 0,
        greeting_message(name) == greeting_opening() + trimmed(name) + greeting_closing(),
        occurs_in(trimmed(name), greeting_message(name)),
{
    lemma_trimmed_is_empty_iff_blank(name);
    lemma_greeting_holds_resolved_name(name);
}

} // verus!
