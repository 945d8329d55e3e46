//! The bridge from deep-link activations to the user interface.
//!
//! The operating system hands the shell a batch of URLs per activation. Of
//! each batch the first URL alone is forwarded, as a script that calls the
//! handler of the user interface with the URL as a JSON string; the others
//! are discarded. Where no user-interface surface is attached, the whole
//! batch is dropped: nothing is queued and nothing is replayed.

use vstd::prelude::*;
use vstd::string::*;

verus! {

/// The label of the user-interface surface that deep links are forwarded to.
pub const UI_SURFACE: &'static str = "main";

/// The error type of `serde_json`, carried through unread.
#[verifier::external_type_specification]
#[verifier::external_body]
pub struct ExJsonError(serde_json::Error);

/// The JSON text that `serde_json::to_string` gives for the string `s`;
/// `None` where it reports an error.
pub uninterp spec fn json_text(s: Seq<char>) -> Option<Seq<char>>;

/// Calls `serde_json::to_string` on a string slice. The serializer is
/// deterministic, so what it returns is a function of the string alone;
/// that function is given the name [`json_text`] and nothing else is
/// claimed of it.
#[verifier::external_body]
fn to_json(s: &str) -> (r: Result<String, serde_json::Error>)
    ensures
        match r {
            Ok(text) => json_text(s@) == Some(text@),
            Err(_) => json_text(s@) is None,
        },
{
    serde_json::to_string(s)
}

/// The script that calls the deep-link handler of the user interface with
/// `argument` as the text of its argument.
pub open spec fn handler_call(argument: Seq<char>) -> Seq<char> {
    "__handleDeepLink("@ + argument + ")"@
}

/// The text that stands for a URL in the script: its JSON text, or nothing
/// where there is none.
pub open spec fn argument_text(quoted: Option<Seq<char>>) -> Seq<char> {
    match quoted {
        Some(text) => text,
        None => Seq::empty(),
    }
}

/// The script that forwards `url`.
pub open spec fn script_for(url: Seq<char>) -> Seq<char> {
    handler_call(argument_text(json_text(url)))
}

/// What is forwarded of a batch: the script for its first URL where the
/// batch has one and a surface is attached, else nothing.
pub open spec fn forwarded(urls: Seq<Seq<char>>, surface_attached: bool) -> Option<Seq<char>> {
    if urls.len() > 0 && surface_attached {
        Some(script_for(urls[0]))
    } else {
        None
    }
}

/// The script that calls the handler with `quoted`, the JSON text of a URL,
/// `None` where the URL has no JSON text.
pub fn handler_script(quoted: Option<String>) -> (script: String)
    ensures
        script@ == handler_call(argument_text(quoted.deep_view())),
{
    let mut script = String::from_str("__handleDeepLink(");
    if let Some(text) = quoted {
        script.append(text.as_str());
    }
    script.append(")");
    script
}

/// The first URL of a batch, which is the one that counts.
pub fn first_url(urls: &Vec<String>) -> (first: Option<&String>)
    ensures
        match first {
            Some(url) => urls@.len() > 0 && *url == urls@[0],
            None => urls@.len() == 0,
        },
{
    if urls.len() > 0 {
        Some(&urls[0])
    } else {
        None
    }
}

/// Decides what to do with a batch of URLs from one activation:
/// `Some(script)` is to be evaluated in the attached surface, `None` means
/// that the batch is dropped.
pub fn forward(urls: &Vec<String>, surface_attached: bool) -> (script: Option<String>)
    ensures
        script.deep_view() == forwarded(urls.deep_view(), surface_attached),
{
    if !surface_attached {
        return None;
    }
    match first_url(urls) {
        Some(url) => {
            let quoted = match to_json(url.as_str()) {
                Ok(text) => Some(text),
                Err(_) => None,
            };
            Some(handler_script(quoted))
        },
        None => None,
    }
}

/// First wins: what follows the first URL of a batch has no part in what is
/// forwarded.
pub proof fn lemma_first_wins(first: Seq<char>, rest: Seq<Seq<char>>, surface_attached: bool)
    ensures
        forwarded(seq![first] + rest, surface_attached) == forwarded(
            seq![first],
            surface_attached,
        ),
{
}

/// No surface, no delivery: without an attached surface every batch is
/// dropped; with one, every batch that holds a URL is forwarded.
pub proof fn lemma_dropped_without_surface(urls: Seq<Seq<char>>, surface_attached: bool)
    ensures
        forwarded(urls, surface_attached) is Some <==> surface_attached && urls.len() > 0,
{
}

} // verus!
