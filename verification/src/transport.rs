//! The HTTP transport that a client carries, and how one is built.
//!
//! The crate never sends anything. It builds the transport, keeps it, and
//! hands it to the caller that does.

use vstd::prelude::*;

use crate::error::{Error, ErrorView};

verus! {

/// `reqwest::Client`, which the crate carries without looking inside.
#[verifier::external_type_specification]
#[verifier::external_body]
pub struct ExTransport(reqwest::Client);

/// Whether `c` may stand in the value of an HTTP header: a tab, or any
/// character from the space on but for the delete character.
pub open spec fn header_char_ok(c: char) -> bool {
    (c as u32 >= 32 && c as u32 != 127) || c == '\t'
}

/// Whether every character of `agent` may stand in the value of an HTTP
/// header.
pub open spec fn header_value_ok(agent: Seq<char>) -> bool {
    forall|i: int| 0 <= i < agent.len() ==> header_char_ok(#[trigger] agent[i])
}

/// Builds a transport that names itself `agent`, with
/// `reqwest::ClientBuilder::new`, `user_agent` and `build`. An error comes
/// back as the text that it displays.
///
/// Not proved: that an agent with a character that no header value may hold
/// is refused. The builder keeps the error of the failed conversion and
/// `build` returns it. Nothing is claimed of the other agents: whether a
/// transport can be built depends on the machine as well.
#[verifier::external_body]
pub(crate) fn build_transport(agent: &str) -> (built: Result<reqwest::Client, String>)
    ensures
        !header_value_ok(agent@) ==> built is Err,
{
    match reqwest::ClientBuilder::new().user_agent(agent).build() {
        Ok(transport) => Ok(transport),
        Err(error) => Err(error.to_string()),
    }
}

/// Says what an attempt to build a transport comes to for the caller: the
/// transport where one was built, else an [`Error::Request`] that holds the
/// diagnostic of the failure.
pub fn transport_from(built: Result<reqwest::Client, String>) -> (result: Result<
    reqwest::Client,
    Error,
>)
    ensures
        match built {
            Ok(transport) => result == Ok::<reqwest::Client, Error>(transport),
            Err(diagnostic) => result matches Err(error) && error@ == ErrorView::Request(
                diagnostic@,
            ),
        },
{
    match built {
        Ok(transport) => Ok(transport),
        Err(diagnostic) => Err(Error::Request(diagnostic)),
    }
}

} // verus!
