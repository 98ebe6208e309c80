//! Reading the answers of the identity service, and addressing it.

use crate::model::{
    history_view, DisplayNameHistoryEntry, DisplayNameHistoryEntryView, GameIdentity,
    GameIdentityView,
};
use vstd::prelude::*;
use vstd::string::StringExecFns;

verus! {

/// Why an identity could not be resolved.
#[derive(Debug, Clone, Copy, PartialEq, Eq, Structural)]
pub enum ResolveError {
    /// The service knows nothing of that name or identity.
    NotFound,
    /// The service could not be asked, or its answer could not be read.
    TransportError,
}

/// A resolution seen through the view of the identity it found.
pub open spec fn resolution_view(resolved: Result<GameIdentity, ResolveError>) -> Result<
    GameIdentityView,
    ResolveError,
> {
    match resolved {
        Ok(identity) => Ok(identity@),
        Err(e) => Err(e),
    }
}

/// A fetched timeline seen through the views of its entries.
pub open spec fn timeline_view(fetched: Result<Vec<DisplayNameHistoryEntry>, ResolveError>)
    -> Result<Seq<DisplayNameHistoryEntryView>, ResolveError> {
    match fetched {
        Ok(history) => Ok(history_view(history@)),
        Err(e) => Err(e),
    }
}

/// What the answer to a lookup by name means: without an answer the
/// transport failed, an answer without matches means that the name is not
/// known, and otherwise the first match is the identity.
pub open spec fn lookup_verdict(fetched: Option<Seq<GameIdentityView>>) -> Result<
    GameIdentityView,
    ResolveError,
> {
    match fetched {
        None => Err(ResolveError::TransportError),
        Some(matches) => if matches.len() == 0 {
            Err(ResolveError::NotFound)
        } else {
            Ok(matches[0])
        },
    }
}

/// Reads the answer to a lookup by name: the matches that the service
/// sent, or `None` when no answer could be had or read.
pub fn identity_from_matches(fetched: Option<Vec<GameIdentity>>) -> (r: Result<
    GameIdentity,
    ResolveError,
>)
    ensures
        resolution_view(r) == lookup_verdict(
            match fetched {
                Some(matches) => Some(matches@.map_values(|m: GameIdentity| m@)),
                None => None,
            },
        ),
{
    match fetched {
        None => Err(ResolveError::TransportError),
        Some(matches) => {
            if matches.len() == 0 {
                Err(ResolveError::NotFound)
            } else {
                Ok(matches[0].clone())
            }
        },
    }
}

/// The name that a timeline makes the current one: that of its last entry.
/// The timeline is taken to run from the oldest name to the newest.
pub open spec fn current_name_of(history: Seq<DisplayNameHistoryEntryView>) -> Option<Seq<char>> {
    if history.len() == 0 {
        None
    } else {
        Some(history.last().display_name)
    }
}

/// The current display name according to a timeline, or `None` when the
/// timeline is empty.
pub fn current_name(history: &Vec<DisplayNameHistoryEntry>) -> (r: Option<String>)
    ensures
        match r {
            Some(name) => current_name_of(history_view(history@)) == Some(name@),
            None => current_name_of(history_view(history@)) is None,
        },
{
    let n: usize = history.len();
    if n == 0 {
        None
    } else {
        Some(history[n - 1].display_name.clone())
    }
}

/// The address at which the service resolves a batch of display names.
pub open spec fn name_lookup_address() -> Seq<char> {
    "https://api.mojang.com/profiles/minecraft"@
}

/// The address at which the service resolves a batch of display names.
pub fn name_lookup_url() -> (r: &'static str)
    ensures
        r@ == name_lookup_address(),
{
    "https://api.mojang.com/profiles/minecraft"
}

/// The address of the timeline of `canonical_id`, as it is written before
/// it is parsed.
pub open spec fn name_history_address(canonical_id: Seq<char>) -> Seq<char> {
    "https://api.mojang.com/user/profiles/"@ + "/"@ + canonical_id + "/names"@
}

#[verifier::external_type_specification]
#[verifier::external_body]
pub struct ExParseError(url::ParseError);

/// The serialization of the URL that `url::Url::parse` reads from `input`,
/// or `None` where it reads none.
pub uninterp spec fn parsed_url(input: Seq<char>) -> Option<Seq<char>>;

/// Calls `url::Url::parse` on `input`. The contract claims no more than that
/// the outcome is a function of the input: a success carries the
/// serialization of the parsed URL, which is what `parsed_url` stands for,
/// and a failure means that `parsed_url` has no value there.
#[verifier::external_body]
fn parse_url(input: &str) -> (r: Result<String, url::ParseError>)
    ensures
        match r {
            Ok(text) => parsed_url(input@) == Some(text@),
            Err(_) => parsed_url(input@) is None,
        },
{
    match url::Url::parse(input) {
        Ok(parsed) => Ok(String::from(parsed)),
        Err(e) => Err(e),
    }
}

/// Turns a parsed address into what a request can use: the address itself,
/// or a transport error when the text was no address.
pub fn address_or_transport_error(parsed: Result<String, url::ParseError>) -> (r: Result<
    String,
    ResolveError,
>)
    ensures
        match parsed {
            Ok(text) => r matches Ok(address) && address@ == text@,
            Err(_) => r == Err::<String, ResolveError>(ResolveError::TransportError),
        },
{
    match parsed {
        Ok(text) => Ok(text),
        Err(_) => Err(ResolveError::TransportError),
    }
}

/// The address from which to fetch the timeline of display names of
/// `canonical_id`: the parsed form of [`name_history_address`], or a
/// transport error when that text is no address.
pub fn name_history_url(canonical_id: &str) -> (r: Result<String, ResolveError>)
    ensures
        match parsed_url(name_history_address(canonical_id@)) {
            Some(address) => r matches Ok(text) && text@ == address,
            None => r == Err::<String, ResolveError>(ResolveError::TransportError),
        },
{
    let written: String = String::from_str("https://api.mojang.com/user/profiles/").concat(
        "/",
    ).concat(canonical_id).concat("/names");
    address_or_transport_error(parse_url(written.as_str()))
}

} // verus!
