//! The command surface of a front end: what each command decides before a
//! request goes out and after a response came back.
//!
//! A front end keeps one [`AppState`], which holds the client once a token
//! was set. Each search command turns its arguments into a query model; the
//! arguments that were not given leave their filter unset.

use crate::client::{MindatClient, MindatClientBuilder, DEFAULT_BASE_URL};
use crate::error::MindatError;
use crate::links::parsed_url;
use crate::models::geomaterials::GeomaterialsQuery;
use crate::models::localities::{LocalitiesQuery, Locality};
use crate::models::minerals_ima::ImaMineralsQuery;
use vstd::prelude::*;

verus! {

/// Error type for commands: the message to display.
#[derive(Debug)]
pub struct CommandError {
    pub message: String,
}

impl CommandError {
    /// The command error with the given message.
    pub fn new(message: &str) -> (e: Self)
        ensures
            e.message@ == message@,
    {
        CommandError { message: message.to_owned() }
    }

    /// The command error for an error of the client: it carries the message
    /// of that error.
    pub fn from_error(error: &MindatError) -> (e: Self)
        ensures
            error.prefix().is_prefix_of(e.message@),
            error matches MindatError::Api { message, .. } ==> e.message@ == error.prefix()
                + message@,
            error matches MindatError::NotFound(detail) ==> e.message@ == error.prefix() + detail@,
            error matches MindatError::InvalidParameter(detail) ==> e.message@ == error.prefix()
                + detail@,
            error is AuthenticationRequired || error is RateLimited ==> e.message@
                == error.prefix(),
    {
        CommandError { message: error.to_string() }
    }
}

/// The token that a front end asks for: an empty text asks for none.
pub open spec fn token_given(token: Seq<char>) -> Option<Seq<char>> {
    if token.len() == 0 {
        None
    } else {
        Some(token)
    }
}

/// The client for a token as a front end hands it over: an empty token asks
/// for a client without authentication. The client uses the default base URL.
pub fn client_for_token(token: &str) -> (r: Result<MindatClient, MindatError>)
    ensures
        parsed_url(DEFAULT_BASE_URL@) is None ==> r matches Err(MindatError::Url(_)),
        parsed_url(DEFAULT_BASE_URL@) matches Some(base) ==> (r matches Ok(client)
            && client.base() == base && client.timeout_asked() is None && client.token_text()
            == token_given(token@)),
{
    let builder = MindatClientBuilder::new();
    if token.is_empty() {
        builder.build()
    } else {
        builder.token(token).build()
    }
}

/// Application state holding the API client
#[derive(Debug)]
pub struct AppState {
    pub client: Option<MindatClient>,
}

impl AppState {
    /// The state of a front end that has no client yet.
    pub fn new() -> (state: Self)
        ensures
            state.client is None,
    {
        AppState { client: None }
    }

    /// Set the API token: the state holds a client for it from now on. Where
    /// no client can be made, the state is left as it was.
    pub fn set_api_token(&mut self, token: &str) -> (r: Result<String, CommandError>)
        ensures
            r matches Ok(text) ==> text@ == "API token set successfully"@ && final(self).client
                is Some,
            r is Err ==> *final(self) == *old(self),
            r is Ok <==> parsed_url(DEFAULT_BASE_URL@) is Some,
            r is Ok ==> final(self).client->0.token_text() == token_given(token@),
    {
        match client_for_token(token) {
            Ok(client) => {
                self.client = Some(client);
                Ok("API token set successfully".to_owned())
            },
            Err(e) => Err(CommandError::from_error(&e)),
        }
    }

    /// Check if client is configured
    pub fn is_configured(&self) -> (yes: bool)
        ensures
            yes == self.client is Some,
    {
        self.client.is_some()
    }

    /// Clear the API client
    pub fn clear_client(&mut self) -> (text: String)
        ensures
            final(self).client is None,
            text@ == "Client cleared"@,
    {
        self.client = None;
        "Client cleared".to_owned()
    }

    /// Helper to get client or error
    pub fn get_client(&self) -> (r: Result<&MindatClient, CommandError>)
        ensures
            self.client matches Some(client) ==> r == Ok::<&MindatClient, CommandError>(&client),
            self.client is None ==> (r matches Err(e) && e.message@
                == "Client not configured. Set an API token first."@),
    {
        match &self.client {
            Some(client) => Ok(client),
            None => Err(CommandError::new("Client not configured. Set an API token first.")),
        }
    }
}

impl Default for AppState {
    fn default() -> (state: Self)
        ensures
            state.client is None,
    {
        AppState::new()
    }
}

/// The characters of an optional text argument.
pub open spec fn arg_text(arg: Option<String>) -> Option<Seq<char>> {
    match arg {
        Some(s) => Some(s@),
        None => None,
    }
}

/// The characters of an optional text argument, where an empty text counts
/// as not given.
pub open spec fn filled_text(arg: Option<String>) -> Option<Seq<char>> {
    match arg {
        Some(s) if s@.len() > 0 => Some(s@),
        _ => None,
    }
}

/// The query of a search for minerals by name.
pub fn search_minerals(
    name: &str,
    page: Option<i32>,
    page_size: Option<i32>,
) -> (query: GeomaterialsQuery)
    ensures
        query.name matches Some(n) && n@ == name@,
        query == (GeomaterialsQuery {
            name: query.name,
            page,
            page_size,
            ..GeomaterialsQuery::empty()
        }),
{
    let mut query = GeomaterialsQuery::new().name(name);
    if let Some(p) = page {
        query = query.page(p);
    }
    if let Some(ps) = page_size {
        query = query.page_size(ps);
    }
    query
}

/// The query of a search for IMA-approved minerals. An empty search text
/// leaves the search filter unset.
pub fn search_ima_minerals(
    search: &str,
    page: Option<i32>,
    page_size: Option<i32>,
) -> (query: ImaMineralsQuery)
    ensures
        search@.len() == 0 ==> query.q is None,
        search@.len() > 0 ==> (query.q matches Some(q) && q@ == search@),
        query == (ImaMineralsQuery { q: query.q, page, page_size, ..ImaMineralsQuery::empty() }),
{
    let mut query = ImaMineralsQuery::new();
    if !search.is_empty() {
        query = query.search(search);
    }
    if let Some(p) = page {
        query = query.page(p);
    }
    if let Some(ps) = page_size {
        query = query.page_size(ps);
    }
    query
}

/// The query of a search for localities.
pub fn search_localities(
    country: &Option<String>,
    name_contains: &Option<String>,
) -> (query: LocalitiesQuery)
    ensures
        arg_text(query.country) == arg_text(*country),
        arg_text(query.txt) == arg_text(*name_contains),
        query == (LocalitiesQuery {
            country: query.country,
            txt: query.txt,
            ..LocalitiesQuery::empty()
        }),
{
    let mut query = LocalitiesQuery::new();
    if let Some(c) = country {
        query = query.country(c.as_str());
    }
    if let Some(n) = name_contains {
        query = query.name_contains(n.as_str());
    }
    query
}

/// The query of a search for minerals by elements.
pub fn search_by_elements(
    include_elements: &str,
    exclude_elements: &Option<String>,
    page: Option<i32>,
) -> (query: GeomaterialsQuery)
    ensures
        query.elements_inc matches Some(e) && e@ == include_elements@,
        arg_text(query.elements_exc) == arg_text(*exclude_elements),
        query == (GeomaterialsQuery {
            elements_inc: query.elements_inc,
            elements_exc: query.elements_exc,
            page,
            ..GeomaterialsQuery::empty()
        }),
{
    let mut query = GeomaterialsQuery::new().with_elements(include_elements);
    if let Some(exclude) = exclude_elements {
        query = query.without_elements(exclude.as_str());
    }
    if let Some(p) = page {
        query = query.page(p);
    }
    query
}

/// The query of a search for localities around a point. The search is
/// refused where neither a country nor a name is given, as it would fetch
/// every locality; a filter that is given but empty is left unset. The
/// distance itself is checked by the caller on the localities that come back.
pub fn search_localities_by_gps(
    country: &Option<String>,
    name_contains: &Option<String>,
) -> (r: Result<LocalitiesQuery, CommandError>)
    ensures
        (*country is None && *name_contains is None) ==> (r matches Err(e) && e.message@
            == "Please specify a country or name filter to narrow down the search"@),
        !(*country is None && *name_contains is None) ==> (r matches Ok(query) && arg_text(
            query.country,
        ) == filled_text(*country) && arg_text(query.txt) == filled_text(*name_contains) && query
            == (LocalitiesQuery {
            country: query.country,
            txt: query.txt,
            ..LocalitiesQuery::empty()
        })),
{
    if country.is_none() && name_contains.is_none() {
        return Err(
            CommandError::new("Please specify a country or name filter to narrow down the search"),
        );
    }
    let mut query = LocalitiesQuery::new();
    if let Some(c) = country {
        if !c.as_str().is_empty() {
            query = query.country(c.as_str());
        }
    }
    if let Some(n) = name_contains {
        if !n.as_str().is_empty() {
            query = query.name_contains(n.as_str());
        }
    }
    Ok(query)
}

/// The query of a search for localities by elements.
pub fn search_localities_by_elements(
    include_elements: &str,
    exclude_elements: &Option<String>,
) -> (query: LocalitiesQuery)
    ensures
        query.elements_inc matches Some(e) && e@ == include_elements@,
        arg_text(query.elements_exc) == arg_text(*exclude_elements),
        query == (LocalitiesQuery {
            elements_inc: query.elements_inc,
            elements_exc: query.elements_exc,
            ..LocalitiesQuery::empty()
        }),
{
    let mut query = LocalitiesQuery::new().with_elements(include_elements);
    if let Some(exclude) = exclude_elements {
        query = query.without_elements(exclude.as_str());
    }
    query
}

/// A locality that has both coordinates.
pub open spec fn has_coordinates(locality: Locality) -> bool {
    locality.latitude is Some && locality.longitude is Some
}

/// Keeps the localities that have both coordinates, in their order.
pub fn with_coordinates(localities: Vec<Locality>) -> (kept: Vec<Locality>)
    ensures
        kept@ == localities@.filter(|l: Locality| has_coordinates(l)),
{
    let ghost all = localities@;
    let ghost keep = |l: Locality| has_coordinates(l);
    let mut kept: Vec<Locality> = Vec::new();
    proof {
        reveal(Seq::filter);
        assert(all.take(0) =~= Seq::<Locality>::empty());
    }
    for locality in it: localities
        invariant
            it.seq() == all,
            keep == |l: Locality| has_coordinates(l),
            kept@ == all.take(it.index() as int).filter(keep),
    {
        proof {
            reveal(Seq::filter);
            let next = all.take(it.index() + 1);
            assert(next.drop_last() =~= all.take(it.index() as int));
            assert(next.last() == locality);
        }
        if locality.latitude.is_some() && locality.longitude.is_some() {
            kept.push(locality);
        }
    }
    assert(all.take(all.len() as int) =~= all);
    kept
}

} // verus!
