//! The GraphQL API client.
use vstd::prelude::*;

use crate::outside::{error_from_message, error_message};

verus! {

/// The HTTP client that posts queries to the API at a URL.
#[derive(Debug)]
pub struct HttpClientImpl {
    url: String,
}

impl View for HttpClientImpl {
    type V = Seq<char>;

    closed spec fn view(&self) -> Seq<char> {
        self.url@
    }
}

impl HttpClientImpl {
    /// The client for the API at the given URL.
    pub fn new(url: String) -> (r: HttpClientImpl)
        ensures
            r@ == url@,
    {
        HttpClientImpl { url }
    }

    pub fn url(&self) -> (r: &String)
        ensures
            r@ == self@,
    {
        &self.url
    }
}

/// The data of a GraphQL response, or the error "failed read data" when it
/// carries none.
pub fn response_data<T>(data: Option<T>) -> (r: Result<T, anyhow::Error>)
    ensures
        data is Some <==> r is Ok,
        data matches Some(d) ==> r matches Ok(x) && x == d,
        data is None ==> (r matches Err(e) && error_message(e) == Some("failed read data"@)),
{
    match data {
        Some(d) => Ok(d),
        None => Err(error_from_message("failed read data".to_owned())),
    }
}

} // verus!
