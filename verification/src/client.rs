//! The price feed as the cache sees it: where to ask, and what an answer is worth.

use vstd::prelude::*;
use vstd::string::*;

verus! {

/// The base address of the feed that the exporter asks.
pub const METAL_API_URL: &'static str = "https://data-asg.goldprice.org";

/// Why a fetch produced no prices.
#[derive(Clone, Copy, Debug, PartialEq, Eq, Structural)]
pub enum FetchError {
    /// No answer came back from the feed.
    Unreachable,
    /// The feed answered with a status outside 200..=299.
    BadStatus(u16),
    /// The body was not a rates document.
    MalformedPayload,
    /// The rates document lists no item to take prices from.
    MissingPrices,
}

/// One entry of a rates document: the gold and the silver price per troy ounce,
/// each as the 64-bit pattern of a double-precision number.
#[derive(Clone, Copy, Debug, PartialEq, Eq, Structural)]
pub struct Item {
    pub xau_price: u64,
    pub xag_price: u64,
}

/// A decoded rates document.
#[derive(Debug)]
pub struct ApiResponse {
    pub items: Vec<Item>,
}

/// What a feed answer yields: the prices of the first item of a well-formed document
/// that came with a success status, and otherwise the reason why there are none.
/// `body` is `None` when the body could not be decoded.
pub open spec fn response_prices(status: u16, body: Option<ApiResponse>) -> Result<
    (u64, u64),
    FetchError,
> {
    if status < 200 || status > 299 {
        Err(FetchError::BadStatus(status))
    } else {
        match body {
            None => Err(FetchError::MalformedPayload),
            Some(document) => if document.items@.len() == 0 {
                Err(FetchError::MissingPrices)
            } else {
                Ok((document.items@[0].xau_price, document.items@[0].xag_price))
            },
        }
    }
}

/// The address of a price feed.
pub struct ClientWrapper {
    base_url: String,
}

impl ClientWrapper {
    /// The base address this client was made with.
    pub closed spec fn base_url(&self) -> Seq<char> {
        self.base_url@
    }

    /// The path of the rates document below the base address.
    pub open spec fn rates_path() -> Seq<char> {
        "/dbXRates/EUR"@
    }

    /// A client for the feed at `base_url`.
    pub fn new(base_url: String) -> (client: Self)
        ensures
            client.base_url() == base_url@,
    {
        ClientWrapper { base_url }
    }

    /// The address to request: the base address followed by the rates path.
    pub fn rates_url(&self) -> (url: String)
        ensures
            url@ == self.base_url() + Self::rates_path(),
    {
        let mut url = self.base_url.clone();
        url.append("/dbXRates/EUR");
        url
    }
}

/// Judges one answer of the feed.
pub fn prices_from_response(status: u16, body: Option<ApiResponse>) -> (outcome: Result<
    (u64, u64),
    FetchError,
>)
    ensures
        outcome == response_prices(status, body),
{
    if status < 200 || status > 299 {
        return Err(FetchError::BadStatus(status));
    }
    match body {
        None => Err(FetchError::MalformedPayload),
        Some(document) => {
            if document.items.len() == 0 {
                Err(FetchError::MissingPrices)
            } else {
                let first = document.items[0];
                Ok((first.xau_price, first.xag_price))
            }
        },
    }
}

} // verus!
