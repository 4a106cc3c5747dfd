//! The interface registry: the address to ask it at, and what its reply
//! means.
//!
//! The registry answers a lookup by address with a JSON object. Its member
//! `status` is the string `1` on success; the member `result` then holds the
//! interface, itself written as JSON inside a string. On any other status the
//! member `message` says what went wrong.

use crate::json::{json_text_at, text_at, JsonText};
use crate::text::to_chars;
use vstd::prelude::*;

verus! {

/// Why an address was not resolved to an interface.
#[derive(Debug, Clone, PartialEq, Eq)]
pub enum ResolveError {
    /// The registry could not be reached. Holds what the transport said.
    NetworkError(String),
    /// The registry did not answer in time.
    TimedOut,
    /// The registry refused the lookup. Holds its message.
    RegistryError(String),
    /// The reply of the registry was not laid out as expected.
    InvalidResponseShape,
    /// The cache holds an entry that is not read as an interface.
    CacheCorrupt,
}

/// A failure as a mathematical value.
pub enum ResolveFailure {
    NetworkError(Seq<char>),
    TimedOut,
    RegistryError(Seq<char>),
    InvalidResponseShape,
    CacheCorrupt,
}

impl View for ResolveError {
    type V = ResolveFailure;

    open spec fn view(&self) -> ResolveFailure {
        match self {
            ResolveError::NetworkError(e) => ResolveFailure::NetworkError(e@),
            ResolveError::TimedOut => ResolveFailure::TimedOut,
            ResolveError::RegistryError(m) => ResolveFailure::RegistryError(m@),
            ResolveError::InvalidResponseShape => ResolveFailure::InvalidResponseShape,
            ResolveError::CacheCorrupt => ResolveFailure::CacheCorrupt,
        }
    }
}

/// The address of a lookup, up to the contract's address.
pub open spec fn lookup_base() -> Seq<char> {
    "https://api-sepolia.arbiscan.io/api?module=contract&action=getabi&address="@
}

/// What introduces the key in the address of a lookup.
pub open spec fn key_marker() -> Seq<char> {
    "&apikey="@
}

/// The address at which the registry is asked for the interface of the
/// contract at `contract`, with the key `api_key` if it is not empty.
pub open spec fn lookup_url(contract: Seq<char>, api_key: Seq<char>) -> Seq<char> {
    if api_key.len() == 0 {
        lookup_base() + contract
    } else {
        lookup_base() + contract + key_marker() + api_key
    }
}

/// Writes the address at which the registry is asked.
pub fn registry_url(contract: &str, api_key: &str) -> (r: String)
    ensures
        r@ == lookup_url(contract@, api_key@),
{
    let mut url = String::from_str(
        "https://api-sepolia.arbiscan.io/api?module=contract&action=getabi&address=",
    );
    url.append(contract);
    if !api_key.is_empty() {
        url.append("&apikey=");
        url.append(api_key);
    }
    url
}

/// The message of a reply that fails without one.
pub open spec fn unknown_error() -> Seq<char> {
    "Error desconocido"@
}

/// What a reply of the registry means: the text of the interface, or the
/// failure.
pub open spec fn reply_outcome(body: Seq<char>) -> Result<Seq<char>, ResolveFailure> {
    match json_text_at(body, "/status"@) {
        JsonText::NotJson(_) => Err(ResolveFailure::InvalidResponseShape),
        JsonText::Text(status) if status == "1"@ => match json_text_at(body, "/result"@) {
            JsonText::Text(raw) => Ok(raw),
            _ => Err(ResolveFailure::InvalidResponseShape),
        },
        _ => match json_text_at(body, "/message"@) {
            JsonText::Text(message) => Err(ResolveFailure::RegistryError(message)),
            _ => Err(ResolveFailure::RegistryError(unknown_error())),
        },
    }
}

/// The result of reading a reply as a mathematical value.
pub open spec fn reply_view(r: Result<String, ResolveError>) -> Result<Seq<char>, ResolveFailure> {
    match r {
        Ok(raw) => Ok(raw@),
        Err(e) => Err(e@),
    }
}

/// Tests whether `text` is the string `1`.
fn is_one(text: &str) -> (r: bool)
    ensures
        r == (text@ == "1"@),
{
    proof {
        reveal_strlit("1");
    }
    let chars = to_chars(text);
    let r = chars.len() == 1 && chars[0] == '1';
    proof {
        if r {
            assert(text@ =~= "1"@);
        }
    }
    r
}

/// Reads a reply of the registry: the text of the interface on success,
/// `RegistryError` with the registry's message on a status other than `1`,
/// and `InvalidResponseShape` where the reply is not JSON or a successful
/// reply holds no result.
pub fn interpret_registry_reply(body: &str) -> (r: Result<String, ResolveError>)
    ensures
        reply_view(r) == reply_outcome(body@),
{
    let succeeded = match text_at(body, "/status") {
        Err(_) => {
            return Err(ResolveError::InvalidResponseShape);
        },
        Ok(Some(status)) => is_one(status.as_str()),
        Ok(None) => false,
    };
    if succeeded {
        match text_at(body, "/result") {
            Ok(Some(raw)) => Ok(raw),
            _ => Err(ResolveError::InvalidResponseShape),
        }
    } else {
        match text_at(body, "/message") {
            Ok(Some(message)) => Err(ResolveError::RegistryError(message)),
            _ => Err(ResolveError::RegistryError(String::from_str("Error desconocido"))),
        }
    }
}

/// What is said of a failure.
pub open spec fn resolve_failure_text(failure: ResolveFailure) -> Seq<char> {
    match failure {
        ResolveFailure::NetworkError(e) => "No se pudo obtener el ABI: "@ + e
            + ". Asegúrate de que el contrato esté verificado en Arbiscan Sepolia."@,
        ResolveFailure::TimedOut =>
            "No se pudo obtener el ABI: la consulta a Arbiscan agotó el tiempo de espera"@,
        ResolveFailure::RegistryError(m) => "No se pudo obtener el ABI: Error al obtener ABI: "@
            + m + ". Asegúrate de que el contrato esté verificado en Arbiscan Sepolia."@,
        ResolveFailure::InvalidResponseShape =>
            "No se pudo obtener el ABI: respuesta inesperada de Arbiscan"@,
        ResolveFailure::CacheCorrupt => "El ABI guardado localmente no se puede leer"@,
    }
}

impl ResolveError {
    /// Says what went wrong.
    pub fn message(&self) -> (r: String)
        ensures
            r@ == resolve_failure_text(self@),
    {
        match self {
            ResolveError::NetworkError(e) => {
                let mut text = String::from_str("No se pudo obtener el ABI: ");
                text.append(e.as_str());
                text.append(". Asegúrate de que el contrato esté verificado en Arbiscan Sepolia.");
                text
            },
            ResolveError::TimedOut => String::from_str(
                "No se pudo obtener el ABI: la consulta a Arbiscan agotó el tiempo de espera",
            ),
            ResolveError::RegistryError(m) => {
                let mut text = String::from_str(
                    "No se pudo obtener el ABI: Error al obtener ABI: ",
                );
                text.append(m.as_str());
                text.append(". Asegúrate de que el contrato esté verificado en Arbiscan Sepolia.");
                text
            },
            ResolveError::InvalidResponseShape => String::from_str(
                "No se pudo obtener el ABI: respuesta inesperada de Arbiscan",
            ),
            ResolveError::CacheCorrupt => String::from_str(
                "El ABI guardado localmente no se puede leer",
            ),
        }
    }
}

} // verus!
