//! The answers of the two services, to decode a call and to assess its risk.
//!
//! Each service is a run of steps. Between the steps its caller does what
//! this library does not: it resolves the interface as the resolver tells it
//! to, reads the configuration, and asks the reasoning service. Each step
//! either gives what the next one needs or the answer that ends the request.

use crate::address::{address_digits, address_refusal, is_address_text, Address};
use crate::decode::{
    decode_failure_text, decode_function_call, text_outcome, ArgumentView, CallView, DecodedCall,
};
use crate::extract::{explanation_of, extract, risk_level_of};
use crate::hexcode::hex_bytes;
use crate::json::{array_at, json_array_at, json_text_at, text_at, JsonText};
use crate::prompt::{
    argument_texts, arguments_of, build_request, reasoning_request, ReasoningRequest,
};
use crate::registry::{resolve_failure_text, ResolveError, ResolveFailure};
use crate::resolver::{Resolution, ResolutionView};
use crate::text::option_text;
use crate::{
    AnalysisRequest, AnalysisResponse, AnalysisResponseView, DecodeRequest, DecodeResponse,
    DecodeResponseView, PromptConfig, ResponseFormat,
};
use vstd::prelude::*;

verus! {

/// The status of an answer.
#[derive(Clone, Copy, PartialEq, Eq, Structural, Debug)]
pub enum HttpStatus {
    Success,
    BadRequest,
    InternalServerError,
}

/// The answer of the service that decodes.
#[derive(Debug, Clone, PartialEq, Eq)]
pub struct DecodeReply {
    pub status: HttpStatus,
    pub body: DecodeResponse,
}

/// An answer of the service that decodes, as a mathematical value.
pub struct DecodeReplyView {
    pub status: HttpStatus,
    pub body: DecodeResponseView,
}

impl View for DecodeReply {
    type V = DecodeReplyView;

    open spec fn view(&self) -> DecodeReplyView {
        DecodeReplyView { status: self.status, body: self.body@ }
    }
}

/// The answer of the service that assesses.
#[derive(Debug, Clone, PartialEq, Eq)]
pub struct AnalysisReply {
    pub status: HttpStatus,
    pub body: AnalysisResponse,
}

/// An answer of the service that assesses, as a mathematical value.
pub struct AnalysisReplyView {
    pub status: HttpStatus,
    pub body: AnalysisResponseView,
}

impl View for AnalysisReply {
    type V = AnalysisReplyView;

    open spec fn view(&self) -> AnalysisReplyView {
        AnalysisReplyView { status: self.status, body: self.body@ }
    }
}

/// What came of asking the reasoning service.
#[derive(Debug, Clone, PartialEq, Eq)]
pub enum ServiceOutcome {
    /// It could not be reached. Holds what the transport said.
    Unreachable(String),
    /// It did not answer in time.
    TimedOut,
    /// Its reply could not be read. Holds the reason.
    Unreadable(String),
    /// It replied.
    Replied {
        /// Whether the status of the reply is one of success.
        success: bool,
        /// The status of the reply, written out.
        status: String,
        body: String,
    },
}

/// What came of asking, as a mathematical value.
pub enum ServiceOutcomeView {
    Unreachable(Seq<char>),
    TimedOut,
    Unreadable(Seq<char>),
    Replied { success: bool, status: Seq<char>, body: Seq<char> },
}

impl View for ServiceOutcome {
    type V = ServiceOutcomeView;

    open spec fn view(&self) -> ServiceOutcomeView {
        match self {
            ServiceOutcome::Unreachable(e) => ServiceOutcomeView::Unreachable(e@),
            ServiceOutcome::TimedOut => ServiceOutcomeView::TimedOut,
            ServiceOutcome::Unreadable(e) => ServiceOutcomeView::Unreadable(e@),
            ServiceOutcome::Replied { success, status, body } => ServiceOutcomeView::Replied {
                success: *success,
                status: status@,
                body: body@,
            },
        }
    }
}

/// The result of a resolution as a mathematical value.
pub open spec fn resolution_view(r: Result<Resolution, ResolveError>) -> Result<
    ResolutionView,
    ResolveFailure,
> {
    match r {
        Ok(resolution) => Ok(resolution@),
        Err(e) => Err(e@),
    }
}

/// The texts of the arguments of a call.
pub open spec fn call_texts(call: CallView) -> Seq<Seq<char>> {
    call.arguments.map_values(|a: ArgumentView| a.text)
}

/// What is said of a text that holds no address.
pub open spec fn invalid_address_text(contract_address: Seq<char>) -> Seq<char> {
    "Dirección de contrato inválida: "@ + address_refusal(contract_address)
}

/// An answer of the service that decodes which reports a failure.
pub open spec fn decode_refusal(
    status: HttpStatus,
    message: Seq<char>,
    details: Option<Seq<char>>,
) -> DecodeReplyView {
    DecodeReplyView {
        status,
        body: DecodeResponseView {
            status: "error"@,
            function_name: None,
            arguments: None,
            message: Some(message),
            details,
            abi: None,
        },
    }
}

/// An answer of the service that assesses which reports a failure.
pub open spec fn analysis_refusal(
    status: HttpStatus,
    call: Option<CallView>,
    message: Seq<char>,
    details: Option<Seq<char>>,
) -> AnalysisReplyView {
    AnalysisReplyView {
        status,
        body: AnalysisResponseView {
            status: "error"@,
            function_name: match call {
                Some(c) => Some(c.name),
                None => None,
            },
            arguments: match call {
                Some(c) => Some(call_texts(c)),
                None => None,
            },
            risk_level: None,
            explanation: None,
            message: Some(message),
            details,
        },
    }
}

/// The answer to a request to decode, once the interface is resolved or
/// is not.
pub open spec fn decode_conclusion(
    call_data: Seq<char>,
    resolution: Result<ResolutionView, ResolveFailure>,
) -> DecodeReplyView {
    match resolution {
        Err(failure) => decode_refusal(
            HttpStatus::InternalServerError,
            "Error al obtener o cargar el ABI"@,
            Some(resolve_failure_text(failure)),
        ),
        Ok(resolved) => match text_outcome(resolved.interface, call_data) {
            Ok(call) => DecodeReplyView {
                status: HttpStatus::Success,
                body: DecodeResponseView {
                    status: "success"@,
                    function_name: Some(call.name),
                    arguments: Some(call_texts(call)),
                    message: None,
                    details: None,
                    abi: Some(resolved.raw),
                },
            },
            Err(failure) => decode_refusal(
                HttpStatus::InternalServerError,
                "Error al decodificar los datos de llamada"@,
                Some(decode_failure_text(failure)),
            ),
        },
    }
}

/// The call of a request to assess, or the answer that ends the request,
/// once the interface is resolved or is not.
pub open spec fn analysis_decoding(
    call_data: Seq<char>,
    resolution: Result<ResolutionView, ResolveFailure>,
) -> Result<CallView, AnalysisReplyView> {
    match resolution {
        Err(failure) => Err(
            analysis_refusal(
                HttpStatus::InternalServerError,
                None,
                "Error al obtener o cargar el ABI"@,
                Some(resolve_failure_text(failure)),
            ),
        ),
        Ok(resolved) => match text_outcome(resolved.interface, call_data) {
            Ok(call) => Ok(call),
            Err(failure) => Err(
                analysis_refusal(
                    HttpStatus::InternalServerError,
                    None,
                    "Error al decodificar los datos de llamada"@,
                    Some(decode_failure_text(failure)),
                ),
            ),
        },
    }
}

/// The place of the choices in a reply of the reasoning service.
pub open spec fn choices_pointer() -> Seq<char> {
    "/choices"@
}

/// The place of the assistant's words in a reply of the reasoning service.
pub open spec fn content_pointer() -> Seq<char> {
    "/choices/0/message/content"@
}

/// The assistant's words in a reply of the reasoning service: the string
/// `content` of the object `message` of the first item of the array
/// `choices`, or nothing where there is no such string.
pub open spec fn reply_content(body: Seq<char>) -> Seq<char> {
    match json_text_at(body, content_pointer()) {
        JsonText::Text(words) if json_array_at(body, choices_pointer()) => words,
        _ => Seq::<char>::empty(),
    }
}

/// The answer to a request to assess, once the reasoning service was asked.
pub open spec fn analysis_conclusion(
    call: CallView,
    risk_level_prefix: Seq<char>,
    explanation_prefix: Seq<char>,
    outcome: ServiceOutcomeView,
) -> AnalysisReplyView {
    match outcome {
        ServiceOutcomeView::Unreachable(e) => analysis_refusal(
            HttpStatus::InternalServerError,
            Some(call),
            "Error al llamar a la API de DeepSeek"@,
            Some(e),
        ),
        ServiceOutcomeView::TimedOut => analysis_refusal(
            HttpStatus::InternalServerError,
            Some(call),
            "La API de DeepSeek no respondió a tiempo"@,
            None,
        ),
        ServiceOutcomeView::Unreadable(e) => analysis_refusal(
            HttpStatus::InternalServerError,
            Some(call),
            "Error al parsear la respuesta JSON de DeepSeek"@,
            Some(e),
        ),
        ServiceOutcomeView::Replied { success, status, body } => match json_text_at(
            body,
            content_pointer(),
        ) {
            JsonText::NotJson(reason) => analysis_refusal(
                HttpStatus::InternalServerError,
                Some(call),
                "Error al parsear la respuesta JSON de DeepSeek"@,
                Some(reason),
            ),
            _ => if success {
                let content = reply_content(body);
                AnalysisReplyView {
                    status: HttpStatus::Success,
                    body: AnalysisResponseView {
                        status: "success"@,
                        function_name: Some(call.name),
                        arguments: Some(call_texts(call)),
                        risk_level: risk_level_of(content, risk_level_prefix),
                        explanation: explanation_of(content, explanation_prefix),
                        message: Some("Análisis de riesgo completado"@),
                        details: None,
                    },
                }
            } else {
                analysis_refusal(
                    HttpStatus::InternalServerError,
                    Some(call),
                    "Error en la API de DeepSeek (HTTP status: "@ + status + ")"@,
                    Some(body),
                )
            },
        },
    }
}

/// Makes an answer of the service that decodes which reports a failure.
fn refuse_decode(status: HttpStatus, message: String, details: Option<String>) -> (r: DecodeReply)
    ensures
        r@ == decode_refusal(status, message@, option_text(details)),
{
    DecodeReply {
        status,
        body: DecodeResponse {
            status: String::from_str("error"),
            function_name: None,
            arguments: None,
            message: Some(message),
            details,
            abi: None,
        },
    }
}

/// The view of an optional call.
pub open spec fn option_call(call: Option<&DecodedCall>) -> Option<CallView> {
    match call {
        Some(c) => Some(c@),
        None => None,
    }
}

/// The texts of the arguments of a call are the texts of their views.
proof fn lemma_call_texts(call: &DecodedCall)
    ensures
        argument_texts(call.arguments@) == call_texts(call@),
{
    assert(argument_texts(call.arguments@) =~= call_texts(call@));
}

/// Makes an answer of the service that assesses which reports a failure.
fn refuse_analysis(
    status: HttpStatus,
    call: Option<&DecodedCall>,
    message: String,
    details: Option<String>,
) -> (r: AnalysisReply)
    ensures
        r@ == analysis_refusal(status, option_call(call), message@, option_text(details)),
{
    let (function_name, arguments) = match call {
        Some(c) => {
            proof {
                lemma_call_texts(c);
            }
            (Some(c.name.clone()), Some(arguments_of(c)))
        },
        None => (None, None),
    };
    AnalysisReply {
        status,
        body: AnalysisResponse {
            status: String::from_str("error"),
            function_name,
            arguments,
            risk_level: None,
            explanation: None,
            message: Some(message),
            details,
        },
    }
}

/// Says that a text holds no address.
fn invalid_address_message(reason: &str) -> (r: String)
    ensures
        r@ == "Dirección de contrato inválida: "@ + reason@,
{
    let mut message = String::from_str("Dirección de contrato inválida: ");
    message.append(reason);
    message
}

/// The first step of a request to decode: reads the address of the contract.
/// A text that holds no address ends the request with `BadRequest`.
pub fn decode_admit(request: &DecodeRequest) -> (r: Result<Address, DecodeReply>)
    ensures
        match r {
            Ok(address) => is_address_text(request.contract_address@) && address@ == hex_bytes(
                address_digits(request.contract_address@),
            ),
            Err(reply) => !is_address_text(request.contract_address@) && reply@ == decode_refusal(
                HttpStatus::BadRequest,
                invalid_address_text(request.contract_address@),
                None,
            ),
        },
{
    match Address::parse(request.contract_address.as_str()) {
        Ok(address) => Ok(address),
        Err(e) => Err(
            refuse_decode(
                HttpStatus::BadRequest,
                invalid_address_message(e.reason.as_str()),
                None,
            ),
        ),
    }
}

/// The last step of a request to decode: decodes the call data against the
/// resolved interface and makes the answer.
pub fn decode_conclude(request: &DecodeRequest, resolution: Result<Resolution, ResolveError>) -> (r:
    DecodeReply)
    ensures
        r@ == decode_conclusion(request.call_data@, resolution_view(resolution)),
{
    match resolution {
        Err(e) => refuse_decode(
            HttpStatus::InternalServerError,
            String::from_str("Error al obtener o cargar el ABI"),
            Some(e.message()),
        ),
        Ok(resolved) => match decode_function_call(
            &resolved.interface,
            request.call_data.as_str(),
        ) {
            Ok(call) => {
                proof {
                    lemma_call_texts(&call);
                }
                let arguments = arguments_of(&call);
                DecodeReply {
                    status: HttpStatus::Success,
                    body: DecodeResponse {
                        status: String::from_str("success"),
                        function_name: Some(call.name),
                        arguments: Some(arguments),
                        message: None,
                        details: None,
                        abi: Some(resolved.raw),
                    },
                }
            },
            Err(e) => refuse_decode(
                HttpStatus::InternalServerError,
                String::from_str("Error al decodificar los datos de llamada"),
                Some(e.message()),
            ),
        },
    }
}

/// The first step of a request to assess: tests that there is a key for the
/// reasoning service, and reads the address of the contract. Without a key
/// the request ends with `InternalServerError`, and a text that holds no
/// address ends it with `BadRequest`.
pub fn analysis_admit(request: &AnalysisRequest, api_key: &Option<String>) -> (r: Result<
    Address,
    AnalysisReply,
>)
    ensures
        match r {
            Ok(address) => api_key is Some && is_address_text(request.contract_address@)
                && address@ == hex_bytes(address_digits(request.contract_address@)),
            Err(reply) => if api_key is None {
                reply@ == analysis_refusal(
                    HttpStatus::InternalServerError,
                    None,
                    "DEEPSEEK_API_KEY no configurada"@,
                    Some(
                        "Asegúrate de configurar la variable de entorno DEEPSEEK_API_KEY en tu archivo .env"@,
                    ),
                )
            } else {
                !is_address_text(request.contract_address@) && reply@ == analysis_refusal(
                    HttpStatus::BadRequest,
                    None,
                    invalid_address_text(request.contract_address@),
                    None,
                )
            },
        },
{
    if api_key.is_none() {
        return Err(
            refuse_analysis(
                HttpStatus::InternalServerError,
                None,
                String::from_str("DEEPSEEK_API_KEY no configurada"),
                Some(
                    String::from_str(
                        "Asegúrate de configurar la variable de entorno DEEPSEEK_API_KEY en tu archivo .env",
                    ),
                ),
            ),
        );
    }
    match Address::parse(request.contract_address.as_str()) {
        Ok(address) => Ok(address),
        Err(e) => Err(
            refuse_analysis(
                HttpStatus::BadRequest,
                None,
                invalid_address_message(e.reason.as_str()),
                None,
            ),
        ),
    }
}

/// The result of the second step of a request to assess, as a mathematical
/// value.
pub open spec fn decoding_view(r: Result<DecodedCall, AnalysisReply>) -> Result<
    CallView,
    AnalysisReplyView,
> {
    match r {
        Ok(call) => Ok(call@),
        Err(reply) => Err(reply@),
    }
}

/// The second step of a request to assess: decodes the call data against the
/// resolved interface.
pub fn analysis_decode(
    request: &AnalysisRequest,
    resolution: Result<Resolution, ResolveError>,
) -> (r: Result<DecodedCall, AnalysisReply>)
    ensures
        decoding_view(r) == analysis_decoding(request.call_data@, resolution_view(resolution)),
{
    match resolution {
        Err(e) => Err(
            refuse_analysis(
                HttpStatus::InternalServerError,
                None,
                String::from_str("Error al obtener o cargar el ABI"),
                Some(e.message()),
            ),
        ),
        Ok(resolved) => match decode_function_call(
            &resolved.interface,
            request.call_data.as_str(),
        ) {
            Ok(call) => Ok(call),
            Err(e) => Err(
                refuse_analysis(
                    HttpStatus::InternalServerError,
                    None,
                    String::from_str("Error al decodificar los datos de llamada"),
                    Some(e.message()),
                ),
            ),
        },
    }
}

/// The third step of a request to assess: makes the request to the reasoning
/// service from the configuration, or ends the request where the
/// configuration could not be read, for the reason given.
pub fn analysis_ask(
    request: &AnalysisRequest,
    api_key: &str,
    call: &DecodedCall,
    config: &Result<PromptConfig, String>,
) -> (r: Result<ReasoningRequest, AnalysisReply>)
    ensures
        match (r, config) {
            (Ok(asked), Ok(c)) => asked@ == reasoning_request(
                c,
                api_key@,
                request.contract_address@,
                call@.name,
                call_texts(call@),
            ),
            (Err(reply), Err(reason)) => reply@ == analysis_refusal(
                HttpStatus::InternalServerError,
                Some(call@),
                "Error al cargar la configuración del prompt"@,
                Some(reason@),
            ),
            _ => false,
        },
{
    match config {
        Ok(c) => {
            proof {
                lemma_call_texts(call);
            }
            let arguments = arguments_of(call);
            Ok(
                build_request(
                    c,
                    api_key,
                    request.contract_address.as_str(),
                    call.name.as_str(),
                    &arguments,
                ),
            )
        },
        Err(reason) => Err(
            refuse_analysis(
                HttpStatus::InternalServerError,
                Some(call),
                String::from_str("Error al cargar la configuración del prompt"),
                Some(reason.clone()),
            ),
        ),
    }
}

/// Says that the reasoning service replied with a status of failure.
fn service_failure_message(status: &str) -> (r: String)
    ensures
        r@ == "Error en la API de DeepSeek (HTTP status: "@ + status@ + ")"@,
{
    let mut message = String::from_str("Error en la API de DeepSeek (HTTP status: ");
    message.append(status);
    message.append(")");
    message
}

/// The last step of a request to assess: reads the assistant's words out of
/// the reply of the reasoning service, and the risk level and the
/// explanation out of these words, and makes the answer.
pub fn analysis_conclude(call: &DecodedCall, format: &ResponseFormat, outcome: ServiceOutcome) -> (r:
    AnalysisReply)
    ensures
        r@ == analysis_conclusion(
            call@,
            format.risk_level_prefix@,
            format.explanation_prefix@,
            outcome@,
        ),
{
    match outcome {
        ServiceOutcome::Unreachable(e) => refuse_analysis(
            HttpStatus::InternalServerError,
            Some(call),
            String::from_str("Error al llamar a la API de DeepSeek"),
            Some(e),
        ),
        ServiceOutcome::TimedOut => refuse_analysis(
            HttpStatus::InternalServerError,
            Some(call),
            String::from_str("La API de DeepSeek no respondió a tiempo"),
            None,
        ),
        ServiceOutcome::Unreadable(e) => refuse_analysis(
            HttpStatus::InternalServerError,
            Some(call),
            String::from_str("Error al parsear la respuesta JSON de DeepSeek"),
            Some(e),
        ),
        ServiceOutcome::Replied { success, status, body } => {
            match text_at(body.as_str(), "/choices/0/message/content") {
                Err(reason) => refuse_analysis(
                    HttpStatus::InternalServerError,
                    Some(call),
                    String::from_str("Error al parsear la respuesta JSON de DeepSeek"),
                    Some(reason),
                ),
                Ok(found) => {
                    if success {
                        let content = match found {
                            Some(words) => if array_at(body.as_str(), "/choices") {
                                words
                            } else {
                                String::new()
                            },
                            None => String::new(),
                        };
                        let fields = extract(content.as_str(), format);
                        proof {
                            lemma_call_texts(call);
                        }
                        AnalysisReply {
                            status: HttpStatus::Success,
                            body: AnalysisResponse {
                                status: String::from_str("success"),
                                function_name: Some(call.name.clone()),
                                arguments: Some(arguments_of(call)),
                                risk_level: fields.risk_level,
                                explanation: fields.explanation,
                                message: Some(String::from_str("Análisis de riesgo completado")),
                                details: None,
                            },
                        }
                    } else {
                        refuse_analysis(
                            HttpStatus::InternalServerError,
                            Some(call),
                            service_failure_message(status.as_str()),
                            Some(body),
                        )
                    }
                },
            }
        },
    }
}

} // verus!
