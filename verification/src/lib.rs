//! Interprets contract call data: resolves a contract's interface, matches the
//! leading selector against its functions, decodes the arguments, and reads
//! the fields of a free-text risk assessment.
//!
//! The library does no input or output. What has to be read, asked or
//! written is handed out as an action and taken back as an event, so that
//! every decision is made here and only the transport is left to the caller.

use crate::prompt::texts;
use crate::text::option_text;
use vstd::prelude::*;

pub mod address;
pub mod decode;
pub mod extract;
pub mod handlers;
pub mod hexcode;
pub mod interface;
pub mod json;
pub mod plain;
pub mod prompt;
pub mod registry;
pub mod resolver;
pub mod text;

verus! {

/// How the reasoning service is to be asked and how its reply is laid out.
#[derive(Debug, Clone, PartialEq, Eq)]
pub struct PromptConfig {
    pub system_message: String,
    pub user_prompt_template: String,
    pub response_format: ResponseFormat,
    pub model_settings: ModelSettings,
}

/// The markers that introduce the fields of a reply.
#[derive(Debug, Clone, PartialEq, Eq)]
pub struct ResponseFormat {
    pub risk_level_prefix: String,
    pub explanation_prefix: String,
}

/// The model to ask, and whether its reply is streamed.
#[derive(Debug, Clone, PartialEq, Eq)]
pub struct ModelSettings {
    pub model: String,
    pub stream: bool,
}

/// A request to decode call data.
#[derive(Debug, Clone, PartialEq, Eq)]
pub struct DecodeRequest {
    pub contract_address: String,
    pub call_data: String,
}

/// The answer to a request to decode call data.
#[derive(Debug, Clone, PartialEq, Eq)]
pub struct DecodeResponse {
    /// `success` or `error`.
    pub status: String,
    pub function_name: Option<String>,
    /// The arguments, each written out.
    pub arguments: Option<Vec<String>>,
    pub message: Option<String>,
    pub details: Option<String>,
    /// The text of the contract's interface.
    pub abi: Option<String>,
}

/// A request to assess the risk of a call.
#[derive(Debug, Clone, PartialEq, Eq)]
pub struct AnalysisRequest {
    pub contract_address: String,
    pub call_data: String,
}

/// The answer to a request to assess the risk of a call.
#[derive(Debug, Clone, PartialEq, Eq)]
pub struct AnalysisResponse {
    /// `success` or `error`.
    pub status: String,
    pub function_name: Option<String>,
    /// The arguments, each written out.
    pub arguments: Option<Vec<String>>,
    pub risk_level: Option<String>,
    pub explanation: Option<String>,
    pub message: Option<String>,
    pub details: Option<String>,
}

/// The texts of an optional list of strings.
pub open spec fn option_texts(o: Option<Vec<String>>) -> Option<Seq<Seq<char>>> {
    match o {
        Some(list) => Some(texts(list@)),
        None => None,
    }
}

/// The answer to a request to decode, as a mathematical value.
pub struct DecodeResponseView {
    pub status: Seq<char>,
    pub function_name: Option<Seq<char>>,
    pub arguments: Option<Seq<Seq<char>>>,
    pub message: Option<Seq<char>>,
    pub details: Option<Seq<char>>,
    pub abi: Option<Seq<char>>,
}

impl View for DecodeResponse {
    type V = DecodeResponseView;

    open spec fn view(&self) -> DecodeResponseView {
        DecodeResponseView {
            status: self.status@,
            function_name: option_text(self.function_name),
            arguments: option_texts(self.arguments),
            message: option_text(self.message),
            details: option_text(self.details),
            abi: option_text(self.abi),
        }
    }
}

/// The answer to a request to assess, as a mathematical value.
pub struct AnalysisResponseView {
    pub status: Seq<char>,
    pub function_name: Option<Seq<char>>,
    pub arguments: Option<Seq<Seq<char>>>,
    pub risk_level: Option<Seq<char>>,
    pub explanation: Option<Seq<char>>,
    pub message: Option<Seq<char>>,
    pub details: Option<Seq<char>>,
}

impl View for AnalysisResponse {
    type V = AnalysisResponseView;

    open spec fn view(&self) -> AnalysisResponseView {
        AnalysisResponseView {
            status: self.status@,
            function_name: option_text(self.function_name),
            arguments: option_texts(self.arguments),
            risk_level: option_text(self.risk_level),
            explanation: option_text(self.explanation),
            message: option_text(self.message),
            details: option_text(self.details),
        }
    }
}

} // verus!
