//! Matches call data against an interface and decodes its arguments.
//!
//! Call data is a selector of four bytes followed by the encoded arguments.
//! The functions of the interface are tried in order. One whose selector is
//! that of the call data, and by whose parameter types the rest decodes, gives
//! the result, and the search ends there. One whose selector matches but by
//! whose types the rest does not decode is passed over, as two functions may
//! share a selector.

use crate::hexcode::{
    from_marked_hex, hex_bytes, hex_refusal, is_hex_text, marked_hex_text, to_marked_hex,
    without_marker,
};
use crate::interface::{
    abi_selector, lemma_bounded_nests, nests_within, to_outside, FunctionSignature, FunctionView,
    InterfaceDefinition, KindView, MAX_DEPTH,
};
use crate::text::{least_index, lemma_least_index, lemma_least_index_skip};
use ethabi::ParamType;
use vstd::prelude::*;
use vstd::slice::slice_subrange;

verus! {

#[verifier::external_type_specification]
#[verifier::external_body]
pub struct ExToken(ethabi::Token);

/// A decoded argument: its value, and the value written out.
#[derive(Debug, PartialEq)]
pub struct Argument {
    pub token: ethabi::Token,
    pub text: String,
}

/// An argument as a mathematical value.
pub struct ArgumentView {
    pub token: ethabi::Token,
    pub text: Seq<char>,
}

impl View for Argument {
    type V = ArgumentView;

    open spec fn view(&self) -> ArgumentView {
        ArgumentView { token: self.token, text: self.text@ }
    }
}

/// The arguments of a list as mathematical values.
pub open spec fn argument_views(arguments: Seq<Argument>) -> Seq<ArgumentView> {
    arguments.map_values(|a: Argument| a@)
}

/// A call: the name of the function and its arguments in the order of the
/// function's parameters.
#[derive(Debug, PartialEq)]
pub struct DecodedCall {
    pub name: String,
    pub arguments: Vec<Argument>,
}

/// A call as a mathematical value.
pub struct CallView {
    pub name: Seq<char>,
    pub arguments: Seq<ArgumentView>,
}

impl View for DecodedCall {
    type V = CallView;

    open spec fn view(&self) -> CallView {
        CallView { name: self.name@, arguments: argument_views(self.arguments@) }
    }
}

/// Why call data was not decoded.
#[derive(Debug, Clone, PartialEq, Eq)]
pub enum DecodeError {
    /// The call data is not an even number of hexadecimal digits. Holds what
    /// the reader of hexadecimal text said of it.
    MalformedCallData(String),
    /// The call data has fewer than four bytes.
    CallDataTooShort,
    /// No function of the interface takes the call data. Holds the selector
    /// of the call data as hexadecimal text after the marker `0x`.
    SelectorNotFound(String),
}

/// A failure as a mathematical value.
pub enum DecodeFailure {
    MalformedCallData(Seq<char>),
    CallDataTooShort,
    SelectorNotFound(Seq<char>),
}

impl View for DecodeError {
    type V = DecodeFailure;

    open spec fn view(&self) -> DecodeFailure {
        match self {
            DecodeError::MalformedCallData(reason) => DecodeFailure::MalformedCallData(reason@),
            DecodeError::CallDataTooShort => DecodeFailure::CallDataTooShort,
            DecodeError::SelectorNotFound(selector) => DecodeFailure::SelectorNotFound(selector@),
        }
    }
}

/// What is said of a failure.
pub open spec fn decode_failure_text(failure: DecodeFailure) -> Seq<char> {
    match failure {
        DecodeFailure::MalformedCallData(reason) => reason,
        DecodeFailure::CallDataTooShort => "Datos de llamada muy cortos"@,
        DecodeFailure::SelectorNotFound(selector) =>
            "No se encontró función coincidente para el selector: "@ + selector,
    }
}

impl DecodeError {
    /// Says what went wrong.
    pub fn message(&self) -> (r: String)
        ensures
            r@ == decode_failure_text(self@),
    {
        match self {
            DecodeError::MalformedCallData(reason) => reason.clone(),
            DecodeError::CallDataTooShort => String::from_str("Datos de llamada muy cortos"),
            DecodeError::SelectorNotFound(selector) => {
                let mut text = String::from_str(
                    "No se encontró función coincidente para el selector: ",
                );
                text.append(selector.as_str());
                text
            },
        }
    }
}

/// The result of a decoding as a mathematical value.
pub open spec fn outcome_view(r: Result<DecodedCall, DecodeError>) -> Result<
    CallView,
    DecodeFailure,
> {
    match r {
        Ok(call) => Ok(call@),
        Err(e) => Err(e@),
    }
}

/// The arguments that `data` decodes to by the parameter types `kinds`, each
/// with its value written out. There are none where the data is not an
/// encoding by these types.
pub uninterp spec fn abi_arguments(kinds: Seq<KindView>, data: Seq<u8>) -> Option<
    Seq<ArgumentView>,
>;

/// Whether a machine word holds every offset that call data can name.
pub open spec fn offsets_fit() -> bool {
    usize::BITS == 64
}

/// Calls `ethabi::decode` on the parameter types and the data, and writes
/// each token out by its `Debug`. The result is named, not stated:
/// `abi_arguments`. The decoder tests every position against the length of
/// the data before it reads there. It adds to a position a length of less
/// than 2^32 from the data or of at most 32 from a type, which a word of 64
/// bits holds. It reads an array item by item, and every item takes up room
/// in the data, so that the data bounds the number of items. Its work is
/// bounded by the length of the data to the power of the depth to which the
/// types nest arrays. It gives one token for every type.
#[verifier::external_body]
fn decode_arguments(signature: &FunctionSignature, data: &[u8]) -> (r: Option<Vec<Argument>>)
    requires
        signature@.has_bounded_kinds(),
        offsets_fit(),
    ensures
        match r {
            Some(arguments) => abi_arguments(signature@.kinds(), data@) == Some(
                argument_views(arguments@),
            ),
            None => abi_arguments(signature@.kinds(), data@) is None,
        },
        r matches Some(arguments) ==> arguments@.len() == signature@.inputs.len(),
{
    let kinds: Vec<ParamType> = signature.inputs.iter().map(|p| to_outside(&p.kind)).collect();
    let tokens = ethabi::decode(&kinds, data).ok()?;
    Some(tokens.into_iter().map(|t| Argument { text: format!("{:?}", t), token: t }).collect())
}

/// Whether the function `f` takes the call data `data`: its selector is the
/// first four bytes, and the rest decodes by its parameter types.
pub open spec fn accepts(f: FunctionView, data: Seq<u8>) -> bool {
    &&& data.len() >= 4
    &&& offsets_fit()
    &&& f.has_bounded_kinds()
    &&& abi_selector(f.name, f.kinds()) == data.take(4)
    &&& abi_arguments(f.kinds(), data.skip(4)) is Some
}

/// `accepts` as a predicate on the positions of an interface.
pub open spec fn accepting_in(functions: Seq<FunctionView>, data: Seq<u8>) -> spec_fn(int) -> bool {
    |i: int| 0 <= i < functions.len() && accepts(functions[i], data)
}

/// The position of the first function that takes the call data.
pub open spec fn first_accepting(functions: Seq<FunctionView>, data: Seq<u8>) -> Option<int> {
    let i = least_index(accepting_in(functions, data), 0, functions.len() as int);
    if i < functions.len() {
        Some(i)
    } else {
        None
    }
}

/// What decoding the call data `data` against an interface gives.
pub open spec fn call_outcome(functions: Seq<FunctionView>, data: Seq<u8>) -> Result<
    CallView,
    DecodeFailure,
> {
    if data.len() < 4 {
        Err(DecodeFailure::CallDataTooShort)
    } else {
        match first_accepting(functions, data) {
            Some(i) => Ok(
                CallView {
                    name: functions[i].name,
                    arguments: abi_arguments(functions[i].kinds(), data.skip(4))->0,
                },
            ),
            None => Err(DecodeFailure::SelectorNotFound(marked_hex_text(data.take(4)))),
        }
    }
}

/// What decoding call data given as hexadecimal text gives.
pub open spec fn text_outcome(functions: Seq<FunctionView>, text: Seq<char>) -> Result<
    CallView,
    DecodeFailure,
> {
    if is_hex_text(without_marker(text)) {
        call_outcome(functions, hex_bytes(without_marker(text)))
    } else {
        Err(DecodeFailure::MalformedCallData(hex_refusal(without_marker(text))))
    }
}

/// Tests whether a selector is the first four bytes of `data`.
fn selector_matches(selector: &[u8; 4], data: &[u8]) -> (r: bool)
    requires
        data@.len() >= 4,
    ensures
        r == (selector@ == data@.take(4)),
{
    let r = selector[0] == data[0] && selector[1] == data[1] && selector[2] == data[2]
        && selector[3] == data[3];
    proof {
        if r {
            assert(selector@ =~= data@.take(4));
        }
    }
    r
}

/// Tries one function on the call data.
fn try_function(f: &FunctionSignature, data: &[u8]) -> (r: Option<Vec<Argument>>)
    requires
        data@.len() >= 4,
    ensures
        r is Some <==> accepts(f@, data@),
        r matches Some(arguments) ==> abi_arguments(f@.kinds(), data@.skip(4)) == Some(
            argument_views(arguments@),
        ),
        r matches Some(arguments) ==> arguments@.len() == f@.inputs.len(),
{
    if usize::BITS != 64 || !f.check_bounded_kinds() {
        return None;
    }
    proof {
        assert forall|i: int| 0 <= i < f@.inputs.len() implies nests_within(
            (#[trigger] f@.inputs[i]).kind,
            MAX_DEPTH as nat,
        ) by {
            lemma_bounded_nests(f@.inputs[i].kind, MAX_DEPTH as nat);
        }
    }
    match f.selector() {
        Some(selector) => {
            if selector_matches(&selector, data) {
                let payload = slice_subrange(data, 4, data.len());
                decode_arguments(f, payload)
            } else {
                None
            }
        },
        None => None,
    }
}

/// Decodes call data against an interface.
///
/// Fails with `CallDataTooShort` on fewer than four bytes, whatever the
/// interface holds. Else the first function that takes the call data gives
/// the name and the arguments. If none does, fails with `SelectorNotFound`,
/// which holds the first four bytes as hexadecimal text.
pub fn decode_call_bytes(interface: &InterfaceDefinition, data: &[u8]) -> (r: Result<
    DecodedCall,
    DecodeError,
>)
    ensures
        outcome_view(r) == call_outcome(interface@, data@),
        r matches Ok(call) ==> call.arguments@.len() == interface@[first_accepting(
            interface@,
            data@,
        )->0].inputs.len(),
{
    if data.len() < 4 {
        return Err(DecodeError::CallDataTooShort);
    }
    let ghost taking = accepting_in(interface@, data@);
    let n = interface.functions.len();
    let mut i: usize = 0;
    while i < n
        invariant
            i <= n,
            n == interface.functions@.len(),
            n == interface@.len(),
            data@.len() >= 4,
            taking == accepting_in(interface@, data@),
            forall|k: int| 0 <= k < i ==> !#[trigger] taking(k),
        decreases n - i,
    {
        let f = &interface.functions[i];
        match try_function(f, data) {
            Some(arguments) => {
                proof {
                    lemma_least_index_skip(taking, 0, i as int, n as int);
                }
                return Ok(DecodedCall { name: f.name.clone(), arguments });
            },
            None => {},
        }
        i += 1;
    }
    proof {
        lemma_least_index_skip(taking, 0, n as int, n as int);
    }
    let selector = slice_subrange(data, 0, 4);
    Err(DecodeError::SelectorNotFound(to_marked_hex(selector)))
}

/// Decodes call data given as hexadecimal text, with or without the marker
/// `0x` before it, against an interface.
///
/// Fails with `MalformedCallData`, and with what the reader of hexadecimal
/// text said, unless the text is an even number of hexadecimal digits. Else decodes the bytes as `decode_call_bytes` does.
pub fn decode_function_call(interface: &InterfaceDefinition, call_data: &str) -> (r: Result<
    DecodedCall,
    DecodeError,
>)
    ensures
        outcome_view(r) == text_outcome(interface@, call_data@),
        r matches Ok(call) ==> call.arguments@.len() == interface@[first_accepting(
            interface@,
            hex_bytes(without_marker(call_data@)),
        )->0].inputs.len(),
{
    match from_marked_hex(call_data) {
        Ok(bytes) => decode_call_bytes(interface, bytes.as_slice()),
        Err(reason) => Err(DecodeError::MalformedCallData(reason)),
    }
}

/// Call data made of the selector of a function and of data that decodes by
/// its parameter types to some arguments, as an encoding of these arguments
/// does, decodes to the name of that function and to these arguments,
/// provided that no function before it in the interface takes the call data.
pub proof fn lemma_decodes_what_was_encoded(
    functions: Seq<FunctionView>,
    i: int,
    selector: Seq<u8>,
    payload: Seq<u8>,
    arguments: Seq<ArgumentView>,
)
    requires
        0 <= i < functions.len(),
        offsets_fit(),
        functions[i].has_bounded_kinds(),
        abi_selector(functions[i].name, functions[i].kinds()) == selector,
        selector.len() == 4,
        abi_arguments(functions[i].kinds(), payload) == Some(arguments),
        forall|k: int| 0 <= k < i ==> !accepts(#[trigger] functions[k], selector + payload),
    ensures
        call_outcome(functions, selector + payload) == Ok::<CallView, DecodeFailure>(
            CallView { name: functions[i].name, arguments },
        ),
{
    let data = selector + payload;
    assert(data.take(4) =~= selector);
    assert(data.skip(4) =~= payload);
    let taking = accepting_in(functions, data);
    assert forall|k: int| 0 <= k < i implies !#[trigger] taking(k) by {
        assert(!accepts(functions[k], data));
    }
    lemma_least_index_skip(taking, 0, i, functions.len() as int);
}

/// Call data whose first four bytes are the selector of no function of the
/// interface is not found, and the failure holds these four bytes as
/// hexadecimal text.
pub proof fn lemma_unknown_selector_is_not_found(functions: Seq<FunctionView>, data: Seq<u8>)
    requires
        data.len() >= 4,
        forall|k: int|
            0 <= k < functions.len() ==> abi_selector(
                (#[trigger] functions[k]).name,
                functions[k].kinds(),
            ) != data.take(4),
    ensures
        call_outcome(functions, data) == Err::<CallView, DecodeFailure>(
            DecodeFailure::SelectorNotFound(marked_hex_text(data.take(4))),
        ),
{
    let taking = accepting_in(functions, data);
    lemma_least_index(taking, 0, functions.len() as int);
}

/// Against an interface of one function, call data that begins with the
/// selector of that function and goes on with data that decodes by its
/// parameter types gives the function and what the data decodes to, and call
/// data that begins with any other four bytes is not found.
pub proof fn lemma_one_function(f: FunctionView, data: Seq<u8>)
    requires
        data.len() >= 4,
        offsets_fit(),
        f.has_bounded_kinds(),
    ensures
        abi_selector(f.name, f.kinds()) == data.take(4) ==> call_outcome(seq![f], data) == (
        match abi_arguments(f.kinds(), data.skip(4)) {
            Some(arguments) => Ok::<CallView, DecodeFailure>(CallView { name: f.name, arguments }),
            None => Err::<CallView, DecodeFailure>(
                DecodeFailure::SelectorNotFound(marked_hex_text(data.take(4))),
            ),
        }),
        abi_selector(f.name, f.kinds()) != data.take(4) ==> call_outcome(seq![f], data) == Err::<
            CallView,
            DecodeFailure,
        >(DecodeFailure::SelectorNotFound(marked_hex_text(data.take(4)))),
{
    reveal_with_fuel(least_index, 2);
}

/// Call data of fewer than four bytes is too short, whatever the interface
/// holds.
pub proof fn lemma_short_call_data_is_refused(functions: Seq<FunctionView>, data: Seq<u8>)
    requires
        data.len() < 4,
    ensures
        call_outcome(functions, data) == Err::<CallView, DecodeFailure>(
            DecodeFailure::CallDataTooShort,
        ),
{
}

} // verus!
