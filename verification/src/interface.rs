//! The interface of a contract: its functions, each with a name and the
//! names and types of its parameters.
//!
//! The selector of a function is the first four bytes of the Keccak-256 hash
//! of its canonical signature, the name followed by the parameter types in
//! parentheses. It is derived from the signature each time it is asked for
//! and never stored apart from it.
//!
//! Overloads share a name and differ in their parameter types. The functions
//! of an interface stand in the order in which they are searched: by name,
//! and under one name in the order of their declaration.

use crate::json::{json_rewritten, rewritten};
use crate::plain::{check_plain_interface_text, is_plain_interface_text};
use ethabi::ParamType;
use vstd::prelude::*;

verus! {

#[verifier::external_type_specification]
#[verifier::external_body]
pub struct ExAbiError(ethabi::Error);

#[verifier::external_type_specification]
#[verifier::external_body]
pub struct ExParamType(ethabi::ParamType);

/// The type of a parameter.
#[derive(Debug, PartialEq, Eq)]
pub enum ParamKind {
    Address,
    /// Bytes, as many as the value has.
    Bytes,
    /// A signed integer of this many bits.
    Int(usize),
    /// An unsigned integer of this many bits.
    Uint(usize),
    Bool,
    /// Text.
    Str,
    /// Items of one type, as many as the value has.
    Array(Box<ParamKind>),
    /// This many bytes.
    FixedBytes(usize),
    /// This many items of one type.
    FixedArray(Box<ParamKind>, usize),
    /// Items of these types, in this order.
    Tuple(Vec<ParamKind>),
}

/// The type of a parameter as a mathematical value.
pub enum KindView {
    Address,
    Bytes,
    Int(nat),
    Uint(nat),
    Bool,
    Str,
    Array(Box<KindView>),
    FixedBytes(nat),
    FixedArray(Box<KindView>, nat),
    Tuple(Seq<KindView>),
}

/// The type `kind` as a mathematical value.
pub open spec fn kind_view(kind: ParamKind) -> KindView
    decreases kind,
{
    match kind {
        ParamKind::Address => KindView::Address,
        ParamKind::Bytes => KindView::Bytes,
        ParamKind::Int(bits) => KindView::Int(bits as nat),
        ParamKind::Uint(bits) => KindView::Uint(bits as nat),
        ParamKind::Bool => KindView::Bool,
        ParamKind::Str => KindView::Str,
        ParamKind::Array(item) => KindView::Array(Box::new(kind_view(*item))),
        ParamKind::FixedBytes(count) => KindView::FixedBytes(count as nat),
        ParamKind::FixedArray(item, count) => KindView::FixedArray(
            Box::new(kind_view(*item)),
            count as nat,
        ),
        ParamKind::Tuple(items) => KindView::Tuple(
            Seq::new(
                items@.len(),
                |i: int|
                    if 0 <= i < items@.len() {
                        kind_view(items@[i])
                    } else {
                        KindView::Bool
                    },
            ),
        ),
    }
}

impl View for ParamKind {
    type V = KindView;

    open spec fn view(&self) -> KindView {
        kind_view(*self)
    }
}

/// Types nest no deeper than this.
pub const MAX_DEPTH: usize = 32;

/// Fixed bytes are no more than this.
pub const MAX_FIXED_BYTES: usize = 32;

/// Whether the encoding of a value of type `kind` takes up room: there is
/// at least one word of it to be read, found within `depth` levels.
pub open spec fn takes_room(kind: KindView, depth: nat) -> bool
    decreases depth,
{
    match kind {
        KindView::FixedArray(item, count) => depth > 0 && count >= 1 && takes_room(
            *item,
            (depth - 1) as nat,
        ),
        KindView::Tuple(items) => depth > 0 && exists|i: int|
            0 <= i < items.len() && takes_room(#[trigger] items[i], (depth - 1) as nat),
        _ => true,
    }
}

/// Whether a value of type `kind` is decoded in a number of steps that its
/// encoding bounds: the type nests no deeper than `depth`, its fixed bytes
/// are no more than `MAX_FIXED_BYTES`, and the items of its arrays take up
/// room.
pub open spec fn is_bounded(kind: KindView, depth: nat) -> bool
    decreases depth,
{
    match kind {
        KindView::FixedBytes(count) => count <= MAX_FIXED_BYTES,
        KindView::Array(item) => depth > 0 && takes_room(*item, (depth - 1) as nat) && is_bounded(
            *item,
            (depth - 1) as nat,
        ),
        KindView::FixedArray(item, _) => depth > 0 && takes_room(*item, (depth - 1) as nat)
            && is_bounded(*item, (depth - 1) as nat),
        KindView::Tuple(items) => depth > 0 && forall|i: int|
            0 <= i < items.len() ==> is_bounded(#[trigger] items[i], (depth - 1) as nat),
        _ => true,
    }
}

/// Tests whether the encoding of a value of type `kind` takes up room.
#[verifier::loop_isolation(false)]
pub fn check_takes_room(kind: &ParamKind, depth: usize) -> (r: bool)
    ensures
        r == takes_room(kind@, depth as nat),
    decreases depth,
{
    match kind {
        ParamKind::FixedArray(item, count) => depth > 0 && *count >= 1 && check_takes_room(
            item,
            depth - 1,
        ),
        ParamKind::Tuple(items) => {
            if depth == 0 {
                return false;
            }
            let ghost views = kind@->Tuple_0;
            let n = items.len();
            let mut i: usize = 0;
            while i < n
                invariant
                    i <= n,
                    n == items@.len(),
                    depth > 0,
                    forall|k: int| 0 <= k < i ==> !takes_room(#[trigger] views[k], (depth - 1) as nat),
                decreases n - i,
            {
                assert(views[i as int] == items@[i as int]@);
                if check_takes_room(&items[i], depth - 1) {
                    return true;
                }
                i += 1;
            }
            false
        },
        _ => true,
    }
}

/// Tests whether a value of type `kind` is decoded in a bounded number of
/// steps.
#[verifier::loop_isolation(false)]
pub fn check_bounded(kind: &ParamKind, depth: usize) -> (r: bool)
    ensures
        r == is_bounded(kind@, depth as nat),
    decreases depth,
{
    match kind {
        ParamKind::FixedBytes(count) => *count <= MAX_FIXED_BYTES,
        ParamKind::Array(item) => depth > 0 && check_takes_room(item, depth - 1) && check_bounded(
            item,
            depth - 1,
        ),
        ParamKind::FixedArray(item, _) => depth > 0 && check_takes_room(item, depth - 1)
            && check_bounded(item, depth - 1),
        ParamKind::Tuple(items) => {
            if depth == 0 {
                return false;
            }
            let ghost views = kind@->Tuple_0;
            let n = items.len();
            let mut i: usize = 0;
            while i < n
                invariant
                    i <= n,
                    n == items@.len(),
                    depth > 0,
                    forall|k: int| 0 <= k < i ==> is_bounded(#[trigger] views[k], (depth - 1) as nat),
                decreases n - i,
            {
                assert(views[i as int] == items@[i as int]@);
                if !check_bounded(&items[i], depth - 1) {
                    return false;
                }
                i += 1;
            }
            true
        },
        _ => true,
    }
}

/// Whether the type `kind` nests no deeper than `depth`.
pub open spec fn nests_within(kind: KindView, depth: nat) -> bool
    decreases depth,
{
    match kind {
        KindView::Array(item) => depth > 0 && nests_within(*item, (depth - 1) as nat),
        KindView::FixedArray(item, _) => depth > 0 && nests_within(*item, (depth - 1) as nat),
        KindView::Tuple(items) => depth > 0 && forall|i: int|
            0 <= i < items.len() ==> nests_within(#[trigger] items[i], (depth - 1) as nat),
        _ => true,
    }
}

/// A type that is bounded nests no deeper than its bound.
pub proof fn lemma_bounded_nests(kind: KindView, depth: nat)
    requires
        is_bounded(kind, depth),
    ensures
        nests_within(kind, depth),
    decreases depth,
{
    match kind {
        KindView::Array(item) => lemma_bounded_nests(*item, (depth - 1) as nat),
        KindView::FixedArray(item, _) => lemma_bounded_nests(*item, (depth - 1) as nat),
        KindView::Tuple(items) => {
            assert forall|i: int| 0 <= i < items.len() implies nests_within(
                #[trigger] items[i],
                (depth - 1) as nat,
            ) by {
                lemma_bounded_nests(items[i], (depth - 1) as nat);
            }
        },
        _ => {},
    }
}

/// Tests whether the type `kind` nests no deeper than `depth`.
#[verifier::loop_isolation(false)]
pub fn check_nests_within(kind: &ParamKind, depth: usize) -> (r: bool)
    ensures
        r == nests_within(kind@, depth as nat),
    decreases depth,
{
    match kind {
        ParamKind::Array(item) => depth > 0 && check_nests_within(item, depth - 1),
        ParamKind::FixedArray(item, _) => depth > 0 && check_nests_within(item, depth - 1),
        ParamKind::Tuple(items) => {
            if depth == 0 {
                return false;
            }
            let ghost views = kind@->Tuple_0;
            let n = items.len();
            let mut i: usize = 0;
            while i < n
                invariant
                    i <= n,
                    n == items@.len(),
                    depth > 0,
                    forall|k: int|
                        0 <= k < i ==> nests_within(#[trigger] views[k], (depth - 1) as nat),
                decreases n - i,
            {
                assert(views[i as int] == items@[i as int]@);
                if !check_nests_within(&items[i], depth - 1) {
                    return false;
                }
                i += 1;
            }
            true
        },
        _ => true,
    }
}

/// A parameter of a function.
#[derive(Debug, PartialEq, Eq)]
pub struct Param {
    pub name: String,
    pub kind: ParamKind,
}

/// A parameter as a mathematical value.
pub struct ParamView {
    pub name: Seq<char>,
    pub kind: KindView,
}

impl View for Param {
    type V = ParamView;

    open spec fn view(&self) -> ParamView {
        ParamView { name: self.name@, kind: self.kind@ }
    }
}

/// One function of an interface.
#[derive(Debug, PartialEq, Eq)]
pub struct FunctionSignature {
    pub name: String,
    pub inputs: Vec<Param>,
}

/// A function as a mathematical value.
pub struct FunctionView {
    pub name: Seq<char>,
    pub inputs: Seq<ParamView>,
}

impl FunctionView {
    /// The types of the parameters, in order.
    pub open spec fn kinds(self) -> Seq<KindView> {
        Seq::new(self.inputs.len(), |i: int| self.inputs[i].kind)
    }

    /// Whether every parameter type nests no deeper than `MAX_DEPTH`.
    pub open spec fn has_nested_kinds(self) -> bool {
        forall|i: int|
            0 <= i < self.inputs.len() ==> nests_within(
                (#[trigger] self.inputs[i]).kind,
                MAX_DEPTH as nat,
            )
    }

    /// Whether a value of every parameter type is decoded in a bounded
    /// number of steps.
    pub open spec fn has_bounded_kinds(self) -> bool {
        forall|i: int|
            0 <= i < self.inputs.len() ==> is_bounded(
                (#[trigger] self.inputs[i]).kind,
                MAX_DEPTH as nat,
            )
    }
}

impl View for FunctionSignature {
    type V = FunctionView;

    open spec fn view(&self) -> FunctionView {
        FunctionView { name: self.name@, inputs: self.inputs@.map_values(|p: Param| p@) }
    }
}

/// The functions of a contract, in the order in which they are searched.
#[derive(Debug, PartialEq, Eq)]
pub struct InterfaceDefinition {
    pub functions: Vec<FunctionSignature>,
}

impl View for InterfaceDefinition {
    type V = Seq<FunctionView>;

    open spec fn view(&self) -> Seq<FunctionView> {
        function_views(self.functions@)
    }
}

/// The functions of a list as mathematical values.
pub open spec fn function_views(functions: Seq<FunctionSignature>) -> Seq<FunctionView> {
    functions.map_values(|f: FunctionSignature| f@)
}

/// Why a text was not read as an interface.
#[derive(Clone, Copy, PartialEq, Eq, Structural, Debug)]
pub enum InterfaceError {
    /// The text holds a string that ends in a closing parenthesis or bracket
    /// and is not handed to the loader: it holds a character outside ASCII
    /// or a control character, is overlong, or has a closing bracket that
    /// closes none.
    Unsupported,
    /// The text is not JSON, or the loader refused it.
    Malformed,
}

/// The selector of the function with the given name and parameter types:
/// the first four bytes of the Keccak-256 hash of its canonical signature.
pub uninterp spec fn abi_selector(name: Seq<char>, kinds: Seq<KindView>) -> Seq<u8>;

/// The functions that the JSON text of an interface declares, by name and
/// under one name in the order of the text. There are none where the text is
/// not the JSON of an interface.
pub uninterp spec fn abi_interface(text: Seq<char>) -> Option<Seq<FunctionView>>;

/// The functions that a text declares: those that the loader finds in the
/// text as a writer of JSON writes it, if the text is JSON and what is
/// written is handed on.
pub open spec fn interface_of(text: Seq<char>) -> Option<Seq<FunctionView>> {
    match json_rewritten(text) {
        Some(written) => if is_plain_interface_text(written) {
            abi_interface(written)
        } else {
            None
        },
        None => None,
    }
}

/// Whether a text is JSON that is not handed to the loader.
pub open spec fn is_unsupported(text: Seq<char>) -> bool {
    json_rewritten(text) matches Some(written) && !is_plain_interface_text(written)
}

/// Writes a parameter type as the `ethabi::ParamType` of the same shape,
/// variant for variant. It belongs to the bodies that hand types to
/// `ethabi`; nothing is claimed of it by itself.
#[verifier::external_body]
pub(crate) fn to_outside(kind: &ParamKind) -> ParamType {
    match kind {
        ParamKind::Address => ParamType::Address,
        ParamKind::Bytes => ParamType::Bytes,
        ParamKind::Int(bits) => ParamType::Int(*bits),
        ParamKind::Uint(bits) => ParamType::Uint(*bits),
        ParamKind::Bool => ParamType::Bool,
        ParamKind::Str => ParamType::String,
        ParamKind::Array(item) => ParamType::Array(Box::new(to_outside(item))),
        ParamKind::FixedBytes(count) => ParamType::FixedBytes(*count),
        ParamKind::FixedArray(item, count) => ParamType::FixedArray(Box::new(to_outside(item)), *count),
        ParamKind::Tuple(items) => ParamType::Tuple(items.iter().map(to_outside).collect()),
    }
}

/// Reads an `ethabi::ParamType` as the parameter type of the same shape,
/// variant for variant. It belongs to the body that takes types from
/// `ethabi`; nothing is claimed of it by itself.
#[verifier::external_body]
fn from_outside(kind: &ParamType) -> ParamKind {
    match kind {
        ParamType::Address => ParamKind::Address,
        ParamType::Bytes => ParamKind::Bytes,
        ParamType::Int(bits) => ParamKind::Int(*bits),
        ParamType::Uint(bits) => ParamKind::Uint(*bits),
        ParamType::Bool => ParamKind::Bool,
        ParamType::String => ParamKind::Str,
        ParamType::Array(item) => ParamKind::Array(Box::new(from_outside(item))),
        ParamType::FixedBytes(count) => ParamKind::FixedBytes(*count),
        ParamType::FixedArray(item, count) => ParamKind::FixedArray(Box::new(from_outside(item)), *count),
        ParamType::Tuple(items) => ParamKind::Tuple(items.iter().map(from_outside).collect()),
    }
}

/// Calls `ethabi::short_signature` on the name and the parameter types. The
/// result is named, not stated: `abi_selector`. The call writes every type
/// out, one level of the type inside the other, and hashes what it wrote.
#[verifier::external_body]
fn short_signature(signature: &FunctionSignature) -> (r: [u8; 4])
    requires
        signature@.has_nested_kinds(),
    ensures
        r@ == abi_selector(signature@.name, signature@.kinds()),
{
    let kinds: Vec<ParamType> = signature.inputs.iter().map(|p| to_outside(&p.kind)).collect();
    ethabi::short_signature(&signature.name, &kinds)
}

/// Calls `ethabi::Contract::load` and lists the functions of the contract
/// in the order of its map. The result is named, not stated:
/// `abi_interface`. The loader hands every string in the place of a type to
/// its reader of types, whatever follows in the text. The reader takes a
/// string that ends in no closing parenthesis or bracket as a whole; on the
/// texts that `is_plain_interface_text` admits it stays inside every other
/// string.
#[verifier::external_body]
fn load_functions(text: &str) -> (r: Result<Vec<FunctionSignature>, ethabi::Error>)
    requires
        is_plain_interface_text(text@),
    ensures
        match r {
            Ok(functions) => abi_interface(text@) == Some(function_views(functions@)),
            Err(_) => abi_interface(text@) is None,
        },
{
    let contract = ethabi::Contract::load(text.as_bytes())?;
    Ok(contract.functions.into_values().flatten().map(|f| FunctionSignature {
        name: f.name,
        inputs: f.inputs.iter().map(|p| Param { name: p.name.clone(), kind: from_outside(&p.kind) }).collect(),
    }).collect())
}

impl FunctionSignature {
    /// Tests whether a value of every parameter type is decoded in a bounded
    /// number of steps.
    pub fn check_bounded_kinds(&self) -> (r: bool)
        ensures
            r == self@.has_bounded_kinds(),
    {
        let n = self.inputs.len();
        let mut i: usize = 0;
        while i < n
            invariant
                i <= n,
                n == self.inputs@.len(),
                forall|k: int|
                    0 <= k < i ==> is_bounded((#[trigger] self@.inputs[k]).kind, MAX_DEPTH as nat),
            decreases n - i,
        {
            if !check_bounded(&self.inputs[i].kind, MAX_DEPTH) {
                assert(!is_bounded(self@.inputs[i as int].kind, MAX_DEPTH as nat));
                return false;
            }
            i += 1;
        }
        true
    }

    /// Tests whether every parameter type nests no deeper than `MAX_DEPTH`.
    pub fn check_nested_kinds(&self) -> (r: bool)
        ensures
            r == self@.has_nested_kinds(),
    {
        let n = self.inputs.len();
        let mut i: usize = 0;
        while i < n
            invariant
                i <= n,
                n == self.inputs@.len(),
                forall|k: int|
                    0 <= k < i ==> nests_within(
                        (#[trigger] self@.inputs[k]).kind,
                        MAX_DEPTH as nat,
                    ),
            decreases n - i,
        {
            if !check_nests_within(&self.inputs[i].kind, MAX_DEPTH) {
                assert(!nests_within(self@.inputs[i as int].kind, MAX_DEPTH as nat));
                return false;
            }
            i += 1;
        }
        true
    }

    /// The selector of this function. There is none for a function with a
    /// parameter type that nests deeper than `MAX_DEPTH`.
    pub fn selector(&self) -> (r: Option<[u8; 4]>)
        ensures
            r is Some <==> self@.has_nested_kinds(),
            r matches Some(selector) ==> selector@ == abi_selector(self@.name, self@.kinds()),
    {
        if self.check_nested_kinds() {
            Some(short_signature(self))
        } else {
            None
        }
    }
}

/// The positions among the first `n` functions of those of the given name,
/// in order.
pub open spec fn overloads_among(functions: Seq<FunctionView>, name: Seq<char>, n: nat) -> Seq<
    usize,
>
    decreases n,
{
    if n == 0 {
        Seq::empty()
    } else {
        let before = overloads_among(functions, name, (n - 1) as nat);
        if functions[n - 1].name == name {
            before.push((n - 1) as usize)
        } else {
            before
        }
    }
}

impl InterfaceDefinition {
    /// The overloads of a name: the positions of the functions of that name,
    /// in the order in which they are searched.
    pub fn overloads(&self, name: &str) -> (r: Vec<usize>)
        ensures
            r@ == overloads_among(self@, name@, self@.len()),
    {
        let wanted = name.to_owned();
        let n = self.functions.len();
        let mut found: Vec<usize> = Vec::new();
        let mut i: usize = 0;
        while i < n
            invariant
                i <= n,
                n == self.functions@.len(),
                n == self@.len(),
                wanted@ == name@,
                found@ == overloads_among(self@, name@, i as nat),
            decreases n - i,
        {
            if self.functions[i].name == wanted {
                found.push(i);
            }
            i += 1;
        }
        found
    }
}

/// Reads the JSON text of an interface. The text is first written anew as a
/// writer of JSON writes it, so that an escape stands only where it must,
/// and what is written is handed to the loader.
pub fn parse_interface(text: &str) -> (r: Result<InterfaceDefinition, InterfaceError>)
    ensures
        match r {
            Ok(interface) => interface_of(text@) == Some(interface@),
            Err(e) => interface_of(text@) is None && (e == InterfaceError::Unsupported
                <==> is_unsupported(text@)),
        },
{
    match rewritten(text) {
        Some(written) => {
            if !check_plain_interface_text(written.as_str()) {
                return Err(InterfaceError::Unsupported);
            }
            match load_functions(written.as_str()) {
                Ok(functions) => Ok(InterfaceDefinition { functions }),
                Err(_) => Err(InterfaceError::Malformed),
            }
        },
        None => Err(InterfaceError::Malformed),
    }
}

} // verus!
