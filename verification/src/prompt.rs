//! Writes the question that is put to the reasoning service.

use crate::decode::{Argument, DecodedCall};
use crate::text::{occurs_within, slice_to_string, starts_with, to_chars};
use crate::PromptConfig;
use vstd::prelude::*;

verus! {

/// `s` with `t` in the place of every occurrence of `p`, found from left to
/// right and not overlapping. The empty text occurs nowhere.
pub open spec fn filled(s: Seq<char>, p: Seq<char>, t: Seq<char>) -> Seq<char>
    decreases s.len(),
{
    if p.len() == 0 || s.len() < p.len() {
        s
    } else if starts_with(s, p) {
        t + filled(s.skip(p.len() as int), p, t)
    } else {
        s.take(1) + filled(s.skip(1), p, t)
    }
}

/// Writes `value` in the place of every occurrence of `placeholder` in
/// `template`.
pub fn fill(template: &str, placeholder: &str, value: &str) -> (r: String)
    ensures
        r@ == filled(template@, placeholder@, value@),
{
    let chars = to_chars(template);
    let mark = to_chars(placeholder);
    let n = chars.len();
    let m = mark.len();
    if m == 0 || m > n {
        return template.to_owned();
    }
    let ghost s = chars@;
    let ghost p = mark@;
    let ghost t = value@;
    let mut out = String::new();
    let mut seg: usize = 0;
    let mut i: usize = 0;
    assert(s.skip(0) =~= s);
    assert(s.subrange(0, n as int) =~= s);
    while i <= n - m
        invariant
            seg <= i <= n,
            0 < m <= n,
            n == chars.len(),
            m == mark.len(),
            s == chars@,
            s == template@,
            p == mark@,
            t == value@,
            s.subrange(0, n as int) == s,
            filled(s, p, t) == out@ + s.subrange(seg as int, i as int) + filled(
                s.skip(i as int),
                p,
                t,
            ),
        decreases n - i,
    {
        let here = occurs_within(&chars, &mark, i, n);
        proof {
            assert(s.skip(i as int).subrange(0, m as int) =~= s.subrange(i as int, i + m));
            assert(here == starts_with(s.skip(i as int), p));
        }
        if here {
            let before = slice_to_string(template, seg, i);
            out.append(before.as_str());
            out.append(value);
            proof {
                assert(s.skip(i as int).skip(m as int) =~= s.skip(i + m));
                assert(s.subrange(i + m, i + m) =~= Seq::<char>::empty());
                assert(out@ + s.subrange(i + m, i + m) =~= out@);
            }
            i += m;
            seg = i;
        } else {
            proof {
                assert(s.skip(i as int).skip(1) =~= s.skip(i + 1));
                assert(s.subrange(seg as int, i as int) + s.skip(i as int).take(1) =~= s.subrange(
                    seg as int,
                    i + 1,
                ));
                assert(out@ + s.subrange(seg as int, i as int) + (s.skip(i as int).take(1) + filled(
                    s.skip(i + 1),
                    p,
                    t,
                )) =~= out@ + s.subrange(seg as int, i + 1) + filled(s.skip(i + 1), p, t));
            }
            i += 1;
        }
    }
    let rest = slice_to_string(template, seg, n);
    out.append(rest.as_str());
    proof {
        assert(s.subrange(seg as int, i as int) + s.skip(i as int) =~= s.subrange(
            seg as int,
            n as int,
        ));
        assert(out@ =~= filled(s, p, t));
    }
    out
}

/// The texts of a list of strings.
pub open spec fn texts(items: Seq<String>) -> Seq<Seq<char>> {
    items.map_values(|s: String| s@)
}

/// A list of strings as it is written for a programmer: in brackets, the
/// items in double quotes and set apart by commas, with the characters that
/// could be mistaken written as escapes.
pub uninterp spec fn debug_list_text(items: Seq<Seq<char>>) -> Seq<char>;

/// Hands the list to `format!`, which writes it by the `Debug` of `Vec` and
/// of `String`. The result is named, not stated: `debug_list_text`.
#[verifier::external_body]
fn debug_list(items: &Vec<String>) -> (r: String)
    ensures
        r@ == debug_list_text(texts(items@)),
{
    format!("{:?}", items)
}

/// The texts of the arguments of a call.
pub open spec fn argument_texts(arguments: Seq<Argument>) -> Seq<Seq<char>> {
    arguments.map_values(|a: Argument| a.text@)
}

/// Lists the arguments of a call, each written out.
pub fn arguments_of(call: &DecodedCall) -> (r: Vec<String>)
    ensures
        texts(r@) == argument_texts(call.arguments@),
{
    let n = call.arguments.len();
    let mut list: Vec<String> = Vec::new();
    let mut i: usize = 0;
    while i < n
        invariant
            i <= n,
            n == call.arguments@.len(),
            list@.len() == i,
            forall|k: int| 0 <= k < i ==> (#[trigger] list@[k])@ == call.arguments@[k].text@,
        decreases n - i,
    {
        list.push(call.arguments[i].text.clone());
        i += 1;
    }
    assert(texts(list@) =~= argument_texts(call.arguments@));
    list
}

/// The question about a call: the template with the address of the contract
/// in the place of `{contract_address}`, then the name of the function in the
/// place of `{function_name}`, then the list of the arguments in the place of
/// `{arguments}`.
pub open spec fn prompt_text(
    template: Seq<char>,
    contract_address: Seq<char>,
    function_name: Seq<char>,
    arguments: Seq<Seq<char>>,
) -> Seq<char> {
    filled(
        filled(
            filled(template, "{contract_address}"@, contract_address),
            "{function_name}"@,
            function_name,
        ),
        "{arguments}"@,
        debug_list_text(arguments),
    )
}

/// Writes the question about a call.
pub fn build_prompt(
    template: &str,
    contract_address: &str,
    function_name: &str,
    arguments: &Vec<String>,
) -> (r: String)
    ensures
        r@ == prompt_text(template@, contract_address@, function_name@, texts(arguments@)),
{
    let first = fill(template, "{contract_address}", contract_address);
    let second = fill(first.as_str(), "{function_name}", function_name);
    let list = debug_list(arguments);
    fill(second.as_str(), "{arguments}", list.as_str())
}

/// What is sent to the reasoning service.
#[derive(Debug, Clone, PartialEq, Eq)]
pub struct ReasoningRequest {
    /// The address of the service.
    pub url: String,
    /// The value of the header `Authorization`.
    pub authorization: String,
    pub model: String,
    /// The content of the message of the role `system`.
    pub system_message: String,
    /// The content of the message of the role `user`.
    pub user_prompt: String,
    pub stream: bool,
}

/// A request as a mathematical value.
pub struct ReasoningRequestView {
    pub url: Seq<char>,
    pub authorization: Seq<char>,
    pub model: Seq<char>,
    pub system_message: Seq<char>,
    pub user_prompt: Seq<char>,
    pub stream: bool,
}

impl View for ReasoningRequest {
    type V = ReasoningRequestView;

    open spec fn view(&self) -> ReasoningRequestView {
        ReasoningRequestView {
            url: self.url@,
            authorization: self.authorization@,
            model: self.model@,
            system_message: self.system_message@,
            user_prompt: self.user_prompt@,
            stream: self.stream,
        }
    }
}

/// The request that puts the question about a call to the service.
pub open spec fn reasoning_request(
    config: &PromptConfig,
    api_key: Seq<char>,
    contract_address: Seq<char>,
    function_name: Seq<char>,
    arguments: Seq<Seq<char>>,
) -> ReasoningRequestView {
    ReasoningRequestView {
        url: "https://api.deepseek.com/chat/completions"@,
        authorization: "Bearer "@ + api_key,
        model: config.model_settings.model@,
        system_message: config.system_message@,
        user_prompt: prompt_text(
            config.user_prompt_template@,
            contract_address,
            function_name,
            arguments,
        ),
        stream: config.model_settings.stream,
    }
}

/// Makes the request that puts the question about a call to the service.
pub fn build_request(
    config: &PromptConfig,
    api_key: &str,
    contract_address: &str,
    function_name: &str,
    arguments: &Vec<String>,
) -> (r: ReasoningRequest)
    ensures
        r@ == reasoning_request(
            config,
            api_key@,
            contract_address@,
            function_name@,
            texts(arguments@),
        ),
{
    let mut authorization = String::from_str("Bearer ");
    authorization.append(api_key);
    ReasoningRequest {
        url: String::from_str("https://api.deepseek.com/chat/completions"),
        authorization,
        model: config.model_settings.model.clone(),
        system_message: config.system_message.clone(),
        user_prompt: build_prompt(
            config.user_prompt_template.as_str(),
            contract_address,
            function_name,
            arguments,
        ),
        stream: config.model_settings.stream,
    }
}

} // verus!
