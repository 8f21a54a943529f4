//! The data service: labels two fields with the parameter it was asked with.

use vstd::prelude::*;
use vstd::string::*;
use crate::query::{Prefix, extract_param, effective_param};

verus! {

/// The data service's answer.
#[derive(Debug, Clone, PartialEq, Eq)]
pub struct Model {
    pub key_one: String,
    pub key_two: String,
}

/// What a `Model` holds, as text.
pub struct ModelView {
    pub key_one: Seq<char>,
    pub key_two: Seq<char>,
}

impl View for Model {
    type V = ModelView;

    open spec fn view(&self) -> ModelView {
        ModelView { key_one: self.key_one@, key_two: self.key_two@ }
    }
}

/// A field's text: the parameter in round brackets, then the field's label.
pub open spec fn labelled(param: Seq<char>, label: Seq<char>) -> Seq<char> {
    seq!['('] + param + seq![')'] + label
}

/// The answer to a request that carries `param`.
pub open spec fn model_for(param: Option<Seq<char>>) -> ModelView {
    ModelView {
        key_one: labelled(effective_param(param), "Field 1"@),
        key_two: labelled(effective_param(param), "Field 2"@),
    }
}

fn label_field(param: &str, label: &str) -> (text: String)
    ensures
        text@ == labelled(param@, label@),
{
    proof {
        reveal_strlit("(");
        reveal_strlit(")");
    }
    let mut text = String::from_str("(");
    text.append(param);
    text.append(")");
    text.append(label);
    assert("("@ =~= seq!['(']);
    assert(")"@ =~= seq![')']);
    text
}

/// Answers a request to the data service: both fields carry the effective
/// parameter of the request, and nothing else of the request is read.
pub fn handler(query: &Prefix) -> (model: Model)
    ensures
        model@ == model_for(query@),
{
    let param = extract_param(query);
    Model {
        key_one: label_field(param.as_str(), "Field 1"),
        key_two: label_field(param.as_str(), "Field 2"),
    }
}

} // verus!
