//! The generic key/value tuple used by auth schemes and by collection and
//! environment variable stores.

use vstd::prelude::*;

verus! {

/// A key/value pair with an optional type tag and disabled flag.
#[derive(Debug, Clone, PartialEq)]
pub struct Variable {
    pub key: String,
    pub value: String,
    pub var_type: Option<String>,
    pub disabled: Option<bool>,
}

/// The mathematical shape of a [`Variable`].
pub ghost struct VariableView {
    pub key: Seq<char>,
    pub value: Seq<char>,
    pub var_type: Option<Seq<char>>,
    pub disabled: Option<bool>,
}

impl View for Variable {
    type V = VariableView;

    open spec fn view(&self) -> VariableView {
        VariableView {
            key: self.key@,
            value: self.value@,
            var_type: self.var_type.deep_view(),
            disabled: self.disabled,
        }
    }
}

impl DeepView for Variable {
    type V = VariableView;

    open spec fn deep_view(&self) -> VariableView {
        self.view()
    }
}

} // verus!
