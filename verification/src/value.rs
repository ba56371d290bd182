use vstd::prelude::*;

verus! {

/// Spec-level image of an untyped configuration value.
pub enum ConfValueView {
    Text(Seq<char>),
    Number(u64),
}

/// An untyped value in the merged configuration space: a quoted string
/// or a bare unsigned integer. Both layers contribute values in this
/// form; type-specific coercion is deferred to materialization.
#[derive(Debug, PartialEq, Eq)]
pub enum ConfValue {
    Text(String),
    Number(u64),
}

impl View for ConfValue {
    type V = ConfValueView;

    open spec fn view(&self) -> ConfValueView {
        match self {
            ConfValue::Text(s) => ConfValueView::Text(s@),
            ConfValue::Number(n) => ConfValueView::Number(*n),
        }
    }
}

impl DeepView for ConfValue {
    type V = ConfValueView;

    open spec fn deep_view(&self) -> ConfValueView {
        self.view()
    }
}

} // verus!
