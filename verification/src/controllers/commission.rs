use crate::text::{trim_white_space, trimmed};
use vstd::prelude::*;

verus! {

/// The fields of the form with which a device is commissioned.
#[derive(Clone, Debug)]
pub struct CommissionForm {
    pairing_code: String,
    name: String,
}

impl CommissionForm {
    /// A form with the given fields, as submitted.
    pub fn new(pairing_code: String, name: String) -> (form: Self)
        ensures
            form.pairing_code_view() == pairing_code@,
            form.name_view() == name@,
    {
        CommissionForm { pairing_code, name }
    }

    /// The pairing code as submitted.
    pub closed spec fn pairing_code_view(&self) -> Seq<char> {
        self.pairing_code@
    }

    /// The name as submitted.
    pub closed spec fn name_view(&self) -> Seq<char> {
        self.name@
    }

    /// The pairing code as submitted.
    pub fn pairing_code(&self) -> (code: &str)
        ensures
            code@ == self.pairing_code_view(),
    {
        self.pairing_code.as_str()
    }

    /// The name as submitted.
    pub fn name(&self) -> (name: &str)
        ensures
            name@ == self.name_view(),
    {
        self.name.as_str()
    }
}

impl Default for CommissionForm {
    fn default() -> (form: Self)
        ensures
            form.pairing_code_view() == Seq::<char>::empty(),
            form.name_view() == Seq::<char>::empty(),
    {
        CommissionForm { pairing_code: String::new(), name: String::new() }
    }
}

impl PartialEq for CommissionForm {
    fn eq(&self, other: &Self) -> (equal: bool) {
        self.pairing_code == other.pairing_code && self.name == other.name
    }
}

impl vstd::std_specs::cmp::PartialEqSpecImpl for CommissionForm {
    open spec fn obeys_eq_spec() -> bool {
        true
    }

    open spec fn eq_spec(&self, other: &Self) -> bool {
        self.pairing_code_view() == other.pairing_code_view() && self.name_view() == other.name_view()
    }
}

impl Eq for CommissionForm {

}

/// What to do with a submitted commissioning form.
#[derive(Clone, Debug)]
pub enum CommissionStep {
    /// Show the form again, with this error.
    Reject(String),
    /// Commission the device with this pairing code, and give it this label.
    Commission { pairing_code: String, label: String },
}

/// The error shown when the name is empty.
pub open spec fn empty_name_error() -> Seq<char> {
    "Name must not be empty"@
}

/// Decides what a submitted form asks for: a name that is empty once white space is trimmed
/// from it is refused; otherwise the device is commissioned with the trimmed pairing code, and
/// labelled with the name as it was submitted.
pub fn plan_commission(form: &CommissionForm) -> (step: CommissionStep)
    ensures
        trimmed(form.name_view()).len() == 0 ==> (step matches CommissionStep::Reject(error)
            && error@ == empty_name_error()),
        trimmed(form.name_view()).len() != 0 ==> (step matches CommissionStep::Commission {
            pairing_code,
            label,
        } && pairing_code@ == trimmed(form.pairing_code_view()) && label@ == form.name_view()),
{
    let name = trim_white_space(form.name());
    let pairing_code = trim_white_space(form.pairing_code());
    if name.unicode_len() == 0 {
        return CommissionStep::Reject(String::from_str("Name must not be empty"));
    }
    CommissionStep::Commission {
        pairing_code: String::from_str(pairing_code),
        label: form.name.clone(),
    }
}

/// The error shown when commissioning fails with the error described by `error`.
pub fn commission_failure_message(error: &str) -> (message: String)
    ensures
        message@ == "Failed to commission: "@ + error@,
{
    String::from_str("Failed to commission: ").concat(error)
}

} // verus!
