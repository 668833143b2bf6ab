//! Form bodies as ordered lists of named values.

use vstd::prelude::*;
use vstd::string::*;

verus! {

/// One named value of a form body.
pub struct FormField {
    pub name: String,
    pub value: String,
}

impl View for FormField {
    type V = (Seq<char>, Seq<char>);

    open spec fn view(&self) -> (Seq<char>, Seq<char>) {
        (self.name@, self.value@)
    }
}

/// The names and values that a list of fields holds, in order.
pub open spec fn form_view(fields: Seq<FormField>) -> Seq<(Seq<char>, Seq<char>)> {
    Seq::new(fields.len(), |k: int| fields[k]@)
}

/// A field with the given name and value.
pub fn field(name: &str, value: &str) -> (f: FormField)
    ensures
        f@ == (name@, value@),
{
    FormField { name: String::from_str(name), value: String::from_str(value) }
}

/// Appends a field to a form body.
pub fn put(form: &mut Vec<FormField>, name: &str, value: &str)
    ensures
        form_view(final(form)@) == form_view(old(form)@).push((name@, value@)),
{
    form.push(field(name, value));
    assert(form_view(form@) =~= form_view(old(form)@).push((name@, value@)));
}

} // verus!
