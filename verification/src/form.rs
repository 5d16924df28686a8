//! Form descriptions: detected fields and buttons, planned inputs and the
//! results of filling a form.
use vstd::prelude::*;

verus! {

/// The kind of a form control.
#[derive(Debug, PartialEq, Eq, Structural)]
pub enum FormFieldType {
    Text,
    Email,
    Password,
    Select,
    Checkbox,
    Textarea,
    Unknown,
}

impl Clone for FormFieldType {
    fn clone(&self) -> (r: Self)
        ensures
            r == *self,
    {
        match self {
            FormFieldType::Text => FormFieldType::Text,
            FormFieldType::Email => FormFieldType::Email,
            FormFieldType::Password => FormFieldType::Password,
            FormFieldType::Select => FormFieldType::Select,
            FormFieldType::Checkbox => FormFieldType::Checkbox,
            FormFieldType::Textarea => FormFieldType::Textarea,
            FormFieldType::Unknown => FormFieldType::Unknown,
        }
    }
}

/// An exact copy of an optional string.
pub fn clone_opt_string(o: &Option<String>) -> (r: Option<String>)
    ensures
        r == *o,
{
    match o {
        Some(s) => Some(s.clone()),
        None => None,
    }
}

/// One `<option>` of a `<select>`.
#[derive(Debug)]
pub struct SelectOption {
    pub value: String,
    pub label: String,
}

impl Clone for SelectOption {
    fn clone(&self) -> (r: Self)
        ensures
            r == *self,
    {
        SelectOption { value: self.value.clone(), label: self.label.clone() }
    }
}

/// A form control found on a page.
#[derive(Debug)]
pub struct FormField {
    pub selector: String,
    pub field_type: FormFieldType,
    pub name: Option<String>,
    pub id: Option<String>,
    pub label: Option<String>,
    pub placeholder: Option<String>,
    pub required: bool,
    pub options: Vec<SelectOption>,
}

/// An exact copy of a list of select options.
pub fn clone_options(v: &Vec<SelectOption>) -> (r: Vec<SelectOption>)
    ensures
        r@ == v@,
{
    let mut r: Vec<SelectOption> = Vec::new();
    let n = v.len();
    for i in 0..n
        invariant
            n == v@.len(),
            r@ == v@.take(i as int),
    {
        r.push(v[i].clone());
        assert(v@.take(i + 1) == v@.take(i as int).push(v@[i as int]));
    }
    assert(v@.take(n as int) == v@);
    r
}

impl Clone for FormField {
    fn clone(&self) -> (r: Self)
        ensures
            r.selector == self.selector,
            r.field_type == self.field_type,
            r.name == self.name,
            r.id == self.id,
            r.label == self.label,
            r.placeholder == self.placeholder,
            r.required == self.required,
            r.options@ == self.options@,
    {
        FormField {
            selector: self.selector.clone(),
            field_type: self.field_type.clone(),
            name: clone_opt_string(&self.name),
            id: clone_opt_string(&self.id),
            label: clone_opt_string(&self.label),
            placeholder: clone_opt_string(&self.placeholder),
            required: self.required,
            options: clone_options(&self.options),
        }
    }
}

/// A clickable control found on a page.
#[derive(Debug)]
pub struct FormButton {
    pub label: String,
    pub selector: String,
}

impl Clone for FormButton {
    fn clone(&self) -> (r: Self)
        ensures
            r == *self,
    {
        FormButton { label: self.label.clone(), selector: self.selector.clone() }
    }
}

/// A value to put into a form control.
#[derive(Debug)]
pub enum FieldValue {
    Text(String),
    Selected(String),
    Checked(bool),
}

impl Clone for FieldValue {
    fn clone(&self) -> (r: Self)
        ensures
            r == *self,
    {
        match self {
            FieldValue::Text(s) => FieldValue::Text(s.clone()),
            FieldValue::Selected(s) => FieldValue::Selected(s.clone()),
            FieldValue::Checked(b) => FieldValue::Checked(*b),
        }
    }
}

/// A value addressed to a control by its name, id or label.
#[derive(Debug)]
pub struct FieldInput {
    pub identifier: String,
    pub value: FieldValue,
}

impl Clone for FieldInput {
    fn clone(&self) -> (r: Self)
        ensures
            r == *self,
    {
        FieldInput { identifier: self.identifier.clone(), value: self.value.clone() }
    }
}

/// The outcome of filling a form.
#[derive(Debug)]
pub struct FormFillResult {
    pub fields_filled: Vec<FilledField>,
    pub submitted: bool,
    pub page_text_after: Option<String>,
    pub next_step: Option<FormStep>,
    pub preview: Option<FormPreview>,
}

/// A control that was filled.
#[derive(Debug)]
pub struct FilledField {
    pub identifier: String,
    pub field_type: FormFieldType,
    pub value: FieldValue,
}

/// The controls and buttons present on a page.
#[derive(Debug)]
pub struct FormStep {
    pub fields: Vec<FormField>,
    pub buttons: Vec<FormButton>,
}

/// What a dry run would change.
#[derive(Debug)]
pub struct FormPreview {
    pub entries: Vec<FieldPreview>,
}

/// The current and planned value of one control.
#[derive(Debug)]
pub struct FieldPreview {
    pub identifier: String,
    pub field_type: FormFieldType,
    pub current_value: Option<String>,
    pub planned_value: FieldValue,
}

/// How a clicked button was found.
#[derive(Debug, PartialEq, Eq, Structural)]
pub enum ButtonResolvedBy {
    Id,
    Label,
}

/// The outcome of clicking a button.
#[derive(Debug)]
pub struct ClickButtonResult {
    pub clicked_button: FormButton,
    pub resolved_by: ButtonResolvedBy,
    pub page_text_after: String,
    pub next_step: Option<FormStep>,
}

} // verus!
