//! Checking planned form inputs against the controls found on a page.
use vstd::prelude::*;
use crate::error::HtmlError;
use crate::form::{FieldInput, FieldValue, FormField, FormFieldType, SelectOption};
use crate::text::{chars_of, contains_char, eq_ascii_ci, find_char, first_index_of, seq_eq_ignore_ascii_case};

verus! {

/// Some name, id or label of `f` equals `id` up to ASCII case.
pub open spec fn field_matches(f: FormField, id: Seq<char>) -> bool {
    ||| (f.name matches Some(n) && eq_ascii_ci(n@, id))
    ||| (f.id matches Some(i) && eq_ascii_ci(i@, id))
    ||| (f.label matches Some(l) && eq_ascii_ci(l@, id))
}

/// Index of the first field that `id` addresses.
pub open spec fn first_matching(fields: Seq<FormField>, id: Seq<char>) -> Option<int> {
    if exists|i: int| 0 <= i < fields.len() && field_matches(fields[i], id) {
        Some(
            choose|i: int|
                0 <= i < fields.len() && field_matches(fields[i], id) && forall|j: int|
                    0 <= j < i ==> !field_matches(#[trigger] fields[j], id),
        )
    } else {
        None
    }
}

/// The first match is the least matching index.
pub proof fn lemma_first_matching(fields: Seq<FormField>, id: Seq<char>, i: int)
    requires
        0 <= i < fields.len(),
        field_matches(fields[i], id),
        forall|j: int| 0 <= j < i ==> !field_matches(#[trigger] fields[j], id),
    ensures
        first_matching(fields, id) == Some(i),
{
    let k = choose|k: int|
        0 <= k < fields.len() && field_matches(fields[k], id) && forall|j: int|
            0 <= j < k ==> !field_matches(#[trigger] fields[j], id);
    assert(0 <= i < fields.len() && field_matches(fields[i], id) && forall|j: int|
        0 <= j < i ==> !field_matches(#[trigger] fields[j], id));
    if k < i {
        assert(!field_matches(fields[k], id));
    } else if k > i {
        assert(!field_matches(fields[i], id));
    }
}

/// The first match, when there is one, is a match and no earlier field matches.
pub proof fn lemma_first_matching_props(fields: Seq<FormField>, id: Seq<char>)
    ensures
        first_matching(fields, id) matches Some(k) ==> {
            &&& 0 <= k < fields.len()
            &&& field_matches(fields[k], id)
            &&& forall|j: int| 0 <= j < k ==> !field_matches(#[trigger] fields[j], id)
        },
{
    if exists|i: int| 0 <= i < fields.len() && field_matches(fields[i], id) {
        let w = choose|i: int| 0 <= i < fields.len() && field_matches(fields[i], id);
        let k = choose|i: int|
            0 <= i < fields.len() && field_matches(fields[i], id) && forall|j: int|
                0 <= j < i ==> !field_matches(#[trigger] fields[j], id);
        lemma_least_match(fields, id, w);
    }
}

proof fn lemma_least_match(fields: Seq<FormField>, id: Seq<char>, w: int)
    requires
        0 <= w < fields.len(),
        field_matches(fields[w], id),
    ensures
        exists|i: int|
            0 <= i < fields.len() && field_matches(fields[i], id) && forall|j: int|
                0 <= j < i ==> !field_matches(#[trigger] fields[j], id),
    decreases w,
{
    if exists|j: int| 0 <= j < w && field_matches(fields[j], id) {
        let j = choose|j: int| 0 <= j < w && field_matches(fields[j], id);
        lemma_least_match(fields, id, j);
    } else {
        assert(forall|j: int| 0 <= j < w ==> !field_matches(#[trigger] fields[j], id));
    }
}

fn opt_eq_ci(o: &Option<String>, id: &[char]) -> (r: bool)
    ensures
        r == (o matches Some(n) && eq_ascii_ci(n@, id@)),
{
    match o {
        Some(n) => {
            let v = chars_of(n.as_str());
            seq_eq_ignore_ascii_case(v.as_slice(), id)
        },
        None => false,
    }
}

/// The first field whose name, id or label equals `id`, ignoring ASCII case.
pub fn resolve_field<'a>(fields: &'a [FormField], id: &str) -> (r: Option<&'a FormField>)
    ensures
        r is Some == first_matching(fields@, id@) is Some,
        r matches Some(f) ==> *f == fields@[first_matching(fields@, id@)->0],
{
    let idv = chars_of(id);
    let n = fields.len();
    for i in 0..n
        invariant
            n == fields@.len(),
            idv@ == id@,
            forall|j: int| 0 <= j < i ==> !field_matches(#[trigger] fields@[j], id@),
    {
        let f = &fields[i];
        if opt_eq_ci(&f.name, idv.as_slice()) || opt_eq_ci(&f.id, idv.as_slice()) || opt_eq_ci(
            &f.label,
            idv.as_slice(),
        ) {
            proof {
                lemma_first_matching(fields@, id@, i as int);
            }
            return Some(f);
        }
    }
    None
}

/// The address check applied to email fields: an `@` that is not first,
/// followed by a non-empty domain that contains a `.` and does not end in one.
pub open spec fn valid_email(v: Seq<char>) -> bool {
    match first_index_of(v, '@') {
        Some(p) => {
            let d = v.skip(p + 1);
            p > 0 && d.len() > 0 && d.contains('.') && d.last() != '.'
        },
        None => false,
    }
}

/// The first occurrence of `c` in `s` is found: an index of `c` with no `c`
/// before it, whenever `s` holds `c` at all.
pub proof fn lemma_first_index_found(s: Seq<char>, c: char, i: int)
    requires
        0 <= i < s.len(),
        s[i] == c,
    ensures
        first_index_of(s, c) matches Some(p) && 0 <= p <= i && s[p] == c && forall|j: int|
            0 <= j < p ==> s[j] != c,
    decreases i,
{
    if exists|j: int| 0 <= j < i && s[j] == c {
        let j = choose|j: int| 0 <= j < i && s[j] == c;
        lemma_first_index_found(s, c, j);
    } else {
        assert(0 <= i < s.len() && s[i] == c && forall|j: int| 0 <= j < i ==> s[j] != c);
    }
}

/// An email value is accepted exactly when it has an `@` that is not its
/// first character, and after the first `@` comes a `.` that is not the
/// value's last character, while the value does not end in `.`: a local
/// part, then a domain with a dot inside it. So `john.doe@example` (the only
/// dot before the `@`) and `a@b.` are refused, `a@b.c` is accepted.
pub proof fn law_email_shape(v: Seq<char>)
    ensures
        valid_email(v) <==> exists|p: int, q: int|
            0 < p < q < v.len() - 1 && #[trigger] v[p] == '@' && #[trigger] v[q] == '.' && v[v.len() - 1] != '.'
                && forall|j: int| 0 <= j < p ==> v[j] != '@',
{
    if valid_email(v) {
        let p = first_index_of(v, '@')->Some_0;
        let d = v.skip(p + 1);
        assert(exists|i: int| 0 <= i < v.len() && v[i] == '@');
        let i0 = choose|i: int| 0 <= i < v.len() && v[i] == '@';
        lemma_first_index_found(v, '@', i0);
        let k = choose|k: int| 0 <= k < d.len() && d[k] == '.';
        assert(d[k] == v[p + 1 + k]);
        assert(d[d.len() - 1] == v[v.len() - 1]);
        assert(v[p] == '@' && v[p + 1 + k] == '.');
    }
    if exists|p: int, q: int|
        0 < p < q < v.len() - 1 && #[trigger] v[p] == '@' && #[trigger] v[q] == '.' && v[v.len() - 1] != '.'
            && forall|j: int| 0 <= j < p ==> v[j] != '@' {
        let (p, q) = choose|p: int, q: int|
            0 < p < q < v.len() - 1 && #[trigger] v[p] == '@' && #[trigger] v[q] == '.' && v[v.len() - 1] != '.'
                && forall|j: int| 0 <= j < p ==> v[j] != '@';
        lemma_first_index_found(v, '@', p);
        let f = first_index_of(v, '@')->Some_0;
        assert(f == p) by {
            if f < p {
                assert(v[f] != '@');
            }
        }
        let d = v.skip(p + 1);
        assert(d[q - p - 1] == '.');
        assert(d.contains('.'));
        assert(d.last() == v[v.len() - 1]);
    }
}

/// Whether `v` is a plausible email address (see `valid_email`).
pub fn is_valid_email(v: &str) -> (r: bool)
    ensures
        r == valid_email(v@),
{
    let cs = chars_of(v);
    match find_char(cs.as_slice(), '@') {
        Some(pos) => {
            if pos == 0 {
                return false;
            }
            let n = cs.len();
            let mut dom: Vec<char> = Vec::new();
            let mut k = pos + 1;
            while k < n
                invariant
                    pos < n == cs@.len(),
                    pos + 1 <= k <= n,
                    dom@ == cs@.subrange(pos + 1, k as int),
                decreases n - k,
            {
                dom.push(cs[k]);
                assert(cs@.subrange(pos + 1, k + 1) == cs@.subrange(pos + 1, k as int).push(cs@[k as int]));
                k = k + 1;
            }
            assert(dom@ == cs@.skip(pos + 1));
            dom.len() > 0 && contains_char(dom.as_slice(), '.') && dom[dom.len() - 1] != '.'
        },
        None => false,
    }
}

/// Some option's value or label equals `v` up to ASCII case.
pub open spec fn has_option(options: Seq<SelectOption>, v: Seq<char>) -> bool {
    exists|i: int| 0 <= i < options.len() && option_hit(#[trigger] options[i], v)
}

/// The option's value or label equals `v` up to ASCII case.
pub open spec fn option_hit(o: SelectOption, v: Seq<char>) -> bool {
    eq_ascii_ci(o.value@, v) || eq_ascii_ci(o.label@, v)
}

/// An input is acceptable: it addresses a field, an email field gets a
/// plausible address and a select gets one of its options.
pub open spec fn input_valid(fields: Seq<FormField>, input: FieldInput) -> bool {
    match first_matching(fields, input.identifier@) {
        None => false,
        Some(k) => match (fields[k].field_type, input.value) {
            (FormFieldType::Email, FieldValue::Text(v)) => valid_email(v@),
            (FormFieldType::Select, FieldValue::Selected(v)) => has_option(fields[k].options@, v@),
            _ => true,
        },
    }
}

/// `e` is the error reported for an unacceptable input.
pub open spec fn input_problem(fields: Seq<FormField>, input: FieldInput, e: HtmlError) -> bool {
    match first_matching(fields, input.identifier@) {
        None => e matches HtmlError::FieldNotFound(n) && n@ == input.identifier@,
        Some(k) => match (fields[k].field_type, input.value) {
            (FormFieldType::Email, FieldValue::Text(v)) => {
                &&& !valid_email(v@)
                &&& e matches HtmlError::InvalidFieldValue { field, reason }
                &&& field@ == input.identifier@
                &&& reason@ == "'"@ + v@ + "' is not a valid email address"@
            },
            (FormFieldType::Select, FieldValue::Selected(v)) => {
                &&& !has_option(fields[k].options@, v@)
                &&& e matches HtmlError::InvalidFieldValue { field, reason }
                &&& field@ == input.identifier@
                &&& reason@ == "option '"@ + v@ + "' not found in select"@
            },
            _ => false,
        },
    }
}

fn option_exists(options: &Vec<SelectOption>, v: &str) -> (r: bool)
    ensures
        r == has_option(options@, v@),
{
    let vv = chars_of(v);
    let n = options.len();
    let mut i: usize = 0;
    while i < n
        invariant
            n == options@.len(),
            i <= n,
            vv@ == v@,
            forall|j: int| 0 <= j < i ==> !option_hit(#[trigger] options@[j], v@),
        decreases n - i,
    {
        let o = &options[i];
        let a = chars_of(o.value.as_str());
        let b = chars_of(o.label.as_str());
        if seq_eq_ignore_ascii_case(a.as_slice(), vv.as_slice()) || seq_eq_ignore_ascii_case(
            b.as_slice(),
            vv.as_slice(),
        ) {
            assert(option_hit(options@[i as int], v@));
            return true;
        }
        assert(!option_hit(options@[i as int], v@));
        i = i + 1;
    }
    assert(!has_option(options@, v@)) by {
        if has_option(options@, v@) {
            let w = choose|w: int| 0 <= w < options@.len() && option_hit(#[trigger] options@[w], v@);
            assert(!option_hit(options@[w], v@));
        }
    }
    false
}

/// Checks every input, in order, against the detected fields; the first
/// unacceptable input decides the error.
pub fn validate_inputs(detected: &[FormField], inputs: &[FieldInput]) -> (r: Result<(), HtmlError>)
    ensures
        r is Ok <==> forall|i: int| 0 <= i < inputs@.len() ==> input_valid(detected@, #[trigger] inputs@[i]),
        r matches Err(e) ==> exists|i: int|
            0 <= i < inputs@.len() && input_problem(detected@, #[trigger] inputs@[i], e) && forall|j: int|
                0 <= j < i ==> input_valid(detected@, #[trigger] inputs@[j]),
{
    let n = inputs.len();
    for i in 0..n
        invariant
            n == inputs@.len(),
            forall|j: int| 0 <= j < i ==> input_valid(detected@, #[trigger] inputs@[j]),
    {
        let input = &inputs[i];
        let field = match resolve_field(detected, input.identifier.as_str()) {
            Some(f) => f,
            None => {
                let e = HtmlError::FieldNotFound(input.identifier.clone());
                assert(input_problem(detected@, inputs@[i as int], e));
                return Err(e);
            },
        };
        match (&field.field_type, &input.value) {
            (FormFieldType::Email, FieldValue::Text(v)) => {
                if !is_valid_email(v.as_str()) {
                    let reason = "'".to_owned().concat(v.as_str()).concat("' is not a valid email address");
                    let e = HtmlError::InvalidFieldValue { field: input.identifier.clone(), reason };
                    assert(input_problem(detected@, inputs@[i as int], e));
                    return Err(e);
                }
            },
            (FormFieldType::Select, FieldValue::Selected(v)) => {
                if !option_exists(&field.options, v.as_str()) {
                    let reason = "option '".to_owned().concat(v.as_str()).concat("' not found in select");
                    let e = HtmlError::InvalidFieldValue { field: input.identifier.clone(), reason };
                    assert(input_problem(detected@, inputs@[i as int], e));
                    return Err(e);
                }
            },
            _ => {},
        }
        assert(input_valid(detected@, inputs@[i as int]));
    }
    Ok(())
}

} // verus!
