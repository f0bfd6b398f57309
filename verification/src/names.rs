//! Identifier shaping: case conversion, keyword escaping, and splitting of
//! dot-qualified type references.

use vstd::prelude::*;

verus! {

/// The UpperCamelCase form of a string: the result of `heck`'s conversion,
/// a function of the characters alone.
pub uninterp spec fn camel_of(s: Seq<char>) -> Seq<char>;

/// The snake_case form of a string: the result of `heck`'s conversion,
/// a function of the characters alone.
pub uninterp spec fn snake_of(s: Seq<char>) -> Seq<char>;

/// Relies on `heck::ToUpperCamelCase` for `str`: the result depends on the
/// input characters alone.
#[verifier::external_body]
pub fn to_camel(s: &str) -> (r: String)
    ensures
        r@ == camel_of(s@),
{
    heck::ToUpperCamelCase::to_upper_camel_case(s)
}

/// Relies on `heck::ToSnakeCase` for `str`: the result depends on the input
/// characters alone.
#[verifier::external_body]
pub fn to_snake(s: &str) -> (r: String)
    ensures
        r@ == snake_of(s@),
{
    heck::ToSnakeCase::to_snake_case(s)
}

/// Escapes names that collide with reserved words of the output language.
pub open spec fn escaped(s: Seq<char>) -> Seq<char> {
    if s == "type"@ {
        "r#type"@
    } else if s == "mod"@ {
        "r#mod"@
    } else if s == "override"@ {
        "r#override"@
    } else {
        s
    }
}

/// The name a parameter gets as a record field: snake case, keyword-escaped.
pub open spec fn field_name_spec(s: Seq<char>) -> Seq<char> {
    escaped(snake_of(s))
}

/// The name a datatype gets as an output type: camel case, keyword-escaped.
pub open spec fn ty_name_spec(s: Seq<char>) -> Seq<char> {
    escaped(camel_of(s))
}

/// The name of an enum hoisted out of a parameter: parent type name followed
/// by the field name, both camel-cased.
pub open spec fn subenum_name_spec(parent: Seq<char>, inner: Seq<char>) -> Seq<char> {
    camel_of(parent) + ty_name_spec(inner)
}

fn escape_keywords(name: String) -> (r: String)
    ensures
        r@ == escaped(name@),
{
    if name == String::from_str("type") {
        String::from_str("r#type")
    } else if name == String::from_str("mod") {
        String::from_str("r#mod")
    } else if name == String::from_str("override") {
        String::from_str("r#override")
    } else {
        name
    }
}

/// Escapes reserved output-language keywords after snake-casing.
pub fn field_name(name: &str) -> (r: String)
    ensures
        r@ == field_name_spec(name@),
{
    escape_keywords(to_snake(name))
}

/// Escapes reserved output-language keywords after camel-casing.
pub fn ty_name(name: &str) -> (r: String)
    ensures
        r@ == ty_name_spec(name@),
{
    escape_keywords(to_camel(name))
}

/// Creates the name for an enum hoisted out of a parameter declared inside a
/// datatype: the parent's camel-cased name followed by the field's.
pub fn subenum_name(parent: &str, inner: &str) -> (r: String)
    ensures
        r@ == subenum_name_spec(parent@, inner@),
{
    let t = ty_name(inner);
    to_camel(parent).concat(t.as_str())
}

/// Index of the last `.` in `s`, or `-1` when `s` holds none.
pub open spec fn last_dot_of(s: Seq<char>) -> int
    decreases s.len(),
{
    if s.len() == 0 {
        -1
    } else if s[s.len() - 1] == '.' {
        s.len() - 1
    } else {
        last_dot_of(s.drop_last())
    }
}

/// Whether `s` is a qualified name, one with a domain prefix before a `.`.
pub open spec fn has_prefix(s: Seq<char>) -> bool {
    last_dot_of(s) >= 0
}

/// The part of `s` after its last `.`, or all of `s` when it has none.
pub open spec fn local_part(s: Seq<char>) -> Seq<char> {
    if !has_prefix(s) {
        s
    } else {
        s.subrange(last_dot_of(s) + 1, s.len() as int)
    }
}

/// The part of `s` before its last `.`; empty when it has none.
pub open spec fn prefix_part(s: Seq<char>) -> Seq<char> {
    if !has_prefix(s) {
        Seq::empty()
    } else {
        s.subrange(0, last_dot_of(s))
    }
}

pub proof fn lemma_last_dot(s: Seq<char>)
    ensures
        last_dot_of(s) == -1 ==> forall|j: int| 0 <= j < s.len() ==> s[j] != '.',
        last_dot_of(s) >= 0 ==> 0 <= last_dot_of(s) < s.len() && s[last_dot_of(s)] == '.' && forall|
            j: int,
        | last_dot_of(s) < j < s.len() ==> s[j] != '.',
    decreases s.len(),
{
    if s.len() == 0 {
    } else if s[s.len() - 1] == '.' {
    } else {
        lemma_last_dot(s.drop_last());
        assert(forall|j: int| 0 <= j < s.len() - 1 ==> s[j] == s.drop_last()[j]);
    }
}

pub proof fn lemma_last_dot_unique(s: Seq<char>, i: int)
    requires
        0 <= i < s.len(),
        s[i] == '.',
        forall|j: int| i < j < s.len() ==> s[j] != '.',
    ensures
        last_dot_of(s) == i,
    decreases s.len(),
{
    if s[s.len() - 1] == '.' {
        assert(i == s.len() - 1);
    } else {
        assert(i < s.len() - 1);
        assert(s.drop_last()[i] == s[i]);
        assert(forall|j: int| i < j < s.len() - 1 ==> s.drop_last()[j] == s[j]);
        lemma_last_dot_unique(s.drop_last(), i);
    }
}

pub proof fn lemma_no_dot(s: Seq<char>)
    requires
        forall|j: int| 0 <= j < s.len() ==> s[j] != '.',
    ensures
        last_dot_of(s) == -1,
    decreases s.len(),
{
    if s.len() > 0 {
        assert(forall|j: int| 0 <= j < s.len() - 1 ==> s.drop_last()[j] == s[j]);
        lemma_no_dot(s.drop_last());
    }
}

/// Splits a qualified reference name at its last `.` into an optional domain
/// prefix and the local type name.
pub fn split_qualified(name: &str) -> (r: (Option<String>, String))
    ensures
        has_prefix(name@) ==> (r.0 matches Some(p) && p@ == prefix_part(name@)),
        !has_prefix(name@) ==> r.0 is None,
        r.1@ == local_part(name@),
{
    let len = name.unicode_len();
    let mut i: usize = 0;
    let mut last: Option<usize> = None;
    while i < len
        invariant
            len == name@.len(),
            i <= len,
            match last {
                Some(k) => k < i && name@[k as int] == '.' && forall|j: int|
                    k < j < i ==> name@[j] != '.',
                None => forall|j: int| 0 <= j < i ==> name@[j] != '.',
            },
        decreases len - i,
    {
        if name.get_char(i) == '.' {
            last = Some(i);
        }
        i += 1;
    }
    match last {
        Some(k) => {
            proof {
                lemma_last_dot_unique(name@, k as int);
            }
            let prefix = name.substring_char(0, k).to_owned();
            let local = name.substring_char(k + 1, len).to_owned();
            assert(prefix@ =~= prefix_part(name@));
            assert(local@ =~= local_part(name@));
            (Some(prefix), local)
        },
        None => {
            proof {
                lemma_no_dot(name@);
            }
            (None, name.to_owned())
        },
    }
}

} // verus!
