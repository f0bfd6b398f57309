//! The wire-string behaviour of a generated enum.
//!
//! For every enum the generator emits two conversion functions: case to
//! canonical wire string, and wire string to case or an error carrying the
//! unrecognized string (see `generate_enum_str_fns`). These functions model
//! that behaviour over the variant list itself, so the round trip with the
//! wire representation can be stated and proved.

use vstd::prelude::*;

use crate::ir::{variants_view, Variant, VariantV};

verus! {

/// The case the generated string-to-case function selects: the first
/// variant whose wire name is `s`.
pub open spec fn parse_variant_spec(vs: Seq<VariantV>, s: Seq<char>) -> Option<int>
    decreases vs.len(),
{
    if vs.len() == 0 {
        Option::None
    } else if vs[0].name == s {
        Option::Some(0)
    } else {
        match parse_variant_spec(vs.drop_first(), s) {
            Option::Some(i) => Option::Some(i + 1),
            Option::None => Option::None,
        }
    }
}

pub proof fn lemma_parse_hit(vs: Seq<VariantV>, s: Seq<char>, i: int)
    requires
        0 <= i < vs.len(),
        vs[i].name == s,
        forall|j: int| 0 <= j < i ==> vs[j].name != s,
    ensures
        parse_variant_spec(vs, s) == Option::Some(i),
    decreases vs.len(),
{
    if i == 0 {
    } else {
        assert(vs[0].name != s);
        assert(vs.drop_first()[i - 1] == vs[i]);
        assert(forall|j: int| 0 <= j < i - 1 ==> vs.drop_first()[j] == vs[j + 1]);
        lemma_parse_hit(vs.drop_first(), s, i - 1);
    }
}

pub proof fn lemma_parse_miss(vs: Seq<VariantV>, s: Seq<char>)
    requires
        forall|j: int| 0 <= j < vs.len() ==> vs[j].name != s,
    ensures
        parse_variant_spec(vs, s) is None,
    decreases vs.len(),
{
    if vs.len() > 0 {
        assert(forall|j: int| 0 <= j < vs.len() - 1 ==> vs.drop_first()[j] == vs[j + 1]);
        lemma_parse_miss(vs.drop_first(), s);
    }
}

/// The selected case bears the parsed string as its wire name, so printing
/// it yields the original string.
pub proof fn lemma_wire_round_trip(vs: Seq<VariantV>, s: Seq<char>)
    requires
        exists|i: int| 0 <= i < vs.len() && vs[i].name == s,
    ensures
        parse_variant_spec(vs, s) matches Option::Some(i) && 0 <= i < vs.len() && vs[i].name == s,
    decreases vs.len(),
{
    if vs.len() > 0 {
        if vs[0].name == s {
        } else {
            let w = choose|i: int| 0 <= i < vs.len() && vs[i].name == s;
            assert(vs.drop_first()[w - 1] == vs[w]);
            lemma_wire_round_trip(vs.drop_first(), s);
        }
    }
}

/// The case-to-string function of a generated enum: a case's canonical wire
/// string is its variant's declared name.
pub fn variant_wire_str(variants: &Vec<Variant>, i: usize) -> (r: String)
    requires
        i < variants@.len(),
    ensures
        r@ == variants_view(variants@)[i as int].name,
{
    variants[i].name.clone()
}

/// The string-to-case function of a generated enum: the first case whose
/// wire name is `s`, or an error carrying the unrecognized string.
pub fn parse_wire_str(variants: &Vec<Variant>, s: &str) -> (r: Result<usize, String>)
    ensures
        match parse_variant_spec(variants_view(variants@), s@) {
            Option::Some(i) => (r matches Ok(k) && k as int == i),
            Option::None => (r matches Err(m) && m@ == s@),
        },
{
    let ghost vs = variants_view(variants@);
    let owned = s.to_owned();
    let mut i: usize = 0;
    while i < variants.len()
        invariant
            i <= variants@.len(),
            vs == variants_view(variants@),
            vs.len() == variants@.len(),
            forall|j: int| 0 <= j < variants@.len() ==> vs[j] == variants@[j]@,
            owned@ == s@,
            forall|j: int| 0 <= j < i ==> vs[j].name != s@,
        decreases variants@.len() - i,
    {
        if variants[i].name == owned {
            proof {
                lemma_parse_hit(vs, s@, i as int);
            }
            return Ok(i);
        }
        i += 1;
    }
    proof {
        lemma_parse_miss(vs, s@);
    }
    Err(owned)
}

} // verus!
