//! Laws of the generation engine, stated and proved over the same spec
//! functions the executable contracts use.

use vstd::prelude::*;

use crate::generator::{
    compile_spec, event_case_spec, field_type_spec, fixup_spec, projected_spec, CfgV, GenErrorV,
    SizeState,
};
use crate::ir::{DomainV, EventV, ProtocolV, TypeV};
use crate::names::{camel_of, has_prefix, local_part, prefix_part, snake_of};
use crate::output::{ContributionV, BOX_THRESHOLD, SIZE_BOX};
use crate::serde_support::{rename_spec, SerdeSupportV};

verus! {

/// The sum of the sizes of the first `i` deferred targets, read from the
/// size table as it stood when the fix-up pass began.
pub open spec fn deferred_sum(
    sizes: Map<Seq<char>, usize>,
    refs: Seq<(Seq<char>, Seq<char>)>,
    i: int,
) -> int
    decreases i,
{
    if i <= 0 {
        0
    } else {
        deferred_sum(sizes, refs, i - 1) + (if sizes.contains_key(refs[i - 1].1) {
            sizes[refs[i - 1].1] as int
        } else {
            0
        })
    }
}

pub proof fn lemma_deferred_sum_nonneg(
    sizes: Map<Seq<char>, usize>,
    refs: Seq<(Seq<char>, Seq<char>)>,
    i: int,
)
    ensures
        0 <= deferred_sum(sizes, refs, i),
    decreases i,
{
    if i > 0 {
        lemma_deferred_sum_nonneg(sizes, refs, i - 1);
    }
}

pub proof fn lemma_deferred_sum_bounds(
    sizes: Map<Seq<char>, usize>,
    refs: Seq<(Seq<char>, Seq<char>)>,
    i: int,
    j: int,
)
    requires
        0 <= i <= j,
    ensures
        0 <= deferred_sum(sizes, refs, i) <= deferred_sum(sizes, refs, j),
    decreases j - i,
{
    lemma_deferred_sum_nonneg(sizes, refs, i);
    if i < j {
        lemma_deferred_sum_bounds(sizes, refs, i, j - 1);
    }
}

/// The finalized size of a referencing type equals the sum of its resolved
/// field contributions: the directly accumulated part plus every deferred
/// (forward) reference's size, added by the fix-up pass. Stated for a
/// worklist of that type's non-self-referential references whose targets
/// all resolved, with the total inside the machine range.
pub proof fn lemma_finalized_size(st: SizeState, name: Seq<char>, i: int)
    requires
        0 <= i <= st.refs.len(),
        forall|j: int| 0 <= j < st.refs.len() ==> st.refs[j].0 == name,
        forall|j: int| 0 <= j < st.refs.len() ==> st.refs[j].1 != name,
        forall|j: int| 0 <= j < st.refs.len() ==> st.sizes.contains_key(st.refs[j].1),
        st.sizes.contains_key(name),
        st.sizes[name] + deferred_sum(st.sizes, st.refs, st.refs.len() as int) <= usize::MAX,
    ensures
        fixup_spec(st, i) == Result::<Map<Seq<char>, usize>, GenErrorV>::Ok(
            st.sizes.insert(
                name,
                (st.sizes[name] + deferred_sum(st.sizes, st.refs, i)) as usize,
            ),
        ),
    decreases i,
{
    lemma_deferred_sum_bounds(st.sizes, st.refs, i, st.refs.len() as int);
    if i <= 0 {
        assert(st.sizes.insert(name, st.sizes[name]) =~= st.sizes);
    } else {
        lemma_finalized_size(st, name, i - 1);
        lemma_deferred_sum_bounds(st.sizes, st.refs, i - 1, i);
        let t = st.refs[i - 1].1;
        let v_prev = (st.sizes[name] + deferred_sum(st.sizes, st.refs, i - 1)) as usize;
        let prev = st.sizes.insert(name, v_prev);
        assert(st.refs[i - 1].0 == name);
        assert(t != name);
        assert(prev.contains_key(t) && prev[t] == st.sizes[t]);
        assert(deferred_sum(st.sizes, st.refs, i) == deferred_sum(st.sizes, st.refs, i - 1)
            + st.sizes[t]);
        assert(prev.insert(name, (st.sizes[name] + deferred_sum(st.sizes, st.refs, i)) as usize)
            =~= st.sizes.insert(
            name,
            (st.sizes[name] + deferred_sum(st.sizes, st.refs, i)) as usize,
        ));
    }
}

/// A table entry read as a total: a missing entry counts as zero, as the
/// size accumulator treats it.
pub open spec fn entry_of(m: Map<Seq<char>, usize>, k: Seq<char>) -> int {
    if m.contains_key(k) {
        m[k] as int
    } else {
        0
    }
}

/// The sum over the first `i` worklist entries whose dependent is `name` of
/// their targets' sizes, read from the table as the fix-up pass found it.
pub open spec fn deferred_sum_for(
    sizes: Map<Seq<char>, usize>,
    refs: Seq<(Seq<char>, Seq<char>)>,
    name: Seq<char>,
    i: int,
) -> int
    decreases i,
{
    if i <= 0 {
        0
    } else {
        deferred_sum_for(sizes, refs, name, i - 1) + (if refs[i - 1].0 == name
            && sizes.contains_key(refs[i - 1].1) {
            sizes[refs[i - 1].1] as int
        } else {
            0
        })
    }
}

pub proof fn lemma_deferred_sum_for_bounds(
    sizes: Map<Seq<char>, usize>,
    refs: Seq<(Seq<char>, Seq<char>)>,
    name: Seq<char>,
    i: int,
    j: int,
)
    requires
        0 <= i <= j,
    ensures
        0 <= deferred_sum_for(sizes, refs, name, i) <= deferred_sum_for(sizes, refs, name, j),
    decreases i + j,
{
    if i > 0 {
        lemma_deferred_sum_for_bounds(sizes, refs, name, i - 1, i - 1);
    }
    if i < j {
        lemma_deferred_sum_for_bounds(sizes, refs, name, i, j - 1);
    }
}

/// The finalized-size law for a whole run's worklist, with several types'
/// deferred pairs interleaved in any order: after the first `i` entries are
/// drained, every dependent type's total equals its directly accumulated
/// size plus the sum of its drained targets' sizes, and every other entry
/// is untouched. Stated for worklists whose targets are not themselves
/// dependents, so each looked-up size is the one the synthesis pass
/// recorded; when a target is also a dependent, the looked-up size depends
/// on drain order, and only `fixup_spec` itself states the result.
pub proof fn lemma_finalized_sizes_interleaved(st: SizeState, i: int)
    requires
        0 <= i <= st.refs.len(),
        forall|j: int| 0 <= j < st.refs.len() ==> st.sizes.contains_key(#[trigger] st.refs[j].1),
        forall|j: int, k: int|
            0 <= j < st.refs.len() && 0 <= k < st.refs.len() ==> #[trigger] st.refs[j].1
                != #[trigger] st.refs[k].0,
        forall|j: int|
            0 <= j < st.refs.len() ==> entry_of(st.sizes, #[trigger] st.refs[j].0)
                + deferred_sum_for(st.sizes, st.refs, st.refs[j].0, st.refs.len() as int)
                <= usize::MAX,
    ensures
        fixup_spec(st, i) matches Result::Ok(sizes2) && (forall|j: int|
            0 <= j < st.refs.len() ==> entry_of(sizes2, #[trigger] st.refs[j].0) == entry_of(
                st.sizes,
                st.refs[j].0,
            ) + deferred_sum_for(st.sizes, st.refs, st.refs[j].0, i)) && (forall|k: Seq<char>|
            !(exists|j: int| 0 <= j < st.refs.len() && (#[trigger] st.refs[j]).0 == k) ==> (
            (#[trigger] sizes2.contains_key(k)) <==> st.sizes.contains_key(k)) && (
            st.sizes.contains_key(k) ==> sizes2[k] == st.sizes[k])),
    decreases i,
{
    if i > 0 {
        lemma_finalized_sizes_interleaved(st, i - 1);
        let prev = fixup_spec(st, i - 1)->Ok_0;
        let n = st.refs[i - 1].0;
        let t = st.refs[i - 1].1;
        assert(!(exists|j: int| 0 <= j < st.refs.len() && (#[trigger] st.refs[j]).0 == t));
        assert(prev.contains_key(t) && prev[t] == st.sizes[t]);
        assert(entry_of(prev, n) == entry_of(st.sizes, n) + deferred_sum_for(
            st.sizes,
            st.refs,
            n,
            i - 1,
        ));
        assert(deferred_sum_for(st.sizes, st.refs, n, i) == deferred_sum_for(
            st.sizes,
            st.refs,
            n,
            i - 1,
        ) + st.sizes[t]);
        lemma_deferred_sum_for_bounds(st.sizes, st.refs, n, i, st.refs.len() as int);
        lemma_deferred_sum_for_bounds(st.sizes, st.refs, n, i - 1, i);
        assert(entry_of(st.sizes, n) + deferred_sum_for(st.sizes, st.refs, n, i) <= usize::MAX);
        let sizes2 = fixup_spec(st, i)->Ok_0;
        assert(sizes2 == prev.insert(
            n,
            crate::table::sat_add(
                if prev.contains_key(n) {
                    prev[n]
                } else {
                    0
                },
                prev[t],
            ),
        ));
        assert forall|j: int| 0 <= j < st.refs.len() implies entry_of(
            sizes2,
            #[trigger] st.refs[j].0,
        ) == entry_of(st.sizes, st.refs[j].0) + deferred_sum_for(
            st.sizes,
            st.refs,
            st.refs[j].0,
            i,
        ) by {
            if st.refs[j].0 != n {
                assert(deferred_sum_for(st.sizes, st.refs, st.refs[j].0, i) == deferred_sum_for(
                    st.sizes,
                    st.refs,
                    st.refs[j].0,
                    i - 1,
                ));
            }
        }
        assert forall|k: Seq<char>|
            !(exists|j: int| 0 <= j < st.refs.len() && (#[trigger] st.refs[j]).0 == k) implies (
        (#[trigger] sizes2.contains_key(k)) <==> st.sizes.contains_key(k)) && (
        st.sizes.contains_key(k) ==> sizes2[k] == st.sizes[k]) by {
            assert(0 <= i - 1 < st.refs.len() && st.refs[i - 1].0 == n);
            assert(k != n);
            assert(fixup_spec(st, i - 1) is Ok);
            assert(!(exists|j: int| 0 <= j < st.refs.len() && (#[trigger] st.refs[j]).0 == k));
            assert(prev.contains_key(k) <==> st.sizes.contains_key(k));
            assert(st.sizes.contains_key(k) ==> prev[k] == st.sizes[k]);
            assert(sizes2.contains_key(k) == prev.contains_key(k));
        }
    }
}

/// A self-referential reference field always produces exactly one level of
/// indirection, with the fixed size of a pointer-sized handle — never an
/// inlined value, however often the type refers to itself: every such field
/// resolves this way, independently of the rest of the record.
pub proof fn lemma_self_ref_boxed(
    c: CfgV,
    dname: Seq<char>,
    parent: Seq<char>,
    pname: Seq<char>,
    rname: Seq<char>,
)
    requires
        rname == parent,
    ensures
        field_type_spec(c, dname, parent, pname, TypeV::Ref(rname)) matches Result::Ok(p)
            && p.0.wrap is Boxed && p.0.inner == camel_of(rname) && p.1 == ContributionV::Fixed(
            SIZE_BOX,
        ),
{
}

/// Whether the synthesized field list holds a field of the given name
/// whose type is the given path behind exactly one indirection.
pub open spec fn boxed_field_present(
    fields: Seq<(Seq<char>, crate::output::FieldDefinitionV)>,
    fname: Seq<char>,
    inner: Seq<char>,
) -> bool {
    exists|k: int|
        0 <= k < fields.len() && (#[trigger] fields[k]).1.name == fname && fields[k].1.ty.wrap
            is Boxed && fields[k].1.ty.inner == inner
}

/// Across a whole record: every kept parameter that refers to its own
/// enclosing type yields a field wrapped in exactly one indirection, no
/// matter how many such parameters the record holds.
pub proof fn lemma_record_self_refs_boxed(
    c: CfgV,
    st: SizeState,
    dname: Seq<char>,
    dt_name: Seq<char>,
    struct_ident: Seq<char>,
    params: Seq<crate::ir::ParamV>,
    i: int,
)
    requires
        0 <= i <= params.len(),
        crate::generator::struct_fields_spec(c, st, dname, dt_name, struct_ident, params, i)
            is Ok,
    ensures
        forall|j: int|
            0 <= j < i && crate::generator::included_param(c, #[trigger] params[j]) && params[j].ty
                == TypeV::Ref(dt_name) ==> boxed_field_present(
                crate::generator::struct_fields_spec(
                    c,
                    st,
                    dname,
                    dt_name,
                    struct_ident,
                    params,
                    i,
                )->Ok_0.fields,
                crate::names::field_name_spec(params[j].name),
                camel_of(dt_name),
            ),
    decreases i,
{
    if i > 0 {
        lemma_record_self_refs_boxed(c, st, dname, dt_name, struct_ident, params, i - 1);
        let prev = crate::generator::struct_fields_spec(
            c,
            st,
            dname,
            dt_name,
            struct_ident,
            params,
            i - 1,
        )->Ok_0;
        let cur = crate::generator::struct_fields_spec(
            c,
            st,
            dname,
            dt_name,
            struct_ident,
            params,
            i,
        )->Ok_0;
        assert forall|j: int|
            0 <= j < i && crate::generator::included_param(c, #[trigger] params[j]) && params[j].ty
                == TypeV::Ref(dt_name) implies boxed_field_present(
            cur.fields,
            crate::names::field_name_spec(params[j].name),
            camel_of(dt_name),
        ) by {
            if j < i - 1 {
                let k0 = choose|k: int|
                    0 <= k < prev.fields.len() && (#[trigger] prev.fields[k]).1.name
                        == crate::names::field_name_spec(params[j].name) && prev.fields[k].1.ty.wrap
                        is Boxed && prev.fields[k].1.ty.inner == camel_of(dt_name);
                assert(cur.fields[k0] == prev.fields[k0]);
            } else {
                lemma_self_ref_boxed(c, dname, dt_name, params[j].name, dt_name);
                let k0 = cur.fields.len() - 1;
                assert(0 <= k0 < cur.fields.len() && cur.fields[k0].1.name
                    == crate::names::field_name_spec(params[j].name) && cur.fields[k0].1.ty.wrap
                    is Boxed && cur.fields[k0].1.ty.inner == camel_of(dt_name));
            }
        }
    }
}

/// An event's union payload is embedded inline exactly when the event
/// record's finalized size is below the boxing threshold; from the
/// threshold upwards it is wrapped in one level of heap indirection.
pub proof fn lemma_event_payload(
    c: CfgV,
    sizes: Map<Seq<char>, usize>,
    domain: DomainV,
    ev: EventV,
)
    requires
        c.domains.contains_key(domain.name),
        sizes.contains_key(camel_of(ev.name)),
    ensures
        event_case_spec(c, sizes, domain, ev) matches Result::Ok(p) && ({
            let path = "super::"@ + c.mods[c.domains[domain.name] as int] + "::"@ + snake_of(
                domain.name,
            ) + "::"@ + camel_of(ev.name);
            let head = rename_spec(c.serde, domain.name + "."@ + ev.name) + (if ev.deprecated {
                "#[deprecated]\n"@
            } else {
                Seq::<char>::empty()
            }) + camel_of(domain.name) + camel_of(ev.name) + "("@;
            &&& sizes[camel_of(ev.name)] < BOX_THRESHOLD ==> p.0 == head + path + "),\n"@
            &&& sizes[camel_of(ev.name)] >= BOX_THRESHOLD ==> p.0 == head + ("Box<"@ + path
                + ">"@) + "),\n"@
        }),
{
}

/// A reference's resolved path traverses the referenced document's
/// top-level module exactly when the referencing and referenced domains
/// were registered from different input documents; a same-document
/// cross-domain reference is a sibling module one level up, without that
/// extra segment.
pub proof fn lemma_cross_document_path(c: CfgV, cur: Seq<char>, name: Seq<char>)
    requires
        has_prefix(name),
        c.domains.contains_key(cur),
        c.domains.contains_key(prefix_part(name)),
    ensures
        c.domains[cur] == c.domains[prefix_part(name)] ==> projected_spec(c, cur, name)
            == Result::<Seq<char>, GenErrorV>::Ok(
            "super::"@ + snake_of(prefix_part(name)) + "::"@ + camel_of(local_part(name)),
        ),
        c.domains[cur] != c.domains[prefix_part(name)] ==> projected_spec(c, cur, name)
            == Result::<Seq<char>, GenErrorV>::Ok(
            "super::super::"@ + c.mods[c.domains[prefix_part(name)] as int] + "::"@ + snake_of(
                prefix_part(name),
            ) + "::"@ + camel_of(local_part(name)),
        ),
{
}

/// Idempotence: the output of a run is a function of the configuration and
/// the parsed input documents alone — `compile_protocols` pins its result
/// to `compile_spec` of its inputs' views — so two runs over byte-identical
/// inputs with identical configuration produce identical output text.
pub proof fn lemma_generation_deterministic(
    serde1: SerdeSupportV,
    serde2: SerdeSupportV,
    with_experimental1: bool,
    with_experimental2: bool,
    with_deprecated1: bool,
    with_deprecated2: bool,
    target1: Option<Seq<char>>,
    target2: Option<Seq<char>>,
    protos1: Seq<ProtocolV>,
    protos2: Seq<ProtocolV>,
    mods1: Seq<Seq<char>>,
    mods2: Seq<Seq<char>>,
)
    requires
        serde1 == serde2,
        with_experimental1 == with_experimental2,
        with_deprecated1 == with_deprecated2,
        target1 == target2,
        protos1 == protos2,
        mods1 == mods2,
    ensures
        compile_spec(serde1, with_experimental1, with_deprecated1, target1, protos1, mods1)
            == compile_spec(serde2, with_experimental2, with_deprecated2, target2, protos2, mods2),
{
}

} // verus!
