//! The generation engine: configuration, type-reference resolution with size
//! tracking, struct/enum synthesis, the deferred size fix-up pass, and the
//! global event union.

use vstd::prelude::*;

use crate::ir::{
    domains_view, params_view, protocols_view, strings_view, variants_view, DatatypeV, Domain,
    DomainDatatype, DomainV, Param, ParamV, Protocol, ProtocolV, TypeV, Variant, VariantV,
};
use crate::names::{
    camel_of, field_name, field_name_spec, has_prefix, local_part, prefix_part, snake_of,
    split_qualified, subenum_name, subenum_name_spec, to_camel, to_snake,
};
use crate::output::{
    builder_fields_view, builder_impl_spec, doc_spec, fdefs_of, field_def_spec, has_mandatory_spec,
    render_spec, struct_def_spec, Builder, Contribution, ContributionV, FieldDefinition,
    FieldDefinitionV, FieldType,
    FieldTypeV, Wrap, BOX_THRESHOLD, SIZE_BINARY, SIZE_BOOLEAN, SIZE_BOX, SIZE_ENUM, SIZE_INTEGER,
    SIZE_LIST, SIZE_NUMBER, SIZE_OPAQUE, SIZE_STRING,
};
use crate::serde_support::{
    derives_spec, enum_derives_spec, event_derives_spec, imports_spec, rename_spec, tag_spec,
    variant_spec, SerdeSupport, SerdeSupportV,
};
use crate::table::{sat_add, NameTable};

verus! {

/// A failure that halts generation: the input set or the generator's own
/// state is inconsistent, and partially resolved output must not be emitted.
#[derive(Debug)]
pub enum GenError {
    /// A reference names a domain that no input document defines.
    UnknownDomain(String),
    /// A deferred size reference never resolved once all domains were seen.
    UnresolvedRef(String),
    /// An event's record type had no tracked size at union assembly.
    MissingEventSize(String),
}

pub enum GenErrorV {
    UnknownDomain(Seq<char>),
    UnresolvedRef(Seq<char>),
    MissingEventSize(Seq<char>),
}

impl View for GenError {
    type V = GenErrorV;

    open spec fn view(&self) -> GenErrorV {
        match self {
            GenError::UnknownDomain(s) => GenErrorV::UnknownDomain(s@),
            GenError::UnresolvedRef(s) => GenErrorV::UnresolvedRef(s@),
            GenError::MissingEventSize(s) => GenErrorV::MissingEventSize(s@),
        }
    }
}

impl GenError {
    /// A plain description of the failure, for reporting by the caller.
    pub fn message(&self) -> (r: String)
        ensures
            match self@ {
                GenErrorV::UnknownDomain(s) => r@ == "no domain registered for "@ + s,
                GenErrorV::UnresolvedRef(s) => r@ == "no type found for ref "@ + s,
                GenErrorV::MissingEventSize(s) => r@ == "no size tracked for event "@ + s,
            },
    {
        match self {
            GenError::UnknownDomain(s) => {
                let r = String::from_str("no domain registered for ").concat(s.as_str());
                proof {
                    assert(r@ =~= "no domain registered for "@ + s@);
                }
                r
            },
            GenError::UnresolvedRef(s) => {
                let r = String::from_str("no type found for ref ").concat(s.as_str());
                proof {
                    assert(r@ =~= "no type found for ref "@ + s@);
                }
                r
            },
            GenError::MissingEventSize(s) => {
                let r = String::from_str("no size tracked for event ").concat(s.as_str());
                proof {
                    assert(r@ =~= "no size tracked for event "@ + s@);
                }
                r
            },
        }
    }
}

/// The read-only configuration a generation run resolves against.
pub struct CfgV {
    pub serde: SerdeSupportV,
    pub with_experimental: bool,
    pub with_deprecated: bool,
    pub domains: Map<Seq<char>, usize>,
    pub mods: Seq<Seq<char>>,
}

/// The mutable resolution state of a run: the per-type size table and the
/// deferred-reference worklist.
pub struct SizeState {
    pub sizes: Map<Seq<char>, usize>,
    pub refs: Seq<(Seq<char>, Seq<char>)>,
}

/// Generates target-language source text for a protocol definition set.
pub struct Generator {
    pub serde_support: SerdeSupport,
    pub with_experimental: bool,
    pub with_deprecated: bool,
    pub out_dir: Option<String>,
    pub protocol_mods: Vec<String>,
    pub domains: NameTable,
    pub target_mod: Option<String>,
    pub type_size: NameTable,
    pub ref_sizes: Vec<(String, String)>,
}

pub open spec fn ref_sizes_view(rs: Seq<(String, String)>) -> Seq<(Seq<char>, Seq<char>)> {
    rs.map_values(|r: (String, String)| (r.0@, r.1@))
}

impl Generator {
    /// Both lookup tables are sound and every registered domain points at an
    /// input document.
    pub open spec fn inv(&self) -> bool {
        &&& self.domains.wf()
        &&& self.type_size.wf()
        &&& forall|k: Seq<char>|
            self.domains@.contains_key(k) ==> self.domains@[k] < self.protocol_mods@.len()
    }

    pub open spec fn cfg(&self) -> CfgV {
        CfgV {
            serde: self.serde_support@,
            with_experimental: self.with_experimental,
            with_deprecated: self.with_deprecated,
            domains: self.domains@,
            mods: strings_view(self.protocol_mods@),
        }
    }

    pub open spec fn state(&self) -> SizeState {
        SizeState { sizes: self.type_size@, refs: ref_sizes_view(self.ref_sizes@) }
    }

    /// Everything but the size table and the deferred worklist is untouched.
    pub open spec fn cfg_unchanged(a: Generator, b: Generator) -> bool {
        &&& a.serde_support == b.serde_support
        &&& a.with_experimental == b.with_experimental
        &&& a.with_deprecated == b.with_deprecated
        &&& a.out_dir == b.out_dir
        &&& a.protocol_mods == b.protocol_mods
        &&& a.domains == b.domains
        &&& a.target_mod == b.target_mod
    }
}

impl Default for Generator {
    fn default() -> (r: Self)
        ensures
            r.inv(),
            r.serde_support@ is AlwaysOn,
            r.with_experimental,
            !r.with_deprecated,
            r.out_dir is None,
            r.protocol_mods@.len() == 0,
            r.domains@ == Map::<Seq<char>, usize>::empty(),
            r.target_mod is None,
            r.type_size@ == Map::<Seq<char>, usize>::empty(),
            r.ref_sizes@.len() == 0,
    {
        Generator {
            serde_support: SerdeSupport::AlwaysOn,
            with_experimental: true,
            with_deprecated: false,
            out_dir: None,
            protocol_mods: Vec::new(),
            domains: NameTable::new(),
            target_mod: None,
            type_size: NameTable::new(),
            ref_sizes: Vec::new(),
        }
    }
}

impl Generator {
    /// Configures where the caller writes the generated artifact; unset means
    /// the caller falls back to its build environment.
    pub fn out_dir(&mut self, path: String)
        ensures
            final(self).out_dir matches Some(p) && p@ == path@,
            final(self).serde_support == old(self).serde_support,
            final(self).with_experimental == old(self).with_experimental,
            final(self).with_deprecated == old(self).with_deprecated,
            final(self).protocol_mods == old(self).protocol_mods,
            final(self).domains == old(self).domains,
            final(self).target_mod == old(self).target_mod,
            final(self).type_size == old(self).type_size,
            final(self).ref_sizes == old(self).ref_sizes,
    {
        self.out_dir = Some(path);
    }

    /// Configures the serialization support included for generated types.
    pub fn serde(&mut self, serde: SerdeSupport)
        ensures
            final(self).serde_support == serde,
            final(self).with_experimental == old(self).with_experimental,
            final(self).with_deprecated == old(self).with_deprecated,
            final(self).out_dir == old(self).out_dir,
            final(self).protocol_mods == old(self).protocol_mods,
            final(self).domains == old(self).domains,
            final(self).target_mod == old(self).target_mod,
            final(self).type_size == old(self).type_size,
            final(self).ref_sizes == old(self).ref_sizes,
    {
        self.serde_support = serde;
    }

    /// Configures whether experimental datatypes and fields are included.
    pub fn experimental(&mut self, experimental: bool)
        ensures
            final(self).with_experimental == experimental,
            final(self).serde_support == old(self).serde_support,
            final(self).with_deprecated == old(self).with_deprecated,
            final(self).out_dir == old(self).out_dir,
            final(self).protocol_mods == old(self).protocol_mods,
            final(self).domains == old(self).domains,
            final(self).target_mod == old(self).target_mod,
            final(self).type_size == old(self).type_size,
            final(self).ref_sizes == old(self).ref_sizes,
    {
        self.with_experimental = experimental;
    }

    /// Configures whether deprecated datatypes and fields are included.
    pub fn deprecated(&mut self, deprecated: bool)
        ensures
            final(self).with_deprecated == deprecated,
            final(self).serde_support == old(self).serde_support,
            final(self).with_experimental == old(self).with_experimental,
            final(self).out_dir == old(self).out_dir,
            final(self).protocol_mods == old(self).protocol_mods,
            final(self).domains == old(self).domains,
            final(self).target_mod == old(self).target_mod,
            final(self).type_size == old(self).type_size,
            final(self).ref_sizes == old(self).ref_sizes,
    {
        self.with_deprecated = deprecated;
    }

    /// Configures the name of the generated top-level module.
    pub fn target_mod(&mut self, mod_name: String)
        ensures
            final(self).target_mod matches Some(m) && m@ == mod_name@,
            final(self).serde_support == old(self).serde_support,
            final(self).with_experimental == old(self).with_experimental,
            final(self).with_deprecated == old(self).with_deprecated,
            final(self).out_dir == old(self).out_dir,
            final(self).protocol_mods == old(self).protocol_mods,
            final(self).domains == old(self).domains,
            final(self).type_size == old(self).type_size,
            final(self).ref_sizes == old(self).ref_sizes,
    {
        self.target_mod = Some(mod_name);
    }
}

/// How one field contribution changes the resolution state: a known size is
/// added to the type's total at once, a deferred one joins the worklist.
pub open spec fn store_size_spec(st: SizeState, ty: Seq<char>, size: ContributionV) -> SizeState {
    match size {
        ContributionV::Fixed(n) => SizeState {
            sizes: st.sizes.insert(
                ty,
                sat_add(
                    if st.sizes.contains_key(ty) {
                        st.sizes[ty]
                    } else {
                        0
                    },
                    n,
                ),
            ),
            refs: st.refs,
        },
        ContributionV::Deferred(name) => SizeState { sizes: st.sizes, refs: st.refs.push((ty, name)) },
    }
}

/// The output path of a type reference, seen from inside `cur`'s module: a
/// sibling type, a sibling domain's type one level up, or, when the
/// referenced domain lives in another input document, a path through that
/// document's top-level module.
pub open spec fn projected_spec(c: CfgV, cur: Seq<char>, name: Seq<char>) -> Result<
    Seq<char>,
    GenErrorV,
> {
    if !has_prefix(name) {
        Result::Ok(camel_of(name))
    } else {
        let p = prefix_part(name);
        let l = local_part(name);
        if !c.domains.contains_key(cur) {
            Result::Err(GenErrorV::UnknownDomain(cur))
        } else if !c.domains.contains_key(p) {
            Result::Err(GenErrorV::UnknownDomain(p))
        } else if c.domains[cur] == c.domains[p] {
            Result::Ok("super::"@ + snake_of(p) + "::"@ + camel_of(l))
        } else {
            Result::Ok(
                "super::super::"@ + c.mods[c.domains[p] as int] + "::"@ + snake_of(p) + "::"@
                    + camel_of(l),
            )
        }
    }
}

pub open spec fn res_str_view(r: Result<String, GenError>) -> Result<Seq<char>, GenErrorV> {
    match r {
        Result::Ok(s) => Result::Ok(s@),
        Result::Err(e) => Result::Err(e@),
    }
}

/// The resolved output type and size contribution of one field.
pub open spec fn field_type_spec(
    c: CfgV,
    dname: Seq<char>,
    parent: Seq<char>,
    param_name: Seq<char>,
    ty: TypeV,
) -> Result<(FieldTypeV, ContributionV), GenErrorV>
    decreases ty,
{
    match ty {
        TypeV::Integer => Result::Ok(
            (
                FieldTypeV { wrap: Wrap::Direct, inner: "i64"@ },
                ContributionV::Fixed(SIZE_INTEGER),
            ),
        ),
        TypeV::Number => Result::Ok(
            (FieldTypeV { wrap: Wrap::Direct, inner: "f64"@ }, ContributionV::Fixed(SIZE_NUMBER)),
        ),
        TypeV::Boolean => Result::Ok(
            (
                FieldTypeV { wrap: Wrap::Direct, inner: "bool"@ },
                ContributionV::Fixed(SIZE_BOOLEAN),
            ),
        ),
        TypeV::Str => Result::Ok(
            (
                FieldTypeV { wrap: Wrap::Direct, inner: "String"@ },
                ContributionV::Fixed(SIZE_STRING),
            ),
        ),
        TypeV::Object => Result::Ok(
            (
                FieldTypeV { wrap: Wrap::Direct, inner: "serde_json::Value"@ },
                ContributionV::Fixed(SIZE_OPAQUE),
            ),
        ),
        TypeV::Any => Result::Ok(
            (
                FieldTypeV { wrap: Wrap::Direct, inner: "serde_json::Value"@ },
                ContributionV::Fixed(SIZE_OPAQUE),
            ),
        ),
        TypeV::Binary => Result::Ok(
            (FieldTypeV { wrap: Wrap::List, inner: "u8"@ }, ContributionV::Fixed(SIZE_BINARY)),
        ),
        TypeV::Enum(_) => Result::Ok(
            (
                FieldTypeV { wrap: Wrap::Direct, inner: subenum_name_spec(parent, param_name) },
                ContributionV::Fixed(SIZE_ENUM),
            ),
        ),
        TypeV::ArrayOf(t) => match *t {
            TypeV::Ref(rname) => match projected_spec(c, dname, rname) {
                Result::Ok(path) => Result::Ok(
                    (FieldTypeV { wrap: Wrap::List, inner: path }, ContributionV::Fixed(SIZE_LIST)),
                ),
                Result::Err(e) => Result::Err(e),
            },
            _ => match field_type_spec(c, dname, parent, param_name, *t) {
                Result::Ok((ft, _)) => Result::Ok(
                    (
                        FieldTypeV { wrap: Wrap::List, inner: render_spec(ft) },
                        ContributionV::Fixed(SIZE_LIST),
                    ),
                ),
                Result::Err(e) => Result::Err(e),
            },
        },
        TypeV::Ref(rname) => if rname == parent {
            Result::Ok(
                (
                    FieldTypeV { wrap: Wrap::Boxed, inner: camel_of(rname) },
                    ContributionV::Fixed(SIZE_BOX),
                ),
            )
        } else {
            match projected_spec(c, dname, rname) {
                Result::Ok(path) => Result::Ok(
                    (
                        FieldTypeV { wrap: Wrap::Direct, inner: path },
                        ContributionV::Deferred(camel_of(local_part(rname))),
                    ),
                ),
                Result::Err(e) => Result::Err(e),
            }
        },
    }
}

pub open spec fn res_ft_view(r: Result<(FieldType, Contribution), GenError>) -> Result<
    (FieldTypeV, ContributionV),
    GenErrorV,
> {
    match r {
        Result::Ok(p) => Result::Ok((p.0@, p.1@)),
        Result::Err(e) => Result::Err(e@),
    }
}

impl Generator {
    /// Records one field's size contribution for the named type.
    pub fn store_size(&mut self, ty: &str, size: Contribution)
        requires
            old(self).inv(),
        ensures
            final(self).inv(),
            Generator::cfg_unchanged(*old(self), *final(self)),
            final(self).state() == store_size_spec(old(self).state(), ty@, size@),
    {
        match size {
            Contribution::Fixed(n) => {
                self.type_size.add(String::from_str(ty), n);
            },
            Contribution::Deferred(name) => {
                self.ref_sizes.push((String::from_str(ty), name));
                proof {
                    assert(ref_sizes_view(self.ref_sizes@) =~= ref_sizes_view(
                        old(self).ref_sizes@,
                    ).push((ty@, name@)));
                }
            },
        }
    }

    /// Resolves a possibly domain-qualified reference to an output path, and
    /// reports a reference to a domain no input document defines.
    pub fn projected_type(&self, domain: &Domain, name: &str) -> (r: Result<String, GenError>)
        requires
            self.inv(),
        ensures
            res_str_view(r) == projected_spec(self.cfg(), domain.name@, name@),
    {
        let (prefix, local) = split_qualified(name);
        match prefix {
            None => Ok(to_camel(local.as_str())),
            Some(p) => {
                let cur_idx = match self.domains.get(&domain.name) {
                    Some(i) => i,
                    None => {
                        return Err(GenError::UnknownDomain(domain.name.clone()));
                    },
                };
                let ref_idx = match self.domains.get(&p) {
                    Some(i) => i,
                    None => {
                        return Err(GenError::UnknownDomain(p));
                    },
                };
                if cur_idx == ref_idx {
                    let mut out = String::from_str("super::");
                    out.append(to_snake(p.as_str()).as_str());
                    out.append("::");
                    out.append(to_camel(local.as_str()).as_str());
                    proof {
                        assert(out@ =~= "super::"@ + snake_of(p@) + "::"@ + camel_of(local@));
                    }
                    Ok(out)
                } else {
                    let mut out = String::from_str("super::super::");
                    out.append(self.protocol_mods[ref_idx].as_str());
                    out.append("::");
                    out.append(to_snake(p.as_str()).as_str());
                    out.append("::");
                    out.append(to_camel(local.as_str()).as_str());
                    proof {
                        assert(strings_view(self.protocol_mods@)[ref_idx as int]
                            == self.protocol_mods@[ref_idx as int]@);
                        assert(out@ =~= "super::super::"@ + strings_view(self.protocol_mods@)[
                            self.cfg().domains[p@] as int
                        ] + "::"@ + snake_of(p@) + "::"@ + camel_of(local@));
                    }
                    Ok(out)
                }
            },
        }
    }

    /// Resolves one parameter's type to an output field type and its size
    /// contribution: scalars at fixed sizes, inline enums as a reference to
    /// their hoisted name, sequences as one container handle, and references
    /// either boxed (self-reference) or resolved with a deferred size.
    pub fn generate_field_type(
        &self,
        domain: &Domain,
        parent: &str,
        param_name: &str,
        ty: &crate::ir::Type,
    ) -> (r: Result<(FieldType, Contribution), GenError>)
        requires
            self.inv(),
        ensures
            res_ft_view(r) == field_type_spec(self.cfg(), domain.name@, parent@, param_name@, ty@),
        decreases *ty,
    {
        match ty {
            crate::ir::Type::Integer => Ok(
                (FieldType::new(String::from_str("i64")), Contribution::Fixed(SIZE_INTEGER)),
            ),
            crate::ir::Type::Number => Ok(
                (FieldType::new(String::from_str("f64")), Contribution::Fixed(SIZE_NUMBER)),
            ),
            crate::ir::Type::Boolean => Ok(
                (FieldType::new(String::from_str("bool")), Contribution::Fixed(SIZE_BOOLEAN)),
            ),
            crate::ir::Type::Str => Ok(
                (FieldType::new(String::from_str("String")), Contribution::Fixed(SIZE_STRING)),
            ),
            crate::ir::Type::Object => Ok(
                (
                    FieldType::new(String::from_str("serde_json::Value")),
                    Contribution::Fixed(SIZE_OPAQUE),
                ),
            ),
            crate::ir::Type::Any => Ok(
                (
                    FieldType::new(String::from_str("serde_json::Value")),
                    Contribution::Fixed(SIZE_OPAQUE),
                ),
            ),
            crate::ir::Type::Binary => Ok(
                (FieldType::new_vec(String::from_str("u8")), Contribution::Fixed(SIZE_BINARY)),
            ),
            crate::ir::Type::Enum(_) => Ok(
                (
                    FieldType::new(subenum_name(parent, param_name)),
                    Contribution::Fixed(SIZE_ENUM),
                ),
            ),
            crate::ir::Type::ArrayOf(t) => {
                let inner: &crate::ir::Type = &**t;
                match inner {
                    crate::ir::Type::Ref(rname) => match self.projected_type(
                        domain,
                        rname.as_str(),
                    ) {
                        Ok(path) => Ok(
                            (FieldType::new_vec(path), Contribution::Fixed(SIZE_LIST)),
                        ),
                        Err(e) => {
                            proof {
                                assert(ty@ == TypeV::ArrayOf(Box::new(inner@)));
                                assert(inner@ is Ref);
                                assert(field_type_spec(self.cfg(), domain.name@, parent@, param_name@, ty@) is Err);
                            }
                            Err(e)
                        },
                    },
                    _ => match self.generate_field_type(domain, parent, param_name, inner) {
                        Ok((ft, _)) => Ok(
                            (FieldType::new_vec(ft.render()), Contribution::Fixed(SIZE_LIST)),
                        ),
                        Err(e) => {
                            proof {
                                assert(field_type_spec(self.cfg(), domain.name@, parent@, param_name@, ty@) is Err);
                            }
                            Err(e)
                        },
                    },
                }
            },
            crate::ir::Type::Ref(rname) => {
                if *rname == String::from_str(parent) {
                    Ok(
                        (
                            FieldType::new_box(to_camel(rname.as_str())),
                            Contribution::Fixed(SIZE_BOX),
                        ),
                    )
                } else {
                    match self.projected_type(domain, rname.as_str()) {
                        Ok(path) => {
                            let (_, local) = split_qualified(rname.as_str());
                            Ok(
                                (
                                    FieldType::new(path),
                                    Contribution::Deferred(to_camel(local.as_str())),
                                ),
                            )
                        },
                        Err(e) => {
                            proof {
                                assert(field_type_spec(self.cfg(), domain.name@, parent@, param_name@, ty@) is Err);
                            }
                            Err(e)
                        },
                    }
                }
            },
        }
    }
}

/// The generated name of an enum: the camel-cased local part of its
/// (possibly qualified) identifier.
pub open spec fn enum_name_spec(ident_name: Seq<char>) -> Seq<char> {
    camel_of(local_part(ident_name))
}

/// The enum cases of the first `i` variants, each with its documentation.
pub open spec fn variants_body_spec(vs: Seq<VariantV>, i: int) -> Seq<char>
    decreases i,
{
    if i <= 0 {
        Seq::empty()
    } else {
        variants_body_spec(vs, i - 1) + variant_spec(vs[i - 1]) + ",\n"@
    }
}

/// The case-to-wire-string match arms of the first `i` variants.
pub open spec fn as_str_arms_spec(ename: Seq<char>, vs: Seq<VariantV>, i: int) -> Seq<char>
    decreases i,
{
    if i <= 0 {
        Seq::empty()
    } else {
        as_str_arms_spec(ename, vs, i - 1) + ename + "::"@ + camel_of(vs[i - 1].name) + " => \""@
            + vs[i - 1].name + "\",\n"@
    }
}

/// The wire-string-to-case match arms of the first `i` variants.
pub open spec fn from_str_arms_spec(ename: Seq<char>, vs: Seq<VariantV>, i: int) -> Seq<char>
    decreases i,
{
    if i <= 0 {
        Seq::empty()
    } else {
        from_str_arms_spec(ename, vs, i - 1) + "\""@ + vs[i - 1].name + "\" => Ok("@ + ename
            + "::"@ + camel_of(vs[i - 1].name) + "),\n"@
    }
}

/// The two wire-conversion functions of a generated enum: case to canonical
/// string, and string to case or an error carrying the unrecognized string.
pub open spec fn enum_str_fns_spec(ename: Seq<char>, vs: Seq<VariantV>) -> Seq<char> {
    "impl "@ + ename + " {\npub fn as_str(&self) -> &'static str {\nmatch self {\n"@
        + as_str_arms_spec(ename, vs, vs.len() as int) + "}\n}\n}\nimpl ::std::str::FromStr for "@
        + ename + " {\ntype Err = String;\nfn from_str(s: &str) -> Result<Self, Self::Err> {\nmatch s {\n"@
        + from_str_arms_spec(ename, vs, vs.len() as int) + "_ => Err(s.to_string())\n}\n}\n}\n"@
}

/// A whole generated enum: documentation, derivation markers, the case
/// list, and the wire-conversion functions.
pub open spec fn enum_def_spec(serde: SerdeSupportV, ident: VariantV, vs: Seq<VariantV>) -> Seq<
    char,
> {
    let ename = enum_name_spec(ident.name);
    doc_spec(ident.description) + "#[derive(Debug, Clone, PartialEq, Eq, Hash)]\n"@
        + enum_derives_spec(serde) + "pub enum "@ + ename + " {\n"@ + variants_body_spec(
        vs,
        vs.len() as int,
    ) + "}\n"@ + enum_str_fns_spec(ename, vs)
}

/// Generates the wire-string conversion functions of a generated enum,
/// enabling a lossless round trip with the wire representation.
pub fn generate_enum_str_fns(name: &str, variants: &Vec<Variant>) -> (r: String)
    ensures
        r@ == enum_str_fns_spec(name@, variants_view(variants@)),
{
    let ghost vs = variants_view(variants@);
    let mut arms = String::new();
    let mut parses = String::new();
    let mut i: usize = 0;
    while i < variants.len()
        invariant
            i <= variants@.len(),
            vs == variants_view(variants@),
            vs.len() == variants@.len(),
            forall|j: int| 0 <= j < variants@.len() ==> vs[j] == variants@[j]@,
            arms@ == as_str_arms_spec(name@, vs, i as int),
            parses@ == from_str_arms_spec(name@, vs, i as int),
        decreases variants@.len() - i,
    {
        let cam = to_camel(variants[i].name.as_str());
        arms.append(name);
        arms.append("::");
        arms.append(cam.as_str());
        arms.append(" => \"");
        arms.append(variants[i].name.as_str());
        arms.append("\",\n");
        parses.append("\"");
        parses.append(variants[i].name.as_str());
        parses.append("\" => Ok(");
        parses.append(name);
        parses.append("::");
        parses.append(cam.as_str());
        parses.append("),\n");
        proof {
            assert(arms@ =~= as_str_arms_spec(name@, vs, i + 1));
            assert(parses@ =~= from_str_arms_spec(name@, vs, i + 1));
        }
        i += 1;
    }
    let mut out = String::from_str("impl ");
    out.append(name);
    out.append(" {\npub fn as_str(&self) -> &'static str {\nmatch self {\n");
    out.append(arms.as_str());
    out.append("}\n}\n}\nimpl ::std::str::FromStr for ");
    out.append(name);
    out.append(" {\ntype Err = String;\nfn from_str(s: &str) -> Result<Self, Self::Err> {\nmatch s {\n");
    out.append(parses.as_str());
    out.append("_ => Err(s.to_string())\n}\n}\n}\n");
    proof {
        assert(out@ =~= enum_str_fns_spec(name@, vs));
    }
    out
}

impl Generator {
    /// Generates an enum with its wire-string conversions, and records the
    /// enum's nominal size under its generated name.
    pub fn generate_enum(&mut self, ident: &Variant, variants: &Vec<Variant>) -> (r: String)
        requires
            old(self).inv(),
        ensures
            final(self).inv(),
            Generator::cfg_unchanged(*old(self), *final(self)),
            final(self).type_size@ == old(self).type_size@.insert(
                enum_name_spec(ident@.name),
                SIZE_ENUM,
            ),
            final(self).ref_sizes == old(self).ref_sizes,
            r@ == enum_def_spec(old(self).serde_support@, ident@, variants_view(variants@)),
    {
        let (_, local) = split_qualified(ident.name.as_str());
        let ename = to_camel(local.as_str());
        self.type_size.set(ename.clone(), SIZE_ENUM);
        let ghost vs = variants_view(variants@);
        let mut body = String::new();
        let mut i: usize = 0;
        while i < variants.len()
            invariant
                i <= variants@.len(),
                vs == variants_view(variants@),
                vs.len() == variants@.len(),
                forall|j: int| 0 <= j < variants@.len() ==> vs[j] == variants@[j]@,
                body@ == variants_body_spec(vs, i as int),
            decreases variants@.len() - i,
        {
            body.append(self.serde_support.generate_variant(&variants[i]).as_str());
            body.append(",\n");
            proof {
                assert(body@ =~= variants_body_spec(vs, i + 1));
            }
            i += 1;
        }
        let mut out = crate::output::generate_doc(&ident.description);
        out.append("#[derive(Debug, Clone, PartialEq, Eq, Hash)]\n");
        out.append(self.serde_support.generate_enum_derives().as_str());
        out.append("pub enum ");
        out.append(ename.as_str());
        out.append(" {\n");
        out.append(body.as_str());
        out.append("}\n");
        out.append(generate_enum_str_fns(ename.as_str(), variants).as_str());
        proof {
            assert(out@ =~= enum_def_spec(old(self).serde_support@, ident@, vs));
        }
        out
    }
}

/// Whether the active filters keep a parameter.
pub open spec fn included_param(c: CfgV, p: ParamV) -> bool {
    (c.with_deprecated || !p.deprecated) && (c.with_experimental || !p.experimental)
}

/// What one record synthesis accumulates while walking its parameter list.
pub struct StructAcc {
    pub st: SizeState,
    pub enum_defs: Seq<char>,
    pub fields: Seq<(Seq<char>, FieldDefinitionV)>,
}

/// Walking the first `i` parameters of a record: hoisted enum definitions,
/// field declarations, and the size contributions they record.
pub open spec fn struct_fields_spec(
    c: CfgV,
    st: SizeState,
    dname: Seq<char>,
    dt_name: Seq<char>,
    struct_ident: Seq<char>,
    params: Seq<ParamV>,
    i: int,
) -> Result<StructAcc, GenErrorV>
    decreases i,
{
    if i <= 0 {
        Result::Ok(StructAcc { st, enum_defs: Seq::empty(), fields: Seq::empty() })
    } else {
        match struct_fields_spec(c, st, dname, dt_name, struct_ident, params, i - 1) {
            Result::Err(e) => Result::Err(e),
            Result::Ok(acc) => {
                let p = params[i - 1];
                if !included_param(c, p) {
                    Result::Ok(acc)
                } else {
                    let acc1 = match p.ty {
                        TypeV::Enum(vars) => StructAcc {
                            st: SizeState {
                                sizes: acc.st.sizes.insert(
                                    enum_name_spec(subenum_name_spec(dt_name, p.name)),
                                    SIZE_ENUM,
                                ),
                                refs: acc.st.refs,
                            },
                            enum_defs: acc.enum_defs + (if p.deprecated {
                                "#[deprecated]\n"@
                            } else {
                                Seq::<char>::empty()
                            }) + enum_def_spec(
                                c.serde,
                                VariantV {
                                    name: subenum_name_spec(dt_name, p.name),
                                    description: p.description,
                                },
                                vars,
                            ),
                            fields: acc.fields,
                        },
                        _ => acc,
                    };
                    match field_type_spec(c, dname, dt_name, p.name, p.ty) {
                        Result::Err(e) => Result::Err(e),
                        Result::Ok((ft, size_part)) => {
                            let fd = FieldDefinitionV {
                                name: field_name_spec(p.name),
                                ty: ft,
                                optional: p.optional,
                                deprecated: p.deprecated,
                            };
                            Result::Ok(
                                StructAcc {
                                    st: store_size_spec(acc1.st, struct_ident, size_part),
                                    enum_defs: acc1.enum_defs,
                                    fields: acc1.fields.push(
                                        (field_def_spec(c.serde, p.description, fd), fd),
                                    ),
                                },
                            )
                        },
                    }
                }
            },
        }
    }
}

/// Once the parameter walk fails, every longer walk fails the same way.
pub proof fn lemma_fields_err(
    c: CfgV,
    st: SizeState,
    dname: Seq<char>,
    dt_name: Seq<char>,
    struct_ident: Seq<char>,
    params: Seq<ParamV>,
    i: int,
    j: int,
)
    requires
        0 <= i <= j,
        struct_fields_spec(c, st, dname, dt_name, struct_ident, params, i) is Err,
    ensures
        struct_fields_spec(c, st, dname, dt_name, struct_ident, params, j) == struct_fields_spec(
            c,
            st,
            dname,
            dt_name,
            struct_ident,
            params,
            i,
        ),
    decreases j - i,
{
    if i < j {
        lemma_fields_err(c, st, dname, dt_name, struct_ident, params, i, j - 1);
    }
}

/// The documentation of a datatype's generated definition.
pub open spec fn type_desc_spec(dt: DatatypeV) -> Seq<char> {
    doc_spec(dt.description())
}

/// A whole synthesized record and its effect on the resolution state:
/// documentation, derivation markers, the record (or, for a fieldless type
/// definition, a single-field wrapper; for a fieldless command or event, an
/// empty marker record), hoisted enums, and the construction helper.
pub open spec fn struct_spec(
    c: CfgV,
    st: SizeState,
    domain: DomainV,
    dt: DatatypeV,
    struct_ident: Seq<char>,
    params: Seq<ParamV>,
) -> Result<(SizeState, Seq<char>), GenErrorV> {
    match struct_fields_spec(c, st, domain.name, dt.name(), struct_ident, params, params.len() as int) {
        Result::Err(e) => Result::Err(e),
        Result::Ok(acc) => {
            let derives = if !has_mandatory_spec(fdefs_of(acc.fields)) {
                "#[derive(Debug, Clone, PartialEq, Default)]\n"@
            } else {
                "#[derive(Debug, Clone, PartialEq)]\n"@
            };
            let head = type_desc_spec(dt) + derives + derives_spec(c.serde);
            if acc.fields.len() == 0 {
                match dt {
                    DatatypeV::TypeDef(td) => match field_type_spec(
                        c,
                        domain.name,
                        dt.name(),
                        dt.name(),
                        td.extends,
                    ) {
                        Result::Err(e) => Result::Err(e),
                        Result::Ok((wty, size_part)) => {
                            let st2 = store_size_spec(acc.st, struct_ident, size_part);
                            let sdef = "pub struct "@ + struct_ident + "("@ + render_spec(wty)
                                + ");\n"@;
                            let text = if td.extends is Integer {
                                head + "#[derive(Eq, Hash)]\n"@ + sdef
                            } else if td.extends is Str {
                                head + "#[derive(Eq, Hash)]\n"@ + sdef + "impl AsRef<str> for "@
                                    + struct_ident
                                    + " {\nfn as_ref(&self) -> &str {\nself.0.as_str()\n}\n}\n"@
                            } else {
                                head + sdef
                            };
                            Result::Ok((st2, text))
                        },
                    },
                    _ => Result::Ok(
                        (
                            SizeState { sizes: acc.st.sizes.insert(struct_ident, 0), refs: acc.st.refs },
                            head + "pub struct "@ + struct_ident + " {}\n"@,
                        ),
                    ),
                }
            } else {
                let text = head + struct_def_spec(struct_ident, acc.fields) + acc.enum_defs + (
                if dt is Command || dt is TypeDef {
                    builder_impl_spec(struct_ident, fdefs_of(acc.fields))
                } else {
                    Seq::<char>::empty()
                });
                Result::Ok((acc.st, text))
            }
        },
    }
}

impl Generator {
    /// Synthesizes the record for one datatype's parameter list, hoisting
    /// inline enums into named definitions, recording every field's size
    /// contribution under `struct_ident`, and emitting the construction
    /// helper for commands and type definitions.
    pub fn generate_struct(
        &mut self,
        domain: &Domain,
        dt: &DomainDatatype,
        struct_ident: String,
        params: &Vec<Param>,
    ) -> (r: Result<String, GenError>)
        requires
            old(self).inv(),
        ensures
            final(self).inv(),
            Generator::cfg_unchanged(*old(self), *final(self)),
            match struct_spec(
                old(self).cfg(),
                old(self).state(),
                domain@,
                dt@,
                struct_ident@,
                params_view(params@),
            ) {
                Result::Ok(p) => (r matches Ok(s) && s@ == p.1 && final(self).state() == p.0),
                Result::Err(e) => (r matches Err(e2) && e2@ == e),
            },
    {
        let ghost c = old(self).cfg();
        let ghost st0 = old(self).state();
        let ghost ps = params_view(params@);
        let ghost si = struct_ident@;
        let ghost dtn = dt@.name();
        let mut enum_defs = String::new();
        let mut builder = Builder::new(struct_ident);
        let mut i: usize = 0;
        while i < params.len()
            invariant
                i <= params@.len(),
                ps == params_view(params@),
                ps.len() == params@.len(),
                forall|j: int| 0 <= j < params@.len() ==> ps[j] == params@[j]@,
                self.inv(),
                Generator::cfg_unchanged(*old(self), *self),
                self.cfg() == c,
                c == old(self).cfg(),
                st0 == old(self).state(),
                dtn == dt@.name(),
                si == builder.name@,
                si == struct_ident@,
                struct_fields_spec(c, st0, domain@.name, dtn, si, ps, i as int) matches Result::Ok(
                    acc,
                ) && acc.st == self.state() && acc.enum_defs == enum_defs@ && acc.fields
                    == builder_fields_view(builder.fields@),
            decreases params@.len() - i,
        {
            let param = &params[i];
            let included = (self.with_deprecated || !param.deprecated) && (self.with_experimental
                || !param.experimental);
            if included {
                match &param.ty {
                    crate::ir::Type::Enum(vars) => {
                        proof {
                            assert(param.ty@ == TypeV::Enum(variants_view(vars@)));
                        }
                        if param.deprecated {
                            enum_defs.append("#[deprecated]\n");
                        }
                        let enum_ident = Variant {
                            name: subenum_name(dt.name().as_str(), param.name.as_str()),
                            description: crate::ir::clone_opt(&param.description),
                        };
                        let etext = self.generate_enum(&enum_ident, vars);
                        enum_defs.append(etext.as_str());
                    },
                    _ => {},
                }
                let fname = field_name(param.name.as_str());
                let (ft, size_part) = match self.generate_field_type(
                    domain,
                    dt.name().as_str(),
                    param.name.as_str(),
                    &param.ty,
                ) {
                    Ok(p) => p,
                    Err(e) => {
                        proof {
                            assert(ps[i as int] == params@[i as int]@);
                            assert(field_type_spec(c, domain@.name, dtn, ps[i as int].name, ps[
                                i as int
                            ].ty) is Err);
                            assert(struct_fields_spec(c, st0, domain@.name, dtn, si, ps, i + 1)
                                is Err);
                            lemma_fields_err(
                                c,
                                st0,
                                domain@.name,
                                dtn,
                                si,
                                ps,
                                i + 1,
                                ps.len() as int,
                            );
                        }
                        return Err(e);
                    },
                };
                let ghost sizev = size_part@;
                self.store_size(builder.name.as_str(), size_part);
                let fd = FieldDefinition {
                    name: fname,
                    ty: ft,
                    optional: param.optional,
                    deprecated: param.deprecated,
                };
                let text = fd.generate_definition(&self.serde_support, &param.description);
                let ghost fdv = fd@;
                let ghost textv = text@;
                let ghost prev_fields = builder.fields@;
                builder.fields.push((text, fd));
                proof {
                    assert(builder.fields@.drop_last() =~= prev_fields);
                    assert(builder_fields_view(builder.fields@) =~= builder_fields_view(
                        prev_fields,
                    ).push((textv, fdv)));
                }
            }
            proof {
                assert(struct_fields_spec(c, st0, domain@.name, dtn, si, ps, i + 1)
                    matches Result::Ok(acc2) && acc2.st == self.state() && acc2.enum_defs
                    == enum_defs@ && acc2.fields == builder_fields_view(builder.fields@));
            }
            i += 1;
        }
        let mut stream = crate::output::generate_doc(dt.description());
        if !builder.has_mandatory_types() {
            stream.append("#[derive(Debug, Clone, PartialEq, Default)]\n");
        } else {
            stream.append("#[derive(Debug, Clone, PartialEq)]\n");
        }
        stream.append(self.serde_support.generate_derives().as_str());
        let ghost head = stream@;
        if builder.fields.len() == 0 {
            match dt {
                DomainDatatype::TypeDef(tydef) => {
                    let (wty, size_part) = match self.generate_field_type(
                        domain,
                        dt.name().as_str(),
                        dt.name().as_str(),
                        &tydef.extends,
                    ) {
                        Ok(p) => p,
                        Err(e) => {
                            return Err(e);
                        },
                    };
                    self.store_size(builder.name.as_str(), size_part);
                    let mut sdef = String::from_str("pub struct ");
                    sdef.append(builder.name.as_str());
                    sdef.append("(");
                    sdef.append(wty.render().as_str());
                    sdef.append(");\n");
                    if tydef.extends.is_integer() {
                        stream.append("#[derive(Eq, Hash)]\n");
                        stream.append(sdef.as_str());
                    } else if tydef.extends.is_string() {
                        stream.append("#[derive(Eq, Hash)]\n");
                        stream.append(sdef.as_str());
                        stream.append("impl AsRef<str> for ");
                        stream.append(builder.name.as_str());
                        stream.append(" {\nfn as_ref(&self) -> &str {\nself.0.as_str()\n}\n}\n");
                    } else {
                        stream.append(sdef.as_str());
                    }
                    proof {
                        assert(sdef@ =~= "pub struct "@ + si + "("@ + render_spec(wty@) + ");\n"@);
                        assert(stream@ =~= struct_spec(c, st0, domain@, dt@, si, ps)->Ok_0.1);
                    }
                    Ok(stream)
                },
                _ => {
                    self.type_size.set(builder.name.clone(), 0);
                    stream.append("pub struct ");
                    stream.append(builder.name.as_str());
                    stream.append(" {}\n");
                    proof {
                        assert(stream@ =~= struct_spec(c, st0, domain@, dt@, si, ps)->Ok_0.1);
                    }
                    Ok(stream)
                },
            }
        } else {
            stream.append(builder.generate_struct_def().as_str());
            stream.append(enum_defs.as_str());
            if dt.is_command() || dt.is_type() {
                stream.append(builder.generate_impl().as_str());
            }
            proof {
                assert(stream@ =~= struct_spec(c, st0, domain@, dt@, si, ps)->Ok_0.1);
            }
            Ok(stream)
        }
    }
}

/// Whether the active filters keep a datatype.
pub open spec fn included_dt(c: CfgV, dt: DatatypeV) -> bool {
    (c.with_deprecated || !dt.deprecated()) && (c.with_experimental || !dt.experimental())
}

/// Whether the active filters keep a domain.
pub open spec fn included_domain(c: CfgV, d: DomainV) -> bool {
    (c.with_deprecated || !d.deprecated) && (c.with_experimental || !d.experimental)
}

/// The constant identifier a generated datatype carries: its IDL-qualified
/// name.
pub open spec fn identifier_impl_spec(name: Seq<char>, raw: Seq<char>) -> Seq<char> {
    "impl "@ + name + " {\npub const IDENTIFIER: &'static str = \""@ + raw + "\";\n}\n"@
}

/// The shared named-method capability of commands and events.
pub open spec fn method_impl_spec(name: Seq<char>) -> Seq<char> {
    "impl chromeoxid_types::Method for "@ + name
        + " {\nfn identifier(&self) -> ::std::borrow::Cow<'static, str> {\nSelf::IDENTIFIER.into()\n}\n}\n"@
}

/// The capability binding a command type to its returns type.
pub open spec fn command_impl_spec(name: Seq<char>) -> Seq<char> {
    "impl chromeoxid_types::Command for "@ + name + " {\ntype Response = "@ + name
        + "Returns;\n}\n"@
}

fn identifier_impl_text(name: &str, domain_name: &str, dt_name: &str) -> (r: String)
    ensures
        r@ == identifier_impl_spec(name@, domain_name@ + "."@ + dt_name@),
{
    let mut out = String::from_str("impl ");
    out.append(name);
    out.append(" {\npub const IDENTIFIER: &'static str = \"");
    out.append(domain_name);
    out.append(".");
    out.append(dt_name);
    out.append("\";\n}\n");
    proof {
        assert(out@ =~= identifier_impl_spec(name@, domain_name@ + "."@ + dt_name@));
    }
    out
}

fn method_impl_text(name: &str) -> (r: String)
    ensures
        r@ == method_impl_spec(name@),
{
    let mut out = String::from_str("impl chromeoxid_types::Method for ");
    out.append(name);
    out.append(
        " {\nfn identifier(&self) -> ::std::borrow::Cow<'static, str> {\nSelf::IDENTIFIER.into()\n}\n}\n",
    );
    proof {
        assert(out@ =~= method_impl_spec(name@));
    }
    out
}

fn command_impl_text(name: &str) -> (r: String)
    ensures
        r@ == command_impl_spec(name@),
{
    let mut out = String::from_str("impl chromeoxid_types::Command for ");
    out.append(name);
    out.append(" {\ntype Response = ");
    out.append(name);
    out.append("Returns;\n}\n");
    proof {
        assert(out@ =~= command_impl_spec(name@));
    }
    out
}

/// One datatype's whole output: a bare enum, or a record with its constant
/// identifier, capabilities, and (for a command) its returns record.
pub open spec fn type_spec(c: CfgV, st: SizeState, domain: DomainV, dt: DatatypeV) -> Result<
    (SizeState, Seq<char>),
    GenErrorV,
> {
    if dt.is_enum_def() {
        let text = enum_def_spec(
            c.serde,
            VariantV { name: dt.name(), description: dt.description() },
            dt.enum_variants(),
        );
        let st1 = SizeState {
            sizes: st.sizes.insert(enum_name_spec(dt.name()), SIZE_ENUM),
            refs: st.refs,
        };
        Result::Ok(
            (
                st1,
                if dt.deprecated() {
                    "#[deprecated]\n"@ + text
                } else {
                    text
                },
            ),
        )
    } else {
        let name = camel_of(dt.name());
        match struct_spec(c, st, domain, dt, name, dt.params_of()) {
            Result::Err(e) => Result::Err(e),
            Result::Ok((st1, stext)) => {
                let base = stext + identifier_impl_spec(name, domain.name + "."@ + dt.name()) + (
                if !(dt is TypeDef) {
                    method_impl_spec(name)
                } else {
                    Seq::<char>::empty()
                });
                match dt {
                    DatatypeV::Command(cmd) => match struct_spec(
                        c,
                        st1,
                        domain,
                        dt,
                        name + "Returns"@,
                        cmd.returns,
                    ) {
                        Result::Err(e) => Result::Err(e),
                        Result::Ok((st2, rtext)) => {
                            let full = base + rtext + command_impl_spec(name);
                            Result::Ok(
                                (
                                    st2,
                                    if dt.deprecated() {
                                        "#[deprecated]\n"@ + full
                                    } else {
                                        full
                                    },
                                ),
                            )
                        },
                    },
                    _ => Result::Ok(
                        (
                            st1,
                            if dt.deprecated() {
                                "#[deprecated]\n"@ + base
                            } else {
                                base
                            },
                        ),
                    ),
                }
            },
        }
    }
}

/// Walking the first `i` datatypes of a domain, filters applied.
pub open spec fn domain_types_spec(c: CfgV, st: SizeState, domain: DomainV, i: int) -> Result<
    (SizeState, Seq<char>),
    GenErrorV,
> decreases i,
{
    if i <= 0 {
        Result::Ok((st, Seq::empty()))
    } else {
        match domain_types_spec(c, st, domain, i - 1) {
            Result::Err(e) => Result::Err(e),
            Result::Ok((st1, text)) => {
                let dt = domain.datatypes[i - 1];
                if !included_dt(c, dt) {
                    Result::Ok((st1, text))
                } else {
                    match type_spec(c, st1, domain, dt) {
                        Result::Err(e) => Result::Err(e),
                        Result::Ok((st2, t2)) => Result::Ok((st2, text + t2)),
                    }
                }
            },
        }
    }
}

pub proof fn lemma_domain_types_err(c: CfgV, st: SizeState, domain: DomainV, i: int, j: int)
    requires
        0 <= i <= j,
        domain_types_spec(c, st, domain, i) is Err,
    ensures
        domain_types_spec(c, st, domain, j) == domain_types_spec(c, st, domain, i),
    decreases j - i,
{
    if i < j {
        lemma_domain_types_err(c, st, domain, i, j - 1);
    }
}

/// One domain's module content: the serialization import and every kept
/// datatype's output in order.
pub open spec fn domain_spec(c: CfgV, st: SizeState, domain: DomainV) -> Result<
    (SizeState, Seq<char>),
    GenErrorV,
> {
    match domain_types_spec(c, st, domain, domain.datatypes.len() as int) {
        Result::Err(e) => Result::Err(e),
        Result::Ok((st1, text)) => Result::Ok((st1, imports_spec(c.serde) + text)),
    }
}

/// Walking the first `i` domains: one nested module per kept domain.
pub open spec fn types_spec(c: CfgV, st: SizeState, domains: Seq<DomainV>, i: int) -> Result<
    (SizeState, Seq<char>),
    GenErrorV,
> decreases i,
{
    if i <= 0 {
        Result::Ok((st, Seq::empty()))
    } else {
        match types_spec(c, st, domains, i - 1) {
            Result::Err(e) => Result::Err(e),
            Result::Ok((st1, text)) => {
                let d = domains[i - 1];
                if !included_domain(c, d) {
                    Result::Ok((st1, text))
                } else {
                    match domain_spec(c, st1, d) {
                        Result::Err(e) => Result::Err(e),
                        Result::Ok((st2, dtext)) => Result::Ok(
                            (
                                st2,
                                text + doc_spec(d.description) + (if d.deprecated {
                                    "#[deprecated]\n"@
                                } else {
                                    Seq::<char>::empty()
                                }) + "pub mod "@ + snake_of(d.name) + " {\n"@ + dtext + "}\n"@,
                            ),
                        ),
                    }
                }
            },
        }
    }
}

pub proof fn lemma_types_err(c: CfgV, st: SizeState, domains: Seq<DomainV>, i: int, j: int)
    requires
        0 <= i <= j,
        types_spec(c, st, domains, i) is Err,
    ensures
        types_spec(c, st, domains, j) == types_spec(c, st, domains, i),
    decreases j - i,
{
    if i < j {
        lemma_types_err(c, st, domains, i, j - 1);
    }
}

impl Generator {
    /// Generates everything one datatype contributes: for a bare enum its
    /// tagged enumeration with wire conversions; otherwise its record, its
    /// constant identifier, the named-method capability for commands and
    /// events, and a command's returns record and request/response binding.
    #[verifier::rlimit(100)]
    #[verifier::spinoff_prover]
    pub fn generate_type(&mut self, domain: &Domain, dt: &DomainDatatype) -> (r: Result<
        String,
        GenError,
    >)
        requires
            old(self).inv(),
        ensures
            final(self).inv(),
            Generator::cfg_unchanged(*old(self), *final(self)),
            match type_spec(old(self).cfg(), old(self).state(), domain@, dt@) {
                Result::Ok(p) => (r matches Ok(s) && s@ == p.1 && final(self).state() == p.0),
                Result::Err(e) => (r matches Err(e2) && e2@ == e),
            },
    {
        let ghost c = self.cfg();
        let ghost st0 = self.state();
        match dt.as_enum() {
            Some(vars) => {
                let ident = Variant {
                    name: dt.name().clone(),
                    description: crate::ir::clone_opt(dt.description()),
                };
                let etext = self.generate_enum(&ident, vars);
                let mut out = String::new();
                if dt.is_deprecated() {
                    out.append("#[deprecated]\n");
                }
                out.append(etext.as_str());
                proof {
                    assert(out@ =~= type_spec(c, st0, domain@, dt@)->Ok_0.1);
                }
                Ok(out)
            },
            None => {
                let name = dt.ident_name();
                let empty_params: Vec<Param> = Vec::new();
                let params: &Vec<Param> = match dt {
                    DomainDatatype::TypeDef(t) => match &t.item {
                        Some(crate::ir::TypeItem::Properties(ps)) => ps,
                        _ => &empty_params,
                    },
                    DomainDatatype::Command(cmd) => &cmd.parameters,
                    DomainDatatype::Event(ev) => &ev.parameters,
                };
                proof {
                    assert(params_view(params@) =~= dt@.params_of());
                }
                let stext = match self.generate_struct(domain, dt, name.clone(), params) {
                    Ok(s) => s,
                    Err(e) => {
                        return Err(e);
                    },
                };
                let mut out = String::new();
                if dt.is_deprecated() {
                    out.append("#[deprecated]\n");
                }
                out.append(stext.as_str());
                out.append(
                    identifier_impl_text(
                        name.as_str(),
                        domain.name.as_str(),
                        dt.name().as_str(),
                    ).as_str(),
                );
                if !dt.is_type() {
                    out.append(method_impl_text(name.as_str()).as_str());
                }
                match dt {
                    DomainDatatype::Command(cmd) => {
                        let returns_name = name.clone().concat("Returns");
                        let rtext = match self.generate_struct(domain, dt, returns_name, &cmd.returns) {
                            Ok(s) => s,
                            Err(e) => {
                                return Err(e);
                            },
                        };
                        out.append(rtext.as_str());
                        out.append(command_impl_text(name.as_str()).as_str());
                        proof {
                            assert(out@ =~= type_spec(c, st0, domain@, dt@)->Ok_0.1);
                        }
                        Ok(out)
                    },
                    _ => {
                        proof {
                            assert(out@ =~= type_spec(c, st0, domain@, dt@)->Ok_0.1);
                        }
                        Ok(out)
                    },
                }
            },
        }
    }

    /// Generates one domain's module content: every kept datatype in order,
    /// after the serialization import.
    pub fn generate_domain(&mut self, domain: &Domain) -> (r: Result<String, GenError>)
        requires
            old(self).inv(),
        ensures
            final(self).inv(),
            Generator::cfg_unchanged(*old(self), *final(self)),
            match domain_spec(old(self).cfg(), old(self).state(), domain@) {
                Result::Ok(p) => (r matches Ok(s) && s@ == p.1 && final(self).state() == p.0),
                Result::Err(e) => (r matches Err(e2) && e2@ == e),
            },
    {
        let ghost c = self.cfg();
        let ghost st0 = self.state();
        let mut text = String::new();
        let mut i: usize = 0;
        while i < domain.datatypes.len()
            invariant
                i <= domain.datatypes@.len(),
                self.inv(),
                Generator::cfg_unchanged(*old(self), *self),
                self.cfg() == c,
                c == old(self).cfg(),
                st0 == old(self).state(),
                domain@.datatypes.len() == domain.datatypes@.len(),
                forall|j: int|
                    0 <= j < domain.datatypes@.len() ==> domain@.datatypes[j] == domain.datatypes@[j]@,
                domain_types_spec(c, st0, domain@, i as int) matches Result::Ok(p) && p.0
                    == self.state() && p.1 == text@,
            decreases domain.datatypes@.len() - i,
        {
            let dt = &domain.datatypes[i];
            let included = (self.with_deprecated || !dt.is_deprecated()) && (self.with_experimental
                || !dt.is_experimental());
            if included {
                let t = match self.generate_type(domain, dt) {
                    Ok(t) => t,
                    Err(e) => {
                        proof {
                            lemma_domain_types_err(
                                c,
                                st0,
                                domain@,
                                i + 1,
                                domain@.datatypes.len() as int,
                            );
                        }
                        return Err(e);
                    },
                };
                text.append(t.as_str());
            }
            proof {
                assert(domain_types_spec(c, st0, domain@, i + 1) matches Result::Ok(p) && p.0
                    == self.state() && p.1 == text@);
            }
            i += 1;
        }
        let mut out = self.serde_support.generate_serde_imports();
        out.append(text.as_str());
        proof {
            assert(out@ =~= domain_spec(c, st0, domain@)->Ok_0.1);
        }
        Ok(out)
    }

    /// Generates the nested module of every kept domain, each holding that
    /// domain's generated types.
    pub fn generate_types(&mut self, domains: &Vec<Domain>) -> (r: Result<String, GenError>)
        requires
            old(self).inv(),
        ensures
            final(self).inv(),
            Generator::cfg_unchanged(*old(self), *final(self)),
            match types_spec(old(self).cfg(), old(self).state(), domains_view(domains@), domains@.len() as int) {
                Result::Ok(p) => (r matches Ok(s) && s@ == p.1 && final(self).state() == p.0),
                Result::Err(e) => (r matches Err(e2) && e2@ == e),
            },
    {
        let ghost c = self.cfg();
        let ghost st0 = self.state();
        let ghost ds = domains_view(domains@);
        let mut out = String::new();
        let mut i: usize = 0;
        while i < domains.len()
            invariant
                i <= domains@.len(),
                self.inv(),
                Generator::cfg_unchanged(*old(self), *self),
                self.cfg() == c,
                c == old(self).cfg(),
                st0 == old(self).state(),
                ds == domains_view(domains@),
                ds.len() == domains@.len(),
                forall|j: int| 0 <= j < domains@.len() ==> ds[j] == domains@[j]@,
                types_spec(c, st0, ds, i as int) matches Result::Ok(p) && p.0 == self.state()
                    && p.1 == out@,
            decreases domains@.len() - i,
        {
            let domain = &domains[i];
            let included = (self.with_deprecated || !domain.deprecated) && (self.with_experimental
                || !domain.experimental);
            if included {
                let dtext = match self.generate_domain(domain) {
                    Ok(t) => t,
                    Err(e) => {
                        proof {
                            lemma_types_err(c, st0, ds, i + 1, ds.len() as int);
                        }
                        return Err(e);
                    },
                };
                out.append(crate::output::generate_doc(&domain.description).as_str());
                if domain.deprecated {
                    out.append("#[deprecated]\n");
                }
                out.append("pub mod ");
                out.append(to_snake(domain.name.as_str()).as_str());
                out.append(" {\n");
                out.append(dtext.as_str());
                out.append("}\n");
            }
            proof {
                assert(types_spec(c, st0, ds, i + 1) matches Result::Ok(p) && p.0 == self.state()
                    && p.1 == out@);
            }
            i += 1;
        }
        Ok(out)
    }
}

/// Draining the first `i` deferred references: each adds its target's
/// currently tracked size to the dependent type's running total, and a
/// target that is still unknown is a fatal resolution error.
pub open spec fn fixup_spec(st: SizeState, i: int) -> Result<Map<Seq<char>, usize>, GenErrorV>
    decreases i,
{
    if i <= 0 {
        Result::Ok(st.sizes)
    } else {
        match fixup_spec(st, i - 1) {
            Result::Err(e) => Result::Err(e),
            Result::Ok(sizes) => {
                let name = st.refs[i - 1].0;
                let reff = st.refs[i - 1].1;
                if !sizes.contains_key(reff) {
                    Result::Err(GenErrorV::UnresolvedRef(reff))
                } else {
                    Result::Ok(
                        sizes.insert(
                            name,
                            sat_add(
                                if sizes.contains_key(name) {
                                    sizes[name]
                                } else {
                                    0
                                },
                                sizes[reff],
                            ),
                        ),
                    )
                }
            },
        }
    }
}

pub proof fn lemma_fixup_err(st: SizeState, i: int, j: int)
    requires
        0 <= i <= j,
        fixup_spec(st, i) is Err,
    ensures
        fixup_spec(st, j) == fixup_spec(st, i),
    decreases j - i,
{
    if i < j {
        lemma_fixup_err(st, i, j - 1);
    }
}

impl Generator {
    /// The deferred-reference fix-up pass: runs strictly after every domain
    /// of every input document has been synthesized, drains the worklist,
    /// and fails on a reference whose size never became known.
    pub fn drain_deferred(&mut self) -> (r: Result<(), GenError>)
        requires
            old(self).inv(),
        ensures
            final(self).inv(),
            Generator::cfg_unchanged(*old(self), *final(self)),
            match fixup_spec(old(self).state(), old(self).state().refs.len() as int) {
                Result::Ok(sizes) => (r is Ok && final(self).type_size@ == sizes
                    && final(self).ref_sizes@.len() == 0),
                Result::Err(e) => (r matches Err(e2) && e2@ == e),
            },
    {
        let ghost st0 = self.state();
        let mut i: usize = 0;
        while i < self.ref_sizes.len()
            invariant
                i <= self.ref_sizes@.len(),
                self.inv(),
                Generator::cfg_unchanged(*old(self), *self),
                self.ref_sizes == old(self).ref_sizes,
                st0 == old(self).state(),
                st0.refs.len() == self.ref_sizes@.len(),
                forall|j: int|
                    0 <= j < self.ref_sizes@.len() ==> st0.refs[j] == (
                    self.ref_sizes@[j].0@,
                    self.ref_sizes@[j].1@,
                ),
                fixup_spec(st0, i as int) matches Result::Ok(sizes) && sizes == self.type_size@,
            decreases self.ref_sizes@.len() - i,
        {
            let name = self.ref_sizes[i].0.clone();
            let reff = self.ref_sizes[i].1.clone();
            let ref_size = match self.type_size.get(&reff) {
                Some(sz) => sz,
                None => {
                    proof {
                        lemma_fixup_err(st0, i + 1, st0.refs.len() as int);
                    }
                    return Err(GenError::UnresolvedRef(reff));
                },
            };
            self.type_size.add(name, ref_size);
            proof {
                assert(fixup_spec(st0, i + 1) matches Result::Ok(sizes) && sizes
                    == self.type_size@);
            }
            i += 1;
        }
        self.ref_sizes = Vec::new();
        proof {
            assert(ref_sizes_view(self.ref_sizes@) =~= Seq::<(Seq<char>, Seq<char>)>::empty());
        }
        Ok(())
    }
}

/// One event's union case: its wire rename, an optional deprecation marker,
/// its case name, and its payload path, boxed exactly when the event
/// record's finalized size reaches the threshold.
pub open spec fn event_case_spec(
    c: CfgV,
    sizes: Map<Seq<char>, usize>,
    domain: DomainV,
    ev: crate::ir::EventV,
) -> Result<(Seq<char>, Seq<char>), GenErrorV> {
    let var_ident = camel_of(domain.name) + camel_of(ev.name);
    let ev_name = camel_of(ev.name);
    if !c.domains.contains_key(domain.name) {
        Result::Err(GenErrorV::UnknownDomain(domain.name))
    } else if !sizes.contains_key(ev_name) {
        Result::Err(GenErrorV::MissingEventSize(ev_name))
    } else {
        let path = "super::"@ + c.mods[c.domains[domain.name] as int] + "::"@ + snake_of(
            domain.name,
        ) + "::"@ + ev_name;
        let payload = if sizes[ev_name] < BOX_THRESHOLD {
            path
        } else {
            "Box<"@ + path + ">"@
        };
        let decl = rename_spec(c.serde, domain.name + "."@ + ev.name) + (if ev.deprecated {
            "#[deprecated]\n"@
        } else {
            Seq::<char>::empty()
        }) + var_ident + "("@ + payload + "),\n"@;
        Result::Ok((decl, var_ident))
    }
}

/// The union cases of the first `i` datatypes of a domain: one per kept
/// event.
pub open spec fn domain_events_spec(
    c: CfgV,
    sizes: Map<Seq<char>, usize>,
    domain: DomainV,
    i: int,
) -> Result<(Seq<char>, Seq<Seq<char>>), GenErrorV>
    decreases i,
{
    if i <= 0 {
        Result::Ok((Seq::empty(), Seq::empty()))
    } else {
        match domain_events_spec(c, sizes, domain, i - 1) {
            Result::Err(e) => Result::Err(e),
            Result::Ok((text, ids)) => {
                let dt = domain.datatypes[i - 1];
                match dt {
                    DatatypeV::Event(ev) => if included_dt(c, dt) {
                        match event_case_spec(c, sizes, domain, ev) {
                            Result::Err(e) => Result::Err(e),
                            Result::Ok((decl, vi)) => Result::Ok((text + decl, ids.push(vi))),
                        }
                    } else {
                        Result::Ok((text, ids))
                    },
                    _ => Result::Ok((text, ids)),
                }
            },
        }
    }
}

pub proof fn lemma_domain_events_err(
    c: CfgV,
    sizes: Map<Seq<char>, usize>,
    domain: DomainV,
    i: int,
    j: int,
)
    requires
        0 <= i <= j,
        domain_events_spec(c, sizes, domain, i) is Err,
    ensures
        domain_events_spec(c, sizes, domain, j) == domain_events_spec(c, sizes, domain, i),
    decreases j - i,
{
    if i < j {
        lemma_domain_events_err(c, sizes, domain, i, j - 1);
    }
}

/// The union cases of the first `i` domains of one document.
pub open spec fn protocol_events_spec(
    c: CfgV,
    sizes: Map<Seq<char>, usize>,
    doms: Seq<DomainV>,
    i: int,
) -> Result<(Seq<char>, Seq<Seq<char>>), GenErrorV>
    decreases i,
{
    if i <= 0 {
        Result::Ok((Seq::empty(), Seq::empty()))
    } else {
        match protocol_events_spec(c, sizes, doms, i - 1) {
            Result::Err(e) => Result::Err(e),
            Result::Ok((text, ids)) => if !included_domain(c, doms[i - 1]) {
                Result::Ok((text, ids))
            } else {
                match domain_events_spec(c, sizes, doms[i - 1], doms[i - 1].datatypes.len() as int) {
                    Result::Err(e) => Result::Err(e),
                    Result::Ok((t2, ids2)) => Result::Ok((text + t2, ids + ids2)),
                }
            },
        }
    }
}

pub proof fn lemma_protocol_events_err(
    c: CfgV,
    sizes: Map<Seq<char>, usize>,
    doms: Seq<DomainV>,
    i: int,
    j: int,
)
    requires
        0 <= i <= j,
        protocol_events_spec(c, sizes, doms, i) is Err,
    ensures
        protocol_events_spec(c, sizes, doms, j) == protocol_events_spec(c, sizes, doms, i),
    decreases j - i,
{
    if i < j {
        lemma_protocol_events_err(c, sizes, doms, i, j - 1);
    }
}

/// The union cases of every kept event across the first `i` documents.
pub open spec fn all_events_spec(
    c: CfgV,
    sizes: Map<Seq<char>, usize>,
    protos: Seq<ProtocolV>,
    i: int,
) -> Result<(Seq<char>, Seq<Seq<char>>), GenErrorV>
    decreases i,
{
    if i <= 0 {
        Result::Ok((Seq::empty(), Seq::empty()))
    } else {
        match all_events_spec(c, sizes, protos, i - 1) {
            Result::Err(e) => Result::Err(e),
            Result::Ok((text, ids)) => match protocol_events_spec(
                c,
                sizes,
                protos[i - 1].domains,
                protos[i - 1].domains.len() as int,
            ) {
                Result::Err(e) => Result::Err(e),
                Result::Ok((t2, ids2)) => Result::Ok((text + t2, ids + ids2)),
            },
        }
    }
}

pub proof fn lemma_all_events_err(
    c: CfgV,
    sizes: Map<Seq<char>, usize>,
    protos: Seq<ProtocolV>,
    i: int,
    j: int,
)
    requires
        0 <= i <= j,
        all_events_spec(c, sizes, protos, i) is Err,
    ensures
        all_events_spec(c, sizes, protos, j) == all_events_spec(c, sizes, protos, i),
    decreases j - i,
{
    if i < j {
        lemma_all_events_err(c, sizes, protos, i, j - 1);
    }
}

/// The case-dispatch arms of the union's named-method capability.
pub open spec fn ident_arms_spec(ids: Seq<Seq<char>>, i: int) -> Seq<char>
    decreases i,
{
    if i <= 0 {
        Seq::empty()
    } else {
        ident_arms_spec(ids, i - 1) + "Event::"@ + ids[i - 1]
            + "(inner) => inner.identifier(),\n"@
    }
}

/// The whole global event union: one case per kept event across the entire
/// input set, the named-method capability dispatching to the active case,
/// and the serialization helpers.
pub open spec fn event_enums_spec(
    c: CfgV,
    sizes: Map<Seq<char>, usize>,
    protos: Seq<ProtocolV>,
) -> Result<Seq<char>, GenErrorV> {
    match all_events_spec(c, sizes, protos, protos.len() as int) {
        Result::Err(e) => Result::Err(e),
        Result::Ok((variants, ids)) => Result::Ok(
            event_derives_spec(c.serde) + tag_spec(c.serde, "method"@) + "pub enum Event {\n"@
                + variants + "}\n"@
                + "impl chromeoxid_types::Method for Event {\nfn identifier(&self) -> ::std::borrow::Cow<'static, str> {\nmatch self {\n"@
                + ident_arms_spec(ids, ids.len() as int) + "}\n}\n}\n"@
                + crate::serde_support::event_json_spec(c.serde, ids),
        ),
    }
}

impl Generator {
    /// One event's union case and its case name.
    fn event_case(&self, domain: &Domain, ev: &crate::ir::Event) -> (r: Result<
        (String, String),
        GenError,
    >)
        requires
            self.inv(),
        ensures
            match event_case_spec(self.cfg(), self.type_size@, domain@, ev@) {
                Result::Ok(p) => (r matches Ok(q) && q.0@ == p.0 && q.1@ == p.1),
                Result::Err(e) => (r matches Err(e2) && e2@ == e),
            },
    {
        let var_ident = to_camel(domain.name.as_str()).concat(
            to_camel(ev.name.as_str()).as_str(),
        );
        let idx = match self.domains.get(&domain.name) {
            Some(i) => i,
            None => {
                return Err(GenError::UnknownDomain(domain.name.clone()));
            },
        };
        let ev_name = to_camel(ev.name.as_str());
        let size = match self.type_size.get(&ev_name) {
            Some(s) => s,
            None => {
                return Err(GenError::MissingEventSize(ev_name));
            },
        };
        let mut path = String::from_str("super::");
        path.append(self.protocol_mods[idx].as_str());
        path.append("::");
        path.append(to_snake(domain.name.as_str()).as_str());
        path.append("::");
        path.append(ev_name.as_str());
        let mut raw = String::from_str(domain.name.as_str());
        raw.append(".");
        raw.append(ev.name.as_str());
        let mut decl = self.serde_support.generate_enum_rename(raw.as_str());
        if ev.deprecated {
            decl.append("#[deprecated]\n");
        }
        decl.append(var_ident.as_str());
        decl.append("(");
        if size < BOX_THRESHOLD {
            decl.append(path.as_str());
        } else {
            decl.append("Box<");
            decl.append(path.as_str());
            decl.append(">");
        }
        decl.append("),\n");
        proof {
            assert(strings_view(self.protocol_mods@)[idx as int]
                == self.protocol_mods@[idx as int]@);
            assert(raw@ =~= domain@.name + "."@ + ev@.name);
            assert(path@ =~= "super::"@ + self.cfg().mods[self.cfg().domains[domain@.name] as int]
                + "::"@ + snake_of(domain@.name) + "::"@ + camel_of(ev@.name));
            assert(decl@ =~= event_case_spec(self.cfg(), self.type_size@, domain@, ev@)->Ok_0.0);
        }
        Ok((decl, var_ident))
    }

    /// Appends every kept event of one domain to the union's case list.
    fn domain_events(
        &self,
        domain: &Domain,
        variants: &mut String,
        idents: &mut Vec<String>,
    ) -> (r: Result<(), GenError>)
        requires
            self.inv(),
        ensures
            match domain_events_spec(
                self.cfg(),
                self.type_size@,
                domain@,
                domain@.datatypes.len() as int,
            ) {
                Result::Ok(p) => (r is Ok && final(variants)@ == old(variants)@ + p.0
                    && strings_view(final(idents)@) == strings_view(old(idents)@) + p.1),
                Result::Err(e) => (r matches Err(e2) && e2@ == e),
            },
    {
        let ghost c = self.cfg();
        let ghost sizes = self.type_size@;
        let ghost v0 = variants@;
        let ghost ids0 = strings_view(idents@);
        let mut i: usize = 0;
        while i < domain.datatypes.len()
            invariant
                i <= domain.datatypes@.len(),
                self.inv(),
                c == self.cfg(),
                sizes == self.type_size@,
                v0 == old(variants)@,
                ids0 == strings_view(old(idents)@),
                domain@.datatypes.len() == domain.datatypes@.len(),
                forall|j: int|
                    0 <= j < domain.datatypes@.len() ==> domain@.datatypes[j]
                        == domain.datatypes@[j]@,
                domain_events_spec(c, sizes, domain@, i as int) matches Result::Ok(p) && variants@
                    == v0 + p.0 && strings_view(idents@) == ids0 + p.1,
            decreases domain.datatypes@.len() - i,
        {
            match &domain.datatypes[i] {
                DomainDatatype::Event(ev) => {
                    let included = (self.with_deprecated || !ev.deprecated) && (
                    self.with_experimental || !ev.experimental);
                    if included {
                        let (decl, vi) = match self.event_case(domain, ev) {
                            Ok(p) => p,
                            Err(e) => {
                                proof {
                                    lemma_domain_events_err(
                                        c,
                                        sizes,
                                        domain@,
                                        i + 1,
                                        domain@.datatypes.len() as int,
                                    );
                                }
                                return Err(e);
                            },
                        };
                        variants.append(decl.as_str());
                        let ghost prev = idents@;
                        idents.push(vi);
                        proof {
                            assert(strings_view(idents@) =~= strings_view(prev).push(
                                idents@.last()@,
                            ));
                        }
                    }
                },
                _ => {},
            }
            proof {
                assert(domain_events_spec(c, sizes, domain@, i + 1) matches Result::Ok(p)
                    && variants@ == v0 + p.0 && strings_view(idents@) == ids0 + p.1);
            }
            i += 1;
        }
        Ok(())
    }

    /// Appends every kept event of one document's kept domains.
    fn protocol_events(
        &self,
        doms: &Vec<Domain>,
        variants: &mut String,
        idents: &mut Vec<String>,
    ) -> (r: Result<(), GenError>)
        requires
            self.inv(),
        ensures
            match protocol_events_spec(
                self.cfg(),
                self.type_size@,
                domains_view(doms@),
                doms@.len() as int,
            ) {
                Result::Ok(p) => (r is Ok && final(variants)@ == old(variants)@ + p.0
                    && strings_view(final(idents)@) == strings_view(old(idents)@) + p.1),
                Result::Err(e) => (r matches Err(e2) && e2@ == e),
            },
    {
        let ghost c = self.cfg();
        let ghost sizes = self.type_size@;
        let ghost ds = domains_view(doms@);
        let ghost v0 = variants@;
        let ghost ids0 = strings_view(idents@);
        let mut i: usize = 0;
        while i < doms.len()
            invariant
                i <= doms@.len(),
                self.inv(),
                c == self.cfg(),
                sizes == self.type_size@,
                v0 == old(variants)@,
                ids0 == strings_view(old(idents)@),
                ds == domains_view(doms@),
                ds.len() == doms@.len(),
                forall|j: int| 0 <= j < doms@.len() ==> ds[j] == doms@[j]@,
                protocol_events_spec(c, sizes, ds, i as int) matches Result::Ok(p) && variants@
                    == v0 + p.0 && strings_view(idents@) == ids0 + p.1,
            decreases doms@.len() - i,
        {
            let domain = &doms[i];
            let included = (self.with_deprecated || !domain.deprecated) && (self.with_experimental
                || !domain.experimental);
            if included {
                match self.domain_events(domain, variants, idents) {
                    Ok(_) => {},
                    Err(e) => {
                        proof {
                            lemma_protocol_events_err(c, sizes, ds, i + 1, ds.len() as int);
                        }
                        return Err(e);
                    },
                }
            }
            proof {
                assert(protocol_events_spec(c, sizes, ds, i + 1) matches Result::Ok(p)
                    && variants@ == v0 + p.0 && strings_view(idents@) == ids0 + p.1);
            }
            i += 1;
        }
        Ok(())
    }

    /// Assembles the global event union: runs strictly after the fix-up
    /// pass, collects every kept event across the entire input set, and
    /// boxes a case's payload exactly when the event record's finalized
    /// size reaches the threshold.
    pub fn generate_event_enums(&self, protocols: &Vec<Protocol>) -> (r: Result<String, GenError>)
        requires
            self.inv(),
        ensures
            match event_enums_spec(self.cfg(), self.type_size@, protocols_view(protocols@)) {
                Result::Ok(text) => (r matches Ok(s) && s@ == text),
                Result::Err(e) => (r matches Err(e2) && e2@ == e),
            },
    {
        let ghost c = self.cfg();
        let ghost sizes = self.type_size@;
        let ghost prs = protocols_view(protocols@);
        let mut variants = String::new();
        let mut idents: Vec<String> = Vec::new();
        let mut i: usize = 0;
        while i < protocols.len()
            invariant
                i <= protocols@.len(),
                self.inv(),
                c == self.cfg(),
                sizes == self.type_size@,
                prs == protocols_view(protocols@),
                prs.len() == protocols@.len(),
                forall|j: int| 0 <= j < protocols@.len() ==> prs[j] == protocols@[j]@,
                all_events_spec(c, sizes, prs, i as int) matches Result::Ok(p) && variants@ == p.0
                    && strings_view(idents@) == p.1,
            decreases protocols@.len() - i,
        {
            match self.protocol_events(&protocols[i].domains, &mut variants, &mut idents) {
                Ok(_) => {},
                Err(e) => {
                    proof {
                        lemma_all_events_err(c, sizes, prs, i + 1, prs.len() as int);
                    }
                    return Err(e);
                },
            }
            proof {
                assert(all_events_spec(c, sizes, prs, i + 1) matches Result::Ok(p) && variants@
                    == p.0 && strings_view(idents@) == p.1);
            }
            i += 1;
        }
        let mut id_arms = String::new();
        let ghost ids = strings_view(idents@);
        let mut k: usize = 0;
        while k < idents.len()
            invariant
                k <= idents@.len(),
                ids == strings_view(idents@),
                ids.len() == idents@.len(),
                forall|j: int| 0 <= j < idents@.len() ==> ids[j] == idents@[j]@,
                id_arms@ == ident_arms_spec(ids, k as int),
            decreases idents@.len() - k,
        {
            id_arms.append("Event::");
            id_arms.append(idents[k].as_str());
            id_arms.append("(inner) => inner.identifier(),\n");
            proof {
                assert(id_arms@ =~= ident_arms_spec(ids, k + 1));
            }
            k += 1;
        }
        let mut out = self.serde_support.generate_event_derives();
        out.append(self.serde_support.tag("method").as_str());
        out.append("pub enum Event {\n");
        out.append(variants.as_str());
        out.append("}\n");
        out.append(
            "impl chromeoxid_types::Method for Event {\nfn identifier(&self) -> ::std::borrow::Cow<'static, str> {\nmatch self {\n",
        );
        out.append(id_arms.as_str());
        out.append("}\n}\n}\n");
        out.append(self.serde_support.generate_event_json_support(&idents).as_str());
        proof {
            assert(out@ =~= event_enums_spec(c, sizes, prs)->Ok_0);
        }
        Ok(out)
    }
}

/// Registering the first `j` domains of the document at `idx`.
pub open spec fn register_domain_list(
    m: Map<Seq<char>, usize>,
    doms: Seq<DomainV>,
    idx: int,
    j: int,
) -> Map<Seq<char>, usize>
    decreases j,
{
    if j <= 0 {
        m
    } else {
        register_domain_list(m, doms, idx, j - 1).insert(doms[j - 1].name, idx as usize)
    }
}

/// The domain-to-document index built from the first `i` documents, before
/// any type generation begins.
pub open spec fn register_domains_spec(protos: Seq<ProtocolV>, i: int) -> Map<Seq<char>, usize>
    decreases i,
{
    if i <= 0 {
        Map::empty()
    } else {
        register_domain_list(
            register_domains_spec(protos, i - 1),
            protos[i - 1].domains,
            i - 1,
            protos[i - 1].domains.len() as int,
        )
    }
}

/// The version constant surfaced in a document's generated module.
pub open spec fn version_const_spec(v: crate::ir::VersionV) -> Seq<char> {
    "/// The version of this protocol definition\npub const VERSION: &str = \""@ + v.major + "."@
        + v.minor + "\";\n"@
}

/// The generated modules of the first `i` documents, one per document.
pub open spec fn modules_spec(
    c: CfgV,
    st: SizeState,
    protos: Seq<ProtocolV>,
    mods: Seq<Seq<char>>,
    i: int,
) -> Result<(SizeState, Seq<char>), GenErrorV>
    decreases i,
{
    if i <= 0 {
        Result::Ok((st, Seq::empty()))
    } else {
        match modules_spec(c, st, protos, mods, i - 1) {
            Result::Err(e) => Result::Err(e),
            Result::Ok((st1, text)) => match types_spec(
                c,
                st1,
                protos[i - 1].domains,
                protos[i - 1].domains.len() as int,
            ) {
                Result::Err(e) => Result::Err(e),
                Result::Ok((st2, t)) => Result::Ok(
                    (
                        st2,
                        text + "#[allow(clippy::too_many_arguments)]\npub mod "@ + mods[i - 1]
                            + " {\n"@ + version_const_spec(protos[i - 1].version) + t + "}\n"@,
                    ),
                ),
            },
        }
    }
}

pub proof fn lemma_modules_err(
    c: CfgV,
    st: SizeState,
    protos: Seq<ProtocolV>,
    mods: Seq<Seq<char>>,
    i: int,
    j: int,
)
    requires
        0 <= i <= j,
        modules_spec(c, st, protos, mods, i) is Err,
    ensures
        modules_spec(c, st, protos, mods, j) == modules_spec(c, st, protos, mods, i),
    decreases j - i,
{
    if i < j {
        lemma_modules_err(c, st, protos, mods, i, j - 1);
    }
}

/// One whole generation run over already-parsed documents: the domain index
/// is built first; each document's domains are synthesized into one module;
/// the deferred size fix-up pass drains the worklist; and the global event
/// union is assembled against the finalized sizes. The output is one source
/// artifact wrapping everything in the target module.
pub open spec fn compile_spec(
    serde: SerdeSupportV,
    with_experimental: bool,
    with_deprecated: bool,
    target: Option<Seq<char>>,
    protos: Seq<ProtocolV>,
    mods: Seq<Seq<char>>,
) -> Result<Seq<char>, GenErrorV> {
    let c = CfgV {
        serde,
        with_experimental,
        with_deprecated,
        domains: register_domains_spec(protos, protos.len() as int),
        mods,
    };
    let st0 = SizeState { sizes: Map::empty(), refs: Seq::empty() };
    match modules_spec(c, st0, protos, mods, protos.len() as int) {
        Result::Err(e) => Result::Err(e),
        Result::Ok((st1, modules)) => match fixup_spec(st1, st1.refs.len() as int) {
            Result::Err(e) => Result::Err(e),
            Result::Ok(sizes) => match event_enums_spec(c, sizes, protos) {
                Result::Err(e) => Result::Err(e),
                Result::Ok(events) => {
                    let mod_name = match target {
                        Option::Some(m) => m,
                        Option::None => "cdp"@,
                    };
                    Result::Ok(
                        "pub mod "@ + mod_name + " {\npub use events::*;\npub mod events {\n"@
                            + imports_spec(serde) + events + "}\n"@ + modules + "}\n"@,
                    )
                },
            },
        },
    }
}

impl Generator {
    /// Drives one whole generation run: registers every domain's owning
    /// document, generates each document's module, completes the deferred
    /// size fix-up, assembles the global event union, and returns the
    /// combined output artifact.
    #[verifier::rlimit(100)]
    #[verifier::spinoff_prover]
    pub fn compile_protocols(&mut self, protocols: &Vec<Protocol>, mod_names: &Vec<String>) -> (r:
        Result<String, GenError>)
        requires
            old(self).inv(),
            old(self).protocol_mods@.len() == 0,
            old(self).domains@ == Map::<Seq<char>, usize>::empty(),
            old(self).type_size@ == Map::<Seq<char>, usize>::empty(),
            old(self).ref_sizes@.len() == 0,
            protocols@.len() == mod_names@.len(),
        ensures
            match compile_spec(
                old(self).serde_support@,
                old(self).with_experimental,
                old(self).with_deprecated,
                crate::ir::opt_str_view(old(self).target_mod),
                protocols_view(protocols@),
                strings_view(mod_names@),
            ) {
                Result::Ok(text) => (r matches Ok(s) && s@ == text),
                Result::Err(e) => (r matches Err(e2) && e2@ == e),
            },
    {
        let ghost prs = protocols_view(protocols@);
        let ghost ms = strings_view(mod_names@);
        let mut i: usize = 0;
        while i < mod_names.len()
            invariant
                i <= mod_names@.len(),
                ms == strings_view(mod_names@),
                ms.len() == mod_names@.len(),
                forall|j: int| 0 <= j < mod_names@.len() ==> ms[j] == mod_names@[j]@,
                self.serde_support == old(self).serde_support,
                self.with_experimental == old(self).with_experimental,
                self.with_deprecated == old(self).with_deprecated,
                self.out_dir == old(self).out_dir,
                self.target_mod == old(self).target_mod,
                self.domains == old(self).domains,
                self.type_size == old(self).type_size,
                self.ref_sizes == old(self).ref_sizes,
                self.protocol_mods@.len() == i,
                forall|j: int| 0 <= j < i ==> self.protocol_mods@[j]@ == ms[j],
            decreases mod_names@.len() - i,
        {
            self.protocol_mods.push(mod_names[i].clone());
            i += 1;
        }
        proof {
            assert(strings_view(self.protocol_mods@) =~= ms);
        }
        let ghost pm = self.protocol_mods@;
        let mut i: usize = 0;
        while i < protocols.len()
            invariant
                i <= protocols@.len(),
                prs == protocols_view(protocols@),
                prs.len() == protocols@.len(),
                forall|j: int| 0 <= j < protocols@.len() ==> prs[j] == protocols@[j]@,
                self.serde_support == old(self).serde_support,
                self.with_experimental == old(self).with_experimental,
                self.with_deprecated == old(self).with_deprecated,
                self.out_dir == old(self).out_dir,
                self.target_mod == old(self).target_mod,
                self.type_size == old(self).type_size,
                self.ref_sizes == old(self).ref_sizes,
                self.protocol_mods@ == pm,
                strings_view(pm) == ms,
                pm.len() == protocols@.len(),
                self.domains.wf(),
                forall|k: Seq<char>|
                    self.domains@.contains_key(k) ==> self.domains@[k] < protocols@.len(),
                self.domains@ == register_domains_spec(prs, i as int),
            decreases protocols@.len() - i,
        {
            let doms = &protocols[i].domains;
            let ghost dvs = prs[i as int].domains;
            let mut j: usize = 0;
            while j < doms.len()
                invariant
                    j <= doms@.len(),
                    i < protocols@.len(),
                    prs.len() == protocols@.len(),
                    dvs == prs[i as int].domains,
                    dvs.len() == doms@.len(),
                    forall|k: int| 0 <= k < doms@.len() ==> dvs[k] == doms@[k]@,
                    self.serde_support == old(self).serde_support,
                    self.with_experimental == old(self).with_experimental,
                    self.with_deprecated == old(self).with_deprecated,
                    self.out_dir == old(self).out_dir,
                    self.target_mod == old(self).target_mod,
                    self.type_size == old(self).type_size,
                    self.ref_sizes == old(self).ref_sizes,
                    self.protocol_mods@ == pm,
                    self.domains.wf(),
                    forall|k: Seq<char>|
                        self.domains@.contains_key(k) ==> self.domains@[k] < protocols@.len(),
                    self.domains@ == register_domain_list(
                        register_domains_spec(prs, i as int),
                        dvs,
                        i as int,
                        j as int,
                    ),
                decreases doms@.len() - j,
            {
                self.domains.set(doms[j].name.clone(), i);
                j += 1;
            }
            i += 1;
        }
        let ghost c = self.cfg();
        let ghost st0 = self.state();
        proof {
            assert(c == CfgV {
                serde: old(self).serde_support@,
                with_experimental: old(self).with_experimental,
                with_deprecated: old(self).with_deprecated,
                domains: register_domains_spec(prs, prs.len() as int),
                mods: ms,
            });
            assert(st0.refs =~= Seq::<(Seq<char>, Seq<char>)>::empty());
            assert(st0 == SizeState { sizes: Map::empty(), refs: Seq::empty() });
        }
        let mut modules = String::new();
        let mut i: usize = 0;
        while i < protocols.len()
            invariant
                i <= protocols@.len(),
                prs == protocols_view(protocols@),
                prs.len() == protocols@.len(),
                forall|j: int| 0 <= j < protocols@.len() ==> prs[j] == protocols@[j]@,
                ms.len() == protocols@.len(),
                forall|j: int| 0 <= j < protocols@.len() ==> ms[j] == mod_names@[j]@,
                mod_names@.len() == protocols@.len(),
                ms == strings_view(mod_names@),
                c == (CfgV {
                    serde: old(self).serde_support@,
                    with_experimental: old(self).with_experimental,
                    with_deprecated: old(self).with_deprecated,
                    domains: register_domains_spec(prs, prs.len() as int),
                    mods: ms,
                }),
                st0 == (SizeState { sizes: Map::empty(), refs: Seq::empty() }),
                self.inv(),
                self.cfg() == c,
                self.target_mod == old(self).target_mod,
                modules_spec(c, st0, prs, ms, i as int) matches Result::Ok(p) && p.0
                    == self.state() && p.1 == modules@,
            decreases protocols@.len() - i,
        {
            let types = match self.generate_types(&protocols[i].domains) {
                Ok(t) => t,
                Err(e) => {
                    proof {
                        lemma_modules_err(c, st0, prs, ms, i + 1, prs.len() as int);
                    }
                    return Err(e);
                },
            };
            modules.append("#[allow(clippy::too_many_arguments)]\npub mod ");
            modules.append(mod_names[i].as_str());
            modules.append(" {\n");
            modules.append("/// The version of this protocol definition\npub const VERSION: &str = \"");
            modules.append(protocols[i].version.major.as_str());
            modules.append(".");
            modules.append(protocols[i].version.minor.as_str());
            modules.append("\";\n");
            modules.append(types.as_str());
            modules.append("}\n");
            proof {
                assert(modules_spec(c, st0, prs, ms, i + 1) matches Result::Ok(p) && p.0
                    == self.state() && p.1 == modules@);
            }
            i += 1;
        }
        match self.drain_deferred() {
            Ok(_) => {},
            Err(e) => {
                return Err(e);
            },
        }
        let events = match self.generate_event_enums(protocols) {
            Ok(t) => t,
            Err(e) => {
                return Err(e);
            },
        };
        let mod_name = match &self.target_mod {
            Some(m) => m.clone(),
            None => String::from_str("cdp"),
        };
        let mut out = String::from_str("pub mod ");
        out.append(mod_name.as_str());
        out.append(" {\npub use events::*;\npub mod events {\n");
        out.append(self.serde_support.generate_serde_imports().as_str());
        out.append(events.as_str());
        out.append("}\n");
        out.append(modules.as_str());
        out.append("}\n");
        proof {
            assert(self.cfg() == c);
            assert(mod_name@ == (match crate::ir::opt_str_view(old(self).target_mod) {
                Option::Some(m) => m,
                Option::None => "cdp"@,
            }));
            assert(out@ =~= compile_spec(
                old(self).serde_support@,
                old(self).with_experimental,
                old(self).with_deprecated,
                crate::ir::opt_str_view(old(self).target_mod),
                prs,
                ms,
            )->Ok_0);
        }
        Ok(out)
    }
}

} // verus!
