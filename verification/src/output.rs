//! Output-side model: resolved field types, size contributions, field
//! definitions, and the construction-helper (builder) synthesizer.

use vstd::prelude::*;

use crate::serde_support::{opt_attr_spec, vec_attr_spec, SerdeSupport};

verus! {

/// Tracked size of the plain integer scalar, in size-units.
pub const SIZE_INTEGER: usize = 8;

/// Tracked size of the floating-point scalar.
pub const SIZE_NUMBER: usize = 8;

/// Tracked size of the boolean scalar.
pub const SIZE_BOOLEAN: usize = 1;

/// Tracked size of an owned string handle.
pub const SIZE_STRING: usize = 24;

/// Tracked size of an opaque structured value.
pub const SIZE_OPAQUE: usize = 32;

/// Tracked size of one byte of a byte sequence.
pub const SIZE_BINARY: usize = 1;

/// Nominal size of an enum tag, regardless of its variant count.
pub const SIZE_ENUM: usize = 16;

/// Tracked size of a growable sequence handle.
pub const SIZE_LIST: usize = 24;

/// Tracked size of one level of heap indirection.
pub const SIZE_BOX: usize = 8;

/// Events whose record reaches this many size-units get a boxed payload in
/// the global event union; smaller records are embedded inline. The value is
/// a documented heuristic bound on union size, not derived from the input.
pub const BOX_THRESHOLD: usize = 200;

/// How a resolved field type wraps its base path.
#[derive(Clone, Copy, PartialEq, Eq, Structural, Debug)]
pub enum Wrap {
    Direct,
    List,
    Boxed,
}

/// A resolved output field type: a type path plus at most one container or
/// indirection wrapper.
pub struct FieldType {
    pub wrap: Wrap,
    pub inner: String,
}

pub struct FieldTypeV {
    pub wrap: Wrap,
    pub inner: Seq<char>,
}

impl View for FieldType {
    type V = FieldTypeV;

    open spec fn view(&self) -> FieldTypeV {
        FieldTypeV { wrap: self.wrap, inner: self.inner@ }
    }
}

/// The source text of a resolved field type.
pub open spec fn render_spec(ft: FieldTypeV) -> Seq<char> {
    match ft.wrap {
        Wrap::Direct => ft.inner,
        Wrap::List => "Vec<"@ + ft.inner + ">"@,
        Wrap::Boxed => "Box<"@ + ft.inner + ">"@,
    }
}

impl FieldType {
    pub fn new(inner: String) -> (r: FieldType)
        ensures
            r@ == (FieldTypeV { wrap: Wrap::Direct, inner: inner@ }),
    {
        FieldType { wrap: Wrap::Direct, inner }
    }

    pub fn new_vec(inner: String) -> (r: FieldType)
        ensures
            r@ == (FieldTypeV { wrap: Wrap::List, inner: inner@ }),
    {
        FieldType { wrap: Wrap::List, inner }
    }

    pub fn new_box(inner: String) -> (r: FieldType)
        ensures
            r@ == (FieldTypeV { wrap: Wrap::Boxed, inner: inner@ }),
    {
        FieldType { wrap: Wrap::Boxed, inner }
    }

    pub fn render(&self) -> (r: String)
        ensures
            r@ == render_spec(self@),
    {
        match self.wrap {
            Wrap::Direct => self.inner.clone(),
            Wrap::List => {
                let r = String::from_str("Vec<").concat(self.inner.as_str()).concat(">");
                proof {
                    assert(r@ =~= render_spec(self@));
                }
                r
            },
            Wrap::Boxed => {
                let r = String::from_str("Box<").concat(self.inner.as_str()).concat(">");
                proof {
                    assert(r@ =~= render_spec(self@));
                }
                r
            },
        }
    }
}

/// A field's size contribution: a known constant, or deferred until the
/// referenced type's size is known.
pub enum Contribution {
    Fixed(usize),
    Deferred(String),
}

pub enum ContributionV {
    Fixed(usize),
    Deferred(Seq<char>),
}

impl View for Contribution {
    type V = ContributionV;

    open spec fn view(&self) -> ContributionV {
        match self {
            Contribution::Fixed(n) => ContributionV::Fixed(*n),
            Contribution::Deferred(s) => ContributionV::Deferred(s@),
        }
    }
}

/// One synthesized record field.
pub struct FieldDefinition {
    pub name: String,
    pub ty: FieldType,
    pub optional: bool,
    pub deprecated: bool,
}

pub struct FieldDefinitionV {
    pub name: Seq<char>,
    pub ty: FieldTypeV,
    pub optional: bool,
    pub deprecated: bool,
}

impl View for FieldDefinition {
    type V = FieldDefinitionV;

    open spec fn view(&self) -> FieldDefinitionV {
        FieldDefinitionV {
            name: self.name@,
            ty: self.ty@,
            optional: self.optional,
            deprecated: self.deprecated,
        }
    }
}

/// A doc comment for an optional description.
pub open spec fn doc_spec(desc: Option<Seq<char>>) -> Seq<char> {
    match desc {
        Option::Some(d) => "/// "@ + d + "\n"@,
        Option::None => Seq::empty(),
    }
}

pub fn generate_doc(desc: &Option<String>) -> (r: String)
    ensures
        r@ == doc_spec(crate::ir::opt_str_view(*desc)),
{
    match desc {
        Some(d) => {
            let r = String::from_str("/// ").concat(d.as_str()).concat("\n");
            proof {
                assert(r@ =~= doc_spec(crate::ir::opt_str_view(*desc)));
            }
            r
        },
        None => String::new(),
    }
}

/// The declared type of a field: wrapped in `Option` when the parameter is
/// wire-optional.
pub open spec fn field_decl_ty_spec(fd: FieldDefinitionV) -> Seq<char> {
    if fd.optional {
        "Option<"@ + render_spec(fd.ty) + ">"@
    } else {
        render_spec(fd.ty)
    }
}

/// The full source text of one record field declaration.
pub open spec fn field_def_spec(
    serde: crate::serde_support::SerdeSupportV,
    desc: Option<Seq<char>>,
    fd: FieldDefinitionV,
) -> Seq<char> {
    doc_spec(desc) + (if fd.deprecated {
        "#[deprecated]\n"@
    } else {
        Seq::<char>::empty()
    }) + (if fd.optional {
        opt_attr_spec(serde)
    } else if fd.ty.wrap is List {
        vec_attr_spec(serde)
    } else {
        Seq::<char>::empty()
    }) + "pub "@ + fd.name + ": "@ + field_decl_ty_spec(fd) + ",\n"@
}

impl FieldDefinition {
    /// The source text declaring this field inside its record.
    pub fn generate_definition(&self, serde: &SerdeSupport, desc: &Option<String>) -> (r: String)
        ensures
            r@ == field_def_spec(serde@, crate::ir::opt_str_view(*desc), self@),
    {
        let mut out = generate_doc(desc);
        if self.deprecated {
            out.append("#[deprecated]\n");
        }
        if self.optional {
            out.append(serde.generate_opt_field_attr().as_str());
        } else {
            match self.ty.wrap {
                Wrap::List => out.append(serde.generate_vec_field_attr().as_str()),
                _ => {},
            }
        }
        out.append("pub ");
        out.append(self.name.as_str());
        out.append(": ");
        if self.optional {
            out.append("Option<");
            out.append(self.ty.render().as_str());
            out.append(">");
        } else {
            out.append(self.ty.render().as_str());
        }
        out.append(",\n");
        proof {
            assert(out@ =~= field_def_spec(serde@, crate::ir::opt_str_view(*desc), self@));
        }
        out
    }
}

/// Synthesizes a record definition and its construction helper from a field
/// list: the helper is constructed with all mandatory fields as arguments,
/// carries one chainable setter per optional field, and produces the record.
pub struct Builder {
    pub name: String,
    pub fields: Vec<(String, FieldDefinition)>,
}

pub open spec fn builder_fields_view(fs: Seq<(String, FieldDefinition)>) -> Seq<
    (Seq<char>, FieldDefinitionV),
> {
    fs.map_values(|f: (String, FieldDefinition)| (f.0@, f.1@))
}

/// Whether any field is mandatory; a record with none supports an
/// all-defaults constructor.
pub open spec fn has_mandatory_spec(fs: Seq<FieldDefinitionV>) -> bool {
    exists|i: int| 0 <= i < fs.len() && !fs[i].optional
}

/// The concatenated field declarations of the first `i` fields.
pub open spec fn struct_body_spec(fs: Seq<(Seq<char>, FieldDefinitionV)>, i: int) -> Seq<char>
    decreases i,
{
    if i <= 0 {
        Seq::empty()
    } else {
        struct_body_spec(fs, i - 1) + fs[i - 1].0
    }
}

/// The record definition: its name and every field declaration.
pub open spec fn struct_def_spec(name: Seq<char>, fs: Seq<(Seq<char>, FieldDefinitionV)>) -> Seq<
    char,
> {
    "pub struct "@ + name + " {\n"@ + struct_body_spec(fs, fs.len() as int) + "}\n"@
}

/// Builder-struct field declarations for the first `i` fields: mandatory
/// fields keep their type, optional ones stay `Option`-wrapped.
pub open spec fn bstruct_body_spec(fs: Seq<FieldDefinitionV>, i: int) -> Seq<char>
    decreases i,
{
    if i <= 0 {
        Seq::empty()
    } else {
        bstruct_body_spec(fs, i - 1) + fs[i - 1].name + ": "@ + field_decl_ty_spec(fs[i - 1])
            + ",\n"@
    }
}

/// The `new` argument list: one argument per mandatory field.
pub open spec fn bnew_args_spec(fs: Seq<FieldDefinitionV>, i: int) -> Seq<char>
    decreases i,
{
    if i <= 0 {
        Seq::empty()
    } else if fs[i - 1].optional {
        bnew_args_spec(fs, i - 1)
    } else {
        bnew_args_spec(fs, i - 1) + fs[i - 1].name + ": "@ + render_spec(fs[i - 1].ty) + ", "@
    }
}

/// The `new` body initializers: mandatory fields from arguments, optional
/// fields start unset.
pub open spec fn bnew_inits_spec(fs: Seq<FieldDefinitionV>, i: int) -> Seq<char>
    decreases i,
{
    if i <= 0 {
        Seq::empty()
    } else if fs[i - 1].optional {
        bnew_inits_spec(fs, i - 1) + fs[i - 1].name + ": None,\n"@
    } else {
        bnew_inits_spec(fs, i - 1) + fs[i - 1].name + ",\n"@
    }
}

/// One chainable setter per optional field.
pub open spec fn bsetters_spec(bname: Seq<char>, fs: Seq<FieldDefinitionV>, i: int) -> Seq<char>
    decreases i,
{
    if i <= 0 {
        Seq::empty()
    } else if fs[i - 1].optional {
        bsetters_spec(bname, fs, i - 1) + "pub fn "@ + fs[i - 1].name + "(mut self, "@ + fs[i
            - 1].name + ": "@ + render_spec(fs[i - 1].ty) + ") -> "@ + bname + " {\nself."@ + fs[i
            - 1].name + " = Some("@ + fs[i - 1].name + ");\nself\n}\n"@
    } else {
        bsetters_spec(bname, fs, i - 1)
    }
}

/// The `build` body: every field moves over.
pub open spec fn bbuild_inits_spec(fs: Seq<FieldDefinitionV>, i: int) -> Seq<char>
    decreases i,
{
    if i <= 0 {
        Seq::empty()
    } else {
        bbuild_inits_spec(fs, i - 1) + fs[i - 1].name + ": self."@ + fs[i - 1].name + ",\n"@
    }
}

/// The whole construction helper: builder struct, `new`, setters, `build`.
pub open spec fn builder_impl_spec(name: Seq<char>, fs: Seq<FieldDefinitionV>) -> Seq<char> {
    let bname = name + "Builder"@;
    let n = fs.len() as int;
    "pub struct "@ + bname + " {\n"@ + bstruct_body_spec(fs, n) + "}\n"@ + "impl "@ + bname
        + " {\n"@ + "pub fn new("@ + bnew_args_spec(fs, n) + ") -> "@ + bname + " {\n"@ + bname
        + " {\n"@ + bnew_inits_spec(fs, n) + "}\n}\n"@ + bsetters_spec(bname, fs, n)
        + "pub fn build(self) -> "@ + name + " {\n"@ + name + " {\n"@ + bbuild_inits_spec(fs, n)
        + "}\n}\n}\n"@
}

pub open spec fn fdefs_of(fs: Seq<(Seq<char>, FieldDefinitionV)>) -> Seq<FieldDefinitionV> {
    fs.map_values(|f: (Seq<char>, FieldDefinitionV)| f.1)
}

impl Builder {
    pub fn new(name: String) -> (r: Builder)
        ensures
            r.name@ == name@,
            r.fields@.len() == 0,
    {
        Builder { name, fields: Vec::new() }
    }

    /// Whether any field must be supplied at construction.
    pub fn has_mandatory_types(&self) -> (r: bool)
        ensures
            r == has_mandatory_spec(fdefs_of(builder_fields_view(self.fields@))),
    {
        let ghost fs = fdefs_of(builder_fields_view(self.fields@));
        let mut i: usize = 0;
        while i < self.fields.len()
            invariant
                i <= self.fields@.len(),
                fs == fdefs_of(builder_fields_view(self.fields@)),
                fs.len() == self.fields@.len(),
                forall|j: int| 0 <= j < i ==> fs[j].optional,
                forall|j: int|
                    0 <= j < self.fields@.len() ==> fs[j] == self.fields@[j].1@,
            decreases self.fields@.len() - i,
        {
            if !self.fields[i].1.optional {
                proof {
                    assert(!fs[i as int].optional);
                }
                return true;
            }
            i += 1;
        }
        false
    }

    /// The record definition assembled from the field declaration texts.
    pub fn generate_struct_def(&self) -> (r: String)
        ensures
            r@ == struct_def_spec(self.name@, builder_fields_view(self.fields@)),
    {
        let ghost fs = builder_fields_view(self.fields@);
        let mut out = String::from_str("pub struct ");
        out.append(self.name.as_str());
        out.append(" {\n");
        let ghost head = out@;
        let mut i: usize = 0;
        while i < self.fields.len()
            invariant
                i <= self.fields@.len(),
                fs == builder_fields_view(self.fields@),
                fs.len() == self.fields@.len(),
                forall|j: int|
                    0 <= j < self.fields@.len() ==> fs[j] == (
                    self.fields@[j].0@,
                    self.fields@[j].1@,
                ),
                out@ == head + struct_body_spec(fs, i as int),
                head == "pub struct "@ + self.name@ + " {\n"@,
            decreases self.fields@.len() - i,
        {
            out.append(self.fields[i].0.as_str());
            i += 1;
        }
        out.append("}\n");
        proof {
            assert(out@ =~= struct_def_spec(self.name@, fs));
        }
        out
    }

    /// The construction helper for this record.
    pub fn generate_impl(&self) -> (r: String)
        ensures
            r@ == builder_impl_spec(self.name@, fdefs_of(builder_fields_view(self.fields@))),
    {
        let ghost fs = fdefs_of(builder_fields_view(self.fields@));
        let bname = self.name.clone().concat("Builder");
        let mut body = String::new();
        let mut args = String::new();
        let mut inits = String::new();
        let mut setters = String::new();
        let mut builds = String::new();
        let mut i: usize = 0;
        while i < self.fields.len()
            invariant
                i <= self.fields@.len(),
                fs == fdefs_of(builder_fields_view(self.fields@)),
                fs.len() == self.fields@.len(),
                forall|j: int|
                    0 <= j < self.fields@.len() ==> fs[j] == self.fields@[j].1@,
                bname@ == self.name@ + "Builder"@,
                body@ == bstruct_body_spec(fs, i as int),
                args@ == bnew_args_spec(fs, i as int),
                inits@ == bnew_inits_spec(fs, i as int),
                setters@ == bsetters_spec(bname@, fs, i as int),
                builds@ == bbuild_inits_spec(fs, i as int),
            decreases self.fields@.len() - i,
        {
            let fd = &self.fields[i].1;
            body.append(fd.name.as_str());
            body.append(": ");
            if fd.optional {
                body.append("Option<");
                body.append(fd.ty.render().as_str());
                body.append(">");
            } else {
                body.append(fd.ty.render().as_str());
            }
            body.append(",\n");
            if fd.optional {
                inits.append(fd.name.as_str());
                inits.append(": None,\n");
                setters.append("pub fn ");
                setters.append(fd.name.as_str());
                setters.append("(mut self, ");
                setters.append(fd.name.as_str());
                setters.append(": ");
                setters.append(fd.ty.render().as_str());
                setters.append(") -> ");
                setters.append(bname.as_str());
                setters.append(" {\nself.");
                setters.append(fd.name.as_str());
                setters.append(" = Some(");
                setters.append(fd.name.as_str());
                setters.append(");\nself\n}\n");
            } else {
                args.append(fd.name.as_str());
                args.append(": ");
                args.append(fd.ty.render().as_str());
                args.append(", ");
                inits.append(fd.name.as_str());
                inits.append(",\n");
            }
            builds.append(fd.name.as_str());
            builds.append(": self.");
            builds.append(fd.name.as_str());
            builds.append(",\n");
            proof {
                assert(body@ =~= bstruct_body_spec(fs, i + 1));
                assert(args@ =~= bnew_args_spec(fs, i + 1));
                assert(inits@ =~= bnew_inits_spec(fs, i + 1));
                assert(setters@ =~= bsetters_spec(bname@, fs, i + 1));
                assert(builds@ =~= bbuild_inits_spec(fs, i + 1));
            }
            i += 1;
        }
        let mut out = String::from_str("pub struct ");
        out.append(bname.as_str());
        out.append(" {\n");
        out.append(body.as_str());
        out.append("}\n");
        out.append("impl ");
        out.append(bname.as_str());
        out.append(" {\n");
        out.append("pub fn new(");
        out.append(args.as_str());
        out.append(") -> ");
        out.append(bname.as_str());
        out.append(" {\n");
        out.append(bname.as_str());
        out.append(" {\n");
        out.append(inits.as_str());
        out.append("}\n}\n");
        out.append(setters.as_str());
        out.append("pub fn build(self) -> ");
        out.append(self.name.as_str());
        out.append(" {\n");
        out.append(self.name.as_str());
        out.append(" {\n");
        out.append(builds.as_str());
        out.append("}\n}\n}\n");
        proof {
            assert(out@ =~= builder_impl_spec(self.name@, fs));
        }
        out
    }
}

} // verus!
