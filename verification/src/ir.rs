//! The parsed protocol representation consumed by the generator: documents,
//! domains, datatypes (type definitions, commands, events), parameters and
//! inline enum variants. The front-end parser produces this tree; the
//! generator treats it as immutable input.
//!
//! Each node carries a ghost mirror (`…V`) holding the views of its strings,
//! so contracts can speak of the input as pure mathematical data.

use vstd::prelude::*;

verus! {

/// A named enum case, either declared in the interface definition or
/// synthesized for a hoisted enum.
pub struct Variant {
    pub name: String,
    pub description: Option<String>,
}

pub struct VariantV {
    pub name: Seq<char>,
    pub description: Option<Seq<char>>,
}

pub open spec fn opt_str_view(o: Option<String>) -> Option<Seq<char>> {
    match o {
        Option::Some(s) => Option::Some(s@),
        Option::None => Option::None,
    }
}

impl View for Variant {
    type V = VariantV;

    open spec fn view(&self) -> VariantV {
        VariantV { name: self.name@, description: opt_str_view(self.description) }
    }
}

pub open spec fn variants_view(vs: Seq<Variant>) -> Seq<VariantV> {
    vs.map_values(|v: Variant| v@)
}

/// Copies an optional description; the view is preserved.
pub fn clone_opt(o: &Option<String>) -> (r: Option<String>)
    ensures
        opt_str_view(r) == opt_str_view(*o),
{
    match o {
        Some(s) => Some(s.clone()),
        None => None,
    }
}

/// The closed set of field types of the interface-description language.
pub enum Type {
    Integer,
    Number,
    Boolean,
    Str,
    Object,
    Any,
    Binary,
    Enum(Vec<Variant>),
    ArrayOf(Box<Type>),
    Ref(String),
}

pub enum TypeV {
    Integer,
    Number,
    Boolean,
    Str,
    Object,
    Any,
    Binary,
    Enum(Seq<VariantV>),
    ArrayOf(Box<TypeV>),
    Ref(Seq<char>),
}

impl Type {
    pub open spec fn view_rec(self) -> TypeV
        decreases self,
    {
        match self {
            Type::Integer => TypeV::Integer,
            Type::Number => TypeV::Number,
            Type::Boolean => TypeV::Boolean,
            Type::Str => TypeV::Str,
            Type::Object => TypeV::Object,
            Type::Any => TypeV::Any,
            Type::Binary => TypeV::Binary,
            Type::Enum(vs) => TypeV::Enum(variants_view(vs@)),
            Type::ArrayOf(t) => TypeV::ArrayOf(Box::new((*t).view_rec())),
            Type::Ref(n) => TypeV::Ref(n@),
        }
    }

    /// Whether the type is the plain integer scalar.
    pub fn is_integer(&self) -> (r: bool)
        ensures
            r == (self@ is Integer),
    {
        match self {
            Type::Integer => true,
            _ => false,
        }
    }

    /// Whether the type is the plain string scalar.
    pub fn is_string(&self) -> (r: bool)
        ensures
            r == (self@ is Str),
    {
        match self {
            Type::Str => true,
            _ => false,
        }
    }
}

impl View for Type {
    type V = TypeV;

    open spec fn view(&self) -> TypeV {
        self.view_rec()
    }
}

/// A named field of a datatype or of a command's returns list.
pub struct Param {
    pub name: String,
    pub description: Option<String>,
    pub optional: bool,
    pub deprecated: bool,
    pub experimental: bool,
    pub ty: Type,
}

pub struct ParamV {
    pub name: Seq<char>,
    pub description: Option<Seq<char>>,
    pub optional: bool,
    pub deprecated: bool,
    pub experimental: bool,
    pub ty: TypeV,
}

impl View for Param {
    type V = ParamV;

    open spec fn view(&self) -> ParamV {
        ParamV {
            name: self.name@,
            description: opt_str_view(self.description),
            optional: self.optional,
            deprecated: self.deprecated,
            experimental: self.experimental,
            ty: self.ty@,
        }
    }
}

pub open spec fn params_view(ps: Seq<Param>) -> Seq<ParamV> {
    ps.map_values(|p: Param| p@)
}

/// The content of a named type definition: an enum's variant list, a
/// record's field list, or nothing for a plain alias.
pub enum TypeItem {
    Enum(Vec<Variant>),
    Properties(Vec<Param>),
}

pub enum TypeItemV {
    Enum(Seq<VariantV>),
    Properties(Seq<ParamV>),
}

impl View for TypeItem {
    type V = TypeItemV;

    open spec fn view(&self) -> TypeItemV {
        match self {
            TypeItem::Enum(vs) => TypeItemV::Enum(variants_view(vs@)),
            TypeItem::Properties(ps) => TypeItemV::Properties(params_view(ps@)),
        }
    }
}

pub open spec fn opt_item_view(o: Option<TypeItem>) -> Option<TypeItemV> {
    match o {
        Option::Some(i) => Option::Some(i@),
        Option::None => Option::None,
    }
}

/// A named type definition: an alias over `extends`, an enum, or a record.
pub struct TypeDef {
    pub name: String,
    pub description: Option<String>,
    pub deprecated: bool,
    pub experimental: bool,
    pub extends: Type,
    pub item: Option<TypeItem>,
}

pub struct TypeDefV {
    pub name: Seq<char>,
    pub description: Option<Seq<char>>,
    pub deprecated: bool,
    pub experimental: bool,
    pub extends: TypeV,
    pub item: Option<TypeItemV>,
}

impl View for TypeDef {
    type V = TypeDefV;

    open spec fn view(&self) -> TypeDefV {
        TypeDefV {
            name: self.name@,
            description: opt_str_view(self.description),
            deprecated: self.deprecated,
            experimental: self.experimental,
            extends: self.extends@,
            item: opt_item_view(self.item),
        }
    }
}

/// A request datatype with a parallel returns list.
pub struct Command {
    pub name: String,
    pub description: Option<String>,
    pub deprecated: bool,
    pub experimental: bool,
    pub parameters: Vec<Param>,
    pub returns: Vec<Param>,
}

pub struct CommandV {
    pub name: Seq<char>,
    pub description: Option<Seq<char>>,
    pub deprecated: bool,
    pub experimental: bool,
    pub parameters: Seq<ParamV>,
    pub returns: Seq<ParamV>,
}

impl View for Command {
    type V = CommandV;

    open spec fn view(&self) -> CommandV {
        CommandV {
            name: self.name@,
            description: opt_str_view(self.description),
            deprecated: self.deprecated,
            experimental: self.experimental,
            parameters: params_view(self.parameters@),
            returns: params_view(self.returns@),
        }
    }
}

/// A one-way notification datatype.
pub struct Event {
    pub name: String,
    pub description: Option<String>,
    pub deprecated: bool,
    pub experimental: bool,
    pub parameters: Vec<Param>,
}

pub struct EventV {
    pub name: Seq<char>,
    pub description: Option<Seq<char>>,
    pub deprecated: bool,
    pub experimental: bool,
    pub parameters: Seq<ParamV>,
}

impl View for Event {
    type V = EventV;

    open spec fn view(&self) -> EventV {
        EventV {
            name: self.name@,
            description: opt_str_view(self.description),
            deprecated: self.deprecated,
            experimental: self.experimental,
            parameters: params_view(self.parameters@),
        }
    }
}

/// One datatype of a domain; every branch point matches exhaustively on the
/// three kinds.
pub enum DomainDatatype {
    TypeDef(TypeDef),
    Command(Command),
    Event(Event),
}

pub enum DatatypeV {
    TypeDef(TypeDefV),
    Command(CommandV),
    Event(EventV),
}

impl View for DomainDatatype {
    type V = DatatypeV;

    open spec fn view(&self) -> DatatypeV {
        match self {
            DomainDatatype::TypeDef(t) => DatatypeV::TypeDef(t@),
            DomainDatatype::Command(c) => DatatypeV::Command(c@),
            DomainDatatype::Event(e) => DatatypeV::Event(e@),
        }
    }
}

pub open spec fn datatypes_view(ds: Seq<DomainDatatype>) -> Seq<DatatypeV> {
    ds.map_values(|d: DomainDatatype| d@)
}

impl DatatypeV {
    pub open spec fn name(self) -> Seq<char> {
        match self {
            DatatypeV::TypeDef(t) => t.name,
            DatatypeV::Command(c) => c.name,
            DatatypeV::Event(e) => e.name,
        }
    }

    pub open spec fn deprecated(self) -> bool {
        match self {
            DatatypeV::TypeDef(t) => t.deprecated,
            DatatypeV::Command(c) => c.deprecated,
            DatatypeV::Event(e) => e.deprecated,
        }
    }

    pub open spec fn experimental(self) -> bool {
        match self {
            DatatypeV::TypeDef(t) => t.experimental,
            DatatypeV::Command(c) => c.experimental,
            DatatypeV::Event(e) => e.experimental,
        }
    }

    pub open spec fn description(self) -> Option<Seq<char>> {
        match self {
            DatatypeV::TypeDef(t) => t.description,
            DatatypeV::Command(c) => c.description,
            DatatypeV::Event(e) => e.description,
        }
    }
}

impl DatatypeV {
    /// Whether the datatype is a bare enum definition.
    pub open spec fn is_enum_def(self) -> bool {
        self matches DatatypeV::TypeDef(t) && t.item matches Option::Some(TypeItemV::Enum(_))
    }

    /// The variant list of a bare enum definition; empty for anything else.
    pub open spec fn enum_variants(self) -> Seq<VariantV> {
        match self {
            DatatypeV::TypeDef(t) => match t.item {
                Option::Some(TypeItemV::Enum(vs)) => vs,
                _ => Seq::empty(),
            },
            _ => Seq::empty(),
        }
    }

    /// The parameter list the datatype's record is built from.
    pub open spec fn params_of(self) -> Seq<ParamV> {
        match self {
            DatatypeV::TypeDef(t) => match t.item {
                Option::Some(TypeItemV::Properties(ps)) => ps,
                _ => Seq::empty(),
            },
            DatatypeV::Command(c) => c.parameters,
            DatatypeV::Event(e) => e.parameters,
        }
    }
}

impl DomainDatatype {
    pub fn description(&self) -> (r: &Option<String>)
        ensures
            opt_str_view(*r) == self@.description(),
    {
        match self {
            DomainDatatype::TypeDef(t) => &t.description,
            DomainDatatype::Command(c) => &c.description,
            DomainDatatype::Event(e) => &e.description,
        }
    }

    pub fn name(&self) -> (r: &String)
        ensures
            r@ == self@.name(),
    {
        match self {
            DomainDatatype::TypeDef(t) => &t.name,
            DomainDatatype::Command(c) => &c.name,
            DomainDatatype::Event(e) => &e.name,
        }
    }

    pub fn is_deprecated(&self) -> (r: bool)
        ensures
            r == self@.deprecated(),
    {
        match self {
            DomainDatatype::TypeDef(t) => t.deprecated,
            DomainDatatype::Command(c) => c.deprecated,
            DomainDatatype::Event(e) => e.deprecated,
        }
    }

    pub fn is_experimental(&self) -> (r: bool)
        ensures
            r == self@.experimental(),
    {
        match self {
            DomainDatatype::TypeDef(t) => t.experimental,
            DomainDatatype::Command(c) => c.experimental,
            DomainDatatype::Event(e) => e.experimental,
        }
    }

    pub fn is_type(&self) -> (r: bool)
        ensures
            r == (self@ is TypeDef),
    {
        match self {
            DomainDatatype::TypeDef(_) => true,
            _ => false,
        }
    }

    pub fn is_command(&self) -> (r: bool)
        ensures
            r == (self@ is Command),
    {
        match self {
            DomainDatatype::Command(_) => true,
            _ => false,
        }
    }

    pub fn is_event(&self) -> (r: bool)
        ensures
            r == (self@ is Event),
    {
        match self {
            DomainDatatype::Event(_) => true,
            _ => false,
        }
    }

    /// The name of the generated type for this datatype.
    pub fn ident_name(&self) -> (r: String)
        ensures
            r@ == crate::names::camel_of(self@.name()),
    {
        crate::names::to_camel(self.name().as_str())
    }

    /// The datatype's identifier on the wire: its domain-qualified name.
    pub fn raw_name(&self, domain_name: &str) -> (r: String)
        ensures
            r@ == domain_name@ + "."@ + self@.name(),
    {
        let r = String::from_str(domain_name).concat(".").concat(self.name().as_str());
        proof {
            assert(r@ =~= domain_name@ + "."@ + self@.name());
        }
        r
    }

    /// The variant list when the datatype is a bare enum definition.
    pub fn as_enum(&self) -> (r: Option<&Vec<Variant>>)
        ensures
            match r {
                Some(vs) => self@ matches DatatypeV::TypeDef(t) && t.item matches Some(
                    TypeItemV::Enum(w),
                ) && variants_view(vs@) == w,
                None => !(self@ matches DatatypeV::TypeDef(t) && t.item matches Some(
                    TypeItemV::Enum(_),
                )),
            },
    {
        match self {
            DomainDatatype::TypeDef(t) => match &t.item {
                Some(TypeItem::Enum(vs)) => Some(vs),
                _ => None,
            },
            _ => None,
        }
    }
}

/// A named group of datatypes.
pub struct Domain {
    pub name: String,
    pub description: Option<String>,
    pub deprecated: bool,
    pub experimental: bool,
    pub datatypes: Vec<DomainDatatype>,
}

pub struct DomainV {
    pub name: Seq<char>,
    pub description: Option<Seq<char>>,
    pub deprecated: bool,
    pub experimental: bool,
    pub datatypes: Seq<DatatypeV>,
}

impl View for Domain {
    type V = DomainV;

    open spec fn view(&self) -> DomainV {
        DomainV {
            name: self.name@,
            description: opt_str_view(self.description),
            deprecated: self.deprecated,
            experimental: self.experimental,
            datatypes: datatypes_view(self.datatypes@),
        }
    }
}

pub open spec fn domains_view(ds: Seq<Domain>) -> Seq<DomainV> {
    ds.map_values(|d: Domain| d@)
}

/// A protocol document's version, surfaced as a constant in its module.
pub struct Version {
    pub major: String,
    pub minor: String,
}

pub struct VersionV {
    pub major: Seq<char>,
    pub minor: Seq<char>,
}

impl View for Version {
    type V = VersionV;

    open spec fn view(&self) -> VersionV {
        VersionV { major: self.major@, minor: self.minor@ }
    }
}

/// One parsed input document: a version and an ordered list of domains.
pub struct Protocol {
    pub version: Version,
    pub domains: Vec<Domain>,
}

pub struct ProtocolV {
    pub version: VersionV,
    pub domains: Seq<DomainV>,
}

impl View for Protocol {
    type V = ProtocolV;

    open spec fn view(&self) -> ProtocolV {
        ProtocolV { version: self.version@, domains: domains_view(self.domains@) }
    }
}

pub open spec fn protocols_view(ps: Seq<Protocol>) -> Seq<ProtocolV> {
    ps.map_values(|p: Protocol| p@)
}

pub open spec fn strings_view(ss: Seq<String>) -> Seq<Seq<char>> {
    ss.map_values(|s: String| s@)
}

} // verus!
