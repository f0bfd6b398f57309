//! Serialization policy: whether generated types carry serialization
//! derivation markers and the wire discriminator tag, and whether those are
//! gated behind a named feature of the consuming build.

use vstd::prelude::*;

use crate::ir::Variant;
use crate::names::{camel_of, to_camel};
use crate::output::doc_spec;

verus! {

/// The serialization support included for all generated types.
pub enum SerdeSupport {
    /// No serialization support is emitted.
    Disabled,
    /// Serialization markers are emitted unconditionally.
    AlwaysOn,
    /// Serialization markers are gated behind the named feature.
    Feature(String),
}

pub enum SerdeSupportV {
    Disabled,
    AlwaysOn,
    Feature(Seq<char>),
}

impl View for SerdeSupport {
    type V = SerdeSupportV;

    open spec fn view(&self) -> SerdeSupportV {
        match self {
            SerdeSupport::Disabled => SerdeSupportV::Disabled,
            SerdeSupport::AlwaysOn => SerdeSupportV::AlwaysOn,
            SerdeSupport::Feature(f) => SerdeSupportV::Feature(f@),
        }
    }
}

impl Default for SerdeSupport {
    fn default() -> (r: Self)
        ensures
            r@ is AlwaysOn,
    {
        SerdeSupport::AlwaysOn
    }
}

/// The discriminator-tag attribute on the wire form of the event union.
pub open spec fn tag_spec(s: SerdeSupportV, name: Seq<char>) -> Seq<char> {
    match s {
        SerdeSupportV::Disabled => Seq::empty(),
        SerdeSupportV::AlwaysOn => "#[serde(tag = \""@ + name + "\")]\n"@,
        SerdeSupportV::Feature(f) => "#[cfg_attr(feature = \""@ + f + "\", serde(tag = \""@ + name
            + "\"))]\n"@,
    }
}

/// The serialization import line of a generated module.
pub open spec fn imports_spec(s: SerdeSupportV) -> Seq<char> {
    match s {
        SerdeSupportV::Disabled => Seq::empty(),
        SerdeSupportV::AlwaysOn => "use serde::{Serialize, Deserialize};\n"@,
        SerdeSupportV::Feature(f) => "#[cfg(feature = \""@ + f
            + "\")]\nuse serde::{Serialize, Deserialize};\n"@,
    }
}

/// The derivation markers on a generated record.
pub open spec fn derives_spec(s: SerdeSupportV) -> Seq<char> {
    match s {
        SerdeSupportV::Disabled => Seq::empty(),
        SerdeSupportV::AlwaysOn => "#[derive(Serialize, Deserialize)]\n#[serde(rename_all = \"camelCase\")]\n"@,
        SerdeSupportV::Feature(f) => "#[cfg_attr(feature = \""@ + f
            + "\", derive(Serialize, Deserialize))]\n#[cfg_attr(feature = \""@ + f
            + "\", serde(rename_all = \"camelCase\"))]\n"@,
    }
}

/// The derivation markers on a generated enum.
pub open spec fn enum_derives_spec(s: SerdeSupportV) -> Seq<char> {
    match s {
        SerdeSupportV::Disabled => Seq::empty(),
        SerdeSupportV::AlwaysOn => "#[derive(Serialize, Deserialize)]\n#[serde(rename_all = \"lowercase\")]\n"@,
        SerdeSupportV::Feature(f) => "#[cfg_attr(feature = \""@ + f
            + "\", derive(Serialize, Deserialize))]\n#[cfg_attr(feature = \""@ + f
            + "\", serde(rename_all = \"lowercase\"))]\n"@,
    }
}

/// The derivation markers on the global event union: the plain derives are
/// always present, the serialization half only as the mode directs.
pub open spec fn event_derives_spec(s: SerdeSupportV) -> Seq<char> {
    match s {
        SerdeSupportV::Disabled => "#[derive(Debug, Clone, PartialEq)]\n"@,
        SerdeSupportV::AlwaysOn => "#[derive(Serialize, Deserialize, Debug, Clone, PartialEq)]\n"@,
        SerdeSupportV::Feature(f) => "#[cfg_attr(feature = \""@ + f
            + "\", derive(Serialize, Deserialize))]\n#[derive(Debug, Clone, PartialEq)]\n"@,
    }
}

/// The wire-name attribute on one event-union case.
pub open spec fn rename_spec(s: SerdeSupportV, name: Seq<char>) -> Seq<char> {
    match s {
        SerdeSupportV::Disabled => Seq::empty(),
        SerdeSupportV::AlwaysOn => "#[serde(rename = \""@ + name + "\")]\n"@,
        SerdeSupportV::Feature(f) => "#[cfg_attr(feature = \""@ + f
            + "\", serde(rename = \""@ + name + "\"))]\n"@,
    }
}

/// The skip-when-absent attribute on an optional field.
pub open spec fn opt_attr_spec(s: SerdeSupportV) -> Seq<char> {
    match s {
        SerdeSupportV::Disabled => Seq::empty(),
        SerdeSupportV::AlwaysOn => "#[serde(skip_serializing_if = \"Option::is_none\")]\n"@,
        SerdeSupportV::Feature(f) => "#[cfg_attr(feature = \""@ + f
            + "\", serde(skip_serializing_if = \"Option::is_none\"))]\n"@,
    }
}

/// The skip-when-empty attribute on a sequence field.
pub open spec fn vec_attr_spec(s: SerdeSupportV) -> Seq<char> {
    match s {
        SerdeSupportV::Disabled => Seq::empty(),
        SerdeSupportV::AlwaysOn => "#[serde(skip_serializing_if = \"Vec::is_empty\")]\n"@,
        SerdeSupportV::Feature(f) => "#[cfg_attr(feature = \""@ + f
            + "\", serde(skip_serializing_if = \"Vec::is_empty\"))]\n"@,
    }
}

/// One enum case: its documentation and its camel-cased name.
pub open spec fn variant_spec(v: crate::ir::VariantV) -> Seq<char> {
    doc_spec(v.description) + camel_of(v.name)
}

/// The conversion of the event union into the generic event envelope.
pub open spec fn event_impl_spec() -> Seq<char> {
    "impl std::convert::TryInto<chromeoxid_types::CdpEvent> for Event {\ntype Error = serde_json::Error;\nfn try_into(self) -> Result<chromeoxid_types::CdpEvent, Self::Error> {\nuse chromeoxid_types::Method;\nOk(chromeoxid_types::CdpEvent {\nmethod: self.identifier(),\nparams: self.to_params()?\n})\n}\n}\n"@
}

/// The case-to-payload match arms of the first `i` union cases.
pub open spec fn to_params_arms_spec(ids: Seq<Seq<char>>, i: int) -> Seq<char>
    decreases i,
{
    if i <= 0 {
        Seq::empty()
    } else {
        to_params_arms_spec(ids, i - 1) + "Event::"@ + ids[i - 1]
            + "(inner) => serde_json::to_value(inner),\n"@
    }
}

/// The function mapping a union case to its serialized parameter payload.
pub open spec fn event_try_into_spec(ids: Seq<Seq<char>>) -> Seq<char> {
    "impl Event {\npub fn to_params(&self) -> serde_json::Result<serde_json::Value> {\nmatch self {\n"@
        + to_params_arms_spec(ids, ids.len() as int) + "}\n}\n}\n"@
}

/// The serialization helpers of the event union, possibly feature-gated.
pub open spec fn event_json_spec(s: SerdeSupportV, ids: Seq<Seq<char>>) -> Seq<char> {
    match s {
        SerdeSupportV::Disabled => Seq::empty(),
        SerdeSupportV::AlwaysOn => event_impl_spec() + event_try_into_spec(ids),
        SerdeSupportV::Feature(f) => "#[cfg(feature = \""@ + f + "\")]\n"@ + event_impl_spec()
            + "#[cfg(feature = \""@ + f + "\")]\n"@ + event_try_into_spec(ids),
    }
}

impl SerdeSupport {
    /// Serialization support gated behind the named feature.
    pub fn with_feature(feature: String) -> (r: Self)
        ensures
            r@ == SerdeSupportV::Feature(feature@),
    {
        SerdeSupport::Feature(feature)
    }

    pub fn tag(&self, name: &str) -> (r: String)
        ensures
            r@ == tag_spec(self@, name@),
    {
        match self {
            SerdeSupport::Disabled => String::new(),
            SerdeSupport::AlwaysOn => {
                let mut out = String::from_str("#[serde(tag = \"");
                out.append(name);
                out.append("\")]\n");
                proof {
                    assert(out@ =~= tag_spec(self@, name@));
                }
                out
            },
            SerdeSupport::Feature(f) => {
                let mut out = String::from_str("#[cfg_attr(feature = \"");
                out.append(f.as_str());
                out.append("\", serde(tag = \"");
                out.append(name);
                out.append("\"))]\n");
                proof {
                    assert(out@ =~= tag_spec(self@, name@));
                }
                out
            },
        }
    }

    pub fn generate_serde_imports(&self) -> (r: String)
        ensures
            r@ == imports_spec(self@),
    {
        match self {
            SerdeSupport::Disabled => String::new(),
            SerdeSupport::AlwaysOn => String::from_str("use serde::{Serialize, Deserialize};\n"),
            SerdeSupport::Feature(f) => {
                let mut out = String::from_str("#[cfg(feature = \"");
                out.append(f.as_str());
                out.append("\")]\nuse serde::{Serialize, Deserialize};\n");
                proof {
                    assert(out@ =~= imports_spec(self@));
                }
                out
            },
        }
    }

    pub fn generate_derives(&self) -> (r: String)
        ensures
            r@ == derives_spec(self@),
    {
        match self {
            SerdeSupport::Disabled => String::new(),
            SerdeSupport::AlwaysOn => String::from_str(
                "#[derive(Serialize, Deserialize)]\n#[serde(rename_all = \"camelCase\")]\n",
            ),
            SerdeSupport::Feature(f) => {
                let mut out = String::from_str("#[cfg_attr(feature = \"");
                out.append(f.as_str());
                out.append("\", derive(Serialize, Deserialize))]\n#[cfg_attr(feature = \"");
                out.append(f.as_str());
                out.append("\", serde(rename_all = \"camelCase\"))]\n");
                proof {
                    assert(out@ =~= derives_spec(self@));
                }
                out
            },
        }
    }

    pub fn generate_enum_derives(&self) -> (r: String)
        ensures
            r@ == enum_derives_spec(self@),
    {
        match self {
            SerdeSupport::Disabled => String::new(),
            SerdeSupport::AlwaysOn => String::from_str(
                "#[derive(Serialize, Deserialize)]\n#[serde(rename_all = \"lowercase\")]\n",
            ),
            SerdeSupport::Feature(f) => {
                let mut out = String::from_str("#[cfg_attr(feature = \"");
                out.append(f.as_str());
                out.append("\", derive(Serialize, Deserialize))]\n#[cfg_attr(feature = \"");
                out.append(f.as_str());
                out.append("\", serde(rename_all = \"lowercase\"))]\n");
                proof {
                    assert(out@ =~= enum_derives_spec(self@));
                }
                out
            },
        }
    }

    pub fn generate_event_derives(&self) -> (r: String)
        ensures
            r@ == event_derives_spec(self@),
    {
        match self {
            SerdeSupport::Disabled => String::from_str("#[derive(Debug, Clone, PartialEq)]\n"),
            SerdeSupport::AlwaysOn => String::from_str(
                "#[derive(Serialize, Deserialize, Debug, Clone, PartialEq)]\n",
            ),
            SerdeSupport::Feature(f) => {
                let mut out = String::from_str("#[cfg_attr(feature = \"");
                out.append(f.as_str());
                out.append("\", derive(Serialize, Deserialize))]\n#[derive(Debug, Clone, PartialEq)]\n");
                proof {
                    assert(out@ =~= event_derives_spec(self@));
                }
                out
            },
        }
    }

    pub fn generate_enum_rename(&self, name: &str) -> (r: String)
        ensures
            r@ == rename_spec(self@, name@),
    {
        match self {
            SerdeSupport::Disabled => String::new(),
            SerdeSupport::AlwaysOn => {
                let mut out = String::from_str("#[serde(rename = \"");
                out.append(name);
                out.append("\")]\n");
                proof {
                    assert(out@ =~= rename_spec(self@, name@));
                }
                out
            },
            SerdeSupport::Feature(f) => {
                let mut out = String::from_str("#[cfg_attr(feature = \"");
                out.append(f.as_str());
                out.append("\", serde(rename = \"");
                out.append(name);
                out.append("\"))]\n");
                proof {
                    assert(out@ =~= rename_spec(self@, name@));
                }
                out
            },
        }
    }

    pub fn generate_opt_field_attr(&self) -> (r: String)
        ensures
            r@ == opt_attr_spec(self@),
    {
        match self {
            SerdeSupport::Disabled => String::new(),
            SerdeSupport::AlwaysOn => String::from_str(
                "#[serde(skip_serializing_if = \"Option::is_none\")]\n",
            ),
            SerdeSupport::Feature(f) => {
                let mut out = String::from_str("#[cfg_attr(feature = \"");
                out.append(f.as_str());
                out.append("\", serde(skip_serializing_if = \"Option::is_none\"))]\n");
                proof {
                    assert(out@ =~= opt_attr_spec(self@));
                }
                out
            },
        }
    }

    pub fn generate_vec_field_attr(&self) -> (r: String)
        ensures
            r@ == vec_attr_spec(self@),
    {
        match self {
            SerdeSupport::Disabled => String::new(),
            SerdeSupport::AlwaysOn => String::from_str(
                "#[serde(skip_serializing_if = \"Vec::is_empty\")]\n",
            ),
            SerdeSupport::Feature(f) => {
                let mut out = String::from_str("#[cfg_attr(feature = \"");
                out.append(f.as_str());
                out.append("\", serde(skip_serializing_if = \"Vec::is_empty\"))]\n");
                proof {
                    assert(out@ =~= vec_attr_spec(self@));
                }
                out
            },
        }
    }

    /// The conversion of the event union into the generic event envelope.
    pub fn event_impl() -> (r: String)
        ensures
            r@ == event_impl_spec(),
    {
        String::from_str(
            "impl std::convert::TryInto<chromeoxid_types::CdpEvent> for Event {\ntype Error = serde_json::Error;\nfn try_into(self) -> Result<chromeoxid_types::CdpEvent, Self::Error> {\nuse chromeoxid_types::Method;\nOk(chromeoxid_types::CdpEvent {\nmethod: self.identifier(),\nparams: self.to_params()?\n})\n}\n}\n",
        )
    }

    /// The function mapping a union case to its serialized payload.
    pub fn event_try_into(var_idents: &Vec<String>) -> (r: String)
        ensures
            r@ == event_try_into_spec(crate::ir::strings_view(var_idents@)),
    {
        let ghost ids = crate::ir::strings_view(var_idents@);
        let mut arms = String::new();
        let mut i: usize = 0;
        while i < var_idents.len()
            invariant
                i <= var_idents@.len(),
                ids == crate::ir::strings_view(var_idents@),
                ids.len() == var_idents@.len(),
                forall|j: int| 0 <= j < var_idents@.len() ==> ids[j] == var_idents@[j]@,
                arms@ == to_params_arms_spec(ids, i as int),
            decreases var_idents@.len() - i,
        {
            arms.append("Event::");
            arms.append(var_idents[i].as_str());
            arms.append("(inner) => serde_json::to_value(inner),\n");
            proof {
                assert(arms@ =~= to_params_arms_spec(ids, i + 1));
            }
            i += 1;
        }
        let mut out = String::from_str(
            "impl Event {\npub fn to_params(&self) -> serde_json::Result<serde_json::Value> {\nmatch self {\n",
        );
        out.append(arms.as_str());
        out.append("}\n}\n}\n");
        proof {
            assert(out@ =~= event_try_into_spec(ids));
        }
        out
    }

    /// The serialization helpers of the event union, under the configured
    /// policy.
    pub fn generate_event_json_support(&self, var_idents: &Vec<String>) -> (r: String)
        ensures
            r@ == event_json_spec(self@, crate::ir::strings_view(var_idents@)),
    {
        match self {
            SerdeSupport::Disabled => String::new(),
            SerdeSupport::AlwaysOn => {
                let mut out = Self::event_impl();
                out.append(Self::event_try_into(var_idents).as_str());
                out
            },
            SerdeSupport::Feature(f) => {
                let mut out = String::from_str("#[cfg(feature = \"");
                out.append(f.as_str());
                out.append("\")]\n");
                out.append(Self::event_impl().as_str());
                out.append("#[cfg(feature = \"");
                out.append(f.as_str());
                out.append("\")]\n");
                out.append(Self::event_try_into(var_idents).as_str());
                proof {
                    assert(out@ =~= event_json_spec(self@, crate::ir::strings_view(var_idents@)));
                }
                out
            },
        }
    }

    /// One enum case of a generated enum definition.
    pub fn generate_variant(&self, var: &Variant) -> (r: String)
        ensures
            r@ == variant_spec(var@),
    {
        let mut out = crate::output::generate_doc(&var.description);
        out.append(to_camel(var.name.as_str()).as_str());
        proof {
            assert(out@ =~= variant_spec(var@));
        }
        out
    }
}

} // verus!
