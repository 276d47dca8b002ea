//! Parameter schemas: how a tool declares its parameters, and the property
//! form in which the model is shown them.

use vstd::prelude::*;
use vstd::std_specs::convert::FromSpecImpl;

verus! {

/// The character sequences held by a sequence of strings.
pub open spec fn texts(strings: Seq<String>) -> Seq<Seq<char>> {
    strings.map_values(|s: String| s@)
}

/// The character sequences held by an optional list of strings.
pub open spec fn optional_texts(strings: Option<Vec<String>>) -> Option<Seq<Seq<char>>> {
    match strings {
        Some(values) => Some(texts(values@)),
        None => None,
    }
}

/// One declared parameter of a tool: its name, the tag of its primitive
/// type, a description for the model and, where the parameter is
/// enumerated, the values it may take.
#[derive(Debug, PartialEq, Eq)]
pub struct ParameterSetting {
    pub name: String,
    pub type_tag: String,
    pub description: String,
    pub enum_values: Option<Vec<String>>,
}

/// The mathematical content of a [`ParameterSetting`].
pub ghost struct ParameterSettingView {
    pub name: Seq<char>,
    pub type_tag: Seq<char>,
    pub description: Seq<char>,
    pub enum_values: Option<Seq<Seq<char>>>,
}

impl View for ParameterSetting {
    type V = ParameterSettingView;

    open spec fn view(&self) -> ParameterSettingView {
        ParameterSettingView {
            name: self.name@,
            type_tag: self.type_tag@,
            description: self.description@,
            enum_values: optional_texts(self.enum_values),
        }
    }
}

/// The views of a sequence of settings, in order.
pub open spec fn setting_views(settings: Seq<ParameterSetting>) -> Seq<ParameterSettingView> {
    settings.map_values(|p: ParameterSetting| p@)
}

/// An owned copy of each string of `values`, in order.
pub fn owned_texts(values: &Vec<&str>) -> (owned: Vec<String>)
    ensures
        texts(owned@) == values@.map_values(|s: &str| s@),
{
    let mut owned: Vec<String> = Vec::new();
    let mut i: usize = 0;
    while i < values.len()
        invariant
            i <= values.len(),
            owned.len() == i,
            forall|k: int| 0 <= k < i ==> owned@[k]@ == values@[k]@,
        decreases values.len() - i,
    {
        owned.push(values[i].to_owned());
        i += 1;
    }
    assert(texts(owned@) =~= values@.map_values(|s: &str| s@));
    owned
}

/// A copy of each string of `values`, in order.
pub fn copied_texts(values: &Vec<String>) -> (copy: Vec<String>)
    ensures
        texts(copy@) == texts(values@),
{
    let mut copy: Vec<String> = Vec::new();
    let mut i: usize = 0;
    while i < values.len()
        invariant
            i <= values.len(),
            copy.len() == i,
            forall|k: int| 0 <= k < i ==> copy@[k]@ == values@[k]@,
        decreases values.len() - i,
    {
        copy.push(values[i].clone());
        i += 1;
    }
    assert(texts(copy@) =~= texts(values@));
    copy
}

/// A copy of an optional list of strings.
pub fn copied_optional_texts(values: &Option<Vec<String>>) -> (copy: Option<Vec<String>>)
    ensures
        optional_texts(copy) == optional_texts(*values),
{
    match values {
        Some(list) => Some(copied_texts(list)),
        None => None,
    }
}

impl ParameterSetting {
    /// A setting with the given name, type tag and description; with
    /// `enum_values` the parameter is enumerated over exactly those values.
    pub fn new(
        name: &str,
        type_tag: &str,
        description: &str,
        enum_values: Option<Vec<&str>>,
    ) -> (setting: Self)
        ensures
            setting@ == (ParameterSettingView {
                name: name@,
                type_tag: type_tag@,
                description: description@,
                enum_values: match enum_values {
                    Some(values) => Some(values@.map_values(|s: &str| s@)),
                    None => None,
                },
            }),
    {
        let owned = match &enum_values {
            Some(values) => Some(owned_texts(values)),
            None => None,
        };
        ParameterSetting {
            name: name.to_owned(),
            type_tag: type_tag.to_owned(),
            description: description.to_owned(),
            enum_values: owned,
        }
    }
}

impl Default for ParameterSetting {
    /// The setting with an empty name, type tag and description and no
    /// enumeration.
    fn default() -> (setting: Self)
        ensures
            setting@ == (ParameterSettingView {
                name: Seq::empty(),
                type_tag: Seq::empty(),
                description: Seq::empty(),
                enum_values: None,
            }),
    {
        ParameterSetting {
            name: String::new(),
            type_tag: String::new(),
            description: String::new(),
            enum_values: None,
        }
    }
}

impl Clone for ParameterSetting {
    fn clone(&self) -> (copy: Self)
        ensures
            copy@ == self@,
    {
        ParameterSetting {
            name: self.name.clone(),
            type_tag: self.type_tag.clone(),
            description: self.description.clone(),
            enum_values: copied_optional_texts(&self.enum_values),
        }
    }
}

/// A parameter as the model's function-call schema states it: the type tag,
/// an optional description and an optional enumeration. The parameter's name
/// is the key under which the property is listed.
#[derive(Debug, PartialEq, Eq)]
pub struct ParameterProperty {
    pub type_tag: String,
    pub description: Option<String>,
    pub enum_values: Option<Vec<String>>,
}

/// The mathematical content of a [`ParameterProperty`].
pub ghost struct ParameterPropertyView {
    pub type_tag: Seq<char>,
    pub description: Option<Seq<char>>,
    pub enum_values: Option<Seq<Seq<char>>>,
}

impl View for ParameterProperty {
    type V = ParameterPropertyView;

    open spec fn view(&self) -> ParameterPropertyView {
        ParameterPropertyView {
            type_tag: self.type_tag@,
            description: match self.description {
                Some(text) => Some(text@),
                None => None,
            },
            enum_values: optional_texts(self.enum_values),
        }
    }
}

impl Clone for ParameterProperty {
    fn clone(&self) -> (copy: Self)
        ensures
            copy@ == self@,
    {
        ParameterProperty {
            type_tag: self.type_tag.clone(),
            description: match &self.description {
                Some(text) => Some(text.clone()),
                None => None,
            },
            enum_values: copied_optional_texts(&self.enum_values),
        }
    }
}

/// The property that states `setting` to the model.
pub open spec fn property_of(setting: ParameterSettingView) -> ParameterPropertyView {
    ParameterPropertyView {
        type_tag: setting.type_tag,
        description: Some(setting.description),
        enum_values: setting.enum_values,
    }
}

/// The setting that a property listed under `name` declares. A property
/// without a description declares the empty description.
pub open spec fn setting_of(
    name: Seq<char>,
    property: ParameterPropertyView,
) -> ParameterSettingView {
    ParameterSettingView {
        name,
        type_tag: property.type_tag,
        description: match property.description {
            Some(text) => text,
            None => Seq::empty(),
        },
        enum_values: property.enum_values,
    }
}

impl From<ParameterSetting> for ParameterProperty {
    fn from(param: ParameterSetting) -> (property: Self)
        ensures
            property@ == property_of(param@),
    {
        ParameterProperty {
            type_tag: param.type_tag,
            description: Some(param.description),
            enum_values: param.enum_values,
        }
    }
}

impl FromSpecImpl<ParameterSetting> for ParameterProperty {
    open spec fn obeys_from_spec() -> bool {
        true
    }

    open spec fn from_spec(param: ParameterSetting) -> Self {
        ParameterProperty {
            type_tag: param.type_tag,
            description: Some(param.description),
            enum_values: param.enum_values,
        }
    }
}

/// A property together with the name under which it is listed.
pub type NamedPropertyView = (Seq<char>, ParameterPropertyView);

/// The views of a list of named properties, in order.
pub open spec fn property_views(properties: Seq<(String, ParameterProperty)>) -> Seq<
    NamedPropertyView,
> {
    properties.map_values(|p: (String, ParameterProperty)| (p.0@, p.1@))
}

/// The named properties that state `settings` to the model, in order.
pub open spec fn properties_of(settings: Seq<ParameterSettingView>) -> Seq<NamedPropertyView> {
    settings.map_values(|s: ParameterSettingView| (s.name, property_of(s)))
}

/// The settings that a list of named properties declares, in order.
pub open spec fn settings_of(properties: Seq<NamedPropertyView>) -> Seq<ParameterSettingView> {
    properties.map_values(|p: NamedPropertyView| setting_of(p.0, p.1))
}

/// The parameter list of a function as the model is shown it: named
/// properties in presentation order.
#[derive(Debug, PartialEq, Eq)]
pub struct Parameters {
    pub properties: Vec<(String, ParameterProperty)>,
}

impl View for Parameters {
    type V = Seq<NamedPropertyView>;

    open spec fn view(&self) -> Seq<NamedPropertyView> {
        property_views(self.properties@)
    }
}

/// A value that declares tool parameters.
pub trait IntoParameters {
    /// The settings that this value declares, in order.
    spec fn declared(&self) -> Seq<ParameterSettingView>;

    /// The declared settings as owned values.
    fn into_parameters(&self) -> (settings: Vec<ParameterSetting>)
        ensures
            setting_views(settings@) == self.declared(),
    ;
}

impl IntoParameters for Parameters {
    open spec fn declared(&self) -> Seq<ParameterSettingView> {
        settings_of(self@)
    }

    fn into_parameters(&self) -> (settings: Vec<ParameterSetting>) {
        let mut settings: Vec<ParameterSetting> = Vec::new();
        let mut i: usize = 0;
        while i < self.properties.len()
            invariant
                i <= self.properties.len(),
                settings.len() == i,
                forall|k: int|
                    0 <= k < i ==> settings@[k]@ == setting_of(
                        self.properties@[k].0@,
                        self.properties@[k].1@,
                    ),
            decreases self.properties.len() - i,
        {
            let entry = &self.properties[i];
            let description = match &entry.1.description {
                Some(text) => text.clone(),
                None => String::new(),
            };
            settings.push(
                ParameterSetting {
                    name: entry.0.clone(),
                    type_tag: entry.1.type_tag.clone(),
                    description,
                    enum_values: copied_optional_texts(&entry.1.enum_values),
                },
            );
            i += 1;
        }
        assert(setting_views(settings@) =~= settings_of(self@));
        settings
    }
}

impl Parameters {
    /// The parameter list that states `settings` to the model: one property
    /// per setting, under the setting's name, in the same order.
    pub fn from_settings(settings: &Vec<ParameterSetting>) -> (parameters: Self)
        ensures
            parameters@ == properties_of(setting_views(settings@)),
    {
        let mut properties: Vec<(String, ParameterProperty)> = Vec::new();
        let mut i: usize = 0;
        while i < settings.len()
            invariant
                i <= settings.len(),
                properties.len() == i,
                forall|k: int|
                    0 <= k < i ==> properties@[k].0@ == settings@[k].name@ && properties@[k].1@
                        == property_of(settings@[k]@),
            decreases settings.len() - i,
        {
            let name = settings[i].name.clone();
            let property = ParameterProperty::from(settings[i].clone());
            properties.push((name, property));
            i += 1;
        }
        let parameters = Parameters { properties };
        assert(parameters@ =~= properties_of(setting_views(settings@)));
        parameters
    }
}

/// The declaration of one callable function as the model is shown it.
#[derive(Debug, PartialEq, Eq)]
pub struct FunctionSchema {
    pub name: String,
    pub description: String,
    pub parameters: Parameters,
    pub strict: bool,
}

/// The mathematical content of a [`FunctionSchema`].
pub ghost struct FunctionSchemaView {
    pub name: Seq<char>,
    pub description: Seq<char>,
    pub parameters: Seq<NamedPropertyView>,
    pub strict: bool,
}

impl View for FunctionSchema {
    type V = FunctionSchemaView;

    open spec fn view(&self) -> FunctionSchemaView {
        FunctionSchemaView {
            name: self.name@,
            description: self.description@,
            parameters: self.parameters@,
            strict: self.strict,
        }
    }
}

/// Stating settings to the model and reading them back loses nothing: the
/// settings declared by the properties of any list of settings are that
/// list, whatever type tags, descriptions and enumerations it holds.
pub proof fn lemma_schema_round_trip(settings: Seq<ParameterSettingView>)
    ensures
        settings_of(properties_of(settings)) == settings,
{
    assert(settings_of(properties_of(settings)) =~= settings);
}

} // verus!
