//! Tool descriptors: what a tool is called, what it takes, and the one
//! transport over which it is reached.

use crate::arguments::argument_entries;
use crate::schema::{
    lemma_schema_round_trip, properties_of, setting_views, settings_of, FunctionSchema,
    FunctionSchemaView, ParameterSetting, ParameterSettingView, Parameters,
};
use serde_json::Value;
use std::path::PathBuf;
use url::Url;
use vstd::prelude::*;
use vstd::std_specs::convert::FromSpecImpl;

verus! {

/// `std::path::PathBuf`, the path of a local executable.
#[verifier::external_type_specification]
#[verifier::external_body]
pub struct ExPathBuf(PathBuf);

/// `url::Url`, the address of a network endpoint.
#[verifier::external_type_specification]
#[verifier::external_body]
pub struct ExUrl(Url);

/// `PathBuf::clone` returns a path equal to the one it is called on.
pub assume_specification[ <PathBuf as Clone>::clone ](path: &PathBuf) -> (copy: PathBuf)
    ensures
        copy == *path,
;

/// `Url::clone` returns an address equal to the one it is called on.
pub assume_specification[ <Url as Clone>::clone ](address: &Url) -> (copy: Url)
    ensures
        copy == *address,
;

/// `Path::exists`, reached through the path buffer: whether the path names
/// something on disk at the time of the call. Nothing is known of the
/// answer beforehand.
#[verifier::external_body]
fn path_exists(path: &PathBuf) -> (found: bool) {
    path.exists()
}

/// The transport that reaches a tool: a child process started from a local
/// executable, or a long-lived stream to a network endpoint.
#[derive(Debug, PartialEq, Eq)]
pub enum Transport {
    Subprocess(PathBuf),
    Stream(Url),
}

impl Clone for Transport {
    fn clone(&self) -> (copy: Self)
        ensures
            copy == *self,
    {
        match self {
            Transport::Subprocess(path) => Transport::Subprocess(path.clone()),
            Transport::Stream(address) => Transport::Stream(address.clone()),
        }
    }
}

/// A subprocess binding was asked for a path that names nothing on disk.
#[derive(Debug, PartialEq, Eq)]
pub struct MissingExecutable {
    pub path: PathBuf,
}

/// A tool: its name, the description shown to the model, its parameters in
/// presentation order, the transport it is bound to, and, for the length of
/// one invocation, the arguments of that invocation.
#[derive(Debug, PartialEq, Eq)]
pub struct Tool {
    name: String,
    description: String,
    parameters: Vec<ParameterSetting>,
    transport: Transport,
    arguments: Option<serde_json::Map<String, Value>>,
}

/// The mathematical content of a [`Tool`].
pub ghost struct ToolView {
    pub name: Seq<char>,
    pub description: Seq<char>,
    pub parameters: Seq<ParameterSettingView>,
    pub transport: Transport,
    pub arguments: Option<Map<Seq<char>, Seq<char>>>,
}

impl View for Tool {
    type V = ToolView;

    closed spec fn view(&self) -> ToolView {
        ToolView {
            name: self.name@,
            description: self.description@,
            parameters: setting_views(self.parameters@),
            transport: self.transport,
            arguments: match self.arguments {
                Some(object) => Some(argument_entries(object)),
                None => None,
            },
        }
    }
}

/// The views of a sequence of tools, in order.
pub open spec fn tool_views(tools: Seq<Tool>) -> Seq<ToolView> {
    tools.map_values(|t: Tool| t@)
}

/// The function declaration that states a tool to the model: its name and
/// description, one property per parameter, and no strict mode.
pub open spec fn schema_of(tool: ToolView) -> FunctionSchemaView {
    FunctionSchemaView {
        name: tool.name,
        description: tool.description,
        parameters: properties_of(tool.parameters),
        strict: false,
    }
}

/// A copy of each setting of `settings`, in order.
pub fn copied_settings(settings: &Vec<ParameterSetting>) -> (copy: Vec<ParameterSetting>)
    ensures
        setting_views(copy@) == setting_views(settings@),
{
    let mut copy: Vec<ParameterSetting> = Vec::new();
    let mut i: usize = 0;
    while i < settings.len()
        invariant
            i <= settings.len(),
            copy.len() == i,
            forall|k: int| 0 <= k < i ==> copy@[k]@ == settings@[k]@,
        decreases settings.len() - i,
    {
        copy.push(settings[i].clone());
        i += 1;
    }
    assert(setting_views(copy@) =~= setting_views(settings@));
    copy
}

impl Tool {
    /// A tool bound to the executable at `io_path`, given whether that path
    /// names something on disk: the binding is refused where it does not.
    pub fn bind_subprocess(
        name: String,
        description: String,
        parameters: Vec<ParameterSetting>,
        io_path: PathBuf,
        exists: bool,
    ) -> (bound: Result<Tool, MissingExecutable>)
        ensures
            exists ==> bound is Ok && bound->Ok_0@ == (ToolView {
                name: name@,
                description: description@,
                parameters: setting_views(parameters@),
                transport: Transport::Subprocess(io_path),
                arguments: None,
            }),
            !exists ==> bound is Err && bound->Err_0.path == io_path,
    {
        if exists {
            Ok(
                Tool {
                    name,
                    description,
                    parameters,
                    transport: Transport::Subprocess(io_path),
                    arguments: None,
                },
            )
        } else {
            Err(MissingExecutable { path: io_path })
        }
    }

    /// A tool reached by starting the executable at `io_path` and talking to
    /// it over its standard input and output. The path is looked up on disk
    /// now; a path that names nothing is refused here, not at the first
    /// invocation.
    pub fn with_io_transport(
        name: String,
        description: String,
        parameters: Vec<ParameterSetting>,
        io_path: PathBuf,
    ) -> (bound: Result<Tool, MissingExecutable>)
        ensures
            match bound {
                Ok(tool) => tool@ == (ToolView {
                    name: name@,
                    description: description@,
                    parameters: setting_views(parameters@),
                    transport: Transport::Subprocess(io_path),
                    arguments: None,
                }),
                Err(refusal) => refusal.path == io_path,
            },
    {
        let exists = path_exists(&io_path);
        Tool::bind_subprocess(name, description, parameters, io_path, exists)
    }

    /// A tool reached over a long-lived stream to the endpoint at `sse_url`.
    pub fn with_sse_transport(
        name: String,
        description: String,
        parameters: Vec<ParameterSetting>,
        sse_url: Url,
    ) -> (tool: Tool)
        ensures
            tool@ == (ToolView {
                name: name@,
                description: description@,
                parameters: setting_views(parameters@),
                transport: Transport::Stream(sse_url),
                arguments: None,
            }),
    {
        Tool {
            name,
            description,
            parameters,
            transport: Transport::Stream(sse_url),
            arguments: None,
        }
    }

    /// The name under which the model calls this tool.
    pub fn name(&self) -> (name: &String)
        ensures
            name@ == self@.name,
    {
        &self.name
    }

    /// The description shown to the model.
    pub fn description(&self) -> (description: &String)
        ensures
            description@ == self@.description,
    {
        &self.description
    }

    /// The declared parameters, in presentation order.
    pub fn parameters(&self) -> (parameters: &Vec<ParameterSetting>)
        ensures
            setting_views(parameters@) == self@.parameters,
    {
        &self.parameters
    }

    /// The transport this tool is bound to. It is fixed when the tool is
    /// made.
    pub fn transport(&self) -> (transport: &Transport)
        ensures
            *transport == self@.transport,
    {
        &self.transport
    }

    /// The arguments of the invocation this copy was prepared for, if any.
    pub fn arguments(&self) -> (arguments: Option<&serde_json::Map<String, Value>>)
        ensures
            match arguments {
                Some(object) => self@.arguments == Some(argument_entries(*object)),
                None => self@.arguments is None,
            },
    {
        match &self.arguments {
            Some(object) => Some(object),
            None => None,
        }
    }

    /// The executable of a subprocess-bound tool.
    pub fn io_path(&self) -> (path: Option<&PathBuf>)
        ensures
            match self@.transport {
                Transport::Subprocess(bound) => path == Some(&bound),
                Transport::Stream(_) => path is None,
            },
    {
        match &self.transport {
            Transport::Subprocess(path) => Some(path),
            Transport::Stream(_) => None,
        }
    }

    /// The endpoint of a stream-bound tool.
    pub fn sse_url(&self) -> (address: Option<&Url>)
        ensures
            match self@.transport {
                Transport::Stream(bound) => address == Some(&bound),
                Transport::Subprocess(_) => address is None,
            },
    {
        match &self.transport {
            Transport::Stream(address) => Some(address),
            Transport::Subprocess(_) => None,
        }
    }

    /// A copy of this tool for one invocation with `arguments`: the same
    /// name, description, parameters and transport, and those arguments in
    /// place of any the tool held.
    pub fn prepared(&self, arguments: serde_json::Map<String, Value>) -> (call: Tool)
        ensures
            call@ == (ToolView { arguments: Some(argument_entries(arguments)), ..self@ }),
    {
        Tool {
            name: self.name.clone(),
            description: self.description.clone(),
            parameters: copied_settings(&self.parameters),
            transport: self.transport.clone(),
            arguments: Some(arguments),
        }
    }

    /// The function declaration that states this tool to the model.
    pub fn to_schema(&self) -> (schema: FunctionSchema)
        ensures
            schema@ == schema_of(self@),
    {
        FunctionSchema {
            name: self.name.clone(),
            description: self.description.clone(),
            parameters: Parameters::from_settings(&self.parameters),
            strict: false,
        }
    }
}

impl From<Tool> for FunctionSchema {
    /// The function declaration that states `tool` to the model.
    fn from(tool: Tool) -> (schema: Self)
        ensures
            schema@ == schema_of(tool@),
    {
        tool.to_schema()
    }
}

/// The declaration is built afresh, so the conversion is stated by the view
/// of its result and not as a value.
impl FromSpecImpl<Tool> for FunctionSchema {
    open spec fn obeys_from_spec() -> bool {
        false
    }

    open spec fn from_spec(tool: Tool) -> Self {
        arbitrary()
    }
}

/// The declaration that states a tool to the model declares the tool's own
/// parameters: read back, they are the parameters of the tool, in order,
/// with their names, type tags, descriptions and enumerations.
pub proof fn lemma_tool_schema_round_trip(tool: ToolView)
    ensures
        schema_of(tool).name == tool.name,
        schema_of(tool).description == tool.description,
        settings_of(schema_of(tool).parameters) == tool.parameters,
{
    lemma_schema_round_trip(tool.parameters);
}

} // verus!
