//! A sample tool server's logic: a calculator whose two tools are kept in a
//! registry that is built once and looked up by name at dispatch time.

use crate::decimal::{decimal, decimal_text};
use crate::schema::{setting_views, ParameterSetting, ParameterSettingView};
use vstd::prelude::*;
use vstd::string::StringExecFns;

verus! {

/// The operands of an addition.
#[derive(Debug, Clone, Copy, PartialEq, Eq, Structural)]
pub struct AddRequest {
    pub a: i32,
    pub b: i32,
}

/// The operands of a subtraction.
#[derive(Debug, Clone, Copy, PartialEq, Eq, Structural)]
pub struct SubRequest {
    pub a: i32,
    pub b: i32,
}

/// The handlers that a registered tool can be routed to.
#[derive(Debug, Clone, Copy, PartialEq, Eq, Structural)]
pub enum Handler {
    Add,
    Sub,
}

/// One entry of the registry: a tool's name, its description, its declared
/// parameters and the handler that serves it.
#[derive(Debug, PartialEq, Eq)]
pub struct RegisteredTool {
    pub name: String,
    pub description: String,
    pub parameters: Vec<ParameterSetting>,
    pub handler: Handler,
}

/// The mathematical content of a [`RegisteredTool`].
pub ghost struct RegisteredToolView {
    pub name: Seq<char>,
    pub description: Seq<char>,
    pub parameters: Seq<ParameterSettingView>,
    pub handler: Handler,
}

impl View for RegisteredTool {
    type V = RegisteredToolView;

    open spec fn view(&self) -> RegisteredToolView {
        RegisteredToolView {
            name: self.name@,
            description: self.description@,
            parameters: setting_views(self.parameters@),
            handler: self.handler,
        }
    }
}

/// The declaration of an integer operand called `name`.
pub open spec fn operand(name: Seq<char>, description: Seq<char>) -> ParameterSettingView {
    ParameterSettingView { name, type_tag: "integer"@, description, enum_values: None }
}

/// The entry under which the calculator registers its addition.
pub open spec fn add_entry() -> RegisteredToolView {
    RegisteredToolView {
        name: "add"@,
        description: "Calculate the addition of two numbers"@,
        parameters: seq![operand("a"@, "the left hand side number"@), operand("b"@, ""@)],
        handler: Handler::Add,
    }
}

/// The entry under which the calculator registers its subtraction.
pub open spec fn sub_entry() -> RegisteredToolView {
    RegisteredToolView {
        name: "sub"@,
        description: "Calculate the subtraction of two numbers"@,
        parameters: seq![
            operand("a"@, "the left hand side number"@),
            operand("b"@, "the right hand side number"@),
        ],
        handler: Handler::Sub,
    }
}

/// The handler of the first entry of `registry` called `name`.
pub open spec fn routed(registry: Seq<RegisteredToolView>, name: Seq<char>) -> Option<Handler>
    decreases registry.len(),
{
    if registry.len() == 0 {
        None
    } else if registry[0].name == name {
        Some(registry[0].handler)
    } else {
        routed(registry.drop_first(), name)
    }
}

/// What `handler` makes of the operands `a` and `b`: the decimal text of
/// their sum or of their difference, taken over the integers.
pub open spec fn computed(handler: Handler, a: int, b: int) -> Seq<char> {
    match handler {
        Handler::Add => decimal(a + b),
        Handler::Sub => decimal(a - b),
    }
}

/// The calculator: a registry of its tools.
#[derive(Debug)]
pub struct Calculator {
    tool_router: Vec<RegisteredTool>,
}

impl View for Calculator {
    type V = Seq<RegisteredToolView>;

    closed spec fn view(&self) -> Seq<RegisteredToolView> {
        self.tool_router@.map_values(|t: RegisteredTool| t@)
    }
}

fn integer_operand(name: &str, description: &str) -> (setting: ParameterSetting)
    ensures
        setting@ == operand(name@, description@),
{
    ParameterSetting::new(name, "integer", description, None)
}

impl Calculator {
    /// The calculator with its two tools registered: `add`, then `sub`.
    pub fn new() -> (calculator: Self)
        ensures
            calculator@ == seq![add_entry(), sub_entry()],
    {
        let mut add_parameters: Vec<ParameterSetting> = Vec::new();
        add_parameters.push(integer_operand("a", "the left hand side number"));
        add_parameters.push(integer_operand("b", ""));
        let mut sub_parameters: Vec<ParameterSetting> = Vec::new();
        sub_parameters.push(integer_operand("a", "the left hand side number"));
        sub_parameters.push(integer_operand("b", "the right hand side number"));
        let mut tool_router: Vec<RegisteredTool> = Vec::new();
        tool_router.push(
            RegisteredTool {
                name: String::from_str("add"),
                description: String::from_str("Calculate the addition of two numbers"),
                parameters: add_parameters,
                handler: Handler::Add,
            },
        );
        tool_router.push(
            RegisteredTool {
                name: String::from_str("sub"),
                description: String::from_str("Calculate the subtraction of two numbers"),
                parameters: sub_parameters,
                handler: Handler::Sub,
            },
        );
        let calculator = Calculator { tool_router };
        proof {
            let registered = calculator.tool_router@;
            assert(setting_views(registered[0].parameters@) =~= add_entry().parameters);
            assert(setting_views(registered[1].parameters@) =~= sub_entry().parameters);
            assert(calculator@ =~= seq![add_entry(), sub_entry()]);
        }
        calculator
    }

    /// The registered tools, in the order of their registration.
    pub fn tools(&self) -> (tools: &Vec<RegisteredTool>)
        ensures
            tools@.map_values(|t: RegisteredTool| t@) == self@,
    {
        &self.tool_router
    }

    /// The decimal text of `a + b`.
    pub fn add(&self, request: AddRequest) -> (text: String)
        ensures
            text@ == decimal(request.a + request.b),
    {
        decimal_text(request.a as i64 + request.b as i64)
    }

    /// The difference `a - b`.
    pub fn sub(&self, request: SubRequest) -> (difference: i64)
        ensures
            difference == request.a - request.b,
    {
        request.a as i64 - request.b as i64
    }

    /// The handler of the tool registered under `name`, if there is one.
    pub fn route(&self, name: &str) -> (handler: Option<Handler>)
        ensures
            handler == routed(self@, name@),
    {
        let wanted = String::from_str(name);
        let ghost registry = self@;
        let mut i: usize = 0;
        assert(registry.skip(0) =~= registry);
        while i < self.tool_router.len()
            invariant
                i <= self.tool_router.len(),
                registry == self@,
                wanted@ == name@,
                routed(registry, name@) == routed(registry.skip(i as int), name@),
            decreases self.tool_router.len() - i,
        {
            assert(registry.skip(i as int)[0] == self.tool_router@[i as int]@);
            if self.tool_router[i].name == wanted {
                return Some(self.tool_router[i].handler);
            }
            assert(registry.skip(i as int).drop_first() =~= registry.skip(i as int + 1));
            i += 1;
        }
        assert(registry.skip(i as int).len() == 0);
        None
    }

    /// Serves a call of the tool `name` on the operands `a` and `b`: the
    /// text that the tool answers with, or `None` where no tool of that
    /// name is registered.
    pub fn call(&self, name: &str, a: i32, b: i32) -> (answer: Option<String>)
        ensures
            match routed(self@, name@) {
                Some(handler) => answer is Some && answer->0@ == computed(
                    handler,
                    a as int,
                    b as int,
                ),
                None => answer is None,
            },
    {
        match self.route(name) {
            Some(Handler::Add) => Some(self.add(AddRequest { a, b })),
            Some(Handler::Sub) => Some(decimal_text(self.sub(SubRequest { a, b }))),
            None => None,
        }
    }
}

} // verus!
