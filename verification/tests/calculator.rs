use mcp_agent::calculator::{AddRequest, Calculator, Handler, SubRequest};

#[test]
fn add_gives_the_text_of_the_sum() {
    let calculator = Calculator::new();
    assert_eq!(calculator.add(AddRequest { a: 5, b: 3 }), "8");
    assert_eq!(calculator.add(AddRequest { a: 25, b: 17 }), "42");
    assert_eq!(calculator.add(AddRequest { a: -7, b: 3 }), "-4");
    assert_eq!(calculator.add(AddRequest { a: 0, b: 0 }), "0");
}

#[test]
fn add_does_not_wrap() {
    let calculator = Calculator::new();
    assert_eq!(calculator.add(AddRequest { a: i32::MAX, b: 1 }), "2147483648");
    assert_eq!(calculator.add(AddRequest { a: i32::MIN, b: i32::MIN }), "-4294967296");
}

#[test]
fn sub_gives_the_difference() {
    let calculator = Calculator::new();
    assert_eq!(calculator.sub(SubRequest { a: 5, b: 3 }), 2);
    assert_eq!(calculator.sub(SubRequest { a: 3, b: 5 }), -2);
    assert_eq!(calculator.sub(SubRequest { a: i32::MIN, b: 1 }), -2147483649);
    assert_eq!(calculator.sub(SubRequest { a: i32::MAX, b: i32::MIN }), 4294967295);
}

#[test]
fn registry_holds_add_then_sub() {
    let calculator = Calculator::new();
    let tools = calculator.tools();
    assert_eq!(tools.len(), 2);
    assert_eq!(tools[0].name, "add");
    assert_eq!(tools[0].description, "Calculate the addition of two numbers");
    assert_eq!(tools[0].handler, Handler::Add);
    assert_eq!(tools[0].parameters.len(), 2);
    assert_eq!(tools[0].parameters[0].name, "a");
    assert_eq!(tools[0].parameters[0].type_tag, "integer");
    assert_eq!(tools[0].parameters[0].description, "the left hand side number");
    assert_eq!(tools[0].parameters[1].name, "b");
    assert_eq!(tools[0].parameters[1].description, "");
    assert_eq!(tools[1].name, "sub");
    assert_eq!(tools[1].description, "Calculate the subtraction of two numbers");
    assert_eq!(tools[1].handler, Handler::Sub);
    assert_eq!(tools[1].parameters[1].description, "the right hand side number");
}

#[test]
fn route_finds_tools_by_name() {
    let calculator = Calculator::new();
    assert_eq!(calculator.route("add"), Some(Handler::Add));
    assert_eq!(calculator.route("sub"), Some(Handler::Sub));
    assert_eq!(calculator.route("mul"), None);
    assert_eq!(calculator.route(""), None);
    assert_eq!(calculator.route("Add"), None);
}

#[test]
fn call_serves_by_name() {
    let calculator = Calculator::new();
    assert_eq!(calculator.call("add", 25, 17), Some("42".to_string()));
    assert_eq!(calculator.call("sub", 25, 17), Some("8".to_string()));
    assert_eq!(calculator.call("sub", 17, 25), Some("-8".to_string()));
    assert_eq!(calculator.call("div", 25, 17), None);
}
