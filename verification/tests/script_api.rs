use defold_nvim_core::script_api::{compile, compile_field, compile_function, compile_parameter,
    compile_return, compile_table, is_well_wrapped, remainder_after, split_lines, CompileError,
    Failure, Type, Value};

fn node(name: &str, ty: &str) -> Value {
    Value {
        name: Some(name.to_string()),
        vtype: Some(Type::Single(ty.to_string())),
        ..Default::default()
    }
}

fn described(name: &str, ty: &str, desc: &str) -> Value {
    Value { desc: Some(desc.to_string()), ..node(name, ty) }
}

fn returning(ty: &str, desc: Option<&str>) -> Value {
    Value {
        vtype: Some(Type::Single(ty.to_string())),
        desc: desc.map(|d| d.to_string()),
        ..Default::default()
    }
}

fn words(word: &str, count: usize) -> String {
    vec![word; count].join(" ")
}

fn collapse(text: &str) -> String {
    text.split_whitespace().collect::<Vec<&str>>().join(" ")
}

#[test]
fn end_to_end_sample_module() {
    let function = Value {
        parameters: Some(vec![described("amount[optional]", "number", "how much")]),
        returnx: Some(Box::new(returning("boolean", Some("success")))),
        ..described("do_thing", "function", "Does the thing.")
    };
    let module = Value {
        members: Some(vec![described("value", "number", "A number field"), function]),
        ..described("mymodule", "table", "A sample module.")
    };
    let expected = "-- Generated by atomicptr/defold.nvim\n\
\n\
---A sample module.\n\
---@class mymodule\n\
---@field public value number A number field\n\
local mymodule = {}\n\
\n\
---Does the thing.\n\
---@param amount number|nil how much\n\
---@return boolean success\n\
function mymodule.do_thing(amount) end\n\
\n\
return mymodule\n";
    assert_eq!(compile(vec![module]), Ok(expected.to_string()));
}

#[test]
fn optional_parameter_name_and_type() {
    let param = node("amount[optional]", "number");
    assert_eq!(param.param_name(), Ok("amount".to_string()));
    assert_eq!(param.param_type(), Ok("number|nil".to_string()));
    assert!(param.is_optional());
    let mut out = String::new();
    assert_eq!(compile_parameter(&mut out, &param), Ok(()));
    assert_eq!(out, "---@param amount number|nil \n");
}

#[test]
fn required_parameter_keeps_its_name_and_type() {
    let param = node("amount", "number");
    assert_eq!(param.param_name(), Ok("amount".to_string()));
    assert_eq!(param.param_type(), Ok("number".to_string()));
    assert!(!param.is_optional());
}

#[test]
fn optional_mark_is_removed_once() {
    let param = node("x[optional][optional]", "number");
    assert_eq!(param.param_name(), Ok("x[optional]".to_string()));
    assert!(param.is_optional());
    let mut out = String::new();
    assert_eq!(compile_parameter(&mut out, &param), Ok(()));
    assert_eq!(out, "---@param x[optional] number|nil \n");
    let only = node("[optional]", "number");
    assert_eq!(only.param_name(), Ok(String::new()));
    let inner = node("[optional]x", "number");
    assert_eq!(inner.param_name(), Ok("[optional]x".to_string()));
    assert!(!inner.is_optional());
}

#[test]
fn nameless_node_has_no_parameter_name() {
    let param = Value { vtype: Some(Type::Single("number".to_string())), ..Default::default() };
    assert_eq!(param.param_name(), Err(CompileError::MissingNameError));
    assert!(!param.is_optional());
    assert_eq!(param.param_type(), Ok("number".to_string()));
}

#[test]
fn untyped_parameter_is_rejected() {
    let param = Value { name: Some("x".to_string()), ..Default::default() };
    assert_eq!(param.param_type(), Err(CompileError::ParseError));
    let mut out = String::from("kept");
    assert_eq!(compile_parameter(&mut out, &param), Err(CompileError::ParseError));
    assert_eq!(out, "kept");
}

#[test]
fn type_renders_single_and_list() {
    assert_eq!(Type::Single("number".to_string()).render(), "number");
    let list = Type::Multiple(vec!["string".to_string(), "hash".to_string(), "url".to_string()]);
    assert_eq!(list.render(), "[string, hash, url]");
    assert_eq!(Type::Multiple(vec![]).render(), "[]");
    assert_eq!(Type::Multiple(vec!["a".to_string()]).render(), "[a]");
}

#[test]
fn is_single_compares_the_identifier() {
    assert!(Type::Single("table".to_string()).is_single("table"));
    assert!(!Type::Single("table".to_string()).is_single("function"));
    assert!(!Type::Multiple(vec!["table".to_string()]).is_single("table"));
}

#[test]
fn role_follows_the_type() {
    assert!(node("a", "number").is_field());
    assert!(!node("a", "table").is_field());
    assert!(!node("a", "function").is_field());
    assert!(!Value::default().is_field());
    let list = Value {
        vtype: Some(Type::Multiple(vec!["table".to_string()])),
        ..Default::default()
    };
    assert!(list.is_field());
}

#[test]
fn qualified_name_joins_ancestors_from_the_root() {
    let root = node("a", "table");
    let middle = node("b", "table");
    let leaf = node("c", "function");
    assert_eq!(leaf.fully_qualified_name(&vec![]), Ok("c".to_string()));
    assert_eq!(leaf.fully_qualified_name(&vec![&root]), Ok("a.c".to_string()));
    assert_eq!(leaf.fully_qualified_name(&vec![&root, &middle]), Ok("a.b.c".to_string()));
}

#[test]
fn qualified_name_needs_every_name() {
    let root = node("a", "table");
    let nameless = Value::default();
    let leaf = node("c", "function");
    assert_eq!(
        leaf.fully_qualified_name(&vec![&root, &nameless]),
        Err(CompileError::MissingNameError)
    );
    assert_eq!(nameless.fully_qualified_name(&vec![&root]), Err(CompileError::MissingNameError));
}

#[test]
fn empty_text_has_no_lines() {
    assert_eq!(split_lines("", 117, 0), Ok(vec![]));
    assert_eq!(split_lines("", 10, 30), Ok(vec![]));
}

#[test]
fn short_text_is_one_line() {
    assert_eq!(split_lines("how much", 117, 28), Ok(vec!["how much".to_string()]));
}

#[test]
fn first_line_is_narrower_by_the_cutoff() {
    let text = words("aaaa", 30);
    let lines = split_lines(&text, 117, 30).unwrap();
    assert_eq!(lines, vec![words("aaaa", 17), words("aaaa", 13)]);
}

#[test]
fn later_lines_use_the_full_width() {
    let text = words("aaaa", 60);
    let lines = split_lines(&text, 117, 30).unwrap();
    assert_eq!(lines, vec![words("aaaa", 17), words("aaaa", 23), words("aaaa", 20)]);
}

#[test]
fn long_word_keeps_its_own_line() {
    let long = "x".repeat(130);
    let text = format!("{long} tail");
    assert_eq!(split_lines(&text, 117, 0), Ok(vec![long.clone(), "tail".to_string()]));
    let text = format!("head {long} tail");
    assert_eq!(
        split_lines(&text, 117, 0),
        Ok(vec!["head".to_string(), long, "tail".to_string()])
    );
}

#[test]
fn words_are_not_split_at_hyphens() {
    let text = format!("{} well-known", words("aaaa", 22));
    let lines = split_lines(&text, 117, 0).unwrap();
    assert_eq!(lines, vec![words("aaaa", 22), "well-known".to_string()]);
}

#[test]
fn cutoff_beyond_the_width_leaves_no_budget() {
    let lines = split_lines("one two three", 10, 30).unwrap();
    assert_eq!(lines, vec!["one".to_string(), "two three".to_string()]);
}

#[test]
fn wrapped_lines_fit_unless_one_word() {
    let text = format!(
        "{} {} {} {}",
        words("lorem", 20),
        "y".repeat(140),
        words("ipsum dolor", 30),
        "z".repeat(118)
    );
    for cutoff in [0usize, 8, 31, 116] {
        let lines = split_lines(&text, 117, cutoff).unwrap();
        for (i, line) in lines.iter().enumerate() {
            let budget = if i == 0 { 117 - cutoff } else { 117 };
            assert!(line.chars().count() <= budget || !line.contains(' '), "{line}");
        }
    }
}

#[test]
fn wrapped_lines_reassemble_to_the_text() {
    let text = format!("  some   text with  runs of spaces {} and an end  ", words("word", 70));
    for cutoff in [0usize, 8, 31] {
        let lines = split_lines(&text, 117, cutoff).unwrap();
        assert_eq!(collapse(&lines.join(" ")), collapse(&text));
    }
}

#[test]
fn remainder_skips_the_first_line_and_whitespace() {
    assert_eq!(remainder_after("one  two three", "one"), Some("two three".to_string()));
    assert_eq!(remainder_after("one", "one"), Some(String::new()));
    assert_eq!(remainder_after("one \n\t two", "one"), Some("two".to_string()));
    assert_eq!(remainder_after("on", "one"), None);
}

#[test]
fn field_without_description_is_the_prefix_alone() {
    let mut out = String::new();
    assert_eq!(compile_field(&mut out, &node("speed", "number")), Ok(()));
    assert_eq!(out, "---@field public speed number \n");
}

#[test]
fn field_description_wraps_behind_the_prefix() {
    let field = described("value", "number", &words("aaaa", 30));
    let mut out = String::from("before\n");
    assert_eq!(compile_field(&mut out, &field), Ok(()));
    let expected = format!(
        "before\n---@field public value number {}\n---{}\n",
        words("aaaa", 17),
        words("aaaa", 13)
    );
    assert_eq!(out, expected);
}

#[test]
fn field_continuation_is_not_spaced() {
    let field = described("value", "number", &format!("{} bb - dashed", words("aaaa", 17)));
    let mut out = String::new();
    assert_eq!(compile_field(&mut out, &field), Ok(()));
    assert_eq!(
        out,
        format!("---@field public value number {} bb\n---- dashed\n", words("aaaa", 17))
    );
}

#[test]
fn field_with_list_type() {
    let field = Value {
        name: Some("id".to_string()),
        vtype: Some(Type::Multiple(vec!["string".to_string(), "hash".to_string()])),
        desc: Some("the id".to_string()),
        ..Default::default()
    };
    let mut out = String::new();
    assert_eq!(compile_field(&mut out, &field), Ok(()));
    assert_eq!(out, "---@field public id [string, hash] the id\n");
}

#[test]
fn field_emitter_rejects_other_roles() {
    let mut out = String::from("kept");
    assert_eq!(compile_field(&mut out, &node("t", "table")), Err(CompileError::ParseError));
    assert_eq!(compile_field(&mut out, &Value::default()), Err(CompileError::ParseError));
    let nameless = Value { vtype: Some(Type::Single("number".to_string())), ..Default::default() };
    assert_eq!(compile_field(&mut out, &nameless), Err(CompileError::MissingNameError));
    assert_eq!(out, "kept");
}

#[test]
fn return_without_description_is_the_prefix_alone() {
    let mut out = String::new();
    assert_eq!(compile_return(&mut out, &returning("boolean", None)), Ok(()));
    assert_eq!(out, "---@return boolean\n");
}

#[test]
fn return_description_wraps_at_the_line_width() {
    let text = format!("{} bbbbbb - dashed {}", words("bbbb", 19), words("cccc", 30));
    let ret = returning("boolean", Some(&text));
    let mut out = String::new();
    assert_eq!(compile_return(&mut out, &ret), Ok(()));
    let expected = format!(
        "---@return boolean {} bbbbbb\n--- - dashed {}\n---{}\n",
        words("bbbb", 19),
        words("cccc", 22),
        words("cccc", 8)
    );
    assert_eq!(out, expected);
}

#[test]
fn return_needs_a_type() {
    let mut out = String::from("kept");
    let ret = Value { desc: Some("x".to_string()), ..Default::default() };
    assert_eq!(compile_return(&mut out, &ret), Err(CompileError::ParseError));
    assert_eq!(out, "kept");
}

#[test]
fn parameter_description_wraps_and_spaces_dashes() {
    let param = described("count", "number", &format!("{} - dashed", words("aaaa", 19)));
    let mut out = String::new();
    assert_eq!(compile_parameter(&mut out, &param), Ok(()));
    assert_eq!(out, format!("---@param count number {}\n--- - dashed\n", words("aaaa", 19)));
}

#[test]
fn callback_parameter_is_one_row() {
    let callback = Value {
        parameters: Some(vec![node("self", "object"), node("id[optional]", "hash")]),
        returnx: Some(Box::new(returning("boolean", None))),
        returns: Some(vec![returning("number", None), Value::default(), returning("nil", None)]),
        ..described("callback", "function", &words("ignored", 40))
    };
    let mut out = String::new();
    assert_eq!(compile_parameter(&mut out, &callback), Ok(()));
    assert_eq!(out, "---@param callback fun(self: object, id: hash|nil): boolean: number|nil\n");
    let bare = node("cb", "function");
    let mut out = String::new();
    assert_eq!(compile_parameter(&mut out, &bare), Ok(()));
    assert_eq!(out, "---@param cb fun()\n");
}

#[test]
fn callback_parameter_checks_its_parts() {
    let mut out = String::new();
    let nameless = Value { parameters: Some(vec![Value::default()]), ..node("cb", "function") };
    assert_eq!(compile_parameter(&mut out, &nameless), Err(CompileError::MissingNameError));
    let untyped = Value {
        parameters: Some(vec![Value { name: Some("x".to_string()), ..Default::default() }]),
        ..node("cb", "function")
    };
    assert_eq!(compile_parameter(&mut out, &untyped), Err(CompileError::ParseError));
    let no_return_type = Value {
        returnx: Some(Box::new(Value::default())),
        ..node("cb", "function")
    };
    assert_eq!(compile_parameter(&mut out, &no_return_type), Err(CompileError::ParseError));
    assert_eq!(out, "");
}

#[test]
fn function_with_all_parts() {
    let function = Value {
        examples: Some(vec![
            Value { desc: Some("print(1)".to_string()), ..Default::default() },
            Value::default(),
            Value { desc: Some(String::new()), ..Default::default() },
            Value { desc: Some(words("eeee", 30)), ..Default::default() },
        ]),
        parameters: Some(vec![described("a", "number", "first"), node("b[optional]", "string")]),
        returnx: Some(Box::new(returning("boolean", Some("ok")))),
        returns: Some(vec![returning("number", None), returning("string", Some("text"))]),
        ..described("run", "function", "- starts with a dash")
    };
    let root = node("mod", "table");
    let sub = node("sub", "table");
    let mut out = String::new();
    assert_eq!(compile_function(&mut out, &function, &vec![&root, &sub]), Ok(()));
    let expected = format!(
        "--- - starts with a dash\n\
---\n\
---    Examples:\n\
---\n\
---        print(1)\n\
---        {}\n\
---        {}\n\
---\n\
---@param a number first\n\
---@param b string|nil \n\
---@return boolean ok\n\
---@return number\n\
---@return string text\n\
function mod.sub.run(a, b) end\n",
        words("eeee", 22),
        words("eeee", 8)
    );
    assert_eq!(out, expected);
}

#[test]
fn function_without_ancestors_uses_its_own_name() {
    let mut out = String::new();
    assert_eq!(compile_function(&mut out, &node("f", "function"), &vec![]), Ok(()));
    assert_eq!(out, "function f() end\n");
}

#[test]
fn function_with_empty_examples_has_no_block() {
    let function = Value { examples: Some(vec![]), ..node("f", "function") };
    let mut out = String::new();
    assert_eq!(compile_function(&mut out, &function, &vec![]), Ok(()));
    assert_eq!(out, "function f() end\n");
}

#[test]
fn function_needs_a_name() {
    let function = Value {
        vtype: Some(Type::Single("function".to_string())),
        desc: Some("does".to_string()),
        ..Default::default()
    };
    let mut out = String::from("kept");
    assert_eq!(compile_function(&mut out, &function, &vec![]), Err(CompileError::MissingNameError));
    assert_eq!(out, "kept");
}

#[test]
fn table_with_nested_members() {
    let inner = Value {
        members: Some(vec![node("x", "number"), node("go", "function")]),
        ..node("inner", "table")
    };
    let table = Value {
        members: Some(vec![
            node("go", "function"),
            described("speed", "number", "how fast"),
            inner,
            Value { name: Some("untyped".to_string()), ..Default::default() },
        ]),
        ..described("outer", "table", &words("never wrapped", 12))
    };
    let mut out = String::new();
    assert_eq!(compile_table(&mut out, &table, &vec![]), Ok(()));
    let expected = format!(
        "---{}\n\
---@class outer\n\
---@field public speed number how fast\n\
local outer = {{}}\n\
\n\
function outer.go() end\n\
\n\
---@class inner\n\
---@field public x number \n\
outer.inner = {{}}\n\
\n\
function outer.inner.go() end\n\
\n\
return outer\n",
        words("never wrapped", 12)
    );
    assert_eq!(out, expected);
}

#[test]
fn node_of_another_type_is_no_table() {
    let mut out = String::from("x");
    assert_eq!(compile_table(&mut out, &node("t", "number"), &vec![]), Err(CompileError::ParseError));
    assert_eq!(out, "x");
    assert_eq!(compile_table(&mut out, &node("f", "function"), &vec![]), Err(CompileError::ParseError));
    let list = Value {
        name: Some("l".to_string()),
        vtype: Some(Type::Multiple(vec!["table".to_string()])),
        ..Default::default()
    };
    assert_eq!(compile_table(&mut out, &list, &vec![]), Err(CompileError::ParseError));
    let nameless = Value { vtype: Some(Type::Single("number".to_string())), ..Default::default() };
    assert_eq!(compile_table(&mut out, &nameless, &vec![]), Err(CompileError::ParseError));
    assert_eq!(out, "x");
    assert_eq!(
        compile(vec![node("t", "number")]),
        Err(Failure { kind: CompileError::ParseError, path: "t".to_string() })
    );
    assert_eq!(
        compile(vec![nameless]),
        Err(Failure { kind: CompileError::ParseError, path: "?".to_string() })
    );
    assert_eq!(
        compile(vec![described("f", "function", "does")]),
        Err(Failure { kind: CompileError::ParseError, path: "f".to_string() })
    );
}

#[test]
fn class_row_never_names_a_base() {
    let mut out = String::new();
    assert_eq!(compile_table(&mut out, &node("child", "table"), &vec![]), Ok(()));
    assert_eq!(out, "---@class child\nlocal child = {}\n\nreturn child\n");
    let untyped = Value { name: Some("child".to_string()), ..Default::default() };
    let mut out = String::new();
    assert_eq!(compile_table(&mut out, &untyped, &vec![]), Ok(()));
    assert_eq!(out, "---@class child\nlocal child = {}\n\nreturn child\n");
}

#[test]
fn nested_table_has_no_return_row() {
    let root = node("root", "table");
    let mut out = String::new();
    assert_eq!(compile_table(&mut out, &node("t", "table"), &vec![&root]), Ok(()));
    assert_eq!(out, "---@class t\nroot.t = {}\n");
}

#[test]
fn table_needs_a_name() {
    let mut out = String::from("kept");
    let table = Value { desc: Some("d".to_string()), ..Default::default() };
    assert_eq!(compile_table(&mut out, &table, &vec![]), Err(CompileError::MissingNameError));
    let holder = Value { members: Some(vec![node("f", "function"), table]), ..node("t", "table") };
    let nested = Value {
        members: Some(vec![Value {
            vtype: Some(Type::Single("table".to_string())),
            ..Default::default()
        }]),
        ..node("t", "table")
    };
    assert_eq!(compile_table(&mut out, &holder, &vec![]), Ok(()));
    let mut out = String::from("kept");
    assert_eq!(compile_table(&mut out, &nested, &vec![]), Err(CompileError::MissingNameError));
    assert_eq!(out, "kept");
}

#[test]
fn single_table_without_members() {
    let expected = "-- Generated by atomicptr/defold.nvim\n\n---@class solo\nlocal solo = {}\n\nreturn solo\n";
    assert_eq!(compile(vec![node("solo", "table")]), Ok(expected.to_string()));
    let untyped = Value {
        name: Some("solo".to_string()),
        members: Some(vec![]),
        ..Default::default()
    };
    assert_eq!(compile(vec![untyped]), Ok(expected.to_string()));
    let with_desc = "-- Generated by atomicptr/defold.nvim\n\n---About it.\n---@class solo\nlocal solo = {}\n\nreturn solo\n";
    assert_eq!(compile(vec![described("solo", "table", "About it.")]), Ok(with_desc.to_string()));
}

#[test]
fn several_top_level_nodes_share_the_namespace() {
    let first = Value { members: Some(vec![node("go", "function")]), ..node("first", "table") };
    let expected = "-- Generated by atomicptr/defold.nvim\n\
\n\
---@class M\n\
---@field public count number \n\
local M = {}\n\
\n\
---@class first\n\
M.first = {}\n\
\n\
function M.first.go() end\n\
\n\
---@class second\n\
M.second = {}\n\
\n\
function M.free() end\n\
\n\
return M\n";
    let top = vec![first, node("count", "number"), node("second", "table"), node("free", "function")];
    assert_eq!(compile(top), Ok(expected.to_string()));
}

#[test]
fn no_top_level_node_gives_the_empty_namespace() {
    let expected = "-- Generated by atomicptr/defold.nvim\n\n---@class M\nlocal M = {}\n\nreturn M\n";
    assert_eq!(compile(vec![]), Ok(expected.to_string()));
}

#[test]
fn compiling_twice_gives_the_same_text() {
    let build = || {
        vec![
            Value {
                members: Some(vec![described("value", "number", &words("text", 50))]),
                ..described("a", "table", "A")
            },
            described("f", "function", &words("more", 40)),
        ]
    };
    let first = compile(build());
    let second = compile(build());
    assert!(first.is_ok());
    assert_eq!(first, second);
}

#[test]
fn failure_returns_no_text() {
    let module = Value {
        members: Some(vec![
            node("ok", "function"),
            Value {
                parameters: Some(vec![Value { name: Some("p".to_string()), ..Default::default() }]),
                ..node("bad", "function")
            },
        ]),
        ..node("m", "table")
    };
    assert_eq!(
        compile(vec![module]),
        Err(Failure { kind: CompileError::ParseError, path: "m.bad".to_string() })
    );
}

fn failure(kind: CompileError, path: &str) -> Result<String, Failure> {
    Err(Failure { kind, path: path.to_string() })
}

#[test]
fn failure_names_the_place() {
    let untyped_field = Value { name: Some("f".to_string()), ..Default::default() };
    let bad_param = Value {
        parameters: Some(vec![untyped_field]),
        ..node("go", "function")
    };
    let inner = Value { members: Some(vec![node("ok", "function"), bad_param]), ..node("inner", "table") };
    let outer = Value {
        members: Some(vec![node("x", "number"), node("first", "table"), inner]),
        ..node("outer", "table")
    };
    assert_eq!(compile(vec![outer]), failure(CompileError::ParseError, "outer.inner.go"));

    let nameless_field = Value {
        vtype: Some(Type::Single("number".to_string())),
        ..Default::default()
    };
    let holder = Value { members: Some(vec![nameless_field]), ..node("holder", "table") };
    assert_eq!(
        compile(vec![node("a", "table"), holder]),
        failure(CompileError::MissingNameError, "M.holder")
    );

    let nameless_table = Value {
        vtype: Some(Type::Single("table".to_string())),
        ..Default::default()
    };
    assert_eq!(
        compile(vec![Value { members: Some(vec![nameless_table]), ..node("t", "table") }]),
        failure(CompileError::MissingNameError, "t.?")
    );
    assert_eq!(compile(vec![Value::default()]), failure(CompileError::MissingNameError, "?"));

    let nameless_function = Value {
        vtype: Some(Type::Single("function".to_string())),
        ..Default::default()
    };
    assert_eq!(
        compile(vec![node("a", "table"), nameless_function]),
        failure(CompileError::MissingNameError, "M.?")
    );
    let f = Failure { kind: CompileError::ParseError, path: "a.b".to_string() };
    assert_eq!(f.message(), "a.b: the document does not conform to the node schema");
}

fn lines(items: &[&str]) -> Vec<String> {
    items.iter().map(|s| s.to_string()).collect()
}

#[test]
fn wrapping_is_checked_line_by_line() {
    assert!(is_well_wrapped("aaaa bbbb", &lines(&["aaaa bbbb"]), 9, 0));
    assert!(!is_well_wrapped("aaaa bbbb", &lines(&["aaaa bbbb"]), 8, 0));
    assert!(is_well_wrapped("aaaa bbbb", &lines(&["aaaa", "bbbb"]), 4, 0));
    assert!(!is_well_wrapped("aaaa bbbb cc", &lines(&["aaaa", "bbbb cc"]), 6, 0));
    assert!(is_well_wrapped("aaaa bbbb cc", &lines(&["aaaa", "bbbb cc"]), 7, 3));
    assert!(!is_well_wrapped("aa bb cccc", &lines(&["aa bb", "cccc"]), 7, 3));
    assert!(is_well_wrapped("anoverlongword", &lines(&["anoverlongword"]), 3, 0));
    assert!(is_well_wrapped("", &lines(&[]), 0, 0));
}

#[test]
fn wrapping_counts_columns_not_characters() {
    let wide = "\u{65e5}\u{672c} \u{8a9e}";
    assert!(!is_well_wrapped(wide, &lines(&[wide]), 6, 0));
    assert!(is_well_wrapped(wide, &lines(&[wide]), 7, 0));
}

#[test]
fn wrapping_must_keep_the_words() {
    assert!(is_well_wrapped("  a \t b\n\nc  ", &lines(&["a", "b c"]), 10, 0));
    assert!(!is_well_wrapped("a b c", &lines(&["a", "c"]), 10, 0));
    assert!(!is_well_wrapped("a b c", &lines(&["a b", "c d"]), 10, 0));
    assert!(!is_well_wrapped("a b c", &lines(&["a c", "b"]), 10, 0));
    assert!(!is_well_wrapped("ab c", &lines(&["a", "b c"]), 10, 0));
    assert!(!is_well_wrapped("a b", &lines(&[]), 10, 0));
}

#[test]
fn descriptions_with_line_breaks_and_wide_text() {
    let text = "first line\nsecond \u{65e5}\u{672c}\u{8a9e} line\n\nlast";
    let got = split_lines(text, 117, 10).unwrap();
    assert_eq!(got, lines(&["first line", "second \u{65e5}\u{672c}\u{8a9e} line", "", "last"]));
}

fn sample_text(seed: u64, length: usize, alphabet: &[char]) -> String {
    let mut state = seed;
    let mut text = String::new();
    for _ in 0..length {
        state = state.wrapping_mul(6364136223846793005).wrapping_add(1442695040888963407);
        text.push(alphabet[(state >> 33) as usize % alphabet.len()]);
    }
    text
}

#[test]
fn every_text_is_wrapped() {
    let alphabet = [
        'a', 'b', 'c', 'd', 'e', ' ', ' ', ' ', '-', '\t', '\n', '\r', '\u{a0}', '\u{65e5}',
        '\u{301}', '\u{200d}', '\u{1f600}', '\u{1b}', '[', 'm', '.', '\u{2003}', '\u{200b}',
    ];
    for seed in 0..400u64 {
        let text = sample_text(seed, 20 + (seed as usize * 7) % 400, &alphabet);
        for (width, cutoff) in [(117usize, 0usize), (117, 31), (120, 8), (120, 19), (10, 3), (5, 9), (1, 0), (0, 0)] {
            let lines = split_lines(&text, width, cutoff);
            assert!(lines.is_ok(), "{text:?} at {width} and {cutoff}");
        }
    }
}

#[test]
fn plain_text_must_fill_its_lines() {
    assert!(!is_well_wrapped("aa bb", &lines(&["aa", "bb"]), 10, 0));
    assert!(is_well_wrapped("aa bb", &lines(&["aa", "bb"]), 4, 0));
    assert!(is_well_wrapped("aa bb", &lines(&["aa", "bb"]), 10, 6));
    assert!(!is_well_wrapped("aa bb", &lines(&["aa", "bb"]), 10, 5));
    assert!(is_well_wrapped("aa bb cc dd", &lines(&["aa bb", "cc dd"]), 7, 0));
    assert!(!is_well_wrapped("aa bb cc dd", &lines(&["aa bb", "cc", "dd"]), 7, 0));
    assert!(is_well_wrapped("aa\nbb", &lines(&["aa", "bb"]), 10, 0));
    assert!(is_well_wrapped("aa  bb", &lines(&["aa", "bb"]), 10, 0));
    assert!(is_well_wrapped("aa\tbb cc", &lines(&["aa", "bb cc"]), 10, 0));
}

#[test]
fn every_plain_text_is_wrapped_and_filled() {
    let alphabet = ['a', 'b', 'c', '-', '.', '\u{65e5}', '\u{301}', 'x', 'y', 'z', '\u{1f600}'];
    for seed in 0..300u64 {
        let count = 1 + (seed as usize * 13) % 60;
        let mut parts = Vec::new();
        for k in 0..count {
            let length = 1 + ((seed as usize + 1) * (k + 3) * 7) % 23;
            parts.push(sample_text(seed * 1000 + k as u64, length, &alphabet));
        }
        let mut text = parts.join(" ");
        if seed % 5 == 0 {
            text.insert(0, ' ');
        }
        if seed % 7 == 0 {
            text.push(' ');
        }
        for (width, cutoff) in [(117usize, 0usize), (117, 31), (120, 8), (120, 19), (40, 3), (10, 3), (5, 9), (1, 0), (0, 0)] {
            let got = split_lines(&text, width, cutoff);
            assert!(got.is_ok(), "{text:?} at {width} and {cutoff}");
        }
    }
}

#[test]
fn plain_text_must_come_together_again() {
    assert!(is_well_wrapped("aa bb ", &lines(&["aa bb"]), 10, 0));
    assert!(is_well_wrapped(" aa bb", &lines(&[" aa bb"]), 10, 0));
    assert!(!is_well_wrapped(" aa bb", &lines(&["aa bb"]), 10, 0));
    assert!(is_well_wrapped(" aaaa", &lines(&["", "aaaa"]), 3, 0));
    assert!(!is_well_wrapped("aa bb", &lines(&["aa  bb"]), 10, 0));
    assert!(is_well_wrapped("aa  bb", &lines(&["aa  bb"]), 10, 0));
    assert!(is_well_wrapped("aa  bb", &lines(&["aa bb"]), 10, 0));
}

#[test]
fn plain_descriptions_reassemble() {
    let text = words("lorem ipsum dolor", 40);
    for cutoff in [0usize, 19, 31] {
        let got = split_lines(&text, 117, cutoff).unwrap();
        assert_eq!(got.join(" "), text);
        assert!(got.len() > 1);
    }
}

#[test]
fn errors_say_what_failed() {
    assert_eq!(CompileError::ParseError.message(), "the document does not conform to the node schema");
    assert_eq!(CompileError::MissingNameError.message(), "a node that has to be named has no name");
    assert_eq!(CompileError::FormatError.message(), "a description could not be wrapped");
}

#[test]
fn words_are_set_apart_by_any_whitespace() {
    assert_eq!(split_lines("aaa\tbbb", 5, 0), Ok(lines(&["aaa", "bbb"])));
    assert_eq!(split_lines("aaa\tbbb ccc", 20, 0), Ok(lines(&["aaa bbb ccc"])));
    assert_eq!(split_lines("aaa\u{a0}bbb\r\nccc", 5, 0), Ok(lines(&["aaa", "bbb", "ccc"])));
    assert!(!is_well_wrapped("aaa\tbbb", &lines(&["aaa\tbbb"]), 5, 0));
    assert!(!is_well_wrapped("aaa\u{a0}bbb", &lines(&["aaa\u{a0}bbb"]), 5, 0));
    assert!(is_well_wrapped("aaa\tbbb", &lines(&["aaa", "bbb"]), 5, 0));
}

#[test]
fn printable_text_is_bound_in_characters() {
    assert!(is_well_wrapped("ab\u{7}cd ef", &lines(&["ab\u{7}cd ef"]), 7, 0));
    assert!(!is_well_wrapped("abxcd ef", &lines(&["abxcd ef"]), 7, 0));
    let text = format!("{} {}", words("lorem ipsum", 40), "w".repeat(130));
    for cutoff in [0usize, 8, 31, 116] {
        let got = split_lines(&text, 117, cutoff).unwrap();
        for (i, line) in got.iter().enumerate() {
            let budget = if i == 0 { 117 - cutoff } else { 117 };
            assert!(line.len() <= budget || !line.contains(char::is_whitespace), "{line}");
        }
    }
}

#[test]
fn a_line_is_one_row() {
    assert!(!is_well_wrapped("aa bb", &lines(&["aa\nbb"]), 10, 0));
    assert!(!is_well_wrapped("aa\nbb", &lines(&["aa\nbb"]), 10, 0));
    assert!(is_well_wrapped("aa\nbb", &lines(&["aa", "bb"]), 10, 0));
    for line in split_lines("one\ntwo three\n\nfour", 117, 0).unwrap() {
        assert!(!line.contains('\n'));
    }
}

#[test]
fn field_rows_keep_within_the_line_width() {
    let field = described("value", "number", &words("lorem ipsum dolor sit amet", 30));
    let mut out = String::new();
    assert_eq!(compile_field(&mut out, &field), Ok(()));
    let rows: Vec<&str> = out.lines().collect();
    assert!(rows.len() > 2);
    assert!(rows[0].starts_with("---@field public value number ") && rows[0].len() <= 117);
    for row in &rows[1..] {
        assert!(row.starts_with("---") && row.len() - 3 <= 117);
    }
}
