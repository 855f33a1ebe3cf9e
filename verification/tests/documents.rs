use defold_nvim_core::script_api::{compile, Type, Value};

fn text_of(value: &serde_yaml::Value, key: &str) -> Option<String> {
    value.get(key).and_then(|v| v.as_str()).map(|s| s.to_string())
}

fn list_of(value: &serde_yaml::Value, key: &str) -> Option<Vec<Value>> {
    value.get(key).and_then(|v| v.as_sequence()).map(|items| items.iter().map(node_of).collect())
}

fn type_of(value: &serde_yaml::Value) -> Option<Type> {
    match value.get("type") {
        Some(serde_yaml::Value::String(s)) => Some(Type::Single(s.clone())),
        Some(serde_yaml::Value::Sequence(items)) => Some(Type::Multiple(
            items.iter().filter_map(|i| i.as_str()).map(|s| s.to_string()).collect(),
        )),
        _ => None,
    }
}

fn node_of(value: &serde_yaml::Value) -> Value {
    Value {
        name: text_of(value, "name"),
        desc: text_of(value, "desc"),
        vtype: type_of(value),
        members: list_of(value, "members"),
        examples: list_of(value, "examples"),
        parameters: list_of(value, "parameters"),
        returnx: value.get("return").map(|r| Box::new(node_of(r))),
        returns: list_of(value, "returns"),
    }
}

fn nodes_of(input: &str) -> Vec<Value> {
    let document: serde_yaml::Value = serde_yaml::from_str(input).expect("a document");
    document.as_sequence().expect("a list of nodes").iter().map(node_of).collect()
}

#[test]
fn sample_document_compiles_to_its_stub() {
    let input = r#"- name: mymodule
  type: table
  desc: "A sample module."
  members:
    - name: value
      type: number
      desc: "A number field"
    - name: do_thing
      type: function
      desc: "Does the thing."
      parameters:
        - name: "amount[optional]"
          type: number
          desc: "how much"
      return:
        type: boolean
        desc: "success"
"#;
    let expected = r#"-- Generated by atomicptr/defold.nvim

---A sample module.
---@class mymodule
---@field public value number A number field
local mymodule = {}

---Does the thing.
---@param amount number|nil how much
---@return boolean success
function mymodule.do_thing(amount) end

return mymodule
"#;
    assert_eq!(compile(nodes_of(input)), Ok(expected.to_string()));
}

#[test]
fn document_with_several_roots_and_lists() {
    let input = r#"- name: first
  type: table
  members:
    - name: id
      type: [string, hash]
    - name: on_event
      type: function
      parameters:
        - name: callback
          type: function
          parameters:
            - name: self
              type: object
            - name: "event[optional]"
              type: table
          returns:
            - type: boolean
            - type: nil
      examples:
        - desc: "first.on_event(function(self, event) end)"
- name: helper
  type: function
  returns:
    - type: number
      desc: the count
"#;
    let expected = r#"-- Generated by atomicptr/defold.nvim

---@class M
local M = {}

---@class first
---@field public id [string, hash] 
M.first = {}

---
---    Examples:
---
---        first.on_event(function(self, event) end)
---
---@param callback fun(self: object, event: table|nil): boolean|nil
function M.first.on_event(callback) end

---@return number the count
function M.helper() end

return M
"#;
    assert_eq!(compile(nodes_of(input)), Ok(expected.to_string()));
}
