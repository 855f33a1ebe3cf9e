//! The emitters: one per kind of node, each writing the annotation lines of its node.

use crate::script_api::model::{lemma_view, model_children, nodes, ref_nodes, result_view,
    text_view, CompileError, Failure, Node, Value};
use crate::script_api::texts::{culprit, label_prefix, lemma_nested_culprit_stays, nested_culprit,
    own_rows, path_text, callback_returns, chain, class_text,
    closing_text, comment_lines, concat, declaration_text, description_text, document_text, each,
    example_text, examples_text, field_text, function_text, gather, heading_text, indented_lines,
    lemma_concat_fails, lemma_gather_fails, lemma_nested_fails, listed, listed_name, listed_names,
    nested_text, parameter_text, part_text, part_texts, return_text, return_types,
    root, signature_text, table_parts, table_text, with_description, wrapper, Part, COMMENT_WRAP,
    EXAMPLE_INDENT, LINE_WRAP};
use crate::script_api::wrap::split_lines;
use crate::text::{join, starts_with_char, str_join, views};
use vstd::prelude::*;

verus! {

/// Appends a comment line for each of `lines` from index `from` on.
fn append_comment_lines(out: &mut String, lines: &Vec<String>, from: usize, spaced: bool)
    requires
        from <= lines@.len(),
    ensures
        final(out)@ == old(out)@ + comment_lines(views(lines@).skip(from as int), spaced),
{
    let mut i: usize = from;
    assert(views(lines@).subrange(from as int, from as int) == Seq::<Seq<char>>::empty());
    while i < lines.len()
        invariant
            from <= i <= lines@.len(),
            out@ == old(out)@ + comment_lines(
                views(lines@).subrange(from as int, i as int),
                spaced,
            ),
        decreases lines@.len() - i,
    {
        let ghost before = views(lines@).subrange(from as int, i as int);
        let ghost after = views(lines@).subrange(from as int, i as int + 1);
        assert(after.drop_last() == before);
        assert(after.last() == lines@[i as int]@);
        out.append("---");
        if spaced && starts_with_char(lines[i].as_str(), '-') {
            out.append(" ");
        }
        out.append(lines[i].as_str());
        out.append("\n");
        i = i + 1;
    }
    assert(views(lines@).subrange(from as int, lines@.len() as int) == views(lines@).skip(
        from as int,
    ));
}

fn described(bare: String, prefix: String, desc: &Option<String>, width: usize, spaced: bool)
    -> (r: Result<String, CompileError>)
    ensures
        result_view(r) == with_description(
            bare@,
            prefix@,
            text_view(*desc),
            width as nat,
            spaced,
        ),
{
    match desc {
        None => {
            let mut out: String = bare;
            out.append("\n");
            Ok(out)
        },
        Some(d) => {
            let cutoff: usize = prefix.as_str().unicode_len();
            match split_lines(d.as_str(), width, cutoff) {
                Err(e) => Err(e),
                Ok(lines) => {
                    let mut out: String = prefix;
                    if lines.len() == 0 {
                        out.append("\n");
                    } else {
                        assert(views(lines@)[0] == lines@[0]@);
                        out.append(lines[0].as_str());
                        out.append("\n");
                        append_comment_lines(&mut out, &lines, 1, spaced);
                    }
                    Ok(out)
                },
            }
        },
    }
}

fn field_string(field: &Value) -> (r: Result<String, CompileError>)
    ensures
        result_view(r) == field_text(field@),
{
    proof {
        lemma_view(field);
    }
    if !field.is_field() {
        return Err(CompileError::ParseError);
    }
    match (&field.name, &field.vtype) {
        (Some(name), Some(ty)) => {
            let mut prefix: String = "---@field public ".to_owned();
            prefix.append(name.as_str());
            prefix.append(" ");
            prefix.append(ty.render().as_str());
            prefix.append(" ");
            described(prefix.clone(), prefix, &field.desc, COMMENT_WRAP, false)
        },
        (None, _) => Err(CompileError::MissingNameError),
        (Some(_), None) => Err(CompileError::ParseError),
    }
}

fn return_string(ret: &Value) -> (r: Result<String, CompileError>)
    ensures
        result_view(r) == return_text(ret@),
{
    proof {
        lemma_view(ret);
    }
    match &ret.vtype {
        None => Err(CompileError::ParseError),
        Some(ty) => {
            let mut bare: String = "---@return ".to_owned();
            bare.append(ty.render().as_str());
            let mut prefix: String = bare.clone();
            prefix.append(" ");
            described(bare, prefix, &ret.desc, LINE_WRAP, true)
        },
    }
}

/// Appends `text` to `out` where there is one; hands a failure on and leaves `out` as
/// it was.
fn append_result(out: &mut String, text: Result<String, CompileError>) -> (r: Result<
    (),
    CompileError,
>)
    ensures
        match text {
            Ok(t) => r is Ok && final(out)@ == old(out)@ + t@,
            Err(e) => r == Err::<(), CompileError>(e) && final(out)@ == old(out)@,
        },
{
    match text {
        Ok(t) => {
            out.append(t.as_str());
            Ok(())
        },
        Err(e) => Err(e),
    }
}

/// Emits the `---@field` annotation of `field` to `out`.
///
/// Fails with `ParseError` where the node is no field, with `MissingNameError` where
/// it has no name, with `FormatError` where its description cannot be wrapped; `out`
/// is then unchanged.
pub fn compile_field(out: &mut String, field: &Value) -> (r: Result<(), CompileError>)
    ensures
        match field_text(field@) {
            Ok(t) => r is Ok && final(out)@ == old(out)@ + t,
            Err(e) => r == Err::<(), CompileError>(e) && final(out)@ == old(out)@,
        },
{
    append_result(out, field_string(field))
}

/// Emits the `---@return` annotation of `ret` to `out`.
///
/// Fails with `ParseError` where the node has no type, with `FormatError` where its
/// description cannot be wrapped; `out` is then unchanged.
pub fn compile_return(out: &mut String, ret: &Value) -> (r: Result<(), CompileError>)
    ensures
        match return_text(ret@) {
            Ok(t) => r is Ok && final(out)@ == old(out)@ + t,
            Err(e) => r == Err::<(), CompileError>(e) && final(out)@ == old(out)@,
        },
{
    append_result(out, return_string(ret))
}

fn listed_strings(params: &Option<Vec<Value>>, typed: bool) -> (r: Result<
    Vec<String>,
    CompileError,
>)
    ensures
        match r {
            Ok(items) => listed(model_children(*params), typed) == Ok::<
                Seq<Seq<char>>,
                CompileError,
            >(views(items@)),
            Err(e) => listed(model_children(*params), typed) == Err::<
                Seq<Seq<char>>,
                CompileError,
            >(e),
        },
{
    let mut items: Vec<String> = Vec::new();
    match params {
        None => {
            assert(views(items@) == Seq::<Seq<char>>::empty());
            Ok(items)
        },
        Some(ps) => {
            let ghost parts = listed_names(nodes(ps@), typed);
            let mut i: usize = 0;
            assert(views(items@) == Seq::<Seq<char>>::empty());
            while i < ps.len()
                invariant
                    i <= ps@.len(),
                    *params == Some(*ps),
                    parts == listed_names(nodes(ps@), typed),
                    gather(parts.take(i as int)) == Ok::<Seq<Seq<char>>, CompileError>(
                        views(items@),
                    ),
                decreases ps@.len() - i,
            {
                assert(parts.take(i as int + 1).drop_last() == parts.take(i as int));
                assert(parts.take(i as int + 1).last() == listed_name(ps@[i as int]@, typed));
                let ghost before = views(items@);
                let name: String = match ps[i].param_name() {
                    Ok(name) => name,
                    Err(e) => {
                        proof {
                            lemma_gather_fails(parts, i as int + 1);
                        }
                        return Err(e);
                    },
                };
                let item: String = if typed {
                    match ps[i].param_type() {
                        Ok(ty) => {
                            let mut item: String = name;
                            item.append(": ");
                            item.append(ty.as_str());
                            item
                        },
                        Err(e) => {
                            proof {
                                lemma_gather_fails(parts, i as int + 1);
                            }
                            return Err(e);
                        },
                    }
                } else {
                    name
                };
                items.push(item);
                assert(views(items@) == before.push(item@));
                i = i + 1;
            }
            assert(parts.take(ps@.len() as int) == parts);
            Ok(items)
        },
    }
}

fn return_type_strings(rets: &Vec<Value>) -> (items: Vec<String>)
    ensures
        views(items@) == return_types(nodes(rets@)),
{
    let mut items: Vec<String> = Vec::new();
    let mut i: usize = 0;
    assert(views(items@) == Seq::<Seq<char>>::empty());
    assert(nodes(rets@).take(0) == Seq::<Node>::empty());
    while i < rets.len()
        invariant
            i <= rets@.len(),
            views(items@) == return_types(nodes(rets@).take(i as int)),
        decreases rets@.len() - i,
    {
        let ghost before = views(items@);
        assert(nodes(rets@).take(i as int + 1).drop_last() == nodes(rets@).take(i as int));
        assert(nodes(rets@).take(i as int + 1).last() == rets@[i as int]@);
        proof {
            lemma_view(&rets@[i as int]);
        }
        match &rets[i].vtype {
            Some(ty) => {
                let item: String = ty.render();
                items.push(item);
                assert(views(items@) == before.push(item@));
            },
            None => {},
        }
        i = i + 1;
    }
    assert(nodes(rets@).take(rets@.len() as int) == nodes(rets@));
    items
}

fn callback_returns_string(param: &Value) -> (r: Result<String, CompileError>)
    ensures
        result_view(r) == callback_returns(param@),
{
    proof {
        lemma_view(param);
    }
    let mut out: String = String::new();
    let ghost single = Seq::<char>::empty();
    match &param.returnx {
        None => {},
        Some(ret) => {
            proof {
                lemma_view(&**ret);
            }
            match &ret.vtype {
                Some(ty) => {
                    out.append(": ");
                    out.append(ty.render().as_str());
                    proof {
                        single = ": "@ + ty@.rendered();
                    }
                },
                None => {
                    return Err(CompileError::ParseError);
                },
            }
        },
    }
    assert(out@ == single);
    match &param.returns {
        None => {
            assert(out@ == single + Seq::<char>::empty());
        },
        Some(rets) => {
            let types: Vec<String> = return_type_strings(rets);
            out.append(": ");
            out.append(str_join(&types, "|").as_str());
            assert(out@ == single + (": "@ + join(return_types(nodes(rets@)), "|"@)));
        },
    }
    Ok(out)
}

fn parameter_string(param: &Value) -> (r: Result<String, CompileError>)
    ensures
        result_view(r) == parameter_text(param@),
{
    proof {
        lemma_view(param);
    }
    let name: String = match param.param_name() {
        Ok(name) => name,
        Err(e) => {
            return Err(e);
        },
    };
    let mut lead: String = "---@param ".to_owned();
    lead.append(name.as_str());
    lead.append(" ");
    let callback: bool = match &param.vtype {
        Some(ty) => ty.is_single("function"),
        None => false,
    };
    if callback {
        let items: Vec<String> = match listed_strings(&param.parameters, true) {
            Ok(items) => items,
            Err(e) => {
                return Err(e);
            },
        };
        let tail: String = match callback_returns_string(param) {
            Ok(tail) => tail,
            Err(e) => {
                return Err(e);
            },
        };
        let mut out: String = lead;
        out.append("fun(");
        out.append(str_join(&items, ", ").as_str());
        out.append(")");
        out.append(tail.as_str());
        out.append("\n");
        Ok(out)
    } else {
        match param.param_type() {
            Err(e) => Err(e),
            Ok(ty) => {
                let mut prefix: String = lead;
                prefix.append(ty.as_str());
                prefix.append(" ");
                described(prefix.clone(), prefix, &param.desc, COMMENT_WRAP, true)
            },
        }
    }
}

/// Emits the `---@param` annotation of `param` to `out`.
///
/// Fails with `MissingNameError` where the parameter, or a parameter of a callback,
/// has no name; with `ParseError` where one of them, or a callback's single return,
/// has no type; with `FormatError` where the description cannot be wrapped. `out` is
/// then unchanged.
pub fn compile_parameter(out: &mut String, param: &Value) -> (r: Result<(), CompileError>)
    ensures
        match parameter_text(param@) {
            Ok(t) => r is Ok && final(out)@ == old(out)@ + t,
            Err(e) => r == Err::<(), CompileError>(e) && final(out)@ == old(out)@,
        },
{
    append_result(out, parameter_string(param))
}

fn example_string(example: &Value) -> (r: Result<String, CompileError>)
    ensures
        result_view(r) == example_text(example@),
{
    proof {
        lemma_view(example);
    }
    let mut out: String = String::new();
    match &example.desc {
        None => Ok(out),
        Some(d) => match split_lines(d.as_str(), LINE_WRAP, EXAMPLE_INDENT) {
            Err(e) => Err(e),
            Ok(lines) => {
                let mut i: usize = 0;
                assert(views(lines@).take(0) == Seq::<Seq<char>>::empty());
                while i < lines.len()
                    invariant
                        i <= lines@.len(),
                        out@ == indented_lines(views(lines@).take(i as int)),
                    decreases lines@.len() - i,
                {
                    let ghost before = views(lines@).take(i as int);
                    let ghost after = views(lines@).take(i as int + 1);
                    assert(after.drop_last() == before);
                    assert(after.last() == lines@[i as int]@);
                    out.append("---        ");
                    out.append(lines[i].as_str());
                    out.append("\n");
                    i = i + 1;
                }
                assert(views(lines@).take(lines@.len() as int) == views(lines@));
                Ok(out)
            },
        },
    }
}

fn part_string(kind: Part, node: &Value) -> (r: Result<String, CompileError>)
    ensures
        result_view(r) == part_text(kind, node@),
{
    match kind {
        Part::Field => if node.is_field() {
            field_string(node)
        } else {
            Ok(String::new())
        },
        Part::Example => example_string(node),
        Part::Parameter => parameter_string(node),
        Part::Return => return_string(node),
    }
}

fn each_string(kind: Part, items: &Option<Vec<Value>>) -> (r: Result<String, CompileError>)
    ensures
        result_view(r) == each(kind, model_children(*items)),
{
    let mut out: String = String::new();
    match items {
        None => Ok(out),
        Some(list) => {
            let ghost parts = part_texts(kind, nodes(list@));
            let mut i: usize = 0;
            assert(parts.take(0) == Seq::<Result<Seq<char>, CompileError>>::empty());
            while i < list.len()
                invariant
                    i <= list@.len(),
                    *items == Some(*list),
                    parts == part_texts(kind, nodes(list@)),
                    concat(parts.take(i as int)) == Ok::<Seq<char>, CompileError>(out@),
                decreases list@.len() - i,
            {
                assert(parts.take(i as int + 1).drop_last() == parts.take(i as int));
                assert(parts.take(i as int + 1).last() == part_text(kind, list@[i as int]@));
                match part_string(kind, &list[i]) {
                    Ok(text) => {
                        out.append(text.as_str());
                    },
                    Err(e) => {
                        proof {
                            lemma_concat_fails(parts, i as int + 1);
                        }
                        return Err(e);
                    },
                }
                i = i + 1;
            }
            assert(parts.take(list@.len() as int) == parts);
            Ok(out)
        },
    }
}

fn description_string(desc: &Option<String>) -> (r: Result<String, CompileError>)
    ensures
        result_view(r) == description_text(text_view(*desc)),
{
    let mut out: String = String::new();
    match desc {
        None => Ok(out),
        Some(d) => match split_lines(d.as_str(), COMMENT_WRAP, 0) {
            Err(e) => Err(e),
            Ok(lines) => {
                append_comment_lines(&mut out, &lines, 0, true);
                assert(views(lines@).skip(0) == views(lines@));
                assert(out@ == comment_lines(views(lines@), true));
                Ok(out)
            },
        },
    }
}

fn examples_string(examples: &Option<Vec<Value>>) -> (r: Result<String, CompileError>)
    ensures
        result_view(r) == examples_text(model_children(*examples)),
{
    let mut out: String = String::new();
    match examples {
        None => Ok(out),
        Some(list) => {
            if list.len() == 0 {
                return Ok(out);
            }
            let rows: String = match each_string(Part::Example, examples) {
                Ok(rows) => rows,
                Err(e) => {
                    return Err(e);
                },
            };
            out.append("---");
            out.append("\n");
            out.append("---    Examples:");
            out.append("\n");
            out.append("---");
            out.append("\n");
            out.append(rows.as_str());
            out.append("---");
            out.append("\n");
            assert(out@ == "---"@ + "\n"@ + "---    Examples:"@ + "\n"@ + "---"@ + "\n"@ + rows@ + (
            "---"@ + "\n"@));
            Ok(out)
        },
    }
}

fn signature_string(function: &Value, parents: &Vec<&Value>) -> (r: Result<String, CompileError>)
    ensures
        result_view(r) == signature_text(function@, ref_nodes(parents@)),
{
    proof {
        lemma_view(function);
    }
    let names: Vec<String> = match listed_strings(&function.parameters, false) {
        Ok(names) => names,
        Err(e) => {
            return Err(e);
        },
    };
    let name: String = match function.fully_qualified_name(parents) {
        Ok(name) => name,
        Err(e) => {
            return Err(e);
        },
    };
    let mut out: String = "function ".to_owned();
    out.append(name.as_str());
    out.append("(");
    out.append(str_join(&names, ", ").as_str());
    out.append(") end");
    out.append("\n");
    Ok(out)
}

fn function_string(function: &Value, parents: &Vec<&Value>) -> (r: Result<String, CompileError>)
    ensures
        result_view(r) == function_text(function@, ref_nodes(parents@)),
{
    proof {
        lemma_view(function);
        reveal(function_text);
    }
    let mut out: String = String::new();
    match append_result(&mut out, description_string(&function.desc)) {
        Ok(()) => {},
        Err(e) => {
            return Err(e);
        },
    }
    match append_result(&mut out, examples_string(&function.examples)) {
        Ok(()) => {},
        Err(e) => {
            return Err(e);
        },
    }
    match append_result(&mut out, each_string(Part::Parameter, &function.parameters)) {
        Ok(()) => {},
        Err(e) => {
            return Err(e);
        },
    }
    let single: Result<String, CompileError> = match &function.returnx {
        Some(ret) => return_string(&**ret),
        None => Ok(String::new()),
    };
    match append_result(&mut out, single) {
        Ok(()) => {},
        Err(e) => {
            return Err(e);
        },
    }
    match append_result(&mut out, each_string(Part::Return, &function.returns)) {
        Ok(()) => {},
        Err(e) => {
            return Err(e);
        },
    }
    match append_result(&mut out, signature_string(function, parents)) {
        Ok(()) => {},
        Err(e) => {
            return Err(e);
        },
    }
    Ok(out)
}

/// Emits a function below `parents` to `out`: its description, its examples, the
/// annotations of its parameters and return values, and its declaration row.
///
/// Fails with the first failure among its parts, in that order; `out` is then
/// unchanged.
pub fn compile_function(out: &mut String, function: &Value, parents: &Vec<&Value>) -> (r: Result<
    (),
    CompileError,
>)
    ensures
        match function_text(function@, ref_nodes(parents@)) {
            Ok(t) => r is Ok && final(out)@ == old(out)@ + t,
            Err(e) => r == Err::<(), CompileError>(e) && final(out)@ == old(out)@,
        },
{
    append_result(out, function_string(function, parents))
}

/// The list `parents` with `table` behind it.
fn path_below<'a>(parents: &Vec<&'a Value>, table: &'a Value) -> (path: Vec<&'a Value>)
    ensures
        path@ == parents@.push(table),
{
    let mut path: Vec<&Value> = Vec::new();
    let mut i: usize = 0;
    while i < parents.len()
        invariant
            i <= parents@.len(),
            path@ == parents@.take(i as int),
        decreases parents@.len() - i,
    {
        path.push(parents[i]);
        assert(parents@.take(i as int + 1) == parents@.take(i as int).push(parents@[i as int]));
        i = i + 1;
    }
    assert(parents@.take(parents@.len() as int) == parents@);
    path.push(table);
    path
}

fn class_string(table: &Value) -> (r: Result<String, CompileError>)
    ensures
        result_view(r) == class_text(table@),
{
    proof {
        lemma_view(table);
    }
    let mut out: String = String::new();
    match &table.desc {
        Some(d) => {
            out.append("---");
            out.append(d.as_str());
            out.append("\n");
        },
        None => {},
    }
    assert(out@ == heading_text(table@.desc));
    match &table.name {
        None => Err(CompileError::MissingNameError),
        Some(name) => {
            out.append("---@class ");
            out.append(name.as_str());
            out.append("\n");
            Ok(out)
        },
    }
}

fn declaration_string(table: &Value, parents: &Vec<&Value>) -> (r: Result<String, CompileError>)
    ensures
        result_view(r) == declaration_text(table@, ref_nodes(parents@)),
{
    proof {
        lemma_view(table);
    }
    if parents.len() == 0 {
        match &table.name {
            None => Err(CompileError::MissingNameError),
            Some(name) => {
                let mut out: String = "local ".to_owned();
                out.append(name.as_str());
                out.append(" = {}");
                out.append("\n");
                Ok(out)
            },
        }
    } else {
        match table.fully_qualified_name(parents) {
            Err(e) => Err(e),
            Ok(name) => {
                let mut out: String = name;
                out.append(" = {}");
                out.append("\n");
                Ok(out)
            },
        }
    }
}

fn closing_string(table: &Value, parents: &Vec<&Value>) -> (r: Result<String, CompileError>)
    ensures
        result_view(r) == closing_text(table@, ref_nodes(parents@)),
{
    proof {
        lemma_view(table);
    }
    let mut out: String = String::new();
    if parents.len() == 0 {
        match &table.name {
            None => Err(CompileError::MissingNameError),
            Some(name) => {
                out.append("\n");
                out.append("return ");
                out.append(name.as_str());
                out.append("\n");
                assert(out@ == "\n"@ + "return "@ + name@ + "\n"@);
                Ok(out)
            },
        }
    } else {
        Ok(out)
    }
}

/// The path of `node` below `parents`.
fn path_string(node: &Value, parents: &Vec<&Value>) -> (r: String)
    ensures
        r@ == path_text(node@, ref_nodes(parents@)),
{
    let mut out: String = String::new();
    let mut i: usize = 0;
    assert(ref_nodes(parents@).take(0) == Seq::<Node>::empty());
    while i < parents.len()
        invariant
            i <= parents@.len(),
            out@ == label_prefix(ref_nodes(parents@).take(i as int)),
        decreases parents@.len() - i,
    {
        let ghost upto = ref_nodes(parents@).take(i as int + 1);
        assert(upto.drop_last() == ref_nodes(parents@).take(i as int));
        assert(upto.last() == parents@[i as int]@);
        proof {
            lemma_view(parents@[i as int]);
        }
        match &parents[i].name {
            Some(name) => out.append(name.as_str()),
            None => out.append("?"),
        }
        out.append(".");
        i = i + 1;
    }
    assert(ref_nodes(parents@).take(parents@.len() as int) == ref_nodes(parents@));
    proof {
        lemma_view(node);
    }
    match &node.name {
        Some(name) => out.append(name.as_str()),
        None => out.append("?"),
    }
    out
}

fn nested_string(members: &Vec<Value>, path: &Vec<&Value>, place: &mut String) -> (r: Result<
    String,
    CompileError,
>)
    ensures
        result_view(r) == nested_text(nodes(members@), members@.len(), ref_nodes(path@)),
        r is Err ==> final(place)@ == nested_culprit(
            nodes(members@),
            members@.len(),
            ref_nodes(path@),
        ),
    decreases members,
{
    let mut out: String = String::new();
    let mut i: usize = 0;
    while i < members.len()
        invariant
            i <= members@.len(),
            nested_text(nodes(members@), i as nat, ref_nodes(path@)) == Ok::<
                Seq<char>,
                CompileError,
            >(out@),
        decreases members@.len() - i,
    {
        let member: &Value = &members[i];
        let ghost list = nodes(members@);
        let ghost below = ref_nodes(path@);
        assert(list[i as int] == member@);
        proof {
            lemma_view(member);
        }
        assert(nested_text(list, (i + 1) as nat, below) == chain(
            nested_text(list, i as nat, below),
            if member@.has_type("table"@) {
                chain(Ok("\n"@), table_text(member@, below))
            } else if member@.has_type("function"@) {
                chain(Ok("\n"@), function_text(member@, below))
            } else {
                Ok(Seq::empty())
            },
        ));
        let kind: u8 = match &member.vtype {
            Some(ty) => if ty.is_single("table") {
                1
            } else if ty.is_single("function") {
                2
            } else {
                0
            },
            None => 0,
        };
        let ghost before = out@;
        if kind == 0 {
            assert(before + Seq::<char>::empty() == before);
        } else {
            let text: Result<String, CompileError> = if kind == 1 {
                table_string(member, path, place)
            } else {
                let text: Result<String, CompileError> = function_string(member, path);
                if text.is_err() {
                    *place = path_string(member, path);
                }
                text
            };
            match text {
                Ok(text) => {
                    out.append("\n");
                    out.append(text.as_str());
                    assert(out@ == before + ("\n"@ + text@));
                },
                Err(e) => {
                    proof {
                        lemma_nested_fails(
                            nodes(members@),
                            (i + 1) as nat,
                            members@.len(),
                            ref_nodes(path@),
                        );
                        assert(place@ == nested_culprit(list, (i + 1) as nat, below));
                        lemma_nested_culprit_stays(list, (i + 1) as nat, members@.len(), below);
                    }
                    return Err(e);
                },
            }
        }
        i = i + 1;
    }
    Ok(out)
}

fn table_string(table: &Value, parents: &Vec<&Value>, place: &mut String) -> (r: Result<
    String,
    CompileError,
>)
    ensures
        result_view(r) == table_text(table@, ref_nodes(parents@)),
        r is Err ==> final(place)@ == culprit(table@, ref_nodes(parents@)),
    decreases table,
{
    proof {
        lemma_view(table);
        reveal(table_parts);
    }
    let fits: bool = match &table.vtype {
        Some(ty) => ty.is_single("table"),
        None => true,
    };
    if !fits {
        *place = path_string(table, parents);
        return Err(CompileError::ParseError);
    }
    let mut out: String = String::new();
    match append_result(&mut out, class_string(table)) {
        Ok(()) => {},
        Err(e) => {
            *place = path_string(table, parents);
            return Err(e);
        },
    }
    match append_result(&mut out, each_string(Part::Field, &table.members)) {
        Ok(()) => {},
        Err(e) => {
            *place = path_string(table, parents);
            return Err(e);
        },
    }
    match append_result(&mut out, declaration_string(table, parents)) {
        Ok(()) => {},
        Err(e) => {
            *place = path_string(table, parents);
            return Err(e);
        },
    }
    assert(own_rows(table@, ref_nodes(parents@)) == Ok::<Seq<char>, CompileError>(out@));
    let path: Vec<&Value> = path_below(parents, table);
    assert(ref_nodes(path@) == ref_nodes(parents@).push(table@));
    let nested: Result<String, CompileError> = match &table.members {
        Some(members) => nested_string(members, &path, place),
        None => Ok(String::new()),
    };
    match append_result(&mut out, nested) {
        Ok(()) => {},
        Err(e) => {
            return Err(e);
        },
    }
    match append_result(&mut out, closing_string(table, parents)) {
        Ok(()) => {},
        Err(e) => {
            *place = path_string(table, parents);
            return Err(e);
        },
    }
    Ok(out)
}

/// Emits a table below `parents` to `out`: its class rows, its fields, its declaration,
/// and after a blank row each its nested tables and functions; for the root, where
/// `parents` is empty, the `return` row at the end.
///
/// Fails with `ParseError` where the node has a type that is not the single `table`,
/// else with the first failure among its parts, in that order; `out` is then
/// unchanged.
pub fn compile_table(out: &mut String, table: &Value, parents: &Vec<&Value>) -> (r: Result<
    (),
    CompileError,
>)
    ensures
        match table_text(table@, ref_nodes(parents@)) {
            Ok(t) => r is Ok && final(out)@ == old(out)@ + t,
            Err(e) => r == Err::<(), CompileError>(e) && final(out)@ == old(out)@,
        },
{
    let mut place: String = String::new();
    append_result(out, table_string(table, parents, &mut place))
}

/// Compiles the top-level nodes of a description into the text of its Lua stubs.
///
/// A single node is emitted as the root table. Any other number of nodes is emitted
/// as members of a root table named `M`. Fails with the first failure of the root
/// table's emission, and returns no text then, but what failed and the path of the
/// table or function in whose rows it failed.
pub fn compile(tables: Vec<Value>) -> (r: Result<String, Failure>)
    ensures
        match r {
            Ok(text) => document_text(nodes(tables@)) == Ok::<Seq<char>, CompileError>(text@),
            Err(failure) => document_text(nodes(tables@)) == Err::<Seq<char>, CompileError>(
                failure.kind,
            ) && failure.path@ == culprit(root(nodes(tables@)), Seq::empty()),
        },
{
    let mut out: String = "-- Generated by atomicptr/defold.nvim".to_owned();
    out.append("\n");
    out.append("\n");
    let parents: Vec<&Value> = Vec::new();
    let mut place: String = String::new();
    assert(ref_nodes(parents@) == Seq::<Node>::empty());
    let ghost top = nodes(tables@);
    if tables.len() == 1 {
        assert(top[0] == tables@[0]@);
        return match table_string(&tables[0], &parents, &mut place) {
            Ok(text) => {
                out.append(text.as_str());
                Ok(out)
            },
            Err(kind) => Err(Failure { kind, path: place }),
        };
    }
    let namespace: Value = Value {
        name: Some("M".to_owned()),
        desc: None,
        vtype: None,
        members: Some(tables),
        examples: None,
        parameters: None,
        returnx: None,
        returns: None,
    };
    proof {
        lemma_view(&namespace);
    }
    assert(namespace@ == wrapper(top));
    match table_string(&namespace, &parents, &mut place) {
        Ok(text) => {
            out.append(text.as_str());
            Ok(out)
        },
        Err(kind) => Err(Failure { kind, path: place }),
    }
}

} // verus!
