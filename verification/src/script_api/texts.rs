//! What the emitters write, as texts over the mathematical value of a node: one text
//! per kind of node, put together from the texts of its parts.

use crate::script_api::model::{CompileError, Node};
use crate::script_api::wrap::split;
use crate::text::join;
use vstd::prelude::*;

verus! {

/// Columns of an output line.
pub const LINE_WRAP: usize = 120;

/// Columns of a wrapped line that stands behind the comment marker `---`.
pub const COMMENT_WRAP: usize = 117;

/// Columns that the indent of an example takes from its first line.
pub const EXAMPLE_INDENT: usize = 8;

/// One comment line: the marker `---`, the text and a line end. With `spaced`, a text
/// that begins with `-` is set off from the marker by one space.
pub open spec fn comment_line(text: Seq<char>, spaced: bool) -> Seq<char> {
    "---"@ + if spaced && text.len() > 0 && text[0] == '-' {
        " "@
    } else {
        Seq::empty()
    } + text + "\n"@
}

/// A comment line for each of `lines`, in order.
pub open spec fn comment_lines(lines: Seq<Seq<char>>, spaced: bool) -> Seq<char>
    decreases lines.len(),
{
    if lines.len() == 0 {
        Seq::empty()
    } else {
        comment_lines(lines.drop_last(), spaced) + comment_line(lines.last(), spaced)
    }
}

/// The row that begins with `prefix` and goes on with the first of `lines`, then a
/// comment line for each further one.
pub open spec fn annotated(prefix: Seq<char>, lines: Seq<Seq<char>>, spaced: bool) -> Seq<char> {
    if lines.len() == 0 {
        prefix + "\n"@
    } else {
        prefix + lines[0] + "\n"@ + comment_lines(lines.skip(1), spaced)
    }
}

/// An annotation with its description, if it has one: `bare` alone on its row where
/// there is none, else `prefix` and the description wrapped at `width` columns behind
/// it.
pub open spec fn with_description(
    bare: Seq<char>,
    prefix: Seq<char>,
    desc: Option<Seq<char>>,
    width: nat,
    spaced: bool,
) -> Result<Seq<char>, CompileError> {
    match desc {
        None => Ok(bare + "\n"@),
        Some(d) => match split(d, width, prefix.len()) {
            Some(lines) => Ok(annotated(prefix, lines, spaced)),
            None => Err(CompileError::FormatError),
        },
    }
}

/// The text of `a`, then the text of `b`; the first failure of the two where one fails.
pub open spec fn chain(a: Result<Seq<char>, CompileError>, b: Result<Seq<char>, CompileError>)
    -> Result<Seq<char>, CompileError> {
    match (a, b) {
        (Ok(x), Ok(y)) => Ok(x + y),
        (Err(e), _) => Err(e),
        (Ok(_), Err(e)) => Err(e),
    }
}

/// The `---@field` annotation of a field.
pub open spec fn field_text(field: Node) -> Result<Seq<char>, CompileError> {
    if !field.is_field() {
        Err(CompileError::ParseError)
    } else {
        match field.name {
            None => Err(CompileError::MissingNameError),
            Some(name) => {
                let prefix = "---@field public "@ + name + " "@ + field.vtype->0.rendered()
                    + " "@;
                with_description(prefix, prefix, field.desc, COMMENT_WRAP as nat, false)
            },
        }
    }
}

/// The `---@return` annotation of a return value.
pub open spec fn return_text(ret: Node) -> Result<Seq<char>, CompileError> {
    match ret.vtype {
        None => Err(CompileError::ParseError),
        Some(ty) => {
            let prefix = "---@return "@ + ty.rendered();
            with_description(prefix, prefix + " "@, ret.desc, LINE_WRAP as nat, true)
        },
    }
}

/// The texts of `parts` one after another; the first failure among them where one
/// fails.
pub open spec fn concat(parts: Seq<Result<Seq<char>, CompileError>>) -> Result<
    Seq<char>,
    CompileError,
>
    decreases parts.len(),
{
    if parts.len() == 0 {
        Ok(Seq::empty())
    } else {
        chain(concat(parts.drop_last()), parts.last())
    }
}

/// The texts of `parts` as a list; the first failure among them where one fails.
pub open spec fn gather(parts: Seq<Result<Seq<char>, CompileError>>) -> Result<
    Seq<Seq<char>>,
    CompileError,
>
    decreases parts.len(),
{
    if parts.len() == 0 {
        Ok(Seq::empty())
    } else {
        match (gather(parts.drop_last()), parts.last()) {
            (Ok(items), Ok(item)) => Ok(items.push(item)),
            (Err(e), _) => Err(e),
            (Ok(_), Err(e)) => Err(e),
        }
    }
}

/// A failure among the first `count` parts is the failure of the whole.
pub proof fn lemma_concat_fails(parts: Seq<Result<Seq<char>, CompileError>>, count: int)
    requires
        0 <= count <= parts.len(),
        concat(parts.take(count)) is Err,
    ensures
        concat(parts) == concat(parts.take(count)),
    decreases parts.len() - count,
{
    if count < parts.len() {
        assert(parts.take(count + 1).drop_last() == parts.take(count));
        lemma_concat_fails(parts, count + 1);
    } else {
        assert(parts.take(count) == parts);
    }
}

/// A failure among the first `count` parts is the failure of the whole.
pub proof fn lemma_gather_fails(parts: Seq<Result<Seq<char>, CompileError>>, count: int)
    requires
        0 <= count <= parts.len(),
        gather(parts.take(count)) is Err,
    ensures
        gather(parts) == gather(parts.take(count)),
    decreases parts.len() - count,
{
    if count < parts.len() {
        assert(parts.take(count + 1).drop_last() == parts.take(count));
        lemma_gather_fails(parts, count + 1);
    } else {
        assert(parts.take(count) == parts);
    }
}

/// A parameter as it stands in a callback's signature: its name, a colon and its type.
pub open spec fn typed_name(param: Node) -> Result<Seq<char>, CompileError> {
    match (param.display_name(), param.annotation()) {
        (Ok(name), Ok(ty)) => Ok(name + ": "@ + ty),
        (Err(e), _) => Err(e),
        (Ok(_), Err(e)) => Err(e),
    }
}

/// A parameter as it stands between the brackets of a signature: by name and type
/// where `typed`, by name alone where not.
pub open spec fn listed_name(param: Node, typed: bool) -> Result<Seq<char>, CompileError> {
    if typed {
        typed_name(param)
    } else {
        param.display_name()
    }
}

/// Each of `params` as it stands between the brackets of a signature.
pub open spec fn listed_names(params: Seq<Node>, typed: bool) -> Seq<
    Result<Seq<char>, CompileError>,
> {
    params.map_values(|p: Node| listed_name(p, typed))
}

/// The parameters as they are listed between the brackets of a signature.
pub open spec fn listed(params: Option<Seq<Node>>, typed: bool) -> Result<
    Seq<Seq<char>>,
    CompileError,
> {
    match params {
        Some(ps) => gather(listed_names(ps, typed)),
        None => Ok(Seq::empty()),
    }
}

/// The rendered types of those of `rets` that have a type, in order.
pub open spec fn return_types(rets: Seq<Node>) -> Seq<Seq<char>>
    decreases rets.len(),
{
    if rets.len() == 0 {
        Seq::empty()
    } else {
        match rets.last().vtype {
            Some(ty) => return_types(rets.drop_last()).push(ty.rendered()),
            None => return_types(rets.drop_last()),
        }
    }
}

/// What a callback returns, as written behind its signature: `": "` and the type of
/// its single return, then `": "` and the types of its listed returns with `|`
/// between them.
pub open spec fn callback_returns(param: Node) -> Result<Seq<char>, CompileError> {
    let many = match param.returns {
        Some(rets) => ": "@ + join(return_types(rets), "|"@),
        None => Seq::empty(),
    };
    match param.returnx {
        None => Ok(many),
        Some(ret) => match ret.vtype {
            Some(ty) => Ok(": "@ + ty.rendered() + many),
            None => Err(CompileError::ParseError),
        },
    }
}

/// The `---@param` annotation of a parameter: on one row as `fun(..)` where its type is
/// `function`, else with its type and its wrapped description.
pub open spec fn parameter_text(param: Node) -> Result<Seq<char>, CompileError> {
    match param.display_name() {
        Err(e) => Err(e),
        Ok(name) => {
            let lead = "---@param "@ + name + " "@;
            if param.has_type("function"@) {
                match (listed(param.parameters, true), callback_returns(param)) {
                    (Ok(items), Ok(tail)) => Ok(
                        lead + "fun("@ + join(items, ", "@) + ")"@ + tail + "\n"@,
                    ),
                    (Err(e), _) => Err(e),
                    (Ok(_), Err(e)) => Err(e),
                }
            } else {
                match param.annotation() {
                    Err(e) => Err(e),
                    Ok(ty) => {
                        let prefix = lead + ty + " "@;
                        with_description(prefix, prefix, param.desc, COMMENT_WRAP as nat, true)
                    },
                }
            }
        },
    }
}

/// The kinds of node that are emitted one after another from a list.
#[derive(Debug, Clone, Copy, PartialEq, Eq, Structural)]
pub enum Part {
    /// A member of a table, emitted where it is a field.
    Field,
    /// An example of a function.
    Example,
    /// A parameter of a function.
    Parameter,
    /// A return value of a function.
    Return,
}

/// A row for each of `lines` behind the indent of an example.
pub open spec fn indented_lines(lines: Seq<Seq<char>>) -> Seq<char>
    decreases lines.len(),
{
    if lines.len() == 0 {
        Seq::empty()
    } else {
        indented_lines(lines.drop_last()) + "---        "@ + lines.last() + "\n"@
    }
}

/// The rows of one example: its description wrapped behind the example indent.
pub open spec fn example_text(example: Node) -> Result<Seq<char>, CompileError> {
    match example.desc {
        None => Ok(Seq::empty()),
        Some(d) => match split(d, LINE_WRAP as nat, EXAMPLE_INDENT as nat) {
            Some(lines) => Ok(indented_lines(lines)),
            None => Err(CompileError::FormatError),
        },
    }
}

/// What one node of a list contributes, by the kind of the list.
pub open spec fn part_text(kind: Part, node: Node) -> Result<Seq<char>, CompileError> {
    match kind {
        Part::Field => if node.is_field() {
            field_text(node)
        } else {
            Ok(Seq::empty())
        },
        Part::Example => example_text(node),
        Part::Parameter => parameter_text(node),
        Part::Return => return_text(node),
    }
}

/// What each node of a list contributes, in the order of the list.
pub open spec fn part_texts(kind: Part, items: Seq<Node>) -> Seq<Result<Seq<char>, CompileError>> {
    items.map_values(|n: Node| part_text(kind, n))
}

/// The text of a whole optional list: nothing where there is no list.
pub open spec fn each(kind: Part, items: Option<Seq<Node>>) -> Result<Seq<char>, CompileError> {
    match items {
        Some(list) => concat(part_texts(kind, list)),
        None => Ok(Seq::empty()),
    }
}

/// The description of a function, wrapped, each line a comment line.
pub open spec fn description_text(desc: Option<Seq<char>>) -> Result<Seq<char>, CompileError> {
    match desc {
        None => Ok(Seq::empty()),
        Some(d) => match split(d, COMMENT_WRAP as nat, 0) {
            Some(lines) => Ok(comment_lines(lines, true)),
            None => Err(CompileError::FormatError),
        },
    }
}

/// The block of examples of a function: nothing where it has none.
pub open spec fn examples_text(examples: Option<Seq<Node>>) -> Result<Seq<char>, CompileError> {
    match examples {
        None => Ok(Seq::empty()),
        Some(list) => if list.len() == 0 {
            Ok(Seq::empty())
        } else {
            chain(
                chain(
                    Ok("---"@ + "\n"@ + "---    Examples:"@ + "\n"@ + "---"@ + "\n"@),
                    concat(part_texts(Part::Example, list)),
                ),
                Ok("---"@ + "\n"@),
            )
        },
    }
}

/// The annotation of a function's single return value, if it has one.
pub open spec fn single_return_text(ret: Option<Box<Node>>) -> Result<Seq<char>, CompileError> {
    match ret {
        Some(r) => return_text(*r),
        None => Ok(Seq::empty()),
    }
}

/// The declaration row of a function: its qualified name and the names of its
/// parameters.
pub open spec fn signature_text(function: Node, ancestors: Seq<Node>) -> Result<
    Seq<char>,
    CompileError,
> {
    match (listed(function.parameters, false), function.qualified(ancestors)) {
        (Ok(names), Ok(name)) => Ok(
            "function "@ + name + "("@ + join(names, ", "@) + ") end"@ + "\n"@,
        ),
        (Err(e), _) => Err(e),
        (Ok(_), Err(e)) => Err(e),
    }
}

/// All that is emitted for a function below `ancestors`: description, examples,
/// parameters, return values, and the declaration row.
#[verifier::opaque]
pub open spec fn function_text(function: Node, ancestors: Seq<Node>) -> Result<
    Seq<char>,
    CompileError,
> {
    chain(
        chain(
            chain(
                chain(
                    chain(description_text(function.desc), examples_text(function.examples)),
                    each(Part::Parameter, function.parameters),
                ),
                single_return_text(function.returnx),
            ),
            each(Part::Return, function.returns),
        ),
        signature_text(function, ancestors),
    )
}

/// The description of a table on one unwrapped comment row, if it has one.
pub open spec fn heading_text(desc: Option<Seq<char>>) -> Seq<char> {
    match desc {
        Some(d) => "---"@ + d + "\n"@,
        None => Seq::empty(),
    }
}

/// The description row and the `---@class` row of a table.
pub open spec fn class_text(table: Node) -> Result<Seq<char>, CompileError> {
    match table.name {
        Some(name) => Ok(
            heading_text(table.desc) + "---@class "@ + name + "\n"@,
        ),
        None => Err(CompileError::MissingNameError),
    }
}

/// The row that declares a table: `local` for the root, the qualified name below it.
pub open spec fn declaration_text(table: Node, ancestors: Seq<Node>) -> Result<
    Seq<char>,
    CompileError,
> {
    if ancestors.len() == 0 {
        match table.name {
            Some(name) => Ok("local "@ + name + " = {}"@ + "\n"@),
            None => Err(CompileError::MissingNameError),
        }
    } else {
        match table.qualified(ancestors) {
            Ok(name) => Ok(name + " = {}"@ + "\n"@),
            Err(e) => Err(e),
        }
    }
}

/// The end of the root table: a blank row and the `return` row. Nothing below the root.
pub open spec fn closing_text(table: Node, ancestors: Seq<Node>) -> Result<
    Seq<char>,
    CompileError,
> {
    if ancestors.len() == 0 {
        match table.name {
            Some(name) => Ok("\n"@ + "return "@ + name + "\n"@),
            None => Err(CompileError::MissingNameError),
        }
    } else {
        Ok(Seq::empty())
    }
}

/// What the first `count` of `members` emit as nested tables and functions below
/// `path`, each after a blank row. Members of other types emit nothing here.
pub open spec fn nested_text(members: Seq<Node>, count: nat, path: Seq<Node>) -> Result<
    Seq<char>,
    CompileError,
>
    decreases members, count,
{
    if 0 < count <= members.len() {
        let member = members[count - 1];
        chain(
            nested_text(members, (count - 1) as nat, path),
            if member.has_type("table"@) {
                chain(Ok("\n"@), table_text(member, path))
            } else if member.has_type("function"@) {
                chain(Ok("\n"@), function_text(member, path))
            } else {
                Ok(Seq::empty())
            },
        )
    } else {
        Ok(Seq::empty())
    }
}

/// What the nested tables and functions of a table emit, the table being the last of
/// `path`.
pub open spec fn members_text(members: Option<Seq<Node>>, path: Seq<Node>) -> Result<
    Seq<char>,
    CompileError,
>
    decreases members,
{
    match members {
        Some(list) => nested_text(list, list.len(), path),
        None => Ok(Seq::empty()),
    }
}

/// The parts of a table in the order of their emission: its class rows, its fields,
/// its declaration, then `nested`, the text of its nested tables and functions, and
/// for the root the `return` row.
#[verifier::opaque]
pub open spec fn table_parts(
    table: Node,
    ancestors: Seq<Node>,
    nested: Result<Seq<char>, CompileError>,
) -> Result<Seq<char>, CompileError> {
    chain(
        chain(
            chain(
                chain(class_text(table), each(Part::Field, table.members)),
                declaration_text(table, ancestors),
            ),
            nested,
        ),
        closing_text(table, ancestors),
    )
}

/// All that is emitted for a table below `ancestors`: its own rows with those of its
/// nested tables and functions between the declaration and the end. A node whose type
/// is present and is not the single `table` is no table: it is rejected with
/// `ParseError` before anything else is looked at.
pub open spec fn table_text(table: Node, ancestors: Seq<Node>) -> Result<Seq<char>, CompileError>
    decreases table,
{
    if !table.fits_table() {
        Err(CompileError::ParseError)
    } else {
        table_parts(table, ancestors, members_text(table.members, ancestors.push(table)))
    }
}

/// How a node is named in a path: by its name, or by `?` where it has none.
pub open spec fn label(node: Node) -> Seq<char> {
    match node.name {
        Some(name) => name,
        None => "?"@,
    }
}

/// The labels of `ancestors` from the root down, each followed by a dot.
pub open spec fn label_prefix(ancestors: Seq<Node>) -> Seq<char>
    decreases ancestors.len(),
{
    if ancestors.len() == 0 {
        Seq::empty()
    } else {
        label_prefix(ancestors.drop_last()) + label(ancestors.last()) + "."@
    }
}

/// The path of `node` below `ancestors`: the labels from the root down to the node,
/// with dots between them.
pub open spec fn path_text(node: Node, ancestors: Seq<Node>) -> Seq<char> {
    label_prefix(ancestors) + label(node)
}

/// The rows of a table that come before those of its nested tables and functions.
pub open spec fn own_rows(table: Node, ancestors: Seq<Node>) -> Result<Seq<char>, CompileError> {
    chain(
        chain(class_text(table), each(Part::Field, table.members)),
        declaration_text(table, ancestors),
    )
}

/// Where the failure of the first `count` of `members` lies: in the first of them
/// that fails. A table that fails tells where in it; a function is the place itself.
pub open spec fn nested_culprit(members: Seq<Node>, count: nat, path: Seq<Node>) -> Seq<char>
    decreases members, count,
{
    if 0 < count <= members.len() {
        let member = members[count - 1];
        if nested_text(members, (count - 1) as nat, path) is Err {
            nested_culprit(members, (count - 1) as nat, path)
        } else if member.has_type("table"@) {
            culprit(member, path)
        } else {
            path_text(member, path)
        }
    } else {
        Seq::empty()
    }
}

/// Where the failure of the nested tables and functions of a table lies.
pub open spec fn members_culprit(members: Option<Seq<Node>>, path: Seq<Node>) -> Seq<char>
    decreases members,
{
    match members {
        Some(list) => nested_culprit(list, list.len(), path),
        None => Seq::empty(),
    }
}

/// Where the failure of a table lies: in the nested table or function that fails,
/// where the node is a table and its own rows before them are emitted; else in the
/// table itself.
pub open spec fn culprit(table: Node, ancestors: Seq<Node>) -> Seq<char>
    decreases table,
{
    if table.fits_table() && own_rows(table, ancestors) is Ok && members_text(
        table.members,
        ancestors.push(table),
    ) is Err {
        members_culprit(table.members, ancestors.push(table))
    } else {
        path_text(table, ancestors)
    }
}

/// Where a failure among the first `count` members lies, there lies the failure of any
/// longer run of them.
pub proof fn lemma_nested_culprit_stays(
    members: Seq<Node>,
    count: nat,
    total: nat,
    path: Seq<Node>,
)
    requires
        count <= total <= members.len(),
        nested_text(members, count, path) is Err,
    ensures
        nested_culprit(members, total, path) == nested_culprit(members, count, path),
    decreases total - count,
{
    if count < total {
        lemma_nested_fails(members, count, (total - 1) as nat, path);
        lemma_nested_culprit_stays(members, count, (total - 1) as nat, path);
    }
}

/// A failure among the first `count` members is the failure of any longer run of them.
pub proof fn lemma_nested_fails(members: Seq<Node>, count: nat, total: nat, path: Seq<Node>)
    requires
        count <= total <= members.len(),
        nested_text(members, count, path) is Err,
    ensures
        nested_text(members, total, path) == nested_text(members, count, path),
    decreases total - count,
{
    if count < total {
        lemma_nested_fails(members, count, (total - 1) as nat, path);
    }
}

/// The namespace that stands in for a document without a single root: a table named
/// `M` that holds the top-level nodes as its members.
pub open spec fn wrapper(top: Seq<Node>) -> Node {
    Node {
        name: Some("M"@),
        desc: None,
        vtype: None,
        members: Some(top),
        examples: None,
        parameters: None,
        returnx: None,
        returns: None,
    }
}

/// The table that a document is emitted as: its only top-level node, else the
/// namespace `M` around all of them.
pub open spec fn root(top: Seq<Node>) -> Node {
    if top.len() == 1 {
        top[0]
    } else {
        wrapper(top)
    }
}

/// The first rows of every output: the header comment and a blank row.
pub open spec fn header_text() -> Seq<char> {
    "-- Generated by atomicptr/defold.nvim"@ + "\n"@ + "\n"@
}

/// The whole output for the top-level nodes `top`.
pub open spec fn document_text(top: Seq<Node>) -> Result<Seq<char>, CompileError> {
    chain(Ok(header_text()), table_text(root(top), Seq::empty()))
}

} // verus!
