//! Laws of the compiler, stated over the texts that the emitters are specified by.

use crate::script_api::texts::{annotated, chain, class_text, closing_text, comment_lines,
    declaration_text, description_text, document_text, each, example_text, examples_text,
    field_text, function_text, header_text, heading_text, indented_lines, lemma_nested_fails,
    members_text, nested_text, part_texts, root, signature_text, single_return_text, table_parts,
    table_text, with_description, wrapper, Part, COMMENT_WRAP, EXAMPLE_INDENT, LINE_WRAP};
use crate::script_api::model::{path_prefix, CompileError, Node, TypeView};
use crate::script_api::wrap::{budget_of, columns, first_budget, first_word, is_plain, split,
    well_wrapped};
use crate::text::{has_whitespace, is_printable, is_word_of, lemma_line_is_a_word, words_within};
use crate::text::{join, trim_end_matches, words};
use vstd::prelude::*;

verus! {

/// A document that is one named table without members compiles to the header, a blank
/// row, the table's description row if it has a description, its `---@class` row, its
/// `local` declaration, a blank row and its `return` row, and to nothing else.
pub proof fn law_single_table_without_members(table: Node)
    requires
        table.name is Some,
        table.vtype is None || table.vtype == Some(TypeView::Single("table"@)),
        table.members is None || table.members->0.len() == 0,
    ensures
        document_text(seq![table]) == Ok::<Seq<char>, CompileError>(
            header_text() + heading_text(table.desc) + "---@class "@ + table.name->0 + "\n"@
                + "local "@ + table.name->0 + " = {}"@ + "\n"@ + "\n"@ + "return "@
                + table.name->0 + "\n"@,
        ),
{
    let name = table.name->0;
    let none = Seq::<Node>::empty();
    let nothing = Seq::<char>::empty();
    assert(seq![table][0] == table);
    assert(root(seq![table]) == table);
    let class = heading_text(table.desc) + "---@class "@ + name + "\n"@;
    let declaration = "local "@ + name + " = {}"@ + "\n"@;
    let closing = "\n"@ + "return "@ + name + "\n"@;
    assert(class_text(table) == Ok::<Seq<char>, CompileError>(class)) by {
        assert(heading_text(table.desc) + "---@class "@ + name + "\n"@ == class);
    }
    assert(each(Part::Field, table.members) == Ok::<Seq<char>, CompileError>(nothing)) by {
        if table.members is Some {
            assert(part_texts(Part::Field, table.members->0).len() == 0);
        }
    }
    assert(members_text(table.members, none.push(table)) == Ok::<Seq<char>, CompileError>(
        nothing,
    ));
    assert(declaration_text(table, none) == Ok::<Seq<char>, CompileError>(declaration));
    assert(closing_text(table, none) == Ok::<Seq<char>, CompileError>(closing));
    lemma_table_of_parts(table, none, class, nothing, declaration, nothing, closing);
    assert(class + nothing + declaration + nothing + closing == class + declaration + closing);
    assert(header_text() + (class + declaration + closing) == header_text() + heading_text(
        table.desc,
    ) + "---@class "@ + name + "\n"@ + "local "@ + name + " = {}"@ + "\n"@ + "\n"@ + "return "@
        + name + "\n"@);
}

/// A table whose parts are emitted is emitted as these parts in their order.
proof fn lemma_table_of_parts(
    table: Node,
    ancestors: Seq<Node>,
    class: Seq<char>,
    fields: Seq<char>,
    declaration: Seq<char>,
    nested: Seq<char>,
    closing: Seq<char>,
)
    requires
        table.fits_table(),
        class_text(table) == Ok::<Seq<char>, CompileError>(class),
        each(Part::Field, table.members) == Ok::<Seq<char>, CompileError>(fields),
        declaration_text(table, ancestors) == Ok::<Seq<char>, CompileError>(declaration),
        members_text(table.members, ancestors.push(table)) == Ok::<Seq<char>, CompileError>(
            nested,
        ),
        closing_text(table, ancestors) == Ok::<Seq<char>, CompileError>(closing),
    ensures
        table_text(table, ancestors) == Ok::<Seq<char>, CompileError>(
            class + fields + declaration + nested + closing,
        ),
{
    reveal(table_parts);
}

/// A document of two or more top-level nodes is emitted as the table `M` that holds
/// them: the root is declared by `local M = {}` and closed by `return M`, and a named
/// top-level table is declared below it by `M.<name> = {}`.
pub proof fn law_namespace_of_many(top: Seq<Node>, i: int)
    requires
        top.len() >= 2,
        0 <= i < top.len(),
        top[i].name is Some,
    ensures
        document_text(top) == chain(
            Ok(header_text()),
            table_parts(
                wrapper(top),
                Seq::empty(),
                nested_text(top, top.len(), seq![wrapper(top)]),
            ),
        ),
        declaration_text(wrapper(top), Seq::empty()) == Ok::<Seq<char>, CompileError>(
            "local "@ + "M"@ + " = {}"@ + "\n"@,
        ),
        closing_text(wrapper(top), Seq::empty()) == Ok::<Seq<char>, CompileError>(
            "\n"@ + "return "@ + "M"@ + "\n"@,
        ),
        declaration_text(top[i], seq![wrapper(top)]) == Ok::<Seq<char>, CompileError>(
            "M"@ + "."@ + top[i].name->0 + " = {}"@ + "\n"@,
        ),
{
    let path = seq![wrapper(top)];
    assert(Seq::<Node>::empty().push(wrapper(top)) == path);
    assert(path.drop_last() == Seq::<Node>::empty());
    assert(path.last() == wrapper(top));
    assert(path_prefix(path) == Ok::<Seq<char>, CompileError>("M"@ + "."@)) by {
        assert(Seq::<char>::empty() + "M"@ + "."@ == "M"@ + "."@);
    }
}

/// The same top-level nodes always compile to the same text or the same failure.
pub proof fn law_deterministic(first: Seq<Node>, second: Seq<Node>)
    requires
        first == second,
    ensures
        document_text(first) == document_text(second),
{
}

/// The first line of a wrapped description shares its row with a prefix: the columns
/// of the prefix and the budget of that line together make the line width, and the
/// budget is none where the prefix alone fills the row.
pub proof fn law_first_line_budget(line_width: nat, cutoff: nat)
    ensures
        cutoff <= line_width ==> cutoff + first_budget(line_width, cutoff) == line_width,
        cutoff > line_width ==> first_budget(line_width, cutoff) == 0,
{
}

/// No line of a wrapped description takes more columns than its row has left, `cutoff`
/// fewer on the first row, but a line that is one word: a word is never split, so one
/// that is longer than the budget stands alone on its line.
pub proof fn law_wrapped_lines_fit(text: Seq<char>, line_width: nat, cutoff: nat, index: int)
    requires
        split(text, line_width, cutoff) is Some,
        0 <= index < split(text, line_width, cutoff)->0.len(),
    ensures
        ({
            let line = split(text, line_width, cutoff)->0[index];
            columns(line) <= budget_of(index, line_width, cutoff) || !has_whitespace(line)
        }),
{
}

/// No line of a wrapped description of printable text has more characters than its
/// row has left, `cutoff` fewer on the first row, but a line that is one word. Text is
/// printable when it holds whitespace and printable characters of the ASCII set only;
/// of other characters the columns are not the count.
pub proof fn law_printable_lines_fit_in_characters(
    text: Seq<char>,
    line_width: nat,
    cutoff: nat,
    index: int,
)
    requires
        is_printable(text),
        split(text, line_width, cutoff) is Some,
        0 <= index < split(text, line_width, cutoff)->0.len(),
    ensures
        ({
            let line = split(text, line_width, cutoff)->0[index];
            line.len() <= budget_of(index, line_width, cutoff) || !has_whitespace(line)
        }),
{
}

/// Each line of a plain description, but the last, holds as many words as fit: the
/// first word of the line after it, set behind it with a space, would take it over its
/// budget. A description is plain when single spaces, and nothing else, set its words
/// apart; any other keeps line breaks or runs of spaces of its own.
pub proof fn law_plain_descriptions_fill_their_lines(
    text: Seq<char>,
    line_width: nat,
    cutoff: nat,
    index: int,
)
    requires
        is_plain(text),
        split(text, line_width, cutoff) is Some,
        0 <= index < split(text, line_width, cutoff)->0.len() - 1,
    ensures
        ({
            let lines = split(text, line_width, cutoff)->0;
            columns(lines[index]) + 1 + columns(first_word(lines[index + 1])) > budget_of(
                index,
                line_width,
                cutoff,
            )
        }),
{
    let lines = split(text, line_width, cutoff)->0;
    assert(crate::script_api::wrap::filled_at(lines, index, line_width, cutoff));
}

/// The lines of a plain description, put together again with single spaces, are the
/// description itself, but for spaces at its end.
pub proof fn law_plain_descriptions_reassemble(text: Seq<char>, line_width: nat, cutoff: nat)
    requires
        is_plain(text),
        split(text, line_width, cutoff) is Some,
    ensures
        join(split(text, line_width, cutoff)->0, " "@) == trim_end_matches(text, " "@),
{
}

/// The lines of a wrapped description, put together again with single spaces, have
/// the words of the description, in the same order: nothing but whitespace is lost or
/// added by wrapping.
pub proof fn law_wrapped_lines_keep_the_words(text: Seq<char>, line_width: nat, cutoff: nat)
    requires
        split(text, line_width, cutoff) is Some,
    ensures
        words(join(split(text, line_width, cutoff)->0, " "@)) == words(text),
{
}

/// Whatever is emitted for a description is a wrapping of it. Behind the prefix of a
/// field, a parameter or a return value stand the lines of the description wrapped
/// with the length of the prefix as the cutoff; the description of a function gives a
/// comment line for each of its lines wrapped without cutoff; an example gives a row
/// for each of its lines wrapped with the example indent as the cutoff.
pub proof fn law_emitted_descriptions_are_wrapped(
    bare: Seq<char>,
    prefix: Seq<char>,
    desc: Seq<char>,
    width: nat,
    spaced: bool,
    example: Node,
)
    ensures
        with_description(bare, prefix, Some(desc), width, spaced) matches Ok(text) ==> {
            let lines = split(desc, width, prefix.len())->0;
            &&& text == annotated(prefix, lines, spaced)
            &&& well_wrapped(desc, lines, width, prefix.len())
        },
        description_text(Some(desc)) matches Ok(text) ==> {
            let lines = split(desc, COMMENT_WRAP as nat, 0)->0;
            &&& text == comment_lines(lines, true)
            &&& well_wrapped(desc, lines, COMMENT_WRAP as nat, 0)
        },
        example.desc == Some(desc) ==> (example_text(example) matches Ok(text) ==> {
            let lines = split(desc, LINE_WRAP as nat, EXAMPLE_INDENT as nat)->0;
            &&& text == indented_lines(lines)
            &&& well_wrapped(desc, lines, LINE_WRAP as nat, EXAMPLE_INDENT as nat)
        }),
{
}

/// A node whose type is present and is not the single `table` is rejected as a table,
/// whatever else holds of it, and so is the document of which it is the only node.
pub proof fn law_other_types_are_no_tables(table: Node, ancestors: Seq<Node>)
    requires
        table.vtype is Some,
        !table.vtype->0.is_single("table"@),
    ensures
        table_text(table, ancestors) == Err::<Seq<char>, CompileError>(CompileError::ParseError),
        document_text(seq![table]) == Err::<Seq<char>, CompileError>(CompileError::ParseError),
{
    assert(seq![table][0] == table);
}

/// The shape of every table's output: its class rows, the rows of its fields, its
/// declaration, the rows of its nested tables and functions, and its end, in this
/// order and nothing else. It is emitted exactly where each of these parts is.
pub proof fn law_table_shape(table: Node, ancestors: Seq<Node>)
    requires
        table.fits_table(),
    ensures
        table_text(table, ancestors) == chain(
            chain(
                chain(
                    chain(class_text(table), each(Part::Field, table.members)),
                    declaration_text(table, ancestors),
                ),
                members_text(table.members, ancestors.push(table)),
            ),
            closing_text(table, ancestors),
        ),
        table_text(table, ancestors) matches Ok(text) ==> {
            &&& class_text(table) matches Ok(class)
            &&& each(Part::Field, table.members) matches Ok(fields)
            &&& declaration_text(table, ancestors) matches Ok(declaration)
            &&& members_text(table.members, ancestors.push(table)) matches Ok(nested)
            &&& closing_text(table, ancestors) matches Ok(closing)
            &&& text == class + fields + declaration + nested + closing
        },
{
    reveal(table_parts);
}

/// The shape of every function's output: its description, its examples, the rows of
/// its parameters, of its single return value and of its listed return values, and
/// its declaration row, in this order and nothing else.
pub proof fn law_function_shape(function: Node, ancestors: Seq<Node>)
    ensures
        function_text(function, ancestors) matches Ok(text) ==> {
            &&& crate::script_api::texts::description_text(function.desc) matches Ok(description)
            &&& examples_text(function.examples) matches Ok(examples)
            &&& each(Part::Parameter, function.parameters) matches Ok(parameters)
            &&& single_return_text(function.returnx) matches Ok(single)
            &&& each(Part::Return, function.returns) matches Ok(listed)
            &&& signature_text(function, ancestors) matches Ok(signature)
            &&& text == description + examples + parameters + single + listed + signature
        },
{
    reveal(function_text);
}

/// The rows of a document of several top-level nodes: behind the header the class row
/// of `M`, the rows of the top-level fields, the one row `local M = {}`, the rows of
/// the top-level tables and functions, and at the end a blank row and `return M`.
pub proof fn law_namespace_rows(top: Seq<Node>)
    requires
        top.len() != 1,
    ensures
        document_text(top) matches Ok(text) ==> {
            &&& each(Part::Field, Some(top)) matches Ok(fields)
            &&& nested_text(top, top.len(), seq![wrapper(top)]) matches Ok(nested)
            &&& text == header_text() + ("---@class "@ + "M"@ + "\n"@) + fields + ("local "@
                + "M"@ + " = {}"@ + "\n"@) + nested + ("\n"@ + "return "@ + "M"@ + "\n"@)
        },
{
    let none = Seq::<Node>::empty();
    law_table_shape(wrapper(top), none);
    assert(none.push(wrapper(top)) == seq![wrapper(top)]);
    if document_text(top) is Ok {
        let fields = each(Part::Field, Some(top))->Ok_0;
        let nested = nested_text(top, top.len(), seq![wrapper(top)])->Ok_0;
        let class = "---@class "@ + "M"@ + "\n"@;
        let declaration = "local "@ + "M"@ + " = {}"@ + "\n"@;
        let closing = "\n"@ + "return "@ + "M"@ + "\n"@;
        assert(class_text(wrapper(top)) == Ok::<Seq<char>, CompileError>(class)) by {
            assert(Seq::<char>::empty() + "---@class "@ + "M"@ + "\n"@ == class);
        }
        assert(header_text() + (class + fields + declaration + nested + closing)
            == header_text() + class + fields + declaration + nested + closing);
    }
}

/// The rows of nested tables and functions stand in the order of the members: what
/// the first `index` members emit comes first, then a blank row and the rows of the
/// member at `index` where it is a table or a function, and all of this before what
/// later members emit.
pub proof fn law_nested_rows_in_order(members: Seq<Node>, count: nat, path: Seq<Node>, index: nat)
    requires
        index < count <= members.len(),
        nested_text(members, count, path) is Ok,
    ensures
        nested_text(members, index, path) matches Ok(before) ==> {
            &&& nested_text(members, (index + 1) as nat, path) matches Ok(with)
            &&& nested_text(members, count, path) matches Ok(all)
            &&& with.is_prefix_of(all)
            &&& members[index as int].has_type("table"@) ==> (table_text(
                members[index as int],
                path,
            ) matches Ok(rows) && with == before + "\n"@ + rows)
            &&& !members[index as int].has_type("table"@) && members[index as int].has_type(
                "function"@,
            ) ==> (function_text(members[index as int], path) matches Ok(rows) && with == before
                + "\n"@ + rows)
            &&& !members[index as int].has_type("table"@) && !members[index as int].has_type(
                "function"@,
            ) ==> with == before
        },
        nested_text(members, index, path) is Ok,
    decreases count - index,
{
    if nested_text(members, index, path) is Err {
        lemma_nested_fails(members, index, count, path);
    }
    if nested_text(members, (index + 1) as nat, path) is Err {
        lemma_nested_fails(members, (index + 1) as nat, count, path);
    }
    let before = nested_text(members, index, path)->Ok_0;
    let with = nested_text(members, (index + 1) as nat, path)->Ok_0;
    let all = nested_text(members, count, path)->Ok_0;
    if index + 1 < count {
        law_nested_rows_in_order(members, count, path, index + 1);
        let next = nested_text(members, (index + 2) as nat, path)->Ok_0;
        assert(with.is_prefix_of(next));
        assert(next.is_prefix_of(all));
    }
    let member = members[index as int];
    if member.has_type("table"@) {
        let rows = table_text(member, path)->Ok_0;
        assert(with == before + ("\n"@ + rows));
        assert(before + ("\n"@ + rows) == before + "\n"@ + rows);
    } else if member.has_type("function"@) {
        let rows = function_text(member, path)->Ok_0;
        assert(with == before + ("\n"@ + rows));
        assert(before + ("\n"@ + rows) == before + "\n"@ + rows);
    } else {
        assert(before + Seq::<char>::empty() == before);
    }
    assert(before.is_prefix_of(with));
}

/// A line of a wrapped description that holds no whitespace and is not empty is a
/// word of the description, whole and unchanged; where it is the first line, it is
/// the first word.
pub proof fn law_lines_without_whitespace_are_words(
    text: Seq<char>,
    line_width: nat,
    cutoff: nat,
    index: int,
)
    requires
        split(text, line_width, cutoff) is Some,
        0 <= index < split(text, line_width, cutoff)->0.len(),
        split(text, line_width, cutoff)->0[index].len() > 0,
        !has_whitespace(split(text, line_width, cutoff)->0[index]),
    ensures
        is_word_of(split(text, line_width, cutoff)->0[index], text),
        index == 0 ==> words(text).len() > 0 && words(text)[0] == split(
            text,
            line_width,
            cutoff,
        )->0[0],
{
    let lines = split(text, line_width, cutoff)->0;
    lemma_line_is_a_word(lines, index);
    let at = words(join(lines.take(index), " "@)).len() as int;
    assert(words(text)[at] == lines[index]);
    if index == 0 {
        assert(lines.take(0) == Seq::<Seq<char>>::empty());
        assert(join(lines.take(0), " "@) == Seq::<char>::empty());
    }
}

/// Each line of a wrapped description of printable text has no more characters than
/// its row has left, or is a word of the description that is longer than that, whole
/// and alone on its line. The first line has no more characters than the first row
/// has left behind the cutoff, or is the first word of the description.
pub proof fn law_printable_lines_are_short_or_words(
    text: Seq<char>,
    line_width: nat,
    cutoff: nat,
    index: int,
)
    requires
        is_printable(text),
        split(text, line_width, cutoff) is Some,
        0 <= index < split(text, line_width, cutoff)->0.len(),
    ensures
        ({
            let line = split(text, line_width, cutoff)->0[index];
            let budget = budget_of(index, line_width, cutoff);
            &&& line.len() <= budget || (is_word_of(line, text) && !has_whitespace(line))
            &&& index == 0 ==> line.len() <= first_budget(line_width, cutoff) || (words(
                text,
            ).len() > 0 && words(text)[0] == line)
        }),
{
    let line = split(text, line_width, cutoff)->0[index];
    law_printable_lines_fit_in_characters(text, line_width, cutoff, index);
    if line.len() > budget_of(index, line_width, cutoff) {
        law_lines_without_whitespace_are_words(text, line_width, cutoff, index);
    }
}

/// The rows of a field with a description: behind the prefix stands the first line of
/// the wrapped description, and each further line stands behind `---` on a row of
/// its own. The lines have the words of the description. Where the description is
/// printable, each line has no more characters than its row has left, so that no row
/// is longer than the line width behind the marker, or is a word of the description
/// alone on its line.
pub proof fn law_field_rows(field: Node, desc: Seq<char>)
    requires
        field.desc == Some(desc),
        field_text(field) is Ok,
    ensures
        ({
            let prefix = "---@field public "@ + field.name->0 + " "@ + field.vtype->0.rendered()
                + " "@;
            let width = COMMENT_WRAP as nat;
            let lines = split(desc, width, prefix.len())->0;
            &&& split(desc, width, prefix.len()) is Some
            &&& field_text(field) == Ok::<Seq<char>, CompileError>(
                annotated(prefix, lines, false),
            )
            &&& words(join(lines, " "@)) == words(desc)
            &&& is_printable(desc) ==> forall|i: int|
                0 <= i < lines.len() ==> (#[trigger] lines[i]).len() <= budget_of(
                    i,
                    width,
                    prefix.len(),
                ) || is_word_of(lines[i], desc)
            &&& prefix.len() <= width && lines.len() > 0 && lines[0].len() <= budget_of(
                0,
                width,
                prefix.len(),
            ) ==> (prefix + lines[0]).len() <= width
        }),
{
    let prefix = "---@field public "@ + field.name->0 + " "@ + field.vtype->0.rendered() + " "@;
    let width = COMMENT_WRAP as nat;
    let lines = split(desc, width, prefix.len())->0;
    if is_printable(desc) {
        assert forall|i: int| 0 <= i < lines.len() implies (#[trigger] lines[i]).len()
            <= budget_of(i, width, prefix.len()) || is_word_of(lines[i], desc) by {
            law_printable_lines_are_short_or_words(desc, width, prefix.len(), i);
        }
    }
}

/// Each line of a wrapped description is one row: it holds no line break.
pub proof fn law_wrapped_lines_are_rows(text: Seq<char>, line_width: nat, cutoff: nat, index: int)
    requires
        split(text, line_width, cutoff) is Some,
        0 <= index < split(text, line_width, cutoff)->0.len(),
    ensures
        !split(text, line_width, cutoff)->0[index].contains('\n'),
{
    let lines = split(text, line_width, cutoff)->0;
    assert(crate::script_api::wrap::lines_unbroken(lines));
}

/// Where no word of a printable description is longer than the first row has left,
/// no line of its wrapping has more characters than its row has left.
pub proof fn law_short_words_keep_lines_short(
    text: Seq<char>,
    line_width: nat,
    cutoff: nat,
    index: int,
)
    requires
        is_printable(text),
        words_within(text, first_budget(line_width, cutoff)),
        split(text, line_width, cutoff) is Some,
        0 <= index < split(text, line_width, cutoff)->0.len(),
    ensures
        split(text, line_width, cutoff)->0[index].len() <= budget_of(index, line_width, cutoff),
{
    let line = split(text, line_width, cutoff)->0[index];
    law_printable_lines_are_short_or_words(text, line_width, cutoff, index);
    if line.len() > budget_of(index, line_width, cutoff) {
        let k = choose|k: int| 0 <= k < words(text).len() && #[trigger] words(text)[k] == line;
        assert(words(text)[k].len() <= first_budget(line_width, cutoff));
    }
}

/// The rows of a field whose description is printable and has no word longer than the
/// first row has left behind the prefix: the first row is the prefix and the first
/// line and has no more characters than the line width; each further line has no more
/// characters than the line width behind its marker.
pub proof fn law_field_rows_fit(field: Node, desc: Seq<char>)
    requires
        field.desc == Some(desc),
        field_text(field) is Ok,
        is_printable(desc),
        ("---@field public "@ + field.name->0 + " "@ + field.vtype->0.rendered() + " "@).len()
            <= COMMENT_WRAP,
        words_within(
            desc,
            first_budget(
                COMMENT_WRAP as nat,
                ("---@field public "@ + field.name->0 + " "@ + field.vtype->0.rendered()
                    + " "@).len(),
            ),
        ),
    ensures
        ({
            let prefix = "---@field public "@ + field.name->0 + " "@ + field.vtype->0.rendered()
                + " "@;
            let lines = split(desc, COMMENT_WRAP as nat, prefix.len())->0;
            &&& field_text(field) == Ok::<Seq<char>, CompileError>(
                annotated(prefix, lines, false),
            )
            &&& lines.len() > 0 ==> (prefix + lines[0]).len() <= COMMENT_WRAP
            &&& forall|i: int| 0 < i < lines.len() ==> (#[trigger] lines[i]).len() <= COMMENT_WRAP
        }),
{
    let prefix = "---@field public "@ + field.name->0 + " "@ + field.vtype->0.rendered() + " "@;
    let width = COMMENT_WRAP as nat;
    let lines = split(desc, width, prefix.len())->0;
    if lines.len() > 0 {
        law_short_words_keep_lines_short(desc, width, prefix.len(), 0);
    }
    assert forall|i: int| 0 < i < lines.len() implies (#[trigger] lines[i]).len()
        <= COMMENT_WRAP by {
        law_short_words_keep_lines_short(desc, width, prefix.len(), i);
    }
}

} // verus!
