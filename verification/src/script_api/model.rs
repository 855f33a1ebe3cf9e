//! The schema of a script API description: nodes, their types and their names.

use crate::text::{ends_with, join, str_ends_with, str_eq, str_join, str_strip_suffix,
    strip_suffix, views};
use vstd::prelude::*;

verus! {

/// Why a document could not be compiled.
#[derive(Debug, Clone, Copy, PartialEq, Eq, Structural)]
pub enum CompileError {
    /// The input does not conform to the node schema.
    ParseError,
    /// A node that has to be named has no name.
    MissingNameError,
    /// An internal text-formatting operation failed.
    FormatError,
}

/// What is said of each kind of failure.
pub open spec fn message_text(error: CompileError) -> Seq<char> {
    match error {
        CompileError::ParseError => "the document does not conform to the node schema"@,
        CompileError::MissingNameError => "a node that has to be named has no name"@,
        CompileError::FormatError => "a description could not be wrapped"@,
    }
}

impl CompileError {
    /// A message that says what failed.
    pub fn message(&self) -> (r: String)
        ensures
            r@ == message_text(*self),
    {
        match self {
            CompileError::ParseError => "the document does not conform to the node schema".to_owned(),
            CompileError::MissingNameError => "a node that has to be named has no name".to_owned(),
            CompileError::FormatError => "a description could not be wrapped".to_owned(),
        }
    }
}

/// A failure of a whole document: what failed, and in the rows of which table or
/// function.
#[derive(Debug, Clone, PartialEq, Eq)]
pub struct Failure {
    pub kind: CompileError,
    /// The names from the root down to the table or function in whose rows the
    /// failure lies, with dots between them; `?` stands for a node without a name.
    pub path: String,
}

impl Failure {
    /// A message that names the path and says what failed.
    pub fn message(&self) -> (r: String)
        ensures
            r@ == self.path@ + ": "@ + message_text(self.kind),
    {
        let mut text: String = self.path.clone();
        text.append(": ");
        text.append(self.kind.message().as_str());
        text
    }
}

/// A type designator: one identifier, or an ordered list of them.
#[derive(Debug, Clone)]
pub enum Type {
    Single(String),
    Multiple(Vec<String>),
}

/// The mathematical value of a [`Type`].
pub enum TypeView {
    Single(Seq<char>),
    Multiple(Seq<Seq<char>>),
}

/// One documented element: a table, function, field, parameter, return value or example.
#[derive(Debug)]
pub struct Value {
    pub name: Option<String>,
    pub desc: Option<String>,
    pub vtype: Option<Type>,
    pub members: Option<Vec<Value>>,
    pub examples: Option<Vec<Value>>,
    pub parameters: Option<Vec<Value>>,
    pub returnx: Option<Box<Value>>,
    pub returns: Option<Vec<Value>>,
}

/// The mathematical value of a [`Value`]: the same tree over sequences.
pub struct Node {
    pub name: Option<Seq<char>>,
    pub desc: Option<Seq<char>>,
    pub vtype: Option<TypeView>,
    pub members: Option<Seq<Node>>,
    pub examples: Option<Seq<Node>>,
    pub parameters: Option<Seq<Node>>,
    pub returnx: Option<Box<Node>>,
    pub returns: Option<Seq<Node>>,
}

impl View for Type {
    type V = TypeView;

    open spec fn view(&self) -> TypeView {
        match self {
            Type::Single(s) => TypeView::Single(s@),
            Type::Multiple(items) => TypeView::Multiple(views(items@)),
        }
    }
}

/// The view of an optional string.
pub open spec fn text_view(s: Option<String>) -> Option<Seq<char>> {
    match s {
        Some(s) => Some(s@),
        None => None,
    }
}

/// The view of an optional type.
pub open spec fn type_view(t: Option<Type>) -> Option<TypeView> {
    match t {
        Some(t) => Some(t@),
        None => None,
    }
}

/// The views of the first `count` of a node's children.
pub open spec fn children_view(children: Seq<Value>, count: nat) -> Seq<Node>
    decreases children, count,
{
    if 0 < count <= children.len() {
        children_view(children, (count - 1) as nat).push(children[count - 1].view())
    } else {
        Seq::empty()
    }
}

/// The views of a node's optional list of children.
pub open spec fn optional_children_view(children: Option<Vec<Value>>) -> Option<Seq<Node>>
    decreases children,
{
    match children {
        Some(v) => Some(children_view(v@, v@.len())),
        None => None,
    }
}

impl View for Value {
    type V = Node;

    open spec fn view(&self) -> Node
        decreases self,
    {
        Node {
            name: text_view(self.name),
            desc: text_view(self.desc),
            vtype: type_view(self.vtype),
            members: optional_children_view(self.members),
            examples: optional_children_view(self.examples),
            parameters: optional_children_view(self.parameters),
            returnx: match self.returnx {
                Some(b) => Some(Box::new((*b).view())),
                None => None,
            },
            returns: optional_children_view(self.returns),
        }
    }
}

/// The views of a list of nodes.
pub open spec fn nodes(values: Seq<Value>) -> Seq<Node> {
    Seq::new(values.len(), |i: int| values[i]@)
}

/// The views of an optional list of nodes.
pub open spec fn model_children(children: Option<Vec<Value>>) -> Option<Seq<Node>> {
    match children {
        Some(v) => Some(nodes(v@)),
        None => None,
    }
}

/// The views of a list of borrowed nodes.
pub open spec fn ref_nodes(values: Seq<&Value>) -> Seq<Node> {
    Seq::new(values.len(), |i: int| values[i]@)
}

/// The views of the first `count` children are the first `count` of their views.
pub proof fn lemma_children_view(children: Seq<Value>, count: nat)
    requires
        count <= children.len(),
    ensures
        children_view(children, count) == nodes(children).take(count as int),
    decreases count,
{
    if count > 0 {
        lemma_children_view(children, (count - 1) as nat);
        assert(nodes(children).take(count as int) == nodes(children).take(count - 1).push(
            children[count - 1]@,
        ));
    } else {
        assert(nodes(children).take(0) == Seq::<Node>::empty());
    }
}

/// The view of an optional list of children is the list of the children's views.
pub proof fn lemma_optional_children_view(children: Option<Vec<Value>>)
    ensures
        children matches Some(v) ==> optional_children_view(children) == Some(nodes(v@)),
        children is None ==> optional_children_view(children) is None,
{
    if let Some(v) = children {
        lemma_children_view(v@, v@.len());
        assert(nodes(v@).take(v@.len() as int) == nodes(v@));
    }
}

/// How the view of a node follows from its fields.
pub proof fn lemma_view(value: &Value)
    ensures
        value@.name == text_view(value.name),
        value@.desc == text_view(value.desc),
        value@.vtype == type_view(value.vtype),
        value.members matches Some(v) ==> value@.members == Some(nodes(v@)),
        value.members is None ==> value@.members is None,
        value.examples matches Some(v) ==> value@.examples == Some(nodes(v@)),
        value.examples is None ==> value@.examples is None,
        value.parameters matches Some(v) ==> value@.parameters == Some(nodes(v@)),
        value.parameters is None ==> value@.parameters is None,
        value.returns matches Some(v) ==> value@.returns == Some(nodes(v@)),
        value.returns is None ==> value@.returns is None,
        value.returnx matches Some(b) ==> value@.returnx == Some(Box::new((*b)@)),
        value.returnx is None ==> value@.returnx is None,
{
    lemma_optional_children_view(value.members);
    lemma_optional_children_view(value.examples);
    lemma_optional_children_view(value.parameters);
    lemma_optional_children_view(value.returns);
}

/// The view of the outcome of building a string.
pub open spec fn result_view(r: Result<String, CompileError>) -> Result<Seq<char>, CompileError> {
    match r {
        Ok(s) => Ok(s@),
        Err(e) => Err(e),
    }
}

impl TypeView {
    /// How the type is written in an annotation: a single identifier as itself, a list
    /// in square brackets with `", "` between its items.
    pub open spec fn rendered(self) -> Seq<char> {
        match self {
            TypeView::Single(s) => s,
            TypeView::Multiple(items) => "["@ + join(items, ", "@) + "]"@,
        }
    }

    /// Whether the type is the single identifier `t`.
    pub open spec fn is_single(self, t: Seq<char>) -> bool {
        match self {
            TypeView::Single(s) => s == t,
            TypeView::Multiple(_) => false,
        }
    }
}

/// The names of `ancestors` from the root down, each followed by a dot.
pub open spec fn path_prefix(ancestors: Seq<Node>) -> Result<Seq<char>, CompileError>
    decreases ancestors.len(),
{
    if ancestors.len() == 0 {
        Ok(Seq::empty())
    } else {
        match (path_prefix(ancestors.drop_last()), ancestors.last().name) {
            (Ok(prefix), Some(name)) => Ok(prefix + name + "."@),
            (Err(e), _) => Err(e),
            (Ok(_), None) => Err(CompileError::MissingNameError),
        }
    }
}

impl Node {
    /// A node is a field when its type is a list, or a single identifier other than
    /// `function` and `table`.
    pub open spec fn is_field(self) -> bool {
        match self.vtype {
            Some(TypeView::Single(s)) => s != "function"@ && s != "table"@,
            Some(TypeView::Multiple(_)) => true,
            None => false,
        }
    }

    /// Whether the node can stand as a table: its type is absent, or is the single
    /// identifier `table`.
    pub open spec fn fits_table(self) -> bool {
        match self.vtype {
            Some(ty) => ty.is_single("table"@),
            None => true,
        }
    }

    /// Whether the node's type is the single identifier `t`.
    pub open spec fn has_type(self, t: Seq<char>) -> bool {
        match self.vtype {
            Some(ty) => ty.is_single(t),
            None => false,
        }
    }

    /// Whether the node's name carries the `[optional]` mark at its end.
    pub open spec fn is_optional(self) -> bool {
        match self.name {
            Some(name) => ends_with(name, "[optional]"@),
            None => false,
        }
    }

    /// The name without the `[optional]` mark at its end, where it has one. The mark is
    /// taken off once: of a name that ends with two marks, the first stays.
    pub open spec fn display_name(self) -> Result<Seq<char>, CompileError> {
        match self.name {
            Some(name) => Ok(strip_suffix(name, "[optional]"@)),
            None => Err(CompileError::MissingNameError),
        }
    }

    /// The type as annotated on a parameter: `|nil` follows the type of an optional one.
    pub open spec fn annotation(self) -> Result<Seq<char>, CompileError> {
        match self.vtype {
            Some(ty) => Ok(
                ty.rendered() + if self.is_optional() {
                    "|nil"@
                } else {
                    Seq::empty()
                },
            ),
            None => Err(CompileError::ParseError),
        }
    }

    /// The dot-joined path from the root through `ancestors` to this node's own name.
    pub open spec fn qualified(self, ancestors: Seq<Node>) -> Result<Seq<char>, CompileError> {
        match (path_prefix(ancestors), self.name) {
            (Ok(prefix), Some(name)) => Ok(prefix + name),
            (Err(e), _) => Err(e),
            (Ok(_), None) => Err(CompileError::MissingNameError),
        }
    }
}

impl Type {
    /// The type as it is written in an annotation.
    pub fn render(&self) -> (r: String)
        ensures
            r@ == self@.rendered(),
    {
        match self {
            Type::Single(s) => s.clone(),
            Type::Multiple(items) => {
                let mut out: String = "[".to_owned();
                let inner: String = str_join(items, ", ");
                out.append(inner.as_str());
                out.append("]");
                out
            },
        }
    }

    /// Whether the type is the single identifier `t`.
    pub fn is_single(&self, t: &str) -> (r: bool)
        ensures
            r == self@.is_single(t@),
    {
        match self {
            Type::Single(s) => str_eq(s.as_str(), t),
            Type::Multiple(_) => false,
        }
    }
}

impl Default for Value {
    fn default() -> (r: Value)
        ensures
            r.name is None,
            r.desc is None,
            r.vtype is None,
            r.members is None,
            r.examples is None,
            r.parameters is None,
            r.returnx is None,
            r.returns is None,
    {
        Value {
            name: None,
            desc: None,
            vtype: None,
            members: None,
            examples: None,
            parameters: None,
            returnx: None,
            returns: None,
        }
    }
}

impl Value {
    /// Whether the node is a field: typed by a list, or by a single identifier other
    /// than `function` and `table`.
    pub fn is_field(&self) -> (r: bool)
        ensures
            r == self@.is_field(),
    {
        match &self.vtype {
            Some(Type::Single(s)) => !str_eq(s.as_str(), "function") && !str_eq(
                s.as_str(),
                "table",
            ),
            Some(Type::Multiple(_)) => true,
            None => false,
        }
    }

    /// The qualified name of this node below `parents`, listed from the root down.
    /// Fails exactly when this node or one of `parents` has no name.
    pub fn fully_qualified_name(&self, parents: &Vec<&Value>) -> (r: Result<
        String,
        CompileError,
    >)
        ensures
            result_view(r) == self@.qualified(ref_nodes(parents@)),
            r is Err <==> self.name is None || exists|i: int|
                0 <= i < parents@.len() && (#[trigger] parents@[i]).name is None,
            r matches Err(e) ==> e == CompileError::MissingNameError,
    {
        let mut fqn: String = String::new();
        let mut i: usize = 0;
        while i < parents.len()
            invariant
                i <= parents.len(),
                path_prefix(ref_nodes(parents@).take(i as int)) == Ok::<
                    Seq<char>,
                    CompileError,
                >(fqn@),
                forall|j: int| 0 <= j < i ==> (#[trigger] parents@[j]).name is Some,
            decreases parents.len() - i,
        {
            let ghost before = ref_nodes(parents@).take(i as int);
            let ghost after = ref_nodes(parents@).take(i as int + 1);
            assert(after.drop_last() == before);
            assert(after.last() == parents@[i as int]@);
            match &parents[i].name {
                Some(name) => {
                    fqn.append(name.as_str());
                    fqn.append(".");
                },
                None => {
                    proof {
                        lemma_path_prefix_fails(ref_nodes(parents@), i as int + 1);
                    }
                    return Err(CompileError::MissingNameError);
                },
            }
            i = i + 1;
        }
        assert(ref_nodes(parents@).take(parents@.len() as int) == ref_nodes(parents@));
        match &self.name {
            Some(name) => {
                fqn.append(name.as_str());
                Ok(fqn)
            },
            None => Err(CompileError::MissingNameError),
        }
    }

    /// The parameter's name without the `[optional]` mark at its end, taken off once.
    pub fn param_name(&self) -> (r: Result<String, CompileError>)
        ensures
            result_view(r) == self@.display_name(),
    {
        match &self.name {
            Some(name) => Ok(str_strip_suffix(name.as_str(), "[optional]")),
            None => Err(CompileError::MissingNameError),
        }
    }

    /// The parameter's type as annotated, `|nil` added for an optional parameter.
    pub fn param_type(&self) -> (r: Result<String, CompileError>)
        ensures
            result_view(r) == self@.annotation(),
    {
        match &self.vtype {
            Some(ty) => {
                let mut out: String = ty.render();
                if self.is_optional() {
                    out.append("|nil");
                }
                Ok(out)
            },
            None => Err(CompileError::ParseError),
        }
    }

    /// Whether the node's name ends with the `[optional]` mark. A node without a name
    /// is not optional.
    pub fn is_optional(&self) -> (r: bool)
        ensures
            r == self@.is_optional(),
    {
        match &self.name {
            Some(name) => str_ends_with(name.as_str(), "[optional]"),
            None => false,
        }
    }
}

/// Once a prefix of the ancestors fails to give a path, every longer one fails the same way.
pub proof fn lemma_path_prefix_fails(ancestors: Seq<Node>, count: int)
    requires
        0 <= count <= ancestors.len(),
        path_prefix(ancestors.take(count)) is Err,
    ensures
        path_prefix(ancestors) == path_prefix(ancestors.take(count)),
    decreases ancestors.len() - count,
{
    if count < ancestors.len() {
        assert(ancestors.take(count + 1).drop_last() == ancestors.take(count));
        lemma_path_prefix_fails(ancestors, count + 1);
    } else {
        assert(ancestors.take(count) == ancestors);
    }
}

} // verus!
