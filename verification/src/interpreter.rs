//! The evaluator: a tree walker with scopes of values and of types, and the
//! text it has written. It evaluates integer literals.

use vstd::prelude::*;
use vstd::string::StringExecFns;
use crate::nodes::{Expression, ExpressionView, Type, TypeView};
use crate::scopes::{Scopes, resolve};
use crate::syntax_errors::{SyntaxErrorCollector, SyntaxErrorView};
use crate::values::{Value, ValueData, ValueDataView, ValueView};

verus! {

/// Scopes of values and of types, the innermost last, and the text written
/// so far.
pub struct TreeWalker {
    values: Scopes<Value>,
    types: Scopes<Type>,
    pub output: String,
}

/// A tree walker as a mathematical value: its scopes, the innermost last,
/// and its output.
pub struct TreeWalkerView {
    pub values: Seq<Map<Seq<char>, ValueView>>,
    pub types: Seq<Map<Seq<char>, TypeView>>,
    pub output: Seq<char>,
}

impl View for TreeWalker {
    type V = TreeWalkerView;

    closed spec fn view(&self) -> TreeWalkerView {
        TreeWalkerView { values: self.values@, types: self.types@, output: self.output@ }
    }
}

/// What evaluating `tree` gives: the value of an integer literal, typed as a
/// machine-sized integer; no diagnostics for any other expression; and the
/// diagnostics of a tree that was not parsed.
pub open spec fn evaluate(tree: Result<ExpressionView, Seq<SyntaxErrorView>>) -> Result<
    ValueView,
    Seq<SyntaxErrorView>,
> {
    match tree {
        Ok(ExpressionView::IntLiteral { value }) => Ok(
            ValueView { type_: TypeView::IntSize, value: ValueDataView::IntegerValue(value) },
        ),
        Ok(_) => Err(Seq::empty()),
        Err(errors) => Err(errors),
    }
}

/// A parsed tree or the diagnostics in its place, as a mathematical value.
pub open spec fn tree_view(tree: Result<Expression, SyntaxErrorCollector>) -> Result<
    ExpressionView,
    Seq<SyntaxErrorView>,
> {
    match tree {
        Ok(expression) => Ok(expression@),
        Err(collector) => Err(collector@),
    }
}

/// A value or the diagnostics in its place, as a mathematical value.
pub open spec fn value_view(value: Result<Value, SyntaxErrorCollector>) -> Result<
    ValueView,
    Seq<SyntaxErrorView>,
> {
    match value {
        Ok(found) => Ok(found@),
        Err(collector) => Err(collector@),
    }
}

impl TreeWalker {
    /// A tree walker with no scope open and nothing written.
    pub fn new() -> (walker: TreeWalker)
        ensures
            walker@ == (TreeWalkerView {
                values: Seq::empty(),
                types: Seq::empty(),
                output: Seq::empty(),
            }),
    {
        TreeWalker { values: Scopes::new(), types: Scopes::new(), output: String::new() }
    }

    /// Binds `name` to `value` in the innermost scope. `None`, and no
    /// change, with no scope open.
    pub fn add_value(&mut self, name: String, value: Value) -> (r: Option<()>)
        ensures
            r is Some <==> old(self)@.values.len() > 0,
            final(self)@ == if old(self)@.values.len() > 0 {
                TreeWalkerView {
                    values: old(self)@.values.drop_last().push(
                        old(self)@.values.last().insert(name@, value@),
                    ),
                    ..old(self)@
                }
            } else {
                old(self)@
            },
    {
        self.values.bind(name, value)
    }

    /// The value that `name` stands for: the one that the innermost scope
    /// that binds the name holds.
    pub fn get_value(&mut self, name: String) -> (r: Option<&Value>)
        ensures
            final(self)@ == old(self)@,
            r is Some <==> resolve(old(self)@.values, name@) is Some,
            r matches Some(value) ==> Some(value@) == resolve(old(self)@.values, name@),
    {
        self.values.find(&name)
    }

    /// The value that `name` is bound to in the innermost scope.
    pub fn innermost_value(&self, name: &String) -> (r: Option<&Value>)
        ensures
            r is Some <==> self@.values.len() > 0 && self@.values.last().contains_key(name@),
            r matches Some(value) ==> value@ == self@.values.last()[name@],
    {
        self.values.find_innermost(name)
    }

    /// Binds `name` to `type_` in the innermost scope. `None`, and no
    /// change, with no scope open.
    pub fn add_type(&mut self, name: String, type_: Type) -> (r: Option<()>)
        ensures
            r is Some <==> old(self)@.types.len() > 0,
            final(self)@ == if old(self)@.types.len() > 0 {
                TreeWalkerView {
                    types: old(self)@.types.drop_last().push(
                        old(self)@.types.last().insert(name@, type_@),
                    ),
                    ..old(self)@
                }
            } else {
                old(self)@
            },
    {
        self.types.bind(name, type_)
    }

    /// The type that `name` stands for: the one that the innermost scope
    /// that binds the name holds.
    pub fn get_type(&mut self, name: String) -> (r: Option<&Type>)
        ensures
            final(self)@ == old(self)@,
            r is Some <==> resolve(old(self)@.types, name@) is Some,
            r matches Some(type_) ==> Some(type_@) == resolve(old(self)@.types, name@),
    {
        self.types.find(&name)
    }

    /// The type that `name` is bound to in the innermost scope.
    pub fn innermost_type(&self, name: &String) -> (r: Option<&Type>)
        ensures
            r is Some <==> self@.types.len() > 0 && self@.types.last().contains_key(name@),
            r matches Some(type_) ==> type_@ == self@.types.last()[name@],
    {
        self.types.find_innermost(name)
    }

    /// Opens a scope of values and a scope of types.
    pub fn scope_in(&mut self)
        ensures
            final(self)@ == (TreeWalkerView {
                values: old(self)@.values.push(Map::empty()),
                types: old(self)@.types.push(Map::empty()),
                ..old(self)@
            }),
    {
        self.values.enter();
        self.types.enter();
    }

    /// Closes the innermost scope of values and the innermost scope of
    /// types, each if there is one.
    pub fn scope_out(&mut self)
        ensures
            final(self)@ == (TreeWalkerView {
                values: if old(self)@.values.len() > 0 {
                    old(self)@.values.drop_last()
                } else {
                    old(self)@.values
                },
                types: if old(self)@.types.len() > 0 {
                    old(self)@.types.drop_last()
                } else {
                    old(self)@.types
                },
                ..old(self)@
            }),
    {
        self.values.leave();
        self.types.leave();
    }

    /// Appends `string` to the output.
    pub fn write(&mut self, string: String)
        ensures
            final(self)@ == (TreeWalkerView {
                output: old(self)@.output + string@,
                ..old(self)@
            }),
    {
        self.output.append(string.as_str());
    }

    /// Evaluates `tree`.
    pub fn interpret(&mut self, tree: Result<Expression, SyntaxErrorCollector>) -> (r: Result<
        Value,
        SyntaxErrorCollector,
    >)
        ensures
            final(self)@ == old(self)@,
            value_view(r) == evaluate(tree_view(tree)),
    {
        self.interpret_expression(tree)
    }

    fn interpret_expression(&mut self, tree: Result<Expression, SyntaxErrorCollector>) -> (r:
        Result<Value, SyntaxErrorCollector>)
        ensures
            final(self)@ == old(self)@,
            value_view(r) == evaluate(tree_view(tree)),
    {
        match tree {
            Ok(Expression::IntLiteral { value: x }) => Ok(
                Value::new(Type::IntSize, ValueData::IntegerValue(x)),
            ),
            Ok(_) => Err(SyntaxErrorCollector::new()),
            Err(x) => Err(x),
        }
    }
}

} // verus!
