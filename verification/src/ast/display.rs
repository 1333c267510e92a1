use crate::ast::expression::{
    CircuitVariableDefinition, Expression, RangeOrExpression, RangeOrExpressionModel,
    UnresolvedExpressionModel, UnresolvedMemberModel, expressions_model, members_model,
    optional_expression_model,
};
use crate::common::{BinaryOperation, IntegerType, UnaryOperation};
use crate::decimal::{decimal, decimal_string};
use vstd::prelude::*;
use vstd::string::StringExecFns;

verus! {

impl IntegerType {
    /// The name of the type as it is written.
    pub open spec fn text(self) -> Seq<char> {
        match self {
            IntegerType::U8 => "u8"@,
            IntegerType::U16 => "u16"@,
            IntegerType::U32 => "u32"@,
            IntegerType::U64 => "u64"@,
            IntegerType::U128 => "u128"@,
            IntegerType::I8 => "i8"@,
            IntegerType::I16 => "i16"@,
            IntegerType::I32 => "i32"@,
            IntegerType::I64 => "i64"@,
            IntegerType::I128 => "i128"@,
        }
    }

    /// The name of the type as it is written.
    pub fn as_str(self) -> (r: &'static str)
        ensures
            r@ == self.text(),
    {
        match self {
            IntegerType::U8 => "u8",
            IntegerType::U16 => "u16",
            IntegerType::U32 => "u32",
            IntegerType::U64 => "u64",
            IntegerType::U128 => "u128",
            IntegerType::I8 => "i8",
            IntegerType::I16 => "i16",
            IntegerType::I32 => "i32",
            IntegerType::I64 => "i64",
            IntegerType::I128 => "i128",
        }
    }
}

impl BinaryOperation {
    /// The operation as it is written between its operands, with a space on either side.
    pub open spec fn text(self) -> Seq<char> {
        match self {
            BinaryOperation::Add => " + "@,
            BinaryOperation::Sub => " - "@,
            BinaryOperation::Mul => " * "@,
            BinaryOperation::Div => " / "@,
            BinaryOperation::Pow => " ** "@,
            BinaryOperation::Or => " || "@,
            BinaryOperation::And => " && "@,
            BinaryOperation::Eq => " == "@,
            BinaryOperation::Ge => " >= "@,
            BinaryOperation::Gt => " > "@,
            BinaryOperation::Le => " <= "@,
            BinaryOperation::Lt => " < "@,
        }
    }

    /// The operation as it is written between its operands, with a space on either side.
    pub fn as_str(self) -> (r: &'static str)
        ensures
            r@ == self.text(),
    {
        match self {
            BinaryOperation::Add => " + ",
            BinaryOperation::Sub => " - ",
            BinaryOperation::Mul => " * ",
            BinaryOperation::Div => " / ",
            BinaryOperation::Pow => " ** ",
            BinaryOperation::Or => " || ",
            BinaryOperation::And => " && ",
            BinaryOperation::Eq => " == ",
            BinaryOperation::Ge => " >= ",
            BinaryOperation::Gt => " > ",
            BinaryOperation::Le => " <= ",
            BinaryOperation::Lt => " < ",
        }
    }
}

impl UnaryOperation {
    /// The operation as it is written before its operand.
    pub open spec fn text(self) -> Seq<char> {
        match self {
            UnaryOperation::Not => "!"@,
            UnaryOperation::Negate => "-"@,
        }
    }

    /// The operation as it is written before its operand.
    pub fn as_str(self) -> (r: &'static str)
        ensures
            r@ == self.text(),
    {
        match self {
            UnaryOperation::Not => "!",
            UnaryOperation::Negate => "-",
        }
    }
}

/// The numbers of a list as they are written, with `, ` between them.
pub open spec fn dimensions_text(dimensions: Seq<usize>) -> Seq<char>
    decreases dimensions.len(),
{
    if dimensions.len() == 0 {
        Seq::empty()
    } else if dimensions.len() == 1 {
        decimal(dimensions[0] as nat)
    } else {
        dimensions_text(dimensions.drop_last()) + ", "@ + decimal(dimensions.last() as nat)
    }
}

/// The expressions of a list as they are written, with `, ` between them.
pub open spec fn expressions_text(expressions: Seq<UnresolvedExpressionModel>) -> Seq<char>
    decreases expressions, 1int,
{
    if expressions.len() == 0 {
        Seq::empty()
    } else if expressions.len() == 1 {
        expressions[0].text()
    } else {
        expressions_text(expressions.drop_last()) + ", "@ + expressions.last().text()
    }
}

/// The members of a list as they are written, each as `name: value`, with `, ` between them.
pub open spec fn members_text(members: Seq<UnresolvedMemberModel>) -> Seq<char>
    decreases members, 1int,
{
    if members.len() == 0 {
        Seq::empty()
    } else if members.len() == 1 {
        members[0].text()
    } else {
        members_text(members.drop_last()) + ", "@ + members.last().text()
    }
}

/// The expression as it is written, or nothing where there is none.
pub open spec fn optional_text(expression: Option<UnresolvedExpressionModel>) -> Seq<char>
    decreases expression, 0int,
{
    match expression {
        Some(expression) => expression.text(),
        None => Seq::empty(),
    }
}

impl UnresolvedMemberModel {
    /// The member as it is written: `name: value`.
    pub open spec fn text(self) -> Seq<char>
        decreases self, 0int,
    {
        self.identifier.name + ": "@ + self.expression.text()
    }
}

impl RangeOrExpressionModel {
    /// The index as it is written; for a range, `from..to` with the ends that are there.
    pub open spec fn text(self) -> Seq<char>
        decreases self, 0int,
    {
        match self {
            RangeOrExpressionModel::Range(from, to) => optional_text(from) + ".."@ + optional_text(
                to,
            ),
            RangeOrExpressionModel::Expression(expression) => expression.text(),
        }
    }
}

impl UnresolvedExpressionModel {
    /// The expression as it is written in the source.
    pub open spec fn text(self) -> Seq<char>
        decreases self, 0int,
    {
        match self {
            UnresolvedExpressionModel::Identifier(identifier) => identifier.name,
            UnresolvedExpressionModel::Address(value, _) => value,
            UnresolvedExpressionModel::Boolean(value, _) => value,
            UnresolvedExpressionModel::Field(value, _) => value,
            UnresolvedExpressionModel::Group(value, _) => value,
            UnresolvedExpressionModel::Implicit(value, _) => value,
            UnresolvedExpressionModel::Integer(integer, value, _) => value + integer.text(),
            UnresolvedExpressionModel::Binary(operation, left, right, _) => left.text()
                + operation.text() + right.text(),
            UnresolvedExpressionModel::Unary(operation, inner, _) => operation.text()
                + inner.text(),
            UnresolvedExpressionModel::IfElse(condition, first, second, _) => "if "@
                + condition.text() + " then "@ + first.text() + " else "@ + second.text()
                + " fi"@,
            UnresolvedExpressionModel::ArrayInline(elements, _) => "["@ + expressions_text(elements)
                + "]"@,
            UnresolvedExpressionModel::ArrayInitializer(element, dimensions, _) => "["@
                + element.text() + "; ("@ + dimensions_text(dimensions) + ")]"@,
            UnresolvedExpressionModel::ArrayAccess(array, index, _) => array.text() + "["@
                + index.text() + "]"@,
            UnresolvedExpressionModel::Tuple(elements, _) => "("@ + expressions_text(elements)
                + ")"@,
            UnresolvedExpressionModel::TupleAccess(tuple, index, _) => tuple.text() + "."@
                + decimal(index as nat),
            UnresolvedExpressionModel::Circuit(name, members, _) => name.name + " {"@
                + members_text(members) + "}"@,
            UnresolvedExpressionModel::CircuitMemberAccess(circuit, member, _) => circuit.text()
                + "."@ + member.name,
            UnresolvedExpressionModel::CircuitStaticFunctionAccess(circuit, member, _) => {
                circuit.text() + "::"@ + member.name
            },
            UnresolvedExpressionModel::FunctionCall(function, arguments, _) => function.text()
                + "("@ + expressions_text(arguments) + ")"@,
            UnresolvedExpressionModel::CoreFunctionCall(name, arguments, _) => name + "("@
                + expressions_text(arguments) + ")"@,
        }
    }
}

/// Writes the numbers of a list with `, ` between them.
pub fn dimensions_to_string(dimensions: &Vec<usize>) -> (r: String)
    ensures
        r@ == dimensions_text(dimensions@),
{
    let mut text = String::new();
    let mut i: usize = 0;
    assert(dimensions@.take(0) =~= Seq::empty());
    while i < dimensions.len()
        invariant
            i <= dimensions.len(),
            text@ == dimensions_text(dimensions@.take(i as int)),
        decreases dimensions.len() - i,
    {
        proof {
            assert(dimensions@.take(i + 1).drop_last() =~= dimensions@.take(i as int));
            assert(dimensions@.take(i + 1).last() == dimensions[i as int]);
            if i == 0 {
                assert(dimensions@.take(1)[0] == dimensions[0]);
                assert(text@ + decimal(dimensions[0] as nat) =~= decimal(dimensions[0] as nat));
            }
        }
        if i > 0 {
            text.append(", ");
        }
        let number = decimal_string(dimensions[i]);
        text.append(number.as_str());
        i += 1;
    }
    assert(dimensions@.take(i as int) =~= dimensions@);
    text
}

/// Writes the expressions of a list with `, ` between them.
pub fn expressions_to_string(expressions: &Vec<Expression>) -> (r: String)
    ensures
        r@ == expressions_text(expressions_model(expressions)),
    decreases expressions, 0int,
{
    let ghost all = expressions_model(expressions);
    let mut text = String::new();
    let mut i: usize = 0;
    assert(all.take(0) =~= Seq::empty());
    while i < expressions.len()
        invariant
            i <= expressions.len(),
            all == expressions_model(expressions),
            text@ == expressions_text(all.take(i as int)),
        decreases expressions.len() - i,
    {
        proof {
            assert(all.take(i + 1).drop_last() =~= all.take(i as int));
            assert(all.take(i + 1).last() == expressions[i as int]@);
            if i == 0 {
                assert(all.take(1)[0] == expressions[0]@);
                assert(text@ + expressions[0]@.text() =~= expressions[0]@.text());
            }
        }
        if i > 0 {
            text.append(", ");
        }
        let expression = expressions[i].to_string();
        text.append(expression.as_str());
        i += 1;
    }
    assert(all.take(i as int) =~= all);
    text
}

/// Writes the members of a list, each as `name: value`, with `, ` between them.
pub fn members_to_string(members: &Vec<CircuitVariableDefinition>) -> (r: String)
    ensures
        r@ == members_text(members_model(members)),
    decreases members, 0int,
{
    let ghost all = members_model(members);
    let mut text = String::new();
    let mut i: usize = 0;
    assert(all.take(0) =~= Seq::empty());
    while i < members.len()
        invariant
            i <= members.len(),
            all == members_model(members),
            text@ == members_text(all.take(i as int)),
        decreases members.len() - i,
    {
        proof {
            assert(all.take(i + 1).drop_last() =~= all.take(i as int));
            assert(all.take(i + 1).last() == members[i as int]@);
            if i == 0 {
                assert(all.take(1)[0] == members[0]@);
                assert(text@ + members[0]@.text() =~= members[0]@.text());
            }
        }
        if i > 0 {
            text.append(", ");
        }
        let member = members[i].to_string();
        text.append(member.as_str());
        i += 1;
    }
    assert(all.take(i as int) =~= all);
    text
}

/// Writes the expression, or nothing where there is none.
pub fn optional_to_string(expression: &Option<Expression>) -> (r: String)
    ensures
        r@ == optional_text(optional_expression_model(expression)),
    decreases expression, 2int,
{
    match expression {
        Some(expression) => expression.to_string(),
        None => String::new(),
    }
}

impl CircuitVariableDefinition {
    /// Writes the member as `name: value`.
    pub fn to_string(&self) -> (r: String)
        ensures
            r@ == self@.text(),
        decreases self, 2int,
    {
        let mut text = self.identifier.name.clone();
        text.append(": ");
        let expression = self.expression.to_string();
        text.append(expression.as_str());
        text
    }
}

impl RangeOrExpression {
    /// Writes the index; for a range, `from..to` with the ends that are there.
    pub fn to_string(&self) -> (r: String)
        ensures
            r@ == self@.text(),
        decreases self, 3int,
    {
        match self {
            RangeOrExpression::Range(from, to) => {
                let mut text = optional_to_string(from);
                text.append("..");
                let end = optional_to_string(to);
                text.append(end.as_str());
                text
            },
            RangeOrExpression::Expression(expression) => expression.to_string(),
        }
    }
}

impl Expression {
    /// Writes the expression as it stands in the source.
    pub fn to_string(&self) -> (r: String)
        ensures
            r@ == self@.text(),
        decreases self, 1int,
    {
        match self {
            // Variables
            Expression::Identifier(variable) => variable.name.clone(),
            // Values
            Expression::Address(address, _) => address.clone(),
            Expression::Boolean(boolean, _) => boolean.clone(),
            Expression::Field(field, _) => field.clone(),
            Expression::Group(group, _) => group.clone(),
            Expression::Implicit(value, _) => value.clone(),
            Expression::Integer(type_, integer, _) => {
                let mut text = integer.clone();
                text.append(type_.as_str());
                text
            },
            // Operations
            Expression::Binary(operation, left, right, _) => {
                let mut text = left.to_string();
                text.append(operation.as_str());
                let right = right.to_string();
                text.append(right.as_str());
                text
            },
            Expression::Unary(operation, inner, _) => {
                let mut text = String::from_str(operation.as_str());
                let inner = inner.to_string();
                text.append(inner.as_str());
                text
            },
            // Conditionals
            Expression::IfElse(condition, first, second, _) => {
                let mut text = String::from_str("if ");
                let condition = condition.to_string();
                text.append(condition.as_str());
                text.append(" then ");
                let first = first.to_string();
                text.append(first.as_str());
                text.append(" else ");
                let second = second.to_string();
                text.append(second.as_str());
                text.append(" fi");
                text
            },
            // Arrays
            Expression::ArrayInline(array, _) => {
                let mut text = String::from_str("[");
                let elements = expressions_to_string(array);
                text.append(elements.as_str());
                text.append("]");
                text
            },
            Expression::ArrayInitializer(element, dimensions, _) => {
                let mut text = String::from_str("[");
                let element = element.to_string();
                text.append(element.as_str());
                text.append("; (");
                let dimensions = dimensions_to_string(dimensions);
                text.append(dimensions.as_str());
                text.append(")]");
                text
            },
            Expression::ArrayAccess(array, index, _) => {
                let mut text = array.to_string();
                text.append("[");
                let index = index.to_string();
                text.append(index.as_str());
                text.append("]");
                text
            },
            // Tuples
            Expression::Tuple(tuple, _) => {
                let mut text = String::from_str("(");
                let values = expressions_to_string(tuple);
                text.append(values.as_str());
                text.append(")");
                text
            },
            Expression::TupleAccess(tuple, index, _) => {
                let mut text = tuple.to_string();
                text.append(".");
                let index = decimal_string(*index);
                text.append(index.as_str());
                text
            },
            // Circuits
            Expression::Circuit(name, members, _) => {
                let mut text = name.name.clone();
                text.append(" {");
                let members = members_to_string(members);
                text.append(members.as_str());
                text.append("}");
                text
            },
            Expression::CircuitMemberAccess(circuit, member, _) => {
                let mut text = circuit.to_string();
                text.append(".");
                text.append(member.name.as_str());
                text
            },
            Expression::CircuitStaticFunctionAccess(circuit, member, _) => {
                let mut text = circuit.to_string();
                text.append("::");
                text.append(member.name.as_str());
                text
            },
            // Function calls
            Expression::FunctionCall(function, arguments, _) => {
                let mut text = function.to_string();
                text.append("(");
                let arguments = expressions_to_string(arguments);
                text.append(arguments.as_str());
                text.append(")");
                text
            },
            Expression::CoreFunctionCall(function, arguments, _) => {
                let mut text = function.clone();
                text.append("(");
                let arguments = expressions_to_string(arguments);
                text.append(arguments.as_str());
                text.append(")");
                text
            },
        }
    }
}

} // verus!
