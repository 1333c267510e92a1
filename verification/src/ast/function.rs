use crate::ast::statement::{Statement, UnresolvedStatementModel, statements_model};
use crate::ast::types::{Type, UnresolvedTypeModel, optional_type_model};
use crate::common::{Identifier, IdentifierModel, Span, optional_identifier_view};
use vstd::prelude::*;

verus! {

/// An input of a function as it is written: a name, whether it is mutable, and its type.
#[derive(Debug, PartialEq, Eq)]
pub struct FunctionInputVariable {
    pub identifier: Identifier,
    pub mutable: bool,
    pub type_: Type,
    pub span: Span,
}

/// What a [`FunctionInputVariable`] stands for in contracts.
pub ghost struct UnresolvedInputVariableModel {
    pub identifier: IdentifierModel,
    pub mutable: bool,
    pub type_: UnresolvedTypeModel,
    pub span: Span,
}

impl View for FunctionInputVariable {
    type V = UnresolvedInputVariableModel;

    open spec fn view(&self) -> UnresolvedInputVariableModel {
        UnresolvedInputVariableModel {
            identifier: self.identifier@,
            mutable: self.mutable,
            type_: self.type_@,
            span: self.span,
        }
    }
}

/// An input of a function: the `input` keyword, or a variable.
#[derive(Debug, PartialEq, Eq)]
pub enum FunctionInput {
    InputKeyword(Identifier),
    Variable(FunctionInputVariable),
}

/// What a [`FunctionInput`] stands for in contracts.
pub ghost enum UnresolvedInputModel {
    InputKeyword(IdentifierModel),
    Variable(UnresolvedInputVariableModel),
}

impl View for FunctionInput {
    type V = UnresolvedInputModel;

    open spec fn view(&self) -> UnresolvedInputModel {
        match self {
            FunctionInput::InputKeyword(identifier) => UnresolvedInputModel::InputKeyword(
                identifier@,
            ),
            FunctionInput::Variable(variable) => UnresolvedInputModel::Variable(variable@),
        }
    }
}

/// The view of every input of a list.
pub open spec fn inputs_view(inputs: Seq<FunctionInput>) -> Seq<UnresolvedInputModel> {
    inputs.map_values(|input: FunctionInput| input@)
}

/// A function as it is written in the source.
#[derive(Debug, PartialEq, Eq)]
pub struct Function {
    pub identifier: Identifier,
    pub input: Vec<FunctionInput>,
    pub returns: Option<Type>,
    pub statements: Vec<Statement>,
    pub span: Span,
}

/// What a written [`Function`] stands for in contracts.
pub ghost struct UnresolvedFunctionModel {
    pub identifier: IdentifierModel,
    pub input: Seq<UnresolvedInputModel>,
    pub returns: Option<UnresolvedTypeModel>,
    pub statements: Seq<UnresolvedStatementModel>,
    pub span: Span,
}

impl View for Function {
    type V = UnresolvedFunctionModel;

    open spec fn view(&self) -> UnresolvedFunctionModel {
        UnresolvedFunctionModel {
            identifier: self.identifier@,
            input: inputs_view(self.input@),
            returns: optional_type_model(&self.returns),
            statements: statements_model(&self.statements),
            span: self.span,
        }
    }
}

/// The view of every function of a list.
pub open spec fn functions_view(functions: Seq<Function>) -> Seq<UnresolvedFunctionModel> {
    functions.map_values(|function: Function| function@)
}

/// A test function as it is written in the source.
#[derive(Debug, PartialEq, Eq)]
pub struct TestFunction {
    pub function: Function,
    pub input_file: Option<Identifier>,
}

/// What a written [`TestFunction`] stands for in contracts.
pub ghost struct UnresolvedTestFunctionModel {
    pub function: UnresolvedFunctionModel,
    pub input_file: Option<IdentifierModel>,
}

impl View for TestFunction {
    type V = UnresolvedTestFunctionModel;

    open spec fn view(&self) -> UnresolvedTestFunctionModel {
        UnresolvedTestFunctionModel {
            function: self.function@,
            input_file: optional_identifier_view(self.input_file),
        }
    }
}

/// The view of every test function of a list.
pub open spec fn tests_view(tests: Seq<TestFunction>) -> Seq<UnresolvedTestFunctionModel> {
    tests.map_values(|test: TestFunction| test@)
}

} // verus!
