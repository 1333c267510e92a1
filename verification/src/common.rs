use vstd::prelude::*;

verus! {

/// The place of a node in the source text.
#[derive(Clone, Copy, Debug, PartialEq, Eq, Structural, Hash, Default)]
pub struct Span {
    /// The line that the node stands on.
    pub line: usize,
    /// The column at which the node starts.
    pub start: usize,
    /// The column at which the node ends.
    pub end: usize,
}

/// A name together with the place where it was written.
///
/// Two identifiers are equal when their names are: the span is metadata.
#[derive(Debug)]
pub struct Identifier {
    pub name: String,
    pub span: Span,
}

/// What an [`Identifier`] stands for in contracts.
pub ghost struct IdentifierModel {
    pub name: Seq<char>,
    pub span: Span,
}

impl View for Identifier {
    type V = IdentifierModel;

    open spec fn view(&self) -> IdentifierModel {
        IdentifierModel { name: self.name@, span: self.span }
    }
}

impl Identifier {
    /// An identifier with the given name and span.
    pub fn new(name: String, span: Span) -> (r: Self)
        ensures
            r@ == (IdentifierModel { name: name@, span }),
    {
        Identifier { name, span }
    }
}

impl Clone for Identifier {
    fn clone(&self) -> (r: Self)
        ensures
            r@ == self@,
    {
        Identifier { name: self.name.clone(), span: self.span }
    }
}

impl PartialEq for Identifier {
    fn eq(&self, other: &Self) -> (r: bool) {
        self.name == other.name
    }
}

impl Eq for Identifier {

}

impl vstd::std_specs::cmp::PartialEqSpecImpl for Identifier {
    open spec fn obeys_eq_spec() -> bool {
        true
    }

    open spec fn eq_spec(&self, other: &Self) -> bool {
        self.name@ == other.name@
    }
}

/// The view of an optional identifier.
pub open spec fn optional_identifier_view(id: Option<Identifier>) -> Option<IdentifierModel> {
    match id {
        Some(id) => Some(id@),
        None => None,
    }
}

/// Width and signedness of an integer type.
#[derive(Clone, Copy, Debug, PartialEq, Eq, Structural, Hash)]
pub enum IntegerType {
    U8,
    U16,
    U32,
    U64,
    U128,
    I8,
    I16,
    I32,
    I64,
    I128,
}

/// What is known of a binding besides its type.
#[derive(Clone, Copy, Debug, PartialEq, Eq, Structural, Hash)]
pub enum Attribute {
    Mutable,
    Static,
}

/// The keyword that a definition starts with.
#[derive(Clone, Copy, Debug, PartialEq, Eq, Structural, Hash)]
pub enum Declare {
    Const,
    Let,
}

/// An operation on two operands.
#[derive(Clone, Copy, Debug, PartialEq, Eq, Structural, Hash)]
pub enum BinaryOperation {
    Add,
    Sub,
    Mul,
    Div,
    Pow,
    Or,
    And,
    Eq,
    Ge,
    Gt,
    Le,
    Lt,
}

impl BinaryOperation {
    /// The operation takes two integers of one type and gives an integer of that type.
    pub open spec fn is_arithmetic(self) -> bool {
        self == BinaryOperation::Add || self == BinaryOperation::Sub || self
            == BinaryOperation::Mul || self == BinaryOperation::Div || self
            == BinaryOperation::Pow
    }

    /// The operation takes two booleans and gives a boolean.
    pub open spec fn is_logical(self) -> bool {
        self == BinaryOperation::Or || self == BinaryOperation::And
    }

    /// The operation orders two integers of one type and gives a boolean.
    pub open spec fn is_ordering(self) -> bool {
        self == BinaryOperation::Ge || self == BinaryOperation::Gt || self == BinaryOperation::Le
            || self == BinaryOperation::Lt
    }
}

impl BinaryOperation {
    /// Whether the operation takes two integers of one type and gives an integer of that
    /// type.
    pub fn arithmetic(self) -> (r: bool)
        ensures
            r == self.is_arithmetic(),
    {
        match self {
            BinaryOperation::Add
            | BinaryOperation::Sub
            | BinaryOperation::Mul
            | BinaryOperation::Div
            | BinaryOperation::Pow => true,
            _ => false,
        }
    }

    /// Whether the operation takes two booleans and gives a boolean.
    pub fn logical(self) -> (r: bool)
        ensures
            r == self.is_logical(),
    {
        match self {
            BinaryOperation::Or | BinaryOperation::And => true,
            _ => false,
        }
    }

    /// Whether the operation orders two integers of one type and gives a boolean.
    pub fn ordering(self) -> (r: bool)
        ensures
            r == self.is_ordering(),
    {
        match self {
            BinaryOperation::Ge | BinaryOperation::Gt | BinaryOperation::Le | BinaryOperation::Lt => true,
            _ => false,
        }
    }
}

/// An operation on one operand.
#[derive(Clone, Copy, Debug, PartialEq, Eq, Structural, Hash)]
pub enum UnaryOperation {
    Not,
    Negate,
}

/// Whether `attributes` holds `attribute`.
pub fn has_attribute(attributes: &Vec<Attribute>, attribute: Attribute) -> (r: bool)
    ensures
        r == attributes@.contains(attribute),
{
    let mut i: usize = 0;
    while i < attributes.len()
        invariant
            i <= attributes.len(),
            forall|j: int| 0 <= j < i ==> attributes[j] != attribute,
        decreases attributes.len() - i,
    {
        if attributes[i] == attribute {
            return true;
        }
        i += 1;
    }
    false
}

/// The attributes of a binding that is mutable or not, and nothing else.
pub open spec fn mutable_attributes(mutable: bool) -> Seq<Attribute> {
    if mutable {
        seq![Attribute::Mutable]
    } else {
        Seq::empty()
    }
}

/// The attributes of a member that is static or not, and nothing else.
pub open spec fn static_attributes(is_static: bool) -> Seq<Attribute> {
    if is_static {
        seq![Attribute::Static]
    } else {
        Seq::empty()
    }
}

/// Builds [`mutable_attributes`].
pub fn attributes_of_mutable(mutable: bool) -> (r: Vec<Attribute>)
    ensures
        r@ == mutable_attributes(mutable),
{
    let mut r: Vec<Attribute> = Vec::new();
    if mutable {
        r.push(Attribute::Mutable);
    }
    assert(r@ =~= mutable_attributes(mutable));
    r
}

/// Builds [`static_attributes`].
pub fn attributes_of_static(is_static: bool) -> (r: Vec<Attribute>)
    ensures
        r@ == static_attributes(is_static),
{
    let mut r: Vec<Attribute> = Vec::new();
    if is_static {
        r.push(Attribute::Static);
    }
    assert(r@ =~= static_attributes(is_static));
    r
}

} // verus!
