//! The values of the evaluator: integers, booleans, `null`, functions with
//! the scope they were made in, and the two sentinels that cut evaluation
//! short, `Return` and `Error`.

use vstd::prelude::*;
use vstd::string::*;
use crate::ast::{
    block_statement_view, clone_opt_identifier, clone_typed_identifiers, spec_opt_identifier,
    typed_identifiers_view, BlockStatement, BlockStatementView, Identifier, IdentifierView,
    TypedIdentifier, TypedIdentifierView,
};
use crate::diagnostics::{
    RuntimeError, RuntimeErrorCodeView, RuntimeErrorView,
};
use crate::printer::{
    block_text, typed_identifiers_text, typed_identifiers_to_string,
};
use crate::text::{
    push_char, signed_decimal, spec_signed_decimal,
};

verus! {

/// The integer types that a value can have.
#[derive(Debug, Clone, Copy, PartialEq, Eq, Structural)]
pub enum IntegerType {
    I8,
    I16,
    I32,
    I64,
    I128,
    ISize,
    IMin,
    IMax,
    U8,
    U16,
    U32,
    U64,
    U128,
    USize,
    UMin,
    UMax,
}

/// The type of a value.
#[derive(Debug, Clone, Copy, PartialEq, Eq, Structural)]
pub enum ObjectType {
    Boolean,
    Integer(IntegerType),
    Return,
    Function,
    Error,
    Null,
}

impl IntegerType {
    /// The name of the type.
    pub open spec fn spec_text(self) -> Seq<char> {
        match self {
            IntegerType::I8 => "i8"@,
            IntegerType::I16 => "i16"@,
            IntegerType::I32 => "i32"@,
            IntegerType::I64 => "i64"@,
            IntegerType::I128 => "i128"@,
            IntegerType::ISize => "isize"@,
            IntegerType::IMin => "imin"@,
            IntegerType::IMax => "imax"@,
            IntegerType::U8 => "u8"@,
            IntegerType::U16 => "u16"@,
            IntegerType::U32 => "u32"@,
            IntegerType::U64 => "u64"@,
            IntegerType::U128 => "u128"@,
            IntegerType::USize => "usize"@,
            IntegerType::UMin => "umin"@,
            IntegerType::UMax => "umax"@,
        }
    }

    /// The name of the type.
    pub fn to_string(&self) -> (s: String)
        ensures
            s@ == self.spec_text(),
    {
        match self {
            IntegerType::I8 => String::from_str("i8"),
            IntegerType::I16 => String::from_str("i16"),
            IntegerType::I32 => String::from_str("i32"),
            IntegerType::I64 => String::from_str("i64"),
            IntegerType::I128 => String::from_str("i128"),
            IntegerType::ISize => String::from_str("isize"),
            IntegerType::IMin => String::from_str("imin"),
            IntegerType::IMax => String::from_str("imax"),
            IntegerType::U8 => String::from_str("u8"),
            IntegerType::U16 => String::from_str("u16"),
            IntegerType::U32 => String::from_str("u32"),
            IntegerType::U64 => String::from_str("u64"),
            IntegerType::U128 => String::from_str("u128"),
            IntegerType::USize => String::from_str("usize"),
            IntegerType::UMin => String::from_str("umin"),
            IntegerType::UMax => String::from_str("umax"),
        }
    }
}

impl ObjectType {
    /// The name of the type.
    pub open spec fn spec_text(self) -> Seq<char> {
        match self {
            ObjectType::Boolean => "boolean"@,
            ObjectType::Return => "return"@,
            ObjectType::Error => "error"@,
            ObjectType::Function => "function"@,
            ObjectType::Null => "null"@,
            ObjectType::Integer(i) => i.spec_text(),
        }
    }

    /// The name of the type.
    pub fn to_string(&self) -> (s: String)
        ensures
            s@ == self.spec_text(),
    {
        match self {
            ObjectType::Boolean => String::from_str("boolean"),
            ObjectType::Return => String::from_str("return"),
            ObjectType::Error => String::from_str("error"),
            ObjectType::Function => String::from_str("function"),
            ObjectType::Null => String::from_str("null"),
            ObjectType::Integer(i) => i.to_string(),
        }
    }
}

/// A 64-bit signed integer.
#[derive(Debug, Clone, Copy, PartialEq, Eq, Structural)]
pub struct Integer {
    pub value: i64,
}

/// A boolean.
#[derive(Debug, Clone, Copy, PartialEq, Eq, Structural)]
pub struct Boolean {
    pub value: bool,
}

/// The value `null`.
#[derive(Debug, Clone, Copy, PartialEq, Eq, Structural)]
pub struct Null {}

/// The sentinel that a `return` leaves behind: it cuts the evaluation of
/// the enclosing blocks short until a call or the program unwraps it.
#[derive(Debug)]
pub struct Return {
    pub value: Option<Box<Object>>,
}

/// A function with the scope it was made in: `env` is the index of that
/// scope in the environment.
#[derive(Debug)]
pub struct Function {
    pub parameters: Vec<TypedIdentifier>,
    pub body: BlockStatement,
    pub return_type: Option<Identifier>,
    pub env: usize,
}

/// The sentinel of a runtime error: it cuts all evaluation short.
#[derive(Debug)]
pub struct Error {
    pub err: RuntimeError,
}

/// A string.
#[derive(Debug)]
pub struct StringObj {
    pub content: String,
}

/// A value.
#[derive(Debug)]
pub enum Object {
    Integer(Integer),
    Boolean(Boolean),
    Null(Null),
    Return(Return),
    Function(Function),
    Error(Error),
}

/// What an [`Object`] is, as plain values.
pub enum ObjectView {
    Integer(i64),
    Boolean(bool),
    Null,
    Return(Option<Box<ObjectView>>),
    Function {
        parameters: Seq<TypedIdentifierView>,
        body: BlockStatementView,
        return_type: Option<IdentifierView>,
        env: nat,
    },
    Error(RuntimeErrorView),
}

/// The view of a value.
pub open spec fn object_view(o: Object) -> ObjectView
    decreases o,
{
    match o {
        Object::Integer(i) => ObjectView::Integer(i.value),
        Object::Boolean(b) => ObjectView::Boolean(b.value),
        Object::Null(_) => ObjectView::Null,
        Object::Return(r) => ObjectView::Return(
            match r.value {
                Some(inner) => Some(Box::new(object_view(*inner))),
                None => None,
            },
        ),
        Object::Function(f) => ObjectView::Function {
            parameters: typed_identifiers_view(f.parameters@),
            body: block_statement_view(f.body),
            return_type: spec_opt_identifier(f.return_type),
            env: f.env as nat,
        },
        Object::Error(e) => ObjectView::Error(e.err@),
    }
}

impl View for Object {
    type V = ObjectView;

    open spec fn view(&self) -> ObjectView {
        object_view(*self)
    }
}

impl View for Return {
    type V = ObjectView;

    open spec fn view(&self) -> ObjectView {
        object_view(Object::Return(*self))
    }
}

impl View for Function {
    type V = ObjectView;

    open spec fn view(&self) -> ObjectView {
        object_view(Object::Function(*self))
    }
}

impl View for Error {
    type V = ObjectView;

    open spec fn view(&self) -> ObjectView {
        object_view(Object::Error(*self))
    }
}

/// The views of the values, in order.
pub open spec fn objects_view(v: Seq<Object>) -> Seq<ObjectView> {
    Seq::new(v.len(), |i: int| v[i]@)
}

/// Appending a value appends its view.
pub proof fn lemma_objects_view_push(v: Seq<Object>, o: Object)
    ensures
        objects_view(v.push(o)) == objects_view(v).push(o@),
{
    assert(objects_view(v.push(o)) =~= objects_view(v).push(o@));
}

/// The plain message of a runtime error.
pub open spec fn runtime_error_message(code: RuntimeErrorCodeView) -> Seq<char> {
    match code {
        RuntimeErrorCodeView::IdentifierNotFound { identifier, .. } => "Identifier '"@ + identifier
            + "' not found"@,
        RuntimeErrorCodeView::DivisionByZero { operation } => "Division by zero: "@ + operation,
        RuntimeErrorCodeView::InvalidOperation { operation, .. } => "Invalid operation: "@
            + operation,
        RuntimeErrorCodeView::TypeMismatch { expected_type, actual_type } => {
            "Type mismatch: Expected "@ + expected_type + " but got "@ + actual_type
        },
        RuntimeErrorCodeView::FunctionNotFound { function_name, .. } => "Function '"@
            + function_name + "' not found"@,
        RuntimeErrorCodeView::IndexOutOfRange { index, collection } => "Index "@
            + spec_signed_decimal(index as int) + " is out of range for "@ + collection,
        RuntimeErrorCodeView::UnknownInfixOperator { operator, .. } => "Unknown infix operator: "@
            + operator,
        RuntimeErrorCodeView::OverflowError => {
            "Overflow: a result or the nesting of calls is past its limit"@
        },
    }
}

/// The text of a value: the numeral of an integer, `true`, `false`, `null`,
/// `return` with the text of what is returned, the source text of a
/// function, and the plain message of an error.
pub open spec fn object_text(o: ObjectView) -> Seq<char>
    decreases o,
{
    match o {
        ObjectView::Integer(value) => spec_signed_decimal(value as int),
        ObjectView::Boolean(value) => if value {
            "true"@
        } else {
            "false"@
        },
        ObjectView::Null => "null"@,
        ObjectView::Return(value) => match value {
            Some(inner) => "return "@ + object_text(*inner),
            None => "return"@,
        },
        ObjectView::Function { parameters, body, return_type, .. } => "fn ("@
            + typed_identifiers_text(parameters) + ")"@ + (match return_type {
            Some(r) => " -> "@ + r.token.literal + " "@,
            None => Seq::empty(),
        }) + block_text(body),
        ObjectView::Error(e) => runtime_error_message(e.code),
    }
}

/// The type of a value.
pub open spec fn object_type(o: ObjectView) -> ObjectType {
    match o {
        ObjectView::Integer(_) => ObjectType::Integer(IntegerType::I64),
        ObjectView::Boolean(_) => ObjectType::Boolean,
        ObjectView::Null => ObjectType::Null,
        ObjectView::Return(_) => ObjectType::Return,
        ObjectView::Function { .. } => ObjectType::Function,
        ObjectView::Error(_) => ObjectType::Error,
    }
}

impl RuntimeError {
    /// The plain message of the error.
    pub fn message(&self) -> (s: String)
        ensures
            s@ == runtime_error_message(self@.code),
    {
        match &self.code {
            crate::diagnostics::RuntimeErrorCode::IdentifierNotFound { identifier, .. } => {
                let mut s = String::from_str("Identifier '");
                s.append(identifier.as_str());
                s.append("' not found");
                s
            },
            crate::diagnostics::RuntimeErrorCode::DivisionByZero { operation } => {
                let mut s = String::from_str("Division by zero: ");
                s.append(operation.as_str());
                s
            },
            crate::diagnostics::RuntimeErrorCode::InvalidOperation { operation, .. } => {
                let mut s = String::from_str("Invalid operation: ");
                s.append(operation.as_str());
                s
            },
            crate::diagnostics::RuntimeErrorCode::TypeMismatch { expected_type, actual_type } => {
                let mut s = String::from_str("Type mismatch: Expected ");
                s.append(expected_type.as_str());
                s.append(" but got ");
                s.append(actual_type.as_str());
                s
            },
            crate::diagnostics::RuntimeErrorCode::FunctionNotFound { function_name, .. } => {
                let mut s = String::from_str("Function '");
                s.append(function_name.as_str());
                s.append("' not found");
                s
            },
            crate::diagnostics::RuntimeErrorCode::IndexOutOfRange { index, collection } => {
                let mut s = String::from_str("Index ");
                let numeral = signed_decimal(*index);
                s.append(numeral.as_str());
                s.append(" is out of range for ");
                s.append(collection.as_str());
                s
            },
            crate::diagnostics::RuntimeErrorCode::UnknownInfixOperator { operator, .. } => {
                let mut s = String::from_str("Unknown infix operator: ");
                s.append(operator.as_str());
                s
            },
            crate::diagnostics::RuntimeErrorCode::OverflowError => String::from_str(
                "Overflow: a result or the nesting of calls is past its limit",
            ),
        }
    }
}

impl Integer {
    pub fn new(value: i64) -> (r: Self)
        ensures
            r.value == value,
    {
        Integer { value }
    }

    pub fn t(&self) -> (r: ObjectType)
        ensures
            r == ObjectType::Integer(IntegerType::I64),
    {
        ObjectType::Integer(IntegerType::I64)
    }

    /// The decimal numeral of the value.
    pub fn to_string(&self) -> (s: String)
        ensures
            s@ == spec_signed_decimal(self.value as int),
    {
        signed_decimal(self.value)
    }

    /// The decimal numeral of the value.
    pub fn inspect(&self) -> (s: String)
        ensures
            s@ == spec_signed_decimal(self.value as int),
    {
        self.to_string()
    }
}

impl Boolean {
    pub fn new(value: bool) -> (r: Self)
        ensures
            r.value == value,
    {
        Boolean { value }
    }

    pub fn t(&self) -> (r: ObjectType)
        ensures
            r == ObjectType::Boolean,
    {
        ObjectType::Boolean
    }

    /// `true` or `false`.
    pub fn to_string(&self) -> (s: String)
        ensures
            s@ == if self.value {
                "true"@
            } else {
                "false"@
            },
    {
        if self.value {
            String::from_str("true")
        } else {
            String::from_str("false")
        }
    }

    /// `true` or `false`.
    pub fn inspect(&self) -> (s: String)
        ensures
            s@ == if self.value {
                "true"@
            } else {
                "false"@
            },
    {
        self.to_string()
    }
}

impl Null {
    pub fn new() -> (r: Self)
        ensures
            r == (Null {  }),
    {
        Null {  }
    }

    pub fn t(&self) -> (r: ObjectType)
        ensures
            r == ObjectType::Null,
    {
        ObjectType::Null
    }

    /// `null`.
    pub fn to_string(&self) -> (s: String)
        ensures
            s@ == "null"@,
    {
        String::from_str("null")
    }

    /// `null`.
    pub fn inspect(&self) -> (s: String)
        ensures
            s@ == "null"@,
    {
        self.to_string()
    }
}

impl StringObj {
    pub fn new(content: &str) -> (r: Self)
        ensures
            r.content@ == content@,
    {
        StringObj { content: String::from_str(content) }
    }

    /// The content between double quotes.
    pub fn to_string(&self) -> (s: String)
        ensures
            s@ == seq!['"'] + self.content@ + seq!['"'],
    {
        let mut s = String::new();
        push_char(&mut s, '"');
        s.append(self.content.as_str());
        push_char(&mut s, '"');
        assert(s@ =~= seq!['"'] + self.content@ + seq!['"']);
        s
    }

    /// The content between double quotes.
    pub fn inspect(&self) -> (s: String)
        ensures
            s@ == seq!['"'] + self.content@ + seq!['"'],
    {
        self.to_string()
    }
}

impl Return {
    pub fn new(value: Option<Object>) -> (r: Self)
        ensures
            r@ == ObjectView::Return(
                match value {
                    Some(inner) => Some(Box::new(inner@)),
                    None => None,
                },
            ),
    {
        match value {
            Some(inner) => Return { value: Some(Box::new(inner)) },
            None => Return { value: None },
        }
    }

    pub fn t(&self) -> (r: ObjectType)
        ensures
            r == object_type(self@),
    {
        ObjectType::Return
    }

    /// `return`, with the text of the value where there is one.
    pub fn to_string(&self) -> (s: String)
        ensures
            s@ == object_text(self@),
        decreases self,
    {
        match &self.value {
            Some(inner) => {
                let mut s = String::from_str("return ");
                let text = Object::to_string(inner);
                s.append(text.as_str());
                s
            },
            None => String::from_str("return"),
        }
    }

    /// The same as `to_string`.
    pub fn inspect(&self) -> (s: String)
        ensures
            s@ == object_text(self@),
    {
        self.to_string()
    }
}

impl Function {
    pub fn new(
        parameters: Vec<TypedIdentifier>,
        body: BlockStatement,
        return_type: Option<Identifier>,
        env: usize,
    ) -> (r: Self)
        ensures
            r@ == (ObjectView::Function {
                parameters: typed_identifiers_view(parameters@),
                body: body@,
                return_type: spec_opt_identifier(return_type),
                env: env as nat,
            }),
    {
        Function { parameters, body, return_type, env }
    }

    pub fn t(&self) -> (r: ObjectType)
        ensures
            r == object_type(self@),
    {
        ObjectType::Function
    }

    /// `fn`, the parameters in parentheses, the return type where there is
    /// one, and the body.
    pub fn to_string(&self) -> (s: String)
        ensures
            s@ == object_text(self@),
    {
        let mut s = String::from_str("fn (");
        let parameters = typed_identifiers_to_string(&self.parameters);
        s.append(parameters.as_str());
        s.append(")");
        match &self.return_type {
            Some(return_type) => {
                s.append(" -> ");
                s.append(return_type.token.literal.as_str());
                s.append(" ");
            },
            None => {},
        }
        let body = self.body.to_string();
        s.append(body.as_str());
        proof {
            let ret = match spec_opt_identifier(self.return_type) {
                Some(r) => " -> "@ + r.token.literal + " "@,
                None => Seq::empty(),
            };
            assert(s@ =~= "fn ("@ + typed_identifiers_text(typed_identifiers_view(self.parameters@))
                + ")"@ + ret + block_text(self.body@));
        }
        s
    }

    /// The same as `to_string`.
    pub fn inspect(&self) -> (s: String)
        ensures
            s@ == object_text(self@),
    {
        self.to_string()
    }
}

impl Error {
    pub fn new(err: RuntimeError) -> (r: Self)
        ensures
            r@ == ObjectView::Error(err@),
    {
        Error { err }
    }

    pub fn t(&self) -> (r: ObjectType)
        ensures
            r == object_type(self@),
    {
        ObjectType::Error
    }

    /// The plain message of the error.
    pub fn inspect(&self) -> (s: String)
        ensures
            s@ == object_text(self@),
    {
        self.err.message()
    }
}

impl Object {
    /// The type of the value.
    pub fn t(&self) -> (r: ObjectType)
        ensures
            r == object_type(self@),
    {
        match self {
            Object::Integer(_) => ObjectType::Integer(IntegerType::I64),
            Object::Boolean(_) => ObjectType::Boolean,
            Object::Null(_) => ObjectType::Null,
            Object::Return(_) => ObjectType::Return,
            Object::Function(_) => ObjectType::Function,
            Object::Error(_) => ObjectType::Error,
        }
    }

    /// The text of the value; for an error its plain message.
    pub fn to_string(&self) -> (s: String)
        ensures
            s@ == object_text(self@),
        decreases self,
    {
        match self {
            Object::Integer(i) => i.to_string(),
            Object::Boolean(b) => b.to_string(),
            Object::Null(n) => n.to_string(),
            Object::Return(r) => Return::to_string(r),
            Object::Function(f) => f.to_string(),
            Object::Error(e) => e.inspect(),
        }
    }

    /// The same as `to_string`.
    pub fn inspect(&self) -> (s: String)
        ensures
            s@ == object_text(self@),
    {
        self.to_string()
    }
}

impl Clone for Object {
    fn clone(&self) -> (r: Self)
        ensures
            r@ == self@,
        decreases self,
    {
        match self {
            Object::Integer(i) => Object::Integer(*i),
            Object::Boolean(b) => Object::Boolean(*b),
            Object::Null(n) => Object::Null(*n),
            Object::Return(r) => {
                let value = match &r.value {
                    Some(inner) => Some(Box::new(Object::clone(inner))),
                    None => None,
                };
                Object::Return(Return { value })
            },
            Object::Function(f) => Object::Function(
                Function {
                    parameters: clone_typed_identifiers(&f.parameters),
                    body: f.body.clone(),
                    return_type: clone_opt_identifier(&f.return_type),
                    env: f.env,
                },
            ),
            Object::Error(e) => Object::Error(Error { err: e.err.clone() }),
        }
    }
}

} // verus!
