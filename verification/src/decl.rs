//! Plain description of a type declaration: what the classifier reads.

use vstd::prelude::*;
use vstd::string::StringExecFns;

verus! {

/// A type expression together with the way it is written in source.
#[derive(Debug, PartialEq, Eq)]
pub struct TypeExpr {
    /// The expression as source text; this is what emitted code repeats.
    pub text: String,
    pub shape: TypeShape,
}

/// The structure of a type expression, as far as classification looks at it.
#[derive(Debug, PartialEq, Eq)]
pub enum TypeShape {
    /// A path such as `Vec<String>` or `std::option::Option<u8>`.
    /// `qualified` is set for a path written with a qualified self type,
    /// as in `<T as Trait>::Out`.
    Path { qualified: bool, segments: Vec<PathSegment> },
    /// Any other type expression: a reference, a tuple, an array, ...
    Other,
}

/// One segment of a type path.
#[derive(Debug, PartialEq, Eq)]
pub struct PathSegment {
    pub ident: String,
    pub arguments: PathArguments,
}

/// What follows the identifier of a path segment.
#[derive(Debug, PartialEq, Eq)]
pub enum PathArguments {
    /// Nothing, as in `String`.
    Absent,
    /// Arguments between angle brackets, as in `Vec<String>`.
    AngleBracketed { args: Vec<GenericArgument> },
    /// Arguments between round brackets, as in `Fn(u8) -> bool`.
    Parenthesized,
}

/// One argument between angle brackets.
#[derive(Debug, PartialEq, Eq)]
pub enum GenericArgument {
    /// A type argument.
    Type(TypeExpr),
    /// A lifetime, a constant, a binding or a constraint.
    Other,
}

/// One token of an annotation's argument list.
#[derive(Debug, PartialEq, Eq)]
pub enum Token {
    Ident(String),
    Punct(char),
    /// A literal, by its source text: a string literal includes its quotes.
    Literal(String),
    /// A bracketed group of further tokens.
    Group,
}

/// The arguments of an annotation.
#[derive(Debug, PartialEq, Eq)]
pub enum AnnotationArgs {
    /// A bare path, as in `#[builder]`.
    Absent,
    /// A bracketed token list, as in `#[builder(each = "x")]`.
    List { tokens: Vec<Token> },
    /// A value after `=`, as in `#[builder = "x"]`.
    NameValue,
}

/// A raw annotation of a field.
#[derive(Debug, PartialEq, Eq)]
pub struct Annotation {
    /// Whether the path starts with `::`.
    pub leading_colon: bool,
    /// The identifiers of the path's segments.
    pub path: Vec<String>,
    pub args: AnnotationArgs,
}

/// One field of a declaration. A positional field has no name.
#[derive(Debug, PartialEq, Eq)]
pub struct FieldDescriptor {
    pub name: Option<String>,
    pub ty: TypeExpr,
    pub annotations: Vec<Annotation>,
}

/// What kind of type a declaration declares.
#[derive(Debug, PartialEq, Eq)]
pub enum DeclBody {
    /// A record, with its fields in declaration order.
    Record { fields: Vec<FieldDescriptor> },
    /// A tagged union.
    Enum,
    /// An overlapping-storage composite.
    Union,
}

/// A type declaration: the generator's input.
#[derive(Debug, PartialEq, Eq)]
pub struct TypeDeclaration {
    pub name: String,
    pub body: DeclBody,
}

/// Whether `ty` is written as the bare name `name`.
pub open spec fn is_plain(ty: &TypeExpr, name: Seq<char>) -> bool {
    &&& ty.text@ == name
    &&& ty.shape matches TypeShape::Path { qualified, segments }
    &&& !qualified
    &&& segments@.len() == 1
    &&& segments@[0].ident@ == name
    &&& segments@[0].arguments is Absent
}

/// Whether `ty` is written as `outer<inner>`.
pub open spec fn is_wrapper(ty: &TypeExpr, outer: Seq<char>, inner: TypeExpr) -> bool {
    &&& ty.text@ == outer + "<"@ + inner.text@ + ">"@
    &&& ty.shape matches TypeShape::Path { qualified, segments }
    &&& !qualified
    &&& segments@.len() == 1
    &&& segments@[0].ident@ == outer
    &&& segments@[0].arguments matches PathArguments::AngleBracketed { args }
    &&& args@.len() == 1
    &&& args@[0] == GenericArgument::Type(inner)
}

/// Whether `a` is written as `builder(each = "<element>")`.
pub open spec fn is_each(a: &Annotation, element: Seq<char>) -> bool {
    &&& !a.leading_colon
    &&& a.path@.len() == 1
    &&& a.path@[0]@ == "builder"@
    &&& a.args matches AnnotationArgs::List { tokens }
    &&& tokens@.len() == 3
    &&& tokens@[0] matches Token::Ident(word)
    &&& word@ == "each"@
    &&& tokens@[1] == Token::Punct('=')
    &&& tokens@[2] matches Token::Literal(text)
    &&& text@ == "\""@ + element + "\""@
}

impl TypeExpr {
    /// The type written as the bare name `name`, such as `u8`.
    pub fn plain(name: &str) -> (r: TypeExpr)
        ensures
            is_plain(&r, name@),
    {
        let mut segments: Vec<PathSegment> = Vec::new();
        segments.push(
            PathSegment { ident: String::from_str(name), arguments: PathArguments::Absent },
        );
        TypeExpr {
            text: String::from_str(name),
            shape: TypeShape::Path { qualified: false, segments },
        }
    }

    /// The type written as `outer<inner>`, such as `Vec<String>`.
    pub fn wrapper(outer: &str, inner: TypeExpr) -> (r: TypeExpr)
        ensures
            is_wrapper(&r, outer@, inner),
    {
        let mut text = String::from_str(outer);
        text.append("<");
        text.append(inner.text.as_str());
        text.append(">");
        let mut args: Vec<GenericArgument> = Vec::new();
        args.push(GenericArgument::Type(inner));
        let mut segments: Vec<PathSegment> = Vec::new();
        segments.push(
            PathSegment {
                ident: String::from_str(outer),
                arguments: PathArguments::AngleBracketed { args },
            },
        );
        TypeExpr { text, shape: TypeShape::Path { qualified: false, segments } }
    }
}

impl Annotation {
    /// The annotation written as `builder(each = "<element>")`.
    pub fn each(element: &str) -> (r: Annotation)
        ensures
            is_each(&r, element@),
    {
        let mut literal = String::from_str("\"");
        literal.append(element);
        literal.append("\"");
        let mut tokens: Vec<Token> = Vec::new();
        tokens.push(Token::Ident(String::from_str("each")));
        tokens.push(Token::Punct('='));
        tokens.push(Token::Literal(literal));
        let mut path: Vec<String> = Vec::new();
        path.push(String::from_str("builder"));
        Annotation { leading_colon: false, path, args: AnnotationArgs::List { tokens } }
    }
}

impl FieldDescriptor {
    /// The named field `name: ty` without annotation.
    pub fn named(name: &str, ty: TypeExpr) -> (r: FieldDescriptor)
        ensures
            r.name matches Some(n) && n@ == name@,
            r.ty == ty,
            r.annotations@.len() == 0,
    {
        FieldDescriptor { name: Some(String::from_str(name)), ty, annotations: Vec::new() }
    }

    /// The named field `name: ty` under the annotation
    /// `builder(each = "<element>")`.
    pub fn repeated(name: &str, ty: TypeExpr, element: &str) -> (r: FieldDescriptor)
        ensures
            r.name matches Some(n) && n@ == name@,
            r.ty == ty,
            r.annotations@.len() == 1,
            is_each(&r.annotations@[0], element@),
    {
        let mut annotations: Vec<Annotation> = Vec::new();
        annotations.push(Annotation::each(element));
        FieldDescriptor { name: Some(String::from_str(name)), ty, annotations }
    }
}

/// Whether two texts hold the same characters.
pub fn same_text(a: &String, b: &String) -> (r: bool)
    ensures
        r == (a@ == b@),
{
    *a == *b
}

} // verus!
