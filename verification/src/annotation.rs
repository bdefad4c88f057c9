//! The annotation grammar `builder(each = "<name>")`.

use vstd::prelude::*;
use vstd::string::StringExecFns;
use vstd::string::StrSliceExecFns;
use crate::decl::{Annotation, AnnotationArgs, Token, same_text};
use crate::diag::{FieldError, FieldErrorView, Part, malformed_each, not_builder,
    make_malformed_each, make_not_builder};

verus! {

/// How many quote characters `s` starts with.
pub open spec fn leading_quotes(s: Seq<char>) -> nat
    decreases s.len(),
{
    if s.len() > 0 && s[0] == '"' {
        1 + leading_quotes(s.drop_first())
    } else {
        0
    }
}

/// How many quote characters `s` ends with.
pub open spec fn trailing_quotes(s: Seq<char>) -> nat
    decreases s.len(),
{
    if s.len() > 0 && s.last() == '"' {
        1 + trailing_quotes(s.drop_last())
    } else {
        0
    }
}

/// `s` without the quote characters at its start and at its end.
pub open spec fn strip_quotes(s: Seq<char>) -> Seq<char> {
    let rest = s.skip(leading_quotes(s) as int);
    rest.take(rest.len() - trailing_quotes(rest))
}

/// Whether `text` is written as a string literal in double quotes.
pub open spec fn is_string_literal(text: Seq<char>) -> bool {
    text.len() >= 2 && text[0] == '"' && text.last() == '"'
}

/// Whether `tokens` starts with the identifier `each`, the punctuation `=`
/// and a string literal. Tokens after these three are not looked at.
pub open spec fn names_each(tokens: Seq<Token>) -> bool {
    &&& tokens.len() >= 3
    &&& tokens[0] matches Token::Ident(word) && word@ == "each"@
    &&& tokens[1] == Token::Punct('=')
    &&& tokens[2] matches Token::Literal(text) && is_string_literal(text@)
}

/// The source text of a literal token.
pub open spec fn literal_text(token: Token) -> Seq<char> {
    match token {
        Token::Literal(text) => text@,
        _ => Seq::empty(),
    }
}

/// Whether the annotation's path is the single identifier `builder`.
pub open spec fn is_builder(a: &Annotation) -> bool {
    !a.leading_colon && a.path@.len() == 1 && a.path@[0]@ == "builder"@
}

/// What the annotations of a field say about an element method: nothing
/// where there is no annotation, the method's name where the first
/// annotation is `builder(each = "<name>")`, and a fault for any other first
/// annotation. Annotations after the first are not looked at.
pub open spec fn each_outcome(attrs: Seq<Annotation>) -> Result<Option<Seq<char>>, FieldErrorView> {
    if attrs.len() == 0 {
        Ok(None)
    } else if !is_builder(&attrs[0]) {
        Err(not_builder(Part::Attribute))
    } else {
        match attrs[0].args {
            AnnotationArgs::List { tokens } => {
                if names_each(tokens@) {
                    Ok(Some(strip_quotes(literal_text(tokens@[2]))))
                } else {
                    Err(malformed_each())
                }
            },
            _ => Err(not_builder(Part::Arguments)),
        }
    }
}

/// The outcome of reading annotations, with texts as character sequences.
pub open spec fn each_view(r: Result<Option<String>, FieldError>) -> Result<
    Option<Seq<char>>,
    FieldErrorView,
> {
    match r {
        Ok(Some(name)) => Ok(Some(name@)),
        Ok(None) => Ok(None),
        Err(e) => Err(e@),
    }
}

proof fn lemma_leading_step(s: Seq<char>, i: int)
    requires
        0 <= i < s.len(),
        s[i] == '"',
    ensures
        leading_quotes(s.skip(i)) == 1 + leading_quotes(s.skip(i + 1)),
{
    assert(s.skip(i).drop_first() =~= s.skip(i + 1));
}

proof fn lemma_trailing_step(s: Seq<char>, j: int)
    requires
        0 < j <= s.len(),
        s[j - 1] == '"',
    ensures
        trailing_quotes(s.take(j)) == 1 + trailing_quotes(s.take(j - 1)),
{
    assert(s.take(j).drop_last() =~= s.take(j - 1));
}

/// Removes the quote characters at the start and at the end of `text`.
pub fn trim_quotes(text: &str) -> (r: String)
    ensures
        r@ == strip_quotes(text@),
{
    let n: usize = text.unicode_len();
    let mut start: usize = 0;
    assert(text@.skip(0) =~= text@);
    while start < n && text.get_char(start) == '"'
        invariant
            n == text@.len(),
            start <= n,
            leading_quotes(text@) == start + leading_quotes(text@.skip(start as int)),
        decreases n - start,
    {
        proof {
            lemma_leading_step(text@, start as int);
        }
        start = start + 1;
    }
    assert(leading_quotes(text@.skip(start as int)) == 0);
    assert(leading_quotes(text@) == start);
    let ghost rest = text@.skip(start as int);
    let mut end: usize = n;
    assert(rest.take(end - start) =~= rest);
    while end > start && text.get_char(end - 1) == '"'
        invariant
            n == text@.len(),
            start <= end <= n,
            rest == text@.skip(start as int),
            trailing_quotes(rest) == (n - end) + trailing_quotes(rest.take(end - start)),
        decreases end - start,
    {
        proof {
            lemma_trailing_step(rest, end - start);
        }
        end = end - 1;
    }
    assert(trailing_quotes(rest.take(end - start)) == 0) by {
        if end > start {
            assert(rest.take(end - start).last() == text@[end - 1]);
        }
    }
    assert(rest.take(rest.len() - trailing_quotes(rest)) =~= text@.subrange(
        start as int,
        end as int,
    ));
    String::from_str(text.substring_char(start, end))
}

/// Whether `text` starts and ends with a double quote.
fn check_string_literal(text: &str) -> (r: bool)
    ensures
        r == is_string_literal(text@),
{
    let n: usize = text.unicode_len();
    n >= 2 && text.get_char(0) == '"' && text.get_char(n - 1) == '"'
}

/// Whether the first three tokens are `each`, `=` and a string literal.
fn check_names_each(tokens: &Vec<Token>) -> (r: bool)
    ensures
        r == names_each(tokens@),
{
    if tokens.len() < 3 {
        return false;
    }
    let each = String::from_str("each");
    let first = match &tokens[0] {
        Token::Ident(word) => same_text(word, &each),
        _ => false,
    };
    if !first {
        return false;
    }
    let second = match &tokens[1] {
        Token::Punct(c) => *c == '=',
        _ => false,
    };
    if !second {
        return false;
    }
    match &tokens[2] {
        Token::Literal(text) => check_string_literal(text.as_str()),
        _ => false,
    }
}

/// Whether the annotation's path is the single identifier `builder`.
fn check_is_builder(a: &Annotation) -> (r: bool)
    ensures
        r == is_builder(a),
{
    if a.leading_colon || a.path.len() != 1 {
        return false;
    }
    let builder = String::from_str("builder");
    same_text(&a.path[0], &builder)
}

/// Reads the element method's name from a field's annotations.
///
/// Only the first annotation is looked at; those after it are ignored, and
/// so are the tokens after the string literal.
pub fn parse_each(attrs: &Vec<Annotation>) -> (r: Result<Option<String>, FieldError>)
    ensures
        each_view(r) == each_outcome(attrs@),
{
    if attrs.len() == 0 {
        return Ok(None);
    }
    let attr = &attrs[0];
    if !check_is_builder(attr) {
        return Err(make_not_builder(Part::Attribute));
    }
    let tokens = match &attr.args {
        AnnotationArgs::List { tokens } => tokens,
        _ => {
            return Err(make_not_builder(Part::Arguments));
        },
    };
    if !check_names_each(tokens) {
        return Err(make_malformed_each());
    }
    match &tokens[2] {
        Token::Literal(text) => Ok(Some(trim_quotes(text.as_str()))),
        _ => Err(make_malformed_each()),
    }
}

/// A name that neither starts nor ends with a quote character is read back
/// unchanged from the string literal that holds it.
pub proof fn quoted_name_reads_back(name: Seq<char>)
    requires
        name.len() > 0 ==> name[0] != '"' && name.last() != '"',
    ensures
        is_string_literal(seq!['"'] + name + seq!['"']),
        strip_quotes(seq!['"'] + name + seq!['"']) == name,
{
    let quote = seq!['"'];
    let s = quote + name + quote;
    assert(s[0] == '"');
    assert(s.last() == '"');
    assert(s.drop_first() =~= name + quote);
    if name.len() == 0 {
        assert((name + quote).drop_first() =~= Seq::<char>::empty());
        assert(leading_quotes((name + quote).drop_first()) == 0);
        assert(leading_quotes(name + quote) == 1);
        assert(leading_quotes(s) == 2);
        assert(s.skip(2) =~= Seq::<char>::empty());
        assert(strip_quotes(s) =~= name);
    } else {
        assert((name + quote)[0] == name[0]);
        assert(leading_quotes(name + quote) == 0);
        assert(leading_quotes(s) == 1);
        let rest = s.skip(1);
        assert(rest =~= name + quote);
        assert(rest.last() == '"');
        assert(rest.drop_last() =~= name);
        assert(trailing_quotes(name) == 0);
        assert(trailing_quotes(rest) == 1);
        assert(rest.take(rest.len() - 1) =~= name);
    }
}

/// The annotation `builder(each = "<element>")` names the element method
/// `element`, for every `element` that neither starts nor ends with a quote
/// character, whatever annotations follow it.
pub proof fn each_annotation_reads_back(attrs: Seq<Annotation>, element: Seq<char>)
    requires
        attrs.len() > 0,
        crate::decl::is_each(&attrs[0], element),
        element.len() > 0 ==> element[0] != '"' && element.last() != '"',
    ensures
        each_outcome(attrs) == Ok::<Option<Seq<char>>, FieldErrorView>(Some(element)),
{
    reveal_strlit("\"");
    assert("\""@ =~= seq!['"']);
    quoted_name_reads_back(element);
}

} // verus!
