//! Expressions of alarm conditions and conversions, parsed by `evalexpr`.
use vstd::prelude::*;

verus! {

#[verifier::external_type_specification]
#[verifier::external_body]
pub struct ExNode(evalexpr::Node);

#[verifier::external_type_specification]
#[verifier::external_body]
pub struct ExEvalexprError(evalexpr::EvalexprError);

/// What `evalexpr::build_operator_tree` gives for `text`: the operator tree
/// it parses, or the error it reports.
pub uninterp spec fn operator_tree(text: Seq<char>) -> Result<evalexpr::Node, evalexpr::EvalexprError>;

/// `evalexpr::build_operator_tree`: parses `text` into an operator tree. Its
/// result is named as a function of the text alone.
#[verifier::external_body]
fn build_operator_tree(text: &str) -> (r: Result<evalexpr::Node, evalexpr::EvalexprError>)
    ensures
        r == operator_tree(text@),
{
    evalexpr::build_operator_tree(text)
}

/// `<evalexpr::Node as Clone>::clone`, which `derive` writes for the tree and
/// for everything it holds: the copy equals the tree.
#[verifier::external_body]
fn clone_node(node: &evalexpr::Node) -> (r: evalexpr::Node)
    ensures
        r == *node,
{
    node.clone()
}

/// An expression together with the text it was parsed from.
#[derive(Debug)]
pub struct ParseableExpr {
    pub str: String,
    pub data: evalexpr::Node,
}

impl Clone for ParseableExpr {
    fn clone(&self) -> (r: ParseableExpr)
        ensures
            r.str@ == self.str@,
            r.data == self.data,
    {
        ParseableExpr { str: self.str.clone(), data: clone_node(&self.data) }
    }
}

impl ParseableExpr {
    /// Parses `text`: the expression holds the text and the tree that
    /// `evalexpr` builds from it; where it builds none, its error.
    pub fn parse(text: &str) -> (r: Result<ParseableExpr, evalexpr::EvalexprError>)
        ensures
            match operator_tree(text@) {
                Ok(tree) => r matches Ok(e) && e.str@ == text@ && e.data == tree,
                Err(err) => r == Err::<ParseableExpr, evalexpr::EvalexprError>(err),
            },
    {
        match build_operator_tree(text) {
            Ok(node) => Ok(ParseableExpr { str: text.to_owned(), data: node }),
            Err(e) => Err(e),
        }
    }
}

} // verus!
