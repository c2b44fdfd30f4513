//! What to instrument in one source file.
use vstd::prelude::*;
use crate::text::same_text;

verus! {

/// One function-like construct to instrument, and with which hooks.
#[derive(Debug, Clone, PartialEq, Eq)]
pub struct FunctionInstructions {
    pub node_type: String,
    pub name: String,
    pub identifier: String,
    pub inspect_args: bool,
    pub modify_args: bool,
    pub modify_return_value: bool,
    pub modify_arguments_object: bool,
}

/// The instructions for one source file.
#[derive(Debug, Clone, PartialEq, Eq)]
pub struct FileInstructions {
    pub path: String,
    pub identifier: String,
    pub version_range: String,
    pub functions: Vec<FunctionInstructions>,
    pub access_local_variables: Vec<String>,
}

/// The `node_type` of an instruction for a method or constructor of a class.
pub const METHOD_DEFINITION: &'static str = "MethodDefinition";

/// The `node_type` of an instruction for a named function declaration.
pub const FUNCTION_DECLARATION: &'static str = "FunctionDeclaration";

/// The `node_type` of an instruction for a named function expression.
pub const FUNCTION_EXPRESSION: &'static str = "FunctionExpression";

/// The `node_type` of an instruction for a function assigned to a member.
pub const FUNCTION_ASSIGNMENT: &'static str = "FunctionAssignment";

/// The `node_type` of an instruction for a function that a variable is declared with.
pub const FUNCTION_VARIABLE_DECLARATION: &'static str = "FunctionVariableDeclaration";

impl FunctionInstructions {
    /// The instruction is for the construct of shape `node_type` named `name`.
    pub open spec fn is_for(self, node_type: Seq<char>, name: Seq<char>) -> bool {
        self.node_type@ == node_type && self.name@ == name
    }
}

/// `at` is the place of the first instruction for the construct of shape
/// `node_type` named `name`.
pub open spec fn is_first_match(
    functions: Seq<FunctionInstructions>,
    node_type: Seq<char>,
    name: Seq<char>,
    at: int,
) -> bool {
    &&& 0 <= at < functions.len()
    &&& functions[at].is_for(node_type, name)
    &&& forall|j: int| 0 <= j < at ==> !(#[trigger] functions[j]).is_for(node_type, name)
}

/// The place of the first instruction for the construct of shape `node_type`
/// named `name`, where there is one.
pub open spec fn first_match(
    functions: Seq<FunctionInstructions>,
    node_type: Seq<char>,
    name: Seq<char>,
) -> Option<int> {
    if exists|at: int| is_first_match(functions, node_type, name, at) {
        Some(choose|at: int| is_first_match(functions, node_type, name, at))
    } else {
        None
    }
}

/// No two places are the first match.
pub proof fn lemma_first_match_unique(
    functions: Seq<FunctionInstructions>,
    node_type: Seq<char>,
    name: Seq<char>,
    a: int,
    b: int,
)
    requires
        is_first_match(functions, node_type, name, a),
        is_first_match(functions, node_type, name, b),
    ensures
        a == b,
{
    if a < b {
        assert(!functions[a].is_for(node_type, name));
    }
    if b < a {
        assert(!functions[b].is_for(node_type, name));
    }
}

impl FileInstructions {
    /// The place of the first instruction whose `node_type` and `name` are
    /// exactly those given; `None` where no instruction has both.
    pub fn find(&self, node_type: &str, name: &str) -> (found: Option<usize>)
        ensures
            match found {
                Some(at) => Some(at as int) == first_match(self.functions@, node_type@, name@),
                None => first_match(self.functions@, node_type@, name@) is None,
            },
            found matches Some(at) ==> is_first_match(
                self.functions@,
                node_type@,
                name@,
                at as int,
            ),
    {
        let mut i: usize = 0;
        while i < self.functions.len()
            invariant
                i <= self.functions@.len(),
                forall|j: int|
                    0 <= j < i ==> !(#[trigger] self.functions@[j]).is_for(node_type@, name@),
            decreases self.functions@.len() - i,
        {
            let candidate = &self.functions[i];
            if same_text(candidate.node_type.as_str(), node_type) && same_text(
                candidate.name.as_str(),
                name,
            ) {
                proof {
                    assert(is_first_match(self.functions@, node_type@, name@, i as int));
                    assert forall|at: int|
                        is_first_match(self.functions@, node_type@, name@, at) implies at
                        == i by {
                        lemma_first_match_unique(self.functions@, node_type@, name@, i as int, at);
                    }
                }
                return Some(i);
            }
            i += 1;
        }
        None
    }
}

} // verus!
