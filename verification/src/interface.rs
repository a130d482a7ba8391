use vstd::prelude::*;

use crate::errors::FuzzError;

verus! {

/// One declared parameter of an interface function: its type-name string as
/// the compiler spelled it.
#[derive(Debug, Clone)]
pub struct ParsedParam {
    /// The declared type name, e.g. `uint256` or `address`.
    pub internal_type: String,
}

/// One function of a compiler-supplied interface description: its name and
/// its declared parameters, in order.
#[derive(Debug, Clone)]
pub struct ParsedFunction {
    /// The function's name as declared.
    pub name: String,
    /// The declared parameters, in declaration order.
    pub inputs: Vec<ParsedParam>,
}

/// What one fuzzing campaign needs from the compiler: the invariant checker's
/// creation bytecode and interface, and the target's interface.
#[derive(Debug)]
pub struct CompilationOutput {
    /// The invariant checker's creation bytecode and its interface.
    pub invariant_checker: (Vec<u8>, Vec<ParsedFunction>),
    /// The target contract's interface.
    pub target_abi: Vec<ParsedFunction>,
}

impl CompilationOutput {
    /// Assembles a campaign's compiler output from the two looked-up
    /// contracts: a campaign needs both the target's interface and the
    /// invariant checker's bytecode and interface, and the absence of either
    /// is fatal (`ContractNotFound`), never worked around.
    pub fn assemble(
        target_abi: Option<Vec<ParsedFunction>>,
        invariant_checker: Option<(Vec<u8>, Vec<ParsedFunction>)>,
    ) -> (r: Result<CompilationOutput, FuzzError>)
        ensures
            r is Ok <==> (target_abi is Some && invariant_checker is Some),
            r matches Ok(c) ==> target_abi == Some(c.target_abi) && invariant_checker == Some(
                c.invariant_checker,
            ),
            r is Err ==> r == Err::<CompilationOutput, FuzzError>(FuzzError::ContractNotFound),
    {
        match (target_abi, invariant_checker) {
            (Some(target_abi), Some(invariant_checker)) => {
                Ok(CompilationOutput { invariant_checker, target_abi })
            },
            _ => Err(FuzzError::ContractNotFound),
        }
    }
}

impl ParsedFunction {
    /// The parameter type names, in order, as character sequences.
    pub open spec fn param_names(self) -> Seq<Seq<char>> {
        self.inputs@.map_values(|p: ParsedParam| p.internal_type@)
    }

    /// The textual content of this description: everything the builder reads.
    pub open spec fn text_view(self) -> (Seq<char>, Seq<Seq<char>>) {
        (self.name@, self.param_names())
    }
}

} // verus!
