//! The compile service: from what the compiler did to the response that
//! describes it.

use vstd::prelude::*;
use crate::models::{
    CompileRequest, CompileResponse, CompileResponseView, PolicyValidationResult,
    PolicyValidationView,
};
use crate::services::sandbox::{
    compile_invocation, compile_invocation_of, compiled, Invocation, ProcessOutcome, ToolPaths,
};
use crate::text::concat2;

verus! {

/// The compiler run that a compile request asks for.
pub fn compile_command(req: &CompileRequest, tools: &ToolPaths) -> (inv: Invocation)
    ensures
        inv@ == compile_invocation_of(tools.compiler@, req.code@),
{
    compile_invocation(tools, req.code.as_str())
}

/// The response to a compile request, given how the compiler's run ended and
/// the syntax tree read from its output.
///
/// Accepted source gives a success that carries the tree and the compiler's
/// standard output, as bytecode and as output. Rejected source gives a
/// failure whose one violation, and whose error, is the compiler's standard
/// error. A compiler that could not be started gives a failure that names
/// the reason.
pub open spec fn compile_response_of(outcome: ProcessOutcome, ast: Option<serde_json::Value>)
    -> CompileResponseView {
    match outcome {
        ProcessOutcome::SpawnFailed(reason) => CompileResponseView {
            success: false,
            ast: None,
            bytecode: None,
            policy_validation: PolicyValidationView {
                passed: false,
                violations: seq!["Failed to run compiler: "@ + reason@],
                warnings: Seq::<Seq<char>>::empty(),
            },
            error: Some("Compiler error: "@ + reason@),
            output: None,
        },
        ProcessOutcome::Finished(rep) => if compiled(outcome) {
            CompileResponseView {
                success: true,
                ast,
                bytecode: Some(rep.stdout@),
                policy_validation: PolicyValidationView {
                    passed: true,
                    violations: Seq::<Seq<char>>::empty(),
                    warnings: Seq::<Seq<char>>::empty(),
                },
                error: None,
                output: Some(rep.stdout@),
            }
        } else {
            CompileResponseView {
                success: false,
                ast: None,
                bytecode: None,
                policy_validation: PolicyValidationView {
                    passed: false,
                    violations: seq![rep.stderr@],
                    warnings: Seq::<Seq<char>>::empty(),
                },
                error: Some(rep.stderr@),
                output: None,
            }
        },
    }
}

fn validation(passed: bool, violation: Option<String>) -> (v: PolicyValidationResult)
    ensures
        v@ == (PolicyValidationView {
            passed,
            violations: match violation {
                Some(text) => seq![text@],
                None => Seq::<Seq<char>>::empty(),
            },
            warnings: Seq::<Seq<char>>::empty(),
        }),
{
    let mut violations: Vec<String> = Vec::new();
    if let Some(text) = violation {
        violations.push(text);
    }
    let v = PolicyValidationResult { passed, violations, warnings: Vec::new() };
    assert(crate::models::texts(v.warnings@) =~= Seq::<Seq<char>>::empty());
    assert(crate::models::texts(v.violations@) =~= match violation {
        Some(text) => seq![text@],
        None => Seq::<Seq<char>>::empty(),
    });
    v
}

/// Builds the response to a compile request.
pub fn compile_code(outcome: &ProcessOutcome, ast: Option<serde_json::Value>) -> (resp:
    CompileResponse)
    ensures
        resp@ == compile_response_of(*outcome, ast),
{
    match outcome {
        ProcessOutcome::SpawnFailed(reason) => CompileResponse {
            success: false,
            ast: None,
            bytecode: None,
            policy_validation: validation(
                false,
                Some(concat2("Failed to run compiler: ", reason.as_str())),
            ),
            error: Some(concat2("Compiler error: ", reason.as_str())),
            output: None,
        },
        ProcessOutcome::Finished(rep) => {
            let accepted = !rep.timed_out && match rep.exit_code {
                Some(c) => c == 0,
                None => false,
            };
            if accepted {
                CompileResponse {
                    success: true,
                    ast,
                    bytecode: Some(rep.stdout.clone()),
                    policy_validation: validation(true, None),
                    error: None,
                    output: Some(rep.stdout.clone()),
                }
            } else {
                CompileResponse {
                    success: false,
                    ast: None,
                    bytecode: None,
                    policy_validation: validation(false, Some(rep.stderr.clone())),
                    error: Some(rep.stderr.clone()),
                    output: None,
                }
            }
        },
    }
}

} // verus!
