use vstd::prelude::*;

use crate::markup::same_text;

verus! {

broadcast use vstd::string::group_string_axioms;

/// An error reported in a graph response, with a machine-readable code.
#[derive(Clone, Debug)]
pub struct GraphqlError {
    pub message: String,
    pub code: String,
}

/// Whether a request passes the origin gate: always when no secret is
/// configured, and otherwise only when the request carries that very secret.
pub open spec fn origin_allowed(expected: Option<String>, provided: Option<String>) -> bool {
    match expected {
        None => true,
        Some(x) => provided matches Some(p) && p@ == x@,
    }
}

/// Checks the shared secret that a request carries against the configured
/// one; a request that fails gets a single `FORBIDDEN` error.
pub fn check_origin(expected: &Option<String>, provided: &Option<String>) -> (r: Result<
    (),
    GraphqlError,
>)
    ensures
        r is Ok <==> origin_allowed(*expected, *provided),
        r matches Err(e) ==> e.message@ == "Forbidden"@ && e.code@ == "FORBIDDEN"@,
{
    match expected {
        None => Ok(()),
        Some(x) => {
            let allowed = match provided {
                Some(p) => *p == *x,
                None => false,
            };
            if allowed {
                Ok(())
            } else {
                Err(GraphqlError { message: "Forbidden".to_string(), code: "FORBIDDEN".to_string() })
            }
        },
    }
}

/// What the serverless entry point does with a request.
#[derive(Clone, Debug)]
pub enum RequestAction {
    /// Answer with this single error and no data.
    Forbidden(GraphqlError),
    /// Answer a preflight request with an empty body (status 204).
    NoContent,
    /// Refuse the method (status 405).
    MethodNotAllowed,
    /// Run the request against the schema.
    Execute,
}

/// Decides how to answer a request from its secret header and its method:
/// the origin gate first, then preflight requests, then any method but POST.
pub fn classify_request(expected: &Option<String>, provided: &Option<String>, method: &str) -> (r:
    RequestAction)
    ensures
        !origin_allowed(*expected, *provided) ==> (r matches RequestAction::Forbidden(e)
            && e.message@ == "Forbidden"@ && e.code@ == "FORBIDDEN"@),
        origin_allowed(*expected, *provided) && method@ == "OPTIONS"@ ==> r is NoContent,
        origin_allowed(*expected, *provided) && method@ == "POST"@ ==> r is Execute,
        origin_allowed(*expected, *provided) && method@ != "OPTIONS"@ && method@ != "POST"@
            ==> r is MethodNotAllowed,
{
    proof {
        reveal_strlit("OPTIONS");
        reveal_strlit("POST");
        assert("POST"@.len() != "OPTIONS"@.len());
    }
    match check_origin(expected, provided) {
        Err(e) => RequestAction::Forbidden(e),
        Ok(()) => {
            if same_text(method, "OPTIONS") {
                RequestAction::NoContent
            } else if same_text(method, "POST") {
                RequestAction::Execute
            } else {
                RequestAction::MethodNotAllowed
            }
        },
    }
}

} // verus!
