use vstd::prelude::*;

use crate::types::ContactMeInput;

verus! {

broadcast use vstd::string::group_string_axioms;

/// Sender and recipient of contact emails.
#[derive(Clone, Debug)]
pub struct EmailConfig {
    pub from: String,
    pub to: String,
}

impl EmailConfig {
    /// The configuration from the configured sender and recipient, or the
    /// message that names the first one missing.
    pub fn from_values(from: Option<String>, to: Option<String>) -> (r: Result<EmailConfig, String>)
        ensures
            from is None ==> (r matches Err(m) && m@ == "SES_FROM is required"@),
            from is Some && to is None ==> (r matches Err(m) && m@ == "SES_TO is required"@),
            from is Some && to is Some ==> (r matches Ok(c) && c.from@ == (from->0)@ && c.to@ == (
            to->0)@),
    {
        match from {
            None => Err("SES_FROM is required".to_string()),
            Some(f) => match to {
                None => Err("SES_TO is required".to_string()),
                Some(t) => Ok(EmailConfig { from: f, to: t }),
            },
        }
    }
}

/// The body of the email sent for a contact submission: the message, then
/// the sender's name and address.
pub open spec fn contact_body_text(input: ContactMeInput) -> Seq<char> {
    input.body@ + "\n\nFrom: "@ + input.name@ + "\nEmail: "@ + input.from@
}

/// Composes the body of the email sent for a contact submission.
pub fn contact_email_body(input: &ContactMeInput) -> (r: String)
    ensures
        r@ == contact_body_text(*input),
{
    let mut out = input.body.clone();
    out.append("\n\nFrom: ");
    out.append(input.name.as_str());
    out.append("\nEmail: ");
    out.append(input.from.as_str());
    out
}

} // verus!
