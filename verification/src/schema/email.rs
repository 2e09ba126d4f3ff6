//! Emails sent on behalf of portals.
use vstd::prelude::*;
use vstd::string::StringExecFns;
use crate::text::hex_digit;

verus! {

/// The parameters of one invitation: the address to write to, and the user it
/// is about (the only part that goes into the message's template data).
pub struct InviteNewUserToPortalParams {
    to_address: String,
    user: String,
}

impl InviteNewUserToPortalParams {
    /// The parameters of an invitation to `to_address` about `user`.
    pub fn new(to_address: String, user: String) -> (p: InviteNewUserToPortalParams)
        ensures
            p.to_address() == to_address,
            p.user() == user,
    {
        InviteNewUserToPortalParams { to_address, user }
    }

    /// The address the invitation is sent to.
    pub closed spec fn to_address(self) -> String {
        self.to_address
    }

    /// The user the invitation is about.
    pub closed spec fn user(self) -> String {
        self.user
    }
}

/// The emails the server can send, each with the parameters of its recipients.
pub enum EmailTemplate {
    InviteNewUserToPortal(Vec<InviteNewUserToPortalParams>),
}

impl EmailTemplate {
    /// The name of the template, as the mail service knows it.
    pub open spec fn name(self) -> Seq<char> {
        match self {
            EmailTemplate::InviteNewUserToPortal(_) => "inviteNewUserToPortal"@,
        }
    }

    /// The name of the template (its `Display` form).
    pub fn to_string(&self) -> (s: String)
        ensures
            s@ == self.name(),
    {
        match self {
            EmailTemplate::InviteNewUserToPortal(_) => "inviteNewUserToPortal".to_string(),
        }
    }
}

/// A message ready for the mail service: the template, and for each recipient
/// its address and its template data as JSON text.
pub struct EmailContent {
    pub template_name: String,
    pub to_addresses: Vec<String>,
    pub template_data: Vec<String>,
}

/// How one character appears inside a JSON string: quote, backslash and the
/// control characters are escaped (the named ones by letter, the others as
/// `\u00xx` in lowercase hex); every other character stands for itself.
pub open spec fn json_char(c: char) -> Seq<char> {
    if c == '"' {
        seq!['\\', '"']
    } else if c == '\\' {
        seq!['\\', '\\']
    } else if c == '\u{8}' {
        seq!['\\', 'b']
    } else if c == '\t' {
        seq!['\\', 't']
    } else if c == '\n' {
        seq!['\\', 'n']
    } else if c == '\u{c}' {
        seq!['\\', 'f']
    } else if c == '\r' {
        seq!['\\', 'r']
    } else if (c as u32) < 0x20 {
        seq!['\\', 'u', '0', '0', hex_digit((c as u32 / 16) as int), hex_digit((c as u32 % 16) as int)]
    } else {
        seq![c]
    }
}

/// The characters of `s`, each as it appears inside a JSON string.
pub open spec fn json_escaped(s: Seq<char>) -> Seq<char>
    decreases s.len(),
{
    if s.len() == 0 {
        Seq::empty()
    } else {
        json_escaped(s.drop_last()) + json_char(s.last())
    }
}

/// `s` written as a JSON string.
pub open spec fn json_quoted(s: Seq<char>) -> Seq<char> {
    seq!['"'] + json_escaped(s) + seq!['"']
}

/// Writes a string as a JSON string with `serde_json::to_string`. For a string
/// slice that call writes into a `Vec<u8>`, which cannot fail, so the error arm
/// is never taken.
#[verifier::external_body]
fn json_string(s: &str) -> (r: String)
    ensures
        r@ == json_quoted(s@),
{
    match serde_json::to_string(s) {
        Ok(t) => t,
        Err(_) => String::new(),
    }
}

/// The template data of one invitation: a JSON object whose one field `user`
/// holds the invited user.
pub open spec fn invite_data(user: Seq<char>) -> Seq<char> {
    "{\"user\":"@ + json_quoted(user) + "}"@
}

/// What building an email can fail with.
#[derive(Clone, Copy, Debug, PartialEq, Eq, Structural)]
pub enum EmailError {
    Unrenderable,
}

impl EmailContent {
    /// The message for a template: named after the template, with one address
    /// and one piece of template data per recipient, in order.
    pub fn try_from(template: EmailTemplate) -> (r: Result<EmailContent, EmailError>)
        ensures
            r matches Ok(c) && {
                let EmailTemplate::InviteNewUserToPortal(params) = template;
                &&& c.template_name@ == template.name()
                &&& c.to_addresses@.len() == params@.len()
                &&& c.template_data@.len() == params@.len()
                &&& forall|i: int|
                    0 <= i < params@.len() ==> (#[trigger] c.to_addresses@[i])@ == params@[i].to_address()@
                &&& forall|i: int|
                    0 <= i < params@.len() ==> (#[trigger] c.template_data@[i])@ == invite_data(
                        params@[i].user()@,
                    )
            },
    {
        let template_name = template.to_string();
        let EmailTemplate::InviteNewUserToPortal(params) = template;
        let mut to_addresses: Vec<String> = Vec::new();
        let mut template_data: Vec<String> = Vec::new();
        let mut i: usize = 0;
        while i < params.len()
            invariant
                i <= params@.len(),
                to_addresses@.len() == i,
                template_data@.len() == i,
                forall|k: int| 0 <= k < i ==> (#[trigger] to_addresses@[k])@ == params@[k].to_address()@,
                forall|k: int| 0 <= k < i ==> (#[trigger] template_data@[k])@ == invite_data(params@[k].user()@),
            decreases params@.len() - i,
        {
            let p = &params[i];
            to_addresses.push(p.to_address.clone());
            let mut data = "{\"user\":".to_string();
            let quoted = json_string(p.user.as_str());
            data.append(quoted.as_str());
            data.append("}");
            template_data.push(data);
            i = i + 1;
        }
        Ok(EmailContent { template_name, to_addresses, template_data })
    }
}

} // verus!
