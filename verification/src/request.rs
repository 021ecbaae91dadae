//! The request that drives one pipeline run for one address.

use vstd::prelude::*;

verus! {

/// Mathematical model of a [`EmailCheckInput`].
pub ghost struct InputModel {
    pub to_emails: Seq<Seq<char>>,
    pub from_email: Seq<char>,
    pub hello_name: Seq<char>,
    pub smtp_timeout: Option<u64>,
    pub yahoo_use_api: bool,
}

/// What one verification run needs: the target addresses, the envelope
/// sender, the greeting hostname, an optional probe timeout in
/// milliseconds, and whether a vendor API is preferred over raw SMTP.
#[derive(Debug, Clone)]
pub struct EmailCheckInput {
    pub to_emails: Vec<String>,
    /// Email to use in the `MAIL FROM:` SMTP command.
    ///
    /// Defaults to "user@example.org".
    pub from_email: String,
    /// Name to use in the `EHLO:` SMTP command.
    ///
    /// Defaults to "localhost" (note: "localhost" is not a FQDN).
    pub hello_name: String,
    /// Optional timeout for the SMTP verification step, in milliseconds.
    pub smtp_timeout: Option<u64>,
    /// For Yahoo email addresses, use Yahoo's API instead of connecting
    /// directly to their SMTP servers.
    ///
    /// Defaults to true.
    pub yahoo_use_api: bool,
}

impl View for EmailCheckInput {
    type V = InputModel;

    open spec fn view(&self) -> InputModel {
        InputModel {
            to_emails: self.to_emails.deep_view(),
            from_email: self.from_email@,
            hello_name: self.hello_name@,
            smtp_timeout: self.smtp_timeout,
            yahoo_use_api: self.yahoo_use_api,
        }
    }
}

impl DeepView for EmailCheckInput {
    type V = InputModel;

    open spec fn deep_view(&self) -> InputModel {
        self.view()
    }
}

/// An element-wise copy of a list of strings.
pub fn duplicate_strings(v: &Vec<String>) -> (r: Vec<String>)
    ensures
        r.deep_view() == v.deep_view(),
{
    let mut r: Vec<String> = Vec::new();
    let mut i: usize = 0;
    while i < v.len()
        invariant
            i <= v@.len(),
            r@.len() == i,
            forall|j: int| 0 <= j < i ==> r@[j]@ == v@[j]@,
        decreases v@.len() - i,
    {
        r.push(v[i].clone());
        i += 1;
    }
    proof {
        assert forall|j: int| 0 <= j < v@.len() implies r.deep_view()[j] == v.deep_view()[j] by {
            assert(r.deep_view()[j] == r@[j]@);
            assert(v.deep_view()[j] == v@[j]@);
        }
        assert(r.deep_view() =~= v.deep_view());
    }
    r
}

impl Default for EmailCheckInput {
    fn default() -> (r: EmailCheckInput)
        ensures
            r@.to_emails == Seq::<Seq<char>>::empty(),
            r@.from_email == "user@example.org"@,
            r@.hello_name == "localhost"@,
            r@.smtp_timeout is None,
            r@.yahoo_use_api,
    {
        EmailCheckInput {
            to_emails: Vec::new(),
            from_email: "user@example.org".to_owned(),
            hello_name: "localhost".to_owned(),
            smtp_timeout: None,
            yahoo_use_api: true,
        }
    }
}

impl EmailCheckInput {
    /// Create a new input for the given addresses, with default sender,
    /// greeting name, timeout and vendor-API preference.
    pub fn new(to_emails: Vec<String>) -> (r: EmailCheckInput)
        ensures
            r@.to_emails == to_emails.deep_view(),
            r@.from_email == "user@example.org"@,
            r@.hello_name == "localhost"@,
            r@.smtp_timeout is None,
            r@.yahoo_use_api,
    {
        let mut r = EmailCheckInput::default();
        r.to_emails = to_emails;
        r
    }

    /// An exact copy of the input.
    pub fn duplicate(&self) -> (r: EmailCheckInput)
        ensures
            r@ == self@,
    {
        EmailCheckInput {
            to_emails: duplicate_strings(&self.to_emails),
            from_email: self.from_email.clone(),
            hello_name: self.hello_name.clone(),
            smtp_timeout: self.smtp_timeout,
            yahoo_use_api: self.yahoo_use_api,
        }
    }

    /// Set the email to use in the `MAIL FROM:` SMTP command. Defaults to
    /// `user@example.org` if not explicitly set.
    pub fn set_from_email(&mut self, email: String) -> (r: &mut EmailCheckInput)
        ensures
            r@ == (InputModel { from_email: email@, ..old(self)@ }),
            final(self)@ == final(r)@,
    {
        self.from_email = email;
        self
    }

    /// Set the name to use in the `EHLO:` SMTP command. Defaults to
    /// `localhost` if not explicitly set.
    pub fn set_hello_name(&mut self, name: String) -> (r: &mut EmailCheckInput)
        ensures
            r@ == (InputModel { hello_name: name@, ..old(self)@ }),
            final(self)@ == final(r)@,
    {
        self.hello_name = name;
        self
    }

    /// Add an optional timeout for the SMTP verification step, in
    /// milliseconds.
    pub fn set_smtp_timeout(&mut self, millis: u64) -> (r: &mut EmailCheckInput)
        ensures
            r@ == (InputModel { smtp_timeout: Some(millis), ..old(self)@ }),
            final(self)@ == final(r)@,
    {
        self.smtp_timeout = Some(millis);
        self
    }

    /// Set whether to use Yahoo's API or connecting directly to their SMTP
    /// servers. Defaults to true.
    pub fn set_yahoo_use_api(&mut self, use_api: bool) -> (r: &mut EmailCheckInput)
        ensures
            r@ == (InputModel { yahoo_use_api: use_api, ..old(self)@ }),
            final(self)@ == final(r)@,
    {
        self.yahoo_use_api = use_api;
        self
    }
}

} // verus!
