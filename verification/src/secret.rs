use vstd::prelude::*;

verus! {

/// A secret text: an unseal key or a token.
///
/// The text is held by `secrecy::Secret`, which wipes it from memory when the value is
/// dropped and keeps it out of `Debug` output.
#[verifier::external_body]
#[derive(Debug)]
pub struct Secret {
    inner: secrecy::Secret<String>,
}

/// The text that a secret wraps.
pub uninterp spec fn secret_text(secret: Secret) -> Seq<char>;

impl View for Secret {
    type V = Seq<char>;

    open spec fn view(&self) -> Seq<char> {
        secret_text(*self)
    }
}

impl DeepView for Secret {
    type V = Seq<char>;

    open spec fn deep_view(&self) -> Seq<char> {
        secret_text(*self)
    }
}

/// `secrecy::Secret::new`: the new secret wraps exactly the given text.
#[verifier::external_body]
fn wrap(text: String) -> (secret: Secret)
    ensures
        secret_text(secret) == text@,
{
    Secret { inner: secrecy::Secret::new(text) }
}

/// `secrecy::ExposeSecret::expose_secret`: a reference to the wrapped text.
#[verifier::external_body]
fn exposed(secret: &Secret) -> (text: &String)
    ensures
        text@ == secret_text(*secret),
{
    secrecy::ExposeSecret::expose_secret(&secret.inner)
}

/// `Clone::clone` of `secrecy::Secret`: a second secret that wraps the same text.
#[verifier::external_body]
fn duplicate(secret: &Secret) -> (copy: Secret)
    ensures
        secret_text(copy) == secret_text(*secret),
{
    Secret { inner: secret.inner.clone() }
}

impl Clone for Secret {
    fn clone(&self) -> (copy: Secret)
        ensures
            copy@ == self@,
    {
        duplicate(self)
    }
}

impl Secret {
    /// Wraps `text` as a secret.
    pub fn new(text: String) -> (secret: Secret)
        ensures
            secret@ == text@,
    {
        wrap(text)
    }

    /// The wrapped text, for the one place that has to send it.
    pub fn expose_secret(&self) -> (text: &String)
        ensures
            text@ == self@,
    {
        exposed(self)
    }
}

} // verus!
