//! Options of the print portal's two operations.
//!
//! `prepare_print` lets the user pick settings and hands back a token;
//! `print` then submits a document under that token. Both are business
//! operations run by an implementation outside this library and driven
//! through the request lifecycle of [`crate::driver`]. Only their option
//! dictionaries, as the caller sent them, are modelled here.

use vstd::prelude::*;

verus! {

/// The optional hints of a `prepare_print` call.
pub struct PreparePrintOptions {
    modal: Option<bool>,
    accept_label: Option<String>,
}

impl PreparePrintOptions {
    /// Whether the dialog was asked to be modal, if the caller said.
    pub closed spec fn spec_modal(self) -> Option<bool> {
        self.modal
    }

    /// The label asked for the accept button, if any.
    pub closed spec fn spec_accept_label(self) -> Option<Seq<char>> {
        match self.accept_label {
            Some(s) => Some(s@),
            None => None,
        }
    }

    /// Options as decoded from the caller's dictionary.
    pub fn new(modal: Option<bool>, accept_label: Option<String>) -> (r: Self)
        ensures
            r.spec_modal() == modal,
            accept_label matches Some(s) ==> r.spec_accept_label() == Some(s@),
            accept_label is None ==> r.spec_accept_label() is None,
    {
        PreparePrintOptions { modal, accept_label }
    }

    /// Whether the dialog should be modal.
    pub fn is_modal(&self) -> (r: Option<bool>)
        ensures
            r == self.spec_modal(),
    {
        self.modal
    }

    /// Label of the accept button.
    pub fn accept_label(&self) -> (r: Option<&str>)
        ensures
            r matches Some(s) ==> self.spec_accept_label() == Some(s@),
            r is Some <==> self.spec_accept_label() is Some,
    {
        match &self.accept_label {
            Some(s) => Some(s.as_str()),
            None => None,
        }
    }
}

/// The optional hints of a `print` call.
pub struct PrintOptions {
    modal: Option<bool>,
    token: Option<u32>,
}

impl PrintOptions {
    /// Whether the dialog was asked to be modal, if the caller said.
    pub closed spec fn spec_modal(self) -> Option<bool> {
        self.modal
    }

    /// The token of the `prepare_print` call this print follows, if any.
    pub closed spec fn spec_token(self) -> Option<u32> {
        self.token
    }

    /// Options as decoded from the caller's dictionary.
    pub fn new(modal: Option<bool>, token: Option<u32>) -> (r: Self)
        ensures
            r.spec_modal() == modal,
            r.spec_token() == token,
    {
        PrintOptions { modal, token }
    }

    /// Whether the dialog should be modal.
    pub fn is_modal(&self) -> (r: Option<bool>)
        ensures
            r == self.spec_modal(),
    {
        self.modal
    }

    /// The token tying this print to its prepared settings.
    pub fn token(&self) -> (r: Option<u32>)
        ensures
            r == self.spec_token(),
    {
        self.token
    }
}

} // verus!
