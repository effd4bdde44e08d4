//! Options and results of the access-dialog portal.
//!
//! An access dialog asks the user to grant or deny something. The caller
//! sends a dictionary of optional presentation hints; the reply carries the
//! selections the user made among the offered choices. The dialog itself is
//! a business operation run by an implementation outside this library and
//! driven through the request lifecycle of [`crate::driver`].

use vstd::prelude::*;

verus! {

/// One choice offered in a dialog: an identifier and the label shown for it.
pub struct Choice {
    id: String,
    label: String,
}

impl Choice {
    /// Mathematical content of the choice: identifier and label.
    pub closed spec fn spec_id(self) -> Seq<char> {
        self.id@
    }

    /// The label shown to the user.
    pub closed spec fn spec_label(self) -> Seq<char> {
        self.label@
    }

    /// A choice with the given identifier and label.
    pub fn new(id: String, label: String) -> (r: Self)
        ensures
            r.spec_id() == id@,
            r.spec_label() == label@,
    {
        Choice { id, label }
    }

    /// The identifier of this choice.
    pub fn id(&self) -> (r: &str)
        ensures
            r@ == self.spec_id(),
    {
        self.id.as_str()
    }

    /// The label of this choice.
    pub fn label(&self) -> (r: &str)
        ensures
            r@ == self.spec_label(),
    {
        self.label.as_str()
    }
}

/// A themed icon, named by one or more icon names.
pub struct Icon {
    names: Vec<String>,
}

impl View for Icon {
    type V = Seq<Seq<char>>;

    closed spec fn view(&self) -> Seq<Seq<char>> {
        self.names@.map_values(|s: String| s@)
    }
}

impl Icon {
    /// An icon carrying exactly the given names.
    pub fn with_names(names: Vec<String>) -> (r: Self)
        ensures
            r@ == names@.map_values(|s: String| s@),
    {
        Icon { names }
    }

    /// The icon names, in order.
    pub fn names(&self) -> (r: &Vec<String>)
        ensures
            r@.map_values(|s: String| s@) == self@,
    {
        &self.names
    }
}

/// The optional presentation hints of an access dialog, as the caller sent
/// them. Every field may be absent.
pub struct AccessOptions {
    modal: Option<bool>,
    deny_label: Option<String>,
    grant_label: Option<String>,
    icon: Option<String>,
    choices: Option<Vec<Choice>>,
}

impl AccessOptions {
    /// Whether the dialog was asked to be modal, if the caller said.
    pub closed spec fn spec_modal(self) -> Option<bool> {
        self.modal
    }

    /// The label asked for the deny button, if any.
    pub closed spec fn spec_deny_label(self) -> Option<Seq<char>> {
        match self.deny_label {
            Some(s) => Some(s@),
            None => None,
        }
    }

    /// The label asked for the grant button, if any.
    pub closed spec fn spec_grant_label(self) -> Option<Seq<char>> {
        match self.grant_label {
            Some(s) => Some(s@),
            None => None,
        }
    }

    /// The icon name sent for the dialog, if any.
    pub closed spec fn spec_icon(self) -> Option<Seq<char>> {
        match self.icon {
            Some(s) => Some(s@),
            None => None,
        }
    }

    /// The choices to offer; an absent field means none.
    pub closed spec fn spec_choices(self) -> Seq<Choice> {
        match self.choices {
            Some(v) => v@,
            None => Seq::empty(),
        }
    }

    /// Options as decoded from the caller's dictionary, each field absent
    /// when the caller did not send it.
    pub fn new(
        modal: Option<bool>,
        deny_label: Option<String>,
        grant_label: Option<String>,
        icon: Option<String>,
        choices: Option<Vec<Choice>>,
    ) -> (r: Self)
        ensures
            r.spec_modal() == modal,
            deny_label matches Some(s) ==> r.spec_deny_label() == Some(s@),
            deny_label is None ==> r.spec_deny_label() is None,
            grant_label matches Some(s) ==> r.spec_grant_label() == Some(s@),
            grant_label is None ==> r.spec_grant_label() is None,
            icon matches Some(s) ==> r.spec_icon() == Some(s@),
            icon is None ==> r.spec_icon() is None,
            choices matches Some(v) ==> r.spec_choices() == v@,
            choices is None ==> r.spec_choices() == Seq::<Choice>::empty(),
    {
        AccessOptions { modal, deny_label, grant_label, icon, choices }
    }

    /// Whether the dialog should be modal.
    pub fn is_modal(&self) -> (r: Option<bool>)
        ensures
            r == self.spec_modal(),
    {
        self.modal
    }

    /// Label of the deny button.
    pub fn deny_label(&self) -> (r: Option<&str>)
        ensures
            r matches Some(s) ==> self.spec_deny_label() == Some(s@),
            r is Some <==> self.spec_deny_label() is Some,
    {
        match &self.deny_label {
            Some(s) => Some(s.as_str()),
            None => None,
        }
    }

    /// Label of the grant button.
    pub fn grant_label(&self) -> (r: Option<&str>)
        ensures
            r matches Some(s) ==> self.spec_grant_label() == Some(s@),
            r is Some <==> self.spec_grant_label() is Some,
    {
        match &self.grant_label {
            Some(s) => Some(s.as_str()),
            None => None,
        }
    }

    /// The dialog icon, built from the one name the caller sent.
    pub fn icon(&self) -> (r: Option<Icon>)
        ensures
            r is Some <==> self.spec_icon() is Some,
            r matches Some(ic) ==> (self.spec_icon() matches Some(n) && ic@ == seq![n]),
    {
        match &self.icon {
            Some(s) => {
                let mut names: Vec<String> = Vec::new();
                names.push(s.clone());
                let ic = Icon::with_names(names);
                proof {
                    assert(ic@ =~= seq![s@]);
                }
                Some(ic)
            },
            None => None,
        }
    }

    /// The choices to offer the user, empty when the caller sent none.
    pub fn choices(&self) -> (r: Vec<Choice>)
        ensures
            r@ == self.spec_choices(),
    {
        let mut out: Vec<Choice> = Vec::new();
        match &self.choices {
            Some(v) => {
                let n = v.len();
                let mut i: usize = 0;
                while i < n
                    invariant
                        i <= n,
                        n == v@.len(),
                        out@ == v@.take(i as int),
                    decreases n - i,
                {
                    out.push(Choice { id: v[i].id.clone(), label: v[i].label.clone() });
                    proof {
                        assert(out@ =~= v@.take(i + 1 as int));
                    }
                    i = i + 1;
                }
                proof {
                    assert(v@.take(n as int) =~= v@);
                }
            },
            None => {},
        }
        out
    }
}

/// The reply of an access dialog: the selections the user made, as
/// (choice identifier, picked value) pairs.
pub struct AccessResponse {
    choices: Option<Vec<(String, String)>>,
}

impl AccessResponse {
    /// The selections carried, in the order they were added.
    pub closed spec fn spec_selections(self) -> Seq<(Seq<char>, Seq<char>)> {
        match self.choices {
            Some(v) => v@.map_values(|p: (String, String)| (p.0@, p.1@)),
            None => Seq::empty(),
        }
    }

    /// The selections carried, in the order they were added.
    pub fn selections(&self) -> (r: Vec<(String, String)>)
        ensures
            r@.map_values(|p: (String, String)| (p.0@, p.1@)) == self.spec_selections(),
    {
        let mut out: Vec<(String, String)> = Vec::new();
        match &self.choices {
            Some(v) => {
                let n = v.len();
                let mut i: usize = 0;
                while i < n
                    invariant
                        i <= n,
                        n == v@.len(),
                        out@ == v@.take(i as int),
                    decreases n - i,
                {
                    out.push((v[i].0.clone(), v[i].1.clone()));
                    proof {
                        assert(out@ =~= v@.take(i + 1 as int));
                    }
                    i = i + 1;
                }
                proof {
                    assert(v@.take(n as int) =~= v@);
                }
            },
            None => {},
        }
        out
    }

    /// Adds a selected choice (key, value).
    #[must_use]
    pub fn choice(self, key: &str, value: &str) -> (r: Self)
        ensures
            r.spec_selections() == self.spec_selections().push((key@, value@)),
    {
        let ghost pre = self.spec_selections();
        let mut v: Vec<(String, String)> = match self.choices {
            Some(v) => v,
            None => Vec::new(),
        };
        v.push((key.to_owned(), value.to_owned()));
        let r = AccessResponse { choices: Some(v) };
        proof {
            assert(r.spec_selections() =~= pre.push((key@, value@)));
        }
        r
    }
}

impl Default for AccessResponse {
    /// A reply with no selections.
    fn default() -> (r: Self)
        ensures
            r.spec_selections() == Seq::<(Seq<char>, Seq<char>)>::empty(),
    {
        AccessResponse { choices: None }
    }
}

} // verus!
