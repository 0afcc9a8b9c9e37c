use vstd::prelude::*;
use crate::error::{Error, ErrorKind, ErrorView};
use crate::member::{Member, MemberView};
use crate::text::{join2, join3, text_eq};

verus! {

/// The model of a result whose error is an [`Error`].
pub open spec fn result_view<T>(result: Result<T, Error>) -> Result<T, ErrorView> {
    match result {
        Ok(value) => Ok(value),
        Err(error) => Err(error@),
    }
}

/// Which of the supported secrets engines a cluster runs. The flavor decides the label
/// keys and the header names.
#[derive(Clone, Copy, Debug, PartialEq, Eq, Structural)]
pub enum Flavor {
    OpenBao,
    Vault,
}

/// The lower-case form of a text, as `str::to_lowercase` computes it.
pub uninterp spec fn lowercase(text: Seq<char>) -> Seq<char>;

/// `str::to_lowercase`: the lower-case form of `text`.
#[verifier::external_body]
fn to_lowercase(text: &str) -> (lower: String)
    ensures
        lower@ == lowercase(text@),
{
    text.to_lowercase()
}

/// The flavor that a lower-case name stands for.
pub open spec fn flavor_named(lower: Seq<char>) -> Option<Flavor> {
    if lower == "openbao"@ {
        Some(Flavor::OpenBao)
    } else if lower == "vault"@ {
        Some(Flavor::Vault)
    } else {
        None
    }
}

impl Flavor {
    /// The name of the flavor, as it stands in label keys, header names and selectors.
    pub open spec fn name(self) -> Seq<char> {
        match self {
            Flavor::OpenBao => "openbao"@,
            Flavor::Vault => "vault"@,
        }
    }

    /// The name of the flavor.
    pub fn to_string(&self) -> (name: String)
        ensures
            name@ == self.name(),
    {
        match self {
            Flavor::OpenBao => String::from_str("openbao"),
            Flavor::Vault => String::from_str("vault"),
        }
    }

    /// The name of the container that runs the engine: the name of the flavor.
    pub fn container_name(&self) -> (name: String)
        ensures
            name@ == self.name(),
    {
        self.to_string()
    }

    /// The flavor with the given lower-case name.
    pub fn from_lowercase(lower: &str) -> (flavor: Option<Flavor>)
        ensures
            flavor == flavor_named(lower@),
    {
        if text_eq(lower, "openbao") {
            Some(Flavor::OpenBao)
        } else if text_eq(lower, "vault") {
            Some(Flavor::Vault)
        } else {
            None
        }
    }

    /// Reads a flavor from its name, in any mix of upper and lower case. Any other text is
    /// refused with the message `invalid flavor: ` and the text.
    pub fn from_str(s: &str) -> (flavor: Result<Flavor, String>)
        ensures
            match flavor_named(lowercase(s@)) {
                Some(f) => flavor == Ok::<Flavor, String>(f),
                None => flavor is Err && flavor->Err_0@ == "invalid flavor: "@ + s@,
            },
    {
        let lower = to_lowercase(s);
        match Flavor::from_lowercase(lower.as_str()) {
            Some(f) => Ok(f),
            None => Err(join2("invalid flavor: ", s)),
        }
    }
}

/// By what the members of a listing are selected.
#[derive(Clone, Debug, PartialEq, Eq)]
pub struct ListParams {
    /// The label selector that the listed members match; every member, where there is
    /// none.
    pub label_selector: Option<String>,
}

impl View for ListParams {
    type V = Option<Seq<char>>;

    /// The label selector.
    open spec fn view(&self) -> Option<Seq<char>> {
        self.label_selector.deep_view()
    }
}

impl ListParams {
    /// The same parameters with the given label selector in place of the one that they
    /// had.
    pub fn labels(self, label_selector: &str) -> (params: ListParams)
        ensures
            params@ == Some(label_selector@),
    {
        ListParams { label_selector: Some(String::from_str(label_selector)) }
    }
}

/// The selector that every member of a cluster of the given flavor matches.
pub open spec fn member_selector(flavor: Seq<char>) -> Seq<char> {
    "app.kubernetes.io/name="@ + flavor
}

/// The parameters by which all members of a cluster of the given flavor are listed.
pub fn list_vault_pods(flavor: &str) -> (params: ListParams)
    ensures
        params@ == Some(member_selector(flavor@)),
{
    ListParams { label_selector: Some(join2("app.kubernetes.io/name=", flavor)) }
}

/// The key of the label that says whether a member is sealed.
pub open spec fn sealed_key(flavor: Seq<char>) -> Seq<char> {
    flavor + "-sealed"@
}

/// The key of the label that says whether a member is the active one.
pub open spec fn active_key(flavor: Seq<char>) -> Seq<char> {
    flavor + "-active"@
}

/// The key of the label that says whether a member has been initialized.
pub open spec fn initialized_key(flavor: Seq<char>) -> Seq<char> {
    flavor + "-initialized"@
}

/// The key of the label that says whether a member is sealed.
pub fn sealed_label_key(flavor: &str) -> (key: String)
    ensures
        key@ == sealed_key(flavor@),
{
    join2(flavor, "-sealed")
}

/// The key of the label that says whether a member is the active one.
pub fn active_label_key(flavor: &str) -> (key: String)
    ensures
        key@ == active_key(flavor@),
{
    join2(flavor, "-active")
}

/// The key of the label that says whether a member has been initialized.
pub fn initialized_label_key(flavor: &str) -> (key: String)
    ensures
        key@ == initialized_key(flavor@),
{
    join2(flavor, "-initialized")
}

/// What a label that must be `true` or `false` says: the truth value, or a labeling
/// error where the member has no labels, lacks the label, or holds another value in it.
pub open spec fn flag_label(member: MemberView, key: Seq<char>) -> Result<bool, ErrorView> {
    match member.labels {
        None => Err(ErrorView { kind: ErrorKind::Labeling, message: "pod does not have labels"@ }),
        Some(labels) => if labels.contains_key(key) && labels[key] == "true"@ {
            Ok(true)
        } else if labels.contains_key(key) && labels[key] == "false"@ {
            Ok(false)
        } else {
            Err(
                ErrorView {
                    kind: ErrorKind::Labeling,
                    message: "pod does not have a "@ + key + " label"@,
                },
            )
        },
    }
}

/// Reads a label that must be `true` or `false`.
pub fn read_flag_label(member: &Member, key: &str) -> (flag: Result<bool, Error>)
    ensures
        result_view(flag) == flag_label(member@, key@),
{
    if member.labels.is_none() {
        return Err(Error::new(ErrorKind::Labeling, "pod does not have labels"));
    }
    match member.label(key) {
        Some(value) => {
            if text_eq(value.as_str(), "true") {
                return Ok(true);
            }
            if text_eq(value.as_str(), "false") {
                return Ok(false);
            }
        },
        None => {},
    }
    let message = join3("pod does not have a ", key, " label");
    Err(Error { kind: ErrorKind::Labeling, message })
}

/// Whether the labels of a member say that it is sealed.
pub open spec fn sealed_flag(member: MemberView, flavor: Seq<char>) -> Result<bool, ErrorView> {
    flag_label(member, sealed_key(flavor))
}

/// Whether the labels of a member say that it is the active one.
pub open spec fn active_flag(member: MemberView, flavor: Seq<char>) -> Result<bool, ErrorView> {
    flag_label(member, active_key(flavor))
}

/// Whether the member is sealed, by its labels. Fails with a labeling error where the
/// member has no labels or its seal label is neither `true` nor `false`.
pub fn is_sealed(pod: &Member, flavor: &str) -> (sealed: Result<bool, Error>)
    ensures
        result_view(sealed) == sealed_flag(pod@, flavor@),
{
    let key = sealed_label_key(flavor);
    read_flag_label(pod, key.as_str())
}

/// Whether the member is the active one, by its labels. Fails with a labeling error where
/// the member has no labels or its leadership label is neither `true` nor `false`.
pub fn is_active(pod: &Member, flavor: &str) -> (active: Result<bool, Error>)
    ensures
        result_view(active) == active_flag(pod@, flavor@),
{
    let key = active_label_key(flavor);
    read_flag_label(pod, key.as_str())
}

} // verus!
