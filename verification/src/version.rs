use vstd::prelude::*;
use crate::error::{Error, ErrorKind, ErrorView};
use crate::member::{Member, MemberSpec, MemberSpecView, MemberView, Workload, WorkloadView};
use crate::text::{find_char, find_from, free_of, lemma_find_from, lemma_find_from_is, slice};

verus! {

/// The version of the secrets engine that an image reference names: its tag.
///
/// Two versions are the same exactly when their tags hold the same characters. No order
/// is defined on versions.
#[derive(Clone, Debug, Hash)]
pub struct VaultVersion {
    pub version: String,
}

impl View for VaultVersion {
    type V = Seq<char>;

    open spec fn view(&self) -> Seq<char> {
        self.version@
    }
}

impl DeepView for VaultVersion {
    type V = Seq<char>;

    open spec fn deep_view(&self) -> Seq<char> {
        self.version@
    }
}

impl PartialEq for VaultVersion {
    fn eq(&self, other: &VaultVersion) -> (same: bool) {
        self.version == other.version
    }
}

impl Eq for VaultVersion {

}

impl vstd::std_specs::cmp::PartialEqSpecImpl for VaultVersion {
    open spec fn obeys_eq_spec() -> bool {
        true
    }

    open spec fn eq_spec(&self, other: &VaultVersion) -> bool {
        self.version@ == other.version@
    }
}

/// The tag of an image reference: the characters between its first colon and the next
/// one, or its end. A reference without a colon has no tag.
pub open spec fn image_tag(image: Seq<char>) -> Option<Seq<char>> {
    let first = find_from(image, ':', 0);
    if first < image.len() {
        Some(image.subrange(first + 1, find_from(image, ':', first + 1)))
    } else {
        None
    }
}

/// Extracts the tag of an image reference.
pub fn extract_tag(image: &str) -> (tag: Option<String>)
    ensures
        tag.deep_view() == image_tag(image@),
{
    let len = image.unicode_len();
    let first = find_char(image, ':', 0);
    proof {
        lemma_find_from(image@, ':', 0);
    }
    if first < len {
        let next = find_char(image, ':', first + 1);
        proof {
            lemma_find_from(image@, ':', first + 1);
        }
        Some(slice(image, first + 1, next))
    } else {
        None
    }
}

/// The model of the result of reading a version.
pub open spec fn version_view(result: Result<VaultVersion, Error>) -> Result<
    Seq<char>,
    ErrorView,
> {
    match result {
        Ok(version) => Ok(version@),
        Err(error) => Err(error@),
    }
}

/// A naming error with the given message.
pub open spec fn naming_error(message: Seq<char>) -> ErrorView {
    ErrorView { kind: ErrorKind::Naming, message }
}

/// The version that the first of the given containers runs. `owner` names the
/// resource in the messages.
pub open spec fn spec_version(spec: MemberSpecView, owner: Seq<char>) -> Result<
    Seq<char>,
    ErrorView,
> {
    if spec.containers.len() == 0 {
        Err(naming_error(owner + " does not have a container"@))
    } else {
        match spec.containers[0].image {
            None => Err(naming_error("container does not have an image"@)),
            Some(image) => match image_tag(image) {
                None => Err(naming_error("image does not have a tag"@)),
                Some(tag) => Ok(tag),
            },
        }
    }
}

/// The version that a member runs: the tag of the image of its first container.
pub open spec fn member_version(member: MemberView) -> Result<Seq<char>, ErrorView> {
    match member.spec {
        None => Err(naming_error("pod does not have a spec"@)),
        Some(spec) => spec_version(spec, "pod"@),
    }
}

/// The version that a workload asks of its members: the tag of the image of the first
/// container of its template.
pub open spec fn workload_version(workload: WorkloadView) -> Result<Seq<char>, ErrorView> {
    match workload.spec {
        None => Err(naming_error("statefulset does not have a spec"@)),
        Some(spec) => match spec.template {
            None => Err(naming_error("statefulset does not have a pod spec"@)),
            Some(template) => spec_version(template, "statefulset"@),
        },
    }
}

/// Reads the version that the first of the given containers runs.
fn version_of_spec(spec: &MemberSpec, owner: &str) -> (version: Result<VaultVersion, Error>)
    ensures
        version_view(version) == spec_version(spec@, owner@),
{
    if spec.containers.len() == 0 {
        let message = crate::text::join2(owner, " does not have a container");
        return Err(Error { kind: ErrorKind::Naming, message });
    }
    match &spec.containers[0].image {
        None => Err(Error::new(ErrorKind::Naming, "container does not have an image")),
        Some(image) => match extract_tag(image.as_str()) {
            None => Err(Error::new(ErrorKind::Naming, "image does not have a tag")),
            Some(version) => Ok(VaultVersion { version }),
        },
    }
}

impl TryFrom<&Member> for VaultVersion {
    type Error = Error;

    /// The version that a member runs.
    fn try_from(pod: &Member) -> (version: Result<VaultVersion, Error>)
        ensures
            version_view(version) == member_version(pod@),
    {
        match &pod.spec {
            None => Err(Error::new(ErrorKind::Naming, "pod does not have a spec")),
            Some(spec) => version_of_spec(spec, "pod"),
        }
    }
}

/// What `try_from` returns for a member is stated by its own `ensures`, over
/// [`member_version`]; no second statement is made here.
impl vstd::std_specs::convert::TryFromSpecImpl<&Member> for VaultVersion {
    open spec fn obeys_try_from_spec() -> bool {
        false
    }

    open spec fn try_from_spec(pod: &Member) -> Result<VaultVersion, Error> {
        arbitrary()
    }
}

/// What `try_from` returns for a workload is stated by its own `ensures`, over
/// [`workload_version`]; no second statement is made here.
impl vstd::std_specs::convert::TryFromSpecImpl<&Workload> for VaultVersion {
    open spec fn obeys_try_from_spec() -> bool {
        false
    }

    open spec fn try_from_spec(statefulset: &Workload) -> Result<VaultVersion, Error> {
        arbitrary()
    }
}

impl TryFrom<&Workload> for VaultVersion {
    type Error = Error;

    /// The version that a workload asks of its members.
    fn try_from(statefulset: &Workload) -> (version: Result<VaultVersion, Error>)
        ensures
            version_view(version) == workload_version(statefulset@),
    {
        match &statefulset.spec {
            None => Err(Error::new(ErrorKind::Naming, "statefulset does not have a spec")),
            Some(spec) => match &spec.template {
                None => Err(Error::new(ErrorKind::Naming, "statefulset does not have a pod spec")),
                Some(template) => version_of_spec(template, "statefulset"),
            },
        }
    }
}

impl VaultVersion {
    /// The version with the given tag. Every text is a version.
    pub fn from_str(s: &str) -> (version: Result<VaultVersion, Error>)
        ensures
            version_view(version) == Ok::<Seq<char>, ErrorView>(s@),
    {
        Ok(VaultVersion { version: String::from_str(s) })
    }
}

/// The tag of a reference made of a repository, a colon and a tag is that tag, where
/// neither the repository nor the tag holds a colon.
pub proof fn tag_of_tagged_reference(repository: Seq<char>, tag: Seq<char>)
    requires
        free_of(repository, ':'),
        free_of(tag, ':'),
    ensures
        image_tag(repository + seq![':'] + tag) == Some(tag),
{
    let image = repository + seq![':'] + tag;
    let first = repository.len() as int;
    lemma_find_from_is(image, ':', 0, first);
    assert forall|j: int| first + 1 <= j < image.len() implies image[j] != ':' by {
        assert(image[j] == tag[j - first - 1]);
    }
    lemma_find_from_is(image, ':', first + 1, image.len() as int);
    assert(image.subrange(first + 1, image.len() as int) =~= tag);
}

/// A reference without a colon has no tag.
pub proof fn untagged_reference_has_no_tag(image: Seq<char>)
    requires
        free_of(image, ':'),
    ensures
        image_tag(image) is None,
{
    lemma_find_from_is(image, ':', 0, image.len() as int);
}

/// A reference has a tag exactly when it holds a colon.
pub proof fn tagged_iff_colon(image: Seq<char>)
    ensures
        image_tag(image) is Some <==> !free_of(image, ':'),
{
    lemma_find_from(image, ':', 0);
    if free_of(image, ':') {
        untagged_reference_has_no_tag(image);
    }
}

} // verus!
