//! Information about the installed .NET environment (SDKs and frameworks) and its order.

use vstd::prelude::*;

use crate::path::{same_path, same_path_bytes};
use crate::text::{
    compare_text, lemma_lexicographic_antisymmetric, lemma_lexicographic_first_difference,
    lemma_lexicographic_transitive, lemma_text_order_equal, lemma_text_starts_with_itself, text_bytes,
    text_order, text_starts_with, text_starts_with_text, TextOrder,
};
use core::cmp::Ordering;
use vstd::std_specs::cmp::{PartialEqSpec, PartialEqSpecImpl, PartialOrdSpec, PartialOrdSpecImpl};

verus! {

/// Information about the current dotnet environment, as reported by hostfxr.
#[derive(Debug, Clone)]
pub struct EnvironmentInfo {
    /// Version of hostfxr used to load this info.
    pub hostfxr_version: String,
    /// Commit hash of hostfxr used to load this info.
    pub hostfxr_commit_hash: String,
    /// Currently installed sdks, ordered by version ascending.
    pub sdks: Vec<SdkInfo>,
    /// Currently installed frameworks, ordered by name and then version ascending.
    pub frameworks: Vec<FrameworkInfo>,
}

/// A struct representing an installed sdk.
#[derive(Debug, Clone)]
pub struct SdkInfo {
    /// The version of the sdk.
    pub version: String,
    /// The directory containing the sdk, as the bytes of the path.
    pub path: Vec<u8>,
}

/// A struct representing an installed framework.
#[derive(Debug, Clone)]
pub struct FrameworkInfo {
    /// The name of the framework.
    pub name: String,
    /// The version of the framework.
    pub version: String,
    /// The directory containing the framework, as the bytes of the path.
    pub path: Vec<u8>,
}

/// The standard ordering that a text comparison stands for.
pub open spec fn ordering_of(o: TextOrder) -> Ordering {
    match o {
        TextOrder::Less => Ordering::Less,
        TextOrder::Equal => Ordering::Equal,
        TextOrder::Greater => Ordering::Greater,
    }
}

fn to_ordering(o: TextOrder) -> (r: Ordering)
    ensures
        r == ordering_of(o),
{
    match o {
        TextOrder::Less => Ordering::Less,
        TextOrder::Equal => Ordering::Equal,
        TextOrder::Greater => Ordering::Greater,
    }
}

/// Whether two commit hashes denote the same commit: one of them is a prefix of the other, so an
/// abbreviated hash matches the full one.
pub open spec fn commit_hashes_match(a: Seq<char>, b: Seq<char>) -> bool {
    text_starts_with(a, b) || text_starts_with(b, a)
}

impl SdkInfo {
    /// The equality of SDKs: same version, and paths with the same components.
    pub open spec fn same_sdk(self, other: SdkInfo) -> bool {
        self.version@ == other.version@ && same_path(self.path@, other.path@)
    }

    /// The order of SDKs: by version only.
    pub open spec fn sdk_order(self, other: SdkInfo) -> Ordering {
        ordering_of(text_order(self.version@, other.version@))
    }

    /// Compares two SDKs by their version.
    pub fn cmp(&self, other: &Self) -> (r: Ordering)
        ensures
            r == self.sdk_order(*other),
    {
        to_ordering(compare_text(self.version.as_str(), other.version.as_str()))
    }
}

impl PartialEq for SdkInfo {
    fn eq(&self, other: &Self) -> (r: bool) {
        self.version == other.version && same_path_bytes(self.path.as_slice(), other.path.as_slice())
    }
}

impl PartialEqSpecImpl for SdkInfo {
    open spec fn obeys_eq_spec() -> bool {
        true
    }

    open spec fn eq_spec(&self, other: &SdkInfo) -> bool {
        self.same_sdk(*other)
    }
}

impl Eq for SdkInfo {}

impl PartialOrd for SdkInfo {
    fn partial_cmp(&self, other: &Self) -> (r: Option<Ordering>) {
        Some(self.cmp(other))
    }
}

impl PartialOrdSpecImpl for SdkInfo {
    open spec fn obeys_partial_cmp_spec() -> bool {
        true
    }

    open spec fn partial_cmp_spec(&self, other: &SdkInfo) -> Option<Ordering> {
        Some(self.sdk_order(*other))
    }
}

impl FrameworkInfo {
    /// The equality of frameworks: same name, same version, and paths with the same components.
    pub open spec fn same_framework(self, other: FrameworkInfo) -> bool {
        self.name@ == other.name@ && self.version@ == other.version@ && same_path(self.path@, other.path@)
    }

    /// The order of frameworks: by name, then by version.
    pub open spec fn framework_order(self, other: FrameworkInfo) -> Ordering {
        match text_order(self.name@, other.name@) {
            TextOrder::Equal => ordering_of(text_order(self.version@, other.version@)),
            o => ordering_of(o),
        }
    }

    /// Compares two frameworks by their name and then by their version.
    pub fn cmp(&self, other: &Self) -> (r: Ordering)
        ensures
            r == self.framework_order(*other),
    {
        match compare_text(self.name.as_str(), other.name.as_str()) {
            TextOrder::Equal => to_ordering(compare_text(self.version.as_str(), other.version.as_str())),
            o => to_ordering(o),
        }
    }
}

impl PartialEq for FrameworkInfo {
    fn eq(&self, other: &Self) -> (r: bool) {
        self.name == other.name && self.version == other.version && same_path_bytes(
            self.path.as_slice(),
            other.path.as_slice(),
        )
    }
}

impl PartialEqSpecImpl for FrameworkInfo {
    open spec fn obeys_eq_spec() -> bool {
        true
    }

    open spec fn eq_spec(&self, other: &FrameworkInfo) -> bool {
        self.same_framework(*other)
    }
}

impl Eq for FrameworkInfo {}

impl PartialOrd for FrameworkInfo {
    fn partial_cmp(&self, other: &Self) -> (r: Option<Ordering>) {
        Some(self.cmp(other))
    }
}

impl PartialOrdSpecImpl for FrameworkInfo {
    open spec fn obeys_partial_cmp_spec() -> bool {
        true
    }

    open spec fn partial_cmp_spec(&self, other: &FrameworkInfo) -> Option<Ordering> {
        Some(self.framework_order(*other))
    }
}

impl EnvironmentInfo {
    /// Two lists of SDKs are equal: same length, and equal SDKs at each position.
    pub open spec fn sdks_equal(a: Seq<SdkInfo>, b: Seq<SdkInfo>) -> bool {
        a.len() == b.len() && forall|i: int| 0 <= i < a.len() ==> (#[trigger] a[i]).same_sdk(b[i])
    }

    /// Two lists of frameworks are equal: same length, and equal frameworks at each position.
    pub open spec fn frameworks_equal(a: Seq<FrameworkInfo>, b: Seq<FrameworkInfo>) -> bool {
        a.len() == b.len() && forall|i: int| 0 <= i < a.len() ==> (#[trigger] a[i]).same_framework(b[i])
    }

    /// The equality of environments: same hostfxr version, matching commit hashes (one may be
    /// abbreviated), and equal lists of SDKs and frameworks.
    pub open spec fn same_environment(self, other: EnvironmentInfo) -> bool {
        &&& self.hostfxr_version@ == other.hostfxr_version@
        &&& commit_hashes_match(self.hostfxr_commit_hash@, other.hostfxr_commit_hash@)
        &&& Self::sdks_equal(self.sdks@, other.sdks@)
        &&& Self::frameworks_equal(self.frameworks@, other.frameworks@)
    }

    /// The order of environments: by hostfxr version only.
    pub open spec fn environment_order(self, other: EnvironmentInfo) -> Ordering {
        ordering_of(text_order(self.hostfxr_version@, other.hostfxr_version@))
    }
}

impl PartialEq for EnvironmentInfo {
    fn eq(&self, other: &Self) -> (r: bool) {
        self.hostfxr_version == other.hostfxr_version && (text_starts_with_text(
            self.hostfxr_commit_hash.as_str(),
            other.hostfxr_commit_hash.as_str(),
        ) || text_starts_with_text(other.hostfxr_commit_hash.as_str(), self.hostfxr_commit_hash.as_str()))
            && self.sdks == other.sdks && self.frameworks == other.frameworks
    }
}

impl PartialEqSpecImpl for EnvironmentInfo {
    open spec fn obeys_eq_spec() -> bool {
        true
    }

    open spec fn eq_spec(&self, other: &EnvironmentInfo) -> bool {
        self.same_environment(*other)
    }
}

impl Eq for EnvironmentInfo {}

impl PartialOrd for EnvironmentInfo {
    fn partial_cmp(&self, other: &Self) -> (r: Option<Ordering>) {
        Some(to_ordering(compare_text(self.hostfxr_version.as_str(), other.hostfxr_version.as_str())))
    }
}

impl PartialOrdSpecImpl for EnvironmentInfo {
    open spec fn obeys_partial_cmp_spec() -> bool {
        true
    }

    open spec fn partial_cmp_spec(&self, other: &EnvironmentInfo) -> Option<Ordering> {
        Some(self.environment_order(*other))
    }
}

/// SDKs are ordered by the UTF-8 bytes of their versions, read from the front: at the first byte
/// where the versions differ, the SDK with the smaller byte comes first; a version that ends there
/// comes first; and SDKs with the same version compare equal, whatever their paths.
pub proof fn lemma_sdk_order_by_version_bytes(a: SdkInfo, b: SdkInfo, i: int)
    requires
        0 <= i <= text_bytes(a.version@).len(),
        i <= text_bytes(b.version@).len(),
        text_bytes(a.version@).subrange(0, i) == text_bytes(b.version@).subrange(0, i),
    ensures
        i < text_bytes(a.version@).len() && i < text_bytes(b.version@).len() && text_bytes(a.version@)[i] < text_bytes(b.version@)[i] ==> PartialOrdSpec::partial_cmp_spec(&a, &b)
            == Some(Ordering::Less),
        i < text_bytes(a.version@).len() && i < text_bytes(b.version@).len() && text_bytes(a.version@)[i] > text_bytes(b.version@)[i] ==> PartialOrdSpec::partial_cmp_spec(&a, &b)
            == Some(Ordering::Greater),
        i == text_bytes(a.version@).len() && i < text_bytes(b.version@).len() ==> PartialOrdSpec::partial_cmp_spec(&a, &b) == Some(Ordering::Less),
        i < text_bytes(a.version@).len() && i == text_bytes(b.version@).len() ==> PartialOrdSpec::partial_cmp_spec(&a, &b) == Some(Ordering::Greater),
        a.version@ == b.version@ ==> PartialOrdSpec::partial_cmp_spec(&a, &b) == Some(Ordering::Equal),
{
    lemma_lexicographic_first_difference(text_bytes(a.version@), text_bytes(b.version@), i);
    if a.version@ == b.version@ {
        lemma_text_order_equal(a.version@, b.version@);
    }
}

/// Environments are ordered by the UTF-8 bytes of their hostfxr versions alone, read from the
/// front: at the first byte where the versions differ, the environment with the smaller byte comes
/// first; a version that ends there comes first; and environments with the same hostfxr version
/// compare equal, whatever their commit hashes, SDKs and frameworks.
pub proof fn lemma_environment_order_by_hostfxr_version(a: EnvironmentInfo, b: EnvironmentInfo, i: int)
    requires
        0 <= i <= text_bytes(a.hostfxr_version@).len(),
        i <= text_bytes(b.hostfxr_version@).len(),
        text_bytes(a.hostfxr_version@).subrange(0, i) == text_bytes(b.hostfxr_version@).subrange(0, i),
    ensures
        i < text_bytes(a.hostfxr_version@).len() && i < text_bytes(b.hostfxr_version@).len() && text_bytes(a.hostfxr_version@)[i] < text_bytes(b.hostfxr_version@)[i] ==> PartialOrdSpec::partial_cmp_spec(&a, &b)
            == Some(Ordering::Less),
        i < text_bytes(a.hostfxr_version@).len() && i < text_bytes(b.hostfxr_version@).len() && text_bytes(a.hostfxr_version@)[i] > text_bytes(b.hostfxr_version@)[i] ==> PartialOrdSpec::partial_cmp_spec(&a, &b)
            == Some(Ordering::Greater),
        i == text_bytes(a.hostfxr_version@).len() && i < text_bytes(b.hostfxr_version@).len() ==> PartialOrdSpec::partial_cmp_spec(&a, &b) == Some(Ordering::Less),
        i < text_bytes(a.hostfxr_version@).len() && i == text_bytes(b.hostfxr_version@).len() ==> PartialOrdSpec::partial_cmp_spec(&a, &b) == Some(Ordering::Greater),
        a.hostfxr_version@ == b.hostfxr_version@ ==> PartialOrdSpec::partial_cmp_spec(&a, &b) == Some(Ordering::Equal),
{
    lemma_lexicographic_first_difference(text_bytes(a.hostfxr_version@), text_bytes(b.hostfxr_version@), i);
    if a.hostfxr_version@ == b.hostfxr_version@ {
        lemma_text_order_equal(a.hostfxr_version@, b.hostfxr_version@);
    }
}

/// Frameworks are ordered by the UTF-8 bytes of their names first, read from the front: at the
/// first byte where the names differ the framework with the smaller byte comes first, and a name
/// that ends there comes first, whatever the versions.
pub proof fn lemma_framework_order_by_name_bytes(a: FrameworkInfo, b: FrameworkInfo, i: int)
    requires
        0 <= i <= text_bytes(a.name@).len(),
        i <= text_bytes(b.name@).len(),
        text_bytes(a.name@).subrange(0, i) == text_bytes(b.name@).subrange(0, i),
    ensures
        i < text_bytes(a.name@).len() && i < text_bytes(b.name@).len() && text_bytes(a.name@)[i] < text_bytes(
            b.name@,
        )[i] ==> PartialOrdSpec::partial_cmp_spec(&a, &b) == Some(Ordering::Less),
        i < text_bytes(a.name@).len() && i < text_bytes(b.name@).len() && text_bytes(a.name@)[i] > text_bytes(
            b.name@,
        )[i] ==> PartialOrdSpec::partial_cmp_spec(&a, &b) == Some(Ordering::Greater),
        i == text_bytes(a.name@).len() && i < text_bytes(b.name@).len() ==> PartialOrdSpec::partial_cmp_spec(&a, &b)
            == Some(Ordering::Less),
        i < text_bytes(a.name@).len() && i == text_bytes(b.name@).len() ==> PartialOrdSpec::partial_cmp_spec(&a, &b)
            == Some(Ordering::Greater),
{
    lemma_lexicographic_first_difference(text_bytes(a.name@), text_bytes(b.name@), i);
}

/// Frameworks of the same name are ordered by the UTF-8 bytes of their versions, read from the
/// front: at the first byte where the versions differ the framework with the smaller byte comes
/// first, a version that ends there comes first, and the same version compares equal, whatever
/// the paths.
pub proof fn lemma_framework_order_by_version_bytes(a: FrameworkInfo, b: FrameworkInfo, i: int)
    requires
        a.name@ == b.name@,
        0 <= i <= text_bytes(a.version@).len(),
        i <= text_bytes(b.version@).len(),
        text_bytes(a.version@).subrange(0, i) == text_bytes(b.version@).subrange(0, i),
    ensures
        i < text_bytes(a.version@).len() && i < text_bytes(b.version@).len() && text_bytes(a.version@)[i]
            < text_bytes(b.version@)[i] ==> PartialOrdSpec::partial_cmp_spec(&a, &b) == Some(Ordering::Less),
        i < text_bytes(a.version@).len() && i < text_bytes(b.version@).len() && text_bytes(a.version@)[i]
            > text_bytes(b.version@)[i] ==> PartialOrdSpec::partial_cmp_spec(&a, &b) == Some(Ordering::Greater),
        i == text_bytes(a.version@).len() && i < text_bytes(b.version@).len() ==> PartialOrdSpec::partial_cmp_spec(
            &a,
            &b,
        ) == Some(Ordering::Less),
        i < text_bytes(a.version@).len() && i == text_bytes(b.version@).len() ==> PartialOrdSpec::partial_cmp_spec(
            &a,
            &b,
        ) == Some(Ordering::Greater),
        a.version@ == b.version@ ==> PartialOrdSpec::partial_cmp_spec(&a, &b) == Some(Ordering::Equal),
{
    lemma_text_order_equal(a.name@, b.name@);
    lemma_lexicographic_first_difference(text_bytes(a.version@), text_bytes(b.version@), i);
    if a.version@ == b.version@ {
        lemma_text_order_equal(a.version@, b.version@);
    }
}

/// Two SDKs are equal exactly when their versions are the same and their paths have the same
/// components.
pub proof fn lemma_sdk_equality(a: SdkInfo, b: SdkInfo)
    ensures
        PartialEqSpec::eq_spec(&a, &b) <==> (a.version@ == b.version@ && same_path(a.path@, b.path@)),
{
}

/// Two frameworks are equal exactly when their names and versions are the same and their paths
/// have the same components.
pub proof fn lemma_framework_equality(a: FrameworkInfo, b: FrameworkInfo)
    ensures
        PartialEqSpec::eq_spec(&a, &b) <==> (a.name@ == b.name@ && a.version@ == b.version@ && same_path(
            a.path@,
            b.path@,
        )),
{
}

/// Two environments are equal exactly when their hostfxr versions are the same, one commit hash
/// begins the other, and their lists of SDKs and of frameworks have the same lengths and, position
/// by position, the same versions (and names) and paths with the same components.
pub proof fn lemma_environment_equality(a: EnvironmentInfo, b: EnvironmentInfo)
    ensures
        PartialEqSpec::eq_spec(&a, &b) <==> {
            &&& a.hostfxr_version@ == b.hostfxr_version@
            &&& (text_starts_with(a.hostfxr_commit_hash@, b.hostfxr_commit_hash@) || text_starts_with(
                b.hostfxr_commit_hash@,
                a.hostfxr_commit_hash@,
            ))
            &&& a.sdks@.len() == b.sdks@.len()
            &&& forall|i: int|
                0 <= i < a.sdks@.len() ==> (#[trigger] a.sdks@[i]).version@ == b.sdks@[i].version@ && same_path(
                    a.sdks@[i].path@,
                    b.sdks@[i].path@,
                )
            &&& a.frameworks@.len() == b.frameworks@.len()
            &&& forall|i: int|
                0 <= i < a.frameworks@.len() ==> (#[trigger] a.frameworks@[i]).name@ == b.frameworks@[i].name@
                    && a.frameworks@[i].version@ == b.frameworks@[i].version@ && same_path(
                    a.frameworks@[i].path@,
                    b.frameworks@[i].path@,
                )
        },
{
}

/// SDKs are ordered consistently: comparing the other way round reverses the outcome, two SDKs
/// compare equal exactly when their versions are the same, and the order is transitive.
pub proof fn lemma_sdk_order(a: SdkInfo, b: SdkInfo, c: SdkInfo)
    ensures
        (a.sdk_order(b) == Ordering::Less) <==> (b.sdk_order(a) == Ordering::Greater),
        (a.sdk_order(b) == Ordering::Equal) <==> a.version@ == b.version@,
        a.sdk_order(b) == Ordering::Less && b.sdk_order(c) == Ordering::Less ==> a.sdk_order(c) == Ordering::Less,
{
    lemma_lexicographic_antisymmetric(text_bytes(a.version@), text_bytes(b.version@));
    lemma_text_order_equal(a.version@, b.version@);
    if a.sdk_order(b) == Ordering::Less && b.sdk_order(c) == Ordering::Less {
        lemma_lexicographic_transitive(text_bytes(a.version@), text_bytes(b.version@), text_bytes(c.version@));
    }
}

/// Frameworks are ordered consistently: comparing the other way round reverses the outcome, two
/// frameworks compare equal exactly when their names and versions are the same, and the order is
/// transitive.
pub proof fn lemma_framework_order(a: FrameworkInfo, b: FrameworkInfo, c: FrameworkInfo)
    ensures
        (a.framework_order(b) == Ordering::Less) <==> (b.framework_order(a) == Ordering::Greater),
        (a.framework_order(b) == Ordering::Equal) <==> (a.name@ == b.name@ && a.version@ == b.version@),
        a.framework_order(b) == Ordering::Less && b.framework_order(c) == Ordering::Less
            ==> a.framework_order(c) == Ordering::Less,
{
    lemma_lexicographic_antisymmetric(text_bytes(a.name@), text_bytes(b.name@));
    lemma_lexicographic_antisymmetric(text_bytes(a.version@), text_bytes(b.version@));
    lemma_text_order_equal(a.name@, b.name@);
    lemma_text_order_equal(a.version@, b.version@);
    if a.framework_order(b) == Ordering::Less && b.framework_order(c) == Ordering::Less {
        lemma_text_order_equal(b.name@, c.name@);
        let ab = text_order(a.name@, b.name@);
        let bc = text_order(b.name@, c.name@);
        if ab == TextOrder::Less && bc == TextOrder::Less {
            lemma_lexicographic_transitive(text_bytes(a.name@), text_bytes(b.name@), text_bytes(c.name@));
        } else if ab == TextOrder::Equal && bc == TextOrder::Equal {
            lemma_lexicographic_transitive(
                text_bytes(a.version@),
                text_bytes(b.version@),
                text_bytes(c.version@),
            );
        }
    }
}

/// The equality of environments is reflexive and symmetric. (It is not transitive: an
/// abbreviated commit hash matches two different full hashes.)
pub proof fn lemma_same_environment(a: EnvironmentInfo, b: EnvironmentInfo)
    ensures
        a.same_environment(a),
        a.same_environment(b) ==> b.same_environment(a),
{
    lemma_text_starts_with_itself(a.hostfxr_commit_hash@);
}

} // verus!
