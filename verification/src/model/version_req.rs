use vstd::prelude::*;

verus! {

/// What `semver` answers when the requirement `req` is asked about the version
/// `version`, both as text: nothing where one of the two is not written as
/// `semver` reads it, else whether the version satisfies the requirement.
pub uninterp spec fn semver_satisfies(req: Seq<char>, version: Seq<char>) -> Option<bool>;

/// Asks `semver` whether a version satisfies a requirement.
///
/// `semver::VersionReq::parse` reads `req`, `semver::Version::parse` reads
/// `version`, and `semver::VersionReq::matches` compares them. All three look at
/// their arguments only, so the answer is a function of the two texts; that is
/// all the contract claims. None of them panics.
#[verifier::external_body]
fn semver_matches(req: &str, version: &str) -> (answer: Option<bool>)
    ensures
        answer == semver_satisfies(req@, version@),
{
    let req = semver::VersionReq::parse(req).ok()?;
    let version = semver::Version::parse(version).ok()?;
    Some(req.matches(&version))
}

/// The versions of a package that a dependency accepts.
#[derive(Debug, PartialEq, Eq, Hash)]
pub enum DependencyVersionReq {
    /// Every version.
    Any,
    /// The versions that satisfy a semantic-version requirement such as `^1.0.0`.
    Req(String),
}

/// A version requirement as a mathematical value.
pub enum DependencyVersionReqView {
    Any,
    Req(Seq<char>),
}

impl View for DependencyVersionReq {
    type V = DependencyVersionReqView;

    open spec fn view(&self) -> DependencyVersionReqView {
        match self {
            DependencyVersionReq::Any => DependencyVersionReqView::Any,
            DependencyVersionReq::Req(text) => DependencyVersionReqView::Req(text@),
        }
    }
}

impl DeepView for DependencyVersionReq {
    type V = DependencyVersionReqView;

    open spec fn deep_view(&self) -> DependencyVersionReqView {
        self@
    }
}

impl Clone for DependencyVersionReq {
    fn clone(&self) -> (copy: Self)
        ensures
            copy@ == self@,
    {
        match self {
            DependencyVersionReq::Any => DependencyVersionReq::Any,
            DependencyVersionReq::Req(text) => DependencyVersionReq::Req(text.clone()),
        }
    }
}

impl DependencyVersionReqView {
    /// Whether the requirement accepts `version`, for each answer that `semver`
    /// may give: a requirement or a version that it cannot read accepts nothing
    /// and is accepted by nothing but `Any`.
    pub open spec fn accepts(self, answer: Option<bool>) -> bool {
        match self {
            DependencyVersionReqView::Any => true,
            DependencyVersionReqView::Req(_) => answer == Some(true),
        }
    }

    /// Whether the requirement accepts `version`.
    pub open spec fn matches(self, version: Seq<char>) -> bool {
        match self {
            DependencyVersionReqView::Any => true,
            DependencyVersionReqView::Req(text) => self.accepts(semver_satisfies(text, version)),
        }
    }
}

impl DependencyVersionReq {
    /// The requirement that `text` spells.
    pub fn from(text: String) -> (req: Self)
        ensures
            req@ == DependencyVersionReqView::Req(text@),
    {
        DependencyVersionReq::Req(text)
    }

    /// What the requirement makes of the answer that `semver` gave for one
    /// version.
    pub fn accepts(&self, answer: Option<bool>) -> (yes: bool)
        ensures
            yes == self@.accepts(answer),
    {
        match self {
            DependencyVersionReq::Any => true,
            DependencyVersionReq::Req(_) => match answer {
                Some(satisfied) => satisfied,
                None => false,
            },
        }
    }

    /// Whether the requirement accepts `version`.
    pub fn matches(&self, version: &str) -> (yes: bool)
        ensures
            yes == self@.matches(version@),
    {
        match self {
            DependencyVersionReq::Any => true,
            DependencyVersionReq::Req(text) => {
                let answer = semver_matches(text.as_str(), version);
                self.accepts(answer)
            },
        }
    }

    /// The requirement as text; `*` stands for every version.
    pub fn to_string(&self) -> (text: String)
        ensures
            (text@ == match self@ {
                DependencyVersionReqView::Any => "*"@,
                DependencyVersionReqView::Req(req) => req,
            }),
    {
        match self {
            DependencyVersionReq::Any => "*".to_owned(),
            DependencyVersionReq::Req(text) => text.clone(),
        }
    }
}

} // verus!
