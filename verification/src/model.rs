//! The registry's entities, and the textual forms of a feature edge and of a
//! dependency kind.

use crate::identity::CrateLegend;
use crate::text::same_text;
use crate::version::Version;
use vstd::prelude::*;
use vstd::string::*;

verus! {

/// What a dependency is needed for.
#[derive(Clone, Copy, Debug, PartialEq, Eq, Structural)]
pub enum DependencyKind {
    Normal,
    Build,
    Dev,
}

impl Default for DependencyKind {
    fn default() -> (kind: DependencyKind)
        ensures
            kind == DependencyKind::Normal,
    {
        DependencyKind::Normal
    }
}

impl DependencyKind {
    /// The kind's tag in the registry's data.
    pub open spec fn tag(self) -> Seq<char> {
        match self {
            DependencyKind::Normal => "normal"@,
            DependencyKind::Build => "build"@,
            DependencyKind::Dev => "dev"@,
        }
    }

    /// The kind's tag as a text.
    pub fn to_string(&self) -> (s: String)
        ensures
            s@ == self.tag(),
    {
        match self {
            DependencyKind::Normal => "normal".to_owned(),
            DependencyKind::Build => "build".to_owned(),
            DependencyKind::Dev => "dev".to_owned(),
        }
    }

    /// The kind that a tag names, if it names one.
    pub fn from_tag(tag: &str) -> (kind: Option<DependencyKind>)
        ensures
            match kind {
                Some(k) => tag@ == k.tag(),
                None => forall|k: DependencyKind| tag@ != k.tag(),
            },
    {
        if same_text(tag, "normal") {
            Some(DependencyKind::Normal)
        } else if same_text(tag, "build") {
            Some(DependencyKind::Build)
        } else if same_text(tag, "dev") {
            Some(DependencyKind::Dev)
        } else {
            None
        }
    }

    /// The kind that a dependency's record gives: the one that its tag names,
    /// and `Normal` where the record has no tag or has null in its place.
    /// `None` where the tag names no kind.
    pub fn from_record(tag: Option<&str>) -> (kind: Option<DependencyKind>)
        ensures
            tag is None ==> kind == Some(DependencyKind::Normal),
            tag matches Some(t) ==> match kind {
                Some(k) => t@ == k.tag(),
                None => forall|k: DependencyKind| t@ != k.tag(),
            },
    {
        match tag {
            None => Some(null_as_default(None)),
            Some(t) => DependencyKind::from_tag(t),
        }
    }
}

/// The kind read from a record, `Normal` standing in for a missing one.
pub fn null_as_default(option: Option<DependencyKind>) -> (kind: DependencyKind)
    ensures
        kind == match option {
            Some(k) => k,
            None => DependencyKind::Normal,
        },
{
    match option {
        Some(k) => k,
        None => DependencyKind::default(),
    }
}

/// No two kinds share a tag.
pub proof fn tags_differ(a: DependencyKind, b: DependencyKind)
    requires
        a.tag() == b.tag(),
    ensures
        a == b,
{
    reveal_strlit("normal");
    reveal_strlit("build");
    reveal_strlit("dev");
    assert("normal"@.len() == 6);
    assert("build"@.len() == 5);
    assert("dev"@.len() == 3);
}

/// A feature-activation edge: to a feature of the same crate, or to a feature
/// of a dependency (the dependency's name first).
#[derive(Clone, Debug, PartialEq, Eq)]
pub enum Feature {
    Current(String),
    Dependency(String, String),
}

/// The mathematical value of a [`Feature`].
pub enum FeatureView {
    Current(Seq<char>),
    Dependency(Seq<char>, Seq<char>),
}

impl View for Feature {
    type V = FeatureView;

    open spec fn view(&self) -> FeatureView {
        match self {
            Feature::Current(feature) => FeatureView::Current(feature@),
            Feature::Dependency(dep, feature) => FeatureView::Dependency(dep@, feature@),
        }
    }
}

impl FeatureView {
    /// The written form: the feature's name, behind the dependency's name and
    /// a slash where the edge leaves the crate.
    pub open spec fn encode(self) -> Seq<char> {
        match self {
            FeatureView::Current(feature) => feature,
            FeatureView::Dependency(dep, feature) => dep.push('/') + feature,
        }
    }

    /// The edge that a text writes: split at its first slash, if it has one.
    pub open spec fn decode(s: Seq<char>) -> FeatureView {
        match s.index_of_first('/') {
            Some(slash) => FeatureView::Dependency(
                s.subrange(0, slash),
                s.subrange(slash + 1, s.len() as int),
            ),
            None => FeatureView::Current(s),
        }
    }

    /// Whether the written form gives the edge back: the name in front of the
    /// slash, or the only name, holds no slash itself.
    pub open spec fn canonical(self) -> bool {
        match self {
            FeatureView::Current(feature) => !feature.contains('/'),
            FeatureView::Dependency(dep, _) => !dep.contains('/'),
        }
    }
}

/// The first slash of a text is where a slash stands with none before it.
pub proof fn lemma_first_slash(s: Seq<char>, at: int)
    requires
        0 <= at < s.len(),
        s[at] == '/',
        forall|j: int| 0 <= j < at ==> s[j] != '/',
    ensures
        s.index_of_first('/') == Some(at),
{
    s.index_of_first_ensures('/');
    assert(s.contains('/'));
}

/// Reading a text as an edge and writing the edge again gives the text.
pub proof fn decode_then_encode(s: Seq<char>)
    ensures
        FeatureView::decode(s).encode() == s,
        FeatureView::decode(s).canonical(),
{
    s.index_of_first_ensures('/');
    match s.index_of_first('/') {
        Some(slash) => {
            let dep = s.subrange(0, slash);
            assert(dep.push('/') + s.subrange(slash + 1, s.len() as int) =~= s);
            assert(!dep.contains('/')) by {
                if dep.contains('/') {
                    let j = choose|j: int| 0 <= j < dep.len() && dep[j] == '/';
                    assert(s[j] == '/');
                }
            }
        },
        None => {},
    }
}

/// Writing an edge and reading the text again gives the edge, where the edge
/// is canonical.
pub proof fn encode_then_decode(f: FeatureView)
    requires
        f.canonical(),
    ensures
        FeatureView::decode(f.encode()) == f,
{
    let s = f.encode();
    s.index_of_first_ensures('/');
    match f {
        FeatureView::Current(feature) => {},
        FeatureView::Dependency(dep, feature) => {
            let at = dep.len() as int;
            assert(s[at] == '/');
            assert forall|j: int| 0 <= j < at implies s[j] != '/' by {
                assert(s[j] == dep[j]);
                assert(dep.contains(dep[j]));
            }
            lemma_first_slash(s, at);
            assert(s.subrange(0, at) =~= dep);
            assert(s.subrange(at + 1, s.len() as int) =~= feature);
        },
    }
}

impl Feature {
    /// Reads an edge from its written form.
    pub fn parse(s: &str) -> (feature: Feature)
        ensures
            feature@ == FeatureView::decode(s@),
    {
        let n = s.unicode_len();
        let mut i: usize = 0;
        while i < n
            invariant
                i <= n,
                n == s@.len(),
                forall|j: int| 0 <= j < i ==> s@[j] != '/',
            decreases n - i,
        {
            if s.get_char(i) == '/' {
                proof {
                    lemma_first_slash(s@, i as int);
                }
                let dep = s.substring_char(0, i).to_owned();
                let feature = s.substring_char(i + 1, n).to_owned();
                return Feature::Dependency(dep, feature);
            }
            i += 1;
        }
        proof {
            s@.index_of_first_ensures('/');
            assert(!s@.contains('/')) by {
                if s@.contains('/') {
                    let j = choose|j: int| 0 <= j < s@.len() && s@[j] == '/';
                    assert(s@[j] != '/');
                }
            }
        }
        Feature::Current(s.to_owned())
    }

    /// The written form of the edge.
    pub fn to_string(&self) -> (s: String)
        ensures
            s@ == self@.encode(),
    {
        match self {
            Feature::Current(feature) => feature.clone(),
            Feature::Dependency(dep, feature) => {
                let mut s = dep.clone();
                proof {
                    reveal_strlit("/");
                }
                s.append("/");
                s.append(feature.as_str());
                proof {
                    assert("/"@ =~= seq!['/']);
                    assert(dep@ + "/"@ =~= dep@.push('/'));
                }
                s
            },
        }
    }
}

/// One dependency requirement of a crate version.
#[derive(Clone, Debug)]
pub struct Dependency {
    /// The crate depended on.
    pub name: String,
    /// The range of versions asked for, as the registry writes it.
    pub req: String,
    /// The features that the dependency switches on.
    pub features: Vec<String>,
    pub optional: bool,
    pub default_features: bool,
    pub kind: DependencyKind,
}

/// One published version of a crate.
#[derive(Clone, Debug)]
pub struct Crate {
    /// When the version was published, in seconds since the epoch.
    pub published: Option<i64>,
    pub name: String,
    pub version: Version,
    pub dependencies: Vec<Dependency>,
    /// Each feature of the version with the edges that it activates.
    pub features: Vec<(String, Vec<Feature>)>,
}

/// The tally of one crate version at one moment.
#[derive(Clone, Debug)]
pub struct TransitiveDep {
    pub name: String,
    /// The moment, in seconds since the epoch.
    pub timestamp: i64,
    pub version: Version,
    /// The crate versions that reach this one through other crates.
    pub transitive_count: CrateLegend,
    pub direct_count: usize,
    pub total: usize,
}

} // verus!
