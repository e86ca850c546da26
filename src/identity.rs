//! The identity record, its assembly from the system's sources, and its
//! flattening into five string fields.
use vstd::prelude::*;

use crate::error::ErrorKind;
use crate::platform::{detect_platform, instance_type_of, platform_of, resolve_instance_type, CloudProvider};
use crate::status::{booted_version, booted_version_of, deployments_view, Deployment, DeploymentView};
use crate::text::opt_view;

verus! {

/// How much is collected about the machine.
#[derive(Clone, Copy, Debug, PartialEq, Eq, Structural)]
pub enum Level {
    Minimal,
    Full,
}

impl Level {
    /// The level that a configured name selects: unknown names select the
    /// lowest level.
    pub open spec fn from_name_spec(name: Seq<char>) -> Level {
        if name == "minimal"@ {
            Level::Minimal
        } else if name == "full"@ {
            Level::Full
        } else {
            Level::Minimal
        }
    }

    pub fn from_name(name: &str) -> (r: Level)
        ensures
            r == Self::from_name_spec(name@),
    {
        let n = name.to_owned();
        if n == "minimal".to_owned() {
            Level::Minimal
        } else if n == "full".to_owned() {
            Level::Full
        } else {
            Level::Minimal
        }
    }

    pub open spec fn name_spec(self) -> Seq<char> {
        match self {
            Level::Minimal => "minimal"@,
            Level::Full => "full"@,
        }
    }

    pub fn name(self) -> (r: String)
        ensures
            r@ == self.name_spec(),
    {
        match self {
            Level::Minimal => "minimal".to_owned(),
            Level::Full => "full".to_owned(),
        }
    }
}

/// A failure to assemble an identity at a given level.
#[derive(Clone, Copy, Debug, PartialEq, Eq, Structural)]
pub struct IdentityError {
    /// The level that was being assembled.
    pub level: Level,
    /// What went wrong.
    pub kind: ErrorKind,
}

/// What was read from the system, each source as its content or the reason
/// it could not be had.
#[derive(Debug)]
pub struct Sources {
    /// The kernel command line.
    pub kernel_args: Result<String, ErrorKind>,
    /// The version field of the first-boot version marker.
    pub original_os_version: Result<String, ErrorKind>,
    /// The deployments listed by the booted-system status interface.
    pub deployments: Result<Vec<Deployment>, ErrorKind>,
    /// The contents of the cloud metadata file.
    pub metadata: Result<String, ErrorKind>,
}

pub struct SourcesView {
    pub kernel_args: Result<Seq<char>, ErrorKind>,
    pub original_os_version: Result<Seq<char>, ErrorKind>,
    pub deployments: Result<Seq<DeploymentView>, ErrorKind>,
    pub metadata: Result<Seq<char>, ErrorKind>,
}

pub open spec fn text_result(r: Result<String, ErrorKind>) -> Result<Seq<char>, ErrorKind> {
    match r {
        Ok(s) => Ok(s@),
        Err(k) => Err(k),
    }
}

impl View for Sources {
    type V = SourcesView;

    open spec fn view(&self) -> SourcesView {
        SourcesView {
            kernel_args: text_result(self.kernel_args),
            original_os_version: text_result(self.original_os_version),
            deployments: match self.deployments {
                Ok(ds) => Ok(deployments_view(ds@)),
                Err(k) => Err(k),
            },
            metadata: text_result(self.metadata),
        }
    }
}

/// Facts about a machine, gathered once per collection run.
#[derive(Debug)]
pub struct Identity {
    /// Collection level.
    pub level: Level,
    /// OS platform.
    pub platform: String,
    /// OS version at first boot.
    pub original_os_version: String,
    /// OS version currently booted.
    pub current_os_version: String,
    /// Instance type, on a recognized cloud provider.
    pub instance_type: Option<String>,
}

pub struct IdentityView {
    pub level: Level,
    pub platform: Seq<char>,
    pub original_os_version: Seq<char>,
    pub current_os_version: Seq<char>,
    pub instance_type: Option<Seq<char>>,
}

impl View for Identity {
    type V = IdentityView;

    open spec fn view(&self) -> IdentityView {
        IdentityView {
            level: self.level,
            platform: self.platform@,
            original_os_version: self.original_os_version@,
            current_os_version: self.current_os_version@,
            instance_type: opt_view(self.instance_type),
        }
    }
}

/// The instance type owed for `platform`: none off the recognized cloud
/// providers, else what the metadata gives for the provider.
pub open spec fn instance_type_for(platform: Seq<char>, metadata: Result<Seq<char>, ErrorKind>) -> Result<
    Option<Seq<char>>,
    ErrorKind,
> {
    match CloudProvider::named(platform) {
        None => Ok(None),
        Some(p) => match metadata {
            Err(k) => Err(k),
            Ok(m) => match instance_type_of(m, p) {
                Ok(t) => Ok(Some(t)),
                Err(k) => Err(k),
            },
        },
    }
}

/// The identity assembled at the level named `level` from `s`, or the first
/// failure met in the order platform, original version, current version,
/// instance type.
pub open spec fn assembled(level: Seq<char>, s: SourcesView) -> Result<IdentityView, IdentityError> {
    let lv = Level::from_name_spec(level);
    let fail = |k: ErrorKind| IdentityError { level: lv, kind: k };
    match s.kernel_args {
        Err(k) => Err(fail(k)),
        Ok(args) => match s.original_os_version {
            Err(k) => Err(fail(k)),
            Ok(orig) => match s.deployments {
                Err(k) => Err(fail(k)),
                Ok(ds) => match booted_version_of(ds) {
                    Err(k) => Err(fail(k)),
                    Ok(cur) => match instance_type_for(platform_of(args), s.metadata) {
                        Err(k) => Err(fail(k)),
                        Ok(t) => Ok(
                            IdentityView {
                                level: lv,
                                platform: platform_of(args),
                                original_os_version: orig,
                                current_os_version: cur,
                                instance_type: t,
                            },
                        ),
                    },
                },
            },
        },
    }
}

impl Identity {
    /// Assembles the identity at the level named `level` from what was read
    /// from the system; unknown level names select the minimal level.
    pub fn try_default(level: &str, sources: &Sources) -> (r: Result<Identity, IdentityError>)
        ensures
            match r {
                Ok(id) => assembled(level@, sources@) == Ok::<IdentityView, IdentityError>(id@),
                Err(e) => assembled(level@, sources@) == Err::<IdentityView, IdentityError>(e),
            },
    {
        let lv = Level::from_name(level);
        let platform = match &sources.kernel_args {
            Ok(args) => detect_platform(args.as_str()),
            Err(k) => {
                return Err(IdentityError { level: lv, kind: *k });
            },
        };
        let original_os_version = match &sources.original_os_version {
            Ok(v) => v.clone(),
            Err(k) => {
                return Err(IdentityError { level: lv, kind: *k });
            },
        };
        let current_os_version = match &sources.deployments {
            Ok(ds) => match booted_version(ds) {
                Ok(v) => v,
                Err(k) => {
                    return Err(IdentityError { level: lv, kind: k });
                },
            },
            Err(k) => {
                return Err(IdentityError { level: lv, kind: *k });
            },
        };
        let instance_type = match CloudProvider::from_platform(platform.as_str()) {
            None => None,
            Some(p) => match &sources.metadata {
                Err(k) => {
                    return Err(IdentityError { level: lv, kind: *k });
                },
                Ok(m) => match resolve_instance_type(m.as_str(), p) {
                    Ok(t) => Some(t),
                    Err(k) => {
                        return Err(IdentityError { level: lv, kind: k });
                    },
                },
            },
        };
        Ok(Identity { level: lv, platform, original_os_version, current_os_version, instance_type })
    }

    /// A fixed identity for exercising consumers of the record: "full" gives
    /// a record on platform "mock-gcp" at the full level, any other name one
    /// on "mock-qemu" at the minimal level.
    pub fn mock_default(level: &str) -> (r: Identity)
        ensures
            r.level == Level::from_name_spec(level@),
            r.platform@ == (if r.level == Level::Full {
                "mock-gcp"@
            } else {
                "mock-qemu"@
            }),
            r.original_os_version@ == "30.20190923.dev.2-2"@,
            r.current_os_version@ == "mock-os-version"@,
            opt_view(r.instance_type) == Some("mock-instance-type"@),
    {
        let lv = Level::from_name(level);
        let platform = match lv {
            Level::Full => "mock-gcp".to_owned(),
            Level::Minimal => "mock-qemu".to_owned(),
        };
        Identity {
            level: lv,
            platform,
            original_os_version: "30.20190923.dev.2-2".to_owned(),
            current_os_version: "mock-os-version".to_owned(),
            instance_type: Some("mock-instance-type".to_owned()),
        }
    }

    /// The identity as five string fields, the instance type empty when
    /// there is none.
    pub fn get_data(&self) -> (r: IdentityData)
        ensures
            r@ == flatten(self@),
    {
        proof {
            reveal_strlit("");
        }
        let r = IdentityData {
            level: self.level.name(),
            platform: self.platform.clone(),
            original_os_version: self.original_os_version.clone(),
            current_os_version: self.current_os_version.clone(),
            instance_type: match &self.instance_type {
                Some(t) => t.clone(),
                None => "".to_owned(),
            },
        };
        assert(r.level@ == self.level.name_spec());
        assert(r.platform@ == self.platform@);
        assert(r.instance_type@ == flatten(self@)["instance_type"@]);
        assert(r@ =~= flatten(self@));
        r
    }
}

/// The flattened form of an identity: each of the five field names mapped to
/// its value as a string.
pub open spec fn flatten(id: IdentityView) -> Map<Seq<char>, Seq<char>> {
    map![
        "level"@ => id.level.name_spec(),
        "platform"@ => id.platform,
        "original_os_version"@ => id.original_os_version,
        "current_os_version"@ => id.current_os_version,
        "instance_type"@ => match id.instance_type {
            Some(t) => t,
            None => Seq::empty(),
        },
    ]
}

/// The names of the fields of a flattened identity.
pub open spec fn field_names() -> Set<Seq<char>> {
    set!["level"@, "platform"@, "original_os_version"@, "current_os_version"@, "instance_type"@]
}

/// The five field names are distinct.
proof fn lemma_field_names_distinct()
    ensures
        field_names().len() == 5,
        "level"@ != "platform"@,
        "level"@ != "original_os_version"@,
        "level"@ != "current_os_version"@,
        "level"@ != "instance_type"@,
        "platform"@ != "original_os_version"@,
        "platform"@ != "current_os_version"@,
        "platform"@ != "instance_type"@,
        "original_os_version"@ != "current_os_version"@,
        "original_os_version"@ != "instance_type"@,
        "current_os_version"@ != "instance_type"@,
{
    reveal_strlit("level");
    reveal_strlit("platform");
    reveal_strlit("original_os_version");
    reveal_strlit("current_os_version");
    reveal_strlit("instance_type");
    assert("level"@.len() != "platform"@.len());
    assert("level"@.len() != "original_os_version"@.len());
    assert("level"@.len() != "current_os_version"@.len());
    assert("level"@.len() != "instance_type"@.len());
    assert("platform"@.len() != "original_os_version"@.len());
    assert("platform"@.len() != "current_os_version"@.len());
    assert("platform"@[0] != "instance_type"@[0]);
    assert("original_os_version"@[0] != "current_os_version"@[0]);
    assert("original_os_version"@.len() != "instance_type"@.len());
    assert("current_os_version"@.len() != "instance_type"@.len());
}

/// An identity flattened into string fields, looked up by field name.
#[derive(Debug)]
pub struct IdentityData {
    level: String,
    platform: String,
    original_os_version: String,
    current_os_version: String,
    instance_type: String,
}

impl View for IdentityData {
    type V = Map<Seq<char>, Seq<char>>;

    closed spec fn view(&self) -> Map<Seq<char>, Seq<char>> {
        map![
            "level"@ => self.level@,
            "platform"@ => self.platform@,
            "original_os_version"@ => self.original_os_version@,
            "current_os_version"@ => self.current_os_version@,
            "instance_type"@ => self.instance_type@,
        ]
    }
}

impl IdentityData {
    /// The value of the field named `key`.
    pub fn get(&self, key: &str) -> (r: Option<&String>)
        ensures
            match r {
                Some(v) => self@.contains_key(key@) && v@ == self@[key@],
                None => !self@.contains_key(key@),
            },
    {
        proof {
            lemma_field_names_distinct();
        }
        let k = key.to_owned();
        if k == "level".to_owned() {
            Some(&self.level)
        } else if k == "platform".to_owned() {
            Some(&self.platform)
        } else if k == "original_os_version".to_owned() {
            Some(&self.original_os_version)
        } else if k == "current_os_version".to_owned() {
            Some(&self.current_os_version)
        } else if k == "instance_type".to_owned() {
            Some(&self.instance_type)
        } else {
            None
        }
    }

    /// Whether a field is named `key`.
    pub fn contains_key(&self, key: &str) -> (r: bool)
        ensures
            r == self@.contains_key(key@),
    {
        self.get(key).is_some()
    }

    /// The fields as (name, value) pairs.
    pub fn into_pairs(self) -> (r: Vec<(String, String)>)
        ensures
            r@.len() == 5,
            forall|i: int| 0 <= i < 5 ==> #[trigger] self@.contains_key(r@[i].0@) && self@[r@[i].0@] == r@[i].1@,
            forall|k: Seq<char>| #[trigger] self@.contains_key(k) ==> exists|i: int| 0 <= i < 5 && r@[i].0@ == k,
    {
        proof {
            lemma_field_names_distinct();
        }
        let ghost m = self@;
        let mut r: Vec<(String, String)> = Vec::new();
        r.push(("level".to_owned(), self.level));
        r.push(("platform".to_owned(), self.platform));
        r.push(("original_os_version".to_owned(), self.original_os_version));
        r.push(("current_os_version".to_owned(), self.current_os_version));
        r.push(("instance_type".to_owned(), self.instance_type));
        assert forall|k: Seq<char>| #[trigger] m.contains_key(k) implies exists|i: int|
            0 <= i < 5 && r@[i].0@ == k by {
            if k == "level"@ {
                assert(r@[0].0@ == k);
            } else if k == "platform"@ {
                assert(r@[1].0@ == k);
            } else if k == "original_os_version"@ {
                assert(r@[2].0@ == k);
            } else if k == "current_os_version"@ {
                assert(r@[3].0@ == k);
            } else {
                assert(r@[4].0@ == k);
            }
        }
        r
    }
}

} // verus!

verus! {

/// Off the recognized cloud providers an assembled identity has no instance
/// type, and the metadata source is never consulted: the result is the same
/// whatever it holds.
pub proof fn lemma_no_instance_type_off_cloud(
    level: Seq<char>,
    s: SourcesView,
    metadata: Result<Seq<char>, ErrorKind>,
)
    requires
        s.kernel_args is Ok,
        CloudProvider::named(platform_of(s.kernel_args->Ok_0)) is None,
    ensures
        assembled(level, s) is Ok ==> assembled(level, s)->Ok_0.instance_type is None,
        assembled(level, s) == assembled(level, SourcesView { metadata, ..s }),
{
}

/// On a recognized cloud provider whose metadata gives the instance type
/// `t`, an assembled identity carries `t`.
pub proof fn lemma_instance_type_on_cloud(level: Seq<char>, s: SourcesView, t: Seq<char>)
    requires
        s.kernel_args is Ok,
        CloudProvider::named(platform_of(s.kernel_args->Ok_0)) is Some,
        s.metadata is Ok,
        instance_type_of(
            s.metadata->Ok_0,
            CloudProvider::named(platform_of(s.kernel_args->Ok_0))->Some_0,
        ) == Ok::<Seq<char>, ErrorKind>(t),
    ensures
        assembled(level, s) is Ok ==> assembled(level, s)->Ok_0.instance_type == Some(t),
{
}

/// A level name other than "minimal" and "full" yields the minimal level,
/// on success and in the error alike.
pub proof fn lemma_unknown_level_is_minimal(level: Seq<char>, s: SourcesView)
    requires
        level != "minimal"@,
        level != "full"@,
    ensures
        assembled(level, s) is Ok ==> assembled(level, s)->Ok_0.level == Level::Minimal,
        assembled(level, s) is Err ==> assembled(level, s)->Err_0.level == Level::Minimal,
{
}

/// Every identity flattens to exactly the five field names.
pub proof fn lemma_flatten_keys(id: IdentityView)
    ensures
        flatten(id).dom() == field_names(),
{
    assert(flatten(id).dom() =~= field_names());
}

} // verus!
