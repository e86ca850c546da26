//! Platform detection from kernel boot arguments, and instance-type
//! resolution from cloud metadata for recognized cloud providers.
use vstd::prelude::*;

use crate::error::ErrorKind;
use crate::text::{find_value, lemma_lookup_last, lemma_pieces_append, lookup, pieces, Separator};

verus! {

pub open spec fn lower_char(c: char) -> char {
    if 'A' <= c && c <= 'Z' {
        ((c as u32) + 32) as char
    } else {
        c
    }
}

/// `s` with each ASCII upper-case letter replaced by its lower-case form.
pub open spec fn ascii_lower(s: Seq<char>) -> Seq<char> {
    s.map_values(|c: char| lower_char(c))
}

/// Relies on `str::to_ascii_lowercase`: ASCII letters 'A'..='Z' become
/// 'a'..='z', every other character is kept.
#[verifier::external_body]
fn to_ascii_lower(s: &str) -> (r: String)
    ensures
        r@ == ascii_lower(s@),
{
    s.to_ascii_lowercase()
}

/// The platform of a machine whose boot arguments do not name one.
pub open spec fn default_platform() -> Seq<char> {
    "metal"@
}

/// The boot argument that records the platform a machine was provisioned for.
pub open spec fn platform_key() -> Seq<char> {
    "ignition.platform.id"@
}

/// The platform that the boot arguments `args` declare: the value of the
/// first `ignition.platform.id=<value>` argument, lower-cased, or the default.
pub open spec fn platform_of(args: Seq<char>) -> Seq<char> {
    match lookup(pieces(args, Separator::Whitespace), platform_key()) {
        Some(v) => ascii_lower(v),
        None => default_platform(),
    }
}

/// Detects the platform from the contents of the kernel command line.
pub fn detect_platform(kernel_args: &str) -> (r: String)
    ensures
        r@ == platform_of(kernel_args@),
{
    match find_value(kernel_args, Separator::Whitespace, "ignition.platform.id") {
        Some(v) => to_ascii_lower(v.as_str()),
        None => "metal".to_owned(),
    }
}

/// A cloud provider whose metadata exposes an instance type.
#[derive(Clone, Copy, Debug, PartialEq, Eq, Structural)]
pub enum CloudProvider {
    Aliyun,
    Aws,
    Azure,
    Gcp,
    Openstack,
}

impl CloudProvider {
    /// The cloud provider that the platform identifier `p` names, if any.
    pub open spec fn named(p: Seq<char>) -> Option<CloudProvider> {
        if p == "aliyun"@ {
            Some(CloudProvider::Aliyun)
        } else if p == "aws"@ {
            Some(CloudProvider::Aws)
        } else if p == "azure"@ {
            Some(CloudProvider::Azure)
        } else if p == "gcp"@ {
            Some(CloudProvider::Gcp)
        } else if p == "openstack"@ {
            Some(CloudProvider::Openstack)
        } else {
            None
        }
    }

    /// Classifies a platform identifier.
    pub fn from_platform(platform: &str) -> (r: Option<CloudProvider>)
        ensures
            r == Self::named(platform@),
    {
        let p = platform.to_owned();
        if p == "aliyun".to_owned() {
            Some(CloudProvider::Aliyun)
        } else if p == "aws".to_owned() {
            Some(CloudProvider::Aws)
        } else if p == "azure".to_owned() {
            Some(CloudProvider::Azure)
        } else if p == "gcp".to_owned() {
            Some(CloudProvider::Gcp)
        } else if p == "openstack".to_owned() {
            Some(CloudProvider::Openstack)
        } else {
            None
        }
    }

    /// The metadata entry that holds this provider's instance type.
    pub open spec fn metadata_key(self) -> Seq<char> {
        match self {
            CloudProvider::Aliyun => "AFTERBURN_ALIYUN_INSTANCE_TYPE"@,
            CloudProvider::Aws => "AFTERBURN_AWS_INSTANCE_TYPE"@,
            CloudProvider::Azure => "AFTERBURN_AZURE_VMSIZE"@,
            CloudProvider::Gcp => "AFTERBURN_GCP_MACHINE_TYPE"@,
            CloudProvider::Openstack => "AFTERBURN_OPENSTACK_INSTANCE_TYPE"@,
        }
    }

    pub fn metadata_entry(self) -> (r: &'static str)
        ensures
            r@ == self.metadata_key(),
    {
        match self {
            CloudProvider::Aliyun => "AFTERBURN_ALIYUN_INSTANCE_TYPE",
            CloudProvider::Aws => "AFTERBURN_AWS_INSTANCE_TYPE",
            CloudProvider::Azure => "AFTERBURN_AZURE_VMSIZE",
            CloudProvider::Gcp => "AFTERBURN_GCP_MACHINE_TYPE",
            CloudProvider::Openstack => "AFTERBURN_OPENSTACK_INSTANCE_TYPE",
        }
    }
}

/// The instance type that the metadata `m` (lines of `KEY=VALUE`) gives for
/// provider `p`: the value of the first non-empty entry for its key.
pub open spec fn instance_type_of(m: Seq<char>, p: CloudProvider) -> Result<Seq<char>, ErrorKind> {
    match lookup(pieces(m, Separator::Newline), p.metadata_key()) {
        Some(t) => Ok(t),
        None => Err(ErrorKind::ParseError),
    }
}

/// Reads the instance type of `provider` out of the contents of the cloud
/// metadata file.
pub fn resolve_instance_type(metadata: &str, provider: CloudProvider) -> (r: Result<
    String,
    ErrorKind,
>)
    ensures
        match r {
            Ok(t) => instance_type_of(metadata@, provider) == Ok::<Seq<char>, ErrorKind>(t@),
            Err(k) => instance_type_of(metadata@, provider) == Err::<Seq<char>, ErrorKind>(k),
        },
{
    match find_value(metadata, Separator::Newline, provider.metadata_entry()) {
        Some(t) => Ok(t),
        None => Err(ErrorKind::ParseError),
    }
}

} // verus!

verus! {

/// Boot arguments `args`, then the argument `ignition.platform.id=v` with a
/// non-empty value `v`, declare the platform `v` lower-cased, when `args`
/// hold no platform argument themselves.
pub proof fn lemma_platform_argument(args: Seq<char>, v: Seq<char>)
    requires
        v.len() > 0,
        forall|i: int| 0 <= i < v.len() ==> !Separator::Whitespace.separates(#[trigger] v[i]),
        lookup(pieces(args, Separator::Whitespace), platform_key()) is None,
    ensures
        platform_of(args.push(' ') + ("ignition.platform.id="@ + v)) == ascii_lower(v),
{
    reveal_strlit("ignition.platform.id=");
    reveal_strlit("ignition.platform.id");
    let key = platform_key();
    let t = "ignition.platform.id="@ + v;
    assert(key.len() == 20);
    assert forall|i: int| 0 <= i < t.len() implies !Separator::Whitespace.separates(
        #[trigger] t[i],
    ) by {
        if i >= 21 {
            assert(t[i] == v[i - 21]);
        }
    }
    lemma_pieces_append(args, ' ', t, Separator::Whitespace);
    lemma_lookup_last(pieces(args, Separator::Whitespace), t, key);
    assert(t.take(20) =~= key);
    assert(t.skip(21) =~= v);
}

} // verus!
