//! Picking the current OS version out of the booted-system status.
use vstd::prelude::*;

use crate::error::ErrorKind;
use crate::text::opt_view;

verus! {

/// One deployment as reported by the booted-system status interface.
#[derive(Debug)]
pub struct Deployment {
    /// The OS version of the deployment, when it reports one.
    pub version: Option<String>,
    /// Whether this deployment is the one currently booted.
    pub booted: bool,
}

pub struct DeploymentView {
    pub version: Option<Seq<char>>,
    pub booted: bool,
}

impl View for Deployment {
    type V = DeploymentView;

    open spec fn view(&self) -> DeploymentView {
        DeploymentView { version: opt_view(self.version), booted: self.booted }
    }
}

pub open spec fn deployments_view(ds: Seq<Deployment>) -> Seq<DeploymentView> {
    ds.map_values(|d: Deployment| d@)
}

/// The version of the first booted deployment among `ds`; a parse error when
/// none is booted or the booted one reports no version.
pub open spec fn booted_version_of(ds: Seq<DeploymentView>) -> Result<Seq<char>, ErrorKind>
    decreases ds.len(),
{
    if ds.len() == 0 {
        Err(ErrorKind::ParseError)
    } else if ds[0].booted {
        match ds[0].version {
            Some(v) => Ok(v),
            None => Err(ErrorKind::ParseError),
        }
    } else {
        booted_version_of(ds.skip(1))
    }
}

/// Returns the version of the booted deployment.
pub fn booted_version(deployments: &Vec<Deployment>) -> (r: Result<String, ErrorKind>)
    ensures
        match r {
            Ok(v) => booted_version_of(deployments_view(deployments@)) == Ok::<
                Seq<char>,
                ErrorKind,
            >(v@),
            Err(k) => booted_version_of(deployments_view(deployments@)) == Err::<
                Seq<char>,
                ErrorKind,
            >(k),
        },
{
    let ghost all = deployments_view(deployments@);
    let mut i: usize = 0;
    assert(all.skip(0) =~= all);
    while i < deployments.len()
        invariant
            0 <= i <= deployments@.len(),
            all == deployments_view(deployments@),
            booted_version_of(all) == booted_version_of(all.skip(i as int)),
        decreases deployments@.len() - i,
    {
        assert(all.skip(i as int).skip(1) =~= all.skip(i + 1));
        assert(all.skip(i as int)[0] == deployments@[i as int]@);
        if deployments[i].booted {
            return match &deployments[i].version {
                Some(v) => Ok(v.clone()),
                None => Err(ErrorKind::ParseError),
            };
        }
        i = i + 1;
    }
    assert(all.skip(i as int).len() == 0);
    Err(ErrorKind::ParseError)
}

} // verus!
