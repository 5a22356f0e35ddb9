//! The host application's runtime environment label.

use vstd::prelude::*;

verus! {

/// The environment the host application runs in. It is used as the
/// `deployment.environment.name` resource label and selects optional
/// propagator compatibility modes.
#[derive(Clone, Copy, PartialEq, Eq, Structural, Debug)]
pub enum Environment {
    Dev,
    Test,
    Prod,
}

impl Environment {
    /// The name under which the environment is exported.
    pub open spec fn name_spec(self) -> Seq<char> {
        match self {
            Environment::Dev => "Dev"@,
            Environment::Test => "Test"@,
            Environment::Prod => "Prod"@,
        }
    }

    /// The environment's name, as it appears in the resource attributes.
    pub fn name(&self) -> (r: String)
        ensures
            r@ == self.name_spec(),
    {
        match self {
            Environment::Dev => "Dev".to_owned(),
            Environment::Test => "Test".to_owned(),
            Environment::Prod => "Prod".to_owned(),
        }
    }
}

} // verus!
