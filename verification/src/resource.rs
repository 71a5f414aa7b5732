//! The identity a resource descriptor gives this client.
//!
//! The enclosing pipeline reads its resource's tags and hands the four
//! relevant ones over as plain optional strings; the defaulting rules live
//! here.

use vstd::prelude::*;
use vstd::string::StringExecFns;

verus! {

/// Identity fields carried on every envelope.
pub struct ResourceData {
    pub version: Option<String>,
    pub machine_name: String,
    pub instance: String,
    pub role_name: Option<String>,
}

impl ResourceData {
    /// Derive the identity from a resource's tags: the machine name is the
    /// host name or the literal `Unknown`, and the instance falls back to
    /// the machine name.
    pub fn from_parts(
        version: Option<String>,
        role_name: Option<String>,
        instance: Option<String>,
        host_name: Option<String>,
    ) -> (r: ResourceData)
        ensures
            r.version == version,
            r.role_name == role_name,
            host_name matches Some(h) ==> r.machine_name@ == h@,
            host_name is None ==> r.machine_name@ == "Unknown"@,
            instance matches Some(i) ==> r.instance@ == i@,
            instance is None ==> r.instance@ == r.machine_name@,
    {
        let machine_name = match host_name {
            Some(h) => h,
            None => String::from_str("Unknown"),
        };
        let instance = match instance {
            Some(i) => i,
            None => machine_name.clone(),
        };
        ResourceData { version, role_name, machine_name, instance }
    }

    /// An identical copy.
    pub fn duplicate(&self) -> (r: ResourceData)
        ensures
            r == *self,
    {
        ResourceData {
            version: match &self.version {
                Some(v) => Some(v.clone()),
                None => None,
            },
            machine_name: self.machine_name.clone(),
            instance: self.instance.clone(),
            role_name: match &self.role_name {
                Some(v) => Some(v.clone()),
                None => None,
            },
        }
    }
}

} // verus!
