//! The identity this service reports about itself.
use vstd::prelude::*;

verus! {

/// The service's own name.
pub const SERVICE: &'static str = "srvcs-vectoradd";

/// The one concern this service owns.
pub const CONCERN: &'static str = "vectors: component-wise addition";

/// The only service this one calls.
pub const FLOATADD: &'static str = "srvcs-floatadd";

/// The services this one calls.
pub const DEPENDS_ON: [&'static str; 1] = [FLOATADD];

/// What `GET /` answers: who this service is and what it depends on.
pub struct Info {
    pub service: &'static str,
    pub concern: &'static str,
    pub depends_on: Vec<&'static str>,
}

/// The identity record: name, concern and the list of services called.
pub fn index() -> (info: Info)
    ensures
        info.service@ == "srvcs-vectoradd"@,
        info.concern@ == "vectors: component-wise addition"@,
        info.depends_on@ == DEPENDS_ON@,
        info.depends_on@.len() == 1,
        info.depends_on@[0]@ == "srvcs-floatadd"@,
{
    proof {
        reveal_strlit("srvcs-vectoradd");
        reveal_strlit("vectors: component-wise addition");
        reveal_strlit("srvcs-floatadd");
    }
    let listed: [&'static str; 1] = DEPENDS_ON;
    let mut depends_on: Vec<&'static str> = Vec::new();
    let mut i: usize = 0;
    while i < listed.len()
        invariant
            i <= listed@.len(),
            listed@ == DEPENDS_ON@,
            depends_on@ == listed@.subrange(0, i as int),
        decreases listed@.len() - i,
    {
        depends_on.push(listed[i]);
        i = i + 1;
    }
    assert(depends_on@ =~= DEPENDS_ON@);
    Info { service: SERVICE, concern: CONCERN, depends_on }
}

} // verus!
