//! A website record.

use vstd::prelude::*;

verus! {

/// One website: its domain, name, home nation, and founding year.
pub struct Site {
    pub domain: String,
    pub name: String,
    pub nation: String,
    pub found: u32,
}

/// Builds a site record for the given name and nation, under the house
/// domain and founding year.
pub fn build_site(name: String, nation: String) -> (s: Site)
    ensures
        s.name@ == name@,
        s.nation@ == nation@,
        s.domain@ == "www.aa.com"@,
        s.found == 200,
{
    Site { name, nation, domain: "www.aa.com".to_owned(), found: 200 }
}

} // verus!
