//! GCP regions.

use vstd::prelude::*;

use crate::location::InvalidRegion;
use crate::text::{str_eq, strip, strip_prefix};

verus! {

#[derive(Clone, Copy, Debug, PartialEq, Eq, Hash, Structural)]
pub enum GcpRegion {
    Antarctica,
}

impl GcpRegion {
    /// The vendor tag that qualifies a region code.
    pub const PREFIX: &'static str = "gcp:";

    /// The vendor's name, as error messages give it.
    pub const VENDOR: &'static str = "GCP";

    /// The bare region code.
    pub open spec fn spec_as_str(self) -> Seq<char> {
        match self {
            GcpRegion::Antarctica => "antarctica"@,
        }
    }

    /// The region whose bare code is `t`.
    pub open spec fn from_name(t: Seq<char>) -> Option<GcpRegion> {
        if t == "antarctica"@ {
            Some(GcpRegion::Antarctica)
        } else {
            None
        }
    }

    /// The region that a bare or qualified code names.
    pub open spec fn spec_parse(s: Seq<char>) -> Option<GcpRegion> {
        Self::from_name(strip(s, Self::PREFIX@))
    }

    /// The code with the vendor tag in front.
    pub open spec fn spec_qualified(self) -> Seq<char> {
        Self::PREFIX@ + self.spec_as_str()
    }

    pub fn as_str(&self) -> (r: &'static str)
        ensures
            r@ == self.spec_as_str(),
    {
        match self {
            GcpRegion::Antarctica => "antarctica",
        }
    }

    /// The qualified form, such as `gcp:antarctica`.
    pub fn qualified(&self) -> (r: String)
        ensures
            r@ == self.spec_qualified(),
    {
        let mut r = String::from_str(Self::PREFIX);
        r.append(self.as_str());
        r
    }

    /// Parses a bare code, or one qualified with the vendor tag.
    pub fn from_str(s: &str) -> (r: Result<GcpRegion, InvalidRegion>)
        ensures
            match r {
                Ok(region) => Self::spec_parse(s@) == Some(region),
                Err(e) => Self::spec_parse(s@) is None && e.vendor@ == Self::VENDOR@
                    && e.region@ == strip(s@, Self::PREFIX@),
            },
    {
        let text = strip_prefix(s, Self::PREFIX);
        if str_eq(text, "antarctica") {
            return Ok(GcpRegion::Antarctica);
        }
        Err(InvalidRegion::new(Self::VENDOR, text))
    }
}

/// Makes the solver see the length and the telling characters of every
/// region code, which is what tells two codes apart.
pub proof fn lemma_codes_revealed()
    ensures
        "antarctica"@.len() == 10,
        "antarctica"@[0] == 'a',
        "antarctica"@[1] == 'n',
        "antarctica"@[2] == 't',
        "antarctica"@[3] == 'a',
        "antarctica"@[9] == 'a',
        GcpRegion::PREFIX@.len() == 4,
        GcpRegion::PREFIX@[0] == 'g',
        GcpRegion::PREFIX@[1] == 'c',
        GcpRegion::PREFIX@[2] == 'p',
        GcpRegion::PREFIX@[3] == ':',
        GcpRegion::VENDOR@ == "GCP"@,
{
    reveal_strlit("antarctica");
    reveal_strlit("gcp:");
}

/// Each region is what its bare code names.
pub proof fn lemma_from_name(r: GcpRegion)
    ensures
        GcpRegion::from_name(r.spec_as_str()) == Some(r),
{
    lemma_codes_revealed();
}

} // verus!
