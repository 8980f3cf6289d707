//! Cloud locations: a vendor together with one of its regions.

use vstd::prelude::*;

use crate::text::{join, joined, views};
use crate::v0::{AwsRegion, AzureRegion};

verus! {

/// A region code that no region of the vendor has.
pub struct InvalidRegion {
    pub vendor: String,
    pub region: String,
}

impl InvalidRegion {
    pub fn new(vendor: &str, region: &str) -> (r: InvalidRegion)
        ensures
            r.vendor@ == vendor@,
            r.region@ == region@,
    {
        InvalidRegion { vendor: String::from_str(vendor), region: String::from_str(region) }
    }

    pub open spec fn spec_message(&self) -> Seq<char> {
        "Invalid "@ + self.vendor@ + " region \""@ + self.region@ + "\""@
    }

    /// `Invalid <vendor> region "<code>"`.
    pub fn message(&self) -> (r: String)
        ensures
            r@ == self.spec_message(),
    {
        let mut r = String::from_str("Invalid ");
        r.append(self.vendor.as_str());
        r.append(" region \"");
        r.append(self.region.as_str());
        r.append("\"");
        r
    }
}

#[derive(Clone, Copy, Debug, PartialEq, Eq, Hash, Structural)]
pub enum Location {
    Aws(AwsRegion),
    Azure(AzureRegion),
}

/// Why a text names no single location.
pub enum LocationError {
    /// Both vendors have a region of that code.
    Ambiguous(AwsRegion, AzureRegion),
    /// Neither vendor has a region of that code.
    Unknown(InvalidRegion, InvalidRegion),
}

impl LocationError {
    pub open spec fn spec_message(&self) -> Seq<char> {
        match self {
            LocationError::Ambiguous(aws, azure) => "Ambiguous region, use either "@
                + aws.spec_qualified() + " or "@ + azure.spec_qualified(),
            LocationError::Unknown(aws, azure) => aws.spec_message() + " or "@
                + azure.spec_message(),
        }
    }

    pub fn message(&self) -> (r: String)
        ensures
            r@ == self.spec_message(),
    {
        match self {
            LocationError::Ambiguous(aws, azure) => {
                let mut r = String::from_str("Ambiguous region, use either ");
                r.append(aws.qualified().as_str());
                r.append(" or ");
                r.append(azure.qualified().as_str());
                r
            },
            LocationError::Unknown(aws, azure) => {
                let mut r = aws.message();
                r.append(" or ");
                r.append(azure.message().as_str());
                r
            },
        }
    }
}

impl Location {
    /// The bare region code.
    pub open spec fn spec_as_str(self) -> Seq<char> {
        match self {
            Location::Aws(r) => r.spec_as_str(),
            Location::Azure(r) => r.spec_as_str(),
        }
    }

    /// The region code with the vendor tag in front.
    pub open spec fn spec_qualified(self) -> Seq<char> {
        match self {
            Location::Aws(r) => r.spec_qualified(),
            Location::Azure(r) => r.spec_qualified(),
        }
    }

    /// The location a text names: the one vendor whose parser accepts it.
    pub open spec fn spec_parse(s: Seq<char>) -> Option<Location> {
        match (AwsRegion::spec_parse(s), AzureRegion::spec_parse(s)) {
            (Some(aws), None) => Some(Location::Aws(aws)),
            (None, Some(azure)) => Some(Location::Azure(azure)),
            _ => None,
        }
    }

    /// Both vendors' parsers accept the text.
    pub open spec fn spec_ambiguous(s: Seq<char>) -> bool {
        AwsRegion::spec_parse(s) is Some && AzureRegion::spec_parse(s) is Some
    }

    pub fn from_aws(region: AwsRegion) -> (r: Location)
        ensures
            r == Location::Aws(region),
    {
        Location::Aws(region)
    }

    pub fn from_azure(region: AzureRegion) -> (r: Location)
        ensures
            r == Location::Azure(region),
    {
        Location::Azure(region)
    }

    /// The bare region code, as the short display form shows it.
    pub fn as_str(&self) -> (r: &'static str)
        ensures
            r@ == self.spec_as_str(),
    {
        match self {
            Location::Aws(region) => region.as_str(),
            Location::Azure(region) => region.as_str(),
        }
    }

    /// The qualified display form, such as `aws:us-west-2`.
    pub fn show(&self) -> (r: String)
        ensures
            r@ == self.spec_qualified(),
    {
        match self {
            Location::Aws(region) => region.qualified(),
            Location::Azure(region) => region.qualified(),
        }
    }

    /// Decides from the two vendors' parse outcomes: the one that succeeded
    /// wins; two successes are ambiguous; two failures give both errors.
    pub fn from_parsed(
        aws: Result<AwsRegion, InvalidRegion>,
        azure: Result<AzureRegion, InvalidRegion>,
    ) -> (r: Result<Location, LocationError>)
        ensures
            match (aws, azure) {
                (Ok(a), Err(_)) => r == Ok::<Location, LocationError>(Location::Aws(a)),
                (Err(_), Ok(z)) => r == Ok::<Location, LocationError>(Location::Azure(z)),
                (Ok(a), Ok(z)) => r == Err::<Location, LocationError>(
                    LocationError::Ambiguous(a, z),
                ),
                (Err(ea), Err(ez)) => r == Err::<Location, LocationError>(
                    LocationError::Unknown(ea, ez),
                ),
            },
    {
        match (aws, azure) {
            (Ok(a), Err(_)) => Ok(Location::Aws(a)),
            (Err(_), Ok(z)) => Ok(Location::Azure(z)),
            (Ok(a), Ok(z)) => Err(LocationError::Ambiguous(a, z)),
            (Err(ea), Err(ez)) => Err(LocationError::Unknown(ea, ez)),
        }
    }

    /// Parses a location from a bare or vendor-qualified region code.
    pub fn from_str(s: &str) -> (r: Result<Location, LocationError>)
        ensures
            Location::spec_ambiguous(s@) == (r matches Err(LocationError::Ambiguous(_, _))),
            match r {
                Ok(l) => Location::spec_parse(s@) == Some(l),
                Err(LocationError::Ambiguous(aws, azure)) => AwsRegion::spec_parse(s@) == Some(
                    aws,
                ) && AzureRegion::spec_parse(s@) == Some(azure),
                Err(LocationError::Unknown(aws, azure)) => {
                    &&& AwsRegion::spec_parse(s@) is None
                    &&& AzureRegion::spec_parse(s@) is None
                    &&& aws.vendor@ == AwsRegion::VENDOR@
                    &&& azure.vendor@ == AzureRegion::VENDOR@
                },
            },
    {
        Location::from_parsed(AwsRegion::from_str(s), AzureRegion::from_str(s))
    }
}

/// The qualified forms of a list of locations.
pub open spec fn qualified_all(ls: Seq<Location>) -> Seq<Seq<char>> {
    ls.map_values(|l: Location| l.spec_qualified())
}

/// The locations' qualified forms joined by ` and `.
pub fn show_locations(ls: &Vec<Location>) -> (r: String)
    ensures
        r@ == joined(qualified_all(ls@), " and "@),
{
    let mut parts: Vec<String> = Vec::new();
    let mut i: usize = 0;
    while i < ls.len()
        invariant
            i <= ls@.len(),
            views(parts@) == qualified_all(ls@.take(i as int)),
        decreases ls@.len() - i,
    {
        let s = ls[i].show();
        let ghost before = parts@;
        parts.push(s);
        assert(parts@ =~= before.push(s));
        assert(views(before.push(s)) =~= views(before).push(s@));
        assert(qualified_all(ls@.take(i + 1)) =~= qualified_all(ls@.take(i as int)).push(
            ls@[i as int].spec_qualified(),
        ));
        i = i + 1;
    }
    assert(ls@.take(ls@.len() as int) =~= ls@);
    join(&parts, " and ")
}

/// Parsing the qualified form of a location gives that location back, and
/// so does parsing its bare code: no code is valid for both vendors.
pub proof fn lemma_qualified_round_trip(l: Location)
    ensures
        Location::spec_parse(l.spec_qualified()) == Some(l),
        Location::spec_parse(l.spec_as_str()) == Some(l),
        !Location::spec_ambiguous(l.spec_as_str()),
{
    crate::v0::aws::lemma_codes_revealed();
    crate::v0::azure::lemma_codes_revealed();
    match l {
        Location::Aws(r) => {
            let q = r.spec_qualified();
            assert(q.subrange(0, AwsRegion::PREFIX@.len() as int) =~= AwsRegion::PREFIX@);
            assert(AwsRegion::PREFIX@.is_prefix_of(q));
            assert(crate::text::strip(q, AwsRegion::PREFIX@) =~= r.spec_as_str());
            assert(q[3] == ':');
            assert(q[1] == 'w');
            crate::v0::aws::lemma_from_name(r);
            assert(r.spec_as_str()[2] == '-');
            assert(r.spec_as_str()[1] != 'z');
        },
        Location::Azure(r) => {
            let q = r.spec_qualified();
            assert(q.subrange(0, AzureRegion::PREFIX@.len() as int) =~= AzureRegion::PREFIX@);
            assert(AzureRegion::PREFIX@.is_prefix_of(q));
            assert(crate::text::strip(q, AzureRegion::PREFIX@) =~= r.spec_as_str());
            assert(q[2] == 'u');
            assert(q[1] == 'z');
            crate::v0::azure::lemma_from_name(r);
            assert(r.spec_as_str()[2] != '-');
            assert(r.spec_as_str()[3] != ':');
        },
    }
}

} // verus!
