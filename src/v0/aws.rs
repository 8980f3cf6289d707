//! AWS regions.

use vstd::prelude::*;

use crate::location::InvalidRegion;
use crate::text::{str_eq, strip, strip_prefix};

verus! {

#[derive(Clone, Copy, Debug, PartialEq, Eq, Hash, Structural)]
pub enum AwsRegion {
    ApNortheast1,
    ApNortheast2,
    ApSouth1,
    ApSoutheast1,
    ApSoutheast2,
    CaCentral1,
    EuCentral1,
    EuNorth1,
    EuWest1,
    EuWest2,
    EuWest3,
    SaEast1,
    UsEast1,
    UsEast2,
    UsWest1,
    UsWest2,
}

/// A private link service of a state location in AWS.
pub struct PrivateLinkServiceAws {
    pub id: String,
    pub name: String,
}

impl PrivateLinkServiceAws {
    /// `<id> / <name>`.
    pub fn show(&self) -> (r: String)
        ensures
            r@ == self.id@ + " / "@ + self.name@,
    {
        let mut r = self.id.clone();
        r.append(" / ");
        r.append(self.name.as_str());
        r
    }
}

impl AwsRegion {
    /// The vendor tag that qualifies a region code.
    pub const PREFIX: &'static str = "aws:";

    /// The vendor's name, as error messages give it.
    pub const VENDOR: &'static str = "AWS";

    /// The bare region code.
    pub open spec fn spec_as_str(self) -> Seq<char> {
        match self {
            AwsRegion::ApNortheast1 => "ap-northeast-1"@,
            AwsRegion::ApNortheast2 => "ap-northeast-2"@,
            AwsRegion::ApSouth1 => "ap-south-1"@,
            AwsRegion::ApSoutheast1 => "ap-southeast-1"@,
            AwsRegion::ApSoutheast2 => "ap-southeast-2"@,
            AwsRegion::CaCentral1 => "ca-central-1"@,
            AwsRegion::EuCentral1 => "eu-central-1"@,
            AwsRegion::EuNorth1 => "eu-north-1"@,
            AwsRegion::EuWest1 => "eu-west-1"@,
            AwsRegion::EuWest2 => "eu-west-2"@,
            AwsRegion::EuWest3 => "eu-west-3"@,
            AwsRegion::SaEast1 => "sa-east-1"@,
            AwsRegion::UsEast1 => "us-east-1"@,
            AwsRegion::UsEast2 => "us-east-2"@,
            AwsRegion::UsWest1 => "us-west-1"@,
            AwsRegion::UsWest2 => "us-west-2"@,
        }
    }

    /// The region whose bare code is `t`.
    pub open spec fn from_name(t: Seq<char>) -> Option<AwsRegion> {
        if t == "ap-northeast-1"@ {
            Some(AwsRegion::ApNortheast1)
        } else if t == "ap-northeast-2"@ {
            Some(AwsRegion::ApNortheast2)
        } else if t == "ap-south-1"@ {
            Some(AwsRegion::ApSouth1)
        } else if t == "ap-southeast-1"@ {
            Some(AwsRegion::ApSoutheast1)
        } else if t == "ap-southeast-2"@ {
            Some(AwsRegion::ApSoutheast2)
        } else if t == "ca-central-1"@ {
            Some(AwsRegion::CaCentral1)
        } else if t == "eu-central-1"@ {
            Some(AwsRegion::EuCentral1)
        } else if t == "eu-north-1"@ {
            Some(AwsRegion::EuNorth1)
        } else if t == "eu-west-1"@ {
            Some(AwsRegion::EuWest1)
        } else if t == "eu-west-2"@ {
            Some(AwsRegion::EuWest2)
        } else if t == "eu-west-3"@ {
            Some(AwsRegion::EuWest3)
        } else if t == "sa-east-1"@ {
            Some(AwsRegion::SaEast1)
        } else if t == "us-east-1"@ {
            Some(AwsRegion::UsEast1)
        } else if t == "us-east-2"@ {
            Some(AwsRegion::UsEast2)
        } else if t == "us-west-1"@ {
            Some(AwsRegion::UsWest1)
        } else if t == "us-west-2"@ {
            Some(AwsRegion::UsWest2)
        } else {
            None
        }
    }

    /// The region that a bare or qualified code names.
    pub open spec fn spec_parse(s: Seq<char>) -> Option<AwsRegion> {
        Self::from_name(strip(s, Self::PREFIX@))
    }

    /// The code with the vendor tag in front.
    pub open spec fn spec_qualified(self) -> Seq<char> {
        Self::PREFIX@ + self.spec_as_str()
    }

    pub fn as_str(&self) -> (r: &'static str)
        ensures
            r@ == self.spec_as_str(),
    {
        match self {
            AwsRegion::ApNortheast1 => "ap-northeast-1",
            AwsRegion::ApNortheast2 => "ap-northeast-2",
            AwsRegion::ApSouth1 => "ap-south-1",
            AwsRegion::ApSoutheast1 => "ap-southeast-1",
            AwsRegion::ApSoutheast2 => "ap-southeast-2",
            AwsRegion::CaCentral1 => "ca-central-1",
            AwsRegion::EuCentral1 => "eu-central-1",
            AwsRegion::EuNorth1 => "eu-north-1",
            AwsRegion::EuWest1 => "eu-west-1",
            AwsRegion::EuWest2 => "eu-west-2",
            AwsRegion::EuWest3 => "eu-west-3",
            AwsRegion::SaEast1 => "sa-east-1",
            AwsRegion::UsEast1 => "us-east-1",
            AwsRegion::UsEast2 => "us-east-2",
            AwsRegion::UsWest1 => "us-west-1",
            AwsRegion::UsWest2 => "us-west-2",
        }
    }

    /// The qualified form, such as `aws:us-west-2`.
    pub fn qualified(&self) -> (r: String)
        ensures
            r@ == self.spec_qualified(),
    {
        let mut r = String::from_str(Self::PREFIX);
        r.append(self.as_str());
        r
    }

    /// Parses a bare code, or one qualified with the vendor tag.
    pub fn from_str(s: &str) -> (r: Result<AwsRegion, InvalidRegion>)
        ensures
            match r {
                Ok(region) => Self::spec_parse(s@) == Some(region),
                Err(e) => Self::spec_parse(s@) is None && e.vendor@ == Self::VENDOR@
                    && e.region@ == strip(s@, Self::PREFIX@),
            },
    {
        let text = strip_prefix(s, Self::PREFIX);
        if str_eq(text, "ap-northeast-1") {
            return Ok(AwsRegion::ApNortheast1);
        }
        if str_eq(text, "ap-northeast-2") {
            return Ok(AwsRegion::ApNortheast2);
        }
        if str_eq(text, "ap-south-1") {
            return Ok(AwsRegion::ApSouth1);
        }
        if str_eq(text, "ap-southeast-1") {
            return Ok(AwsRegion::ApSoutheast1);
        }
        if str_eq(text, "ap-southeast-2") {
            return Ok(AwsRegion::ApSoutheast2);
        }
        if str_eq(text, "ca-central-1") {
            return Ok(AwsRegion::CaCentral1);
        }
        if str_eq(text, "eu-central-1") {
            return Ok(AwsRegion::EuCentral1);
        }
        if str_eq(text, "eu-north-1") {
            return Ok(AwsRegion::EuNorth1);
        }
        if str_eq(text, "eu-west-1") {
            return Ok(AwsRegion::EuWest1);
        }
        if str_eq(text, "eu-west-2") {
            return Ok(AwsRegion::EuWest2);
        }
        if str_eq(text, "eu-west-3") {
            return Ok(AwsRegion::EuWest3);
        }
        if str_eq(text, "sa-east-1") {
            return Ok(AwsRegion::SaEast1);
        }
        if str_eq(text, "us-east-1") {
            return Ok(AwsRegion::UsEast1);
        }
        if str_eq(text, "us-east-2") {
            return Ok(AwsRegion::UsEast2);
        }
        if str_eq(text, "us-west-1") {
            return Ok(AwsRegion::UsWest1);
        }
        if str_eq(text, "us-west-2") {
            return Ok(AwsRegion::UsWest2);
        }
        Err(InvalidRegion::new(Self::VENDOR, text))
    }
}

/// Makes the solver see the length and the telling characters of every
/// region code, which is what tells two codes apart.
pub proof fn lemma_codes_revealed()
    ensures
        "ap-northeast-1"@.len() == 14,
        "ap-northeast-1"@[0] == 'a',
        "ap-northeast-1"@[1] == 'p',
        "ap-northeast-1"@[2] == '-',
        "ap-northeast-1"@[3] == 'n',
        "ap-northeast-1"@[13] == '1',
        "ap-northeast-2"@.len() == 14,
        "ap-northeast-2"@[0] == 'a',
        "ap-northeast-2"@[1] == 'p',
        "ap-northeast-2"@[2] == '-',
        "ap-northeast-2"@[3] == 'n',
        "ap-northeast-2"@[13] == '2',
        "ap-south-1"@.len() == 10,
        "ap-south-1"@[0] == 'a',
        "ap-south-1"@[1] == 'p',
        "ap-south-1"@[2] == '-',
        "ap-south-1"@[3] == 's',
        "ap-south-1"@[9] == '1',
        "ap-southeast-1"@.len() == 14,
        "ap-southeast-1"@[0] == 'a',
        "ap-southeast-1"@[1] == 'p',
        "ap-southeast-1"@[2] == '-',
        "ap-southeast-1"@[3] == 's',
        "ap-southeast-1"@[13] == '1',
        "ap-southeast-2"@.len() == 14,
        "ap-southeast-2"@[0] == 'a',
        "ap-southeast-2"@[1] == 'p',
        "ap-southeast-2"@[2] == '-',
        "ap-southeast-2"@[3] == 's',
        "ap-southeast-2"@[13] == '2',
        "ca-central-1"@.len() == 12,
        "ca-central-1"@[0] == 'c',
        "ca-central-1"@[1] == 'a',
        "ca-central-1"@[2] == '-',
        "ca-central-1"@[3] == 'c',
        "ca-central-1"@[11] == '1',
        "eu-central-1"@.len() == 12,
        "eu-central-1"@[0] == 'e',
        "eu-central-1"@[1] == 'u',
        "eu-central-1"@[2] == '-',
        "eu-central-1"@[3] == 'c',
        "eu-central-1"@[11] == '1',
        "eu-north-1"@.len() == 10,
        "eu-north-1"@[0] == 'e',
        "eu-north-1"@[1] == 'u',
        "eu-north-1"@[2] == '-',
        "eu-north-1"@[3] == 'n',
        "eu-north-1"@[9] == '1',
        "eu-west-1"@.len() == 9,
        "eu-west-1"@[0] == 'e',
        "eu-west-1"@[1] == 'u',
        "eu-west-1"@[2] == '-',
        "eu-west-1"@[3] == 'w',
        "eu-west-1"@[8] == '1',
        "eu-west-2"@.len() == 9,
        "eu-west-2"@[0] == 'e',
        "eu-west-2"@[1] == 'u',
        "eu-west-2"@[2] == '-',
        "eu-west-2"@[3] == 'w',
        "eu-west-2"@[8] == '2',
        "eu-west-3"@.len() == 9,
        "eu-west-3"@[0] == 'e',
        "eu-west-3"@[1] == 'u',
        "eu-west-3"@[2] == '-',
        "eu-west-3"@[3] == 'w',
        "eu-west-3"@[8] == '3',
        "sa-east-1"@.len() == 9,
        "sa-east-1"@[0] == 's',
        "sa-east-1"@[1] == 'a',
        "sa-east-1"@[2] == '-',
        "sa-east-1"@[3] == 'e',
        "sa-east-1"@[8] == '1',
        "us-east-1"@.len() == 9,
        "us-east-1"@[0] == 'u',
        "us-east-1"@[1] == 's',
        "us-east-1"@[2] == '-',
        "us-east-1"@[3] == 'e',
        "us-east-1"@[8] == '1',
        "us-east-2"@.len() == 9,
        "us-east-2"@[0] == 'u',
        "us-east-2"@[1] == 's',
        "us-east-2"@[2] == '-',
        "us-east-2"@[3] == 'e',
        "us-east-2"@[8] == '2',
        "us-west-1"@.len() == 9,
        "us-west-1"@[0] == 'u',
        "us-west-1"@[1] == 's',
        "us-west-1"@[2] == '-',
        "us-west-1"@[3] == 'w',
        "us-west-1"@[8] == '1',
        "us-west-2"@.len() == 9,
        "us-west-2"@[0] == 'u',
        "us-west-2"@[1] == 's',
        "us-west-2"@[2] == '-',
        "us-west-2"@[3] == 'w',
        "us-west-2"@[8] == '2',
        AwsRegion::PREFIX@.len() == 4,
        AwsRegion::PREFIX@[0] == 'a',
        AwsRegion::PREFIX@[1] == 'w',
        AwsRegion::PREFIX@[2] == 's',
        AwsRegion::PREFIX@[3] == ':',
        AwsRegion::VENDOR@ == "AWS"@,
{
    reveal_strlit("ap-northeast-1");
    reveal_strlit("ap-northeast-2");
    reveal_strlit("ap-south-1");
    reveal_strlit("ap-southeast-1");
    reveal_strlit("ap-southeast-2");
    reveal_strlit("ca-central-1");
    reveal_strlit("eu-central-1");
    reveal_strlit("eu-north-1");
    reveal_strlit("eu-west-1");
    reveal_strlit("eu-west-2");
    reveal_strlit("eu-west-3");
    reveal_strlit("sa-east-1");
    reveal_strlit("us-east-1");
    reveal_strlit("us-east-2");
    reveal_strlit("us-west-1");
    reveal_strlit("us-west-2");
    reveal_strlit("aws:");
}

/// Each region is what its bare code names.
pub proof fn lemma_from_name(r: AwsRegion)
    ensures
        AwsRegion::from_name(r.spec_as_str()) == Some(r),
{
    lemma_codes_revealed();
}

} // verus!
