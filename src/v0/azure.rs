//! Azure regions.

use vstd::prelude::*;

use crate::location::InvalidRegion;
use crate::text::{str_eq, strip, strip_prefix};

verus! {

#[derive(Clone, Copy, Debug, PartialEq, Eq, Hash, Structural)]
pub enum AzureRegion {
    CentralUs,
    EastUs,
    EastUs2,
    FranceCentral,
    JapanEast,
    NorthEurope,
    SouthEastasia,
    UkSouth,
    WestEurope,
    WestUs2,
}

/// A private link service of a state location in Azure.
pub struct PrivateLinkServiceAzure {
    pub id: String,
}

impl PrivateLinkServiceAzure {
    /// The service's id.
    pub fn show(&self) -> (r: String)
        ensures
            r@ == self.id@,
    {
        self.id.clone()
    }
}

impl AzureRegion {
    /// The vendor tag that qualifies a region code.
    pub const PREFIX: &'static str = "azure:";

    /// The vendor's name, as error messages give it.
    pub const VENDOR: &'static str = "Azure";

    /// The bare region code.
    pub open spec fn spec_as_str(self) -> Seq<char> {
        match self {
            AzureRegion::CentralUs => "centralus"@,
            AzureRegion::EastUs => "eastus"@,
            AzureRegion::EastUs2 => "eastus2"@,
            AzureRegion::FranceCentral => "francecentral"@,
            AzureRegion::JapanEast => "japaneast"@,
            AzureRegion::NorthEurope => "northeurope"@,
            AzureRegion::SouthEastasia => "southeastasia"@,
            AzureRegion::UkSouth => "uksouth"@,
            AzureRegion::WestEurope => "westeurope"@,
            AzureRegion::WestUs2 => "westus2"@,
        }
    }

    /// The region whose bare code is `t`.
    pub open spec fn from_name(t: Seq<char>) -> Option<AzureRegion> {
        if t == "centralus"@ {
            Some(AzureRegion::CentralUs)
        } else if t == "eastus"@ {
            Some(AzureRegion::EastUs)
        } else if t == "eastus2"@ {
            Some(AzureRegion::EastUs2)
        } else if t == "francecentral"@ {
            Some(AzureRegion::FranceCentral)
        } else if t == "japaneast"@ {
            Some(AzureRegion::JapanEast)
        } else if t == "northeurope"@ {
            Some(AzureRegion::NorthEurope)
        } else if t == "southeastasia"@ {
            Some(AzureRegion::SouthEastasia)
        } else if t == "uksouth"@ {
            Some(AzureRegion::UkSouth)
        } else if t == "westeurope"@ {
            Some(AzureRegion::WestEurope)
        } else if t == "westus2"@ {
            Some(AzureRegion::WestUs2)
        } else {
            None
        }
    }

    /// The region that a bare or qualified code names.
    pub open spec fn spec_parse(s: Seq<char>) -> Option<AzureRegion> {
        Self::from_name(strip(s, Self::PREFIX@))
    }

    /// The code with the vendor tag in front.
    pub open spec fn spec_qualified(self) -> Seq<char> {
        Self::PREFIX@ + self.spec_as_str()
    }

    pub fn as_str(&self) -> (r: &'static str)
        ensures
            r@ == self.spec_as_str(),
    {
        match self {
            AzureRegion::CentralUs => "centralus",
            AzureRegion::EastUs => "eastus",
            AzureRegion::EastUs2 => "eastus2",
            AzureRegion::FranceCentral => "francecentral",
            AzureRegion::JapanEast => "japaneast",
            AzureRegion::NorthEurope => "northeurope",
            AzureRegion::SouthEastasia => "southeastasia",
            AzureRegion::UkSouth => "uksouth",
            AzureRegion::WestEurope => "westeurope",
            AzureRegion::WestUs2 => "westus2",
        }
    }

    /// The qualified form, such as `azure:westus2`.
    pub fn qualified(&self) -> (r: String)
        ensures
            r@ == self.spec_qualified(),
    {
        let mut r = String::from_str(Self::PREFIX);
        r.append(self.as_str());
        r
    }

    /// Parses a bare code, or one qualified with the vendor tag.
    pub fn from_str(s: &str) -> (r: Result<AzureRegion, InvalidRegion>)
        ensures
            match r {
                Ok(region) => Self::spec_parse(s@) == Some(region),
                Err(e) => Self::spec_parse(s@) is None && e.vendor@ == Self::VENDOR@
                    && e.region@ == strip(s@, Self::PREFIX@),
            },
    {
        let text = strip_prefix(s, Self::PREFIX);
        if str_eq(text, "centralus") {
            return Ok(AzureRegion::CentralUs);
        }
        if str_eq(text, "eastus") {
            return Ok(AzureRegion::EastUs);
        }
        if str_eq(text, "eastus2") {
            return Ok(AzureRegion::EastUs2);
        }
        if str_eq(text, "francecentral") {
            return Ok(AzureRegion::FranceCentral);
        }
        if str_eq(text, "japaneast") {
            return Ok(AzureRegion::JapanEast);
        }
        if str_eq(text, "northeurope") {
            return Ok(AzureRegion::NorthEurope);
        }
        if str_eq(text, "southeastasia") {
            return Ok(AzureRegion::SouthEastasia);
        }
        if str_eq(text, "uksouth") {
            return Ok(AzureRegion::UkSouth);
        }
        if str_eq(text, "westeurope") {
            return Ok(AzureRegion::WestEurope);
        }
        if str_eq(text, "westus2") {
            return Ok(AzureRegion::WestUs2);
        }
        Err(InvalidRegion::new(Self::VENDOR, text))
    }
}

/// Makes the solver see the length and the telling characters of every
/// region code, which is what tells two codes apart.
pub proof fn lemma_codes_revealed()
    ensures
        "centralus"@.len() == 9,
        "centralus"@[0] == 'c',
        "centralus"@[1] == 'e',
        "centralus"@[2] == 'n',
        "centralus"@[3] == 't',
        "centralus"@[8] == 's',
        "eastus"@.len() == 6,
        "eastus"@[0] == 'e',
        "eastus"@[1] == 'a',
        "eastus"@[2] == 's',
        "eastus"@[3] == 't',
        "eastus"@[5] == 's',
        "eastus2"@.len() == 7,
        "eastus2"@[0] == 'e',
        "eastus2"@[1] == 'a',
        "eastus2"@[2] == 's',
        "eastus2"@[3] == 't',
        "eastus2"@[6] == '2',
        "francecentral"@.len() == 13,
        "francecentral"@[0] == 'f',
        "francecentral"@[1] == 'r',
        "francecentral"@[2] == 'a',
        "francecentral"@[3] == 'n',
        "francecentral"@[12] == 'l',
        "japaneast"@.len() == 9,
        "japaneast"@[0] == 'j',
        "japaneast"@[1] == 'a',
        "japaneast"@[2] == 'p',
        "japaneast"@[3] == 'a',
        "japaneast"@[8] == 't',
        "northeurope"@.len() == 11,
        "northeurope"@[0] == 'n',
        "northeurope"@[1] == 'o',
        "northeurope"@[2] == 'r',
        "northeurope"@[3] == 't',
        "northeurope"@[10] == 'e',
        "southeastasia"@.len() == 13,
        "southeastasia"@[0] == 's',
        "southeastasia"@[1] == 'o',
        "southeastasia"@[2] == 'u',
        "southeastasia"@[3] == 't',
        "southeastasia"@[12] == 'a',
        "uksouth"@.len() == 7,
        "uksouth"@[0] == 'u',
        "uksouth"@[1] == 'k',
        "uksouth"@[2] == 's',
        "uksouth"@[3] == 'o',
        "uksouth"@[6] == 'h',
        "westeurope"@.len() == 10,
        "westeurope"@[0] == 'w',
        "westeurope"@[1] == 'e',
        "westeurope"@[2] == 's',
        "westeurope"@[3] == 't',
        "westeurope"@[9] == 'e',
        "westus2"@.len() == 7,
        "westus2"@[0] == 'w',
        "westus2"@[1] == 'e',
        "westus2"@[2] == 's',
        "westus2"@[3] == 't',
        "westus2"@[6] == '2',
        AzureRegion::PREFIX@.len() == 6,
        AzureRegion::PREFIX@[0] == 'a',
        AzureRegion::PREFIX@[1] == 'z',
        AzureRegion::PREFIX@[2] == 'u',
        AzureRegion::PREFIX@[3] == 'r',
        AzureRegion::PREFIX@[4] == 'e',
        AzureRegion::PREFIX@[5] == ':',
        AzureRegion::VENDOR@ == "Azure"@,
{
    reveal_strlit("centralus");
    reveal_strlit("eastus");
    reveal_strlit("eastus2");
    reveal_strlit("francecentral");
    reveal_strlit("japaneast");
    reveal_strlit("northeurope");
    reveal_strlit("southeastasia");
    reveal_strlit("uksouth");
    reveal_strlit("westeurope");
    reveal_strlit("westus2");
    reveal_strlit("azure:");
}

/// Each region is what its bare code names.
pub proof fn lemma_from_name(r: AzureRegion)
    ensures
        AzureRegion::from_name(r.spec_as_str()) == Some(r),
{
    lemma_codes_revealed();
}

} // verus!
