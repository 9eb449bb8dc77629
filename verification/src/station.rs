//! The closed sets of regions and channels, each with the key under which
//! the stream list files it.

use vstd::prelude::*;

verus! {

/// A broadcast region.
#[derive(Debug, Clone, Copy, PartialEq, Eq, Structural)]
pub enum RadioLocation {
    Sapporo,
    Sendai,
    Tokyo,
    Nagoya,
    Osaka,
    Hiroshima,
    Matsuyama,
    Fukuoka,
}

/// A broadcast channel.
#[derive(Debug, Clone, Copy, PartialEq, Eq, Structural)]
pub enum RadioChannel {
    NhkR1,
    NhkFm,
    NhkR2,
}

impl RadioChannel {
    /// The element name under which a record files this channel's endpoint.
    pub open spec fn token(self) -> Seq<char> {
        match self {
            RadioChannel::NhkR1 => "r1hls"@,
            RadioChannel::NhkR2 => "r2hls"@,
            RadioChannel::NhkFm => "fmhls"@,
        }
    }

    /// The channel's key in the stream list.
    pub fn as_str(&self) -> (key: &'static str)
        ensures
            key@ == self.token(),
    {
        match self {
            RadioChannel::NhkR1 => "r1hls",
            RadioChannel::NhkR2 => "r2hls",
            RadioChannel::NhkFm => "fmhls",
        }
    }
}

impl RadioLocation {
    /// The region key that a record of this region carries.
    pub open spec fn token(self) -> Seq<char> {
        match self {
            RadioLocation::Sapporo => "sapporo"@,
            RadioLocation::Sendai => "sendai"@,
            RadioLocation::Tokyo => "tokyo"@,
            RadioLocation::Nagoya => "nagoya"@,
            RadioLocation::Osaka => "osaka"@,
            RadioLocation::Hiroshima => "hiroshima"@,
            RadioLocation::Matsuyama => "matsuyama"@,
            RadioLocation::Fukuoka => "fukuoka"@,
        }
    }

    /// The region's key in the stream list.
    pub fn as_str(&self) -> (key: &'static str)
        ensures
            key@ == self.token(),
    {
        match self {
            RadioLocation::Sapporo => "sapporo",
            RadioLocation::Sendai => "sendai",
            RadioLocation::Tokyo => "tokyo",
            RadioLocation::Nagoya => "nagoya",
            RadioLocation::Osaka => "osaka",
            RadioLocation::Hiroshima => "hiroshima",
            RadioLocation::Matsuyama => "matsuyama",
            RadioLocation::Fukuoka => "fukuoka",
        }
    }
}

/// No two channels share a key.
pub proof fn lemma_channel_keys_differ(one: RadioChannel, other: RadioChannel)
    requires
        one != other,
    ensures
        one.token() != other.token(),
{
    reveal_strlit("r1hls");
    reveal_strlit("r2hls");
    reveal_strlit("fmhls");
    assert(one.token()[0] != other.token()[0] || one.token()[1] != other.token()[1]);
}

/// No two regions share a key.
pub proof fn lemma_location_keys_differ(one: RadioLocation, other: RadioLocation)
    requires
        one != other,
    ensures
        one.token() != other.token(),
{
    reveal_strlit("sapporo");
    reveal_strlit("sendai");
    reveal_strlit("tokyo");
    reveal_strlit("nagoya");
    reveal_strlit("osaka");
    reveal_strlit("hiroshima");
    reveal_strlit("matsuyama");
    reveal_strlit("fukuoka");
    assert(one.token().len() != other.token().len() || one.token()[0] != other.token()[0]);
}

} // verus!
