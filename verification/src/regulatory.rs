//! Regulatory domains: rule lists, domain queries and change events.

use vstd::prelude::*;
use crate::attribute::{Attribute, attr_models, parse_attributes, spec_parse_attrs};
use crate::attributes::RegulatoryRuleAttribute;
use crate::codec::le_unpack;
use crate::error::Error;
use crate::generic::Message;
use crate::socket::ConvertFrom;
use crate::strings::spec_read_string;

verus! {

/// Regulatory rule flag: OFDM modulation is not allowed.
pub const REG_RULE_NO_OFDM: u32 = 1;

/// Regulatory rule flag: CCK modulation is not allowed.
pub const REG_RULE_NO_CCK: u32 = 2;

/// Regulatory rule flag: indoor operation is not allowed.
pub const REG_RULE_NO_INDOOR: u32 = 4;

/// Regulatory rule flag: outdoor operation is not allowed.
pub const REG_RULE_NO_OUTDOOR: u32 = 8;

/// Regulatory rule flag: radar detection is required.
pub const REG_RULE_DFS: u32 = 0x10;

/// Regulatory rule flag: only point-to-point links are allowed.
pub const REG_RULE_PTP_ONLY: u32 = 0x20;

/// Regulatory rule flag: only point-to-multipoint links are allowed.
pub const REG_RULE_PTMP_ONLY: u32 = 0x40;

/// Regulatory rule flag: initiating radiation is not allowed.
pub const REG_RULE_NO_IR: u32 = 0x80;

/// Regulatory rule flag: IBSS operation is not allowed.
pub const REG_RULE_NO_IBSS: u32 = 0x100;

/// Regulatory rule flag: automatic bandwidth calculation is allowed.
pub const REG_RULE_AUTO_BW: u32 = 0x800;

/// Regulatory rule flag: concurrent initiating radiation is allowed.
pub const REG_RULE_IR_CONCURRENT: u32 = 0x1000;

/// Regulatory rule flag: HT40 below the control channel is not allowed.
pub const REG_RULE_HT40MINUS: u32 = 0x2000;

/// Regulatory rule flag: HT40 above the control channel is not allowed.
pub const REG_RULE_HT40PLUS: u32 = 0x4000;

/// Regulatory rule flag: 80 MHz operation is not allowed.
pub const REG_RULE_NO_80MHZ: u32 = 0x8000;

/// Regulatory rule flag: 160 MHz operation is not allowed.
pub const REG_RULE_NO_160MHZ: u32 = 0x10000;

/// The flag bits the library knows; unknown bits are dropped when a
/// rule is decoded.
pub const REG_RULE_FLAG_MASK: u32 = 0x1_F9FF;

/// The regulatory body a domain originates from.
#[derive(Clone, Copy, Debug, PartialEq, Eq, Structural)]
pub enum RegulatoryRegion {
    Country,
    World,
    WorldDevice,
    Intersection,
}

/// The region a wire octet encodes.
pub open spec fn spec_region_from(v: u8) -> RegulatoryRegion {
    if v == 1 {
        RegulatoryRegion::Country
    } else if v == 2 {
        RegulatoryRegion::WorldDevice
    } else if v == 3 {
        RegulatoryRegion::Intersection
    } else {
        RegulatoryRegion::World
    }
}

impl RegulatoryRegion {
    /// The region a wire octet encodes; unknown values read as the
    /// world domain.
    pub fn from_wire(v: u8) -> (r: RegulatoryRegion)
        ensures
            r == spec_region_from(v),
    {
        if v == 1 {
            RegulatoryRegion::Country
        } else if v == 2 {
            RegulatoryRegion::WorldDevice
        } else if v == 3 {
            RegulatoryRegion::Intersection
        } else {
            RegulatoryRegion::World
        }
    }
}

/// Who asked for a regulatory change.
#[derive(Clone, Copy, Debug, PartialEq, Eq, Structural)]
pub enum RegulatoryInitiator {
    Core,
    User,
    Driver,
    InformationElement,
}

/// The initiator a wire octet encodes.
pub open spec fn spec_initiator_from(v: u8) -> RegulatoryInitiator {
    if v == 1 {
        RegulatoryInitiator::User
    } else if v == 2 {
        RegulatoryInitiator::Driver
    } else if v == 3 {
        RegulatoryInitiator::InformationElement
    } else {
        RegulatoryInitiator::Core
    }
}

impl RegulatoryInitiator {
    /// The initiator a wire octet encodes; unknown values read as the
    /// wireless core.
    pub fn from_wire(v: u8) -> (r: RegulatoryInitiator)
        ensures
            r == spec_initiator_from(v),
    {
        if v == 1 {
            RegulatoryInitiator::User
        } else if v == 2 {
            RegulatoryInitiator::Driver
        } else if v == 3 {
            RegulatoryInitiator::InformationElement
        } else {
            RegulatoryInitiator::Core
        }
    }
}

/// The ruling body a domain notification names.
#[derive(Clone, Copy, Debug, PartialEq, Eq, Structural)]
pub enum RegulatoryOrganization {
    Unset,
    FCC,
    ETSI,
    Japan,
}

/// The organization a wire octet encodes.
pub open spec fn spec_organization_from(v: u8) -> RegulatoryOrganization {
    if v == 1 {
        RegulatoryOrganization::FCC
    } else if v == 2 {
        RegulatoryOrganization::ETSI
    } else if v == 3 {
        RegulatoryOrganization::Japan
    } else {
        RegulatoryOrganization::Unset
    }
}

impl RegulatoryOrganization {
    /// The organization a wire octet encodes.
    pub fn from_wire(v: u8) -> (r: RegulatoryOrganization)
        ensures
            r == spec_organization_from(v),
    {
        if v == 1 {
            RegulatoryOrganization::FCC
        } else if v == 2 {
            RegulatoryOrganization::ETSI
        } else if v == 3 {
            RegulatoryOrganization::Japan
        } else {
            RegulatoryOrganization::Unset
        }
    }
}

/// One regulatory rule: a frequency range with its bandwidth, power
/// and flag limits, all in the kernel's fixed-point units.
#[derive(Clone, Copy, Debug, PartialEq, Eq, Structural)]
pub struct RegulatoryRule {
    pub start: u32,
    pub end: u32,
    pub flags: u32,
    pub bandwidth: u32,
    pub effective_power: u32,
    pub antenna_gain: u32,
    pub channel_available_check_time: u32,
}

/// The rule with every field still unset.
pub open spec fn empty_rule() -> RegulatoryRule {
    RegulatoryRule {
        start: 0,
        end: 0,
        flags: 0,
        bandwidth: 0,
        effective_power: 0,
        antenna_gain: 0,
        channel_available_check_time: 0,
    }
}

/// Walk a rule's attributes, keeping the last value seen for each
/// field. A recognized field whose payload is short fails the rule.
pub open spec fn rule_scan(attrs: Seq<(int, Seq<u8>)>, acc: RegulatoryRule) -> Result<
    RegulatoryRule,
    Error,
>
    decreases attrs.len(),
{
    if attrs.len() == 0 {
        Ok(acc)
    } else {
        let a = attrs[0];
        let rest = attrs.drop_first();
        if 1 <= a.0 <= 7 {
            if a.1.len() < 4 {
                Err(Error::Truncated)
            } else {
                let v = le_unpack(a.1.take(4)) as u32;
                if a.0 == 1 {
                    rule_scan(rest, RegulatoryRule { flags: v & REG_RULE_FLAG_MASK, ..acc })
                } else if a.0 == 2 {
                    rule_scan(rest, RegulatoryRule { start: v, ..acc })
                } else if a.0 == 3 {
                    rule_scan(rest, RegulatoryRule { end: v, ..acc })
                } else if a.0 == 4 {
                    rule_scan(rest, RegulatoryRule { bandwidth: v, ..acc })
                } else if a.0 == 5 {
                    rule_scan(rest, RegulatoryRule { antenna_gain: v, ..acc })
                } else if a.0 == 6 {
                    rule_scan(rest, RegulatoryRule { effective_power: v, ..acc })
                } else {
                    rule_scan(rest, RegulatoryRule { channel_available_check_time: v, ..acc })
                }
            }
        } else {
            rule_scan(rest, acc)
        }
    }
}

/// The rule one nested rule entry decodes to.
pub open spec fn spec_rule_of(payload: Seq<u8>) -> Result<RegulatoryRule, Error> {
    rule_scan(spec_parse_attrs(payload), empty_rule())
}

/// The rules of a rule-list payload: one per nested entry, entries
/// that fail to decode left out.
pub open spec fn spec_rules(entries: Seq<(int, Seq<u8>)>) -> Seq<RegulatoryRule>
    decreases entries.len(),
{
    if entries.len() == 0 {
        Seq::empty()
    } else {
        match spec_rule_of(entries[0].1) {
            Ok(rule) => seq![rule] + spec_rules(entries.drop_first()),
            Err(_) => spec_rules(entries.drop_first()),
        }
    }
}

impl RegulatoryRule {
    /// Decode one rule from its attribute list.
    #[verifier::loop_isolation(false)]
    pub fn from_attributes(attributes: &Vec<Attribute>) -> (r: Result<RegulatoryRule, Error>)
        ensures
            r == rule_scan(attr_models(attributes@), empty_rule()),
    {
        let ghost models = attr_models(attributes@);
        let mut rule = RegulatoryRule {
            start: 0,
            end: 0,
            flags: 0,
            bandwidth: 0,
            effective_power: 0,
            antenna_gain: 0,
            channel_available_check_time: 0,
        };
        let mut i: usize = 0;
        proof {
            assert(models.skip(0) =~= models);
        }
        while i < attributes.len()
            invariant
                i <= attributes@.len(),
                rule_scan(models, empty_rule()) == rule_scan(models.skip(i as int), rule),
            decreases attributes@.len() - i,
        {
            let a = &attributes[i];
            proof {
                assert(models[i as int] == (a.identifier as int, a.data@));
                assert(models.skip(i as int).drop_first() =~= models.skip(i + 1));
                assert(models.skip(i as int)[0] == models[i as int]);
            }
            match RegulatoryRuleAttribute::convert_from(a.identifier) {
                Some(id) => {
                    let v = match a.as_u32() {
                        Ok(v) => v,
                        Err(e) => {
                            return Err(e);
                        },
                    };
                    match id {
                        RegulatoryRuleAttribute::Flags => {
                            rule.flags = v & REG_RULE_FLAG_MASK;
                        },
                        RegulatoryRuleAttribute::RangeStart => {
                            rule.start = v;
                        },
                        RegulatoryRuleAttribute::RangeEnd => {
                            rule.end = v;
                        },
                        RegulatoryRuleAttribute::MaximumBandwidth => {
                            rule.bandwidth = v;
                        },
                        RegulatoryRuleAttribute::MaximumAntennaGain => {
                            rule.antenna_gain = v;
                        },
                        RegulatoryRuleAttribute::MaximumEffectiveIsotropicRadiatedPower => {
                            rule.effective_power = v;
                        },
                        RegulatoryRuleAttribute::ChannelAvailableCheckTime => {
                            rule.channel_available_check_time = v;
                        },
                    }
                },
                None => {},
            }
            i = i + 1;
        }
        proof {
            assert(models.skip(models.len() as int) =~= Seq::<(int, Seq<u8>)>::empty());
        }
        Ok(rule)
    }

    /// Decode every rule of a rule-list payload, passing over entries
    /// that fail to decode.
    #[verifier::loop_isolation(false)]
    pub fn from_nested_attribute_array(buffer: &[u8]) -> (r: Vec<RegulatoryRule>)
        ensures
            r@ == spec_rules(spec_parse_attrs(buffer@)),
    {
        let entries = parse_attributes(buffer);
        let ghost models = spec_parse_attrs(buffer@);
        let mut rules: Vec<RegulatoryRule> = Vec::new();
        let mut i: usize = 0;
        proof {
            assert(models.skip(0) =~= models);
        }
        while i < entries.len()
            invariant
                i <= entries@.len(),
                spec_rules(models) =~= rules@ + spec_rules(models.skip(i as int)),
            decreases entries@.len() - i,
        {
            let a = &entries[i];
            proof {
                assert(models[i as int] == (a.identifier as int, a.data@));
                assert(models.skip(i as int).drop_first() =~= models.skip(i + 1));
                assert(models.skip(i as int)[0] == models[i as int]);
            }
            let inner = parse_attributes(a.data.as_slice());
            match RegulatoryRule::from_attributes(&inner) {
                Ok(rule) => {
                    rules.push(rule);
                },
                Err(_) => {},
            }
            i = i + 1;
        }
        proof {
            assert(models.skip(models.len() as int) =~= Seq::<(int, Seq<u8>)>::empty());
            assert(rules@ =~= rules@ + spec_rules(models.skip(models.len() as int)));
        }
        rules
    }
}

/// A regulatory domain: the country, the ruling body, and the rules.
#[derive(Debug)]
pub struct RegulatoryInformation {
    pub country: String,
    pub region: RegulatoryOrganization,
    pub rules: Vec<RegulatoryRule>,
}

/// Walk a domain message's attributes, keeping the last country,
/// region and rule list seen.
pub open spec fn domain_scan(
    attrs: Seq<(int, Seq<u8>)>,
    country: Seq<char>,
    region: RegulatoryOrganization,
    rules: Seq<RegulatoryRule>,
) -> Result<(Seq<char>, RegulatoryOrganization, Seq<RegulatoryRule>), Error>
    decreases attrs.len(),
{
    if attrs.len() == 0 {
        Ok((country, region, rules))
    } else {
        let a = attrs[0];
        let rest = attrs.drop_first();
        if a.0 == 33 {
            match spec_read_string(a.1) {
                Some(s) => domain_scan(rest, s, region, rules),
                None => Err(Error::Utf8),
            }
        } else if a.0 == 146 {
            if a.1.len() >= 1 {
                domain_scan(rest, country, spec_organization_from(a.1[0]), rules)
            } else {
                Err(Error::Truncated)
            }
        } else if a.0 == 34 {
            domain_scan(rest, country, region, spec_rules(spec_parse_attrs(a.1)))
        } else {
            domain_scan(rest, country, region, rules)
        }
    }
}

impl RegulatoryInformation {
    /// Decode a regulatory domain from a parsed nl80211 message.
    #[verifier::loop_isolation(false)]
    pub fn from_message(message: &Message) -> (r: Result<RegulatoryInformation, Error>)
        ensures
            (match domain_scan(
                attr_models(message.attributes@),
                Seq::empty(),
                RegulatoryOrganization::Unset,
                Seq::empty(),
            ) {
                Ok(model) => r matches Ok(d) && d.country@ == model.0 && d.region == model.1
                    && d.rules@ == model.2,
                Err(e) => r == Err::<RegulatoryInformation, Error>(e),
            }),
    {
        let ghost models = attr_models(message.attributes@);
        let mut country: String = String::new();
        let mut region: RegulatoryOrganization = RegulatoryOrganization::Unset;
        let mut rules: Vec<RegulatoryRule> = Vec::new();
        let mut i: usize = 0;
        proof {
            assert(models.skip(0) =~= models);
        }
        while i < message.attributes.len()
            invariant
                i <= message.attributes@.len(),
                domain_scan(models, Seq::empty(), RegulatoryOrganization::Unset, Seq::empty())
                    == domain_scan(models.skip(i as int), country@, region, rules@),
            decreases message.attributes@.len() - i,
        {
            let a = &message.attributes[i];
            proof {
                assert(models[i as int] == (a.identifier as int, a.data@));
                assert(models.skip(i as int).drop_first() =~= models.skip(i + 1));
                assert(models.skip(i as int)[0] == models[i as int]);
            }
            if a.identifier == 33 {
                match a.as_string() {
                    Ok(s) => {
                        country = s;
                    },
                    Err(e) => {
                        return Err(e);
                    },
                }
            } else if a.identifier == 146 {
                match a.as_u8() {
                    Ok(v) => {
                        proof {
                            assert(a.data@.take(1) =~= a.data@.subrange(0, 1));
                            crate::codec::lemma_le_unpack1(a.data@.take(1));
                        }
                        region = RegulatoryOrganization::from_wire(v);
                    },
                    Err(e) => {
                        return Err(e);
                    },
                }
            } else if a.identifier == 34 {
                rules = RegulatoryRule::from_nested_attribute_array(a.data.as_slice());
            }
            i = i + 1;
        }
        proof {
            assert(models.skip(models.len() as int) =~= Seq::<(int, Seq<u8>)>::empty());
        }
        Ok(RegulatoryInformation { country, region, rules })
    }
}

/// A regulatory change notification: the new country, the domain
/// kind, and who initiated the change.
#[derive(Debug)]
pub struct RegulatoryChange {
    pub country: Option<String>,
    pub region: RegulatoryRegion,
    pub initiator: RegulatoryInitiator,
}

/// Walk a change notification's attributes. A country payload counts
/// only when it holds at least two octets, and one that is not text
/// reads as no country; short initiator or kind payloads fail.
pub open spec fn change_scan(
    attrs: Seq<(int, Seq<u8>)>,
    country: Option<Seq<char>>,
    region: u8,
    initiator: u8,
) -> Result<(Option<Seq<char>>, u8, u8), Error>
    decreases attrs.len(),
{
    if attrs.len() == 0 {
        Ok((country, region, initiator))
    } else {
        let a = attrs[0];
        let rest = attrs.drop_first();
        if a.0 == 33 {
            if a.1.len() >= 2 {
                change_scan(rest, spec_read_string(a.1), region, initiator)
            } else {
                change_scan(rest, country, region, initiator)
            }
        } else if a.0 == 48 {
            if a.1.len() >= 1 {
                change_scan(rest, country, region, a.1[0])
            } else {
                Err(Error::Truncated)
            }
        } else if a.0 == 49 {
            if a.1.len() >= 1 {
                change_scan(rest, country, a.1[0], initiator)
            } else {
                Err(Error::Truncated)
            }
        } else {
            change_scan(rest, country, region, initiator)
        }
    }
}

/// The model of an optional decoded country string.
pub open spec fn country_model(c: Option<String>) -> Option<Seq<char>> {
    match c {
        Some(s) => Some(s@),
        None => None,
    }
}

impl RegulatoryChange {
    /// Decode a regulatory change notification from a parsed nl80211
    /// message.
    #[verifier::loop_isolation(false)]
    pub fn from_message(message: &Message) -> (r: Result<RegulatoryChange, Error>)
        ensures
            (match change_scan(attr_models(message.attributes@), None, 0, 0) {
                Ok(model) => r matches Ok(c) && country_model(c.country) == model.0 && c.region
                    == spec_region_from(model.1) && c.initiator == spec_initiator_from(model.2),
                Err(e) => r == Err::<RegulatoryChange, Error>(e),
            }),
    {
        let ghost models = attr_models(message.attributes@);
        let mut country: Option<String> = None;
        let mut region: u8 = 0;
        let mut initiator: u8 = 0;
        let mut i: usize = 0;
        proof {
            assert(models.skip(0) =~= models);
        }
        while i < message.attributes.len()
            invariant
                i <= message.attributes@.len(),
                change_scan(models, None, 0, 0) == change_scan(
                    models.skip(i as int),
                    country_model(country),
                    region,
                    initiator,
                ),
            decreases message.attributes@.len() - i,
        {
            let a = &message.attributes[i];
            proof {
                assert(models[i as int] == (a.identifier as int, a.data@));
                assert(models.skip(i as int).drop_first() =~= models.skip(i + 1));
                assert(models.skip(i as int)[0] == models[i as int]);
            }
            if a.identifier == 33 {
                if a.data.len() >= 2 {
                    country = match a.as_string() {
                        Ok(s) => Some(s),
                        Err(_) => None,
                    };
                }
            } else if a.identifier == 48 {
                match a.as_u8() {
                    Ok(v) => {
                        proof {
                            crate::codec::lemma_le_unpack1(a.data@.take(1));
                        }
                        initiator = v;
                    },
                    Err(e) => {
                        return Err(e);
                    },
                }
            } else if a.identifier == 49 {
                match a.as_u8() {
                    Ok(v) => {
                        proof {
                            crate::codec::lemma_le_unpack1(a.data@.take(1));
                        }
                        region = v;
                    },
                    Err(e) => {
                        return Err(e);
                    },
                }
            }
            i = i + 1;
        }
        proof {
            assert(models.skip(models.len() as int) =~= Seq::<(int, Seq<u8>)>::empty());
        }
        Ok(RegulatoryChange { country, region: RegulatoryRegion::from_wire(region),
            initiator: RegulatoryInitiator::from_wire(initiator) })
    }
}

} // verus!
