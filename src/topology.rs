use vstd::prelude::*;

use crate::address::{addr_prefix, find_separator, has_separator, split_address};
use crate::error::ContractError;
use crate::types::{
    Config, Prefix, TransceiverType, TransmissionDescription, TransmissionDirection,
    TransmissionInfo, TransmissionMode, TransmissionRoute, TransmissionStage,
};

verus! {

pub open spec fn opt_view(o: Option<String>) -> Option<Seq<char>> {
    match o {
        Some(s) => Some(s@),
        None => None,
    }
}

pub open spec fn strings_view(v: Seq<String>) -> Seq<Seq<char>> {
    v.map_values(|s: String| s@)
}

/// The chain prefixes of the parties of a transmission, as characters.
pub struct PrefixView {
    pub hub: Seq<char>,
    pub home_outpost: Seq<char>,
    pub retranslation_outpost: Option<Seq<char>>,
}

/// A routing decision with each address seen as its characters.
pub struct TransmissionInfoView {
    pub description: TransmissionDescription,
    pub prefix: PrefixView,
    pub home_outpost: Seq<char>,
    pub hub: Seq<char>,
    pub transceiver: Seq<char>,
    pub target: Seq<char>,
}

impl View for TransmissionInfo {
    type V = TransmissionInfoView;

    open spec fn view(&self) -> TransmissionInfoView {
        TransmissionInfoView {
            description: self.description,
            prefix: PrefixView {
                hub: self.prefix.hub@,
                home_outpost: self.prefix.home_outpost@,
                retranslation_outpost: opt_view(self.prefix.retranslation_outpost),
            },
            home_outpost: self.home_outpost@,
            hub: self.hub@,
            transceiver: self.transceiver@,
            target: self.target@,
        }
    }
}

/// Whether `address` lies on the chain of `prefix`.
pub open spec fn on_chain(address: Seq<char>, prefix: Seq<char>) -> bool {
    has_separator(address) && addr_prefix(address) == prefix
}

/// The first known outpost on the chain of `prefix`; where none is known, the sending
/// transceiver itself.
pub open spec fn home_outpost_of(
    outposts: Seq<Seq<char>>,
    prefix: Seq<char>,
    sender: Seq<char>,
) -> Seq<char>
    decreases outposts.len(),
{
    if outposts.len() == 0 {
        sender
    } else if on_chain(outposts[0], prefix) {
        outposts[0]
    } else {
        home_outpost_of(outposts.drop_first(), prefix, sender)
    }
}

/// The target of a transmission: the given one, or else the counterpart of this node.
pub open spec fn resolved_target(
    is_hub: bool,
    hub: Seq<char>,
    home_outpost: Seq<char>,
    target: Option<Seq<char>>,
) -> Seq<char> {
    match target {
        Some(t) => t,
        None => if is_hub {
            home_outpost
        } else {
            hub
        },
    }
}

pub open spec fn is_whitelisted(
    t: Seq<char>,
    hub: Seq<char>,
    home_outpost: Seq<char>,
    retranslation: Option<Seq<char>>,
) -> bool {
    t == hub || t == home_outpost || retranslation == Some(t)
}

/// The routing decision for a request, as a function of the configuration and the addresses.
pub open spec fn transmission_info(
    is_hub: bool,
    hub: Seq<char>,
    retranslation: Option<Seq<char>>,
    target: Option<Seq<char>>,
    home_collection: Seq<char>,
    outposts: Seq<Seq<char>>,
    transceiver: Seq<char>,
    sender: Seq<char>,
) -> Result<TransmissionInfoView, ContractError> {
    if !has_separator(home_collection) {
        Err(ContractError::InvalidAddress)
    } else {
        let home_outpost = home_outpost_of(outposts, addr_prefix(home_collection), sender);
        let t = resolved_target(is_hub, hub, home_outpost, target);
        if !is_whitelisted(t, hub, home_outpost, retranslation) {
            Err(ContractError::WrongTargetAddress)
        } else if !(has_separator(transceiver) && has_separator(t) && has_separator(hub)
            && has_separator(home_outpost) && (retranslation matches Some(x) ==> has_separator(
            x,
        ))) {
            Err(ContractError::InvalidAddress)
        } else {
            Ok(
                TransmissionInfoView {
                    description: TransmissionDescription {
                        mode: if addr_prefix(transceiver) == addr_prefix(t) {
                            TransmissionMode::Local
                        } else {
                            TransmissionMode::Interchain
                        },
                        direction: if is_hub || t != hub {
                            TransmissionDirection::FromHub
                        } else {
                            TransmissionDirection::ToHub
                        },
                        stage: if retranslation == Some(transceiver) {
                            TransmissionStage::Second
                        } else {
                            TransmissionStage::First
                        },
                        route: if (is_hub && t == home_outpost) || (!is_hub && t == hub) {
                            TransmissionRoute::Short
                        } else {
                            TransmissionRoute::Long
                        },
                    },
                    prefix: PrefixView {
                        hub: addr_prefix(hub),
                        home_outpost: addr_prefix(home_outpost),
                        retranslation_outpost: match retranslation {
                            Some(x) => Some(addr_prefix(x)),
                            None => None,
                        },
                    },
                    home_outpost,
                    hub,
                    transceiver,
                    target: t,
                },
            )
        }
    }
}

pub open spec fn result_view(r: Result<TransmissionInfo, ContractError>) -> Result<
    TransmissionInfoView,
    ContractError,
> {
    match r {
        Ok(i) => Ok(i@),
        Err(e) => Err(e),
    }
}

/// Where no known outpost lies on the chain of the home collection, the sending transceiver is
/// taken for the home outpost.
pub proof fn lemma_bootstrap_home_outpost(
    outposts: Seq<Seq<char>>,
    prefix: Seq<char>,
    sender: Seq<char>,
)
    requires
        forall|i: int| 0 <= i < outposts.len() ==> !on_chain(#[trigger] outposts[i], prefix),
    ensures
        home_outpost_of(outposts, prefix, sender) == sender,
    decreases outposts.len(),
{
    if outposts.len() > 0 {
        assert(!on_chain(outposts[0], prefix));
        assert forall|i: int| 0 <= i < outposts.drop_first().len() implies !on_chain(
            #[trigger] outposts.drop_first()[i],
            prefix,
        ) by {
            assert(outposts.drop_first()[i] == outposts[i + 1]);
        }
        lemma_bootstrap_home_outpost(outposts.drop_first(), prefix, sender);
    }
}

/// A target other than the hub, the home outpost and the retranslation outpost is refused
/// with `WrongTargetAddress`.
pub proof fn lemma_foreign_target_refused(
    is_hub: bool,
    hub: Seq<char>,
    retranslation: Option<Seq<char>>,
    target: Seq<char>,
    home_collection: Seq<char>,
    outposts: Seq<Seq<char>>,
    transceiver: Seq<char>,
    sender: Seq<char>,
)
    requires
        has_separator(home_collection),
        !is_whitelisted(
            target,
            hub,
            home_outpost_of(outposts, addr_prefix(home_collection), sender),
            retranslation,
        ),
    ensures
        transmission_info(
            is_hub,
            hub,
            retranslation,
            Some(target),
            home_collection,
            outposts,
            transceiver,
            sender,
        ) == Err::<TransmissionInfoView, ContractError>(ContractError::WrongTargetAddress),
{
}

pub(crate) fn has_sep(s: &str) -> (r: bool)
    ensures
        r == has_separator(s@),
{
    find_separator(s).is_some()
}

pub(crate) fn prefix_of(s: &str) -> (r: String)
    requires
        has_separator(s@),
    ensures
        r@ == addr_prefix(s@),
{
    split_address(s).0
}

/// The first known outpost on the chain of `prefix`, or else `sender`.
pub fn find_home_outpost(outpost_list: &[String], prefix: &String, sender: &str) -> (r: String)
    ensures
        r@ == home_outpost_of(strings_view(outpost_list@), prefix@, sender@),
{
    let ghost all = strings_view(outpost_list@);
    assert(all.skip(0) =~= all);
    let mut i: usize = 0;
    while i < outpost_list.len()
        invariant
            i <= outpost_list@.len(),
            all == strings_view(outpost_list@),
            home_outpost_of(all, prefix@, sender@) == home_outpost_of(
                all.skip(i as int),
                prefix@,
                sender@,
            ),
        decreases outpost_list@.len() - i,
    {
        let x = &outpost_list[i];
        let ghost rest = all.skip(i as int);
        assert(rest[0] == x@);
        assert(rest.drop_first() =~= all.skip(i + 1));
        if has_sep(x.as_str()) {
            let p = prefix_of(x.as_str());
            if p == *prefix {
                return x.clone();
            }
        }
        i = i + 1;
    }
    assert(all.skip(i as int) =~= seq![]);
    sender.to_owned()
}

/// Decides how a request travels: the mode, direction, stage and route of the transmission
/// from this transceiver to the target.
pub fn get_transmission_info(
    config: &Config,
    retranslation_outpost: &Option<String>,
    target: &Option<String>,
    home_collection: &str,
    outpost_list: &[String],
    transceiver: &str,
    sender_transceiver: &str,
) -> (r: Result<TransmissionInfo, ContractError>)
    ensures
        result_view(r) == transmission_info(
            config.transceiver_type == TransceiverType::Hub,
            config.hub_address@,
            opt_view(*retranslation_outpost),
            opt_view(*target),
            home_collection@,
            strings_view(outpost_list@),
            transceiver@,
            sender_transceiver@,
        ),
{
    let is_hub_sender = config.transceiver_type.is_hub();
    if !has_sep(home_collection) {
        return Err(ContractError::InvalidAddress);
    }
    let home_prefix = prefix_of(home_collection);
    let hub = config.hub_address.clone();
    let home_outpost = find_home_outpost(outpost_list, &home_prefix, sender_transceiver);
    let target: String = match target {
        Some(t) => t.clone(),
        None => if is_hub_sender {
            home_outpost.clone()
        } else {
            hub.clone()
        },
    };
    let is_retranslation_target = match retranslation_outpost {
        Some(x) => *x == target,
        None => false,
    };
    if !(target == hub || target == home_outpost || is_retranslation_target) {
        return Err(ContractError::WrongTargetAddress);
    }
    let retranslation_ok = match retranslation_outpost {
        Some(x) => has_sep(x.as_str()),
        None => true,
    };
    if !(has_sep(transceiver) && has_sep(target.as_str()) && has_sep(hub.as_str()) && has_sep(
        home_outpost.as_str(),
    ) && retranslation_ok) {
        return Err(ContractError::InvalidAddress);
    }
    let transceiver_prefix = prefix_of(transceiver);
    let target_prefix = prefix_of(target.as_str());
    let mode = if transceiver_prefix == target_prefix {
        TransmissionMode::Local
    } else {
        TransmissionMode::Interchain
    };
    let direction = if is_hub_sender || target != hub {
        TransmissionDirection::FromHub
    } else {
        TransmissionDirection::ToHub
    };
    let transceiver_owned = transceiver.to_owned();
    let stage = match retranslation_outpost {
        Some(x) => if *x == transceiver_owned {
            TransmissionStage::Second
        } else {
            TransmissionStage::First
        },
        None => TransmissionStage::First,
    };
    let route = if (is_hub_sender && target == home_outpost) || (!is_hub_sender && target == hub) {
        TransmissionRoute::Short
    } else {
        TransmissionRoute::Long
    };
    let prefix = Prefix {
        hub: prefix_of(hub.as_str()),
        home_outpost: prefix_of(home_outpost.as_str()),
        retranslation_outpost: match retranslation_outpost {
            Some(x) => Some(prefix_of(x.as_str())),
            None => None,
        },
    };
    Ok(
        TransmissionInfo {
            description: TransmissionDescription { mode, direction, stage, route },
            prefix,
            home_outpost,
            hub,
            transceiver: transceiver_owned,
            target,
        },
    )
}

} // verus!
